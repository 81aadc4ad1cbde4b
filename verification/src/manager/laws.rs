//! What holds of the scene stack across operations.
use vstd::prelude::*;

use crate::manager::internal::StackData;
use crate::manager::transition::{conclude_actions, is_target_index, Clearing};
use crate::manager::{is_index_of, on_stack, ManagerState};
use crate::tree::{
    is_within, law_modes_after_concat, modes_after, parents_after, signal_index, NodeId,
    NodeSnapshot, ProcessMode, TreeAction, TreeShape,
};

verus! {

impl ManagerState {
    /// No scene stands on the stack twice.
    pub open spec fn distinct(self) -> bool {
        forall|i: int, j: int|
            0 <= i < j < self.stack.len() ==> (#[trigger] self.stack[i]).scene
                != (#[trigger] self.stack[j]).scene
    }

    /// In a tree where nodes have process modes `modes`, every scene below the topmost one is
    /// disabled.
    pub open spec fn lower_scenes_disabled(self, modes: Map<NodeId, ProcessMode>) -> bool {
        forall|i: int|
            0 <= i < self.stack.len() - 1 ==> modes.dom().contains(
                (#[trigger] self.stack[i]).scene,
            ) && modes[self.stack[i].scene] == ProcessMode::Disabled
    }

    /// In a tree where nodes have process modes `modes`, the topmost scene has mode `mode`.
    pub open spec fn top_has_mode(self, modes: Map<NodeId, ProcessMode>, mode: ProcessMode) -> bool {
        self.stack.len() > 0 ==> modes.dom().contains(self.stack.last().scene)
            && modes[self.stack.last().scene] == mode
    }
}

/// The process modes after one action.
proof fn lemma_one_action(modes: Map<NodeId, ProcessMode>, action: TreeAction)
    ensures
        modes_after(modes, seq![action]) == match action {
            TreeAction::SetProcessMode { node, mode } => modes.insert(node, mode),
            _ => modes,
        },
{
    assert(seq![action].drop_last() =~= Seq::<TreeAction>::empty());
    assert(modes_after(modes, Seq::<TreeAction>::empty()) == modes);
}

/// The process modes after two lists of actions, where the second one sets none.
proof fn lemma_no_mode_set(
    modes: Map<NodeId, ProcessMode>,
    first: Seq<TreeAction>,
    second: Seq<TreeAction>,
)
    requires
        forall|i: int| 0 <= i < second.len() ==> !((#[trigger] second[i]) is SetProcessMode),
    ensures
        modes_after(modes, first + second) == modes_after(modes, first),
    decreases second.len(),
{
    if second.len() == 0 {
        assert(first + second =~= first);
    } else {
        assert((first + second).drop_last() =~= first + second.drop_last());
        lemma_no_mode_set(modes, first, second.drop_last());
    }
}

/// The process modes that a push leaves behind: the scene below is disabled, nothing else changes.
pub proof fn law_push_modes(s: ManagerState, new: NodeId, modes: Map<NodeId, ProcessMode>)
    ensures
        modes_after(modes, s.push_actions(new)) == if s.stack.len() == 0 {
            modes
        } else {
            modes.insert(s.stack.last().scene, ProcessMode::Disabled)
        },
{
    let pause: Seq<TreeAction> = if s.stack.len() == 0 {
        Seq::empty()
    } else {
        s.stack.last().pause_actions()
    };
    let rest = seq![
        TreeAction::ConnectTreeExiting { scene: new },
        TreeAction::AddChild { parent: s.scene_parent, child: new },
        TreeAction::EmitScenePushed { scene: new, index: signal_index(s.stack.len() as int) },
    ];
    assert(s.push_actions(new) =~= pause + rest);
    lemma_no_mode_set(modes, pause, rest);
    if s.stack.len() > 0 {
        lemma_one_action(
            modes,
            TreeAction::SetProcessMode { node: s.stack.last().scene, mode: ProcessMode::Disabled },
        );
    }
}

/// The process modes that an insertion below the top leaves behind: the inserted scene is
/// disabled, nothing else changes.
pub proof fn law_insert_modes(
    s: ManagerState,
    index: int,
    new: NodeId,
    modes: Map<NodeId, ProcessMode>,
)
    ensures
        modes_after(modes, s.insert_actions(index, new)) == modes.insert(
            new,
            ProcessMode::Disabled,
        ),
{
    let connect = seq![TreeAction::ConnectTreeExiting { scene: new }];
    let pause = seq![TreeAction::SetProcessMode { node: new, mode: ProcessMode::Disabled }];
    let place = if index == 0 {
        seq![
            TreeAction::AddPlaceholder { parent: s.scene_parent },
            TreeAction::MovePlaceholder { parent: s.scene_parent, position: 0 },
            TreeAction::ReplacePlaceholder { node: new },
            TreeAction::FreePlaceholder,
        ]
    } else {
        seq![TreeAction::AddSibling { sibling: s.stack[index - 1].scene, node: new }]
    };
    assert(s.insert_actions(index, new) =~= connect + pause + place);
    lemma_no_mode_set(modes, connect + pause, place);
    law_modes_after_concat(modes, connect, pause);
    lemma_one_action(modes, connect[0]);
    lemma_one_action(modes, pause[0]);
}

/// The process modes that unregistering an entry leaves behind: its scene has its own mode again,
/// nothing else changes.
pub proof fn law_unregister_modes(data: StackData, modes: Map<NodeId, ProcessMode>)
    ensures
        modes_after(modes, data.unregister_actions()) == modes.insert(
            data.scene,
            data.initial_process_mode,
        ),
{
    let disconnect = seq![TreeAction::DisconnectTreeExiting { scene: data.scene }];
    assert(data.unregister_actions() =~= data.unpause_actions() + disconnect);
    lemma_no_mode_set(modes, data.unpause_actions(), disconnect);
    lemma_one_action(modes, data.unpause_actions()[0]);
}

/// The process modes that a removal leaves behind: the removed scene has its own mode again, and
/// so has the scene below it where it was the topmost one. Nothing else changes.
pub proof fn law_remove_modes(s: ManagerState, index: int, modes: Map<NodeId, ProcessMode>)
    requires
        0 <= index < s.stack.len(),
    ensures
        modes_after(modes, s.remove_actions(index)) == ({
            let own = modes.insert(s.stack[index].scene, s.stack[index].initial_process_mode);
            if 0 < index == s.stack.len() - 1 {
                own.insert(s.stack[index - 1].scene, s.stack[index - 1].initial_process_mode)
            } else {
                own
            }
        }),
{
    let data = s.stack[index];
    let remove = seq![TreeAction::RemoveChild { parent: s.scene_parent, child: data.scene }];
    let gone = data.unregister_actions() + remove;
    law_unregister_modes(data, modes);
    lemma_no_mode_set(modes, data.unregister_actions(), remove);
    if index == s.stack.len() - 1 {
        let emit = seq![
            TreeAction::EmitScenePopped { scene: data.scene, index: signal_index(index) },
        ];
        if index == 0 {
            assert(s.remove_actions(index) =~= gone + emit);
            lemma_no_mode_set(modes, gone, emit);
        } else {
            let below = s.stack[index - 1];
            assert(s.remove_actions(index) =~= gone + below.unpause_actions() + emit);
            lemma_no_mode_set(modes, gone + below.unpause_actions(), emit);
            law_modes_after_concat(modes, gone, below.unpause_actions());
            lemma_one_action(modes_after(modes, gone), below.unpause_actions()[0]);
        }
    } else {
        assert(s.remove_actions(index) =~= gone);
    }
}

/// Popping what was just pushed gives the stack back, and every node its process mode.
pub proof fn law_push_then_pop(
    s: ManagerState,
    new: NodeSnapshot,
    top_mode: ProcessMode,
    modes: Map<NodeId, ProcessMode>,
)
    requires
        s.top_has_mode(modes, top_mode),
        modes.dom().contains(new.id) && modes[new.id] == new.process_mode,
    ensures
        ({
            let pushed = s.after_push(new, top_mode);
            let top = s.stack.len() as int;
            &&& pushed.stack[top].scene == new.id
            &&& pushed.after_remove(top) == (ManagerState { stack: s.paused(top_mode), ..s })
            &&& modes_after(modes, s.push_actions(new.id) + pushed.remove_actions(top)) == modes
        }),
{
    let pushed = s.after_push(new, top_mode);
    let top = s.stack.len() as int;
    assert(pushed.after_remove(top).stack =~= s.paused(top_mode));
    law_modes_after_concat(modes, s.push_actions(new.id), pushed.remove_actions(top));
    law_push_modes(s, new.id, modes);
    law_remove_modes(pushed, top, modes_after(modes, s.push_actions(new.id)));
    assert(modes_after(modes, s.push_actions(new.id) + pushed.remove_actions(top)) =~= modes);
}

/// Removing what was just inserted below the top gives the stack back, and the inserted node its
/// process mode.
pub proof fn law_insert_then_remove(
    s: ManagerState,
    index: int,
    new: NodeSnapshot,
    modes: Map<NodeId, ProcessMode>,
)
    requires
        0 <= index < s.stack.len(),
        modes.dom().contains(new.id) && modes[new.id] == new.process_mode,
    ensures
        ({
            let inserted = s.after_insert(index, new);
            &&& inserted.stack[index].scene == new.id
            &&& inserted.after_remove(index) == s
            &&& modes_after(
                modes,
                s.insert_actions(index, new.id) + inserted.remove_actions(index),
            ) == modes
        }),
{
    let inserted = s.after_insert(index, new);
    assert(inserted.after_remove(index).stack =~= s.stack);
    law_modes_after_concat(modes, s.insert_actions(index, new.id), inserted.remove_actions(index));
    law_insert_modes(s, index, new.id, modes);
    law_remove_modes(inserted, index, modes_after(modes, s.insert_actions(index, new.id)));
    assert(modes_after(
        modes,
        s.insert_actions(index, new.id) + inserted.remove_actions(index),
    ) =~= modes);
}

/// An insertion shifts the scenes from its index on to the right and leaves the others in place;
/// the topmost scene stays the topmost one.
pub proof fn law_insert_shifts(s: ManagerState, index: int, new: NodeSnapshot, i: int)
    requires
        0 <= index < s.stack.len(),
        0 <= i < s.stack.len(),
    ensures
        s.after_insert(index, new).stack.len() == s.stack.len() + 1,
        s.after_insert(index, new).stack[index].scene == new.id,
        i < index ==> s.after_insert(index, new).stack[i] == s.stack[i],
        i >= index ==> s.after_insert(index, new).stack[i + 1] == s.stack[i],
        s.after_insert(index, new).stack.last() == s.stack.last(),
{
}

/// Pushing a scene that is not on the stack keeps scenes distinct and all but the topmost one
/// disabled.
pub proof fn law_push_keeps_order(
    s: ManagerState,
    new: NodeSnapshot,
    top_mode: ProcessMode,
    modes: Map<NodeId, ProcessMode>,
)
    requires
        s.distinct(),
        s.lower_scenes_disabled(modes),
        !on_stack(s.stack, new.id),
    ensures
        s.after_push(new, top_mode).distinct(),
        s.after_push(new, top_mode).lower_scenes_disabled(
            modes_after(modes, s.push_actions(new.id)),
        ),
{
    let pushed = s.after_push(new, top_mode);
    law_push_modes(s, new.id, modes);
    assert forall|i: int| 0 <= i < s.stack.len() implies (#[trigger] pushed.stack[i]).scene
        == s.stack[i].scene && s.stack[i].scene != new.id by {
        if s.stack[i].scene == new.id {
            assert(on_stack(s.stack, new.id));
        }
    }
}

/// Inserting a scene that is not on the stack below the top keeps scenes distinct and all but the
/// topmost one disabled.
pub proof fn law_insert_keeps_order(
    s: ManagerState,
    index: int,
    new: NodeSnapshot,
    modes: Map<NodeId, ProcessMode>,
)
    requires
        0 <= index < s.stack.len(),
        s.distinct(),
        s.lower_scenes_disabled(modes),
        !on_stack(s.stack, new.id),
    ensures
        s.after_insert(index, new).distinct(),
        s.after_insert(index, new).lower_scenes_disabled(
            modes_after(modes, s.insert_actions(index, new.id)),
        ),
{
    let inserted = s.after_insert(index, new);
    law_insert_modes(s, index, new.id, modes);
    assert forall|i: int| 0 <= i < s.stack.len() implies (#[trigger] s.stack[i]).scene
        != new.id by {
        if s.stack[i].scene == new.id {
            assert(on_stack(s.stack, new.id));
        }
    }
    assert forall|i: int| 0 <= i < inserted.stack.len() implies (#[trigger] inserted.stack[i])
        == (if i < index {
        s.stack[i]
    } else if i == index {
        StackData::entry(new.id, new.process_mode)
    } else {
        s.stack[i - 1]
    }) by {}
}

/// Removing a scene keeps scenes distinct and all but the topmost one disabled. Where the topmost
/// scene is removed, the one below has its own process mode again.
pub proof fn law_remove_keeps_order(s: ManagerState, index: int, modes: Map<NodeId, ProcessMode>)
    requires
        0 <= index < s.stack.len(),
        s.distinct(),
        s.lower_scenes_disabled(modes),
    ensures
        s.after_remove(index).distinct(),
        s.after_remove(index).lower_scenes_disabled(modes_after(modes, s.remove_actions(index))),
        0 < index == s.stack.len() - 1 ==> s.after_remove(index).top_has_mode(
            modes_after(modes, s.remove_actions(index)),
            s.stack[index - 1].initial_process_mode,
        ),
{
    let removed = s.after_remove(index);
    law_remove_modes(s, index, modes);
    assert forall|i: int| 0 <= i < removed.stack.len() implies (#[trigger] removed.stack[i])
        == s.stack[if i < index {
        i
    } else {
        i + 1
    }] by {}
}

/// A scene that leaves the tree by itself is dropped without a change to the order: scenes stay
/// distinct and all but the topmost one disabled.
pub proof fn law_exit_keeps_order(s: ManagerState, index: int, modes: Map<NodeId, ProcessMode>)
    requires
        0 <= index < s.stack.len(),
        s.distinct(),
        s.lower_scenes_disabled(modes),
    ensures
        s.after_remove(index).distinct(),
        s.after_remove(index).lower_scenes_disabled(
            modes_after(modes, s.stack[index].unregister_actions()),
        ),
{
    let removed = s.after_remove(index);
    law_unregister_modes(s.stack[index], modes);
    assert forall|i: int| 0 <= i < removed.stack.len() implies (#[trigger] removed.stack[i])
        == s.stack[if i < index {
        i
    } else {
        i + 1
    }] by {}
}

/// A push is announced once, with the index of the pushed scene, after the scene was added to the
/// tree.
pub proof fn law_push_is_announced(s: ManagerState, new: NodeId, i: int)
    requires
        0 <= i < s.push_actions(new).len(),
    ensures
        s.push_actions(new)[i] is EmitScenePushed <==> i == s.push_actions(new).len() - 1,
        s.push_actions(new).last() == (TreeAction::EmitScenePushed {
            scene: new,
            index: signal_index(s.stack.len() as int),
        }),
        s.push_actions(new)[s.push_actions(new).len() - 2] == (TreeAction::AddChild {
            parent: s.scene_parent,
            child: new,
        }),
        !(s.push_actions(new)[i] is EmitScenePopped),
{
}

/// An insertion below the top is not announced.
pub proof fn law_insert_is_silent(s: ManagerState, index: int, new: NodeId, i: int)
    requires
        0 <= i < s.insert_actions(index, new).len(),
    ensures
        !(s.insert_actions(index, new)[i] is EmitScenePushed),
        !(s.insert_actions(index, new)[i] is EmitScenePopped),
{
}

/// A removal is announced if and only if it takes the topmost scene: then once, with the index
/// that the scene had, after the scene was removed from the tree. The scene's exit from the tree
/// is not watched any more by the time it is removed.
pub proof fn law_only_pop_is_announced(s: ManagerState, index: int, i: int)
    requires
        0 <= index < s.stack.len(),
        0 <= i < s.remove_actions(index).len(),
    ensures
        s.remove_actions(index)[1] == (TreeAction::DisconnectTreeExiting {
            scene: s.stack[index].scene,
        }),
        s.remove_actions(index)[2] == (TreeAction::RemoveChild {
            parent: s.scene_parent,
            child: s.stack[index].scene,
        }),
        s.remove_actions(index)[i] is EmitScenePopped <==> index == s.stack.len() - 1 && i
            == s.remove_actions(index).len() - 1,
        index == s.stack.len() - 1 ==> s.remove_actions(index).last()
            == (TreeAction::EmitScenePopped {
            scene: s.stack[index].scene,
            index: signal_index(index),
        }) && s.remove_actions(index).len() > 3,
        !(s.remove_actions(index)[i] is EmitScenePushed),
{
}

/// The place for the next scene of a transition is never out of bounds.
pub proof fn law_target_index_in_bounds(stack: Seq<StackData>, transition: NodeId, index: int)
    requires
        is_target_index(stack, transition, index),
    ensures
        0 <= index <= stack.len(),
        on_stack(stack, transition) ==> index < stack.len(),
{
}

/// The next scene of a transition ends up below the transition scene.
pub proof fn law_target_is_below_transition(
    s: ManagerState,
    transition: NodeId,
    place: int,
    index: int,
    target: NodeSnapshot,
)
    requires
        is_index_of(s.stack, transition, place),
        is_target_index(s.stack, transition, index),
    ensures
        s.after_insert(index, target).stack[index].scene == target.id,
        index < place + 1,
        s.after_insert(index, target).stack[place + 1].scene == transition,
{
    let found = choose|p: int| #[trigger]
        is_index_of(s.stack, transition, p) && index == (if p == 0 {
            0
        } else {
            p - 1
        });
    assert(on_stack(s.stack, transition)) by {
        assert(s.stack[place].scene == transition);
    }
    assert(is_index_of(s.stack, transition, found));
    assert(found == place) by {
        if found < place {
            assert(s.stack[found].scene == transition);
        } else if place < found {
            assert(s.stack[place].scene == transition);
        }
    }
}

/// A whole transition: the transition scene is pushed over the topmost scene, which is then
/// removed, the next scene is put on the stack below the transition scene, and the transition
/// scene is removed again. With a single scene to start from, what is left is the next scene alone,
/// which is announced. With more, the next scene is left one place below the scene that was second.
pub proof fn law_transition_replaces_scene(
    s: ManagerState,
    transition: NodeSnapshot,
    top_mode: ProcessMode,
    target: NodeSnapshot,
    index: int,
)
    requires
        s.stack.len() > 0,
        s.distinct(),
        !on_stack(s.stack, transition.id),
        is_target_index(
            s.after_push(transition, top_mode).after_remove(s.stack.len() - 1).stack,
            transition.id,
            index,
        ),
    ensures
        ({
            let started = s.after_push(transition, top_mode);
            let cleared = started.after_remove(s.stack.len() - 1);
            let covered = cleared.after_insert(index, target);
            let done = covered.after_remove(s.stack.len() as int);
            &&& is_index_of(started.stack, s.stack.last().scene, s.stack.len() - 1)
            &&& is_index_of(cleared.stack, transition.id, s.stack.len() - 1)
            &&& index == (if s.stack.len() == 1 {
                0
            } else {
                s.stack.len() - 2
            })
            &&& covered.stack[s.stack.len() as int].scene == transition.id
            &&& target.id != transition.id ==> is_index_of(
                covered.stack,
                transition.id,
                s.stack.len() as int,
            )
            &&& done.stack == s.stack.drop_last().insert(
                index,
                StackData::entry(target.id, target.process_mode),
            )
            &&& s.stack.len() == 1 ==> done.stack == seq![
                StackData::entry(target.id, target.process_mode),
            ]
            &&& s.stack.len() == 1 ==> conclude_actions(done, target.id, false) == seq![
                TreeAction::EmitScenePushed { scene: target.id, index: 0 },
            ]
        }),
{
    let n = s.stack.len();
    let started = s.after_push(transition, top_mode);
    let cleared = started.after_remove(n - 1);
    let covered = cleared.after_insert(index, target);
    let done = covered.after_remove(n as int);
    assert forall|i: int| 0 <= i < n implies (#[trigger] s.stack[i]).scene != transition.id by {
        if s.stack[i].scene == transition.id {
            assert(on_stack(s.stack, transition.id));
        }
    }
    assert forall|i: int| 0 <= i < n implies (#[trigger] started.stack[i]).scene
        == s.stack[i].scene by {}
    assert forall|i: int| 0 <= i < n - 1 implies #[trigger] cleared.stack[i] == s.stack[i] by {}
    assert(cleared.stack[n - 1].scene == transition.id);
    assert(is_index_of(cleared.stack, transition.id, n - 1));
    assert(on_stack(cleared.stack, transition.id));
    let found = choose|p: int| #[trigger]
        is_index_of(cleared.stack, transition.id, p) && index == (if p == 0 {
            0
        } else {
            p - 1
        });
    assert(is_index_of(cleared.stack, transition.id, found));
    assert(found == n - 1);
    assert forall|i: int| 0 <= i < n implies (#[trigger] covered.stack[i]).scene == (if i < index {
        s.stack[i].scene
    } else if i == index {
        target.id
    } else {
        s.stack[i - 1].scene
    }) by {}
    assert(done.stack =~= s.stack.drop_last().insert(
        index,
        StackData::entry(target.id, target.process_mode),
    ));
    if n == 1 {
        assert(done.stack =~= seq![StackData::entry(target.id, target.process_mode)]);
    }
}

/// A whole transition with no scene to start from: the transition scene is pushed, the next scene is
/// put on the stack below it, and the transition scene is removed again. What is left is the next
/// scene alone, which is announced and has its own process mode, as the transition scene has.
pub proof fn law_transition_from_nothing(
    s: ManagerState,
    transition: NodeSnapshot,
    top_mode: ProcessMode,
    target: NodeSnapshot,
    index: int,
    modes: Map<NodeId, ProcessMode>,
)
    requires
        s.stack.len() == 0,
        is_target_index(s.after_push(transition, top_mode).stack, transition.id, index),
    ensures
        ({
            let started = s.after_push(transition, top_mode);
            let covered = started.after_insert(index, target);
            let done = covered.after_remove(1);
            let left = modes_after(
                modes,
                s.push_actions(transition.id) + started.insert_actions(index, target.id)
                    + covered.remove_actions(1),
            );
            &&& is_index_of(started.stack, transition.id, 0)
            &&& index == 0
            &&& covered.stack[1].scene == transition.id
            &&& target.id != transition.id ==> is_index_of(covered.stack, transition.id, 1)
            &&& done.stack == seq![StackData::entry(target.id, target.process_mode)]
            &&& conclude_actions(done, target.id, false) == seq![
                TreeAction::EmitScenePushed { scene: target.id, index: 0 },
            ]
            &&& left == modes.insert(transition.id, transition.process_mode).insert(
                target.id,
                target.process_mode,
            )
            &&& done.top_has_mode(left, target.process_mode)
        }),
{
    let started = s.after_push(transition, top_mode);
    assert(started.stack[0].scene == transition.id);
    assert(is_index_of(started.stack, transition.id, 0));
    assert(on_stack(started.stack, transition.id));
    let found = choose|p: int| #[trigger]
        is_index_of(started.stack, transition.id, p) && index == (if p == 0 {
            0
        } else {
            p - 1
        });
    assert(is_index_of(started.stack, transition.id, found));
    let covered = started.after_insert(index, target);
    assert(covered.stack[0].scene == target.id);
    assert(covered.after_remove(1).stack =~= seq![
        StackData::entry(target.id, target.process_mode),
    ]);
    let a = s.push_actions(transition.id);
    let b = started.insert_actions(index, target.id);
    let c = covered.remove_actions(1);
    law_modes_after_concat(modes, a, b);
    law_modes_after_concat(modes, a + b, c);
    law_push_modes(s, transition.id, modes);
    law_insert_modes(started, index, target.id, modes);
    law_remove_modes(covered, 1, modes_after(modes, a + b));
    assert(modes_after(modes, a + b + c) =~= modes.insert(
        transition.id,
        transition.process_mode,
    ).insert(target.id, target.process_mode));
}

/// A whole transition, as in [`law_transition_replaces_scene`], keeps scenes distinct and all but
/// the topmost one disabled, and the topmost one is left with its own process mode.
pub proof fn law_transition_keeps_order(
    s: ManagerState,
    transition: NodeSnapshot,
    top_mode: ProcessMode,
    target: NodeSnapshot,
    index: int,
    modes: Map<NodeId, ProcessMode>,
)
    requires
        s.stack.len() > 0,
        s.distinct(),
        s.lower_scenes_disabled(modes),
        !on_stack(s.stack, transition.id),
        !on_stack(s.stack, target.id),
        target.id != transition.id,
        is_target_index(
            s.after_push(transition, top_mode).after_remove(s.stack.len() - 1).stack,
            transition.id,
            index,
        ),
    ensures
        ({
            let started = s.after_push(transition, top_mode);
            let cleared = started.after_remove(s.stack.len() - 1);
            let covered = cleared.after_insert(index, target);
            let done = covered.after_remove(s.stack.len() as int);
            let left = modes_after(
                modes,
                s.push_actions(transition.id) + started.remove_actions(s.stack.len() - 1)
                    + cleared.insert_actions(index, target.id) + covered.remove_actions(
                    s.stack.len() as int,
                ),
            );
            &&& done.distinct()
            &&& done.lower_scenes_disabled(left)
            &&& done.top_has_mode(left, done.stack.last().initial_process_mode)
        }),
{
    let n = s.stack.len() as int;
    let started = s.after_push(transition, top_mode);
    let cleared = started.after_remove(n - 1);
    let covered = cleared.after_insert(index, target);
    let a = s.push_actions(transition.id);
    let b = started.remove_actions(n - 1);
    let c = cleared.insert_actions(index, target.id);
    let d = covered.remove_actions(n);
    law_transition_replaces_scene(s, transition, top_mode, target, index);
    law_modes_after_concat(modes, a, b);
    law_modes_after_concat(modes, a + b, c);
    law_modes_after_concat(modes, a + b + c, d);
    law_push_keeps_order(s, transition, top_mode, modes);
    law_remove_keeps_order(started, n - 1, modes_after(modes, a));
    assert(!on_stack(cleared.stack, target.id)) by {
        assert forall|i: int| 0 <= i < cleared.stack.len() implies (#[trigger] cleared.stack[i]).scene
            != target.id by {
            if i < n - 1 {
                assert(cleared.stack[i] == s.stack[i]);
                if s.stack[i].scene == target.id {
                    assert(on_stack(s.stack, target.id));
                }
            }
        }
    }
    law_insert_keeps_order(cleared, index, target, modes_after(modes, a + b));
    law_remove_keeps_order(covered, n, modes_after(modes, a + b + c));
}

/// A scene that is pushed, and was not on the stack, is found at the index that the push gives
/// back, and is the current scene.
pub proof fn law_push_gives_index(s: ManagerState, new: NodeSnapshot, top_mode: ProcessMode)
    requires
        !on_stack(s.stack, new.id),
    ensures
        is_index_of(s.after_push(new, top_mode).stack, new.id, s.stack.len() as int),
        s.after_push(new, top_mode).stack.last().scene == new.id,
{
    let pushed = s.after_push(new, top_mode);
    assert forall|i: int| 0 <= i < s.stack.len() implies (#[trigger] pushed.stack[i]).scene
        != new.id by {
        assert(pushed.stack[i].scene == s.stack[i].scene);
        if s.stack[i].scene == new.id {
            assert(on_stack(s.stack, new.id));
        }
    }
}

impl ManagerState {
    /// Whether `node` stands on the stack below the topmost scene.
    pub open spec fn below_top(self, node: NodeId) -> bool {
        exists|i: int| 0 <= i < self.stack.len() - 1 && (#[trigger] self.stack[i]).scene == node
    }

    /// In a tree where nodes have process modes `modes` now and `own` by themselves, no scene stands
    /// on the stack twice, every scene on it will get its own mode back, the scenes below the
    /// topmost one are disabled, and every other node, the topmost scene too, has its own mode.
    pub open spec fn modes_in_order(
        self,
        modes: Map<NodeId, ProcessMode>,
        own: Map<NodeId, ProcessMode>,
    ) -> bool {
        &&& self.distinct()
        &&& modes.dom() =~= own.dom()
        &&& forall|i: int|
            0 <= i < self.stack.len() ==> own.dom().contains((#[trigger] self.stack[i]).scene)
                && self.stack[i].initial_process_mode == own[self.stack[i].scene]
        &&& forall|node: NodeId| #[trigger]
            own.dom().contains(node) ==> modes[node] == (if self.below_top(node) {
                ProcessMode::Disabled
            } else {
                own[node]
            })
    }
}

/// An empty stack is in order in a tree where every node has its own process mode.
pub proof fn law_empty_in_order(s: ManagerState, own: Map<NodeId, ProcessMode>)
    requires
        s.stack.len() == 0,
    ensures
        s.modes_in_order(own, own),
{
}

/// Where process modes are in order, the topmost scene has its own one.
pub proof fn law_top_has_own_mode(
    s: ManagerState,
    modes: Map<NodeId, ProcessMode>,
    own: Map<NodeId, ProcessMode>,
)
    requires
        s.modes_in_order(modes, own),
        s.stack.len() > 0,
    ensures
        s.top_has_mode(modes, own[s.stack.last().scene]),
{
    assert(own.dom().contains(s.stack[s.stack.len() - 1].scene));
    assert(!s.below_top(s.stack.last().scene));
}

/// Pushing a scene that is not on the stack keeps process modes in order: the scene that was on top
/// is disabled, and the new one runs with its own mode.
pub proof fn law_push_keeps_modes(
    s: ManagerState,
    new: NodeSnapshot,
    top_mode: ProcessMode,
    modes: Map<NodeId, ProcessMode>,
    own: Map<NodeId, ProcessMode>,
)
    requires
        s.modes_in_order(modes, own),
        !on_stack(s.stack, new.id),
        own.dom().contains(new.id) && new.process_mode == modes[new.id],
        s.top_has_mode(modes, top_mode),
    ensures
        s.after_push(new, top_mode).modes_in_order(
            modes_after(modes, s.push_actions(new.id)),
            own,
        ),
{
    let n = s.stack.len() as int;
    let pushed = s.after_push(new, top_mode);
    let left = modes_after(modes, s.push_actions(new.id));
    law_push_modes(s, new.id, modes);
    assert forall|i: int| 0 <= i < n implies (#[trigger] s.stack[i]).scene != new.id by {
        if s.stack[i].scene == new.id {
            assert(on_stack(s.stack, new.id));
        }
    }
    assert(!s.below_top(new.id));
    if n > 0 {
        law_top_has_own_mode(s, modes, own);
        assert(s.stack.last().scene == s.stack[n - 1].scene);
    }
    assert forall|i: int| 0 <= i < n implies (#[trigger] pushed.stack[i]).scene == s.stack[i].scene
        && own.dom().contains(s.stack[i].scene) && pushed.stack[i].initial_process_mode
        == own[s.stack[i].scene] by {}
    assert(left.dom() =~= own.dom());
    assert forall|node: NodeId| #[trigger] own.dom().contains(node) implies left[node] == (
    if pushed.below_top(node) {
        ProcessMode::Disabled
    } else {
        own[node]
    }) by {
        if pushed.below_top(node) {
            let i = choose|i: int| 0 <= i < n && (#[trigger] pushed.stack[i]).scene == node;
            assert(s.stack[i].scene == node);
        } else {
            if s.below_top(node) {
                let i = choose|i: int| 0 <= i < n - 1 && (#[trigger] s.stack[i]).scene == node;
                assert(pushed.stack[i].scene == node);
            }
            if n > 0 && s.stack[n - 1].scene == node {
                assert(pushed.stack[n - 1].scene == node);
            }
        }
    }
}

/// Inserting a scene that is not on the stack below the top keeps process modes in order: the new
/// scene is disabled.
pub proof fn law_insert_keeps_modes(
    s: ManagerState,
    index: int,
    new: NodeSnapshot,
    modes: Map<NodeId, ProcessMode>,
    own: Map<NodeId, ProcessMode>,
)
    requires
        0 <= index < s.stack.len(),
        s.modes_in_order(modes, own),
        !on_stack(s.stack, new.id),
        own.dom().contains(new.id) && new.process_mode == modes[new.id],
    ensures
        s.after_insert(index, new).modes_in_order(
            modes_after(modes, s.insert_actions(index, new.id)),
            own,
        ),
{
    let n = s.stack.len() as int;
    let inserted = s.after_insert(index, new);
    let left = modes_after(modes, s.insert_actions(index, new.id));
    law_insert_modes(s, index, new.id, modes);
    assert forall|i: int| 0 <= i < n implies (#[trigger] s.stack[i]).scene != new.id by {
        if s.stack[i].scene == new.id {
            assert(on_stack(s.stack, new.id));
        }
    }
    assert(!s.below_top(new.id));
    assert forall|i: int| 0 <= i < inserted.stack.len() implies (#[trigger] inserted.stack[i])
        == (if i < index {
        s.stack[i]
    } else if i == index {
        StackData::entry(new.id, new.process_mode)
    } else {
        s.stack[i - 1]
    }) by {}
    assert(left.dom() =~= own.dom());
    assert forall|node: NodeId| #[trigger] own.dom().contains(node) implies left[node] == (
    if inserted.below_top(node) {
        ProcessMode::Disabled
    } else {
        own[node]
    }) by {
        if inserted.below_top(node) {
            let i = choose|i: int| 0 <= i < n && (#[trigger] inserted.stack[i]).scene == node;
            if i < index {
                assert(s.stack[i].scene == node);
            } else if i > index {
                assert(s.stack[i - 1].scene == node);
            }
        } else {
            assert(inserted.stack[index].scene == new.id);
            if s.below_top(node) {
                let i = choose|i: int| 0 <= i < n - 1 && (#[trigger] s.stack[i]).scene == node;
                if i < index {
                    assert(inserted.stack[i].scene == node);
                } else {
                    assert(inserted.stack[i + 1].scene == node);
                }
            }
        }
    }
}

/// Removing a scene keeps process modes in order, and leaves the removed scene with its own mode:
/// where it was the topmost one, the scene below it has its own mode again too.
pub proof fn law_remove_keeps_modes(
    s: ManagerState,
    index: int,
    modes: Map<NodeId, ProcessMode>,
    own: Map<NodeId, ProcessMode>,
)
    requires
        0 <= index < s.stack.len(),
        s.modes_in_order(modes, own),
    ensures
        s.after_remove(index).modes_in_order(modes_after(modes, s.remove_actions(index)), own),
        !on_stack(s.after_remove(index).stack, s.stack[index].scene),
        modes_after(modes, s.remove_actions(index))[s.stack[index].scene]
            == own[s.stack[index].scene],
{
    let n = s.stack.len() as int;
    let removed = s.after_remove(index);
    let left = modes_after(modes, s.remove_actions(index));
    law_remove_modes(s, index, modes);
    lemma_removed(s, index);
    assert(own.dom().contains(s.stack[index].scene));
    if 0 < index == n - 1 {
        assert(own.dom().contains(s.stack[index - 1].scene));
    }
    assert(left.dom() =~= own.dom());
    assert forall|node: NodeId| #[trigger] own.dom().contains(node) implies left[node] == (
    if removed.below_top(node) {
        ProcessMode::Disabled
    } else {
        own[node]
    }) by {
        if removed.below_top(node) {
            let i = choose|i: int| 0 <= i < n - 2 && (#[trigger] removed.stack[i]).scene == node;
            let j = if i < index {
                i
            } else {
                i + 1
            };
            assert(s.stack[j].scene == node);
            assert(s.below_top(node));
        } else if s.below_top(node) {
            let j = choose|j: int| 0 <= j < n - 1 && (#[trigger] s.stack[j]).scene == node;
            if j < index && j < n - 2 {
                assert(removed.stack[j].scene == node);
            } else if j > index {
                assert(removed.stack[j - 1].scene == node);
            }
        }
    }
}

/// What is left of the stack without the scene at `index`.
proof fn lemma_removed(s: ManagerState, index: int)
    requires
        0 <= index < s.stack.len(),
        s.distinct(),
    ensures
        forall|i: int|
            0 <= i < s.stack.len() - 1 ==> (#[trigger] s.after_remove(index).stack[i])
                == s.stack[if i < index {
                i
            } else {
                i + 1
            }],
        s.after_remove(index).distinct(),
        !on_stack(s.after_remove(index).stack, s.stack[index].scene),
{
    let removed = s.after_remove(index);
    assert forall|i: int| 0 <= i < s.stack.len() - 1 implies (#[trigger] removed.stack[i])
        == s.stack[if i < index {
        i
    } else {
        i + 1
    }] by {}
}

/// A scene that leaves the tree by itself, and is not on top of another one, is dropped with its own
/// process mode, and modes stay in order. (The scene below a topmost one that leaves by itself stays
/// disabled.)
pub proof fn law_exit_keeps_modes(
    s: ManagerState,
    index: int,
    modes: Map<NodeId, ProcessMode>,
    own: Map<NodeId, ProcessMode>,
)
    requires
        0 <= index < s.stack.len(),
        index == 0 || index < s.stack.len() - 1,
        s.modes_in_order(modes, own),
    ensures
        s.after_remove(index).modes_in_order(
            modes_after(modes, s.stack[index].unregister_actions()),
            own,
        ),
        modes_after(modes, s.stack[index].unregister_actions())[s.stack[index].scene]
            == own[s.stack[index].scene],
{
    law_remove_keeps_modes(s, index, modes, own);
    law_remove_modes(s, index, modes);
    law_unregister_modes(s.stack[index], modes);
}

/// What it means that a transition dealt with the scene that was on top: where no scene stands on
/// the stack twice, that scene is off the stack, and where it was on it, it was freed last of all.
pub proof fn law_cleared_scene_is_gone(clearing: Clearing)
    requires
        clearing.is_done(),
        clearing.before.distinct(),
        clearing.old_scene is Some,
    ensures
        !on_stack(clearing.after.stack, clearing.old_scene->0),
        on_stack(clearing.before.stack, clearing.old_scene->0) ==> clearing.actions.len() > 0
            && clearing.actions.last() == (TreeAction::Free { node: clearing.old_scene->0 }),
{
    let scene = clearing.old_scene->0;
    if on_stack(clearing.before.stack, scene) {
        let index = choose|index: int|
            {
                &&& #[trigger] is_index_of(clearing.before.stack, scene, index)
                &&& clearing.after == clearing.before.after_remove(index)
                &&& clearing.actions == clearing.before.remove_actions(index).push(
                    TreeAction::Free { node: scene },
                )
            };
        lemma_removed(clearing.before, index);
    }
}

impl ManagerState {
    /// In a tree of shape `shape`, every scene on the stack is right under the scene parent.
    pub open spec fn scenes_in_tree(self, shape: TreeShape) -> bool {
        forall|i: int|
            0 <= i < self.stack.len() ==> shape.has_parent((#[trigger] self.stack[i]).scene)
                && shape.parents[self.stack[i].scene] == self.scene_parent
    }

    /// In a tree of shape `shape`, `scene` can be put under the scene parent: it has no parent, and
    /// the scene parent is not within it.
    pub open spec fn can_take(self, shape: TreeShape, scene: NodeId) -> bool {
        !shape.has_parent(scene) && !is_within(shape.parents, self.scene_parent, scene)
    }
}

/// A scene that has no parent is not on a stack whose scenes are in the tree.
pub proof fn law_parentless_is_not_on_stack(s: ManagerState, shape: TreeShape, scene: NodeId)
    requires
        s.scenes_in_tree(shape),
        !shape.has_parent(scene),
    ensures
        !on_stack(s.stack, scene),
{
}

/// The shape of the tree after two lists of actions, where the second one moves no node.
proof fn lemma_no_node_moved(shape: TreeShape, first: Seq<TreeAction>, second: Seq<TreeAction>)
    requires
        forall|i: int|
            0 <= i < second.len() ==> {
                ||| (#[trigger] second[i]) is SetProcessMode
                ||| second[i] is ConnectTreeExiting
                ||| second[i] is DisconnectTreeExiting
                ||| second[i] is MovePlaceholder
                ||| second[i] is EmitScenePushed
                ||| second[i] is EmitScenePopped
                ||| second[i] is EmitSceneTransitioning
            },
    ensures
        parents_after(shape, first + second) == parents_after(shape, first),
    decreases second.len(),
{
    if second.len() == 0 {
        assert(first + second =~= first);
    } else {
        assert((first + second).drop_last() =~= first + second.drop_last());
        lemma_no_node_moved(shape, first, second.drop_last());
        assert(second.last() == second[second.len() - 1]);
    }
}

/// The shape of the tree after a list of actions and one more.
proof fn lemma_one_more(shape: TreeShape, first: Seq<TreeAction>, action: TreeAction)
    ensures
        parents_after(shape, first.push(action)) == parents_after(shape, first).after(action),
{
    assert(first.push(action).drop_last() =~= first);
}

/// The shape of the tree that a push leaves behind: the new scene is put under the scene parent,
/// nothing else moves.
pub proof fn law_push_parents(s: ManagerState, new: NodeId, shape: TreeShape)
    ensures
        parents_after(shape, s.push_actions(new)) == shape.adopted(s.scene_parent, new),
{
    let empty = Seq::<TreeAction>::empty();
    let connect = (if s.stack.len() == 0 {
        Seq::empty()
    } else {
        s.stack.last().pause_actions()
    }).push(TreeAction::ConnectTreeExiting { scene: new });
    let add = TreeAction::AddChild { parent: s.scene_parent, child: new };
    let emit = seq![
        TreeAction::EmitScenePushed { scene: new, index: signal_index(s.stack.len() as int) },
    ];
    assert(s.push_actions(new) =~= connect.push(add) + emit);
    assert(empty + connect =~= connect);
    lemma_no_node_moved(shape, empty, connect);
    lemma_one_more(shape, connect, add);
    lemma_no_node_moved(shape, connect.push(add), emit);
}

/// The shape of the tree that an insertion below the top leaves behind, where the scenes on the
/// stack are in the tree: the new scene is put under the scene parent, no other node moves, and
/// a placeholder that was needed for it is gone.
pub proof fn law_insert_parents(s: ManagerState, index: int, new: NodeId, shape: TreeShape)
    requires
        0 <= index < s.stack.len(),
        s.scenes_in_tree(shape),
    ensures
        parents_after(shape, s.insert_actions(index, new)) == (TreeShape {
            parents: shape.adopted(s.scene_parent, new).parents,
            placeholder: if index == 0 {
                None
            } else {
                shape.placeholder
            },
        }),
{
    let empty = Seq::<TreeAction>::empty();
    let enter = seq![
        TreeAction::ConnectTreeExiting { scene: new },
        TreeAction::SetProcessMode { node: new, mode: ProcessMode::Disabled },
    ];
    assert(empty + enter =~= enter);
    lemma_no_node_moved(shape, empty, enter);
    if index == 0 {
        let add = TreeAction::AddPlaceholder { parent: s.scene_parent };
        let move_it = seq![
            TreeAction::MovePlaceholder { parent: s.scene_parent, position: 0 },
        ];
        let replace = TreeAction::ReplacePlaceholder { node: new };
        let placed = enter.push(add) + move_it;
        assert(s.insert_actions(index, new) =~= placed.push(replace).push(
            TreeAction::FreePlaceholder,
        ));
        lemma_one_more(shape, enter, add);
        lemma_no_node_moved(shape, enter.push(add), move_it);
        lemma_one_more(shape, placed, replace);
        lemma_one_more(shape, placed.push(replace), TreeAction::FreePlaceholder);
    } else {
        let add = TreeAction::AddSibling { sibling: s.stack[index - 1].scene, node: new };
        assert(s.insert_actions(index, new) =~= enter.push(add));
        lemma_one_more(shape, enter, add);
    }
}

/// The shape of the tree that a removal leaves behind, where the scenes on the stack are in the
/// tree: the removed scene has no parent, nothing else moves.
pub proof fn law_remove_parents(s: ManagerState, index: int, shape: TreeShape)
    requires
        0 <= index < s.stack.len(),
        s.scenes_in_tree(shape),
    ensures
        parents_after(shape, s.remove_actions(index)) == (TreeShape {
            parents: shape.parents.remove(s.stack[index].scene),
            ..shape
        }),
{
    let empty = Seq::<TreeAction>::empty();
    let data = s.stack[index];
    let before = data.unregister_actions();
    let remove = TreeAction::RemoveChild { parent: s.scene_parent, child: data.scene };
    assert(empty + before =~= before);
    lemma_no_node_moved(shape, empty, before);
    lemma_one_more(shape, before, remove);
    if index == s.stack.len() - 1 {
        let rest = (if index == 0 {
            Seq::empty()
        } else {
            s.stack[index - 1].unpause_actions()
        }) + seq![TreeAction::EmitScenePopped { scene: data.scene, index: signal_index(index) }];
        assert(s.remove_actions(index) =~= before.push(remove) + rest);
        lemma_no_node_moved(shape, before.push(remove), rest);
    } else {
        assert(s.remove_actions(index) =~= before.push(remove));
    }
}

/// Pushing a scene without a parent, unless the scene parent is within it, keeps scenes distinct and
/// in the tree.
pub proof fn law_push_keeps_parents(
    s: ManagerState,
    new: NodeSnapshot,
    top_mode: ProcessMode,
    shape: TreeShape,
)
    requires
        s.distinct(),
        s.scenes_in_tree(shape),
        s.can_take(shape, new.id),
    ensures
        s.after_push(new, top_mode).distinct(),
        s.after_push(new, top_mode).scenes_in_tree(
            parents_after(shape, s.push_actions(new.id)),
        ),
{
    let pushed = s.after_push(new, top_mode);
    law_push_parents(s, new.id, shape);
    assert forall|i: int| 0 <= i < s.stack.len() implies (#[trigger] pushed.stack[i]).scene
        == s.stack[i].scene && s.stack[i].scene != new.id by {
        assert(shape.has_parent(s.stack[i].scene));
    }
}

/// Inserting a scene without a parent below the top, unless the scene parent is within it, keeps
/// scenes distinct and in the tree.
pub proof fn law_insert_keeps_parents(
    s: ManagerState,
    index: int,
    new: NodeSnapshot,
    shape: TreeShape,
)
    requires
        0 <= index < s.stack.len(),
        s.distinct(),
        s.scenes_in_tree(shape),
        s.can_take(shape, new.id),
    ensures
        s.after_insert(index, new).distinct(),
        s.after_insert(index, new).scenes_in_tree(
            parents_after(shape, s.insert_actions(index, new.id)),
        ),
{
    let inserted = s.after_insert(index, new);
    law_insert_parents(s, index, new.id, shape);
    assert forall|i: int| 0 <= i < s.stack.len() implies (#[trigger] s.stack[i]).scene
        != new.id by {
        assert(shape.has_parent(s.stack[i].scene));
    }
    assert forall|i: int| 0 <= i < inserted.stack.len() implies (#[trigger] inserted.stack[i])
        == (if i < index {
        s.stack[i]
    } else if i == index {
        StackData::entry(new.id, new.process_mode)
    } else {
        s.stack[i - 1]
    }) by {}
}

/// Removing a scene keeps scenes distinct and in the tree, and takes the removed one out of it.
pub proof fn law_remove_keeps_parents(s: ManagerState, index: int, shape: TreeShape)
    requires
        0 <= index < s.stack.len(),
        s.distinct(),
        s.scenes_in_tree(shape),
    ensures
        s.after_remove(index).distinct(),
        s.after_remove(index).scenes_in_tree(parents_after(shape, s.remove_actions(index))),
        !parents_after(shape, s.remove_actions(index)).has_parent(s.stack[index].scene),
{
    law_remove_parents(s, index, shape);
    lemma_removed(s, index);
}

/// One use of the scene stack.
pub enum StackStep {
    /// A scene is pushed.
    Push { scene: NodeId },
    /// A scene is inserted below the top.
    Insert { index: usize, scene: NodeId },
    /// A scene is removed; the topmost one, by a pop.
    Remove { index: usize },
}

/// The scene stack together with the tree.
#[verifier::ext_equal]
pub struct Stage {
    pub manager: ManagerState,
    /// The process modes that nodes have.
    pub modes: Map<NodeId, ProcessMode>,
    pub shape: TreeShape,
}

impl Stage {
    /// A node as it is in the tree.
    pub open spec fn snapshot(self, node: NodeId) -> NodeSnapshot {
        NodeSnapshot {
            id: node,
            has_parent: self.shape.has_parent(node),
            process_mode: self.modes[node],
        }
    }

    /// Where nodes have process modes `own` by themselves, process modes are in order and the scenes
    /// on the stack are in the tree.
    pub open spec fn in_order(self, own: Map<NodeId, ProcessMode>) -> bool {
        &&& self.manager.modes_in_order(self.modes, own)
        &&& self.manager.scenes_in_tree(self.shape)
    }

    /// The stack and the tree once the manager went over to `manager` and `actions` were performed.
    pub open spec fn next(self, manager: ManagerState, actions: Seq<TreeAction>) -> Stage {
        Stage {
            manager,
            modes: modes_after(self.modes, actions),
            shape: parents_after(self.shape, actions),
        }
    }

    /// The stack and the tree after one step.
    pub open spec fn after(self, step: StackStep) -> Stage {
        let s = self.manager;
        match step {
            StackStep::Push { scene } => self.next(
                s.after_push(self.snapshot(scene), self.modes[s.stack.last().scene]),
                s.push_actions(scene),
            ),
            StackStep::Insert { index, scene } => self.next(
                s.after_insert(index as int, self.snapshot(scene)),
                s.insert_actions(index as int, scene),
            ),
            StackStep::Remove { index } => self.next(
                s.after_remove(index as int),
                s.remove_actions(index as int),
            ),
        }
    }

    /// Whether a step can be taken here, among the nodes that `own` speaks of: a new scene has no
    /// parent, and the scene parent is not within it.
    pub open spec fn allows(self, step: StackStep, own: Map<NodeId, ProcessMode>) -> bool {
        match step {
            StackStep::Push { scene } => {
                &&& own.dom().contains(scene)
                &&& self.manager.can_take(self.shape, scene)
            },
            StackStep::Insert { index, scene } => {
                &&& index < self.manager.stack.len()
                &&& own.dom().contains(scene)
                &&& self.manager.can_take(self.shape, scene)
            },
            StackStep::Remove { index } => index < self.manager.stack.len(),
        }
    }

    /// The stack and the tree after a sequence of steps.
    pub open spec fn after_all(self, steps: Seq<StackStep>) -> Stage
        decreases steps.len(),
    {
        if steps.len() == 0 {
            self
        } else {
            self.after_all(steps.drop_last()).after(steps.last())
        }
    }

    /// Whether each step of a sequence can be taken where the ones before it lead.
    pub open spec fn allows_all(
        self,
        steps: Seq<StackStep>,
        own: Map<NodeId, ProcessMode>,
    ) -> bool
        decreases steps.len(),
    {
        steps.len() > 0 ==> {
            &&& self.allows_all(steps.drop_last(), own)
            &&& self.after_all(steps.drop_last()).allows(steps.last(), own)
        }
    }
}

/// A push, an insertion or a removal keeps process modes in order and the scenes on the stack in the
/// tree.
pub proof fn law_step_keeps_order(
    stage: Stage,
    step: StackStep,
    own: Map<NodeId, ProcessMode>,
)
    requires
        stage.in_order(own),
        stage.allows(step, own),
    ensures
        stage.after(step).in_order(own),
{
    let s = stage.manager;
    match step {
        StackStep::Push { scene } => {
            let top_mode = stage.modes[s.stack.last().scene];
            law_parentless_is_not_on_stack(s, stage.shape, scene);
            if s.stack.len() > 0 {
                law_top_has_own_mode(s, stage.modes, own);
            }
            law_push_keeps_modes(s, stage.snapshot(scene), top_mode, stage.modes, own);
            law_push_keeps_parents(s, stage.snapshot(scene), top_mode, stage.shape);
        },
        StackStep::Insert { index, scene } => {
            law_parentless_is_not_on_stack(s, stage.shape, scene);
            law_insert_keeps_modes(s, index as int, stage.snapshot(scene), stage.modes, own);
            law_insert_keeps_parents(s, index as int, stage.snapshot(scene), stage.shape);
        },
        StackStep::Remove { index } => {
            law_remove_keeps_modes(s, index as int, stage.modes, own);
            law_remove_keeps_parents(s, index as int, stage.shape);
        },
    }
}

/// After any sequence of pushes, insertions and removals, no scene stands on the stack twice, every
/// scene on it is right under the scene parent, the scenes below the topmost one are disabled, and
/// the topmost scene has its own process mode, as has every scene that was removed.
pub proof fn law_steps_keep_order(
    stage: Stage,
    steps: Seq<StackStep>,
    own: Map<NodeId, ProcessMode>,
)
    requires
        stage.in_order(own),
        stage.allows_all(steps, own),
    ensures
        ({
            let end = stage.after_all(steps);
            &&& end.in_order(own)
            &&& end.manager.distinct()
            &&& end.manager.scenes_in_tree(end.shape)
            &&& end.manager.lower_scenes_disabled(end.modes)
            &&& end.manager.stack.len() > 0 ==> end.manager.top_has_mode(
                end.modes,
                own[end.manager.stack.last().scene],
            )
            &&& forall|node: NodeId| #[trigger]
                own.dom().contains(node) && !on_stack(end.manager.stack, node) ==> end.modes[node]
                    == own[node]
        }),
    decreases steps.len(),
{
    let end = stage.after_all(steps);
    if steps.len() > 0 {
        law_steps_keep_order(stage, steps.drop_last(), own);
        law_step_keeps_order(stage.after_all(steps.drop_last()), steps.last(), own);
    }
    assert(end.in_order(own));
    if end.manager.stack.len() > 0 {
        law_top_has_own_mode(end.manager, end.modes, own);
    }
    assert forall|i: int| 0 <= i < end.manager.stack.len() - 1 implies end.modes.dom().contains(
        (#[trigger] end.manager.stack[i]).scene,
    ) && end.modes[end.manager.stack[i].scene] == ProcessMode::Disabled by {
        assert(end.manager.below_top(end.manager.stack[i].scene));
        assert(own.dom().contains(end.manager.stack[i].scene));
    }
}

} // verus!
