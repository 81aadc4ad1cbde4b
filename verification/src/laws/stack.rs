//! What the operations of the scene stack give back, keep and change.
use vstd::multiset::Multiset;
use vstd::prelude::*;

use crate::laws::effects::{
    children_are, law_insert_children, law_insert_effects, law_push_children, law_push_effects,
    law_remove_children, law_remove_effects,
};
use crate::manager::internal::{register_scene, unregister_scene, StackData};
use crate::manager::laws::{
    law_insert_modes, law_insert_parents, law_push_modes, law_push_parents, law_remove_modes,
    law_remove_parents,
};
use crate::manager::{
    is_index_of, on_stack, InsertSceneError, ManagerState, PushSceneError, SceneManager,
};
use crate::tree::{
    announced_by, children_after, freed_by, is_within, modes_after, parents_after, signal_index,
    to_signal_index, watched_after, Announcement, NodeId, NodeSnapshot, ProcessMode, Slot, TreeAction, TreeShape,
};

verus! {

/// The scenes of a stack, the topmost last.
pub open spec fn scenes(stack: Seq<StackData>) -> Seq<NodeId> {
    Seq::new(stack.len(), |i: int| stack[i].scene)
}

/// What was asked for since the list of actions was `before`.
pub open spec fn added(before: Seq<TreeAction>, after: Seq<TreeAction>) -> Seq<TreeAction> {
    after.skip(before.len() as int)
}

/// What can be seen of a tree: process modes, who is under whom, the children of the scene parent in
/// order, and whose exit is watched.
pub struct Sight {
    pub modes: Map<NodeId, ProcessMode>,
    pub shape: TreeShape,
    pub children: Seq<Slot>,
    pub watched: Multiset<NodeId>,
}

impl Sight {
    /// What can be seen once `actions` were performed, where `parent` is the scene parent.
    pub open spec fn after(self, parent: NodeId, actions: Seq<TreeAction>) -> Sight {
        Sight {
            modes: modes_after(self.modes, actions),
            shape: parents_after(self.shape, actions),
            children: children_after(parent, self.shape, self.children, actions),
            watched: watched_after(self.watched, actions),
        }
    }

    /// Whether this is a sight of a tree that holds the scenes of `s`.
    pub open spec fn holds(self, s: ManagerState) -> bool {
        &&& s.scenes_in_tree(self.shape)
        &&& children_are(s, self.shape, self.children)
    }

    /// Whether `scene` can be put under `parent`: it has no parent, and `parent` is not within it.
    pub open spec fn can_take(self, parent: NodeId, scene: NodeId) -> bool {
        !self.shape.parents.dom().contains(scene) && !is_within(self.shape.parents, parent, scene)
    }
}

/// A signal carries a stack index as it is, or the largest number that it can carry.
pub proof fn law_signal_index(index: int)
    requires
        0 <= index,
    ensures
        index <= 0xffff_ffff ==> signal_index(index) == index,
        index > 0xffff_ffff ==> signal_index(index) == 0xffff_ffff,
{
}

/// Narrowing a stack index for a signal keeps it, or gives the largest number that a signal can
/// carry.
pub proof fn law_to_signal_index(index: usize, narrowed: u32)
    requires
        call_ensures(to_signal_index, (index,), narrowed),
    ensures
        index <= 0xffff_ffff ==> narrowed == index,
        index > 0xffff_ffff ==> narrowed == 0xffff_ffff,
{
}

/// A scene is on a stack if and only if it is among the stack's scenes; then it has exactly one
/// lowest place.
pub proof fn law_places(stack: Seq<StackData>, scene: NodeId, i: int, j: int)
    ensures
        on_stack(stack, scene) <==> scenes(stack).contains(scene),
        is_index_of(stack, scene, i) ==> 0 <= i < stack.len() && scenes(stack)[i] == scene,
        is_index_of(stack, scene, i) && 0 <= j < stack.len() && scenes(stack)[j] == scene ==> i
            <= j,
        on_stack(stack, scene) ==> exists|place: int| #[trigger] is_index_of(stack, scene, place),
{
    if on_stack(stack, scene) {
        let found = choose|k: int| 0 <= k < stack.len() && (#[trigger] stack[k]).scene == scene;
        assert(scenes(stack)[found] == scene);
        lemma_lowest(stack, scene, found);
    }
    if scenes(stack).contains(scene) {
        let found = choose|k: int| 0 <= k < stack.len() && scenes(stack)[k] == scene;
        assert(stack[found].scene == scene);
    }
    if is_index_of(stack, scene, i) && 0 <= j < stack.len() && scenes(stack)[j] == scene && j < i {
        assert(stack[j].scene != scene);
    }
}

/// A scene that stands at `found` has a lowest place.
proof fn lemma_lowest(stack: Seq<StackData>, scene: NodeId, found: int)
    requires
        0 <= found < stack.len(),
        stack[found].scene == scene,
    ensures
        exists|place: int| #[trigger] is_index_of(stack, scene, place),
    decreases found,
{
    if exists|k: int| 0 <= k < found && (#[trigger] stack[k]).scene == scene {
        let lower = choose|k: int| 0 <= k < found && (#[trigger] stack[k]).scene == scene;
        lemma_lowest(stack, scene, lower);
    } else {
        assert(is_index_of(stack, scene, found));
    }
}

/// A new manager has no scenes; they go under the parent that it was given, or else under the root.
pub proof fn law_new(root: NodeId, parent: Option<NodeId>, manager: SceneManager)
    requires
        call_ensures(SceneManager::new, (root, parent), manager),
    ensures
        manager@.root == root,
        parent is Some ==> manager@.scene_parent == parent->0,
        parent is None ==> manager@.scene_parent == root,
        manager@.stack.len() == 0,
{
}

/// Looking at a manager: the current scene is the topmost one, and there is one unless the stack is
/// empty.
pub proof fn law_looks(
    manager: &SceneManager,
    current: Option<NodeId>,
    parent: NodeId,
    root: NodeId,
    len: usize,
    empty: bool,
)
    requires
        call_ensures(SceneManager::current_scene, (manager,), current),
        call_ensures(SceneManager::scene_parent, (manager,), parent),
        call_ensures(SceneManager::root, (manager,), root),
        call_ensures(SceneManager::len, (manager,), len),
        call_ensures(SceneManager::is_empty, (manager,), empty),
    ensures
        len == scenes(manager@.stack).len(),
        empty <==> len == 0,
        current is None <==> len == 0,
        current is Some ==> current->0 == scenes(manager@.stack)[len - 1],
        parent == manager@.scene_parent,
        root == manager@.root,
{
}

/// A scene is found at the lowest place at which it stands, and nowhere only if it is not on the
/// stack.
pub proof fn law_index_of(manager: &SceneManager, scene: NodeId, index: Option<usize>, j: int)
    requires
        call_ensures(SceneManager::index_of, (manager, scene), index),
    ensures
        index is Some ==> index->0 < manager@.stack.len() && scenes(manager@.stack)[index->0 as int]
            == scene,
        0 <= j < manager@.stack.len() && scenes(manager@.stack)[j] == scene ==> index is Some
            && index->0 <= j,
{
    law_places(manager@.stack, scene, index->0 as int, j);
    if 0 <= j < manager@.stack.len() && scenes(manager@.stack)[j] == scene {
        assert(manager@.stack[j].scene == scene);
    }
}

/// A push is refused, with no change, if and only if the new scene has a parent. Else the new scene
/// is on top, at the index that is given back, and all others are where they were; the one that was
/// on top remembers its process mode, and nothing else is forgotten or remembered.
pub proof fn law_push_scene(
    manager: &mut SceneManager,
    new: NodeSnapshot,
    top_mode: ProcessMode,
    actions: &mut Vec<TreeAction>,
    pushed: Result<usize, PushSceneError>,
)
    requires
        call_ensures(SceneManager::push_scene, (manager, new, top_mode, actions), pushed),
    ensures
        pushed is Err <==> new.has_parent,
        pushed is Err ==> {
            &&& pushed->Err_0->SceneAlreadyHasParent_0 == new.id
            &&& final(manager)@ == old(manager)@
            &&& final(actions)@ == old(actions)@
        },
        pushed is Ok ==> is_pushed(
            old(manager)@,
            final(manager)@,
            new,
            top_mode,
            added(old(actions)@, final(actions)@),
        ) && final(actions)@ == old(actions)@ + added(old(actions)@, final(actions)@) && pushed->Ok_0
            == old(manager)@.stack.len(),
        pushed is Ok ==> {
            let n = old(manager)@.stack.len() as int;
            &&& scenes(final(manager)@.stack) == scenes(old(manager)@.stack).push(new.id)
            &&& scenes(final(manager)@.stack)[pushed->Ok_0 as int] == new.id
            &&& n > 0 ==> final(manager)@.stack[n - 1].initial_process_mode == top_mode
            &&& n == 0 || old(manager)@.stack[n - 1].scene != new.id
                ==> final(manager)@.stack[n].initial_process_mode == new.process_mode
            &&& final(manager)@.root == old(manager)@.root
            &&& final(manager)@.scene_parent == old(manager)@.scene_parent
        },
{
    if pushed is Ok {
        let done = old(manager)@.push_actions(new.id);
        assert(added(old(actions)@, final(actions)@) =~= done);
        assert(final(actions)@ =~= old(actions)@ + done);
        lemma_is_pushed(old(manager)@, new, top_mode);
    }
}

/// Whether `after` is `before` with `new` pushed, and `done` is what that is to do: pause the scene
/// below, watch the new one, put it under the scene parent, and then announce it with its index.
pub open spec fn is_pushed(
    before: ManagerState,
    after: ManagerState,
    new: NodeSnapshot,
    top_mode: ProcessMode,
    done: Seq<TreeAction>,
) -> bool {
    let n = before.stack.len() as int;
    &&& after.root == before.root
    &&& after.scene_parent == before.scene_parent
    &&& scenes(after.stack) == scenes(before.stack).push(new.id)
    &&& forall|i: int| 0 <= i < n - 1 ==> #[trigger] after.stack[i] == before.stack[i]
    &&& n > 0 ==> after.stack[n - 1].initial_process_mode == top_mode
    &&& n > 0 ==> after.stack[n - 1].registered == before.stack[n - 1].registered
    &&& after.stack[n].registered
    &&& n == 0 || before.stack[n - 1].scene != new.id ==> after.stack[n].initial_process_mode
        == new.process_mode
    &&& n > 0 && before.stack[n - 1].scene == new.id ==> after.stack[n].initial_process_mode
        == ProcessMode::Disabled
    &&& n == 0 ==> done.len() == 3
    &&& n > 0 ==> done.len() == 4 && done[0] == (TreeAction::SetProcessMode {
        node: before.stack[n - 1].scene,
        mode: ProcessMode::Disabled,
    })
    &&& done[done.len() - 3] == (TreeAction::ConnectTreeExiting { scene: new.id })
    &&& done[done.len() - 2] == (TreeAction::AddChild {
        parent: before.scene_parent,
        child: new.id,
    })
    &&& done.last() == (TreeAction::EmitScenePushed {
        scene: new.id,
        index: if n <= 0xffff_ffff {
            n as u32
        } else {
            0xffff_ffff
        },
    })
}

proof fn lemma_is_pushed(before: ManagerState, new: NodeSnapshot, top_mode: ProcessMode)
    ensures
        is_pushed(
            before,
            before.after_push(new, top_mode),
            new,
            top_mode,
            before.push_actions(new.id),
        ),
{
    let after = before.after_push(new, top_mode);
    assert(scenes(after.stack) =~= scenes(before.stack).push(new.id));
}

/// What a push can be seen to do: the scene below is disabled, the new one is the last child of the
/// scene parent and is watched. It is announced, and nothing is freed.
pub proof fn law_push_seen(
    before: ManagerState,
    after: ManagerState,
    new: NodeSnapshot,
    top_mode: ProcessMode,
    done: Seq<TreeAction>,
    sight: Sight,
)
    requires
        is_pushed(before, after, new, top_mode, done),
        sight.can_take(before.scene_parent, new.id),
    ensures
        ({
            let n = before.stack.len() as int;
            let seen = sight.after(before.scene_parent, done);
            &&& seen.modes == (if n == 0 {
                sight.modes
            } else {
                sight.modes.insert(before.stack[n - 1].scene, ProcessMode::Disabled)
            })
            &&& seen.shape.parents == sight.shape.parents.insert(new.id, before.scene_parent)
            &&& seen.shape.placeholder == sight.shape.placeholder
            &&& seen.children == sight.children.push(Slot::Node(new.id))
            &&& seen.watched == sight.watched.insert(new.id)
            &&& freed_by(done) == Seq::<NodeId>::empty()
            &&& announced_by(done) == seq![
                Announcement::Pushed {
                    scene: new.id,
                    index: if n <= 0xffff_ffff {
                        n as u32
                    } else {
                        0xffff_ffff
                    },
                },
            ]
        }),
{
    assert(done =~= before.push_actions(new.id));
    law_push_modes(before, new.id, sight.modes);
    law_push_parents(before, new.id, sight.shape);
    law_push_children(before, new.id, sight.shape, sight.children);
    law_push_effects(before, new.id, sight.watched);
}

/// A pop gives nothing back, with no change, if and only if the stack is empty. Else it gives the
/// topmost scene back, and all others are where they were.
pub proof fn law_pop_scene(
    manager: &mut SceneManager,
    actions: &mut Vec<TreeAction>,
    popped: Option<NodeId>,
)
    requires
        call_ensures(SceneManager::pop_scene, (manager, actions), popped),
    ensures
        popped is None <==> old(manager)@.stack.len() == 0,
        popped is None ==> final(manager)@ == old(manager)@ && final(actions)@ == old(actions)@,
        popped is Some ==> {
            let top = old(manager)@.stack.len() - 1;
            &&& popped->0 == scenes(old(manager)@.stack)[top]
            &&& scenes(final(manager)@.stack) == scenes(old(manager)@.stack).drop_last()
            &&& freed_by(added(old(actions)@, final(actions)@)) == Seq::<NodeId>::empty()
            &&& is_removed(
                old(manager)@,
                final(manager)@,
                top,
                added(old(actions)@, final(actions)@),
            )
            &&& final(actions)@ == old(actions)@ + added(old(actions)@, final(actions)@)
        },
{
    if popped is Some {
        let top = old(manager)@.stack.len() - 1;
        let done = old(manager)@.remove_actions(top);
        assert(added(old(actions)@, final(actions)@) =~= done);
        assert(final(actions)@ =~= old(actions)@ + done);
        lemma_is_removed(old(manager)@, top);
        law_remove_effects(old(manager)@, top, Multiset::empty());
        assert(scenes(final(manager)@.stack) =~= scenes(old(manager)@.stack).drop_last());
    }
}

/// Whether `after` is `before` without its scene at `index`, and `done` is what that is to do: give
/// the scene its process mode back, stop watching it, and then take it out of the scene parent.
/// Where it was the topmost one, then the scene below gets its process mode back and the removal is
/// announced with the index that the scene had. It is not freed.
pub open spec fn is_removed(
    before: ManagerState,
    after: ManagerState,
    index: int,
    done: Seq<TreeAction>,
) -> bool {
    let n = before.stack.len() as int;
    let scene = before.stack[index].scene;
    &&& after.root == before.root
    &&& after.scene_parent == before.scene_parent
    &&& after.stack.len() == n - 1
    &&& forall|i: int| 0 <= i < index ==> #[trigger] after.stack[i] == before.stack[i]
    &&& forall|i: int| index <= i < n - 1 ==> #[trigger] after.stack[i] == before.stack[i + 1]
    &&& done.len() == (if index < n - 1 {
        3int
    } else if index == 0 {
        4
    } else {
        5
    })
    &&& done[0] == (TreeAction::SetProcessMode {
        node: scene,
        mode: before.stack[index].initial_process_mode,
    })
    &&& done[1] == (TreeAction::DisconnectTreeExiting { scene })
    &&& done[2] == (TreeAction::RemoveChild { parent: before.scene_parent, child: scene })
    &&& 0 < index == n - 1 ==> done[3] == (TreeAction::SetProcessMode {
        node: before.stack[index - 1].scene,
        mode: before.stack[index - 1].initial_process_mode,
    })
    &&& index == n - 1 ==> done.last() == (TreeAction::EmitScenePopped {
        scene,
        index: if index <= 0xffff_ffff {
            index as u32
        } else {
            0xffff_ffff
        },
    })
}

proof fn lemma_is_removed(before: ManagerState, index: int)
    requires
        0 <= index < before.stack.len(),
    ensures
        is_removed(before, before.after_remove(index), index, before.remove_actions(index)),
{
}

/// What a removal can be seen to do: the removed scene has its own process mode and no parent, is no
/// child of the scene parent and not watched any more. Where it was the topmost one, the scene
/// below has its own process mode again, and the removal is announced. Nothing is freed.
pub proof fn law_remove_seen(
    before: ManagerState,
    after: ManagerState,
    index: int,
    done: Seq<TreeAction>,
    sight: Sight,
    place: int,
)
    requires
        0 <= index < before.stack.len(),
        is_removed(before, after, index, done),
        sight.holds(before),
        0 <= place < sight.children.len(),
        sight.children[place] == Slot::Node(before.stack[index].scene),
    ensures
        ({
            let scene = before.stack[index].scene;
            let seen = sight.after(before.scene_parent, done);
            let own = sight.modes.insert(scene, before.stack[index].initial_process_mode);
            &&& seen.modes == (if 0 < index == before.stack.len() - 1 {
                own.insert(
                    before.stack[index - 1].scene,
                    before.stack[index - 1].initial_process_mode,
                )
            } else {
                own
            })
            &&& seen.shape.parents == sight.shape.parents.remove(scene)
            &&& seen.children == sight.children.remove(place)
            &&& seen.watched == sight.watched.remove(scene)
            &&& freed_by(done) == Seq::<NodeId>::empty()
            &&& index < before.stack.len() - 1 ==> announced_by(done) == Seq::<
                Announcement,
            >::empty()
            &&& index == before.stack.len() - 1 ==> announced_by(done) == seq![
                Announcement::Popped {
                    scene,
                    index: if index <= 0xffff_ffff {
                        index as u32
                    } else {
                        0xffff_ffff
                    },
                },
            ]
        }),
{
    assert(done =~= before.remove_actions(index));
    law_remove_modes(before, index, sight.modes);
    law_remove_parents(before, index, sight.shape);
    law_remove_children(before, index, sight.shape, sight.children, place);
    law_remove_effects(before, index, sight.watched);
}

/// An insertion is refused, with no change, if and only if the index is beyond the top or the new
/// scene has a parent. One at the top is a push. Any other puts the new scene at the index, and the
/// scenes from there on one place higher.
pub proof fn law_insert_scene(
    manager: &mut SceneManager,
    index: usize,
    new: NodeSnapshot,
    top_mode: ProcessMode,
    actions: &mut Vec<TreeAction>,
    inserted: Result<(), InsertSceneError>,
)
    requires
        call_ensures(
            SceneManager::insert_scene,
            (manager, index, new, top_mode, actions),
            inserted,
        ),
    ensures
        inserted is Err <==> index > old(manager)@.stack.len() || new.has_parent,
        inserted is Err ==> final(manager)@ == old(manager)@ && final(actions)@ == old(actions)@,
        index > old(manager)@.stack.len() ==> inserted == Err::<(), _>(
            InsertSceneError::IndexOutOfBounds(index),
        ),
        index <= old(manager)@.stack.len() && new.has_parent ==> inserted == Err::<(), _>(
            InsertSceneError::SceneAlreadyHasParent(new.id),
        ),
        inserted is Ok ==> final(actions)@ == old(actions)@ + added(
            old(actions)@,
            final(actions)@,
        ),
        inserted is Ok && index == old(manager)@.stack.len() ==> is_pushed(
            old(manager)@,
            final(manager)@,
            new,
            top_mode,
            added(old(actions)@, final(actions)@),
        ),
        inserted is Ok && index < old(manager)@.stack.len() ==> is_inserted(
            old(manager)@,
            final(manager)@,
            index as int,
            new,
            added(old(actions)@, final(actions)@),
        ),
        inserted is Ok ==> scenes(final(manager)@.stack) == scenes(old(manager)@.stack).insert(
            index as int,
            new.id,
        ),
        inserted is Ok && index < old(manager)@.stack.len()
            ==> final(manager)@.stack[index as int].initial_process_mode == new.process_mode,
{
    if inserted is Ok {
        let before = old(manager)@;
        if index == before.stack.len() {
            assert(added(old(actions)@, final(actions)@) =~= before.push_actions(new.id));
            lemma_is_pushed(before, new, top_mode);
        } else {
            assert(added(old(actions)@, final(actions)@) =~= before.insert_actions(
                index as int,
                new.id,
            ));
            lemma_is_inserted(before, index as int, new);
        }
        assert(scenes(final(manager)@.stack) =~= scenes(before.stack).insert(
            index as int,
            new.id,
        ));
        assert(final(actions)@ =~= old(actions)@ + added(old(actions)@, final(actions)@));
    }
}

/// Whether `after` is `before` with `new` inserted at `index`, below the top, and `done` is what
/// that is to do: watch the new scene, disable it, and put it behind the scene that is below it, or
/// before all others.
pub open spec fn is_inserted(
    before: ManagerState,
    after: ManagerState,
    index: int,
    new: NodeSnapshot,
    done: Seq<TreeAction>,
) -> bool {
    let n = before.stack.len() as int;
    &&& after.root == before.root
    &&& after.scene_parent == before.scene_parent
    &&& after.stack.len() == n + 1
    &&& forall|i: int| 0 <= i < index ==> #[trigger] after.stack[i] == before.stack[i]
    &&& forall|i: int| index <= i < n ==> after.stack[i + 1] == #[trigger] before.stack[i]
    &&& after.stack[index].scene == new.id
    &&& after.stack[index].initial_process_mode == new.process_mode
    &&& after.stack[index].registered
    &&& done[0] == (TreeAction::ConnectTreeExiting { scene: new.id })
    &&& done[1] == (TreeAction::SetProcessMode { node: new.id, mode: ProcessMode::Disabled })
    &&& index > 0 ==> done.len() == 3 && done[2] == (TreeAction::AddSibling {
        sibling: before.stack[index - 1].scene,
        node: new.id,
    })
    &&& index == 0 ==> done.len() == 6 && done[2] == (TreeAction::AddPlaceholder {
        parent: before.scene_parent,
    }) && done[3] == (TreeAction::MovePlaceholder { parent: before.scene_parent, position: 0 })
        && done[4] == (TreeAction::ReplacePlaceholder { node: new.id }) && done[5]
        == TreeAction::FreePlaceholder
}

proof fn lemma_is_inserted(before: ManagerState, index: int, new: NodeSnapshot)
    requires
        0 <= index < before.stack.len(),
    ensures
        is_inserted(
            before,
            before.after_insert(index, new),
            index,
            new,
            before.insert_actions(index, new.id),
        ),
{
}

/// What an insertion below the top can be seen to do: the new scene is disabled, is right behind the
/// scene that is below it, or before all other children of the scene parent, and is watched.
/// Nothing is announced, nothing is freed, and no placeholder is left.
pub proof fn law_insert_seen(
    before: ManagerState,
    after: ManagerState,
    index: int,
    new: NodeSnapshot,
    done: Seq<TreeAction>,
    sight: Sight,
    below: int,
)
    requires
        0 <= index < before.stack.len(),
        is_inserted(before, after, index, new, done),
        sight.can_take(before.scene_parent, new.id),
        sight.holds(before),
        index > 0 ==> 0 <= below < sight.children.len() && sight.children[below] == Slot::Node(
            before.stack[index - 1].scene,
        ),
    ensures
        ({
            let seen = sight.after(before.scene_parent, done);
            &&& seen.modes == sight.modes.insert(new.id, ProcessMode::Disabled)
            &&& seen.shape.parents == sight.shape.parents.insert(new.id, before.scene_parent)
            &&& seen.shape.placeholder is None
            &&& index == 0 ==> seen.children == seq![Slot::Node(new.id)] + sight.children
            &&& index > 0 ==> seen.children == sight.children.take(below + 1) + seq![
                Slot::Node(new.id),
            ] + sight.children.skip(below + 1)
            &&& seen.watched == sight.watched.insert(new.id)
            &&& freed_by(done) == Seq::<NodeId>::empty()
            &&& announced_by(done) == Seq::<Announcement>::empty()
        }),
{
    assert(done =~= before.insert_actions(index, new.id));
    law_insert_modes(before, index, new.id, sight.modes);
    law_insert_parents(before, index, new.id, sight.shape);
    law_insert_children(before, index, new.id, sight.shape, sight.children, below);
    law_insert_effects(before, index, new.id, sight.watched);
    assert(sight.children.insert(0, Slot::Node(new.id)) =~= seq![Slot::Node(new.id)]
        + sight.children);
    if index > 0 {
        assert(sight.children.insert(below + 1, Slot::Node(new.id)) =~= sight.children.take(
            below + 1,
        ) + seq![Slot::Node(new.id)] + sight.children.skip(below + 1));
    }
}

/// Removal by index gives nothing back, with no change, if and only if there is no such index. Else
/// it gives the scene at the index back.
pub proof fn law_try_remove_scene_at(
    manager: &mut SceneManager,
    index: usize,
    actions: &mut Vec<TreeAction>,
    removed: Option<NodeId>,
)
    requires
        call_ensures(SceneManager::try_remove_scene_at, (manager, index, actions), removed),
    ensures
        removed is None <==> index >= old(manager)@.stack.len(),
        removed is None ==> final(manager)@ == old(manager)@ && final(actions)@ == old(actions)@,
        removed is Some ==> {
            &&& removed->0 == scenes(old(manager)@.stack)[index as int]
            &&& scenes(final(manager)@.stack) == scenes(old(manager)@.stack).remove(index as int)
            &&& freed_by(added(old(actions)@, final(actions)@)) == Seq::<NodeId>::empty()
            &&& is_removed(
                old(manager)@,
                final(manager)@,
                index as int,
                added(old(actions)@, final(actions)@),
            )
            &&& final(actions)@ == old(actions)@ + added(old(actions)@, final(actions)@)
        },
{
    if removed is Some {
        let done = old(manager)@.remove_actions(index as int);
        assert(added(old(actions)@, final(actions)@) =~= done);
        law_remove_effects(old(manager)@, index as int, Multiset::empty());
        assert(scenes(final(manager)@.stack) =~= scenes(old(manager)@.stack).remove(index as int));
        assert(final(actions)@ =~= old(actions)@ + done);
        lemma_is_removed(old(manager)@, index as int);
    }
}

/// Removal of a scene gives nothing back, with no change, if and only if the scene is not on the
/// stack. Else it gives the scene back, with the lowest index at which it stood.
pub proof fn law_try_remove_scene(
    manager: &mut SceneManager,
    scene: NodeId,
    actions: &mut Vec<TreeAction>,
    removed: Option<(NodeId, usize)>,
    j: int,
)
    requires
        call_ensures(SceneManager::try_remove_scene, (manager, scene, actions), removed),
    ensures
        removed is None <==> !scenes(old(manager)@.stack).contains(scene),
        removed is None ==> final(manager)@ == old(manager)@ && final(actions)@ == old(actions)@,
        removed is Some ==> {
            let index = (removed->0).1;
            &&& (removed->0).0 == scene
            &&& index < old(manager)@.stack.len()
            &&& scenes(old(manager)@.stack)[index as int] == scene
            &&& scenes(final(manager)@.stack) == scenes(old(manager)@.stack).remove(index as int)
            &&& freed_by(added(old(actions)@, final(actions)@)) == Seq::<NodeId>::empty()
            &&& 0 <= j < old(manager)@.stack.len() && scenes(old(manager)@.stack)[j] == scene
                ==> index <= j
            &&& is_removed(
                old(manager)@,
                final(manager)@,
                index as int,
                added(old(actions)@, final(actions)@),
            )
            &&& final(actions)@ == old(actions)@ + added(old(actions)@, final(actions)@)
        },
{
    law_places(old(manager)@.stack, scene, (removed->0).1 as int, j);
    if removed is Some {
        let done = old(manager)@.remove_actions((removed->0).1 as int);
        assert(old(manager)@.stack[(removed->0).1 as int].scene == scene);
        assert(on_stack(old(manager)@.stack, scene));
        assert(added(old(actions)@, final(actions)@) =~= done);
        law_remove_effects(old(manager)@, (removed->0).1 as int, Multiset::empty());
        assert(scenes(final(manager)@.stack) =~= scenes(old(manager)@.stack).remove(
            (removed->0).1 as int,
        ));
        assert(final(actions)@ =~= old(actions)@ + done);
        lemma_is_removed(old(manager)@, (removed->0).1 as int);
    }
}

/// A scene that leaves the tree by itself is dropped from the stack, at the lowest index at which it
/// stood, if it is there: it gets its process mode back and is not watched any more. Nothing else
/// is done; it is not taken out of the tree, announced or freed, and no other scene resumes.
pub proof fn law_scene_exiting_tree(
    manager: &mut SceneManager,
    scene: NodeId,
    actions: &mut Vec<TreeAction>,
    known: bool,
)
    requires
        call_ensures(SceneManager::scene_exiting_tree, (manager, scene, actions), known),
    ensures
        known <==> scenes(old(manager)@.stack).contains(scene),
        !known ==> final(manager)@ == old(manager)@ && final(actions)@ == old(actions)@,
        known ==> exists|index: int|
            {
                &&& #[trigger] is_index_of(old(manager)@.stack, scene, index)
                &&& final(manager)@.root == old(manager)@.root
                &&& final(manager)@.scene_parent == old(manager)@.scene_parent
                &&& scenes(final(manager)@.stack) == scenes(old(manager)@.stack).remove(index)
                &&& final(manager)@.stack == old(manager)@.stack.remove(index)
                &&& added(old(actions)@, final(actions)@) == seq![
                    TreeAction::SetProcessMode {
                        node: scene,
                        mode: old(manager)@.stack[index].initial_process_mode,
                    },
                    TreeAction::DisconnectTreeExiting { scene },
                ]
            },
        final(actions)@ == old(actions)@ + added(old(actions)@, final(actions)@),
{
    law_places(old(manager)@.stack, scene, 0, 0);
    assert(final(actions)@ =~= old(actions)@ + added(old(actions)@, final(actions)@));
    if known {
        let before = old(manager)@;
        let index = choose|index: int|
            {
                &&& #[trigger] is_index_of(before.stack, scene, index)
                &&& final(manager)@ == before.after_remove(index)
                &&& final(actions)@ == old(actions)@ + before.stack[index].unregister_actions()
            };
        assert(is_index_of(before.stack, scene, index));
        assert(added(old(actions)@, final(actions)@) =~= before.stack[index].unregister_actions());
        assert(scenes(final(manager)@.stack) =~= scenes(before.stack).remove(index));
    }
}

/// Whether the scenes of a stack stand among `children` in the order of the stack.
pub open spec fn in_stack_order(stack: Seq<StackData>, children: Seq<Slot>) -> bool {
    &&& forall|i: int|
        0 <= i < stack.len() ==> children.contains(Slot::Node((#[trigger] stack[i]).scene))
    &&& forall|i: int, j: int, a: int, b: int|
        #![trigger stack[i], stack[j], children[a], children[b]]
        0 <= i < j < stack.len() && 0 <= a < children.len() && 0 <= b < children.len()
            && children[a] == Slot::Node(stack[i].scene) && children[b] == Slot::Node(
            stack[j].scene,
        ) ==> a < b
}

/// A push keeps the scenes of the stack under the scene parent, in the order of the stack.
pub proof fn law_push_keeps_stack_order(
    before: ManagerState,
    after: ManagerState,
    new: NodeSnapshot,
    top_mode: ProcessMode,
    done: Seq<TreeAction>,
    sight: Sight,
)
    requires
        is_pushed(before, after, new, top_mode, done),
        sight.can_take(before.scene_parent, new.id),
        sight.holds(before),
        in_stack_order(before.stack, sight.children),
    ensures
        sight.after(before.scene_parent, done).holds(after),
        in_stack_order(after.stack, sight.after(before.scene_parent, done).children),
{
    law_push_seen(before, after, new, top_mode, done, sight);
    let n = before.stack.len() as int;
    let seen = sight.after(before.scene_parent, done);
    assert(after.stack.len() == n + 1) by {
        assert(scenes(after.stack).len() == scenes(before.stack).push(new.id).len());
    }
    assert(seen.children =~= sight.children.insert(
        sight.children.len() as int,
        Slot::Node(new.id),
    ));
    assert forall|i: int| 0 <= i < after.stack.len() implies (#[trigger] after.stack[i]).scene
        == (if i < n {
        before.stack[i].scene
    } else {
        new.id
    }) by {
        assert(scenes(after.stack)[i] == scenes(before.stack).push(new.id)[i]);
        if i < n {
            assert(scenes(before.stack)[i] == before.stack[i].scene);
        }
    }
    lemma_placed(before, after, sight, seen, sight.children.len() as int, new.id);
    lemma_order_placed(
        before.stack,
        after.stack,
        n,
        sight.children,
        seen.children,
        sight.children.len() as int,
        new.id,
    );
}

/// An insertion below the top keeps the scenes of the stack under the scene parent, in the order of
/// the stack.
pub proof fn law_insert_keeps_stack_order(
    before: ManagerState,
    after: ManagerState,
    index: int,
    new: NodeSnapshot,
    done: Seq<TreeAction>,
    sight: Sight,
)
    requires
        0 <= index < before.stack.len(),
        is_inserted(before, after, index, new, done),
        sight.can_take(before.scene_parent, new.id),
        sight.holds(before),
        in_stack_order(before.stack, sight.children),
    ensures
        sight.after(before.scene_parent, done).holds(after),
        in_stack_order(after.stack, sight.after(before.scene_parent, done).children),
{
    let below = if index == 0 {
        -1
    } else {
        let slot = Slot::Node(before.stack[index - 1].scene);
        assert(sight.children.contains(slot));
        choose|a: int| 0 <= a < sight.children.len() && sight.children[a] == slot
    };
    law_insert_seen(before, after, index, new, done, sight, below);
    let seen = sight.after(before.scene_parent, done);
    assert(seen.children =~= sight.children.insert(below + 1, Slot::Node(new.id)));
    assert forall|i: int| 0 <= i < after.stack.len() implies (#[trigger] after.stack[i]).scene
        == (if i < index {
        before.stack[i].scene
    } else if i == index {
        new.id
    } else {
        before.stack[i - 1].scene
    }) by {
        if i > index {
            assert(after.stack[i - 1 + 1] == before.stack[i - 1]);
        }
    }
    lemma_placed(before, after, sight, seen, below + 1, new.id);
    lemma_order_placed(
        before.stack,
        after.stack,
        index,
        sight.children,
        seen.children,
        below + 1,
        new.id,
    );
}

/// A removal keeps the other scenes of the stack under the scene parent, in the order of the stack.
pub proof fn law_remove_keeps_stack_order(
    before: ManagerState,
    after: ManagerState,
    index: int,
    done: Seq<TreeAction>,
    sight: Sight,
)
    requires
        0 <= index < before.stack.len(),
        before.distinct(),
        is_removed(before, after, index, done),
        sight.holds(before),
        in_stack_order(before.stack, sight.children),
    ensures
        sight.after(before.scene_parent, done).holds(after),
        in_stack_order(after.stack, sight.after(before.scene_parent, done).children),
{
    let scene = before.stack[index].scene;
    assert(sight.children.contains(Slot::Node(scene)));
    let place = choose|a: int|
        0 <= a < sight.children.len() && sight.children[a] == Slot::Node(scene);
    law_remove_seen(before, after, index, done, sight, place);
    law_remove_parents(before, index, sight.shape);
    assert(done =~= before.remove_actions(index));
    let seen = sight.after(before.scene_parent, done);
    assert forall|i: int| 0 <= i < after.stack.len() implies (#[trigger] after.stack[i])
        == before.stack[if i < index {
        i
    } else {
        i + 1
    }] by {}
    assert forall|a: int| 0 <= a < seen.children.len() implies (#[trigger] seen.children[a])
        == sight.children[if a < place {
        a
    } else {
        a + 1
    }] by {}
    assert forall|x: int| 0 <= x < sight.children.len() && x != place implies (
    #[trigger] sight.children[x]) == seen.children[if x < place {
        x
    } else {
        x - 1
    }] by {}
    assert forall|node: NodeId| #[trigger]
        seen.children.contains(Slot::Node(node)) <==> seen.shape.is_under(
            node,
            before.scene_parent,
        ) by {
        if seen.children.contains(Slot::Node(node)) {
            let a = choose|a: int|
                0 <= a < seen.children.len() && seen.children[a] == Slot::Node(node);
            let x = if a < place {
                a
            } else {
                a + 1
            };
            assert(sight.children[x] == Slot::Node(node));
            assert(sight.children.contains(Slot::Node(node)));
        }
        if seen.shape.is_under(node, before.scene_parent) {
            assert(sight.children.contains(Slot::Node(node)));
            let x = choose|x: int|
                0 <= x < sight.children.len() && sight.children[x] == Slot::Node(node);
            assert(x != place);
            assert(seen.children[if x < place {
                x
            } else {
                x - 1
            }] == Slot::Node(node));
        }
    }
    assert(!seen.children.contains(Slot::Placeholder)) by {
        if seen.children.contains(Slot::Placeholder) {
            let a = choose|a: int|
                0 <= a < seen.children.len() && seen.children[a] == Slot::Placeholder;
            assert(sight.children[if a < place {
                a
            } else {
                a + 1
            }] == Slot::Placeholder);
        }
    }
    assert forall|i: int| 0 <= i < after.stack.len() implies seen.shape.has_parent(
        (#[trigger] after.stack[i]).scene,
    ) && seen.shape.parents[after.stack[i].scene] == after.scene_parent by {
        let k = if i < index {
            i
        } else {
            i + 1
        };
        assert(before.stack[k].scene != scene);
        assert(sight.shape.has_parent(before.stack[k].scene));
    }
    assert forall|i: int| 0 <= i < after.stack.len() implies seen.children.contains(
        Slot::Node((#[trigger] after.stack[i]).scene),
    ) by {
        assert(seen.shape.is_under(after.stack[i].scene, before.scene_parent));
    }
    assert forall|i: int, j: int, a: int, b: int|
        #![trigger after.stack[i], after.stack[j], seen.children[a], seen.children[b]]
        0 <= i < j < after.stack.len() && 0 <= a < seen.children.len() && 0 <= b
            < seen.children.len() && seen.children[a] == Slot::Node(after.stack[i].scene)
            && seen.children[b] == Slot::Node(after.stack[j].scene) implies a < b by {
        let x = if a < place {
            a
        } else {
            a + 1
        };
        let y = if b < place {
            b
        } else {
            b + 1
        };
        let k = if i < index {
            i
        } else {
            i + 1
        };
        let l = if j < index {
            j
        } else {
            j + 1
        };
        assert(sight.children[x] == Slot::Node(before.stack[k].scene));
        assert(sight.children[y] == Slot::Node(before.stack[l].scene));
    }
}

/// The children of the scene parent with one more at `place` are told of as before.
proof fn lemma_placed(
    before: ManagerState,
    after: ManagerState,
    sight: Sight,
    seen: Sight,
    place: int,
    new: NodeId,
)
    requires
        sight.holds(before),
        after.scene_parent == before.scene_parent,
        !sight.shape.has_parent(new),
        0 <= place <= sight.children.len(),
        seen.children == sight.children.insert(place, Slot::Node(new)),
        seen.shape.parents == sight.shape.parents.insert(new, before.scene_parent),
        seen.shape.placeholder is None,
        forall|i: int|
            0 <= i < after.stack.len() ==> (#[trigger] after.stack[i]).scene == new
                || sight.shape.is_under(after.stack[i].scene, before.scene_parent),
    ensures
        seen.holds(after),
{
    assert(!sight.shape.is_under(new, before.scene_parent));
    assert(!sight.children.contains(Slot::Node(new)));
    assert forall|x: int| 0 <= x < sight.children.len() implies (#[trigger] sight.children[x])
        == seen.children[if x < place {
        x
    } else {
        x + 1
    }] by {}
    assert(seen.children[place] == Slot::Node(new));
    assert forall|node: NodeId| #[trigger]
        seen.children.contains(Slot::Node(node)) <==> seen.shape.is_under(
            node,
            before.scene_parent,
        ) by {
        if seen.children.contains(Slot::Node(node)) && node != new {
            let a = choose|a: int|
                0 <= a < seen.children.len() && seen.children[a] == Slot::Node(node);
            assert(sight.children[if a < place {
                a
            } else {
                a - 1
            }] == Slot::Node(node));
            assert(sight.children.contains(Slot::Node(node)));
        }
        if seen.shape.is_under(node, before.scene_parent) && node != new {
            assert(sight.children.contains(Slot::Node(node)));
            let x = choose|x: int|
                0 <= x < sight.children.len() && sight.children[x] == Slot::Node(node);
            assert(seen.children[if x < place {
                x
            } else {
                x + 1
            }] == Slot::Node(node));
        }
    }
    assert(!seen.children.contains(Slot::Placeholder)) by {
        if seen.children.contains(Slot::Placeholder) {
            let a = choose|a: int|
                0 <= a < seen.children.len() && seen.children[a] == Slot::Placeholder;
            assert(sight.children[if a < place {
                a
            } else {
                a - 1
            }] == Slot::Placeholder);
        }
    }
    assert(seen.children.no_duplicates()) by {
        assert forall|a: int, b: int|
            0 <= a < seen.children.len() && 0 <= b < seen.children.len() && a
                != b implies seen.children[a] != seen.children[b] by {
            if a != place && b != place {
                let x = if a < place {
                    a
                } else {
                    a - 1
                };
                let y = if b < place {
                    b
                } else {
                    b - 1
                };
                assert(sight.children[x] != sight.children[y]);
            } else {
                let other = if a == place {
                    b
                } else {
                    a
                };
                let x = if other < place {
                    other
                } else {
                    other - 1
                };
                assert(sight.children[x] == seen.children[other]);
            }
        }
    }
}

/// The scenes of a stack stay in order among `children` where one more is put at `index` on the
/// stack and at `place` among the children, between its neighbours on the stack.
proof fn lemma_order_placed(
    before: Seq<StackData>,
    after: Seq<StackData>,
    index: int,
    children: Seq<Slot>,
    placed: Seq<Slot>,
    place: int,
    new: NodeId,
)
    requires
        in_stack_order(before, children),
        children.no_duplicates(),
        !children.contains(Slot::Node(new)),
        0 <= index <= before.len(),
        0 <= place <= children.len(),
        after.len() == before.len() + 1,
        placed == children.insert(place, Slot::Node(new)),
        forall|i: int|
            0 <= i < after.len() ==> (#[trigger] after[i]).scene == (if i < index {
                before[i].scene
            } else if i == index {
                new
            } else {
                before[i - 1].scene
            }),
        index == before.len() ==> place == children.len(),
        index == 0 && before.len() > 0 ==> place == 0,
        0 < index < before.len() ==> 0 < place && children[place - 1] == Slot::Node(
            before[index - 1].scene,
        ),
    ensures
        in_stack_order(after, placed),
{
    assert(placed[place] == Slot::Node(new));
    assert forall|i: int| 0 <= i < before.len() implies (#[trigger] before[i]).scene != new by {
        assert(children.contains(Slot::Node(before[i].scene)));
    }
    assert forall|i: int| 0 <= i < after.len() implies placed.contains(
        Slot::Node((#[trigger] after[i]).scene),
    ) by {
        if i != index {
            let k = if i < index {
                i
            } else {
                i - 1
            };
            let slot = Slot::Node(before[k].scene);
            assert(children.contains(slot));
            let x = choose|x: int| 0 <= x < children.len() && children[x] == slot;
            assert(placed[if x < place {
                x
            } else {
                x + 1
            }] == slot);
        }
    }
    assert forall|i: int, j: int, a: int, b: int|
        #![trigger after[i], after[j], placed[a], placed[b]]
        0 <= i < j < after.len() && 0 <= a < placed.len() && 0 <= b < placed.len() && placed[a]
            == Slot::Node(after[i].scene) && placed[b] == Slot::Node(after[j].scene) implies a
        < b by {
        let x = if a < place {
            a
        } else {
            a - 1
        };
        let y = if b < place {
            b
        } else {
            b - 1
        };
        if i == index {
            assert(a == place) by {
                if a != place {
                    assert(children[x] == Slot::Node(new));
                }
            }
            assert(b != place);
            assert(children[y] == Slot::Node(before[j - 1].scene));
            if index > 0 {
                assert(place - 1 < y);
            }
        } else if j == index {
            assert(b == place) by {
                if b != place {
                    assert(children[y] == Slot::Node(new));
                }
            }
            assert(a != place);
            assert(children[x] == Slot::Node(before[i].scene));
            if i < index - 1 && index < before.len() {
                assert(x < place - 1);
            } else if index < before.len() {
                assert(children[x] == children[place - 1]);
            }
        } else {
            let k = if i < index {
                i
            } else {
                i - 1
            };
            let l = if j < index {
                j
            } else {
                j - 1
            };
            assert(a != place && b != place);
            assert(children[x] == Slot::Node(before[k].scene));
            assert(children[y] == Slot::Node(before[l].scene));
        }
    }
}

/// An entry of the stack is made of a scene and its process mode, and is registered.
pub proof fn law_entry(scene: NodeId, mode: ProcessMode, data: StackData, told: NodeId)
    requires
        call_ensures(StackData::new, (scene, mode), data),
        call_ensures(StackData::scene, (&data,), told),
    ensures
        data.scene == scene,
        told == scene,
        data.initial_process_mode == mode,
        data.registered,
{
}

/// Pausing an entry disables its scene and remembers the process mode that the scene had; resuming
/// it then gives the scene that mode back.
pub proof fn law_pause_then_unpause(
    data: &mut StackData,
    current: ProcessMode,
    pausing: &mut Vec<TreeAction>,
    paused: &StackData,
    resuming: &mut Vec<TreeAction>,
)
    requires
        call_ensures(StackData::pause, (data, current, pausing), ()),
        *paused == *final(data),
        call_ensures(StackData::unpause, (paused, resuming), ()),
    ensures
        final(data).scene == old(data).scene,
        final(data).registered == old(data).registered,
        final(data).initial_process_mode == current,
        final(pausing)@ == old(pausing)@.push(
            TreeAction::SetProcessMode { node: old(data).scene, mode: ProcessMode::Disabled },
        ),
        final(resuming)@ == old(resuming)@.push(
            TreeAction::SetProcessMode { node: old(data).scene, mode: current },
        ),
{
    assert(final(pausing)@ =~= old(pausing)@.push(
        TreeAction::SetProcessMode { node: old(data).scene, mode: ProcessMode::Disabled },
    ));
    assert(final(resuming)@ =~= old(resuming)@.push(
        TreeAction::SetProcessMode { node: old(data).scene, mode: current },
    ));
}

/// A sibling of an entry goes behind the entry's scene, and letting go of an entry ends the watch of
/// its scene; what is reported of that is whether the entry was still registered.
pub proof fn law_entry_actions(
    data: StackData,
    sibling: NodeId,
    adding: &mut Vec<TreeAction>,
    releasing: &mut Vec<TreeAction>,
    leaked: bool,
)
    requires
        call_ensures(StackData::add_sibling, (&data, sibling, adding), ()),
        call_ensures(StackData::release, (data, releasing), leaked),
    ensures
        final(adding)@ == old(adding)@.push(
            TreeAction::AddSibling { sibling: data.scene, node: sibling },
        ),
        final(releasing)@ == old(releasing)@.push(
            TreeAction::DisconnectTreeExiting { scene: data.scene },
        ),
        leaked == data.registered,
{
}

/// A scene that is registered is watched, and its entry remembers its process mode. Unregistering the
/// entry gives the scene back, with that mode, and ends the watch.
pub proof fn law_register_then_unregister(
    scene: NodeId,
    mode: ProcessMode,
    registering: &mut Vec<TreeAction>,
    data: StackData,
    unregistering: &mut Vec<TreeAction>,
    back: NodeId,
)
    requires
        call_ensures(register_scene, (scene, mode, registering), data),
        call_ensures(unregister_scene, (data, unregistering), back),
    ensures
        data.scene == scene && data.initial_process_mode == mode && data.registered,
        back == scene,
        final(registering)@ == old(registering)@.push(TreeAction::ConnectTreeExiting { scene }),
        final(unregistering)@ == old(unregistering)@.push(
            TreeAction::SetProcessMode { node: scene, mode },
        ).push(TreeAction::DisconnectTreeExiting { scene }),
{
    assert(final(unregistering)@ =~= old(unregistering)@.push(
        TreeAction::SetProcessMode { node: scene, mode },
    ).push(TreeAction::DisconnectTreeExiting { scene }));
}

/// Whether `after` is `before` without its scene at `index`, and `done` is what that is to do where
/// the scene is not to be kept: what a removal does, and then to free the scene.
pub open spec fn is_discarded(
    before: ManagerState,
    after: ManagerState,
    index: int,
    done: Seq<TreeAction>,
) -> bool {
    &&& done.len() > 0
    &&& is_removed(before, after, index, done.drop_last())
    &&& done.last() == (TreeAction::Free { node: before.stack[index].scene })
}

/// A scene that is discarded is freed, once, after everything else, and nothing else is freed. It is
/// announced as a removal is.
pub proof fn law_discarded_is_freed_once(
    before: ManagerState,
    after: ManagerState,
    index: int,
    done: Seq<TreeAction>,
)
    requires
        0 <= index < before.stack.len(),
        is_discarded(before, after, index, done),
    ensures
        freed_by(done) == seq![before.stack[index].scene],
        announced_by(done) == announced_by(done.drop_last()),
        index < before.stack.len() - 1 ==> announced_by(done) == Seq::<Announcement>::empty(),
{
    assert(done.drop_last() =~= before.remove_actions(index));
    law_remove_effects(before, index, Multiset::empty());
}

/// What was asked for by a removal and a `Free` of the removed scene.
pub(crate) proof fn lemma_is_discarded(
    before: ManagerState,
    index: int,
    old_actions: Seq<TreeAction>,
    new_actions: Seq<TreeAction>,
)
    requires
        0 <= index < before.stack.len(),
        new_actions == (old_actions + before.remove_actions(index)).push(
            TreeAction::Free { node: before.stack[index].scene },
        ),
    ensures
        is_discarded(before, before.after_remove(index), index, added(old_actions, new_actions)),
        new_actions == old_actions + added(old_actions, new_actions),
{
    let done = added(old_actions, new_actions);
    assert(done =~= before.remove_actions(index).push(
        TreeAction::Free { node: before.stack[index].scene },
    ));
    assert(done.drop_last() =~= before.remove_actions(index));
    assert(new_actions =~= old_actions + done);
    lemma_is_removed(before, index);
}

/// What was asked for by a removal.
pub(crate) proof fn lemma_asked_removal(
    before: ManagerState,
    index: int,
    old_actions: Seq<TreeAction>,
    new_actions: Seq<TreeAction>,
)
    requires
        0 <= index < before.stack.len(),
        new_actions == old_actions + before.remove_actions(index),
    ensures
        is_removed(before, before.after_remove(index), index, added(old_actions, new_actions)),
        new_actions == old_actions + added(old_actions, new_actions),
{
    assert(added(old_actions, new_actions) =~= before.remove_actions(index));
    lemma_is_removed(before, index);
}

/// What was asked for by a push.
pub(crate) proof fn lemma_asked_push(
    before: ManagerState,
    new: NodeSnapshot,
    top_mode: ProcessMode,
    old_actions: Seq<TreeAction>,
    new_actions: Seq<TreeAction>,
)
    requires
        new_actions == old_actions + before.push_actions(new.id),
    ensures
        is_pushed(
            before,
            before.after_push(new, top_mode),
            new,
            top_mode,
            added(old_actions, new_actions),
        ),
        new_actions == old_actions + added(old_actions, new_actions),
{
    assert(added(old_actions, new_actions) =~= before.push_actions(new.id));
    lemma_is_pushed(before, new, top_mode);
}

/// What was asked for by an insertion below the top.
pub(crate) proof fn lemma_asked_insert(
    before: ManagerState,
    index: int,
    new: NodeSnapshot,
    old_actions: Seq<TreeAction>,
    new_actions: Seq<TreeAction>,
)
    requires
        0 <= index < before.stack.len(),
        new_actions == old_actions + before.insert_actions(index, new.id),
    ensures
        is_inserted(
            before,
            before.after_insert(index, new),
            index,
            new,
            added(old_actions, new_actions),
        ),
        new_actions == old_actions + added(old_actions, new_actions),
{
    assert(added(old_actions, new_actions) =~= before.insert_actions(index, new.id));
    lemma_is_inserted(before, index, new);
}

} // verus!
