//! What the node through which scripts use the scene manager gives back and does.
use vstd::prelude::*;

use crate::laws::stack::{
    added, is_discarded, is_pushed, is_removed, law_places, lemma_asked_push, lemma_asked_removal,
    lemma_is_discarded, scenes,
};
use crate::manager::gd_api::{
    get_parent_method, GetRootSceneError, ParentReply, PendingSwap, SceneManagerNode,
    SceneManagerState,
};
use crate::manager::{is_index_of, ManagerState, SceneManager};
use crate::resource::{
    Argument, CacheMode, ObjectSource, ObjectToNodeError, PathRequest, ThreadedNodeLoadError,
    ThreadedSource,
};
use crate::tree::{announced_by, freed_by, NodeId, NodeSnapshot, ProcessMode, TreeAction};

verus! {

/// The manager of a node that is set up.
pub open spec fn managed(node: SceneManagerNode) -> ManagerState {
    node.state->manager@
}

/// Looking at a node that is set up shows its manager.
pub proof fn law_node_looks(
    node: &SceneManagerNode,
    ready: bool,
    manager: &SceneManager,
    current: Option<NodeId>,
    parent: NodeId,
)
    requires
        node.state is Ready,
        call_ensures(SceneManagerNode::has_manager, (node,), ready),
        call_ensures(SceneManagerNode::manager, (node,), manager),
        call_ensures(SceneManagerNode::get_current_scene, (node,), current),
        call_ensures(SceneManagerNode::get_scene_parent, (node,), parent),
    ensures
        ready,
        manager@ == managed(*node),
        parent == managed(*node).scene_parent,
        current is None <==> managed(*node).stack.len() == 0,
        current is Some ==> current->0 == scenes(managed(*node).stack).last(),
{
}

/// The state of a node that is set up shows the manager, its root and its scene parent.
pub proof fn law_state_looks(
    state: &SceneManagerState,
    manager: &SceneManager,
    root: NodeId,
    parent: NodeId,
)
    requires
        state is Ready,
        call_ensures(SceneManagerState::manager, (state,), manager),
        call_ensures(SceneManagerState::root, (state,), root),
        call_ensures(SceneManagerState::scene_parent, (state,), parent),
    ensures
        manager@ == state->manager@,
        root == state->manager@.root,
        parent == state->manager@.scene_parent,
{
}

/// What is changed through the manager of a node that is set up is changed in the node, and nothing
/// else is.
pub proof fn law_manager_mut(node: &mut SceneManagerNode, manager: &mut SceneManager)
    requires
        call_ensures(SceneManagerNode::manager_mut, (node,), manager),
    ensures
        old(manager)@ == managed(*old(node)),
        final(node).state is Ready,
        managed(*final(node)) == final(manager)@,
{
}

/// A node has a manager if and only if it is set up.
pub proof fn law_has_manager(node: &SceneManagerNode, ready: bool)
    requires
        call_ensures(SceneManagerNode::has_manager, (node,), ready),
    ensures
        ready <==> node.state is Ready,
        ready <==> !(node.state is Initializing),
{
}

/// A scene can be pushed if and only if it has no parent; else nothing changes.
pub proof fn law_node_push(
    node: &mut SceneManagerNode,
    scene: NodeSnapshot,
    top_mode: ProcessMode,
    actions: &mut Vec<TreeAction>,
    pushed: bool,
)
    requires
        call_ensures(
            SceneManagerNode::push_scene_immediate,
            (node, scene, top_mode, actions),
            pushed,
        ),
    ensures
        final(node).state is Ready,
        pushed <==> !scene.has_parent,
        !pushed ==> managed(*final(node)) == managed(*old(node)) && final(actions)@
            == old(actions)@,
        pushed ==> is_pushed(
            managed(*old(node)),
            managed(*final(node)),
            scene,
            top_mode,
            added(old(actions)@, final(actions)@),
        ),
        final(actions)@ == old(actions)@ + added(old(actions)@, final(actions)@),
{
    assert(final(actions)@ =~= old(actions)@ + added(old(actions)@, final(actions)@));
    if pushed {
        lemma_asked_push(managed(*old(node)), scene, top_mode, old(actions)@, final(actions)@);
    }
}

/// A deferred push does what an immediate one does.
pub proof fn law_node_push_deferred(
    node: &mut SceneManagerNode,
    scene: NodeSnapshot,
    top_mode: ProcessMode,
    actions: &mut Vec<TreeAction>,
)
    requires
        call_ensures(SceneManagerNode::push_scene, (node, scene, top_mode, actions), ()),
    ensures
        final(node).state is Ready,
        scene.has_parent ==> managed(*final(node)) == managed(*old(node)) && final(actions)@
            == old(actions)@,
        !scene.has_parent ==> is_pushed(
            managed(*old(node)),
            managed(*final(node)),
            scene,
            top_mode,
            added(old(actions)@, final(actions)@),
        ),
        final(actions)@ == old(actions)@ + added(old(actions)@, final(actions)@),
{
    assert(final(actions)@ =~= old(actions)@ + added(old(actions)@, final(actions)@));
    if !scene.has_parent {
        lemma_asked_push(managed(*old(node)), scene, top_mode, old(actions)@, final(actions)@);
    }
}

/// An immediate removal hands the scene back, alive, if and only if it was on the stack; else
/// nothing changes.
pub proof fn law_node_remove(
    node: &mut SceneManagerNode,
    scene: NodeId,
    actions: &mut Vec<TreeAction>,
    removed: Option<NodeId>,
)
    requires
        call_ensures(SceneManagerNode::remove_scene_immediate, (node, scene, actions), removed),
    ensures
        final(node).state is Ready,
        removed is Some <==> scenes(managed(*old(node)).stack).contains(scene),
        removed is Some ==> removed->0 == scene,
        removed is None ==> managed(*final(node)) == managed(*old(node)) && final(actions)@
            == old(actions)@,
        removed is Some ==> exists|index: int|
            {
                &&& #[trigger] is_index_of(managed(*old(node)).stack, scene, index)
                &&& is_removed(
                    managed(*old(node)),
                    managed(*final(node)),
                    index,
                    added(old(actions)@, final(actions)@),
                )
            },
        final(actions)@ == old(actions)@ + added(old(actions)@, final(actions)@),
{
    let before = managed(*old(node));
    assert(final(actions)@ =~= old(actions)@ + added(old(actions)@, final(actions)@));
    law_places(before.stack, scene, 0, 0);
    if removed is Some {
        let index = choose|index: int|
            {
                &&& #[trigger] is_index_of(before.stack, scene, index)
                &&& managed(*final(node)) == before.after_remove(index)
                &&& final(actions)@ == old(actions)@ + before.remove_actions(index)
            };
        assert(is_index_of(before.stack, scene, index));
        lemma_asked_removal(before, index, old(actions)@, final(actions)@);
    }
}

/// A deferred removal frees the scene, once, if and only if it was on the stack; else nothing
/// changes.
pub proof fn law_node_remove_deferred(
    node: &mut SceneManagerNode,
    scene: NodeId,
    actions: &mut Vec<TreeAction>,
    known: bool,
)
    requires
        call_ensures(SceneManagerNode::remove_scene, (node, scene, actions), known),
    ensures
        final(node).state is Ready,
        known <==> scenes(managed(*old(node)).stack).contains(scene),
        !known ==> managed(*final(node)) == managed(*old(node)) && final(actions)@
            == old(actions)@,
        known ==> exists|index: int|
            {
                &&& #[trigger] is_index_of(managed(*old(node)).stack, scene, index)
                &&& is_discarded(
                    managed(*old(node)),
                    managed(*final(node)),
                    index,
                    added(old(actions)@, final(actions)@),
                )
            },
        final(actions)@ == old(actions)@ + added(old(actions)@, final(actions)@),
{
    let before = managed(*old(node));
    assert(final(actions)@ =~= old(actions)@ + added(old(actions)@, final(actions)@));
    law_places(before.stack, scene, 0, 0);
    if known {
        let index = choose|index: int|
            {
                &&& #[trigger] is_index_of(before.stack, scene, index)
                &&& managed(*final(node)) == before.after_remove(index)
                &&& final(actions)@ == (old(actions)@ + before.remove_actions(index)).push(
                    TreeAction::Free { node: scene },
                )
            };
        assert(is_index_of(before.stack, scene, index));
        lemma_is_discarded(before, index, old(actions)@, final(actions)@);
    }
}

/// An immediate pop hands the topmost scene back, alive, unless the stack is empty.
pub proof fn law_node_pop(
    node: &mut SceneManagerNode,
    actions: &mut Vec<TreeAction>,
    popped: Option<NodeId>,
)
    requires
        call_ensures(SceneManagerNode::pop_scene_immediate, (node, actions), popped),
    ensures
        final(node).state is Ready,
        popped is None <==> managed(*old(node)).stack.len() == 0,
        popped is None ==> managed(*final(node)) == managed(*old(node)) && final(actions)@
            == old(actions)@,
        popped is Some ==> popped->0 == scenes(managed(*old(node)).stack).last() && is_removed(
            managed(*old(node)),
            managed(*final(node)),
            managed(*old(node)).stack.len() - 1,
            added(old(actions)@, final(actions)@),
        ),
        final(actions)@ == old(actions)@ + added(old(actions)@, final(actions)@),
{
    let before = managed(*old(node));
    assert(final(actions)@ =~= old(actions)@ + added(old(actions)@, final(actions)@));
    if popped is Some {
        lemma_asked_removal(before, before.stack.len() - 1, old(actions)@, final(actions)@);
    }
}

/// A deferred pop frees the topmost scene, once, unless the stack is empty.
pub proof fn law_node_pop_deferred(node: &mut SceneManagerNode, actions: &mut Vec<TreeAction>)
    requires
        call_ensures(SceneManagerNode::pop_scene, (node, actions), ()),
    ensures
        final(node).state is Ready,
        managed(*old(node)).stack.len() == 0 ==> managed(*final(node)) == managed(*old(node))
            && final(actions)@ == old(actions)@,
        managed(*old(node)).stack.len() > 0 ==> is_discarded(
            managed(*old(node)),
            managed(*final(node)),
            managed(*old(node)).stack.len() - 1,
            added(old(actions)@, final(actions)@),
        ),
        final(actions)@ == old(actions)@ + added(old(actions)@, final(actions)@),
{
    let before = managed(*old(node));
    assert(final(actions)@ =~= old(actions)@ + added(old(actions)@, final(actions)@));
    if before.stack.len() > 0 {
        lemma_is_discarded(before, before.stack.len() - 1, old(actions)@, final(actions)@);
    }
}

/// A swap begins with a pop, and keeps the popped scene in mind.
pub proof fn law_node_begin_swap(
    node: &mut SceneManagerNode,
    actions: &mut Vec<TreeAction>,
    swap: PendingSwap,
)
    requires
        call_ensures(SceneManagerNode::begin_swap, (node, actions), swap),
    ensures
        final(node).state is Ready,
        swap.old is None <==> managed(*old(node)).stack.len() == 0,
        swap.old is None ==> managed(*final(node)) == managed(*old(node)) && final(actions)@
            == old(actions)@,
        swap.old is Some ==> swap.old->0 == scenes(managed(*old(node)).stack).last() && is_removed(
            managed(*old(node)),
            managed(*final(node)),
            managed(*old(node)).stack.len() - 1,
            added(old(actions)@, final(actions)@),
        ),
        final(actions)@ == old(actions)@ + added(old(actions)@, final(actions)@),
{
    let before = managed(*old(node));
    assert(final(actions)@ =~= old(actions)@ + added(old(actions)@, final(actions)@));
    if swap.old is Some {
        lemma_asked_removal(before, before.stack.len() - 1, old(actions)@, final(actions)@);
    }
}

/// Whether `done` ends a swap in which `scene` takes the place of `replaced`: a push, unless the
/// scene has a parent, and then the old scene is freed, where there was one.
pub open spec fn ends_swap(
    before: ManagerState,
    after: ManagerState,
    scene: NodeSnapshot,
    top_mode: ProcessMode,
    replaced: Option<NodeId>,
    done: Seq<TreeAction>,
) -> bool {
    let pushing = if replaced is Some {
        done.drop_last()
    } else {
        done
    };
    &&& replaced is Some ==> done.len() > 0 && done.last() == (TreeAction::Free {
        node: replaced->0,
    })
    &&& scene.has_parent ==> after == before && pushing.len() == 0
    &&& !scene.has_parent ==> is_pushed(before, after, scene, top_mode, pushing)
    &&& freed_by(done) == (if replaced is Some {
        seq![replaced->0]
    } else {
        Seq::empty()
    })
    &&& announced_by(done).len() == (if scene.has_parent {
        0int
    } else {
        1
    })
}

proof fn lemma_ends_swap(
    before: ManagerState,
    scene: NodeSnapshot,
    top_mode: ProcessMode,
    replaced: Option<NodeId>,
    old_actions: Seq<TreeAction>,
    new_actions: Seq<TreeAction>,
)
    requires
        new_actions == old_actions + (if scene.has_parent {
            Seq::empty()
        } else {
            before.push_actions(scene.id)
        }) + (match replaced {
            Some(node) => seq![TreeAction::Free { node }],
            None => Seq::empty(),
        }),
    ensures
        ends_swap(
            before,
            if scene.has_parent {
                before
            } else {
                before.after_push(scene, top_mode)
            },
            scene,
            top_mode,
            replaced,
            added(old_actions, new_actions),
        ),
        new_actions == old_actions + added(old_actions, new_actions),
{
    let pushing = if scene.has_parent {
        Seq::empty()
    } else {
        before.push_actions(scene.id)
    };
    let done = added(old_actions, new_actions);
    assert(new_actions =~= old_actions + done);
    crate::laws::effects::law_push_effects(before, scene.id, vstd::multiset::Multiset::empty());
    assert(freed_by(Seq::<TreeAction>::empty()) =~= Seq::empty());
    assert(announced_by(Seq::<TreeAction>::empty()) =~= Seq::empty());
    assert(added(old_actions, old_actions + pushing) =~= pushing);
    if !scene.has_parent {
        lemma_asked_push(before, scene, top_mode, old_actions, old_actions + pushing);
    }
    match replaced {
        Some(node) => {
            assert(done =~= pushing.push(TreeAction::Free { node }));
            assert(done.drop_last() =~= pushing);
            assert(freed_by(done) =~= seq![node]);
        },
        None => {
            assert(done =~= pushing);
        },
    }
}

/// An immediate swap gives back which scene was replaced, and frees that one, once.
pub proof fn law_node_swap(
    node: &mut SceneManagerNode,
    swap: PendingSwap,
    scene: NodeSnapshot,
    top_mode: ProcessMode,
    actions: &mut Vec<TreeAction>,
    replaced: Option<NodeId>,
)
    requires
        call_ensures(
            SceneManagerNode::swap_scene_immediate,
            (node, swap, scene, top_mode, actions),
            replaced,
        ),
    ensures
        final(node).state is Ready,
        replaced == swap.old,
        ends_swap(
            managed(*old(node)),
            managed(*final(node)),
            scene,
            top_mode,
            swap.old,
            added(old(actions)@, final(actions)@),
        ),
        freed_by(added(old(actions)@, final(actions)@)) == (if swap.old is Some {
            seq![swap.old->0]
        } else {
            Seq::empty()
        }),
        !scene.has_parent ==> scenes(managed(*final(node)).stack) == scenes(
            managed(*old(node)).stack,
        ).push(scene.id),
        final(actions)@ == old(actions)@ + added(old(actions)@, final(actions)@),
{
    lemma_ends_swap(
        managed(*old(node)),
        scene,
        top_mode,
        swap.old,
        old(actions)@,
        final(actions)@,
    );
}

/// A deferred swap frees the replaced scene, once.
pub proof fn law_node_swap_deferred(
    node: &mut SceneManagerNode,
    swap: PendingSwap,
    scene: NodeSnapshot,
    top_mode: ProcessMode,
    actions: &mut Vec<TreeAction>,
)
    requires
        call_ensures(
            SceneManagerNode::swap_scene,
            (node, swap, scene, top_mode, actions),
            (),
        ),
    ensures
        final(node).state is Ready,
        ends_swap(
            managed(*old(node)),
            managed(*final(node)),
            scene,
            top_mode,
            swap.old,
            added(old(actions)@, final(actions)@),
        ),
        freed_by(added(old(actions)@, final(actions)@)) == (if swap.old is Some {
            seq![swap.old->0]
        } else {
            Seq::empty()
        }),
        !scene.has_parent ==> scenes(managed(*final(node)).stack) == scenes(
            managed(*old(node)).stack,
        ).push(scene.id),
        final(actions)@ == old(actions)@ + added(old(actions)@, final(actions)@),
{
    lemma_ends_swap(
        managed(*old(node)),
        scene,
        top_mode,
        swap.old,
        old(actions)@,
        final(actions)@,
    );
}

/// What a value is made of for a transition and at once agree: both take a path as a packed scene to
/// be loaded with the cache, both take an object that is a node or a packed scene, and both refuse
/// nothing and any other value. Only the background load goes without helper threads.
pub proof fn law_values_become_nodes<Value>(
    arg: Argument<Value>,
    source: Result<ThreadedSource, ThreadedNodeLoadError<Value>>,
    at_once: Option<ObjectSource>,
)
    requires
        call_ensures(SceneManagerNode::transition_target::<Value>, (arg,), source),
        call_ensures(SceneManagerNode::load_to_node::<Value>, (arg,), at_once),
    ensures
        arg is Text || arg is Name ==> {
            let path = if arg is Text {
                arg->Text_0
            } else {
                arg->Name_0
            };
            &&& source is Ok && source->Ok_0 is Load
            &&& source->Ok_0->Load_0.path == path
            &&& source->Ok_0->Load_0.type_hint is Some
            &&& source->Ok_0->Load_0.type_hint->0@ == "PackedScene"@
            &&& source->Ok_0->Load_0.cache_mode == CacheMode::Reuse
            &&& !source->Ok_0->Load_0.use_sub_threads
            &&& at_once is Some && at_once->0 is Load
            &&& at_once->0->Load_0.path == path
            &&& at_once->0->Load_0.type_hint is Some
            &&& at_once->0->Load_0.type_hint->0@ == "PackedScene"@
            &&& at_once->0->Load_0.cache_mode == CacheMode::Reuse
        },
        arg matches Argument::Object(object) ==> {
            &&& at_once == Some(ObjectSource::Object(object))
            &&& object.class is Node ==> source == Ok::<_, ThreadedNodeLoadError<Value>>(
                ThreadedSource::Node(object.id),
            )
            &&& object.class is PackedScene ==> source == Ok::<_, ThreadedNodeLoadError<Value>>(
                ThreadedSource::Instantiate(object.id),
            )
            &&& object.class is Other ==> source == Err::<ThreadedSource, _>(
                ThreadedNodeLoadError::<Value>::Object(
                    ObjectToNodeError::UnrecognizedType(object.id),
                ),
            )
        },
        arg is Nil ==> at_once is None && source == Err::<ThreadedSource, _>(
            ThreadedNodeLoadError::<Value>::NullArgument,
        ),
        arg matches Argument::Other(value) ==> at_once is None && source == Err::<
            ThreadedSource,
            _,
        >(ThreadedNodeLoadError::<Value>::UnrecognizedArgument(value)),
{
}

/// The root scene is asked for if and only if the setting is a name that is not empty; it is that
/// name, as a packed scene, with the cache. Each way to have no such setting has its own error.
pub proof fn law_root_scene<ConvertError, Value>(
    setting: Option<Result<String, ConvertError>>,
    request: Result<PathRequest, GetRootSceneError<ConvertError, Value>>,
)
    requires
        call_ensures(
            SceneManagerNode::get_root_scene::<ConvertError, Value>,
            (setting,),
            request,
        ),
    ensures
        request is Ok <==> setting is Some && setting->0 is Ok && setting->0->Ok_0@.len() > 0,
        request is Ok ==> request->Ok_0.path == setting->0->Ok_0 && request->Ok_0.cache_mode
            == CacheMode::Reuse && request->Ok_0.type_hint is Some
            && request->Ok_0.type_hint->0@ == "PackedScene"@,
        setting is None ==> request->Err_0 is SettingMissing,
        setting is Some && setting->0 is Err ==> request->Err_0
            == GetRootSceneError::<ConvertError, Value>::SettingIsNotStringName(
            setting->0->Err_0,
        ),
        setting is Some && setting->0 is Ok && setting->0->Ok_0@.len() == 0 ==> request->Err_0
            is SettingIsUnset,
{
}

/// A new node keeps the root scene where there is one, and reports why there is none unless none is
/// set.
pub proof fn law_init<ConvertError, Value>(
    root_scene: Result<NodeId, GetRootSceneError<ConvertError, Value>>,
    node: SceneManagerNode,
    reports: bool,
)
    requires
        call_ensures(SceneManagerNode::init::<ConvertError, Value>, (root_scene,), node),
        root_scene is Err ==> call_ensures(
            SceneManagerNode::reports_root_scene_error::<ConvertError, Value>,
            (&root_scene->Err_0,),
            reports,
        ),
    ensures
        node.state is Initializing,
        root_scene is Ok ==> node.state->root_scene == Some(root_scene->Ok_0),
        root_scene is Err ==> node.state->root_scene is None,
        root_scene is Err ==> (reports <==> !(root_scene->Err_0 is SettingIsUnset)),
{
}

/// A node is set up when it enters a tree, once: with its root scene or else the tree's root, and
/// with the scene parent that the root names, if it names a node, or else the root. The root that is
/// asked is the one that the node is set up with.
pub proof fn law_enter_tree(
    node: &mut SceneManagerNode,
    looked: &SceneManagerNode,
    tree_root: NodeId,
    reply: ParentReply,
    pending: Option<NodeId>,
)
    requires
        *looked == *old(node),
        call_ensures(SceneManagerNode::pending_root, (looked, tree_root), pending),
        call_ensures(SceneManagerNode::enter_tree, (node, tree_root, reply), ()),
    ensures
        final(node).state is Ready,
        pending is Some <==> old(node).state is Initializing,
        pending is None ==> *final(node) == *old(node),
        pending is Some ==> {
            &&& managed(*final(node)).root == pending->0
            &&& pending->0 == (if old(node).state->root_scene is Some {
                old(node).state->root_scene->0
            } else {
                tree_root
            })
            &&& managed(*final(node)).stack.len() == 0
            &&& reply is Node ==> managed(*final(node)).scene_parent == reply->Node_0
            &&& !(reply is Node) ==> managed(*final(node)).scene_parent == pending->0
        },
{
}

/// Taking a tree over: the tree's current scene is taken out of its parent first, and then the root
/// is put under the tree's root, unless it is that.
pub proof fn law_begin_deferred_ready(
    node: &SceneManagerNode,
    current: NodeId,
    current_parent: NodeId,
    tree_root: NodeId,
    actions: &mut Vec<TreeAction>,
)
    requires
        call_ensures(
            SceneManagerNode::begin_deferred_ready,
            (node, current, current_parent, tree_root, actions),
            (),
        ),
    ensures
        ({
            let done = added(old(actions)@, final(actions)@);
            &&& final(actions)@ == old(actions)@ + done
            &&& done[0] == (TreeAction::RemoveChild { parent: current_parent, child: current })
            &&& managed(*node).root == tree_root ==> done.len() == 1
            &&& managed(*node).root != tree_root ==> done.len() == 2 && done[1] == (
            TreeAction::AddChild { parent: tree_root, child: managed(*node).root })
        }),
{
    let done = added(old(actions)@, final(actions)@);
    assert(final(actions)@ =~= old(actions)@ + done);
    assert(done[0] == final(actions)@[old(actions)@.len() as int]);
}

/// The tree's current scene then becomes the topmost scene, unless it still has a parent.
pub proof fn law_deferred_ready(
    node: &mut SceneManagerNode,
    current: NodeSnapshot,
    top_mode: ProcessMode,
    actions: &mut Vec<TreeAction>,
    pushed: bool,
)
    requires
        call_ensures(
            SceneManagerNode::deferred_ready,
            (node, current, top_mode, actions),
            pushed,
        ),
    ensures
        final(node).state is Ready,
        pushed <==> !current.has_parent,
        !pushed ==> managed(*final(node)) == managed(*old(node)) && final(actions)@
            == old(actions)@,
        pushed ==> is_pushed(
            managed(*old(node)),
            managed(*final(node)),
            current,
            top_mode,
            added(old(actions)@, final(actions)@),
        ),
        final(actions)@ == old(actions)@ + added(old(actions)@, final(actions)@),
{
    assert(final(actions)@ =~= old(actions)@ + added(old(actions)@, final(actions)@));
    if pushed {
        lemma_asked_push(managed(*old(node)), current, top_mode, old(actions)@, final(actions)@);
    }
}

/// The method by which a root scene says where scenes go has one name.
pub proof fn law_parent_method(name: &'static str)
    requires
        call_ensures(get_parent_method, (), name),
    ensures
        name@ == "get_scene_manager_parent"@,
{
}

} // verus!
