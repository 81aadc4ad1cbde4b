//! What the steps of a scene transition give back and do, one by one and in a row.
use vstd::prelude::*;

use crate::idle::IdleTask;
use crate::laws::node::managed;
use crate::laws::stack::{
    added, is_discarded, is_inserted, is_pushed, law_places, lemma_asked_insert, lemma_asked_push,
    lemma_is_discarded, scenes,
};
use crate::manager::gd_api::SceneManagerNode;
use crate::manager::transition::{
    transition_outcome, AwaitingTarget, ConcludingTransition, EndingTransition, HidingTransition,
    InsertTarget, InsertedTarget, InsertedTransition, LoadingTransition, OldScene,
    OngoingSceneTransition, Removal, RemoveOldScene, RemoveScene, RemoveTransition,
    SceneTransitionError, SceneTransitionFinishError, SceneTransitionStartError,
    StartingTransition,
};
use crate::manager::{is_index_of, on_stack, ManagerState, SceneManager};
use crate::tree::{announced_by, freed_by, Announcement, NodeId, NodeSnapshot, ProcessMode, TreeAction};

verus! {

/// Whether a transition was started from `before`: it is refused, with no change, if and only if the
/// transition scene has a parent. Else that scene is pushed, and what was the topmost scene before,
/// the current one, is the one to be replaced. The driver and the next scene are kept.
pub open spec fn is_started<Driver, NextScene, TargetSceneError>(
    before: ManagerState,
    after: ManagerState,
    driver: Driver,
    next_scene: NextScene,
    transition: NodeSnapshot,
    top_mode: ProcessMode,
    started: Result<
        StartingTransition<Driver, NextScene>,
        SceneTransitionStartError<TargetSceneError>,
    >,
    done: Seq<TreeAction>,
) -> bool {
    &&& started is Err <==> transition.has_parent
    &&& started is Err ==> started->Err_0 == SceneTransitionStartError::<
        TargetSceneError,
    >::TransitionAlreadyHasParent(transition.id) && after == before && done.len() == 0
    &&& started is Ok ==> {
        &&& is_pushed(before, after, transition, top_mode, done)
        &&& started->Ok_0.spec_driver() == driver
        &&& started->Ok_0.spec_next_scene() == next_scene
        &&& scenes(before.stack).len() == 0 ==> started->Ok_0.spec_old_scene() is None
        &&& scenes(before.stack).len() > 0 ==> started->Ok_0.spec_old_scene() == Some(
            scenes(before.stack)[scenes(before.stack).len() - 1],
        )
    }
}

/// Starting a transition replaces the current scene, whatever is below it.
pub proof fn law_start_scene_transition<Driver, NextScene, TargetSceneError>(
    manager: &mut SceneManager,
    driver: Driver,
    next_scene: NextScene,
    transition: NodeSnapshot,
    top_mode: ProcessMode,
    actions: &mut Vec<TreeAction>,
    started: Result<
        StartingTransition<Driver, NextScene>,
        SceneTransitionStartError<TargetSceneError>,
    >,
)
    requires
        call_ensures(
            SceneManager::start_scene_transition::<Driver, NextScene, TargetSceneError>,
            (manager, driver, next_scene, transition, top_mode, actions),
            started,
        ) || call_ensures(
            SceneManager::transition_scene::<Driver, NextScene, TargetSceneError>,
            (manager, driver, next_scene, transition, top_mode, actions),
            started,
        ),
    ensures
        is_started(
            old(manager)@,
            final(manager)@,
            driver,
            next_scene,
            transition,
            top_mode,
            started,
            added(old(actions)@, final(actions)@),
        ),
        final(actions)@ == old(actions)@ + added(old(actions)@, final(actions)@),
{
    assert(final(actions)@ =~= old(actions)@ + added(old(actions)@, final(actions)@));
    if !transition.has_parent {
        lemma_asked_push(old(manager)@, transition, top_mode, old(actions)@, final(actions)@);
    }
}

/// A node starts a transition as its manager does.
pub proof fn law_node_transition_scene<Driver, NextScene, TargetSceneError>(
    node: &mut SceneManagerNode,
    driver: Driver,
    next_scene: NextScene,
    transition: NodeSnapshot,
    top_mode: ProcessMode,
    actions: &mut Vec<TreeAction>,
    started: Result<
        StartingTransition<Driver, NextScene>,
        SceneTransitionStartError<TargetSceneError>,
    >,
)
    requires
        call_ensures(
            SceneManagerNode::transition_scene::<Driver, NextScene, TargetSceneError>,
            (node, driver, next_scene, transition, top_mode, actions),
            started,
        ),
    ensures
        final(node).state is Ready,
        is_started(
            managed(*old(node)),
            managed(*final(node)),
            driver,
            next_scene,
            transition,
            top_mode,
            started,
            added(old(actions)@, final(actions)@),
        ),
        final(actions)@ == old(actions)@ + added(old(actions)@, final(actions)@),
{
    assert(final(actions)@ =~= old(actions)@ + added(old(actions)@, final(actions)@));
    if !transition.has_parent {
        lemma_asked_push(
            managed(*old(node)),
            transition,
            top_mode,
            old(actions)@,
            final(actions)@,
        );
    }
}

/// The driver that a transition was started with is the one that is handed out to start, and what
/// was the topmost scene is still the one to be replaced. Once the driver is ready, nothing is to be
/// removed if there was none, that scene is to be removed if it is on the stack, and it is reported
/// missing if it is not.
pub proof fn law_driver_ready<Driver, NextScene>(
    starting: StartingTransition<Driver, NextScene>,
    hiding: (Driver, HidingTransition<NextScene>),
    driver: Driver,
    manager: &SceneManager,
    old_scene: OldScene<Driver, NextScene>,
)
    requires
        call_ensures(StartingTransition::<Driver, NextScene>::start_driver, (starting,), hiding),
        call_ensures(
            HidingTransition::<NextScene>::driver_ready::<Driver>,
            (hiding.1, driver, manager),
            old_scene,
        ),
    ensures
        hiding.0 == starting.spec_driver(),
        old_scene is Nothing <==> starting.spec_old_scene() is None,
        old_scene is Remove <==> starting.spec_old_scene() is Some && scenes(
            manager@.stack,
        ).contains(starting.spec_old_scene()->0),
        old_scene matches OldScene::Nothing(awaiting) ==> awaiting.spec_driver() == driver
            && awaiting.spec_next_scene() == starting.spec_next_scene(),
        old_scene matches OldScene::Remove(removal) ==> removal.spec_driver() == driver
            && removal.spec_next_scene() == starting.spec_next_scene() && removal.spec_scene()
            == starting.spec_old_scene()->0,
        old_scene matches OldScene::Missing(scene, awaiting) ==> awaiting.spec_driver() == driver
            && awaiting.spec_next_scene() == starting.spec_next_scene() && scene
            == starting.spec_old_scene()->0,
{
    if starting.spec_old_scene() is Some {
        law_places(manager@.stack, starting.spec_old_scene()->0, 0, 0);
    }
}

/// The removal of the scene that is to be replaced takes that scene, at its lowest index, off the
/// stack and frees it, once, if it is on the stack; else nothing changes. The driver and the next
/// scene are kept, and the next scene is what is then waited for.
pub proof fn law_remove_old_scene<Driver, NextScene>(
    removal: RemoveOldScene<Driver, NextScene>,
    told: NodeId,
    manager: &mut SceneManager,
    actions: &mut Vec<TreeAction>,
    removed: (Removal, AwaitingTarget<Driver, NextScene>),
    waiting: (NextScene, LoadingTransition<Driver>),
)
    requires
        call_ensures(RemoveOldScene::<Driver, NextScene>::scene, (&removal,), told),
        call_ensures(
            RemoveOldScene::<Driver, NextScene>::run,
            (removal, manager, actions),
            removed,
        ),
        call_ensures(AwaitingTarget::<Driver, NextScene>::wait, (removed.1,), waiting),
    ensures
        told == removal.spec_scene(),
        removed.0 is Removed <==> scenes(old(manager)@.stack).contains(removal.spec_scene()),
        !(removed.0 is Removed) ==> removed.0 is NotOnStack && final(manager)@ == old(manager)@
            && final(actions)@ == old(actions)@,
        removed.0 is Removed ==> exists|index: int|
            {
                &&& #[trigger] is_index_of(old(manager)@.stack, removal.spec_scene(), index)
                &&& is_discarded(
                    old(manager)@,
                    final(manager)@,
                    index,
                    added(old(actions)@, final(actions)@),
                )
            },
        final(actions)@ == old(actions)@ + added(old(actions)@, final(actions)@),
        waiting.0 == removal.spec_next_scene(),
        waiting.1.spec_driver() == removal.spec_driver(),
{
    let before = old(manager)@;
    let scene = removal.spec_scene();
    let clearing = removed.1.clearing();
    law_places(before.stack, scene, 0, 0);
    assert(added(old(actions)@, final(actions)@) =~= clearing.actions);
    if on_stack(before.stack, scene) {
        let index = choose|index: int|
            {
                &&& #[trigger] is_index_of(before.stack, scene, index)
                &&& clearing.after == before.after_remove(index)
                &&& clearing.actions == before.remove_actions(index).push(
                    TreeAction::Free { node: scene },
                )
            };
        assert(is_index_of(before.stack, scene, index));
        assert(final(actions)@ =~= (old(actions)@ + before.remove_actions(index)).push(
            TreeAction::Free { node: scene },
        ));
        lemma_is_discarded(before, index, old(actions)@, final(actions)@);
    } else {
        assert(final(actions)@ =~= old(actions)@);
    }
}

/// Where a transition that replaces the topmost scene of a stack without repetitions got on without
/// other changes to the stack, that scene is gone and freed, the scenes that were below it are where
/// they were, and the transition scene is on top of them.
pub proof fn law_transition_clears_the_top<Driver, NextScene, TargetSceneError>(
    before: ManagerState,
    started_state: ManagerState,
    cleared: ManagerState,
    driver: Driver,
    next_scene: NextScene,
    transition: NodeSnapshot,
    top_mode: ProcessMode,
    started: Result<
        StartingTransition<Driver, NextScene>,
        SceneTransitionStartError<TargetSceneError>,
    >,
    starting: Seq<TreeAction>,
    clearing: Seq<TreeAction>,
    index: int,
)
    requires
        is_started(
            before,
            started_state,
            driver,
            next_scene,
            transition,
            top_mode,
            started,
            starting,
        ),
        started is Ok,
        before.stack.len() > 0,
        before.distinct(),
        !scenes(before.stack).contains(transition.id),
        is_index_of(started_state.stack, started->Ok_0.spec_old_scene()->0, index),
        is_discarded(started_state, cleared, index, clearing),
    ensures
        index == before.stack.len() - 1,
        scenes(cleared.stack) == scenes(before.stack).drop_last().push(transition.id),
        freed_by(clearing) == seq![scenes(before.stack).last()],
        announced_by(clearing) == Seq::<Announcement>::empty(),
{
    let n = before.stack.len() as int;
    let old_scene = scenes(before.stack).last();
    assert(scenes(started_state.stack).len() == n + 1);
    assert forall|i: int| 0 <= i < n implies (#[trigger] started_state.stack[i]).scene
        == before.stack[i].scene by {
        assert(scenes(started_state.stack)[i] == scenes(before.stack).push(transition.id)[i]);
        assert(scenes(before.stack)[i] == before.stack[i].scene);
    }
    assert(started_state.stack[n].scene == transition.id) by {
        assert(scenes(started_state.stack)[n] == scenes(before.stack).push(transition.id)[n]);
    }
    assert(old_scene == before.stack[n - 1].scene);
    assert(index == n - 1) by {
        if index == n {
            assert(scenes(before.stack)[n - 1] == transition.id);
            assert(scenes(before.stack).contains(transition.id));
        } else if index < n - 1 {
            assert(before.stack[index].scene == before.stack[n - 1].scene);
        }
    }
    assert(cleared.stack.len() == n);
    assert forall|i: int| 0 <= i < n implies scenes(cleared.stack)[i] == scenes(
        before.stack,
    ).drop_last().push(transition.id)[i] by {
        if i < n - 1 {
            assert(cleared.stack[i] == started_state.stack[i]);
        } else {
            assert(cleared.stack[i] == started_state.stack[i + 1]);
        }
    }
    assert(scenes(cleared.stack) =~= scenes(before.stack).drop_last().push(transition.id));
    crate::laws::stack::law_discarded_is_freed_once(started_state, cleared, index, clearing);
}

/// The next scene is taken over if and only if it could be loaded, with the driver that is under
/// way; else its error is passed on.
pub proof fn law_target_loaded<Manager, Driver, TargetSceneError>(
    loading: LoadingTransition<Driver>,
    manager: Manager,
    target: Result<NodeId, TargetSceneError>,
    ongoing: Result<
        OngoingSceneTransition<Manager, Driver>,
        SceneTransitionStartError<TargetSceneError>,
    >,
    told_manager: &Manager,
    told_driver: &Driver,
    told_target: NodeId,
)
    requires
        call_ensures(
            LoadingTransition::<Driver>::target_loaded::<Manager, TargetSceneError>,
            (loading, manager, target),
            ongoing,
        ),
        ongoing is Ok ==> {
            let transition = ongoing->Ok_0;
            &&& call_ensures(
                OngoingSceneTransition::<Manager, Driver>::manager,
                (&transition,),
                told_manager,
            )
            &&& call_ensures(
                OngoingSceneTransition::<Manager, Driver>::driver,
                (&transition,),
                told_driver,
            )
            &&& call_ensures(
                OngoingSceneTransition::<Manager, Driver>::target_node,
                (&transition,),
                told_target,
            )
        },
    ensures
        ongoing is Ok <==> target is Ok,
        ongoing is Ok ==> *told_manager == manager && *told_driver == loading.spec_driver()
            && told_target == target->Ok_0,
        ongoing is Err ==> ongoing->Err_0 == SceneTransitionStartError::<
            TargetSceneError,
        >::TargetScene(target->Err_0),
{
}

/// Idle tasks of a transition are made on the main thread and nowhere else, and are of what they
/// were made of: nobody ran them or waits for them.
pub proof fn law_deferred_removals<Driver, NextScene, Waker, TargetSceneError>(
    old_scene: RemoveOldScene<Driver, NextScene>,
    on_main_thread: bool,
    first: Result<
        IdleTask<(Removal, AwaitingTarget<Driver, NextScene>), RemoveOldScene<Driver, NextScene>, Waker>,
        SceneTransitionStartError<TargetSceneError>,
    >,
    transition: RemoveTransition,
    second: Result<
        IdleTask<(Removal, ConcludingTransition), RemoveTransition, Waker>,
        SceneTransitionFinishError,
    >,
)
    requires
        call_ensures(
            RemoveOldScene::<Driver, NextScene>::defer::<Waker, TargetSceneError>,
            (old_scene, on_main_thread),
            first,
        ),
        call_ensures(RemoveTransition::defer::<Waker>, (transition, on_main_thread), second),
    ensures
        first is Ok <==> on_main_thread,
        second is Ok <==> on_main_thread,
        first is Err ==> first->Err_0 is NotMainThread,
        second is Err ==> second->Err_0 is NotMainThread,
        first is Ok ==> first->Ok_0@.task == Some(old_scene) && first->Ok_0@.result is None
            && first->Ok_0@.waker is None,
        second is Ok ==> second->Ok_0@.task == Some(transition) && second->Ok_0@.result is None
            && second->Ok_0@.waker is None,
{
}

/// Finishing begins, on the main thread and nowhere else, with a task that puts the next scene of
/// the transition on the stack, below the transition scene that was named.
pub proof fn law_finish<Manager, Driver, Waker>(
    ongoing: OngoingSceneTransition<Manager, Driver>,
    transition: NodeId,
    on_main_thread: bool,
    deferred: Result<
        IdleTask<
            Result<InsertedTransition<Driver>, SceneTransitionFinishError>,
            InsertTarget<Driver>,
            Waker,
        >,
        SceneTransitionFinishError,
    >,
)
    requires
        call_ensures(
            OngoingSceneTransition::<Manager, Driver>::finish::<Waker>,
            (ongoing, transition, on_main_thread),
            deferred,
        ),
    ensures
        deferred is Ok <==> on_main_thread,
        deferred is Err ==> deferred->Err_0 is NotMainThread,
        deferred is Ok ==> {
            let task = deferred->Ok_0@;
            &&& task.task is Some && task.result is None && task.waker is None
            &&& task.task->0.spec_transition() == transition
            &&& task.task->0.spec_target() == ongoing.spec_target()
            &&& task.task->0.spec_driver() == ongoing.spec_driver()
        },
{
}

/// The next scene is refused, with no change, if and only if it has a parent. Else it is put one
/// place below the transition scene, or at the bottom where the transition scene is at the bottom,
/// or on top where the transition scene is not on the stack; and what is announced of it then is
/// where it was put.
pub proof fn law_insert_target<Driver>(
    insertion: InsertTarget<Driver>,
    told: NodeId,
    manager: &mut SceneManager,
    target: NodeSnapshot,
    top_mode: ProcessMode,
    actions: &mut Vec<TreeAction>,
    inserted: Result<InsertedTransition<Driver>, SceneTransitionFinishError>,
    place: int,
)
    requires
        call_ensures(InsertTarget::<Driver>::target, (&insertion,), told),
        target.id == told,
        call_ensures(
            InsertTarget::<Driver>::run,
            (insertion, manager, target.has_parent, target.process_mode, top_mode, actions),
            inserted,
        ),
    ensures
        told == insertion.spec_target(),
        inserted is Err <==> target.has_parent,
        inserted is Err ==> inserted->Err_0 == SceneTransitionFinishError::SceneAlreadyHasParent(
            told,
        ) && final(manager)@ == old(manager)@ && final(actions)@ == old(actions)@,
        inserted is Ok ==> {
            let before = old(manager)@;
            let done = added(old(actions)@, final(actions)@);
            let InsertedTarget { index, on_top } = inserted->Ok_0.spec_place();
            &&& inserted->Ok_0.spec_target() == told
            &&& inserted->Ok_0.spec_driver() == insertion.spec_driver()
            &&& on_top <==> !scenes(before.stack).contains(insertion.spec_transition())
            &&& on_top ==> index == before.stack.len() && is_pushed(
                before,
                final(manager)@,
                target,
                top_mode,
                done,
            )
            &&& !on_top ==> index < before.stack.len() && is_inserted(
                before,
                final(manager)@,
                index as int,
                target,
                done,
            )
            &&& is_index_of(before.stack, insertion.spec_transition(), place) ==> !on_top && index
                == (if place == 0 {
                0
            } else {
                place - 1
            })
        },
        final(actions)@ == old(actions)@ + added(old(actions)@, final(actions)@),
{
    let before = old(manager)@;
    let transition = insertion.spec_transition();
    assert(final(actions)@ =~= old(actions)@ + added(old(actions)@, final(actions)@));
    law_places(before.stack, transition, place, 0);
    if inserted is Ok {
        let index = inserted->Ok_0.spec_place().index as int;
        if on_stack(before.stack, transition) {
            let found = choose|found: int| #[trigger]
                is_index_of(before.stack, transition, found) && index == (if found == 0 {
                    0
                } else {
                    found - 1
                });
            assert(is_index_of(before.stack, transition, found));
            lemma_asked_insert(before, index, target, old(actions)@, final(actions)@);
            if is_index_of(before.stack, transition, place) {
                law_places(before.stack, transition, place, found);
                law_places(before.stack, transition, found, place);
                assert(scenes(before.stack)[found] == transition);
                assert(scenes(before.stack)[place] == transition);
            }
        } else {
            lemma_asked_push(before, target, top_mode, old(actions)@, final(actions)@);
            if is_index_of(before.stack, transition, place) {
                assert(before.stack[place].scene == transition);
            }
        }
    }
}

/// Once the next scene is on the stack, that is announced, with its index, and the driver is handed
/// out to finish.
pub proof fn law_target_inserted<Driver>(
    inserted: InsertedTransition<Driver>,
    place: InsertedTarget,
    actions: &mut Vec<TreeAction>,
    ending: (Driver, EndingTransition),
)
    requires
        call_ensures(InsertedTransition::<Driver>::place, (&inserted,), place),
        call_ensures(
            InsertedTransition::<Driver>::target_inserted,
            (inserted, actions),
            ending,
        ),
    ensures
        place == inserted.spec_place(),
        ending.0 == inserted.spec_driver(),
        ending.1.spec_target() == inserted.spec_target(),
        ending.1.spec_place() == place,
        final(actions)@.len() == old(actions)@.len() + 1,
        final(actions)@.drop_last() == old(actions)@,
        final(actions)@.last() == (TreeAction::EmitSceneTransitioning {
            scene: inserted.spec_target(),
            index: if place.index <= 0xffff_ffff {
                place.index as u32
            } else {
                0xffff_ffff
            },
        }),
{
    assert(final(actions)@.drop_last() =~= old(actions)@);
}

/// The transition scene is to be removed if and only if the driver handed it back; it is that scene,
/// and it is discarded, once, if it is on the stack. Else nothing changes.
pub proof fn law_remove_transition<DriverError>(
    ending: EndingTransition,
    finished: Result<NodeId, DriverError>,
    removal: RemoveTransition,
    told: Option<NodeId>,
    manager: &mut SceneManager,
    actions: &mut Vec<TreeAction>,
    removed: (Removal, ConcludingTransition),
)
    requires
        call_ensures(EndingTransition::driver_finished::<DriverError>, (ending, finished), removal),
        call_ensures(RemoveTransition::scene, (&removal,), told),
        call_ensures(RemoveTransition::run, (removal, manager, actions), removed),
    ensures
        finished is Ok ==> told == Some(finished->Ok_0),
        finished is Err ==> told is None,
        removed.1.spec_target() == ending.spec_target(),
        removed.1.spec_place() == ending.spec_place(),
        is_discarding(
            told,
            old(manager)@,
            final(manager)@,
            removed.0,
            old(actions)@,
            final(actions)@,
        ),
{
    lemma_is_discarding(told, old(manager)@, final(manager)@, removed.0, old(actions)@, final(actions)@);
}

/// A scene that is to be removed is discarded, once, if it is on the stack. Else nothing changes.
pub proof fn law_remove_scene(
    removal: RemoveScene,
    manager: &mut SceneManager,
    actions: &mut Vec<TreeAction>,
    removed: Removal,
)
    requires
        call_ensures(RemoveScene::run, (removal, manager, actions), removed),
    ensures
        is_discarding(
            removal.scene,
            old(manager)@,
            final(manager)@,
            removed,
            old(actions)@,
            final(actions)@,
        ),
{
    lemma_is_discarding(
        removal.scene,
        old(manager)@,
        final(manager)@,
        removed,
        old(actions)@,
        final(actions)@,
    );
}

/// Whether `scene`, where there is one to remove, was discarded if it was on the stack, and nothing
/// changed else.
pub open spec fn is_discarding(
    scene: Option<NodeId>,
    before: ManagerState,
    after: ManagerState,
    removed: Removal,
    old_actions: Seq<TreeAction>,
    new_actions: Seq<TreeAction>,
) -> bool {
    &&& removed is NothingToRemove <==> scene is None
    &&& removed is Removed <==> scene is Some && scenes(before.stack).contains(scene->0)
    &&& !(removed is Removed) ==> after == before && new_actions == old_actions
    &&& removed is Removed ==> exists|index: int|
        {
            &&& #[trigger] is_index_of(before.stack, scene->0, index)
            &&& is_discarded(before, after, index, added(old_actions, new_actions))
        }
    &&& new_actions == old_actions + added(old_actions, new_actions)
}

proof fn lemma_is_discarding(
    scene: Option<NodeId>,
    before: ManagerState,
    after: ManagerState,
    removed: Removal,
    old_actions: Seq<TreeAction>,
    new_actions: Seq<TreeAction>,
)
    requires
        match scene {
            None => removed is NothingToRemove && after == before && new_actions == old_actions,
            Some(node) => if on_stack(before.stack, node) {
                &&& removed is Removed
                &&& exists|index: int|
                    {
                        &&& #[trigger] is_index_of(before.stack, node, index)
                        &&& after == before.after_remove(index)
                        &&& new_actions == (old_actions + before.remove_actions(index)).push(
                            TreeAction::Free { node },
                        )
                    }
            } else {
                removed is NotOnStack && after == before && new_actions == old_actions
            },
        },
    ensures
        is_discarding(scene, before, after, removed, old_actions, new_actions),
{
    assert(new_actions =~= old_actions + added(old_actions, new_actions));
    match scene {
        Some(node) => {
            law_places(before.stack, node, 0, 0);
            if on_stack(before.stack, node) {
                let index = choose|index: int|
                    {
                        &&& #[trigger] is_index_of(before.stack, node, index)
                        &&& after == before.after_remove(index)
                        &&& new_actions == (old_actions + before.remove_actions(index)).push(
                            TreeAction::Free { node },
                        )
                    };
                assert(is_index_of(before.stack, node, index));
                lemma_is_discarded(before, index, old_actions, new_actions);
            }
        },
        None => {},
    }
}

/// The end of a transition gives the next scene back, and announces it as pushed, with its index, if
/// and only if it is the topmost scene and was not announced so when it was put on the stack.
pub proof fn law_conclude(
    concluding: ConcludingTransition,
    manager: &SceneManager,
    actions: &mut Vec<TreeAction>,
    target: NodeId,
)
    requires
        call_ensures(ConcludingTransition::conclude, (concluding, manager, actions), target),
    ensures
        target == concluding.spec_target(),
        ({
            let n = manager@.stack.len() as int;
            let announces = !concluding.spec_place().on_top && n > 0 && scenes(manager@.stack)[n
                - 1] == target;
            &&& !announces ==> final(actions)@ == old(actions)@
            &&& announces ==> final(actions)@ == old(actions)@.push(
                TreeAction::EmitScenePushed {
                    scene: target,
                    index: if n - 1 <= 0xffff_ffff {
                        (n - 1) as u32
                    } else {
                        0xffff_ffff
                    },
                },
            )
        }),
{
    let n = manager@.stack.len() as int;
    if !concluding.spec_place().on_top && n > 0 && manager@.stack[n - 1].scene == target {
        assert(final(actions)@ =~= old(actions)@.push(final(actions)@.last()));
    } else {
        assert(final(actions)@ =~= old(actions)@);
    }
}

/// A whole transition gives the next scene back if and only if it both started and finished; else
/// the error is that of the part that failed.
pub proof fn law_transition_outcome<TargetSceneError>(
    started: Result<
        Result<NodeId, SceneTransitionFinishError>,
        SceneTransitionStartError<TargetSceneError>,
    >,
    outcome: Result<NodeId, SceneTransitionError<TargetSceneError>>,
)
    requires
        call_ensures(transition_outcome::<TargetSceneError>, (started,), outcome),
    ensures
        outcome is Ok <==> started is Ok && started->Ok_0 is Ok,
        outcome is Ok ==> outcome->Ok_0 == started->Ok_0->Ok_0,
        started is Err ==> outcome->Err_0 == SceneTransitionError::Start(started->Err_0),
        started is Ok && started->Ok_0 is Err ==> outcome->Err_0 == SceneTransitionError::<
            TargetSceneError,
        >::Finish(started->Ok_0->Err_0),
{
}

} // verus!
