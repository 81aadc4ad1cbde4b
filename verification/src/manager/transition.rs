//! Scene transitions: a transition scene covers the change from one scene to the next.
//!
//! A transition goes through these steps, between which the caller waits for the engine. Each step
//! takes what only the one before it gives.
//!
//! 1. [`SceneManager::start_scene_transition`] pushes the transition scene, and
//!    [`StartingTransition::start_driver`] hands the driver out, to be told to start.
//! 2. Once the driver hides what lies below, [`HidingTransition::driver_ready`] says whether the
//!    scene that was on top is to be removed, and [`RemoveOldScene::run`] removes it.
//! 3. Only then, [`AwaitingTarget::wait`] hands the next scene out, to be waited for. Once it is
//!    loaded, [`LoadingTransition::target_loaded`] takes it over.
//! 4. [`InsertTarget::run`] puts it on the stack, and [`InsertedTransition::target_inserted`]
//!    announces it and hands the driver out, to be told to finish.
//! 5. Once the driver is through, [`RemoveTransition::run`] removes the transition scene, and
//!    [`ConcludingTransition::conclude`] announces the next scene if it is on top.
//!
//! Changes to the stack run as idle tasks on the main thread.
use vstd::prelude::*;

use crate::idle::{IdleTask, IdleTaskError, IdleTaskState};
use crate::ident::is_random_id;
use crate::manager::internal::StackData;
use crate::manager::{
    is_index_of, on_stack, InsertSceneError, ManagerState, PushSceneError, SceneManager,
};
use crate::text::enclose;
use crate::tree::{signal_index, to_signal_index, NodeId, NodeSnapshot, ProcessMode, TreeAction};

pub mod scene_transition_inner;

verus! {

/// Why a transition could not start. `TargetSceneError` is how loading the next scene fails.
#[derive(Debug)]
pub enum SceneTransitionStartError<TargetSceneError> {
    TransitionAlreadyHasParent(NodeId),
    NotMainThread,
    TargetScene(TargetSceneError),
}

/// Why a transition that had started could not finish.
#[derive(Clone, Copy, Debug, PartialEq, Eq, Structural)]
pub enum SceneTransitionFinishError {
    NotMainThread,
    SceneAlreadyHasParent(NodeId),
}

/// Why a transition failed.
#[derive(Debug)]
pub enum SceneTransitionError<TargetSceneError> {
    Start(SceneTransitionStartError<TargetSceneError>),
    Finish(SceneTransitionFinishError),
}

impl<TargetSceneError> SceneTransitionStartError<TargetSceneError> {
    /// The error in words, where the node or the inner error that it holds is shown as `shown`.
    pub open spec fn spec_message(self, shown: Seq<char>) -> Seq<char> {
        match self {
            SceneTransitionStartError::TransitionAlreadyHasParent(_) => "transition node ("@ + shown
                + ") already has a parent"@,
            SceneTransitionStartError::NotMainThread =>
                "scene transition processed outside the main thread"@,
            SceneTransitionStartError::TargetScene(_) => "could not load target scene: "@ + shown,
        }
    }

    /// The error in words, where the node or the inner error that it holds is shown as `shown`.
    pub fn message(&self, shown: &str) -> (text: String)
        ensures
            text@ == self.spec_message(shown@),
    {
        match self {
            SceneTransitionStartError::TransitionAlreadyHasParent(_) => enclose(
                "transition node (",
                shown,
                ") already has a parent",
            ),
            SceneTransitionStartError::NotMainThread =>
                "scene transition processed outside the main thread".to_owned(),
            SceneTransitionStartError::TargetScene(_) => {
                let mut text: String = "could not load target scene: ".to_owned();
                text.append(shown);
                text
            },
        }
    }
}

impl SceneTransitionFinishError {
    /// The error in words, where the node that it holds is shown as `shown`.
    pub open spec fn spec_message(self, shown: Seq<char>) -> Seq<char> {
        match self {
            SceneTransitionFinishError::NotMainThread =>
                "scene transition processed outside main thread"@,
            SceneTransitionFinishError::SceneAlreadyHasParent(_) => "scene node ("@ + shown
                + ") already has a parent"@,
        }
    }

    /// The error in words, where the node that it holds is shown as `shown`.
    pub fn message(&self, shown: &str) -> (text: String)
        ensures
            text@ == self.spec_message(shown@),
    {
        match self {
            SceneTransitionFinishError::NotMainThread =>
                "scene transition processed outside main thread".to_owned(),
            SceneTransitionFinishError::SceneAlreadyHasParent(_) => enclose(
                "scene node (",
                shown,
                ") already has a parent",
            ),
        }
    }
}

impl<TargetSceneError> SceneTransitionError<TargetSceneError> {
    /// The error in words, where the node or the inner error that it holds is shown as `shown`.
    pub fn message(&self, shown: &str) -> (text: String)
        ensures
            text@ == match *self {
                SceneTransitionError::Start(error) => error.spec_message(shown@),
                SceneTransitionError::Finish(error) => error.spec_message(shown@),
            },
    {
        match self {
            SceneTransitionError::Start(error) => error.message(shown),
            SceneTransitionError::Finish(error) => error.message(shown),
        }
    }
}

impl<Task, TargetSceneError> From<IdleTaskError<Task>> for SceneTransitionStartError<TargetSceneError> {
    fn from(value: IdleTaskError<Task>) -> (error: Self) {
        match value {
            IdleTaskError::NotMainThread(_) => SceneTransitionStartError::NotMainThread,
        }
    }
}

impl<Task, TargetSceneError> vstd::std_specs::convert::FromSpecImpl<IdleTaskError<Task>> for SceneTransitionStartError<TargetSceneError> {
    open spec fn obeys_from_spec() -> bool {
        true
    }

    open spec fn from_spec(value: IdleTaskError<Task>) -> Self {
        SceneTransitionStartError::NotMainThread
    }
}

impl<Task> From<IdleTaskError<Task>> for SceneTransitionFinishError {
    fn from(value: IdleTaskError<Task>) -> (error: Self) {
        match value {
            IdleTaskError::NotMainThread(_) => SceneTransitionFinishError::NotMainThread,
        }
    }
}

impl<Task> vstd::std_specs::convert::FromSpecImpl<IdleTaskError<Task>> for SceneTransitionFinishError {
    open spec fn obeys_from_spec() -> bool {
        true
    }

    open spec fn from_spec(value: IdleTaskError<Task>) -> Self {
        SceneTransitionFinishError::NotMainThread
    }
}

impl<TargetSceneError> From<SceneTransitionStartError<TargetSceneError>> for SceneTransitionError<TargetSceneError> {
    fn from(value: SceneTransitionStartError<TargetSceneError>) -> (error: Self) {
        SceneTransitionError::Start(value)
    }
}

impl<TargetSceneError> vstd::std_specs::convert::FromSpecImpl<SceneTransitionStartError<TargetSceneError>> for SceneTransitionError<TargetSceneError> {
    open spec fn obeys_from_spec() -> bool {
        true
    }

    open spec fn from_spec(value: SceneTransitionStartError<TargetSceneError>) -> Self {
        SceneTransitionError::Start(value)
    }
}

impl<TargetSceneError> From<SceneTransitionFinishError> for SceneTransitionError<TargetSceneError> {
    fn from(value: SceneTransitionFinishError) -> (error: Self) {
        SceneTransitionError::Finish(value)
    }
}

impl<TargetSceneError> vstd::std_specs::convert::FromSpecImpl<SceneTransitionFinishError> for SceneTransitionError<TargetSceneError> {
    open spec fn obeys_from_spec() -> bool {
        true
    }

    open spec fn from_spec(value: SceneTransitionFinishError) -> Self {
        SceneTransitionError::Finish(value)
    }
}

/// A transition whose transition scene is on the stack, before its driver is told to start.
/// `NextScene` is how the caller waits for the next scene.
#[must_use]
pub struct StartingTransition<Driver, NextScene> {
    old_scene: Option<NodeId>,
    driver: Driver,
    next_scene: NextScene,
}

/// A transition whose driver hides what lies below the transition scene.
#[must_use]
pub struct HidingTransition<NextScene> {
    old_scene: Option<NodeId>,
    next_scene: NextScene,
}

/// What is to become of the scene that was on top before the transition.
pub enum OldScene<Driver, NextScene> {
    /// There was none.
    Nothing(AwaitingTarget<Driver, NextScene>),
    /// It is to be removed.
    Remove(RemoveOldScene<Driver, NextScene>),
    /// It left the stack during the transition, without permission.
    Missing(NodeId, AwaitingTarget<Driver, NextScene>),
}

/// An idle task that takes the scene that was on top before the transition off the stack and frees
/// it.
#[must_use]
pub struct RemoveOldScene<Driver, NextScene> {
    scene: NodeId,
    driver: Driver,
    next_scene: NextScene,
}

/// How the scene that was on top before a transition was dealt with.
#[verifier::ext_equal]
pub struct Clearing {
    /// That scene, where there was one.
    pub old_scene: Option<NodeId>,
    /// The manager when it was dealt with.
    pub before: ManagerState,
    /// The manager once it was.
    pub after: ManagerState,
    /// What that did to the tree.
    pub actions: Seq<TreeAction>,
}

impl Clearing {
    /// Whether the scene was taken off the stack and freed, unless it was not there.
    pub open spec fn is_done(self) -> bool {
        if self.old_scene is Some && on_stack(self.before.stack, self.old_scene->0) {
            exists|index: int|
                {
                    &&& #[trigger] is_index_of(self.before.stack, self.old_scene->0, index)
                    &&& self.after == self.before.after_remove(index)
                    &&& self.actions == self.before.remove_actions(index).push(
                        TreeAction::Free { node: self.old_scene->0 },
                    )
                }
        } else {
            &&& self.after == self.before
            &&& self.actions == Seq::<TreeAction>::empty()
        }
    }

    /// Nothing to do, in the state `s`, about the scene `old_scene`.
    pub open spec fn nothing(old_scene: Option<NodeId>, s: ManagerState) -> Clearing {
        Clearing { old_scene, before: s, after: s, actions: Seq::empty() }
    }
}

/// A transition for which the scene that was on top has been dealt with, before the next scene is
/// waited for.
#[must_use]
pub struct AwaitingTarget<Driver, NextScene> {
    driver: Driver,
    next_scene: NextScene,
    clearing: Ghost<Clearing>,
}

/// A transition that waits for its next scene.
#[must_use]
pub struct LoadingTransition<Driver> {
    driver: Driver,
}

/// The removal of a scene from the stack, which is freed then, where there is one to remove.
#[derive(Clone, Copy, Debug, PartialEq, Eq, Structural)]
pub struct RemoveScene {
    pub scene: Option<NodeId>,
}

/// What a [`RemoveScene`] came to.
#[derive(Clone, Copy, Debug, PartialEq, Eq, Structural)]
pub enum Removal {
    NothingToRemove,
    Removed,
    /// The scene was not on the stack, so nothing was done.
    NotOnStack,
}

/// How starting a transition turns out: it is refused where the transition scene has a parent,
/// else the transition scene is pushed and the scene that was on top is kept in mind.
pub open spec fn started_as_stated<Driver, NextScene, TargetSceneError>(
    before: ManagerState,
    after: ManagerState,
    driver: Driver,
    next_scene: NextScene,
    transition: NodeSnapshot,
    top_mode: ProcessMode,
    started: Result<
        StartingTransition<Driver, NextScene>,
        SceneTransitionStartError<TargetSceneError>,
    >,
) -> bool {
    if transition.has_parent {
        &&& started == Err::<StartingTransition<Driver, NextScene>, _>(
            SceneTransitionStartError::<TargetSceneError>::TransitionAlreadyHasParent(
                transition.id,
            ),
        )
        &&& after == before
    } else {
        &&& started matches Ok(starting)
        &&& starting.spec_old_scene() == (if before.stack.len() == 0 {
            None
        } else {
            Some(before.stack.last().scene)
        })
        &&& starting.spec_driver() == driver
        &&& starting.spec_next_scene() == next_scene
        &&& after == before.after_push(transition, top_mode)
    }
}

/// What starting a transition does to the tree.
pub open spec fn start_actions(before: ManagerState, transition: NodeSnapshot) -> Seq<TreeAction> {
    if transition.has_parent {
        Seq::empty()
    } else {
        before.push_actions(transition.id)
    }
}

impl SceneManager {
    /// Starts a transition that is to be run to its end, which [`transition_outcome`] sums up.
    /// `transition` is the transition scene, by which `driver` runs the transition, and `top_mode`
    /// is the process mode of the topmost scene, where there is one.
    ///
    /// Must only be used where it is safe to modify the scene tree.
    pub fn transition_scene<Driver, NextScene, TargetSceneError>(
        &mut self,
        driver: Driver,
        next_scene: NextScene,
        transition: NodeSnapshot,
        top_mode: ProcessMode,
        actions: &mut Vec<TreeAction>,
    ) -> (started: Result<
        StartingTransition<Driver, NextScene>,
        SceneTransitionStartError<TargetSceneError>,
    >)
        ensures
            started_as_stated(
                old(self)@,
                final(self)@,
                driver,
                next_scene,
                transition,
                top_mode,
                started,
            ),
            final(actions)@ == old(actions)@ + start_actions(old(self)@, transition),
            old(self)@.well_formed() ==> final(self)@.well_formed(),
    {
        self.start_scene_transition(driver, next_scene, transition, top_mode, actions)
    }

    /// Puts a transition scene on the stack and starts a transition away from the topmost scene.
    /// `transition` is the transition scene, by which `driver` runs the transition, and `top_mode`
    /// is the process mode of the topmost scene, where there is one.
    ///
    /// Must only be used where it is safe to modify the scene tree.
    pub fn start_scene_transition<Driver, NextScene, TargetSceneError>(
        &mut self,
        driver: Driver,
        next_scene: NextScene,
        transition: NodeSnapshot,
        top_mode: ProcessMode,
        actions: &mut Vec<TreeAction>,
    ) -> (started: Result<
        StartingTransition<Driver, NextScene>,
        SceneTransitionStartError<TargetSceneError>,
    >)
        ensures
            started_as_stated(
                old(self)@,
                final(self)@,
                driver,
                next_scene,
                transition,
                top_mode,
                started,
            ),
            final(actions)@ == old(actions)@ + start_actions(old(self)@, transition),
            old(self)@.well_formed() ==> final(self)@.well_formed(),
    {
        let old_scene: Option<NodeId> = self.current_scene();
        assert(old(actions)@ + Seq::<TreeAction>::empty() =~= old(actions)@);
        match self.push_scene(transition, top_mode, actions) {
            Ok(_) => Ok(StartingTransition { old_scene, driver, next_scene }),
            Err(PushSceneError::SceneAlreadyHasParent(node)) => Err(
                SceneTransitionStartError::TransitionAlreadyHasParent(node),
            ),
        }
    }
}

impl<Driver, NextScene> StartingTransition<Driver, NextScene> {
    /// The scene that was on top before the transition.
    pub closed spec fn spec_old_scene(self) -> Option<NodeId> {
        self.old_scene
    }

    /// What runs the transition.
    pub closed spec fn spec_driver(self) -> Driver {
        self.driver
    }

    /// How the next scene is waited for.
    pub closed spec fn spec_next_scene(self) -> NextScene {
        self.next_scene
    }

    /// Hands the driver out, to be told to start, once.
    pub fn start_driver(self) -> (hiding: (Driver, HidingTransition<NextScene>))
        ensures
            hiding.0 == self.spec_driver(),
            hiding.1.spec_old_scene() == self.spec_old_scene(),
            hiding.1.spec_next_scene() == self.spec_next_scene(),
    {
        (
            self.driver,
            HidingTransition { old_scene: self.old_scene, next_scene: self.next_scene },
        )
    }
}

impl<NextScene> HidingTransition<NextScene> {
    /// The scene that was on top before the transition.
    pub closed spec fn spec_old_scene(self) -> Option<NodeId> {
        self.old_scene
    }

    /// How the next scene is waited for.
    pub closed spec fn spec_next_scene(self) -> NextScene {
        self.next_scene
    }

    /// Goes on once `driver` hides what lies below, or failed to: says what is to become of the
    /// scene that was on top. Until then that scene stays where it is.
    pub fn driver_ready<Driver>(self, driver: Driver, manager: &SceneManager) -> (old_scene:
        OldScene<Driver, NextScene>)
        ensures
            match self.spec_old_scene() {
                None => {
                    &&& old_scene matches OldScene::Nothing(awaiting)
                    &&& awaiting.spec_driver() == driver
                    &&& awaiting.spec_next_scene() == self.spec_next_scene()
                    &&& awaiting.clearing() == Clearing::nothing(None, manager@)
                },
                Some(scene) => if on_stack(manager@.stack, scene) {
                    &&& old_scene matches OldScene::Remove(removal)
                    &&& removal.spec_scene() == scene
                    &&& removal.spec_driver() == driver
                    &&& removal.spec_next_scene() == self.spec_next_scene()
                } else {
                    &&& old_scene matches OldScene::Missing(missing, awaiting)
                    &&& missing == scene
                    &&& awaiting.spec_driver() == driver
                    &&& awaiting.spec_next_scene() == self.spec_next_scene()
                    &&& awaiting.clearing() == Clearing::nothing(Some(scene), manager@)
                },
            },
    {
        let next_scene: NextScene = self.next_scene;
        match self.old_scene {
            None => OldScene::Nothing(
                AwaitingTarget {
                    driver,
                    next_scene,
                    clearing: Ghost(Clearing::nothing(None, manager@)),
                },
            ),
            Some(scene) => match manager.index_of(scene) {
                Some(index) => {
                    assert(on_stack(manager@.stack, manager@.stack[index as int].scene));
                    OldScene::Remove(RemoveOldScene { scene, driver, next_scene })
                },
                None => OldScene::Missing(
                    scene,
                    AwaitingTarget {
                        driver,
                        next_scene,
                        clearing: Ghost(Clearing::nothing(Some(scene), manager@)),
                    },
                ),
            },
        }
    }
}

impl<Driver, NextScene> RemoveOldScene<Driver, NextScene> {
    /// The scene to remove.
    pub closed spec fn spec_scene(self) -> NodeId {
        self.scene
    }

    /// What runs the transition.
    pub closed spec fn spec_driver(self) -> Driver {
        self.driver
    }

    /// How the next scene is waited for.
    pub closed spec fn spec_next_scene(self) -> NextScene {
        self.next_scene
    }

    /// The scene to remove.
    pub fn scene(&self) -> (scene: NodeId)
        ensures
            scene == self.spec_scene(),
    {
        self.scene
    }

    /// Makes an idle task of the removal.
    pub fn defer<Waker, TargetSceneError>(self, on_main_thread: bool) -> (deferred: Result<
        IdleTask<(Removal, AwaitingTarget<Driver, NextScene>), Self, Waker>,
        SceneTransitionStartError<TargetSceneError>,
    >)
        ensures
            match deferred {
                Ok(task) => {
                    &&& on_main_thread
                    &&& task@ == IdleTaskState::<
                        (Removal, AwaitingTarget<Driver, NextScene>),
                        Self,
                        Waker,
                    >::fresh(task@.id, self)
                    &&& is_random_id(task@.id)
                },
                Err(error) => !on_main_thread && error == SceneTransitionStartError::<
                    TargetSceneError,
                >::NotMainThread,
            },
    {
        match IdleTask::defer_local(self, on_main_thread) {
            Ok(task) => Ok(task),
            Err(error) => Err(SceneTransitionStartError::from(error)),
        }
    }

    /// Takes the scene off the stack and frees it, where it is still there. After that the next
    /// scene can be waited for.
    pub fn run(self, manager: &mut SceneManager, actions: &mut Vec<TreeAction>) -> (removed: (
        Removal,
        AwaitingTarget<Driver, NextScene>,
    ))
        ensures
            removed.0 == (if on_stack(old(manager)@.stack, self.spec_scene()) {
                Removal::Removed
            } else {
                Removal::NotOnStack
            }),
            removed.1.spec_driver() == self.spec_driver(),
            removed.1.spec_next_scene() == self.spec_next_scene(),
            removed.1.clearing().old_scene == Some(self.spec_scene()),
            removed.1.clearing().before == old(manager)@,
            removed.1.clearing().after == final(manager)@,
            removed.1.clearing().is_done(),
            final(actions)@ == old(actions)@ + removed.1.clearing().actions,
            old(manager)@.well_formed() ==> final(manager)@.well_formed(),
    {
        let removal: Removal = RemoveScene { scene: Some(self.scene) }.run(manager, actions);
        let ghost clearing = Clearing {
            old_scene: Some(self.scene),
            before: old(manager)@,
            after: manager@,
            actions: actions@.skip(old(actions)@.len() as int),
        };
        proof {
            if on_stack(old(manager)@.stack, self.scene) {
                let index = choose|index: int|
                    {
                        &&& #[trigger] is_index_of(old(manager)@.stack, self.scene, index)
                        &&& manager@ == old(manager)@.after_remove(index)
                        &&& actions@ == (old(actions)@ + old(manager)@.remove_actions(index)).push(
                            TreeAction::Free { node: self.scene },
                        )
                    };
                assert(clearing.actions =~= old(manager)@.remove_actions(index).push(
                    TreeAction::Free { node: self.scene },
                ));
                assert(is_index_of(clearing.before.stack, clearing.old_scene->0, index));
            } else {
                assert(clearing.actions =~= Seq::empty());
            }
            assert(clearing.is_done());
            assert(actions@ =~= old(actions)@ + clearing.actions);
        }
        (
            removal,
            AwaitingTarget {
                driver: self.driver,
                next_scene: self.next_scene,
                clearing: Ghost(clearing),
            },
        )
    }
}

impl<Driver, NextScene> AwaitingTarget<Driver, NextScene> {
    /// How the scene that was on top before the transition was dealt with.
    pub closed spec fn clearing(self) -> Clearing {
        self.clearing@
    }

    /// What runs the transition.
    pub closed spec fn spec_driver(self) -> Driver {
        self.driver
    }

    /// How the next scene is waited for.
    pub closed spec fn spec_next_scene(self) -> NextScene {
        self.next_scene
    }

    /// The scene that was on top before the transition is off the stack and freed, or was not there.
    #[verifier::type_invariant]
    spec fn is_cleared(self) -> bool {
        self.clearing@.is_done()
    }

    /// Hands out the next scene, to be waited for. This is reached only once the scene that was on
    /// top before the transition is off the stack and freed, or was not there.
    pub fn wait(self) -> (waiting: (NextScene, LoadingTransition<Driver>))
        ensures
            self.clearing().is_done(),
            waiting.0 == self.spec_next_scene(),
            waiting.1.spec_driver() == self.spec_driver(),
    {
        proof {
            use_type_invariant(&self);
        }
        (self.next_scene, LoadingTransition { driver: self.driver })
    }
}

impl<Driver> LoadingTransition<Driver> {
    /// What runs the transition.
    pub closed spec fn spec_driver(self) -> Driver {
        self.driver
    }

    /// Goes on once the next scene is loaded, or failed to load. `manager` is how the caller shares
    /// the scene manager.
    pub fn target_loaded<Manager, TargetSceneError>(
        self,
        manager: Manager,
        target: Result<NodeId, TargetSceneError>,
    ) -> (ongoing: Result<
        OngoingSceneTransition<Manager, Driver>,
        SceneTransitionStartError<TargetSceneError>,
    >)
        ensures
            match target {
                Ok(node) => {
                    &&& ongoing matches Ok(transition)
                    &&& transition.spec_manager() == manager
                    &&& transition.spec_driver() == self.spec_driver()
                    &&& transition.spec_target() == node
                },
                Err(error) => ongoing == Err::<OngoingSceneTransition<Manager, Driver>, _>(
                    SceneTransitionStartError::TargetScene(error),
                ),
            },
    {
        match target {
            Ok(node) => Ok(OngoingSceneTransition::new(manager, self.driver, node)),
            Err(error) => Err(SceneTransitionStartError::TargetScene(error)),
        }
    }
}

impl RemoveScene {
    /// Takes the scene off the stack and frees it.
    pub fn run(self, manager: &mut SceneManager, actions: &mut Vec<TreeAction>) -> (removal:
        Removal)
        ensures
            match self.scene {
                None => {
                    &&& removal is NothingToRemove
                    &&& final(manager)@ == old(manager)@
                    &&& final(actions)@ == old(actions)@
                },
                Some(scene) => if on_stack(old(manager)@.stack, scene) {
                    &&& removal is Removed
                    &&& exists|index: int|
                        {
                            &&& #[trigger] is_index_of(old(manager)@.stack, scene, index)
                            &&& final(manager)@ == old(manager)@.after_remove(index)
                            &&& final(actions)@ == (old(actions)@ + old(manager)@.remove_actions(
                                index,
                            )).push(TreeAction::Free { node: scene })
                        }
                } else {
                    &&& removal is NotOnStack
                    &&& final(manager)@ == old(manager)@
                    &&& final(actions)@ == old(actions)@
                },
            },
            old(manager)@.well_formed() ==> final(manager)@.well_formed(),
    {
        match self.scene {
            None => Removal::NothingToRemove,
            Some(scene) => match manager.try_remove_scene(scene, actions) {
                Some((node, index)) => {
                    assert(is_index_of(old(manager)@.stack, scene, index as int));
                    assert(on_stack(old(manager)@.stack, old(manager)@.stack[index as int].scene));
                    actions.push(TreeAction::Free { node });
                    Removal::Removed
                },
                None => Removal::NotOnStack,
            },
        }
    }
}

/// A transition that has its next scene, and waits to be finished. `Manager` is how the caller
/// shares the scene manager.
#[must_use]
pub struct OngoingSceneTransition<Manager, Driver> {
    manager: Manager,
    driver: Driver,
    target_node: NodeId,
}

/// An idle task that puts the next scene on the stack, below the transition scene.
#[must_use]
pub struct InsertTarget<Driver> {
    transition: NodeId,
    target: NodeId,
    driver: Driver,
}

/// Where the next scene was put on the stack.
#[derive(Clone, Copy, Debug, PartialEq, Eq, Structural)]
pub struct InsertedTarget {
    pub index: usize,
    /// Whether it was pushed on top, which announced it, for want of the transition scene.
    pub on_top: bool,
}

/// A transition whose next scene was put on the stack.
#[must_use]
pub struct InsertedTransition<Driver> {
    target_node: NodeId,
    place: InsertedTarget,
    driver: Driver,
}

/// A transition whose next scene is on the stack, while its driver finishes.
#[must_use]
pub struct EndingTransition {
    target_node: NodeId,
    place: InsertedTarget,
}

/// An idle task that takes the transition scene off the stack and frees it, where there is one to
/// remove.
#[must_use]
pub struct RemoveTransition {
    scene: Option<NodeId>,
    target_node: NodeId,
    place: InsertedTarget,
}

/// A transition whose transition scene has been dealt with.
#[must_use]
pub struct ConcludingTransition {
    target_node: NodeId,
    place: InsertedTarget,
}

/// Whether `index` is where the next scene goes: one place below the transition scene, or at the
/// bottom where that is the transition scene's place, or on top of a stack without the transition
/// scene.
pub open spec fn is_target_index(stack: Seq<StackData>, transition: NodeId, index: int) -> bool {
    if on_stack(stack, transition) {
        exists|place: int| #[trigger]
            is_index_of(stack, transition, place) && index == (if place == 0 {
                0
            } else {
                place - 1
            })
    } else {
        index == stack.len()
    }
}

impl<Manager, Driver> OngoingSceneTransition<Manager, Driver> {
    /// How the caller shares the scene manager.
    pub closed spec fn spec_manager(self) -> Manager {
        self.manager
    }

    /// What runs the transition.
    pub closed spec fn spec_driver(self) -> Driver {
        self.driver
    }

    /// The next scene.
    pub closed spec fn spec_target(self) -> NodeId {
        self.target_node
    }

    /// Makes a transition that has its next scene.
    fn new(manager: Manager, driver: Driver, target_node: NodeId) -> (ongoing: Self)
        ensures
            ongoing.spec_manager() == manager,
            ongoing.spec_driver() == driver,
            ongoing.spec_target() == target_node,
    {
        OngoingSceneTransition { manager, driver, target_node }
    }

    /// How the caller shares the scene manager.
    pub fn manager(&self) -> (manager: &Manager)
        ensures
            *manager == self.spec_manager(),
    {
        &self.manager
    }

    /// What runs the transition.
    pub fn driver(&self) -> (driver: &Driver)
        ensures
            *driver == self.spec_driver(),
    {
        &self.driver
    }

    /// The next scene.
    pub fn target_node(&self) -> (node: NodeId)
        ensures
            node == self.spec_target(),
    {
        self.target_node
    }

    /// Begins to finish the transition whose transition scene is `transition`: gives back the idle
    /// task that puts the next scene on the stack.
    pub fn finish<Waker>(self, transition: NodeId, on_main_thread: bool) -> (deferred: Result<
        IdleTask<
            Result<InsertedTransition<Driver>, SceneTransitionFinishError>,
            InsertTarget<Driver>,
            Waker,
        >,
        SceneTransitionFinishError,
    >)
        ensures
            match deferred {
                Ok(task) => {
                    &&& on_main_thread
                    &&& task@.task matches Some(insertion)
                    &&& insertion.spec_transition() == transition
                    &&& insertion.spec_target() == self.spec_target()
                    &&& insertion.spec_driver() == self.spec_driver()
                    &&& task@ == IdleTaskState::<
                        Result<InsertedTransition<Driver>, SceneTransitionFinishError>,
                        InsertTarget<Driver>,
                        Waker,
                    >::fresh(task@.id, insertion)
                    &&& is_random_id(task@.id)
                },
                Err(error) => !on_main_thread && error
                    == SceneTransitionFinishError::NotMainThread,
            },
    {
        let insertion: InsertTarget<Driver> = InsertTarget {
            transition,
            target: self.target_node,
            driver: self.driver,
        };
        match IdleTask::defer_local(insertion, on_main_thread) {
            Ok(task) => Ok(task),
            Err(error) => Err(SceneTransitionFinishError::from(error)),
        }
    }
}

impl<Driver> InsertTarget<Driver> {
    /// The transition scene.
    pub closed spec fn spec_transition(self) -> NodeId {
        self.transition
    }

    /// The next scene.
    pub closed spec fn spec_target(self) -> NodeId {
        self.target
    }

    /// What runs the transition.
    pub closed spec fn spec_driver(self) -> Driver {
        self.driver
    }

    /// The next scene.
    pub fn target(&self) -> (target: NodeId)
        ensures
            target == self.spec_target(),
    {
        self.target
    }

    /// Puts the next scene, which has a parent or not and process mode `mode`, on the stack.
    /// `top_mode` is the process mode of the topmost scene, where there is one. The place that is
    /// sought for the next scene is never out of bounds.
    pub fn run(
        self,
        manager: &mut SceneManager,
        has_parent: bool,
        mode: ProcessMode,
        top_mode: ProcessMode,
        actions: &mut Vec<TreeAction>,
    ) -> (inserted: Result<InsertedTransition<Driver>, SceneTransitionFinishError>)
        ensures
            match inserted {
                Ok(transition) => {
                    let target = NodeSnapshot {
                        id: self.spec_target(),
                        has_parent,
                        process_mode: mode,
                    };
                    let InsertedTarget { index, on_top } = transition.spec_place();
                    &&& transition.spec_target() == self.spec_target()
                    &&& transition.spec_driver() == self.spec_driver()
                    &&& is_target_index(old(manager)@.stack, self.spec_transition(), index as int)
                    &&& on_top == !on_stack(old(manager)@.stack, self.spec_transition())
                    &&& !has_parent
                    &&& on_top ==> {
                        &&& final(manager)@ == old(manager)@.after_push(target, top_mode)
                        &&& final(actions)@ == old(actions)@ + old(manager)@.push_actions(
                            self.spec_target(),
                        )
                    }
                    &&& !on_top ==> {
                        &&& final(manager)@ == old(manager)@.after_insert(index as int, target)
                        &&& final(actions)@ == old(actions)@ + old(manager)@.insert_actions(
                            index as int,
                            self.spec_target(),
                        )
                    }
                },
                Err(error) => {
                    &&& error == SceneTransitionFinishError::SceneAlreadyHasParent(
                        self.spec_target(),
                    )
                    &&& has_parent
                    &&& final(manager)@ == old(manager)@
                    &&& final(actions)@ == old(actions)@
                },
            },
            old(manager)@.well_formed() ==> final(manager)@.well_formed(),
    {
        let target: NodeSnapshot = NodeSnapshot { id: self.target, has_parent, process_mode: mode };
        let (index, on_top): (usize, bool) = match manager.index_of(self.transition) {
            Some(place) => {
                assert(on_stack(manager@.stack, manager@.stack[place as int].scene));
                (if place == 0 { 0 } else { place - 1 }, false)
            },
            None => (manager.len(), true),
        };
        match manager.insert_scene(index, target, top_mode, actions) {
            Ok(_) => Ok(
                InsertedTransition {
                    target_node: self.target,
                    place: InsertedTarget { index, on_top },
                    driver: self.driver,
                },
            ),
            Err(InsertSceneError::SceneAlreadyHasParent(scene)) => Err(
                SceneTransitionFinishError::SceneAlreadyHasParent(scene),
            ),
            Err(InsertSceneError::IndexOutOfBounds(_)) => vstd::pervasive::unreached(),
        }
    }
}

impl<Driver> InsertedTransition<Driver> {
    /// The next scene.
    pub closed spec fn spec_target(self) -> NodeId {
        self.target_node
    }

    /// Where the next scene was put.
    pub closed spec fn spec_place(self) -> InsertedTarget {
        self.place
    }

    /// What runs the transition.
    pub closed spec fn spec_driver(self) -> Driver {
        self.driver
    }

    /// Where the next scene was put.
    pub fn place(&self) -> (place: InsertedTarget)
        ensures
            place == self.spec_place(),
    {
        self.place
    }

    /// Announces that the next scene is on the stack, and hands the driver out, to be told to
    /// finish.
    pub fn target_inserted(self, actions: &mut Vec<TreeAction>) -> (ending: (
        Driver,
        EndingTransition,
    ))
        ensures
            ending.0 == self.spec_driver(),
            ending.1.spec_target() == self.spec_target(),
            ending.1.spec_place() == self.spec_place(),
            final(actions)@ == old(actions)@.push(
                TreeAction::EmitSceneTransitioning {
                    scene: self.spec_target(),
                    index: signal_index(self.spec_place().index as int),
                },
            ),
    {
        actions.push(
            TreeAction::EmitSceneTransitioning {
                scene: self.target_node,
                index: to_signal_index(self.place.index),
            },
        );
        (self.driver, EndingTransition { target_node: self.target_node, place: self.place })
    }
}

impl EndingTransition {
    /// The next scene.
    pub closed spec fn spec_target(self) -> NodeId {
        self.target_node
    }

    /// Where the next scene was put.
    pub closed spec fn spec_place(self) -> InsertedTarget {
        self.place
    }

    /// Goes on once the driver is through: gives back the task that removes the transition scene,
    /// where the driver handed it back.
    pub fn driver_finished<DriverError>(self, finished: Result<NodeId, DriverError>) -> (removal:
        RemoveTransition)
        ensures
            removal.spec_scene() == match finished {
                Ok(transition) => Some(transition),
                Err(_) => None,
            },
            removal.spec_target() == self.spec_target(),
            removal.spec_place() == self.spec_place(),
    {
        RemoveTransition {
            scene: match finished {
                Ok(transition) => Some(transition),
                Err(_) => None,
            },
            target_node: self.target_node,
            place: self.place,
        }
    }
}

impl RemoveTransition {
    /// The transition scene, where there is one to remove.
    pub closed spec fn spec_scene(self) -> Option<NodeId> {
        self.scene
    }

    /// The next scene.
    pub closed spec fn spec_target(self) -> NodeId {
        self.target_node
    }

    /// Where the next scene was put.
    pub closed spec fn spec_place(self) -> InsertedTarget {
        self.place
    }

    /// The transition scene, where there is one to remove.
    pub fn scene(&self) -> (scene: Option<NodeId>)
        ensures
            scene == self.spec_scene(),
    {
        self.scene
    }

    /// Makes an idle task of the removal.
    pub fn defer<Waker>(self, on_main_thread: bool) -> (deferred: Result<
        IdleTask<(Removal, ConcludingTransition), RemoveTransition, Waker>,
        SceneTransitionFinishError,
    >)
        ensures
            match deferred {
                Ok(task) => {
                    &&& on_main_thread
                    &&& task@ == IdleTaskState::<
                        (Removal, ConcludingTransition),
                        RemoveTransition,
                        Waker,
                    >::fresh(task@.id, self)
                    &&& is_random_id(task@.id)
                },
                Err(error) => !on_main_thread && error
                    == SceneTransitionFinishError::NotMainThread,
            },
    {
        match IdleTask::defer_local(self, on_main_thread) {
            Ok(task) => Ok(task),
            Err(error) => Err(SceneTransitionFinishError::from(error)),
        }
    }

    /// Takes the transition scene off the stack and frees it, where there is one to remove and it
    /// is still there. After that the transition can be concluded.
    pub fn run(self, manager: &mut SceneManager, actions: &mut Vec<TreeAction>) -> (removed: (
        Removal,
        ConcludingTransition,
    ))
        ensures
            removed.1.spec_target() == self.spec_target(),
            removed.1.spec_place() == self.spec_place(),
            match self.spec_scene() {
                None => {
                    &&& removed.0 is NothingToRemove
                    &&& final(manager)@ == old(manager)@
                    &&& final(actions)@ == old(actions)@
                },
                Some(scene) => if on_stack(old(manager)@.stack, scene) {
                    &&& removed.0 is Removed
                    &&& exists|index: int|
                        {
                            &&& #[trigger] is_index_of(old(manager)@.stack, scene, index)
                            &&& final(manager)@ == old(manager)@.after_remove(index)
                            &&& final(actions)@ == (old(actions)@ + old(manager)@.remove_actions(
                                index,
                            )).push(TreeAction::Free { node: scene })
                        }
                } else {
                    &&& removed.0 is NotOnStack
                    &&& final(manager)@ == old(manager)@
                    &&& final(actions)@ == old(actions)@
                },
            },
            old(manager)@.well_formed() ==> final(manager)@.well_formed(),
    {
        let removal: Removal = RemoveScene { scene: self.scene }.run(manager, actions);
        (removal, ConcludingTransition { target_node: self.target_node, place: self.place })
    }
}

impl ConcludingTransition {
    /// The next scene.
    pub closed spec fn spec_target(self) -> NodeId {
        self.target_node
    }

    /// Where the next scene was put.
    pub closed spec fn spec_place(self) -> InsertedTarget {
        self.place
    }

    /// Ends the transition. Where the next scene is on top of the stack now, that is announced as a
    /// push, unless it was when it was put there.
    pub fn conclude(self, manager: &SceneManager, actions: &mut Vec<TreeAction>) -> (target: NodeId)
        ensures
            target == self.spec_target(),
            final(actions)@ == old(actions)@ + conclude_actions(
                manager@,
                self.spec_target(),
                self.spec_place().on_top,
            ),
    {
        assert(old(actions)@ + Seq::<TreeAction>::empty() =~= old(actions)@);
        if !self.place.on_top {
            match manager.current_scene() {
                Some(top) => {
                    if top == self.target_node {
                        actions.push(
                            TreeAction::EmitScenePushed {
                                scene: self.target_node,
                                index: to_signal_index(manager.len() - 1),
                            },
                        );
                    }
                },
                None => {},
            }
        }
        self.target_node
    }
}

/// What the end of a transition does, where the next scene was pushed on top or not: if it is the
/// topmost scene now, that is announced, once.
pub open spec fn conclude_actions(s: ManagerState, target: NodeId, on_top: bool) -> Seq<TreeAction> {
    if !on_top && s.stack.len() > 0 && s.stack.last().scene == target {
        seq![
            TreeAction::EmitScenePushed { scene: target, index: signal_index(s.stack.len() - 1) },
        ]
    } else {
        Seq::empty()
    }
}

/// What a whole transition comes to, from how it started and, where it did, how it finished.
pub fn transition_outcome<TargetSceneError>(
    started: Result<
        Result<NodeId, SceneTransitionFinishError>,
        SceneTransitionStartError<TargetSceneError>,
    >,
) -> (outcome: Result<NodeId, SceneTransitionError<TargetSceneError>>)
    ensures
        outcome == match started {
            Err(error) => Err(SceneTransitionError::Start(error)),
            Ok(Err(error)) => Err(SceneTransitionError::Finish(error)),
            Ok(Ok(node)) => Ok(node),
        },
{
    match started {
        Err(error) => Err(SceneTransitionError::from(error)),
        Ok(Err(error)) => Err(SceneTransitionError::from(error)),
        Ok(Ok(node)) => Ok(node),
    }
}

} // verus!
