//! The node through which the engine and its scripts use the scene manager.
use vstd::prelude::*;

use crate::manager::transition::{
    start_actions, started_as_stated, SceneTransitionStartError, StartingTransition,
};
use crate::manager::{is_index_of, on_stack, ManagerState, SceneManager};
use crate::resource::{
    asks_for_packed_scene, load_node_from_path, load_something_to_node,
    load_threaded_something_to_node, Argument, CacheMode, LoadNodeFromPathError, ObjectClass,
    ObjectSource, ObjectToNodeError, PathRequest, ThreadedNodeLoadError, ThreadedSource,
};
use crate::tree::{NodeId, NodeSnapshot, ProcessMode, TreeAction};

verus! {

/// How far the node is set up.
#[derive(Debug)]
pub enum SceneManagerState {
    Initializing {
        /// The root node of the scene that holds the root node of the effective scene tree.
        root_scene: Option<NodeId>,
    },
    Ready { manager: SceneManager },
}

/// A node that manages scene state.
///
/// This is designed to be used as an autoload.
#[derive(Debug)]
pub struct SceneManagerNode {
    pub state: SceneManagerState,
}

/// A swap of the topmost scene, between the removal of the old scene and the push of the new one.
#[derive(Clone, Copy, Debug, PartialEq, Eq, Structural)]
pub struct PendingSwap {
    /// The scene that was on top.
    pub old: Option<NodeId>,
}

/// Why there is no root scene. `ConvertError` is how the setting fails to be a name, and `Value`
/// is any value that cannot become a node.
#[derive(Debug)]
pub enum GetRootSceneError<ConvertError, Value> {
    SettingMissing,
    SettingIsNotStringName(ConvertError),
    SettingIsUnset,
    Load(LoadNodeFromPathError<Value>),
}

impl<ConvertError, Value> GetRootSceneError<ConvertError, Value> {
    /// The error in words, where what it holds is shown as `shown`.
    pub fn message(&self, shown: &str) -> (text: String)
        ensures
            text@ == match *self {
                GetRootSceneError::SettingMissing =>
                    "could not find scene_manager/runtime/root_scene setting"@,
                GetRootSceneError::SettingIsNotStringName(_) =>
                    "could not convert scene_manager/runtime/root_scene to StringName: "@ + shown@,
                GetRootSceneError::SettingIsUnset =>
                    "scene_manager/runtime/root_scene is not set"@,
                GetRootSceneError::Load(error) => error.spec_message(shown@),
            },
    {
        match self {
            GetRootSceneError::SettingMissing =>
                "could not find scene_manager/runtime/root_scene setting".to_owned(),
            GetRootSceneError::SettingIsNotStringName(_) => {
                let mut text: String =
                    "could not convert scene_manager/runtime/root_scene to StringName: ".to_owned();
                text.append(shown);
                text
            },
            GetRootSceneError::SettingIsUnset =>
                "scene_manager/runtime/root_scene is not set".to_owned(),
            GetRootSceneError::Load(error) => error.message(shown),
        }
    }
}

/// What the root scene answers when it is asked where scenes go.
#[derive(Clone, Copy, Debug, PartialEq, Eq, Structural)]
pub enum ParentReply {
    /// It has no method for the question.
    NoMethod,
    /// It answers with nothing.
    Nil,
    Node(NodeId),
    /// It answers with something that is no node.
    NotANode,
}

/// The method by which a root scene says where scenes go.
pub fn get_parent_method() -> (name: &'static str)
    ensures
        name@ == "get_scene_manager_parent"@,
{
    "get_scene_manager_parent"
}

impl SceneManagerState {
    /// The state of the manager, which must be set up.
    pub open spec fn ready(self) -> ManagerState {
        self->manager@
    }

    /// The manager, which must be set up.
    pub fn manager(&self) -> (manager: &SceneManager)
        requires
            self is Ready,
        ensures
            manager@ == self.ready(),
    {
        match self {
            SceneManagerState::Ready { manager } => manager,
            SceneManagerState::Initializing { .. } => vstd::pervasive::unreached(),
        }
    }

    /// The root node of the scene; the manager must be set up.
    pub fn root(&self) -> (node: NodeId)
        requires
            self is Ready,
        ensures
            node == self.ready().root,
    {
        self.manager().root()
    }

    /// The node to which scenes are added; the manager must be set up.
    pub fn scene_parent(&self) -> (node: NodeId)
        requires
            self is Ready,
        ensures
            node == self.ready().scene_parent,
    {
        self.manager().scene_parent()
    }
}

impl SceneManagerNode {
    /// Whether the manager is set up.
    pub open spec fn is_ready(self) -> bool {
        self.state is Ready
    }

    /// The state of the manager, which must be set up.
    pub open spec fn stack_state(self) -> ManagerState {
        self.state.ready()
    }

    /// Whether the manager is set up.
    pub fn has_manager(&self) -> (ready: bool)
        ensures
            ready == self.is_ready(),
    {
        match &self.state {
            SceneManagerState::Ready { .. } => true,
            SceneManagerState::Initializing { .. } => false,
        }
    }

    /// The manager, which must be set up.
    pub fn manager(&self) -> (manager: &SceneManager)
        requires
            self.is_ready(),
        ensures
            manager@ == self.stack_state(),
    {
        self.state.manager()
    }

    /// The manager, which must be set up, to be changed.
    pub fn manager_mut(&mut self) -> (manager: &mut SceneManager)
        requires
            old(self).is_ready(),
        ensures
            manager@ == old(self).stack_state(),
            final(self).is_ready(),
            final(self).stack_state() == final(manager)@,
    {
        match &mut self.state {
            SceneManagerState::Ready { manager } => manager,
            SceneManagerState::Initializing { .. } => vstd::pervasive::unreached(),
        }
    }

    /// The current scene.
    pub fn get_current_scene(&self) -> (scene: Option<NodeId>)
        requires
            self.is_ready(),
        ensures
            scene == (if self.stack_state().stack.len() == 0 {
                None
            } else {
                Some(self.stack_state().stack.last().scene)
            }),
    {
        self.manager().current_scene()
    }

    /// The current scene's parent.
    pub fn get_scene_parent(&self) -> (node: NodeId)
        requires
            self.is_ready(),
        ensures
            node == self.stack_state().scene_parent,
    {
        self.state.scene_parent()
    }

    /// Pushes a new scene to the top of the stack, and gives back whether it could be pushed. Must
    /// only be used during idle time.
    pub fn push_scene_immediate(
        &mut self,
        scene: NodeSnapshot,
        top_mode: ProcessMode,
        actions: &mut Vec<TreeAction>,
    ) -> (pushed: bool)
        requires
            old(self).is_ready(),
        ensures
            final(self).is_ready(),
            pushed == !scene.has_parent,
            pushed ==> {
                &&& final(self).stack_state() == old(self).stack_state().after_push(scene, top_mode)
                &&& final(actions)@ == old(actions)@ + old(self).stack_state().push_actions(
                    scene.id,
                )
            },
            !pushed ==> {
                &&& final(self).stack_state() == old(self).stack_state()
                &&& final(actions)@ == old(actions)@
            },
            old(self).stack_state().well_formed() ==> final(self).stack_state().well_formed(),
    {
        let manager: &mut SceneManager = self.manager_mut();
        match manager.push_scene(scene, top_mode, actions) {
            Ok(_) => true,
            Err(_) => false,
        }
    }

    /// Pushes a new scene to the top of the stack; to be run during idle time.
    pub fn push_scene(
        &mut self,
        scene: NodeSnapshot,
        top_mode: ProcessMode,
        actions: &mut Vec<TreeAction>,
    )
        requires
            old(self).is_ready(),
        ensures
            final(self).is_ready(),
            !scene.has_parent ==> {
                &&& final(self).stack_state() == old(self).stack_state().after_push(scene, top_mode)
                &&& final(actions)@ == old(actions)@ + old(self).stack_state().push_actions(
                    scene.id,
                )
            },
            scene.has_parent ==> {
                &&& final(self).stack_state() == old(self).stack_state()
                &&& final(actions)@ == old(actions)@
            },
            old(self).stack_state().well_formed() ==> final(self).stack_state().well_formed(),
    {
        let _pushed: bool = self.push_scene_immediate(scene, top_mode, actions);
    }

    /// Removes a scene from the stack. Must only be used during idle time.
    #[must_use]
    pub fn remove_scene_immediate(&mut self, scene: NodeId, actions: &mut Vec<TreeAction>) -> (removed:
        Option<NodeId>)
        requires
            old(self).is_ready(),
        ensures
            final(self).is_ready(),
            removed == (if on_stack(old(self).stack_state().stack, scene) {
                Some(scene)
            } else {
                None
            }),
            removed is Some ==> exists|index: int|
                {
                    &&& #[trigger] is_index_of(old(self).stack_state().stack, scene, index)
                    &&& final(self).stack_state() == old(self).stack_state().after_remove(index)
                    &&& final(actions)@ == old(actions)@ + old(self).stack_state().remove_actions(
                        index,
                    )
                },
            removed is None ==> {
                &&& final(self).stack_state() == old(self).stack_state()
                &&& final(actions)@ == old(actions)@
            },
            old(self).stack_state().well_formed() ==> final(self).stack_state().well_formed(),
    {
        let manager: &mut SceneManager = self.manager_mut();
        match manager.try_remove_scene(scene, actions) {
            Some((node, index)) => {
                assert(is_index_of(old(self).stack_state().stack, scene, index as int));
                assert(old(self).stack_state().stack[index as int].scene == scene);
                Some(node)
            },
            None => None,
        }
    }

    /// Removes a scene from the stack and frees it; to be run during idle time. Gives back whether
    /// it was on the stack.
    pub fn remove_scene(&mut self, scene: NodeId, actions: &mut Vec<TreeAction>) -> (known: bool)
        requires
            old(self).is_ready(),
        ensures
            final(self).is_ready(),
            known == on_stack(old(self).stack_state().stack, scene),
            known ==> exists|index: int|
                {
                    &&& #[trigger] is_index_of(old(self).stack_state().stack, scene, index)
                    &&& final(self).stack_state() == old(self).stack_state().after_remove(index)
                    &&& final(actions)@ == (old(actions)@
                        + old(self).stack_state().remove_actions(index)).push(
                        TreeAction::Free { node: scene },
                    )
                },
            !known ==> {
                &&& final(self).stack_state() == old(self).stack_state()
                &&& final(actions)@ == old(actions)@
            },
            old(self).stack_state().well_formed() ==> final(self).stack_state().well_formed(),
    {
        match self.remove_scene_immediate(scene, actions) {
            Some(node) => {
                actions.push(TreeAction::Free { node });
                true
            },
            None => false,
        }
    }

    /// Pops the scene from the top of the stack. Must only be used during idle time.
    #[must_use]
    pub fn pop_scene_immediate(&mut self, actions: &mut Vec<TreeAction>) -> (popped: Option<NodeId>)
        requires
            old(self).is_ready(),
        ensures
            final(self).is_ready(),
            old(self).stack_state().stack.len() == 0 ==> {
                &&& popped is None
                &&& final(self).stack_state() == old(self).stack_state()
                &&& final(actions)@ == old(actions)@
            },
            old(self).stack_state().stack.len() > 0 ==> {
                let top = old(self).stack_state().stack.len() - 1;
                &&& popped == Some(old(self).stack_state().stack[top].scene)
                &&& final(self).stack_state() == old(self).stack_state().after_remove(top)
                &&& final(actions)@ == old(actions)@ + old(self).stack_state().remove_actions(top)
            },
            old(self).stack_state().well_formed() ==> final(self).stack_state().well_formed(),
    {
        let manager: &mut SceneManager = self.manager_mut();
        manager.pop_scene(actions)
    }

    /// Pops the scene from the top of the stack and frees it; to be run during idle time.
    pub fn pop_scene(&mut self, actions: &mut Vec<TreeAction>)
        requires
            old(self).is_ready(),
        ensures
            final(self).is_ready(),
            old(self).stack_state().stack.len() == 0 ==> {
                &&& final(self).stack_state() == old(self).stack_state()
                &&& final(actions)@ == old(actions)@
            },
            old(self).stack_state().stack.len() > 0 ==> {
                let top = old(self).stack_state().stack.len() - 1;
                &&& final(self).stack_state() == old(self).stack_state().after_remove(top)
                &&& final(actions)@ == (old(actions)@ + old(self).stack_state().remove_actions(
                    top,
                )).push(TreeAction::Free { node: old(self).stack_state().stack[top].scene })
            },
            old(self).stack_state().well_formed() ==> final(self).stack_state().well_formed(),
    {
        match self.pop_scene_immediate(actions) {
            Some(node) => {
                actions.push(TreeAction::Free { node });
            },
            None => {},
        }
    }

    /// Begins to replace the current scene with a new one: pops the current scene. The new one is
    /// to be looked at, and pushed, once that is done in the tree.
    pub fn begin_swap(&mut self, actions: &mut Vec<TreeAction>) -> (swap: PendingSwap)
        requires
            old(self).is_ready(),
        ensures
            final(self).is_ready(),
            old(self).stack_state().stack.len() == 0 ==> {
                &&& swap.old is None
                &&& final(self).stack_state() == old(self).stack_state()
                &&& final(actions)@ == old(actions)@
            },
            old(self).stack_state().stack.len() > 0 ==> {
                let top = old(self).stack_state().stack.len() - 1;
                &&& swap.old == Some(old(self).stack_state().stack[top].scene)
                &&& final(self).stack_state() == old(self).stack_state().after_remove(top)
                &&& final(actions)@ == old(actions)@ + old(self).stack_state().remove_actions(top)
            },
            old(self).stack_state().well_formed() ==> final(self).stack_state().well_formed(),
    {
        PendingSwap { old: self.pop_scene_immediate(actions) }
    }

    /// Replaces the current scene, which [`begin_swap`](Self::begin_swap) popped, with a new one
    /// and frees the old one, whether the new one could be pushed or not. Gives back which scene
    /// was freed.
    #[must_use]
    pub fn swap_scene_immediate(
        &mut self,
        swap: PendingSwap,
        scene: NodeSnapshot,
        top_mode: ProcessMode,
        actions: &mut Vec<TreeAction>,
    ) -> (old_scene: Option<NodeId>)
        requires
            old(self).is_ready(),
        ensures
            final(self).is_ready(),
            old_scene == swap.old,
            final(self).stack_state() == (if scene.has_parent {
                old(self).stack_state()
            } else {
                old(self).stack_state().after_push(scene, top_mode)
            }),
            final(actions)@ == old(actions)@ + (if scene.has_parent {
                Seq::empty()
            } else {
                old(self).stack_state().push_actions(scene.id)
            }) + (match swap.old {
                Some(node) => seq![TreeAction::Free { node }],
                None => Seq::empty(),
            }),
            old(self).stack_state().well_formed() ==> final(self).stack_state().well_formed(),
    {
        let _pushed: bool = self.push_scene_immediate(scene, top_mode, actions);
        match swap.old {
            Some(node) => {
                actions.push(TreeAction::Free { node });
            },
            None => {},
        }
        assert(final(actions)@ =~= old(actions)@ + (if scene.has_parent {
            Seq::empty()
        } else {
            old(self).stack_state().push_actions(scene.id)
        }) + (match swap.old {
            Some(node) => seq![TreeAction::Free { node }],
            None => Seq::empty(),
        }));
        swap.old
    }

    /// Replaces the current scene, which [`begin_swap`](Self::begin_swap) popped, with a new one
    /// and frees the old one; to be run during idle time.
    pub fn swap_scene(
        &mut self,
        swap: PendingSwap,
        scene: NodeSnapshot,
        top_mode: ProcessMode,
        actions: &mut Vec<TreeAction>,
    )
        requires
            old(self).is_ready(),
        ensures
            final(self).is_ready(),
            final(self).stack_state() == (if scene.has_parent {
                old(self).stack_state()
            } else {
                old(self).stack_state().after_push(scene, top_mode)
            }),
            final(actions)@ == old(actions)@ + (if scene.has_parent {
                Seq::empty()
            } else {
                old(self).stack_state().push_actions(scene.id)
            }) + (match swap.old {
                Some(node) => seq![TreeAction::Free { node }],
                None => Seq::empty(),
            }),
            old(self).stack_state().well_formed() ==> final(self).stack_state().well_formed(),
    {
        let _freed: Option<NodeId> = self.swap_scene_immediate(swap, scene, top_mode, actions);
    }

    /// How the next scene of a transition is made of a value: of a path (text or name) to a packed
    /// scene, which is loaded in the background during the transition, of a packed scene, which is
    /// instantiated, or of a node.
    pub fn transition_target<Value>(next_scene: Argument<Value>) -> (source: Result<
        ThreadedSource,
        ThreadedNodeLoadError<Value>,
    >)
        ensures
            match next_scene {
                Argument::Text(path) | Argument::Name(path) => {
                    &&& source matches Ok(ThreadedSource::Load(request))
                    &&& request.path == path
                    &&& asks_for_packed_scene(request.type_hint)
                    &&& request.cache_mode == CacheMode::Reuse
                    &&& !request.use_sub_threads
                },
                Argument::Object(object) => source == match object.class {
                    ObjectClass::Node => Ok(ThreadedSource::Node(object.id)),
                    ObjectClass::PackedScene => Ok(ThreadedSource::Instantiate(object.id)),
                    ObjectClass::Other => Err(
                        ThreadedNodeLoadError::<Value>::Object(
                            ObjectToNodeError::UnrecognizedType(object.id),
                        ),
                    ),
                },
                Argument::Nil => source == Err::<ThreadedSource, _>(
                    ThreadedNodeLoadError::<Value>::NullArgument,
                ),
                Argument::Other(value) => source == Err::<ThreadedSource, _>(
                    ThreadedNodeLoadError::UnrecognizedArgument(value),
                ),
            },
    {
        load_threaded_something_to_node(next_scene, CacheMode::Reuse, false)
    }

    /// Starts a scene transition with the given transition scene; to be run during idle time, once
    /// [`transition_target`](Self::transition_target) knows how to get at the next scene.
    pub fn transition_scene<Driver, NextScene, TargetSceneError>(
        &mut self,
        driver: Driver,
        next_scene: NextScene,
        transition: NodeSnapshot,
        top_mode: ProcessMode,
        actions: &mut Vec<TreeAction>,
    ) -> (started: Result<
        StartingTransition<Driver, NextScene>,
        SceneTransitionStartError<TargetSceneError>,
    >)
        requires
            old(self).is_ready(),
        ensures
            final(self).is_ready(),
            started_as_stated(
                old(self).stack_state(),
                final(self).stack_state(),
                driver,
                next_scene,
                transition,
                top_mode,
                started,
            ),
            final(actions)@ == old(actions)@ + start_actions(old(self).stack_state(), transition),
            old(self).stack_state().well_formed() ==> final(self).stack_state().well_formed(),
    {
        let manager: &mut SceneManager = self.manager_mut();
        manager.transition_scene(driver, next_scene, transition, top_mode, actions)
    }

    /// How an object is made of a value that is to become a node: of a path (text or name) to a
    /// packed scene, which is loaded, or of the object that the value is.
    pub fn load_to_node<Value>(arg: Argument<Value>) -> (source: Option<ObjectSource>)
        ensures
            match arg {
                Argument::Text(path) | Argument::Name(path) => {
                    &&& source matches Some(ObjectSource::Load(request))
                    &&& request.path == path
                    &&& request.cache_mode == CacheMode::Reuse
                    &&& asks_for_packed_scene(request.type_hint)
                },
                Argument::Object(object) => source == Some(ObjectSource::Object(object)),
                Argument::Nil => source is None,
                Argument::Other(_) => source is None,
            },
    {
        match load_something_to_node(arg, CacheMode::Reuse) {
            Ok(source) => Some(source),
            Err(_) => None,
        }
    }

    /// The root scene to load, by the setting that names it, where there is one and it is a name.
    pub fn get_root_scene<ConvertError, Value>(
        setting: Option<Result<String, ConvertError>>,
    ) -> (request: Result<PathRequest, GetRootSceneError<ConvertError, Value>>)
        ensures
            match setting {
                None => request == Err::<PathRequest, _>(
                    GetRootSceneError::<ConvertError, Value>::SettingMissing,
                ),
                Some(Err(error)) => request == Err::<PathRequest, _>(
                    GetRootSceneError::<ConvertError, Value>::SettingIsNotStringName(error),
                ),
                Some(Ok(path)) => if path@.len() == 0 {
                    request == Err::<PathRequest, _>(
                        GetRootSceneError::<ConvertError, Value>::SettingIsUnset,
                    )
                } else {
                    &&& request matches Ok(load)
                    &&& load.path == path
                    &&& load.cache_mode == CacheMode::Reuse
                    &&& asks_for_packed_scene(load.type_hint)
                },
            },
    {
        match setting {
            None => Err(GetRootSceneError::SettingMissing),
            Some(Err(error)) => Err(GetRootSceneError::SettingIsNotStringName(error)),
            Some(Ok(path)) => {
                if path.as_str().is_empty() {
                    Err(GetRootSceneError::SettingIsUnset)
                } else {
                    Ok(load_node_from_path(path, CacheMode::Reuse))
                }
            },
        }
    }

    /// Makes a node that is not set up yet. Where no root scene could be had, the tree's root
    /// takes its place.
    pub fn init<ConvertError, Value>(
        root_scene: Result<NodeId, GetRootSceneError<ConvertError, Value>>,
    ) -> (node: Self)
        ensures
            node.state == (SceneManagerState::Initializing {
                root_scene: match root_scene {
                    Ok(root) => Some(root),
                    Err(_) => None,
                },
            }),
    {
        SceneManagerNode {
            state: SceneManagerState::Initializing {
                root_scene: match root_scene {
                    Ok(root) => Some(root),
                    Err(_) => None,
                },
            },
        }
    }

    /// Whether a failure to get at the root scene is to be reported. That none is set is not.
    pub fn reports_root_scene_error<ConvertError, Value>(
        error: &GetRootSceneError<ConvertError, Value>,
    ) -> (reports: bool)
        ensures
            reports == !(error is SettingIsUnset),
    {
        match error {
            GetRootSceneError::SettingIsUnset => false,
            _ => true,
        }
    }

    /// The root node that this node will be set up with as it enters a tree with root `tree_root`,
    /// unless it is set up already.
    pub fn pending_root(&self, tree_root: NodeId) -> (root: Option<NodeId>)
        ensures
            root == match self.state {
                SceneManagerState::Initializing { root_scene: Some(scene) } => Some(scene),
                SceneManagerState::Initializing { root_scene: None } => Some(tree_root),
                SceneManagerState::Ready { .. } => None,
            },
    {
        match &self.state {
            SceneManagerState::Initializing { root_scene: Some(scene) } => Some(*scene),
            SceneManagerState::Initializing { root_scene: None } => Some(tree_root),
            SceneManagerState::Ready { .. } => None,
        }
    }

    /// Sets the node up as it enters a tree with root `tree_root`, where the root node answers
    /// `reply` when it is asked where scenes go. A node that is set up already stays as it is.
    pub fn enter_tree(&mut self, tree_root: NodeId, reply: ParentReply)
        ensures
            final(self).is_ready(),
            old(self).is_ready() ==> *final(self) == *old(self),
            old(self).state matches SceneManagerState::Initializing { root_scene } ==> {
                let root = match root_scene {
                    Some(scene) => scene,
                    None => tree_root,
                };
                final(self).stack_state() == (ManagerState {
                    root,
                    scene_parent: match reply {
                        ParentReply::Node(parent) => parent,
                        _ => root,
                    },
                    stack: Seq::empty(),
                })
            },
    {
        match self.pending_root(tree_root) {
            Some(root) => {
                let scene_parent: Option<NodeId> = match reply {
                    ParentReply::Node(parent) => Some(parent),
                    _ => None,
                };
                self.state = SceneManagerState::Ready {
                    manager: SceneManager::new(root, scene_parent),
                };
            },
            None => {},
        }
    }

    /// Begins to take the tree over, once all nodes are ready: the tree's current scene is taken
    /// out of its parent, and this node's root goes into the tree, unless it is the tree's root.
    /// The current scene is to be pushed once that is done in the tree.
    ///
    /// Must only be used during idle time.
    pub fn begin_deferred_ready(
        &self,
        current: NodeId,
        current_parent: NodeId,
        tree_root: NodeId,
        actions: &mut Vec<TreeAction>,
    )
        requires
            self.is_ready(),
        ensures
            final(actions)@ == old(actions)@ + seq![
                TreeAction::RemoveChild { parent: current_parent, child: current },
            ] + (if self.stack_state().root == tree_root {
                Seq::empty()
            } else {
                seq![TreeAction::AddChild { parent: tree_root, child: self.stack_state().root }]
            }),
    {
        actions.push(TreeAction::RemoveChild { parent: current_parent, child: current });
        let root: NodeId = self.state.root();
        if root != tree_root {
            actions.push(TreeAction::AddChild { parent: tree_root, child: root });
        }
        assert(final(actions)@ =~= old(actions)@ + seq![
            TreeAction::RemoveChild { parent: current_parent, child: current },
        ] + (if self.stack_state().root == tree_root {
            Seq::empty()
        } else {
            seq![TreeAction::AddChild { parent: tree_root, child: self.stack_state().root }]
        }));
    }

    /// Makes the tree's current scene, taken out of its parent, this node's current scene. Gives
    /// back whether it could be pushed.
    ///
    /// Must only be used during idle time.
    pub fn deferred_ready(
        &mut self,
        current: NodeSnapshot,
        top_mode: ProcessMode,
        actions: &mut Vec<TreeAction>,
    ) -> (pushed: bool)
        requires
            old(self).is_ready(),
        ensures
            final(self).is_ready(),
            pushed == !current.has_parent,
            pushed ==> {
                &&& final(self).stack_state() == old(self).stack_state().after_push(
                    current,
                    top_mode,
                )
                &&& final(actions)@ == old(actions)@ + old(self).stack_state().push_actions(
                    current.id,
                )
            },
            !pushed ==> {
                &&& final(self).stack_state() == old(self).stack_state()
                &&& final(actions)@ == old(actions)@
            },
            old(self).stack_state().well_formed() ==> final(self).stack_state().well_formed(),
    {
        self.push_scene_immediate(current, top_mode, actions)
    }
}

/// A swap leaves the new scene in the place of the one that was on top; the scenes below keep their
/// places.
pub proof fn law_swap_replaces_top(s: ManagerState, new: NodeSnapshot, top_mode: ProcessMode, i: int)
    requires
        s.stack.len() > 0,
    ensures
        ({
            let swapped = s.after_remove(s.stack.len() - 1).after_push(new, top_mode);
            &&& swapped.stack.len() == s.stack.len()
            &&& swapped.stack.last().scene == new.id
            &&& 0 <= i < s.stack.len() - 1 ==> swapped.stack[i].scene == s.stack[i].scene
            &&& swapped.root == s.root && swapped.scene_parent == s.scene_parent
        }),
{
}

} // verus!
