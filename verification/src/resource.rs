//! Loading resources, at once or in the background, and making nodes of what was loaded.
//!
//! The functions here decide what to ask of the engine's resource loader and what to make of its
//! answers; the caller does the asking.
use vstd::prelude::*;

use crate::tree::{NodeId, ProcessMode, TreeAction};

pub mod error;

pub use error::{
    LoadError, LoadNodeError, LoadNodeFromPathError, ObjectToNodeError, ResourceToNodeError,
    ThreadedLoadError, ThreadedNodeLoadError,
};

verus! {

/// The instance id of an engine object.
pub type ObjectId = i64;

/// What kind of object an object is, as far as it can become a node.
#[derive(Clone, Copy, Debug, PartialEq, Eq, Structural)]
pub enum ObjectClass {
    Node,
    PackedScene,
    Other,
}

/// An engine object.
#[derive(Clone, Copy, Debug, PartialEq, Eq, Structural)]
pub struct ObjectInfo {
    pub id: ObjectId,
    pub class: ObjectClass,
}

/// How the resource loader uses its cache.
#[derive(Clone, Copy, Debug, PartialEq, Eq, Structural)]
pub enum CacheMode {
    Ignore,
    Reuse,
    Replace,
    IgnoreDeep,
    ReplaceDeep,
    /// A mode of a newer engine, by its number.
    Unrecognized(i32),
}

/// How far a background load got.
#[derive(Clone, Copy, Debug, PartialEq, Eq, Structural)]
pub enum LoadStatus {
    InvalidResource,
    InProgress,
    Failed,
    Loaded,
    /// A status of a newer engine, by its number.
    Unrecognized(i32),
}

/// The engine's main loop.
#[derive(Clone, Copy, Debug, PartialEq, Eq, Structural)]
pub enum MainLoop {
    Missing,
    /// A scene tree, with its root.
    SceneTree { root: NodeId },
    Other,
}

/// A value to be made a node of. `Value` is any value that cannot.
#[derive(Debug)]
pub enum Argument<Value> {
    Text(String),
    Name(String),
    Object(ObjectInfo),
    Nil,
    Other(Value),
}

/// What a background load comes to.
pub type LoadResult = Result<ObjectInfo, ThreadedLoadError>;

/// A request for a resource, to be loaded at once.
#[derive(Debug)]
pub struct PathRequest {
    pub path: String,
    pub cache_mode: CacheMode,
    /// The type of resource to look for, where only one will do.
    pub type_hint: Option<String>,
}

/// A request for a resource, to be loaded in the background.
#[derive(Debug)]
pub struct ThreadedRequest {
    pub path: String,
    /// The type of resource to look for, where only one will do.
    pub type_hint: Option<String>,
    pub cache_mode: CacheMode,
    pub use_sub_threads: bool,
}

/// A background load that is to be requested of the resource loader.
#[derive(Debug)]
pub struct ThreadedLoad {
    pub request: ThreadedRequest,
    /// The node that asks how far the load got.
    pub poller: LoadPoller,
    /// The node to which the poller is to be added, during idle time and as an internal child
    /// behind all others.
    pub poller_parent: NodeId,
}

/// How a node is made of an object.
#[derive(Clone, Copy, Debug, PartialEq, Eq, Structural)]
pub enum NodeSource {
    /// The object is the node.
    Node(NodeId),
    /// The object is a packed scene, to be instantiated.
    Instantiate(ObjectId),
}

/// How an object is made of a value.
#[derive(Debug)]
pub enum ObjectSource {
    /// The value is the object.
    Object(ObjectInfo),
    /// The value is a path to a resource, to be loaded.
    Load(PathRequest),
}

/// How a node is made of a value in the background.
#[derive(Debug)]
pub enum ThreadedSource {
    /// The value is the node.
    Node(NodeId),
    /// The value is a packed scene, to be instantiated.
    Instantiate(ObjectId),
    /// The value is a path to a packed scene, to be loaded in the background.
    Load(ThreadedRequest),
}

/// Whether a type hint asks for a packed scene.
pub open spec fn asks_for_packed_scene(type_hint: Option<String>) -> bool {
    type_hint matches Some(hint) && hint@ == "PackedScene"@
}

/// The type hint that asks for a packed scene.
fn packed_scene_hint() -> (type_hint: Option<String>)
    ensures
        asks_for_packed_scene(type_hint),
{
    Some("PackedScene".to_owned())
}

/// The background load of a resource, where the resource loader has found the resource to exist
/// or not, and the main loop is as given.
pub fn load_threaded(request: ThreadedRequest, exists: bool, main_loop: MainLoop) -> (load: Result<
    ThreadedLoad,
    ThreadedLoadError,
>)
    ensures
        !exists ==> load == Err::<ThreadedLoad, _>(ThreadedLoadError::MissingResource(request.path)),
        exists && main_loop is Missing ==> load == Err::<ThreadedLoad, _>(
            ThreadedLoadError::NoTree,
        ),
        exists && main_loop is Other ==> load == Err::<ThreadedLoad, _>(
            ThreadedLoadError::UnrecognizedTree,
        ),
        exists ==> (main_loop matches MainLoop::SceneTree { root } ==> load == Ok::<
            _,
            ThreadedLoadError,
        >(
            ThreadedLoad {
                request,
                poller: LoadPoller { state: PollerState::Ready { path: request.path } },
                poller_parent: root,
            },
        )),
{
    // a resource that does not exist needs no attempt
    if !exists {
        return Err(ThreadedLoadError::MissingResource(request.path));
    }
    match main_loop {
        MainLoop::Missing => Err(ThreadedLoadError::NoTree),
        MainLoop::Other => Err(ThreadedLoadError::UnrecognizedTree),
        MainLoop::SceneTree { root } => {
            let poller: LoadPoller = LoadPoller {
                state: PollerState::Ready { path: request.path.clone() },
            };
            Ok(ThreadedLoad { request, poller, poller_parent: root })
        },
    }
}

/// The request by which a packed scene is loaded in the background, to be made a node.
pub fn load_threaded_to_node(path: String, cache_mode: CacheMode, use_sub_threads: bool) -> (request:
    ThreadedRequest)
    ensures
        request.path == path,
        asks_for_packed_scene(request.type_hint),
        request.cache_mode == cache_mode,
        request.use_sub_threads == use_sub_threads,
{
    ThreadedRequest { path, type_hint: packed_scene_hint(), cache_mode, use_sub_threads }
}

/// What to make of a background load of a packed scene: the packed scene to instantiate.
pub fn threaded_packed_scene<Value>(loaded: LoadResult) -> (scene: Result<
    ObjectId,
    ThreadedNodeLoadError<Value>,
>)
    ensures
        scene == match loaded {
            Err(error) => Err(ThreadedNodeLoadError::<Value>::Load(error)),
            Ok(resource) => if resource.class is PackedScene {
                Ok(resource.id)
            } else {
                Err(ThreadedNodeLoadError::<Value>::NotAPackedScene(resource.id))
            },
        },
{
    match loaded {
        Err(error) => Err(ThreadedNodeLoadError::from(error)),
        Ok(resource) => match resource.class {
            ObjectClass::PackedScene => Ok(resource.id),
            _ => Err(ThreadedNodeLoadError::NotAPackedScene(resource.id)),
        },
    }
}

/// What to make of the instance of a packed scene that was loaded in the background, where there
/// is one.
pub fn threaded_instance<Value>(scene: ObjectId, instance: Option<NodeId>) -> (node: Result<
    NodeId,
    ThreadedNodeLoadError<Value>,
>)
    ensures
        node == match instance {
            Some(made) => Ok(made),
            None => Err(
                ThreadedNodeLoadError::<Value>::Object(ObjectToNodeError::CouldNotInstantiate(scene)),
            ),
        },
{
    match object_instance(scene, instance) {
        Ok(made) => Ok(made),
        Err(error) => Err(ThreadedNodeLoadError::from(error)),
    }
}

/// The request for a resource.
pub fn load_from_path(path: String, cache_mode: CacheMode, type_hint: Option<String>) -> (request:
    PathRequest)
    ensures
        request.path == path,
        request.cache_mode == cache_mode,
        request.type_hint == type_hint,
{
    PathRequest { path, cache_mode, type_hint }
}

/// How a node is made of a resource: the packed scene to instantiate.
pub fn resource_to_node(resource: ObjectInfo) -> (scene: Result<ObjectId, ResourceToNodeError>)
    ensures
        scene == (if resource.class is PackedScene {
            Ok(resource.id)
        } else {
            Err(ResourceToNodeError::UnrecognizedType(resource.id))
        }),
{
    match resource.class {
        ObjectClass::PackedScene => Ok(resource.id),
        _ => Err(ResourceToNodeError::UnrecognizedType(resource.id)),
    }
}

/// What to make of the instance of a packed scene that is a resource, where there is one.
pub fn resource_instance(scene: ObjectId, instance: Option<NodeId>) -> (node: Result<
    NodeId,
    ResourceToNodeError,
>)
    ensures
        node == match instance {
            Some(made) => Ok(made),
            None => Err(ResourceToNodeError::CouldNotInstantiate(scene)),
        },
{
    match instance {
        Some(made) => Ok(made),
        None => Err(ResourceToNodeError::CouldNotInstantiate(scene)),
    }
}

/// The request by which a packed scene is loaded from a path, to be made a node.
pub fn load_node_from_path(path: String, cache_mode: CacheMode) -> (request: PathRequest)
    ensures
        request.path == path,
        request.cache_mode == cache_mode,
        asks_for_packed_scene(request.type_hint),
{
    load_from_path(path, cache_mode, packed_scene_hint())
}

/// What to make of what was loaded from a path, if anything was: the packed scene to instantiate.
pub fn path_packed_scene<Value>(loaded: Option<ObjectInfo>) -> (scene: Result<
    ObjectId,
    LoadNodeFromPathError<Value>,
>)
    ensures
        scene == match loaded {
            None => Err(LoadNodeFromPathError::<Value>::Load(LoadError::<Value>::Unknown)),
            Some(resource) => if resource.class is PackedScene {
                Ok(resource.id)
            } else {
                Err(
                    LoadNodeFromPathError::<Value>::Resource(
                        ResourceToNodeError::UnrecognizedType(resource.id),
                    ),
                )
            },
        },
{
    match loaded {
        None => Err(LoadNodeFromPathError::Load(LoadError::Unknown)),
        Some(resource) => match resource_to_node(resource) {
            Ok(scene) => Ok(scene),
            Err(error) => Err(LoadNodeFromPathError::from(error)),
        },
    }
}

/// What to make of the instance of a packed scene that was loaded from a path, where there is one.
pub fn path_instance<Value>(scene: ObjectId, instance: Option<NodeId>) -> (node: Result<
    NodeId,
    LoadNodeFromPathError<Value>,
>)
    ensures
        node == match instance {
            Some(made) => Ok(made),
            None => Err(
                LoadNodeFromPathError::<Value>::Resource(ResourceToNodeError::CouldNotInstantiate(scene)),
            ),
        },
{
    match resource_instance(scene, instance) {
        Ok(made) => Ok(made),
        Err(error) => Err(LoadNodeFromPathError::from(error)),
    }
}

/// How an object is made of a value: a text or a name is the path of a resource to load, an object
/// stands for itself.
pub fn load_something<Value>(
    arg: Argument<Value>,
    cache_mode: CacheMode,
    type_hint: Option<String>,
) -> (source: Result<ObjectSource, LoadError<Value>>)
    ensures
        source == match arg {
            Argument::Text(path) => Ok(
                ObjectSource::Load(PathRequest { path, cache_mode, type_hint }),
            ),
            Argument::Name(path) => Ok(
                ObjectSource::Load(PathRequest { path, cache_mode, type_hint }),
            ),
            Argument::Object(object) => Ok(ObjectSource::Object(object)),
            Argument::Nil => Err(LoadError::<Value>::NullArgument),
            Argument::Other(value) => Err(LoadError::<Value>::UnrecognizedArgument(value)),
        },
{
    match arg {
        Argument::Text(path) => Ok(
            ObjectSource::Load(load_from_path(path, cache_mode, type_hint)),
        ),
        Argument::Name(path) => Ok(
            ObjectSource::Load(load_from_path(path, cache_mode, type_hint)),
        ),
        Argument::Object(object) => Ok(ObjectSource::Object(object)),
        Argument::Nil => Err(LoadError::NullArgument),
        Argument::Other(value) => Err(LoadError::UnrecognizedArgument(value)),
    }
}

/// What to make of what was loaded for a value, if anything was.
pub fn loaded_something<Value>(loaded: Option<ObjectInfo>) -> (object: Result<
    ObjectInfo,
    LoadError<Value>,
>)
    ensures
        object == match loaded {
            Some(found) => Ok(found),
            None => Err(LoadError::<Value>::Unknown),
        },
{
    match loaded {
        Some(found) => Ok(found),
        None => Err(LoadError::Unknown),
    }
}

/// How a node is made of an object: a node stands for itself, a packed scene is instantiated.
pub fn object_to_node(object: ObjectInfo) -> (source: Result<NodeSource, ObjectToNodeError>)
    ensures
        source == match object.class {
            ObjectClass::Node => Ok(NodeSource::Node(object.id)),
            ObjectClass::PackedScene => Ok(NodeSource::Instantiate(object.id)),
            ObjectClass::Other => Err(ObjectToNodeError::UnrecognizedType(object.id)),
        },
{
    match object.class {
        ObjectClass::Node => Ok(NodeSource::Node(object.id)),
        ObjectClass::PackedScene => Ok(NodeSource::Instantiate(object.id)),
        ObjectClass::Other => Err(ObjectToNodeError::UnrecognizedType(object.id)),
    }
}

/// What to make of the instance of a packed scene, where there is one.
pub fn object_instance(scene: ObjectId, instance: Option<NodeId>) -> (node: Result<
    NodeId,
    ObjectToNodeError,
>)
    ensures
        node == match instance {
            Some(made) => Ok(made),
            None => Err(ObjectToNodeError::CouldNotInstantiate(scene)),
        },
{
    match instance {
        Some(made) => Ok(made),
        None => Err(ObjectToNodeError::CouldNotInstantiate(scene)),
    }
}

/// How an object is made of a value that is to become a node: as in [`load_something`], where a
/// path leads to a packed scene.
pub fn load_something_to_node<Value>(arg: Argument<Value>, cache_mode: CacheMode) -> (source: Result<
    ObjectSource,
    LoadNodeError<Value>,
>)
    ensures
        match arg {
            Argument::Text(path) | Argument::Name(path) => {
                &&& source matches Ok(ObjectSource::Load(request))
                &&& request.path == path
                &&& request.cache_mode == cache_mode
                &&& asks_for_packed_scene(request.type_hint)
            },
            Argument::Object(object) => source == Ok::<_, LoadNodeError<Value>>(
                ObjectSource::Object(object),
            ),
            Argument::Nil => source == Err::<ObjectSource, _>(
                LoadNodeError::<Value>::Load(LoadError::<Value>::NullArgument),
            ),
            Argument::Other(value) => source == Err::<ObjectSource, _>(
                LoadNodeError::<Value>::Load(LoadError::<Value>::UnrecognizedArgument(value)),
            ),
        },
{
    match load_something(arg, cache_mode, packed_scene_hint()) {
        Ok(source) => Ok(source),
        Err(error) => Err(LoadNodeError::from(error)),
    }
}

/// How a node is made of what a value led to, if it led to anything.
pub fn something_to_node<Value>(loaded: Option<ObjectInfo>) -> (source: Result<
    NodeSource,
    LoadNodeError<Value>,
>)
    ensures
        source == match loaded {
            None => Err(LoadNodeError::<Value>::Load(LoadError::<Value>::Unknown)),
            Some(object) => match object.class {
                ObjectClass::Node => Ok(NodeSource::Node(object.id)),
                ObjectClass::PackedScene => Ok(NodeSource::Instantiate(object.id)),
                ObjectClass::Other => Err(
                    LoadNodeError::<Value>::Object(ObjectToNodeError::UnrecognizedType(object.id)),
                ),
            },
        },
{
    match loaded_something(loaded) {
        Err(error) => Err(LoadNodeError::from(error)),
        Ok(object) => match object_to_node(object) {
            Ok(source) => Ok(source),
            Err(error) => Err(LoadNodeError::from(error)),
        },
    }
}

/// What to make of the instance of a packed scene that a value led to, where there is one.
pub fn something_instance<Value>(scene: ObjectId, instance: Option<NodeId>) -> (node: Result<
    NodeId,
    LoadNodeError<Value>,
>)
    ensures
        node == match instance {
            Some(made) => Ok(made),
            None => Err(LoadNodeError::<Value>::Object(ObjectToNodeError::CouldNotInstantiate(scene))),
        },
{
    match object_instance(scene, instance) {
        Ok(made) => Ok(made),
        Err(error) => Err(LoadNodeError::from(error)),
    }
}

/// How a node is made of a value, where a path is loaded in the background.
pub fn load_threaded_something_to_node<Value>(
    arg: Argument<Value>,
    cache_mode: CacheMode,
    use_sub_threads: bool,
) -> (source: Result<ThreadedSource, ThreadedNodeLoadError<Value>>)
    ensures
        match arg {
            Argument::Text(path) | Argument::Name(path) => {
                &&& source matches Ok(ThreadedSource::Load(request))
                &&& request.path == path
                &&& asks_for_packed_scene(request.type_hint)
                &&& request.cache_mode == cache_mode
                &&& request.use_sub_threads == use_sub_threads
            },
            Argument::Object(object) => source == match object.class {
                ObjectClass::Node => Ok(ThreadedSource::Node(object.id)),
                ObjectClass::PackedScene => Ok(ThreadedSource::Instantiate(object.id)),
                ObjectClass::Other => Err(
                    ThreadedNodeLoadError::<Value>::Object(
                        ObjectToNodeError::UnrecognizedType(object.id),
                    ),
                ),
            },
            Argument::Nil => source == Err::<ThreadedSource, _>(
                ThreadedNodeLoadError::<Value>::NullArgument,
            ),
            Argument::Other(value) => source == Err::<ThreadedSource, _>(
                ThreadedNodeLoadError::<Value>::UnrecognizedArgument(value),
            ),
        },
{
    match arg {
        Argument::Text(path) => Ok(
            ThreadedSource::Load(load_threaded_to_node(path, cache_mode, use_sub_threads)),
        ),
        Argument::Name(path) => Ok(
            ThreadedSource::Load(load_threaded_to_node(path, cache_mode, use_sub_threads)),
        ),
        Argument::Object(object) => match object_to_node(object) {
            Ok(NodeSource::Node(node)) => Ok(ThreadedSource::Node(node)),
            Ok(NodeSource::Instantiate(scene)) => Ok(ThreadedSource::Instantiate(scene)),
            Err(error) => Err(ThreadedNodeLoadError::from(error)),
        },
        Argument::Nil => Err(ThreadedNodeLoadError::NullArgument),
        Argument::Other(value) => Err(ThreadedNodeLoadError::UnrecognizedArgument(value)),
    }
}

/// The result of a background load, which can be waited for.
///
/// `Waker` is what is told once the result is there.
pub struct LoadFuture<Waker> {
    result: Option<LoadResult>,
    waker: Option<Waker>,
}

/// What a [`LoadFuture`] holds.
pub struct LoadFutureState<Waker> {
    /// The result, from the end of the load until it is collected.
    pub result: Option<LoadResult>,
    /// Who waits for the result.
    pub waker: Option<Waker>,
}

impl<Waker> View for LoadFuture<Waker> {
    type V = LoadFutureState<Waker>;

    closed spec fn view(&self) -> LoadFutureState<Waker> {
        LoadFutureState { result: self.result, waker: self.waker }
    }
}

impl<Waker> LoadFutureState<Waker> {
    /// The state once the load ended with `result`.
    pub open spec fn after_finish(self, result: LoadResult) -> Self {
        LoadFutureState { result: Some(result), waker: None }
    }

    /// The state once somebody asked for the result and left `waker` behind.
    pub open spec fn after_poll(self, waker: Waker) -> Self {
        if self.result is Some {
            LoadFutureState { result: None, ..self }
        } else {
            LoadFutureState { waker: Some(waker), ..self }
        }
    }
}

impl<Waker> LoadFuture<Waker> {
    /// Makes a future for a load that has not ended.
    pub fn new() -> (future: Self)
        ensures
            future@ == (LoadFutureState::<Waker> { result: None, waker: None }),
    {
        LoadFuture { result: None, waker: None }
    }

    /// Stores the result of the load and gives back whom to wake.
    pub fn finish(&mut self, result: LoadResult) -> (waker: Option<Waker>)
        ensures
            waker == old(self)@.waker,
            final(self)@ == old(self)@.after_finish(result),
    {
        self.result = Some(result);
        self.waker.take()
    }

    /// Collects the result, or nothing where it is not there: then `waker` is kept, in place of an
    /// earlier one, to be woken when it is.
    pub fn poll(&mut self, waker: Waker) -> (ready: Option<LoadResult>)
        ensures
            ready == old(self)@.result,
            final(self)@ == old(self)@.after_poll(waker),
    {
        match self.result.take() {
            Some(result) => Some(result),
            None => {
                self.waker = Some(waker);
                None
            },
        }
    }
}

/// What a poller knows.
#[derive(Debug)]
pub enum PollerState {
    Initializing,
    Ready { path: String },
}

/// A node that asks, each frame, how far a background load got.
#[derive(Debug)]
pub struct LoadPoller {
    pub state: PollerState,
}

/// What a poller does in a frame.
#[derive(Debug)]
pub enum PollerStep {
    /// Nothing: it was not told what to ask for.
    NotInitialized,
    /// Nothing: the load goes on.
    Wait,
    /// It collects what was loaded, finishes the future with it and frees itself.
    Collect,
    /// It finishes the future with an error and frees itself.
    Fail(ThreadedLoadError),
}

impl LoadPoller {
    /// Makes a poller that was not told what to ask for.
    pub fn init() -> (poller: Self)
        ensures
            poller.state is Initializing,
    {
        LoadPoller { state: PollerState::Initializing }
    }

    /// What is done when the poller, as `node`, enters the tree: it is processed whatever is paused.
    pub fn enter_tree(node: NodeId) -> (action: TreeAction)
        ensures
            action == (TreeAction::SetProcessMode { node, mode: ProcessMode::Always }),
    {
        TreeAction::SetProcessMode { node, mode: ProcessMode::Always }
    }

    /// The path whose load status is asked for, if the poller was told one.
    pub fn path(&self) -> (path: Option<&String>)
        ensures
            path == match self.state {
                PollerState::Initializing => None,
                PollerState::Ready { path } => Some(&path),
            },
    {
        match &self.state {
            PollerState::Initializing => None,
            PollerState::Ready { path } => Some(path),
        }
    }

    /// What to do in a frame in which the load status is as given.
    pub fn process(&self, status: LoadStatus) -> (step: PollerStep)
        ensures
            step == match self.state {
                PollerState::Initializing => PollerStep::NotInitialized,
                PollerState::Ready { .. } => match status {
                    LoadStatus::InProgress => PollerStep::Wait,
                    LoadStatus::Loaded => PollerStep::Collect,
                    LoadStatus::Failed => PollerStep::Fail(ThreadedLoadError::Failed),
                    LoadStatus::InvalidResource => PollerStep::Fail(
                        ThreadedLoadError::InvalidResource,
                    ),
                    LoadStatus::Unrecognized(_) => PollerStep::Fail(
                        ThreadedLoadError::UnrecognizedLoadStatus(status),
                    ),
                },
            },
    {
        match &self.state {
            PollerState::Initializing => PollerStep::NotInitialized,
            PollerState::Ready { .. } => match status {
                LoadStatus::InProgress => PollerStep::Wait,
                LoadStatus::Loaded => PollerStep::Collect,
                LoadStatus::Failed => PollerStep::Fail(ThreadedLoadError::Failed),
                LoadStatus::InvalidResource => PollerStep::Fail(ThreadedLoadError::InvalidResource),
                LoadStatus::Unrecognized(_) => PollerStep::Fail(
                    ThreadedLoadError::UnrecognizedLoadStatus(status),
                ),
            },
        }
    }

    /// The result of a load that is over, where the resource loader hands the resource out.
    pub fn collected(resource: Option<ObjectInfo>) -> (result: LoadResult)
        ensures
            result == match resource {
                Some(found) => Ok(found),
                None => Err(ThreadedLoadError::ResultMissing),
            },
    {
        match resource {
            Some(found) => Ok(found),
            None => Err(ThreadedLoadError::ResultMissing),
        }
    }
}

/// Who asks for the result of a load too early is woken when it is there, and then collects it. It
/// can be collected once.
pub proof fn law_waiting_is_woken<Waker>(
    future: LoadFutureState<Waker>,
    early: Waker,
    late: Waker,
    result: LoadResult,
)
    requires
        future.result is None,
    ensures
        future.after_poll(early).waker == Some(early),
        future.after_poll(early).result is None,
        future.after_poll(early).after_finish(result).result == Some(result),
        future.after_poll(early).after_finish(result).waker is None,
        future.after_poll(early).after_finish(result).after_poll(late).result is None,
{
}

} // verus!
