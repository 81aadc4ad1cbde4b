//! What loading asks for, and what it makes of the answers.
use vstd::prelude::*;

use crate::resource::{
    load_from_path, load_node_from_path, load_something, load_something_to_node, load_threaded,
    load_threaded_something_to_node, load_threaded_to_node, loaded_something, object_instance,
    object_to_node, path_instance, path_packed_scene, resource_instance, resource_to_node,
    something_instance, something_to_node, threaded_instance, threaded_packed_scene, Argument,
    CacheMode, LoadError, LoadFuture, LoadNodeError, LoadNodeFromPathError, LoadPoller, LoadResult,
    LoadStatus, MainLoop, NodeSource, ObjectId, ObjectInfo, ObjectSource, ObjectToNodeError,
    PathRequest, PollerStep, ResourceToNodeError, ThreadedLoad, ThreadedLoadError,
    ThreadedNodeLoadError, ThreadedRequest, ThreadedSource,
};
use crate::tree::{NodeId, ProcessMode, TreeAction};

verus! {

/// A background load is under way if and only if the resource exists and there is a scene tree. It
/// is of what was requested; the poller asks for the same path and goes under the tree's root. Else
/// the error is the first thing that is missing: the resource, the main loop, a scene tree.
pub proof fn law_load_threaded(
    request: ThreadedRequest,
    exists_there: bool,
    main_loop: MainLoop,
    load: Result<ThreadedLoad, ThreadedLoadError>,
)
    requires
        call_ensures(load_threaded, (request, exists_there, main_loop), load),
    ensures
        load is Ok <==> exists_there && main_loop is SceneTree,
        load is Ok ==> {
            &&& load->Ok_0.request == request
            &&& load->Ok_0.poller.state is Ready
            &&& load->Ok_0.poller.state->path == request.path
            &&& load->Ok_0.poller_parent == main_loop->root
        },
        !exists_there ==> load->Err_0 == ThreadedLoadError::MissingResource(request.path),
        exists_there && main_loop is Missing ==> load->Err_0 is NoTree,
        exists_there && main_loop is Other ==> load->Err_0 is UnrecognizedTree,
{
}

/// Requests ask for the path, with the cache mode and the threads, that they were made with. Those
/// for a node ask for a packed scene; the other one for what it was told.
pub proof fn law_requests(
    path: String,
    cache_mode: CacheMode,
    use_sub_threads: bool,
    type_hint: Option<String>,
    threaded: ThreadedRequest,
    plain: PathRequest,
    node: PathRequest,
)
    requires
        call_ensures(load_threaded_to_node, (path, cache_mode, use_sub_threads), threaded),
        call_ensures(load_from_path, (path, cache_mode, type_hint), plain),
        call_ensures(load_node_from_path, (path, cache_mode), node),
    ensures
        threaded.path == path && plain.path == path && node.path == path,
        threaded.cache_mode == cache_mode && plain.cache_mode == cache_mode && node.cache_mode
            == cache_mode,
        threaded.use_sub_threads == use_sub_threads,
        plain.type_hint == type_hint,
        threaded.type_hint is Some && threaded.type_hint->0@ == "PackedScene"@,
        node.type_hint is Some && node.type_hint->0@ == "PackedScene"@,
{
}

/// What was loaded can become a node, by an instance of it, if and only if it is a packed scene;
/// this holds alike of resources, of what a path led to and of background loads. Each error names
/// what was loaded, or is the error of the load.
pub proof fn law_loaded_resources<Value>(
    resource: ObjectInfo,
    plain: Result<ObjectId, ResourceToNodeError>,
    loaded: Option<ObjectInfo>,
    of_path: Result<ObjectId, LoadNodeFromPathError<Value>>,
    result: LoadResult,
    threaded: Result<ObjectId, ThreadedNodeLoadError<Value>>,
)
    requires
        call_ensures(resource_to_node, (resource,), plain),
        call_ensures(path_packed_scene::<Value>, (loaded,), of_path),
        call_ensures(threaded_packed_scene::<Value>, (result,), threaded),
    ensures
        plain is Ok <==> resource.class is PackedScene,
        plain is Ok ==> plain->Ok_0 == resource.id,
        plain is Err ==> plain->Err_0 == ResourceToNodeError::UnrecognizedType(resource.id),
        of_path is Ok <==> loaded is Some && loaded->0.class is PackedScene,
        of_path is Ok ==> of_path->Ok_0 == loaded->0.id,
        loaded is None ==> of_path->Err_0 is Load && of_path->Err_0->Load_0 is Unknown,
        loaded is Some && of_path is Err ==> of_path->Err_0 == LoadNodeFromPathError::<
            Value,
        >::Resource(ResourceToNodeError::UnrecognizedType(loaded->0.id)),
        threaded is Ok <==> result is Ok && result->Ok_0.class is PackedScene,
        threaded is Ok ==> threaded->Ok_0 == result->Ok_0.id,
        result is Err ==> threaded->Err_0 == ThreadedNodeLoadError::<Value>::Load(result->Err_0),
        result is Ok && threaded is Err ==> threaded->Err_0 == ThreadedNodeLoadError::<
            Value,
        >::NotAPackedScene(result->Ok_0.id),
{
}

/// The instance of a packed scene is the node that comes out, however the scene was come by; where
/// there is none, the error names the scene.
pub proof fn law_instances<Value>(
    scene: ObjectId,
    instance: Option<NodeId>,
    of_object: Result<NodeId, ObjectToNodeError>,
    of_resource: Result<NodeId, ResourceToNodeError>,
    of_path: Result<NodeId, LoadNodeFromPathError<Value>>,
    of_value: Result<NodeId, LoadNodeError<Value>>,
    threaded: Result<NodeId, ThreadedNodeLoadError<Value>>,
)
    requires
        call_ensures(object_instance, (scene, instance), of_object),
        call_ensures(resource_instance, (scene, instance), of_resource),
        call_ensures(path_instance::<Value>, (scene, instance), of_path),
        call_ensures(something_instance::<Value>, (scene, instance), of_value),
        call_ensures(threaded_instance::<Value>, (scene, instance), threaded),
    ensures
        instance is Some <==> of_object is Ok,
        instance is Some <==> of_resource is Ok,
        instance is Some <==> of_path is Ok,
        instance is Some <==> of_value is Ok,
        instance is Some <==> threaded is Ok,
        instance is Some ==> of_object->Ok_0 == instance->0 && of_resource->Ok_0 == instance->0
            && of_path->Ok_0 == instance->0 && of_value->Ok_0 == instance->0 && threaded->Ok_0
            == instance->0,
        instance is None ==> {
            &&& of_object->Err_0 == ObjectToNodeError::CouldNotInstantiate(scene)
            &&& of_resource->Err_0 == ResourceToNodeError::CouldNotInstantiate(scene)
            &&& of_path->Err_0 == LoadNodeFromPathError::<Value>::Resource(of_resource->Err_0)
            &&& of_value->Err_0 == LoadNodeError::<Value>::Object(of_object->Err_0)
            &&& threaded->Err_0 == ThreadedNodeLoadError::<Value>::Object(of_object->Err_0)
        },
{
}

/// An object becomes a node if and only if it is one or is a packed scene: as itself, or by an
/// instance. So does what a value led to, and so does an object in the background.
pub proof fn law_objects_become_nodes<Value>(
    object: ObjectInfo,
    cache_mode: CacheMode,
    use_sub_threads: bool,
    direct: Result<NodeSource, ObjectToNodeError>,
    of_value: Result<NodeSource, LoadNodeError<Value>>,
    of_nothing: Result<NodeSource, LoadNodeError<Value>>,
    threaded: Result<ThreadedSource, ThreadedNodeLoadError<Value>>,
)
    requires
        call_ensures(object_to_node, (object,), direct),
        call_ensures(something_to_node::<Value>, (Some(object),), of_value),
        call_ensures(something_to_node::<Value>, (None::<ObjectInfo>,), of_nothing),
        call_ensures(
            load_threaded_something_to_node::<Value>,
            (Argument::<Value>::Object(object), cache_mode, use_sub_threads),
            threaded,
        ),
    ensures
        direct is Ok <==> object.class is Node || object.class is PackedScene,
        object.class is Node ==> direct->Ok_0 == NodeSource::Node(object.id) && threaded->Ok_0
            == ThreadedSource::Node(object.id),
        object.class is PackedScene ==> direct->Ok_0 == NodeSource::Instantiate(object.id)
            && threaded->Ok_0 == ThreadedSource::Instantiate(object.id),
        direct is Err ==> direct->Err_0 == ObjectToNodeError::UnrecognizedType(object.id),
        of_value is Ok <==> direct is Ok,
        threaded is Ok <==> direct is Ok,
        direct is Ok ==> of_value->Ok_0 == direct->Ok_0,
        direct is Err ==> of_value->Err_0 == LoadNodeError::<Value>::Object(direct->Err_0)
            && threaded->Err_0 == ThreadedNodeLoadError::<Value>::Object(direct->Err_0),
        of_nothing is Err && of_nothing->Err_0 is Load && of_nothing->Err_0->Load_0 is Unknown,
{
}

/// A value leads to an object if and only if it is a path or an object: a path to what is to be
/// loaded, with what it was asked with, an object to itself. Nothing, and any other value, leads
/// nowhere.
pub proof fn law_load_something<Value>(
    arg: Argument<Value>,
    cache_mode: CacheMode,
    type_hint: Option<String>,
    source: Result<ObjectSource, LoadError<Value>>,
    for_node: Result<ObjectSource, LoadNodeError<Value>>,
)
    requires
        call_ensures(load_something::<Value>, (arg, cache_mode, type_hint), source),
        call_ensures(load_something_to_node::<Value>, (arg, cache_mode), for_node),
    ensures
        source is Ok <==> arg is Text || arg is Name || arg is Object,
        for_node is Ok <==> source is Ok,
        arg is Object ==> source->Ok_0 == ObjectSource::Object(arg->Object_0) && for_node->Ok_0
            == source->Ok_0,
        arg is Text || arg is Name ==> {
            let path = if arg is Text {
                arg->Text_0
            } else {
                arg->Name_0
            };
            &&& source->Ok_0 is Load && for_node->Ok_0 is Load
            &&& source->Ok_0->Load_0.path == path && for_node->Ok_0->Load_0.path == path
            &&& source->Ok_0->Load_0.cache_mode == cache_mode && for_node->Ok_0->Load_0.cache_mode
                == cache_mode
            &&& source->Ok_0->Load_0.type_hint == type_hint
            &&& for_node->Ok_0->Load_0.type_hint is Some
            &&& for_node->Ok_0->Load_0.type_hint->0@ == "PackedScene"@
        },
        arg is Nil ==> source->Err_0 is NullArgument,
        arg is Other ==> source->Err_0 == LoadError::UnrecognizedArgument(arg->Other_0),
        source is Err ==> for_node->Err_0 == LoadNodeError::Load(source->Err_0),
{
}

/// In the background, a value that is a path is to be loaded as a packed scene, with what it was
/// asked with; nothing, and a value that is no path or object, are refused.
pub proof fn law_threaded_values<Value>(
    arg: Argument<Value>,
    cache_mode: CacheMode,
    use_sub_threads: bool,
    source: Result<ThreadedSource, ThreadedNodeLoadError<Value>>,
)
    requires
        call_ensures(
            load_threaded_something_to_node::<Value>,
            (arg, cache_mode, use_sub_threads),
            source,
        ),
    ensures
        arg is Text || arg is Name ==> {
            let path = if arg is Text {
                arg->Text_0
            } else {
                arg->Name_0
            };
            &&& source is Ok && source->Ok_0 is Load
            &&& source->Ok_0->Load_0.path == path
            &&& source->Ok_0->Load_0.cache_mode == cache_mode
            &&& source->Ok_0->Load_0.use_sub_threads == use_sub_threads
            &&& source->Ok_0->Load_0.type_hint is Some
            &&& source->Ok_0->Load_0.type_hint->0@ == "PackedScene"@
        },
        arg is Nil ==> source is Err && source->Err_0 is NullArgument,
        arg is Other ==> source is Err && source->Err_0
            == ThreadedNodeLoadError::UnrecognizedArgument(arg->Other_0),
{
}

/// What a value led to is passed on, and its absence is an error.
pub proof fn law_loaded_something<Value>(
    loaded: Option<ObjectInfo>,
    object: Result<ObjectInfo, LoadError<Value>>,
)
    requires
        call_ensures(loaded_something::<Value>, (loaded,), object),
    ensures
        object is Ok <==> loaded is Some,
        object is Ok ==> object->Ok_0 == loaded->0,
        object is Err ==> object->Err_0 is Unknown,
{
}

/// A poller that was not told what to ask for does nothing. Any other waits while its load is in
/// progress, collects what was loaded once it is, and fails on every other status, each with its own
/// error.
pub proof fn law_poller(poller: &LoadPoller, path: Option<&String>, status: LoadStatus, step: PollerStep)
    requires
        call_ensures(LoadPoller::path, (poller,), path),
        call_ensures(LoadPoller::process, (poller, status), step),
    ensures
        path is None <==> poller.state is Initializing,
        path is Some ==> *path->0 == poller.state->path,
        step is NotInitialized <==> path is None,
        path is Some ==> {
            &&& step is Wait <==> status is InProgress
            &&& step is Collect <==> status is Loaded
            &&& status is Failed ==> step == PollerStep::Fail(ThreadedLoadError::Failed)
            &&& status is InvalidResource ==> step == PollerStep::Fail(
                ThreadedLoadError::InvalidResource,
            )
            &&& status is Unrecognized ==> step == PollerStep::Fail(
                ThreadedLoadError::UnrecognizedLoadStatus(status),
            )
        },
{
}

/// A new poller was not told what to ask for, and it is processed whatever is paused. What it
/// collects is what the loader hands out; that it hands out nothing is an error.
pub proof fn law_poller_life(
    poller: LoadPoller,
    node: NodeId,
    action: TreeAction,
    resource: Option<ObjectInfo>,
    result: LoadResult,
)
    requires
        call_ensures(LoadPoller::init, (), poller),
        call_ensures(LoadPoller::enter_tree, (node,), action),
        call_ensures(LoadPoller::collected, (resource,), result),
    ensures
        poller.state is Initializing,
        action == (TreeAction::SetProcessMode { node, mode: ProcessMode::Always }),
        result is Ok <==> resource is Some,
        result is Ok ==> result->Ok_0 == resource->0,
        result is Err ==> result->Err_0 is ResultMissing,
{
}

/// Who asks for the result of a load before it is there gets nothing and is the one to be woken when
/// it is; who asks then gets it, and who asks again gets nothing.
pub proof fn law_load_future<Waker>(
    fresh: LoadFuture<Waker>,
    early: &mut LoadFuture<Waker>,
    first: Waker,
    nothing: Option<LoadResult>,
    finishing: &mut LoadFuture<Waker>,
    result: LoadResult,
    woken: Option<Waker>,
    late: &mut LoadFuture<Waker>,
    second: Waker,
    got: Option<LoadResult>,
    again: &mut LoadFuture<Waker>,
    third: Waker,
    empty: Option<LoadResult>,
)
    requires
        call_ensures(LoadFuture::<Waker>::new, (), fresh),
        *old(early) == fresh,
        call_ensures(LoadFuture::<Waker>::poll, (early, first), nothing),
        *old(finishing) == *final(early),
        call_ensures(LoadFuture::<Waker>::finish, (finishing, result), woken),
        *old(late) == *final(finishing),
        call_ensures(LoadFuture::<Waker>::poll, (late, second), got),
        *old(again) == *final(late),
        call_ensures(LoadFuture::<Waker>::poll, (again, third), empty),
    ensures
        nothing is None,
        woken == Some(first),
        got == Some(result),
        empty is None,
        final(again)@.waker == Some(third),
{
}

/// Of several who wait for a load, the last one who asked is woken; a load that nobody waits for
/// wakes nobody. Finishing keeps the newest result.
pub proof fn law_load_future_states<Waker>(
    future: &mut LoadFuture<Waker>,
    waker: Waker,
    ready: Option<LoadResult>,
    finishing: &mut LoadFuture<Waker>,
    result: LoadResult,
    woken: Option<Waker>,
)
    requires
        call_ensures(LoadFuture::<Waker>::poll, (future, waker), ready),
        call_ensures(LoadFuture::<Waker>::finish, (finishing, result), woken),
    ensures
        ready == old(future)@.result,
        final(future)@.result is None,
        ready is None ==> final(future)@.waker == Some(waker),
        ready is Some ==> final(future)@.waker == old(future)@.waker,
        woken == old(finishing)@.waker,
        final(finishing)@.waker is None,
        final(finishing)@.result == Some(result),
{
}

/// An error becomes the error of a larger piece of work without a change.
pub proof fn law_errors_are_kept<Value>(
    load: ThreadedLoadError,
    object: ObjectToNodeError,
    value: LoadError<Value>,
    resource: ResourceToNodeError,
    a: ThreadedNodeLoadError<Value>,
    b: ThreadedNodeLoadError<Value>,
    c: LoadNodeError<Value>,
    d: LoadNodeError<Value>,
    e: LoadNodeFromPathError<Value>,
    f: LoadNodeFromPathError<Value>,
)
    requires
        call_ensures(
            <ThreadedNodeLoadError<Value> as From<ThreadedLoadError>>::from,
            (load,),
            a,
        ),
        call_ensures(
            <ThreadedNodeLoadError<Value> as From<ObjectToNodeError>>::from,
            (object,),
            b,
        ),
        call_ensures(<LoadNodeError<Value> as From<LoadError<Value>>>::from, (value,), c),
        call_ensures(<LoadNodeError<Value> as From<ObjectToNodeError>>::from, (object,), d),
        call_ensures(<LoadNodeFromPathError<Value> as From<LoadError<Value>>>::from, (value,), e),
        call_ensures(
            <LoadNodeFromPathError<Value> as From<ResourceToNodeError>>::from,
            (resource,),
            f,
        ),
    ensures
        a == ThreadedNodeLoadError::<Value>::Load(load),
        b == ThreadedNodeLoadError::<Value>::Object(object),
        c == LoadNodeError::Load(value),
        d == LoadNodeError::<Value>::Object(object),
        e == LoadNodeFromPathError::Load(value),
        f == LoadNodeFromPathError::<Value>::Resource(resource),
{
}

} // verus!
