use scene_manager::resource::{
    load_from_path, load_node_from_path, load_something, load_something_to_node, load_threaded,
    load_threaded_something_to_node, load_threaded_to_node, loaded_something, object_instance,
    object_to_node, path_instance, path_packed_scene, resource_instance, resource_to_node,
    something_instance, something_to_node, threaded_instance, threaded_packed_scene, Argument,
    CacheMode, LoadError, LoadNodeError, LoadNodeFromPathError, LoadStatus, MainLoop, NodeSource,
    ObjectClass, ObjectInfo, ObjectSource, ObjectToNodeError, PollerState, ResourceToNodeError,
    ThreadedLoadError, ThreadedNodeLoadError, ThreadedRequest, ThreadedSource,
};

const PATH: &str = "res://next.tscn";

fn request() -> ThreadedRequest {
    load_threaded_to_node(PATH.to_string(), CacheMode::Replace, true)
}

fn object(class: ObjectClass) -> ObjectInfo {
    ObjectInfo { id: 5, class }
}

#[test]
fn background_load_of_a_node() {
    let asked = request();
    assert_eq!(asked.path, PATH);
    assert_eq!(asked.type_hint, Some("PackedScene".to_string()));
    assert_eq!(asked.cache_mode, CacheMode::Replace);
    assert!(asked.use_sub_threads);
    let load = load_threaded(asked, true, MainLoop::SceneTree { root: 3 }).unwrap();
    assert_eq!(load.poller_parent, 3);
    assert_eq!(load.request.path, PATH);
    assert!(matches!(load.poller.state, PollerState::Ready { path } if path == PATH));
}

#[test]
fn background_load_errors() {
    let missing = load_threaded(request(), false, MainLoop::Missing).unwrap_err();
    assert_eq!(
        missing.message(""),
        "could not find a resource at the given path: res://next.tscn"
    );
    let no_tree = load_threaded(request(), true, MainLoop::Missing).unwrap_err();
    assert_eq!(no_tree.message(""), "could not find scene tree");
    let other = load_threaded(request(), true, MainLoop::Other).unwrap_err();
    assert_eq!(other.message(""), "found scene tree, but it was of an unrecognized type");
    assert_eq!(
        ThreadedLoadError::ResultMissing.message(""),
        "load_threaded_get_status returned LOADED, but load_threaded_get returned nothing"
    );
    assert_eq!(
        ThreadedLoadError::Failed.message(""),
        "unknown error occurred during loading (ResourceLoader.load_threaded_get_status does not return error information)"
    );
    assert_eq!(
        ThreadedLoadError::InvalidResource.message(""),
        "the requested resource is invalid"
    );
    assert_eq!(
        ThreadedLoadError::UnrecognizedLoadStatus(LoadStatus::Unrecognized(9)).message("9"),
        "unrecognized load status: 9"
    );
}

#[test]
fn background_load_becomes_a_node() {
    assert!(matches!(
        threaded_packed_scene::<u8>(Ok(object(ObjectClass::PackedScene))),
        Ok(5)
    ));
    let other = threaded_packed_scene::<u8>(Ok(object(ObjectClass::Other))).unwrap_err();
    assert_eq!(other.message("R"), "the loaded resource was not a PackedScene: R");
    assert!(matches!(other, ThreadedNodeLoadError::NotAPackedScene(5)));
    let failed = threaded_packed_scene::<u8>(Err(ThreadedLoadError::NoTree)).unwrap_err();
    assert_eq!(failed.message(""), "could not find scene tree");
    assert!(matches!(threaded_instance::<u8>(5, Some(6)), Ok(6)));
    let broken = threaded_instance::<u8>(5, None).unwrap_err();
    assert_eq!(broken.message("S"), "could not instantiate Node from S");
    assert!(matches!(
        broken,
        ThreadedNodeLoadError::Object(ObjectToNodeError::CouldNotInstantiate(5))
    ));
}

#[test]
fn load_from_a_path() {
    let asked = load_from_path(PATH.to_string(), CacheMode::Ignore, None);
    assert_eq!(asked.path, PATH);
    assert_eq!(asked.cache_mode, CacheMode::Ignore);
    assert_eq!(asked.type_hint, None);
    let asked = load_node_from_path(PATH.to_string(), CacheMode::Reuse);
    assert_eq!(asked.path, PATH);
    assert_eq!(asked.cache_mode, CacheMode::Reuse);
    assert_eq!(asked.type_hint, Some("PackedScene".to_string()));
    assert!(matches!(path_packed_scene::<u8>(Some(object(ObjectClass::PackedScene))), Ok(5)));
    assert!(matches!(
        path_packed_scene::<u8>(None),
        Err(LoadNodeFromPathError::Load(LoadError::Unknown))
    ));
    let other = path_packed_scene::<u8>(Some(object(ObjectClass::Node))).unwrap_err();
    assert_eq!(other.message("R"), "expected PackedScene, found R");
    assert!(matches!(path_instance::<u8>(5, Some(6)), Ok(6)));
    let broken = path_instance::<u8>(5, None).unwrap_err();
    assert_eq!(broken.message("S"), "could not instantiate Node from S");
}

#[test]
fn resources_become_nodes() {
    assert_eq!(resource_to_node(object(ObjectClass::PackedScene)), Ok(5));
    assert_eq!(
        resource_to_node(object(ObjectClass::Other)),
        Err(ResourceToNodeError::UnrecognizedType(5))
    );
    assert_eq!(resource_instance(5, Some(6)), Ok(6));
    assert_eq!(resource_instance(5, None), Err(ResourceToNodeError::CouldNotInstantiate(5)));
}

#[test]
fn objects_become_nodes() {
    assert_eq!(object_to_node(object(ObjectClass::Node)), Ok(NodeSource::Node(5)));
    assert_eq!(object_to_node(object(ObjectClass::PackedScene)), Ok(NodeSource::Instantiate(5)));
    let other = object_to_node(object(ObjectClass::Other)).unwrap_err();
    assert_eq!(other, ObjectToNodeError::UnrecognizedType(5));
    assert_eq!(other.message("O"), "expected Node or PackedScene, found O");
    assert_eq!(object_instance(5, Some(6)), Ok(6));
    assert_eq!(object_instance(5, None), Err(ObjectToNodeError::CouldNotInstantiate(5)));
}

#[test]
fn values_become_objects() {
    for argument in [Argument::<u8>::Text(PATH.to_string()), Argument::Name(PATH.to_string())] {
        match load_something(argument, CacheMode::Reuse, Some("Mesh".to_string())) {
            Ok(ObjectSource::Load(asked)) => {
                assert_eq!(asked.path, PATH);
                assert_eq!(asked.cache_mode, CacheMode::Reuse);
                assert_eq!(asked.type_hint, Some("Mesh".to_string()));
            }
            _ => panic!("must load"),
        }
    }
    let given = object(ObjectClass::Other);
    assert!(matches!(
        load_something(Argument::<u8>::Object(given), CacheMode::Reuse, None),
        Ok(ObjectSource::Object(o)) if o == given
    ));
    let null = load_something(Argument::<u8>::Nil, CacheMode::Reuse, None).unwrap_err();
    assert_eq!(null.message(""), "null argument");
    let odd = load_something(Argument::Other(7u8), CacheMode::Reuse, None).unwrap_err();
    assert_eq!(odd.message("7"), "unrecognized argument: 7");
    assert!(matches!(odd, LoadError::UnrecognizedArgument(7)));
    assert!(matches!(loaded_something::<u8>(Some(given)), Ok(o) if o == given));
    assert!(matches!(loaded_something::<u8>(None), Err(LoadError::Unknown)));
}

#[test]
fn values_become_nodes() {
    match load_something_to_node(Argument::<u8>::Text(PATH.to_string()), CacheMode::Reuse) {
        Ok(ObjectSource::Load(asked)) => {
            assert_eq!(asked.type_hint, Some("PackedScene".to_string()))
        }
        _ => panic!("must load"),
    }
    assert!(matches!(
        load_something_to_node(Argument::Other(7u8), CacheMode::Reuse),
        Err(LoadNodeError::Load(LoadError::UnrecognizedArgument(7)))
    ));
    assert!(matches!(
        something_to_node::<u8>(Some(object(ObjectClass::Node))),
        Ok(NodeSource::Node(5))
    ));
    let nothing = something_to_node::<u8>(None).unwrap_err();
    assert_eq!(
        nothing.message(""),
        "unknown error occurred during loading (ResourceLoader.load does not return error information)"
    );
    let other = something_to_node::<u8>(Some(object(ObjectClass::Other))).unwrap_err();
    assert_eq!(other.message("O"), "expected Node or PackedScene, found O");
    assert!(matches!(something_instance::<u8>(5, Some(6)), Ok(6)));
    assert!(matches!(
        something_instance::<u8>(5, None),
        Err(LoadNodeError::Object(ObjectToNodeError::CouldNotInstantiate(5)))
    ));
}

#[test]
fn values_become_nodes_in_the_background() {
    for argument in [Argument::<u8>::Text(PATH.to_string()), Argument::Name(PATH.to_string())] {
        match load_threaded_something_to_node(argument, CacheMode::IgnoreDeep, true) {
            Ok(ThreadedSource::Load(asked)) => {
                assert_eq!(asked.path, PATH);
                assert_eq!(asked.cache_mode, CacheMode::IgnoreDeep);
                assert!(asked.use_sub_threads);
            }
            _ => panic!("must load"),
        }
    }
    let other = Argument::<u8>::Object(object(ObjectClass::Other));
    assert!(matches!(
        load_threaded_something_to_node(other, CacheMode::Reuse, false),
        Err(ThreadedNodeLoadError::Object(ObjectToNodeError::UnrecognizedType(5)))
    ));
    let null = load_threaded_something_to_node(Argument::<u8>::Nil, CacheMode::Reuse, false);
    assert_eq!(null.unwrap_err().message(""), "null argument");
    let odd = load_threaded_something_to_node(Argument::Other(7u8), CacheMode::Reuse, false);
    assert_eq!(odd.unwrap_err().message("7"), "unrecognized argument: 7");
}
