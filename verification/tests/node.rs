use scene_manager::manager::gd_api::{
    get_parent_method, GetRootSceneError, ParentReply, PendingSwap, SceneManagerNode,
    SceneManagerState,
};
use scene_manager::manager::transition::{OldScene, SceneTransitionStartError, StartingTransition};
use scene_manager::manager::SceneManager;
use scene_manager::resource::{
    Argument, CacheMode, LoadError, LoadNodeFromPathError, ObjectClass, ObjectInfo, ObjectSource,
    ThreadedNodeLoadError, ThreadedSource,
};
use scene_manager::tree::{NodeSnapshot, ProcessMode, TreeAction};

const ROOT: i64 = 1;

fn node(id: i64) -> NodeSnapshot {
    NodeSnapshot { id, has_parent: false, process_mode: ProcessMode::Inherit }
}

fn ready_with(scenes: &[i64]) -> SceneManagerNode {
    let mut ready =
        SceneManagerNode { state: SceneManagerState::Ready { manager: SceneManager::new(ROOT, None) } };
    let mut actions = Vec::new();
    for scene in scenes {
        assert!(ready.push_scene_immediate(node(*scene), ProcessMode::Inherit, &mut actions));
    }
    ready
}

#[test]
fn node_pushes_and_reads() {
    let mut ready = ready_with(&[]);
    let mut actions = Vec::new();
    assert_eq!(ready.get_current_scene(), None);
    assert!(ready.push_scene_immediate(node(10), ProcessMode::Inherit, &mut actions));
    ready.push_scene(node(11), ProcessMode::Inherit, &mut actions);
    assert_eq!(ready.get_current_scene(), Some(11));
    assert_eq!(ready.get_scene_parent(), ROOT);
    assert_eq!(ready.manager().len(), 2);
    assert_eq!(ready.manager_mut().current_scene(), Some(11));
    actions.clear();
    let taken = NodeSnapshot { id: 12, has_parent: true, process_mode: ProcessMode::Inherit };
    assert!(!ready.push_scene_immediate(taken, ProcessMode::Inherit, &mut actions));
    ready.push_scene(taken, ProcessMode::Inherit, &mut actions);
    assert!(actions.is_empty());
    assert_eq!(ready.manager().len(), 2);
}

#[test]
fn popped_is_emitted_for_the_top_only() {
    // of `[A, B]`, removing `A` is silent
    let mut ready = ready_with(&[10, 11]);
    let mut actions = Vec::new();
    assert_eq!(ready.remove_scene_immediate(10, &mut actions), Some(10));
    assert!(!actions.iter().any(|action| matches!(action, TreeAction::EmitScenePopped { .. })));
    // of `[D, C]`, removing `C` is not
    let mut ready = ready_with(&[13, 12]);
    let mut actions = Vec::new();
    assert_eq!(ready.remove_scene_immediate(12, &mut actions), Some(12));
    assert_eq!(actions.last(), Some(&TreeAction::EmitScenePopped { scene: 12, index: 1 }));
}

#[test]
fn node_removes_and_frees() {
    let mut ready = ready_with(&[10, 11]);
    let mut actions = Vec::new();
    assert!(ready.remove_scene(10, &mut actions));
    assert_eq!(actions.last(), Some(&TreeAction::Free { node: 10 }));
    actions.clear();
    assert!(!ready.remove_scene(10, &mut actions));
    assert_eq!(ready.remove_scene_immediate(10, &mut actions), None);
    assert!(actions.is_empty());
    ready.pop_scene(&mut actions);
    assert_eq!(actions.last(), Some(&TreeAction::Free { node: 11 }));
    actions.clear();
    ready.pop_scene(&mut actions);
    assert_eq!(ready.pop_scene_immediate(&mut actions), None);
    assert!(actions.is_empty());
}

#[test]
fn swap_replaces_the_top() {
    let mut ready = ready_with(&[10, 11]);
    let mut actions = Vec::new();
    let swap = ready.begin_swap(&mut actions);
    assert_eq!(swap, PendingSwap { old: Some(11) });
    assert_eq!(
        ready.swap_scene_immediate(swap, node(12), ProcessMode::Inherit, &mut actions),
        Some(11)
    );
    assert_eq!(ready.get_current_scene(), Some(12));
    assert_eq!(ready.manager().len(), 2);
    assert_eq!(actions.last(), Some(&TreeAction::Free { node: 11 }));
    actions.clear();
    let swap = ready.begin_swap(&mut actions);
    ready.swap_scene(swap, node(13), ProcessMode::Inherit, &mut actions);
    assert_eq!(ready.get_current_scene(), Some(13));
    assert_eq!(actions.last(), Some(&TreeAction::Free { node: 12 }));
    let freed = actions.iter().filter(|action| matches!(action, TreeAction::Free { .. })).count();
    assert_eq!(freed, 1);
}

#[test]
fn swap_on_an_empty_stack_is_a_push() {
    let mut ready = ready_with(&[]);
    let mut actions = Vec::new();
    let swap = ready.begin_swap(&mut actions);
    assert!(actions.is_empty());
    assert_eq!(ready.swap_scene_immediate(swap, node(12), ProcessMode::Inherit, &mut actions), None);
    assert_eq!(ready.get_current_scene(), Some(12));
    assert!(!actions.iter().any(|action| matches!(action, TreeAction::Free { .. })));
}

#[test]
fn failed_swap_still_frees_the_old_scene() {
    let mut ready = ready_with(&[10]);
    let mut actions = Vec::new();
    let swap = ready.begin_swap(&mut actions);
    let taken = NodeSnapshot { id: 12, has_parent: true, process_mode: ProcessMode::Inherit };
    assert_eq!(
        ready.swap_scene_immediate(swap, taken, ProcessMode::Inherit, &mut actions),
        Some(10)
    );
    assert_eq!(ready.get_current_scene(), None);
    assert_eq!(actions.last(), Some(&TreeAction::Free { node: 10 }));
}

#[test]
fn node_starts_transitions() {
    let mut ready = ready_with(&[10]);
    let mut actions = Vec::new();
    let started: Result<StartingTransition<u8, u16>, SceneTransitionStartError<u8>> =
        ready.transition_scene(1, 2, node(20), ProcessMode::Inherit, &mut actions);
    assert_eq!(ready.get_current_scene(), Some(20));
    let (driver, hiding) = started.ok().unwrap().start_driver();
    assert_eq!(driver, 1);
    match hiding.driver_ready(driver, ready.manager()) {
        OldScene::Remove(removal) => assert_eq!(removal.scene(), 10),
        _ => panic!("must be removed"),
    }
}

#[test]
fn transition_targets() {
    for argument in [
        Argument::<u8>::Text("res://next.tscn".to_string()),
        Argument::<u8>::Name("res://next.tscn".to_string()),
    ] {
        match SceneManagerNode::transition_target(argument) {
            Ok(ThreadedSource::Load(request)) => {
                assert_eq!(request.path, "res://next.tscn");
                assert_eq!(request.type_hint, Some("PackedScene".to_string()));
                assert_eq!(request.cache_mode, CacheMode::Reuse);
                assert!(!request.use_sub_threads);
            }
            _ => panic!("must load"),
        }
    }
    let scene = Argument::<u8>::Object(ObjectInfo { id: 5, class: ObjectClass::PackedScene });
    assert!(matches!(
        SceneManagerNode::transition_target(scene),
        Ok(ThreadedSource::Instantiate(5))
    ));
    let next = Argument::<u8>::Object(ObjectInfo { id: 6, class: ObjectClass::Node });
    assert!(matches!(SceneManagerNode::transition_target(next), Ok(ThreadedSource::Node(6))));
    assert!(matches!(
        SceneManagerNode::transition_target(Argument::<u8>::Nil),
        Err(ThreadedNodeLoadError::NullArgument)
    ));
}

#[test]
fn loading_to_a_node() {
    match SceneManagerNode::load_to_node(Argument::<u8>::Name("res://a.tscn".to_string())) {
        Some(ObjectSource::Load(request)) => {
            assert_eq!(request.path, "res://a.tscn");
            assert_eq!(request.cache_mode, CacheMode::Reuse);
            assert_eq!(request.type_hint, Some("PackedScene".to_string()));
        }
        _ => panic!("must load"),
    }
    let given = ObjectInfo { id: 6, class: ObjectClass::Node };
    assert!(matches!(
        SceneManagerNode::load_to_node(Argument::<u8>::Object(given)),
        Some(ObjectSource::Object(object)) if object == given
    ));
    assert!(SceneManagerNode::load_to_node(Argument::<u8>::Nil).is_none());
    assert!(SceneManagerNode::load_to_node(Argument::Other(1u8)).is_none());
}

#[test]
fn root_scene_setting() {
    let missing = SceneManagerNode::get_root_scene::<u8, u8>(None).unwrap_err();
    assert_eq!(missing.message(""), "could not find scene_manager/runtime/root_scene setting");
    assert!(SceneManagerNode::reports_root_scene_error(&missing));
    let wrong = SceneManagerNode::get_root_scene::<u8, u8>(Some(Err(3))).unwrap_err();
    assert_eq!(
        wrong.message("not a name"),
        "could not convert scene_manager/runtime/root_scene to StringName: not a name"
    );
    assert!(matches!(wrong, GetRootSceneError::SettingIsNotStringName(3)));
    let unset = SceneManagerNode::get_root_scene::<u8, u8>(Some(Ok(String::new()))).unwrap_err();
    assert_eq!(unset.message(""), "scene_manager/runtime/root_scene is not set");
    assert!(!SceneManagerNode::reports_root_scene_error(&unset));
    let set = SceneManagerNode::get_root_scene::<u8, u8>(Some(Ok("res://root.tscn".to_string())));
    let request = set.unwrap();
    assert_eq!(request.path, "res://root.tscn");
    assert_eq!(request.cache_mode, CacheMode::Reuse);
    assert_eq!(request.type_hint, Some("PackedScene".to_string()));
    let failed: GetRootSceneError<u8, u8> =
        GetRootSceneError::Load(LoadNodeFromPathError::Load(LoadError::Unknown));
    assert_eq!(
        failed.message(""),
        "unknown error occurred during loading (ResourceLoader.load does not return error information)"
    );
}

#[test]
fn node_is_set_up_as_it_enters_the_tree() {
    let mut fresh = SceneManagerNode::init::<u8, u8>(Ok(40));
    assert!(!fresh.has_manager());
    assert_eq!(fresh.pending_root(ROOT), Some(40));
    fresh.enter_tree(ROOT, ParentReply::Node(41));
    assert!(fresh.has_manager());
    assert_eq!(fresh.manager().root(), 40);
    assert_eq!(fresh.get_scene_parent(), 41);
    assert_eq!(fresh.pending_root(ROOT), None);
    fresh.enter_tree(50, ParentReply::Node(51));
    assert_eq!(fresh.manager().root(), 40);
    assert_eq!(fresh.get_scene_parent(), 41);
    for reply in [ParentReply::NoMethod, ParentReply::Nil, ParentReply::NotANode] {
        let mut fresh =
            SceneManagerNode::init::<u8, u8>(Err(GetRootSceneError::SettingIsUnset));
        assert_eq!(fresh.pending_root(ROOT), Some(ROOT));
        fresh.enter_tree(ROOT, reply);
        assert_eq!(fresh.manager().root(), ROOT);
        assert_eq!(fresh.get_scene_parent(), ROOT);
    }
    assert_eq!(get_parent_method(), "get_scene_manager_parent");
}

#[test]
fn node_takes_the_tree_over() {
    let mut fresh = SceneManagerNode::init::<u8, u8>(Ok(40));
    fresh.enter_tree(ROOT, ParentReply::NoMethod);
    let mut actions = Vec::new();
    fresh.begin_deferred_ready(10, ROOT, ROOT, &mut actions);
    assert_eq!(
        actions,
        vec![
            TreeAction::RemoveChild { parent: ROOT, child: 10 },
            TreeAction::AddChild { parent: ROOT, child: 40 },
        ]
    );
    actions.clear();
    assert!(fresh.deferred_ready(node(10), ProcessMode::Inherit, &mut actions));
    assert_eq!(fresh.get_current_scene(), Some(10));
    assert!(actions.contains(&TreeAction::AddChild { parent: 40, child: 10 }));
    let unset = SceneManagerNode::init::<u8, u8>(Err(GetRootSceneError::SettingMissing));
    let mut plain = unset;
    plain.enter_tree(ROOT, ParentReply::NoMethod);
    actions.clear();
    plain.begin_deferred_ready(10, ROOT, ROOT, &mut actions);
    assert_eq!(actions, vec![TreeAction::RemoveChild { parent: ROOT, child: 10 }]);
    actions.clear();
    let taken = NodeSnapshot { id: 10, has_parent: true, process_mode: ProcessMode::Inherit };
    assert!(!plain.deferred_ready(taken, ProcessMode::Inherit, &mut actions));
    assert!(actions.is_empty());
}
