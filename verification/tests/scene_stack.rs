use scene_manager::manager::{InsertSceneError, PushSceneError, SceneManager};
use scene_manager::tree::{to_signal_index, NodeSnapshot, ProcessMode, TreeAction};

const ROOT: i64 = 1;
const PARENT: i64 = 2;

fn node(id: i64) -> NodeSnapshot {
    NodeSnapshot { id, has_parent: false, process_mode: ProcessMode::Inherit }
}

fn manager_with(scenes: &[i64]) -> SceneManager {
    let mut manager = SceneManager::new(ROOT, Some(PARENT));
    let mut actions = Vec::new();
    for scene in scenes {
        assert!(manager.push_scene(node(*scene), ProcessMode::Inherit, &mut actions).is_ok());
    }
    manager
}

#[test]
fn new_manager_uses_root_as_parent_by_default() {
    let manager = SceneManager::new(ROOT, None);
    assert_eq!(manager.root(), ROOT);
    assert_eq!(manager.scene_parent(), ROOT);
    assert_eq!(manager.len(), 0);
    assert!(manager.is_empty());
    assert_eq!(manager.current_scene(), None);
    let manager = SceneManager::new(ROOT, Some(PARENT));
    assert_eq!(manager.root(), ROOT);
    assert_eq!(manager.scene_parent(), PARENT);
}

#[test]
fn push_onto_empty_stack() {
    let mut manager = SceneManager::new(ROOT, Some(PARENT));
    let mut actions = Vec::new();
    assert_eq!(manager.push_scene(node(10), ProcessMode::Inherit, &mut actions), Ok(0));
    assert_eq!(
        actions,
        vec![
            TreeAction::ConnectTreeExiting { scene: 10 },
            TreeAction::AddChild { parent: PARENT, child: 10 },
            TreeAction::EmitScenePushed { scene: 10, index: 0 },
        ]
    );
    assert_eq!(manager.current_scene(), Some(10));
    assert!(!manager.is_empty());
}

#[test]
fn push_pauses_the_scene_below() {
    let mut manager = manager_with(&[10]);
    let mut actions = Vec::new();
    assert_eq!(manager.push_scene(node(11), ProcessMode::Always, &mut actions), Ok(1));
    assert_eq!(
        actions,
        vec![
            TreeAction::SetProcessMode { node: 10, mode: ProcessMode::Disabled },
            TreeAction::ConnectTreeExiting { scene: 11 },
            TreeAction::AddChild { parent: PARENT, child: 11 },
            TreeAction::EmitScenePushed { scene: 11, index: 1 },
        ]
    );
    assert_eq!(manager.len(), 2);
}

#[test]
fn push_refuses_a_scene_with_a_parent() {
    let mut manager = manager_with(&[10]);
    let mut actions = Vec::new();
    let taken = NodeSnapshot { id: 11, has_parent: true, process_mode: ProcessMode::Inherit };
    let error = manager.push_scene(taken, ProcessMode::Inherit, &mut actions).unwrap_err();
    assert_eq!(error, PushSceneError::SceneAlreadyHasParent(11));
    assert_eq!(error.message("<Node#11>"), "scene (<Node#11>) already has a parent node");
    assert!(actions.is_empty());
    assert_eq!(manager.len(), 1);
}

#[test]
fn pushing_the_topmost_scene_again_remembers_that_it_is_disabled() {
    let mut manager = manager_with(&[10]);
    let mut actions = Vec::new();
    assert_eq!(manager.push_scene(node(10), ProcessMode::Inherit, &mut actions), Ok(1));
    actions.clear();
    assert_eq!(manager.pop_scene(&mut actions), Some(10));
    assert_eq!(actions[0], TreeAction::SetProcessMode { node: 10, mode: ProcessMode::Disabled });
    assert_eq!(actions[3], TreeAction::SetProcessMode { node: 10, mode: ProcessMode::Inherit });
}

#[test]
fn pop_resumes_the_scene_below() {
    let mut manager = manager_with(&[10]);
    let mut actions = Vec::new();
    let pushed = NodeSnapshot { id: 11, has_parent: false, process_mode: ProcessMode::Pausable };
    assert_eq!(manager.push_scene(pushed, ProcessMode::WhenPaused, &mut actions), Ok(1));
    actions.clear();
    assert_eq!(manager.pop_scene(&mut actions), Some(11));
    assert_eq!(
        actions,
        vec![
            TreeAction::SetProcessMode { node: 11, mode: ProcessMode::Pausable },
            TreeAction::DisconnectTreeExiting { scene: 11 },
            TreeAction::RemoveChild { parent: PARENT, child: 11 },
            TreeAction::SetProcessMode { node: 10, mode: ProcessMode::WhenPaused },
            TreeAction::EmitScenePopped { scene: 11, index: 1 },
        ]
    );
    assert_eq!(manager.current_scene(), Some(10));
}

#[test]
fn pop_of_the_last_scene_and_of_nothing() {
    let mut manager = manager_with(&[10]);
    let mut actions = Vec::new();
    assert_eq!(manager.pop_scene(&mut actions), Some(10));
    assert_eq!(
        actions,
        vec![
            TreeAction::SetProcessMode { node: 10, mode: ProcessMode::Inherit },
            TreeAction::DisconnectTreeExiting { scene: 10 },
            TreeAction::RemoveChild { parent: PARENT, child: 10 },
            TreeAction::EmitScenePopped { scene: 10, index: 0 },
        ]
    );
    actions.clear();
    assert_eq!(manager.pop_scene(&mut actions), None);
    assert!(actions.is_empty());
}

#[test]
fn insert_at_the_bottom_goes_through_a_placeholder() {
    let mut manager = manager_with(&[10, 11]);
    let mut actions = Vec::new();
    assert_eq!(manager.insert_scene(0, node(12), ProcessMode::Inherit, &mut actions), Ok(()));
    assert_eq!(
        actions,
        vec![
            TreeAction::ConnectTreeExiting { scene: 12 },
            TreeAction::SetProcessMode { node: 12, mode: ProcessMode::Disabled },
            TreeAction::AddPlaceholder { parent: PARENT },
            TreeAction::MovePlaceholder { parent: PARENT, position: 0 },
            TreeAction::ReplacePlaceholder { node: 12 },
            TreeAction::FreePlaceholder,
        ]
    );
    assert_eq!(manager.index_of(12), Some(0));
    assert_eq!(manager.index_of(10), Some(1));
    assert_eq!(manager.index_of(11), Some(2));
}

#[test]
fn insert_in_the_middle_goes_behind_the_scene_below() {
    let mut manager = manager_with(&[10, 11]);
    let mut actions = Vec::new();
    assert_eq!(manager.insert_scene(1, node(12), ProcessMode::Inherit, &mut actions), Ok(()));
    assert_eq!(
        actions,
        vec![
            TreeAction::ConnectTreeExiting { scene: 12 },
            TreeAction::SetProcessMode { node: 12, mode: ProcessMode::Disabled },
            TreeAction::AddSibling { sibling: 10, node: 12 },
        ]
    );
    assert_eq!(manager.index_of(12), Some(1));
    assert_eq!(manager.current_scene(), Some(11));
}

#[test]
fn insert_at_the_top_is_a_push() {
    let mut manager = manager_with(&[10]);
    let mut actions = Vec::new();
    assert_eq!(manager.insert_scene(1, node(11), ProcessMode::Inherit, &mut actions), Ok(()));
    assert_eq!(actions.last(), Some(&TreeAction::EmitScenePushed { scene: 11, index: 1 }));
    let taken = NodeSnapshot { id: 12, has_parent: true, process_mode: ProcessMode::Inherit };
    actions.clear();
    let error = manager.insert_scene(2, taken, ProcessMode::Inherit, &mut actions).unwrap_err();
    assert_eq!(error, InsertSceneError::SceneAlreadyHasParent(12));
    assert_eq!(error.message("N"), "scene (N) already has a parent node");
    assert!(actions.is_empty());
}

#[test]
fn insert_of_a_scene_with_a_parent_is_refused() {
    let mut manager = manager_with(&[10, 11]);
    let mut actions = Vec::new();
    let taken = NodeSnapshot { id: 12, has_parent: true, process_mode: ProcessMode::Always };
    for index in 0..3 {
        assert_eq!(
            manager.insert_scene(index, taken, ProcessMode::Inherit, &mut actions),
            Err(InsertSceneError::SceneAlreadyHasParent(12))
        );
    }
    assert_eq!(
        manager.insert_scene(3, taken, ProcessMode::Inherit, &mut actions),
        Err(InsertSceneError::IndexOutOfBounds(3))
    );
    assert!(actions.is_empty());
    assert_eq!(manager.len(), 2);
    assert_eq!(manager.index_of(12), None);
}

#[test]
fn insert_out_of_bounds() {
    let mut manager = manager_with(&[10]);
    let mut actions = Vec::new();
    let error = manager.insert_scene(2, node(11), ProcessMode::Inherit, &mut actions).unwrap_err();
    assert_eq!(error, InsertSceneError::IndexOutOfBounds(2));
    assert_eq!(error.message(""), "index 2 out of bounds");
    assert_eq!(InsertSceneError::IndexOutOfBounds(1070).message(""), "index 1070 out of bounds");
    assert!(actions.is_empty());
    assert_eq!(manager.len(), 1);
}

#[test]
fn push_error_becomes_insert_error() {
    assert_eq!(
        InsertSceneError::from(PushSceneError::SceneAlreadyHasParent(3)),
        InsertSceneError::SceneAlreadyHasParent(3)
    );
}

#[test]
fn remove_below_the_top_is_silent() {
    let mut manager = manager_with(&[10, 11]);
    let mut actions = Vec::new();
    assert_eq!(manager.try_remove_scene_at(0, &mut actions), Some(10));
    assert_eq!(
        actions,
        vec![
            TreeAction::SetProcessMode { node: 10, mode: ProcessMode::Inherit },
            TreeAction::DisconnectTreeExiting { scene: 10 },
            TreeAction::RemoveChild { parent: PARENT, child: 10 },
        ]
    );
    assert_eq!(manager.current_scene(), Some(11));
}

#[test]
fn remove_at_the_top_is_a_pop() {
    let mut manager = manager_with(&[10, 11]);
    let mut actions = Vec::new();
    assert_eq!(manager.try_remove_scene(11, &mut actions), Some((11, 1)));
    assert_eq!(actions.last(), Some(&TreeAction::EmitScenePopped { scene: 11, index: 1 }));
    actions.clear();
    assert_eq!(manager.try_remove_scene(11, &mut actions), None);
    assert_eq!(manager.try_remove_scene_at(1, &mut actions), None);
    assert!(actions.is_empty());
}

#[test]
fn remove_takes_the_lowest_of_two_entries() {
    let mut manager = manager_with(&[10, 11]);
    let mut actions = Vec::new();
    assert_eq!(manager.insert_scene(0, node(11), ProcessMode::Inherit, &mut actions), Ok(()));
    assert_eq!(manager.index_of(11), Some(0));
    assert_eq!(manager.try_remove_scene(11, &mut actions), Some((11, 0)));
    assert_eq!(manager.index_of(11), Some(1));
}

#[test]
fn insert_then_remove_gives_the_stack_back() {
    let mut manager = manager_with(&[10, 11, 12]);
    let mut actions = Vec::new();
    assert_eq!(manager.insert_scene(1, node(13), ProcessMode::Inherit, &mut actions), Ok(()));
    assert_eq!(manager.try_remove_scene_at(1, &mut actions), Some(13));
    assert_eq!(manager.index_of(10), Some(0));
    assert_eq!(manager.index_of(11), Some(1));
    assert_eq!(manager.index_of(12), Some(2));
    assert_eq!(manager.len(), 3);
}

#[test]
fn scene_that_leaves_by_itself_is_dropped() {
    let mut manager = manager_with(&[10, 11]);
    let mut actions = Vec::new();
    assert!(manager.scene_exiting_tree(11, &mut actions));
    assert_eq!(
        actions,
        vec![
            TreeAction::SetProcessMode { node: 11, mode: ProcessMode::Inherit },
            TreeAction::DisconnectTreeExiting { scene: 11 },
        ]
    );
    assert_eq!(manager.current_scene(), Some(10));
    actions.clear();
    assert!(!manager.scene_exiting_tree(11, &mut actions));
    assert!(actions.is_empty());
}

#[test]
fn lower_scenes_stay_disabled() {
    // replays the actions on a table of process modes
    let mut manager = SceneManager::new(ROOT, None);
    let mut modes = vec![ProcessMode::Inherit; 10];
    let mut stack: Vec<i64> = Vec::new();
    let mut step = |manager: &mut SceneManager, stack: &Vec<i64>, actions: &Vec<TreeAction>| {
        for action in actions {
            if let TreeAction::SetProcessMode { node, mode } = action {
                modes[*node as usize] = *mode;
            }
        }
        assert_eq!(manager.len(), stack.len());
        for (i, scene) in stack.iter().enumerate() {
            assert_eq!(manager.index_of(*scene), Some(i));
            let expected =
                if i + 1 < stack.len() { ProcessMode::Disabled } else { ProcessMode::Inherit };
            assert_eq!(modes[*scene as usize], expected);
        }
    };
    for scene in [3, 4, 5] {
        let mut actions = Vec::new();
        assert!(manager.push_scene(node(scene), ProcessMode::Inherit, &mut actions).is_ok());
        stack.push(scene);
        step(&mut manager, &stack, &actions);
    }
    let mut actions = Vec::new();
    assert!(manager.insert_scene(1, node(6), ProcessMode::Inherit, &mut actions).is_ok());
    stack.insert(1, 6);
    step(&mut manager, &stack, &actions);
    actions.clear();
    assert_eq!(manager.try_remove_scene(4, &mut actions), Some((4, 2)));
    stack.remove(2);
    step(&mut manager, &stack, &actions);
    actions.clear();
    assert_eq!(manager.pop_scene(&mut actions), Some(5));
    stack.pop();
    step(&mut manager, &stack, &actions);
}

#[test]
fn signal_indices_saturate() {
    assert_eq!(to_signal_index(0), 0);
    assert_eq!(to_signal_index(u32::MAX as usize), u32::MAX);
    assert_eq!(to_signal_index(u32::MAX as usize + 7), u32::MAX);
}

fn follow(modes: &mut Vec<(i64, ProcessMode)>, actions: &mut Vec<TreeAction>) {
    for action in actions.drain(..) {
        if let TreeAction::SetProcessMode { node, mode } = action {
            for entry in modes.iter_mut().filter(|entry| entry.0 == node) {
                entry.1 = mode;
            }
        }
    }
}

#[test]
fn topmost_and_removed_scenes_have_their_own_modes() {
    let own = vec![
        (10, ProcessMode::Always),
        (11, ProcessMode::Pausable),
        (12, ProcessMode::WhenPaused),
        (13, ProcessMode::Unrecognized(9)),
    ];
    let scene = |place: usize| NodeSnapshot {
        id: own[place].0,
        has_parent: false,
        process_mode: own[place].1,
    };
    let mut modes = own.clone();
    let mut manager = SceneManager::new(ROOT, None);
    let mut actions = Vec::new();
    assert!(manager.push_scene(scene(0), ProcessMode::Inherit, &mut actions).is_ok());
    follow(&mut modes, &mut actions);
    assert!(manager.push_scene(scene(1), own[0].1, &mut actions).is_ok());
    follow(&mut modes, &mut actions);
    assert!(manager.insert_scene(0, scene(2), own[1].1, &mut actions).is_ok());
    follow(&mut modes, &mut actions);
    assert!(manager.insert_scene(2, scene(3), own[1].1, &mut actions).is_ok());
    follow(&mut modes, &mut actions);
    assert_eq!(
        modes,
        vec![
            (10, ProcessMode::Disabled),
            (11, ProcessMode::Pausable),
            (12, ProcessMode::Disabled),
            (13, ProcessMode::Disabled),
        ]
    );
    assert_eq!(manager.try_remove_scene_at(1, &mut actions), Some(10));
    follow(&mut modes, &mut actions);
    assert_eq!(modes[0], own[0]);
    assert_eq!(manager.pop_scene(&mut actions), Some(11));
    follow(&mut modes, &mut actions);
    assert_eq!(manager.current_scene(), Some(13));
    assert_eq!(modes[1], own[1]);
    assert_eq!(modes[2], (12, ProcessMode::Disabled));
    assert_eq!(modes[3], own[3]);
    assert_eq!(manager.pop_scene(&mut actions), Some(13));
    assert_eq!(manager.pop_scene(&mut actions), Some(12));
    follow(&mut modes, &mut actions);
    assert_eq!(modes, own);
}

fn move_nodes(parents: &mut Vec<(i64, i64)>, actions: &mut Vec<TreeAction>) {
    let mut placeholder = None;
    for action in actions.drain(..) {
        let parent_of = |node: i64| parents.iter().find(|entry| entry.0 == node).map(|entry| entry.1);
        match action {
            TreeAction::AddChild { parent, child } => {
                assert_eq!(parent_of(child), None);
                parents.push((child, parent));
            }
            TreeAction::AddSibling { sibling, node } => {
                assert_eq!(parent_of(node), None);
                let parent = parent_of(sibling).unwrap();
                parents.push((node, parent));
            }
            TreeAction::AddPlaceholder { parent } => placeholder = Some(parent),
            TreeAction::ReplacePlaceholder { node } => {
                assert_eq!(parent_of(node), None);
                parents.push((node, placeholder.unwrap()));
                placeholder = None;
            }
            TreeAction::RemoveChild { parent, child } => {
                assert_eq!(parent_of(child), Some(parent));
                parents.retain(|entry| entry.0 != child);
            }
            _ => {}
        }
    }
}

#[test]
fn scenes_on_the_stack_are_under_the_scene_parent() {
    let mut parents = Vec::new();
    let mut manager = SceneManager::new(ROOT, Some(PARENT));
    let mut actions = Vec::new();
    assert!(manager.push_scene(node(10), ProcessMode::Inherit, &mut actions).is_ok());
    move_nodes(&mut parents, &mut actions);
    assert!(manager.push_scene(node(11), ProcessMode::Inherit, &mut actions).is_ok());
    move_nodes(&mut parents, &mut actions);
    assert!(manager.insert_scene(0, node(12), ProcessMode::Inherit, &mut actions).is_ok());
    move_nodes(&mut parents, &mut actions);
    assert!(manager.insert_scene(2, node(13), ProcessMode::Inherit, &mut actions).is_ok());
    move_nodes(&mut parents, &mut actions);
    assert_eq!(parents, vec![(10, PARENT), (11, PARENT), (12, PARENT), (13, PARENT)]);
    assert!(manager.try_remove_scene(10, &mut actions).is_some());
    assert_eq!(manager.pop_scene(&mut actions), Some(11));
    move_nodes(&mut parents, &mut actions);
    assert_eq!(parents, vec![(12, PARENT), (13, PARENT)]);
}
