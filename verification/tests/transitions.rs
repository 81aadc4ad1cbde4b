use scene_manager::manager::transition::scene_transition_inner::SceneTransitionAnimation;
use scene_manager::manager::transition::{
    transition_outcome, InsertTarget, InsertedTarget, InsertedTransition, OldScene,
    OngoingSceneTransition, Removal, RemoveScene, SceneTransitionError,
    SceneTransitionFinishError, SceneTransitionStartError, StartingTransition,
};
use scene_manager::manager::SceneManager;
use scene_manager::transition::animation_player::{
    after_start, choose_start_animation, finish_transition, get_transition_root,
    is_unexpected_end, start_transition, transition_finished, transition_started,
    AnimationTransitionError,
};
use scene_manager::tree::{NodeSnapshot, ProcessMode, TreeAction};

const PARENT: i64 = 2;

fn node(id: i64) -> NodeSnapshot {
    NodeSnapshot { id, has_parent: false, process_mode: ProcessMode::Inherit }
}

fn manager_with(scenes: &[i64]) -> SceneManager {
    let mut manager = SceneManager::new(1, Some(PARENT));
    let mut actions = Vec::new();
    for scene in scenes {
        assert!(manager.push_scene(node(*scene), ProcessMode::Inherit, &mut actions).is_ok());
    }
    manager
}

fn scenes(manager: &SceneManager, candidates: &[i64]) -> Vec<i64> {
    let mut found: Vec<(usize, i64)> = candidates
        .iter()
        .filter_map(|scene| manager.index_of(*scene).map(|index| (index, *scene)))
        .collect();
    found.sort();
    assert_eq!(found.len(), manager.len());
    found.into_iter().map(|(_, scene)| scene).collect()
}

fn names(list: &[&str]) -> Vec<String> {
    list.iter().map(|name| name.to_string()).collect()
}

type Text = &'static str;
type Starting = StartingTransition<Text, Text>;
type Started = Result<Starting, SceneTransitionStartError<u8>>;
type Ongoing = OngoingSceneTransition<(), Text>;

fn start(manager: &mut SceneManager, actions: &mut Vec<TreeAction>) -> Starting {
    let started: Started =
        manager.transition_scene("driver", "next", node(20), ProcessMode::Inherit, actions);
    match started {
        Ok(starting) => starting,
        Err(_) => panic!("must start"),
    }
}

fn ongoing(manager: &mut SceneManager, actions: &mut Vec<TreeAction>) -> Ongoing {
    let (driver, hiding) = start(manager, actions).start_driver();
    assert_eq!(driver, "driver");
    let awaiting = match hiding.driver_ready("started", manager) {
        OldScene::Remove(removal) => {
            let task = removal.defer::<u8, u8>(true);
            let removal = task.ok().and_then(|mut task| task.take_task()).unwrap();
            let (removal, awaiting) = removal.run(manager, actions);
            assert_eq!(removal, Removal::Removed);
            awaiting
        }
        OldScene::Nothing(awaiting) => awaiting,
        OldScene::Missing(..) => panic!("must be there"),
    };
    let (next, loading) = awaiting.wait();
    assert_eq!(next, "next");
    match loading.target_loaded::<(), u8>((), Ok(30)) {
        Ok(ongoing) => ongoing,
        Err(_) => panic!("must load"),
    }
}

fn insertion(ongoing: Ongoing) -> InsertTarget<Text> {
    let insertion = ongoing.finish::<u8>(20, true).ok().and_then(|mut task| task.take_task());
    let insertion = insertion.unwrap();
    assert_eq!(insertion.target(), 30);
    insertion
}

fn run_insertion(
    insertion: InsertTarget<Text>,
    manager: &mut SceneManager,
    has_parent: bool,
    actions: &mut Vec<TreeAction>,
) -> Result<InsertedTransition<Text>, SceneTransitionFinishError> {
    insertion.run(manager, has_parent, ProcessMode::Inherit, ProcessMode::Inherit, actions)
}

fn run_transition(manager: &mut SceneManager, announced: &mut Vec<TreeAction>) {
    let mut actions = Vec::new();
    let ongoing = ongoing(manager, &mut actions);
    assert_eq!(ongoing.manager(), &());
    assert_eq!(ongoing.driver(), &"started");
    assert_eq!(ongoing.target_node(), 30);
    let inserted = match run_insertion(insertion(ongoing), manager, false, &mut actions) {
        Ok(inserted) => inserted,
        Err(_) => panic!("must be inserted"),
    };
    let (driver, ending) = inserted.target_inserted(&mut actions);
    assert_eq!(driver, "started");
    let removal = ending.driver_finished::<u8>(Ok(20));
    assert_eq!(removal.scene(), Some(20));
    let removal = removal.defer::<u8>(true).ok().and_then(|mut task| task.take_task()).unwrap();
    let (removal, concluding) = removal.run(manager, &mut actions);
    assert_eq!(removal, Removal::Removed);
    assert_eq!(concluding.conclude(manager, &mut actions), 30);
    announced.extend(actions.into_iter().filter(|action| {
        matches!(
            action,
            TreeAction::EmitScenePushed { .. }
                | TreeAction::EmitScenePopped { .. }
                | TreeAction::EmitSceneTransitioning { .. }
                | TreeAction::Free { .. }
        )
    }));
}

#[test]
fn transition_from_a_single_scene() {
    let mut manager = manager_with(&[10]);
    let mut announced = Vec::new();
    run_transition(&mut manager, &mut announced);
    assert_eq!(scenes(&manager, &[10, 20, 30]), vec![30]);
    assert_eq!(
        announced,
        vec![
            TreeAction::EmitScenePushed { scene: 20, index: 1 },
            TreeAction::Free { node: 10 },
            TreeAction::EmitSceneTransitioning { scene: 30, index: 0 },
            TreeAction::EmitScenePopped { scene: 20, index: 1 },
            TreeAction::Free { node: 20 },
            TreeAction::EmitScenePushed { scene: 30, index: 0 },
        ]
    );
}

#[test]
fn transition_from_an_empty_stack() {
    let mut manager = manager_with(&[]);
    let mut announced = Vec::new();
    run_transition(&mut manager, &mut announced);
    assert_eq!(scenes(&manager, &[20, 30]), vec![30]);
    assert_eq!(announced.last(), Some(&TreeAction::EmitScenePushed { scene: 30, index: 0 }));
}

#[test]
fn transition_over_several_scenes() {
    let mut manager = manager_with(&[10, 11, 12]);
    let mut announced = Vec::new();
    run_transition(&mut manager, &mut announced);
    assert_eq!(scenes(&manager, &[10, 11, 12, 20, 30]), vec![10, 30, 11]);
    assert_eq!(
        announced,
        vec![
            TreeAction::EmitScenePushed { scene: 20, index: 3 },
            TreeAction::Free { node: 12 },
            TreeAction::EmitSceneTransitioning { scene: 30, index: 1 },
            TreeAction::EmitScenePopped { scene: 20, index: 3 },
            TreeAction::Free { node: 20 },
        ]
    );
}

#[test]
fn transition_scene_with_a_parent_is_refused() {
    let mut manager = manager_with(&[10]);
    let mut actions = Vec::new();
    let taken = NodeSnapshot { id: 20, has_parent: true, process_mode: ProcessMode::Inherit };
    let refused: Started = manager.start_scene_transition(
        "driver",
        "next",
        taken,
        ProcessMode::Inherit,
        &mut actions,
    );
    match refused {
        Err(error) => {
            assert_eq!(error.message("T"), "transition node (T) already has a parent");
            assert!(matches!(error, SceneTransitionStartError::TransitionAlreadyHasParent(20)));
        }
        Ok(_) => panic!("must be refused"),
    }
    assert!(actions.is_empty());
    assert_eq!(manager.len(), 1);
}

#[test]
fn old_scene_stays_until_the_driver_is_ready() {
    let mut manager = manager_with(&[10]);
    let mut actions = Vec::new();
    let (driver, hiding) = start(&mut manager, &mut actions).start_driver();
    assert_eq!(scenes(&manager, &[10, 20]), vec![10, 20]);
    actions.clear();
    match hiding.driver_ready(driver, &manager) {
        OldScene::Remove(removal) => {
            assert_eq!(removal.scene(), 10);
            assert_eq!(scenes(&manager, &[10, 20]), vec![10, 20]);
            let (removal, awaiting) = removal.run(&mut manager, &mut actions);
            assert_eq!(removal, Removal::Removed);
            assert_eq!(scenes(&manager, &[20]), vec![20]);
            assert_eq!(actions.last(), Some(&TreeAction::Free { node: 10 }));
            assert_eq!(awaiting.wait().0, "next");
        }
        _ => panic!("must be removed"),
    }
}

#[test]
fn old_scene_may_be_gone() {
    let mut manager = manager_with(&[10]);
    let mut actions = Vec::new();
    let (driver, hiding) = start(&mut manager, &mut actions).start_driver();
    assert!(manager.try_remove_scene(10, &mut actions).is_some());
    match hiding.driver_ready(driver, &manager) {
        OldScene::Missing(scene, awaiting) => {
            assert_eq!(scene, 10);
            assert_eq!(awaiting.wait().0, "next");
        }
        _ => panic!("must be missing"),
    }
    let mut manager = manager_with(&[]);
    let (driver, hiding) = start(&mut manager, &mut actions).start_driver();
    match hiding.driver_ready(driver, &manager) {
        OldScene::Nothing(awaiting) => assert_eq!(awaiting.wait().0, "next"),
        _ => panic!("must be nothing"),
    }
}

#[test]
fn old_scene_may_go_before_it_is_removed() {
    let mut manager = manager_with(&[10]);
    let mut actions = Vec::new();
    let (driver, hiding) = start(&mut manager, &mut actions).start_driver();
    match hiding.driver_ready(driver, &manager) {
        OldScene::Remove(removal) => {
            assert!(manager.try_remove_scene(10, &mut actions).is_some());
            actions.clear();
            let (removal, awaiting) = removal.run(&mut manager, &mut actions);
            assert_eq!(removal, Removal::NotOnStack);
            assert!(actions.is_empty());
            assert_eq!(awaiting.wait().0, "next");
        }
        _ => panic!("must be removed"),
    }
}

#[test]
fn removals_that_find_nothing() {
    let mut manager = manager_with(&[20]);
    let mut actions = Vec::new();
    assert_eq!(
        RemoveScene { scene: None }.run(&mut manager, &mut actions),
        Removal::NothingToRemove
    );
    assert_eq!(
        RemoveScene { scene: Some(5) }.run(&mut manager, &mut actions),
        Removal::NotOnStack
    );
    assert!(actions.is_empty());
}

#[test]
fn driver_that_fails_to_finish_leaves_the_transition_scene() {
    let mut manager = manager_with(&[10]);
    let mut actions = Vec::new();
    let ongoing = ongoing(&mut manager, &mut actions);
    let inserted = run_insertion(insertion(ongoing), &mut manager, false, &mut actions);
    let (_, ending) = inserted.ok().unwrap().target_inserted(&mut actions);
    let removal = ending.driver_finished::<u8>(Err(1));
    assert_eq!(removal.scene(), None);
    actions.clear();
    let (removal, concluding) = removal.run(&mut manager, &mut actions);
    assert_eq!(removal, Removal::NothingToRemove);
    assert_eq!(concluding.conclude(&manager, &mut actions), 30);
    assert!(actions.is_empty());
    assert_eq!(scenes(&manager, &[20, 30]), vec![30, 20]);
}

#[test]
fn target_goes_on_top_without_the_transition_scene() {
    let mut manager = manager_with(&[5, 10]);
    let mut actions = Vec::new();
    let ongoing = ongoing(&mut manager, &mut actions);
    assert!(manager.try_remove_scene(20, &mut actions).is_some());
    let inserted = run_insertion(insertion(ongoing), &mut manager, false, &mut actions);
    let inserted = inserted.ok().unwrap();
    assert_eq!(inserted.place(), InsertedTarget { index: 1, on_top: true });
    assert_eq!(actions.last(), Some(&TreeAction::EmitScenePushed { scene: 30, index: 1 }));
    actions.clear();
    let (_, ending) = inserted.target_inserted(&mut actions);
    assert_eq!(actions, vec![TreeAction::EmitSceneTransitioning { scene: 30, index: 1 }]);
    actions.clear();
    let (removal, concluding) =
        ending.driver_finished::<u8>(Ok(20)).run(&mut manager, &mut actions);
    assert_eq!(removal, Removal::NotOnStack);
    assert_eq!(concluding.conclude(&manager, &mut actions), 30);
    assert!(actions.is_empty());
}

#[test]
fn target_with_a_parent_is_refused() {
    for keep_transition in [true, false] {
        let mut manager = manager_with(&[10]);
        let mut actions = Vec::new();
        let ongoing = ongoing(&mut manager, &mut actions);
        if !keep_transition {
            assert!(manager.try_remove_scene(20, &mut actions).is_some());
        }
        let len = manager.len();
        actions.clear();
        let refused = run_insertion(insertion(ongoing), &mut manager, true, &mut actions);
        let error = refused.err().unwrap();
        assert_eq!(error, SceneTransitionFinishError::SceneAlreadyHasParent(30));
        assert_eq!(error.message("N"), "scene node (N) already has a parent");
        assert!(actions.is_empty());
        assert_eq!(manager.len(), len);
        assert_eq!(manager.index_of(30), None);
    }
}

#[test]
fn transitions_run_on_the_main_thread() {
    let mut manager = manager_with(&[10]);
    let mut actions = Vec::new();
    let (driver, hiding) = start(&mut manager, &mut actions).start_driver();
    match hiding.driver_ready(driver, &manager) {
        OldScene::Remove(removal) => match removal.defer::<u8, u8>(false) {
            Err(error) => {
                assert_eq!(error.message(""), "scene transition processed outside the main thread")
            }
            Ok(_) => panic!("must be refused"),
        },
        _ => panic!("must be removed"),
    }
    let mut manager = manager_with(&[10]);
    let refused = ongoing(&mut manager, &mut actions).finish::<u8>(20, false);
    assert_eq!(refused.err(), Some(SceneTransitionFinishError::NotMainThread));
    let mut manager = manager_with(&[10]);
    let ongoing = ongoing(&mut manager, &mut actions);
    let inserted = run_insertion(insertion(ongoing), &mut manager, false, &mut actions);
    let (_, ending) = inserted.ok().unwrap().target_inserted(&mut actions);
    match ending.driver_finished::<u8>(Ok(20)).defer::<u8>(false) {
        Err(error) => {
            assert_eq!(error.message(""), "scene transition processed outside main thread")
        }
        Ok(_) => panic!("must be refused"),
    }
}

#[test]
fn transition_outcomes() {
    assert!(matches!(transition_outcome::<u8>(Ok(Ok(30))), Ok(30)));
    match transition_outcome::<u8>(Err(SceneTransitionStartError::TargetScene(7))) {
        Err(error) => {
            assert_eq!(error.message("broken"), "could not load target scene: broken");
            assert!(matches!(
                error,
                SceneTransitionError::Start(SceneTransitionStartError::TargetScene(7))
            ));
        }
        Ok(_) => panic!("must fail"),
    }
    match transition_outcome::<u8>(Ok(Err(SceneTransitionFinishError::SceneAlreadyHasParent(3)))) {
        Err(error) => {
            assert_eq!(error.message("N"), "scene node (N) already has a parent");
            assert!(matches!(
                error,
                SceneTransitionError::Finish(SceneTransitionFinishError::SceneAlreadyHasParent(3))
            ));
        }
        Ok(_) => panic!("must fail"),
    }
    let mut manager = manager_with(&[]);
    let (driver, hiding) = start(&mut manager, &mut Vec::new()).start_driver();
    match hiding.driver_ready(driver, &manager) {
        OldScene::Nothing(awaiting) => {
            let (_, loading) = awaiting.wait();
            assert!(matches!(
                loading.target_loaded((), Err::<i64, u8>(7)),
                Err(SceneTransitionStartError::TargetScene(7))
            ));
        }
        _ => panic!("must be nothing"),
    }
}

#[test]
fn start_animation_prefers_autoplay() {
    let list = names(&["fade", "transition_start"]);
    let chosen = choose_start_animation("intro", &list).unwrap();
    assert_eq!((chosen.name.as_str(), chosen.is_fallback), ("intro", false));
    let chosen = choose_start_animation("", &list).unwrap();
    assert_eq!((chosen.name.as_str(), chosen.is_fallback), ("transition_start", false));
    let chosen = choose_start_animation("", &names(&["fade", "wipe"])).unwrap();
    assert_eq!((chosen.name.as_str(), chosen.is_fallback), ("fade", true));
    assert!(choose_start_animation("", &names(&[])).is_none());
}

#[test]
fn player_without_animations() {
    let start = start_transition::<u8>(5, "", &names(&[]));
    match start {
        Err(error) => {
            assert_eq!(error.message("P"), "scene transition (P) contains no animations");
            assert!(matches!(error, AnimationTransitionError::NoAnimations(5)));
        }
        Ok(_) => panic!("must fail"),
    }
    let lenient = SceneTransitionAnimation::new(5);
    assert_eq!(lenient.scene(), 5);
    assert!(lenient.start("", &names(&[])).is_none());
    assert_eq!(lenient.start("", &names(&["fade"])).unwrap().name, "fade");
    assert_eq!(get_transition_root(5), 5);
    assert_eq!(start_transition::<u8>(5, "", &names(&["fade"])).unwrap().name, "fade");
}

#[test]
fn animations_after_the_start() {
    let full = names(&["transition_start", "transition_ready", "transition_end"]);
    let bare = names(&["transition_start"]);
    assert_eq!(after_start(&full), Some("transition_ready".to_string()));
    assert_eq!(after_start(&bare), None);
    assert_eq!(finish_transition(&full), Some("transition_end".to_string()));
    assert_eq!(finish_transition(&bare), None);
    assert!(matches!(transition_started::<u8>(Ok(()), &full), Ok(Some(_))));
    match transition_started::<u8>(Err(3), &full) {
        Err(error) => {
            assert_eq!(error.message("lost"), "lost");
            assert!(matches!(error, AnimationTransitionError::Signal(3)));
        }
        Ok(_) => panic!("must fail"),
    }
    assert!(matches!(transition_finished::<u8>(5, Ok(())), Ok(5)));
    assert!(matches!(
        transition_finished::<u8>(5, Err(3)),
        Err(AnimationTransitionError::Signal(3))
    ));
    let lenient = SceneTransitionAnimation::new(5);
    assert_eq!(lenient.started::<u8>(Ok(()), &full), Ok(Some("transition_ready".to_string())));
    assert_eq!(lenient.started::<u8>(Ok(()), &bare), Ok(None));
    assert_eq!(lenient.started::<u8>(Err(3), &full), Err(3));
    assert_eq!(lenient.finish(&full), Some("transition_end".to_string()));
    assert_eq!(lenient.finish(&bare), None);
    assert_eq!(lenient.finished::<u8>(Ok(())), Ok(5));
    assert_eq!(lenient.finished::<u8>(Err(3)), Err(3));
}

#[test]
fn unexpected_end_of_an_animation() {
    assert!(is_unexpected_end(&"a".to_string(), &"b".to_string()));
    assert!(!is_unexpected_end(&"a".to_string(), &"a".to_string()));
}
