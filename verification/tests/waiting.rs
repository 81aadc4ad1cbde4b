use scene_manager::idle::{IdleTask, IdleTaskError, Invocation};
use scene_manager::promise::latch::Latch;
use scene_manager::resource::{
    LoadFuture, LoadPoller, LoadStatus, ObjectClass, ObjectInfo, PollerState, PollerStep,
    ThreadedLoadError,
};
use scene_manager::tree::{ProcessMode, TreeAction};

fn version_and_variant(id: u128) -> (u128, u128) {
    ((id >> 76) & 0xf, (id >> 62) & 0x3)
}

/// The hyphenated form, written out independently.
fn written_out(id: u128) -> String {
    let digits = format!("{:032x}", id);
    format!(
        "{}-{}-{}-{}-{}",
        &digits[0..8],
        &digits[8..12],
        &digits[12..16],
        &digits[16..20],
        &digits[20..32]
    )
}

#[test]
fn idle_task_runs_once() {
    let mut task: IdleTask<u8, _, &str> = IdleTask::defer(|| 7u8);
    assert_eq!(task.poll("first"), None);
    assert_eq!(task.poll("second"), None);
    assert_eq!(task.invoke(), Invocation::Finished(Some("second")));
    assert_eq!(task.invoke(), Invocation::AlreadyInvoked);
    assert_eq!(task.poll("third"), Some(7));
    assert_eq!(task.poll("fourth"), None);
}

#[test]
fn idle_task_in_two_steps() {
    let mut task: IdleTask<String, u32, u8> = IdleTask::new(5);
    assert_eq!(task.take_task(), Some(5));
    assert_eq!(task.take_task(), None);
    assert_eq!(task.complete("done".to_string()), None);
    assert_eq!(task.poll(1), Some("done".to_string()));
}

#[test]
fn idle_task_is_refused_off_the_main_thread() {
    let refused: Result<IdleTask<u8, u32, u8>, _> = IdleTask::defer_local(5, false);
    match refused {
        Err(error) => {
            assert_eq!(error.message(), "called defer_local from outside the main thread");
            let IdleTaskError::NotMainThread(task) = error;
            assert_eq!(task, 5);
        }
        Ok(_) => panic!("must be refused"),
    }
    let deferred: Result<IdleTask<u8, u32, u8>, _> = IdleTask::defer_local(5, true);
    assert_eq!(deferred.ok().and_then(|mut task| task.take_task()), Some(5));
}

#[test]
fn idle_task_identity() {
    let first: IdleTask<u8, u32, u8> = IdleTask::new(1);
    let second: IdleTask<u8, u32, u8> = IdleTask::new(1);
    assert_eq!(version_and_variant(first.id()), (4, 2));
    assert!(first == first);
    assert!(first != second);
    assert_eq!(first.text(), format!("IdleTask<{}>", written_out(first.id())));
}

#[test]
fn latch_waits_for_its_invocation() {
    let mut latch: Latch<u8> = Latch::new();
    assert!(!latch.invoked());
    assert!(!latch.poll(1));
    assert!(!latch.poll(2));
    assert_eq!(latch.invoke(), Some(2));
    assert!(latch.invoked());
    assert!(latch.poll(3));
    assert_eq!(latch.invoke(), None);
    assert!(latch.poll(4));
}

#[test]
fn immediate_latch_is_invoked() {
    let mut latch: Latch<u8> = Latch::new_immediate();
    assert!(latch.invoked());
    assert!(latch.poll(1));
    assert_eq!(latch.invoke(), None);
}

#[test]
fn latch_identity() {
    let first: Latch<u8> = Latch::default();
    let second: Latch<u8> = Latch::new_immediate();
    assert!(!first.invoked());
    assert_eq!(version_and_variant(first.id()), (4, 2));
    assert_eq!(version_and_variant(second.id()), (4, 2));
    assert!(first == first);
    assert!(first != second);
    assert_eq!(first.text(), format!("Latch<{}>", written_out(first.id())));
}

#[test]
fn load_future_hands_its_result_out_once() {
    let mut future: LoadFuture<u8> = LoadFuture::new();
    assert!(future.poll(1).is_none());
    let found = ObjectInfo { id: 9, class: ObjectClass::PackedScene };
    assert_eq!(future.finish(Ok(found)), Some(1));
    assert!(matches!(future.poll(2), Some(Ok(object)) if object == found));
    assert!(future.poll(3).is_none());
}

#[test]
fn poller_follows_the_load_status() {
    let fresh = LoadPoller::init();
    assert!(fresh.path().is_none());
    assert!(matches!(fresh.process(LoadStatus::Loaded), PollerStep::NotInitialized));
    let poller = LoadPoller { state: PollerState::Ready { path: "res://a.tscn".to_string() } };
    assert_eq!(poller.path(), Some(&"res://a.tscn".to_string()));
    assert!(matches!(poller.process(LoadStatus::InProgress), PollerStep::Wait));
    assert!(matches!(poller.process(LoadStatus::Loaded), PollerStep::Collect));
    assert!(matches!(
        poller.process(LoadStatus::Failed),
        PollerStep::Fail(ThreadedLoadError::Failed)
    ));
    assert!(matches!(
        poller.process(LoadStatus::InvalidResource),
        PollerStep::Fail(ThreadedLoadError::InvalidResource)
    ));
    assert!(matches!(
        poller.process(LoadStatus::Unrecognized(8)),
        PollerStep::Fail(ThreadedLoadError::UnrecognizedLoadStatus(LoadStatus::Unrecognized(8)))
    ));
    assert!(matches!(LoadPoller::collected(None), Err(ThreadedLoadError::ResultMissing)));
    let found = ObjectInfo { id: 9, class: ObjectClass::Other };
    assert!(matches!(LoadPoller::collected(Some(found)), Ok(object) if object == found));
    assert_eq!(
        LoadPoller::enter_tree(4),
        TreeAction::SetProcessMode { node: 4, mode: ProcessMode::Always }
    );
}
