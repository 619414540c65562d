use shadertoy_live::background_worker::{BackgroundWorker, TickCommand, WorkerUpdate};
use shadertoy_live::watched_file::WatchedFile;

fn fresh_worker(baseline: u64) -> (
    BackgroundWorker,
    shadertoy_live::channel::UpdateChannel,
) {
    let file = WatchedFile::new(Some(baseline)).expect("initial poll succeeded");
    BackgroundWorker::new(
        file,
        200_000,
        String::from("H"),
        String::from("F"),
    )
    .expect("worker construction cannot fail")
}

#[test]
fn unchanged_polls_report_no_change() {
    let file = WatchedFile::new(Some(42)).expect("initial poll succeeded");
    for _ in 0..10 {
        assert_eq!(file.is_modified(Some(42)), Some(false));
    }
    // The baseline was never altered: a changed timestamp is still detected.
    assert_eq!(file.is_modified(Some(43)), Some(true));
}

#[test]
fn commit_then_immediately_unchanged() {
    let mut file = WatchedFile::new(Some(1)).expect("initial poll succeeded");
    assert_eq!(file.is_modified(Some(9)), Some(true));
    assert_eq!(file.accept_changes(Some(9)), Some(()));
    assert_eq!(file.is_modified(Some(9)), Some(false));
}

#[test]
fn failed_poll_is_absent_result_not_change() {
    let mut file = WatchedFile::new(Some(5)).expect("initial poll succeeded");
    assert_eq!(file.is_modified(None), None);
    // A failed commit leaves the baseline untouched.
    assert_eq!(file.accept_changes(None), None);
    assert_eq!(file.is_modified(Some(5)), Some(false));
}

#[test]
fn construction_fails_without_initial_poll() {
    assert!(WatchedFile::new(None).is_none());
}

#[test]
fn four_absences_wait_fifth_aborts() {
    let (mut worker, _channel) = fresh_worker(3);
    for _ in 0..4 {
        assert_eq!(worker.observe(None, false), TickCommand::Wait);
    }
    assert_eq!(worker.observe(None, false), TickCommand::Abort);
}

#[test]
fn any_presence_resets_the_absence_run() {
    let (mut worker, _channel) = fresh_worker(3);
    for _ in 0..4 {
        assert_eq!(worker.observe(None, false), TickCommand::Wait);
    }
    // An unchanged sighting of the file breaks the run of absences...
    assert_eq!(worker.observe(Some(3), true), TickCommand::Wait);
    // ...so the count starts over: four more absences still only wait.
    for _ in 0..4 {
        assert_eq!(worker.observe(None, false), TickCommand::Wait);
    }
    assert_eq!(worker.observe(None, false), TickCommand::Abort);
}

#[test]
fn transient_error_retries_at_once() {
    let (mut worker, _channel) = fresh_worker(3);
    assert_eq!(worker.observe(None, true), TickCommand::RetryNow);
}

#[test]
fn change_commands_a_read_and_read_emits_and_commits() {
    let (mut worker, mut channel) = fresh_worker(3);
    assert_eq!(worker.observe(Some(8), true), TickCommand::Read);
    let update = worker.on_read(Some("body"), Some(8));
    let Some(WorkerUpdate::NewShader(shader)) = update else {
        panic!("a successful read emits an update");
    };
    assert_eq!(shader.as_glsl(), "HbodyF");
    channel.send(WorkerUpdate::NewShader(shader));
    assert_eq!(channel.len(), 1);
    // The baseline was committed: the same timestamp now reads as unchanged.
    assert_eq!(worker.observe(Some(8), true), TickCommand::Wait);
}

#[test]
fn failed_read_emits_nothing_and_keeps_baseline() {
    let (mut worker, channel) = fresh_worker(3);
    assert_eq!(worker.observe(Some(8), true), TickCommand::Read);
    assert!(worker.on_read(None, Some(8)).is_none());
    assert_eq!(channel.len(), 0);
    // Nothing was committed: the same change is detected again next poll.
    assert_eq!(worker.observe(Some(8), true), TickCommand::Read);
}

#[test]
fn deleted_after_initial_load_never_emits() {
    // A successful initial load, then the file disappears for good: the
    // worker waits out four consecutive absences, gives up on the fifth,
    // and never emits an update.
    let (mut worker, channel) = fresh_worker(7);
    assert_eq!(worker.observe(Some(7), true), TickCommand::Wait);
    let mut commands = Vec::new();
    for _ in 0..5 {
        commands.push(worker.observe(None, false));
    }
    assert_eq!(
        commands,
        vec![
            TickCommand::Wait,
            TickCommand::Wait,
            TickCommand::Wait,
            TickCommand::Wait,
            TickCommand::Abort,
        ]
    );
    assert_eq!(channel.len(), 0);
}

#[test]
fn interval_gate() {
    let (worker, _channel) = fresh_worker(3);
    assert!(!worker.interval_elapsed(199_999));
    assert!(worker.interval_elapsed(200_000));
    assert!(worker.interval_elapsed(200_001));
}
