use tick_shutdown::coordinator::Coordinator;
use tick_shutdown::coordinator::JoinTracker;
use tick_shutdown::level::Level;
use tick_shutdown::listener::ListenerState;
use tick_shutdown::listener::NotificationKind;
use tick_shutdown::listener::SignalListener;
use tick_shutdown::routine::PeriodicTask;
use tick_shutdown::routine::RoutineBuilder;
use tick_shutdown::routine::Severity;
use tick_shutdown::routine::TaskState;
use tick_shutdown::routine::TaskStep;
use tick_shutdown::routine::run_until_cancelled;
use tick_shutdown::signal::CancellationSignal;

fn running_task(sev: Severity, interval_ds: u64) -> PeriodicTask {
    PeriodicTask { severity: sev, interval_ds, state: TaskState::Running }
}

#[test]
fn signal_starts_active_and_cancels_once() {
    let mut s = CancellationSignal::new();
    assert!(!s.is_cancelled());
    s.cancel();
    assert!(s.is_cancelled());
}

#[test]
fn cancel_is_idempotent() {
    let mut s = CancellationSignal::new();
    s.cancel();
    s.cancel();
    s.cancel();
    assert!(s.is_cancelled());
    let mut t = CancellationSignal::new();
    t.cancel();
    assert_eq!(s, t);
}

#[test]
fn builder_configures_the_three_tasks() {
    let signal = CancellationSignal::new();
    let b = RoutineBuilder::new(0, signal);
    let info = b.info(30);
    let warn = b.warn(50);
    let debug = b.debug(20);
    assert_eq!(info.severity, Severity::Info);
    assert_eq!(info.interval_ds, 30);
    assert_eq!(info.state, TaskState::Running);
    assert_eq!(warn.severity, Severity::Warn);
    assert_eq!(warn.interval_ds, 50);
    assert_eq!(warn.state, TaskState::Running);
    assert_eq!(debug.severity, Severity::Debug);
    assert_eq!(debug.interval_ds, 20);
    assert_eq!(debug.state, TaskState::Running);
}

#[test]
fn poll_keeps_running_while_uncancelled() {
    let mut t = running_task(Severity::Info, 30);
    for _ in 0..100 {
        let step = t.poll(false);
        assert_eq!(step, TaskStep::AwaitTick);
        assert_eq!(t.state, TaskState::Running);
    }
}

#[test]
fn poll_stops_on_cancellation_and_stays_stopped() {
    let mut t = running_task(Severity::Warn, 50);
    let step = t.poll(true);
    assert_eq!(step, TaskStep::Finish);
    assert_eq!(t.state, TaskState::Stopped);
    let step = t.poll(false);
    assert_eq!(step, TaskStep::Finish);
    assert_eq!(t.state, TaskState::Stopped);
}

#[test]
fn tick_emits_one_line_at_the_task_severity() {
    let info = running_task(Severity::Info, 30);
    let line = info.on_tick(30);
    assert_eq!(line.level, Level::Info);
    assert_eq!(line.message, "information at 3.0 sec");

    let warn = running_task(Severity::Warn, 50);
    let line = warn.on_tick(50);
    assert_eq!(line.level, Level::Warn);
    assert_eq!(line.message, "warning at 5.0 sec");

    let debug = running_task(Severity::Debug, 20);
    let line = debug.on_tick(123);
    assert_eq!(line.level, Level::Debug);
    assert_eq!(line.message, "debug message at 12.3 sec");
}

#[test]
fn debug_task_cancelled_at_five_seconds_emits_two_and_four() {
    let task = running_task(Severity::Debug, 20);
    let run = run_until_cancelled(task, 50);
    assert_eq!(run.emitted_ds, vec![20, 40]);
    assert_eq!(run.task.state, TaskState::Stopped);
    assert_eq!(run.stopped_at_ds, 50);
}

#[test]
fn emitted_line_count_tracks_elapsed_over_interval() {
    for (interval, cancel_at) in
        [(30u64, 100u64), (20, 40), (50, 50), (10, 95), (10, 1), (7, 7000)] {
        let run = run_until_cancelled(running_task(Severity::Info, interval), cancel_at);
        let n = run.emitted_ds.len() as u64;
        let whole = cancel_at / interval;
        assert!(n <= whole, "interval {interval}, cancel {cancel_at}: {n} > {whole}");
        assert!(whole <= n + 1, "interval {interval}, cancel {cancel_at}: {whole} > {n} + 1");
        for (j, ds) in run.emitted_ds.iter().enumerate() {
            assert_eq!(*ds, (j as u64 + 1) * interval);
            assert!(*ds < cancel_at);
        }
    }
}

#[test]
fn task_stops_within_one_interval_of_cancellation() {
    for (interval, cancel_at) in [(30u64, 44u64), (20, 0), (50, 50), (1, 1000)] {
        let run = run_until_cancelled(running_task(Severity::Warn, interval), cancel_at);
        assert_eq!(run.task.state, TaskState::Stopped);
        assert!(run.stopped_at_ds <= cancel_at + interval);
        for ds in &run.emitted_ds {
            assert!(*ds < cancel_at);
        }
    }
}

#[test]
fn cancellation_at_start_emits_nothing() {
    let run = run_until_cancelled(running_task(Severity::Info, 30), 0);
    assert!(run.emitted_ds.is_empty());
    assert_eq!(run.stopped_at_ds, 0);
    assert_eq!(run.task.state, TaskState::Stopped);
}

#[test]
fn a_late_cancellation_lets_emission_grow_without_bound() {
    let interval = 20u64;
    for n in [1u64, 5, 10, 100] {
        let run =
            run_until_cancelled(running_task(Severity::Debug, interval), n * interval + 1);
        assert!(run.emitted_ds.len() as u64 >= n);
    }
}

#[test]
fn listener_flips_the_signal_and_reports_the_notification() {
    let cases = [
        (NotificationKind::Terminate, "Received SIGTERM."),
        (NotificationKind::Interrupt, "Received SIGINT."),
        (NotificationKind::CtrlC, "Received CTRL_C."),
        (NotificationKind::CtrlBreak, "Received CTRL_BREAK."),
        (NotificationKind::CtrlClose, "Received CTRL_CLOSE."),
        (NotificationKind::CtrlShutdown, "Received CTRL_SHUTDOWN."),
    ];
    for (kind, expected) in cases {
        let mut listener = SignalListener::new();
        let mut signal = CancellationSignal::new();
        assert_eq!(listener.state, ListenerState::Waiting);
        let line = listener.on_notification(kind, &mut signal);
        assert_eq!(line.level, Level::Debug);
        assert_eq!(line.message, expected);
        assert_eq!(listener.state, ListenerState::Done);
        assert!(signal.is_cancelled());
    }
}

#[test]
fn tracker_wait_unblocks_only_when_closed_and_all_finished() {
    let mut tracker = JoinTracker::new();
    assert!(!tracker.wait_ready());
    for _ in 0..4 {
        tracker.spawn();
    }
    assert!(!tracker.wait_ready());
    tracker.close();
    for i in 0..4 {
        assert!(!tracker.wait_ready(), "wait unblocked with {i} of 4 finished");
        tracker.finish_one();
    }
    assert!(tracker.wait_ready());
}

#[test]
fn coordinator_starts_four_units_and_joins_only_when_all_are_terminal() {
    let mut c = Coordinator::start(0);
    assert!(!c.builder.signal.is_cancelled());
    assert_eq!(c.info_task.interval_ds, 30);
    assert_eq!(c.warn_task.interval_ds, 50);
    assert_eq!(c.debug_task.interval_ds, 20);
    assert_eq!(c.tracker.spawned, 4);
    assert!(c.tracker.closed);
    assert!(!c.join_would_return());

    c.info_task.state = TaskState::Stopped;
    c.warn_task.state = TaskState::Stopped;
    c.debug_task.state = TaskState::Stopped;
    assert!(!c.join_would_return());
    c.listener.state = ListenerState::Done;
    assert!(c.join_would_return());
}
