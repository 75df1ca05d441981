//! The coordinator: wires the clock reference, the cancellation signal,
//! the three periodic tasks and the signal listener together, and owns the
//! shutdown barrier that waits for all four units to reach their terminal
//! states.

use vstd::prelude::*;

use crate::level::Level;
use crate::level::level_display;
use crate::level::spec_level_tag;
use crate::listener::ListenerState;
use crate::listener::SignalListener;
use crate::routine::PeriodicTask;
use crate::routine::RoutineBuilder;
use crate::routine::Severity;
use crate::routine::TaskState;
use crate::signal::CancellationSignal;

verus! {

/// The fixed tick interval of the info-severity task, in deciseconds.
pub const INFO_INTERVAL_DS: u64 = 30;

/// The fixed tick interval of the warn-severity task, in deciseconds.
pub const WARN_INTERVAL_DS: u64 = 50;

/// The fixed tick interval of the debug-severity task, in deciseconds.
pub const DEBUG_INTERVAL_DS: u64 = 20;

/// A completion tracker for the spawned units: counts how many were
/// spawned and how many have finished, and whether registration is closed.
#[derive(Clone, Copy, Debug, PartialEq, Eq, Structural)]
pub struct JoinTracker {
    pub spawned: u64,
    pub finished: u64,
    pub closed: bool,
}

impl JoinTracker {
    /// Finished units never outnumber spawned ones.
    pub open spec fn wf(&self) -> bool {
        self.finished <= self.spawned
    }

    /// The tracker's wait unblocks exactly here: registration is closed
    /// and every spawned unit has finished.
    pub open spec fn spec_all_finished(&self) -> bool {
        self.closed && self.finished == self.spawned
    }

    /// An open tracker with no units.
    pub fn new() -> (r: Self)
        ensures
            r.spawned == 0,
            r.finished == 0,
            !r.closed,
            r.wf(),
    {
        JoinTracker { spawned: 0, finished: 0, closed: false }
    }

    /// Registers one more unit; only an open tracker accepts one.
    pub fn spawn(&mut self)
        requires
            !old(self).closed,
            old(self).spawned < u64::MAX,
            old(self).wf(),
        ensures
            final(self).spawned == old(self).spawned + 1,
            final(self).finished == old(self).finished,
            !final(self).closed,
            final(self).wf(),
    {
        self.spawned = self.spawned + 1;
    }

    /// Closes registration: no further units will be added.
    pub fn close(&mut self)
        ensures
            final(self).spawned == old(self).spawned,
            final(self).finished == old(self).finished,
            final(self).closed,
    {
        self.closed = true;
    }

    /// Records that one running unit reached its terminal state.
    pub fn finish_one(&mut self)
        requires
            old(self).finished < old(self).spawned,
        ensures
            final(self).spawned == old(self).spawned,
            final(self).finished == old(self).finished + 1,
            final(self).closed == old(self).closed,
            final(self).wf(),
    {
        self.finished = self.finished + 1;
    }

    /// Whether a wait on the tracker unblocks: true if and only if
    /// registration is closed and every spawned unit has finished —
    /// never any earlier.
    pub fn wait_ready(&self) -> (r: bool)
        ensures
            r <==> self.spec_all_finished(),
    {
        self.closed && self.finished == self.spawned
    }
}

/// Everything the coordinator sets up at startup: the builder holding the
/// clock reference and the signal, the three periodic tasks, the signal
/// listener, and the join tracker with all four units registered.
pub struct Coordinator {
    pub builder: RoutineBuilder,
    pub info_task: PeriodicTask,
    pub warn_task: PeriodicTask,
    pub debug_task: PeriodicTask,
    pub listener: SignalListener,
    pub tracker: JoinTracker,
}

impl Coordinator {
    /// All four concurrent units have reached their terminal states.
    pub open spec fn units_terminal(&self) -> bool {
        &&& self.info_task.state == TaskState::Stopped
        &&& self.warn_task.state == TaskState::Stopped
        &&& self.debug_task.state == TaskState::Stopped
        &&& self.listener.state == ListenerState::Done
    }

    /// Performs startup: captures the clock reference, creates an
    /// uncancelled signal, builds the three periodic tasks with their
    /// fixed intervals, creates the waiting listener, registers all four
    /// units and closes registration.
    pub fn start(start_ds: u64) -> (r: Self)
        ensures
            r.builder.start_ds == start_ds,
            !r.builder.signal.spec_is_cancelled(),
            r.info_task.severity == Severity::Info,
            r.info_task.interval_ds == INFO_INTERVAL_DS,
            r.info_task.state == TaskState::Running,
            r.warn_task.severity == Severity::Warn,
            r.warn_task.interval_ds == WARN_INTERVAL_DS,
            r.warn_task.state == TaskState::Running,
            r.debug_task.severity == Severity::Debug,
            r.debug_task.interval_ds == DEBUG_INTERVAL_DS,
            r.debug_task.state == TaskState::Running,
            r.listener.state == ListenerState::Waiting,
            r.tracker.spawned == 4,
            r.tracker.finished == 0,
            r.tracker.closed,
    {
        let signal = CancellationSignal::new();
        let builder = RoutineBuilder::new(start_ds, signal);
        let info_task = builder.info(INFO_INTERVAL_DS);
        let warn_task = builder.warn(WARN_INTERVAL_DS);
        let debug_task = builder.debug(DEBUG_INTERVAL_DS);
        let listener = SignalListener::new();
        let mut tracker = JoinTracker::new();
        tracker.spawn();
        tracker.spawn();
        tracker.spawn();
        tracker.spawn();
        tracker.close();
        Coordinator { builder, info_task, warn_task, debug_task, listener, tracker }
    }

    /// Whether the coordinator's final join unblocks: true if and only if
    /// registration is closed and all four units — the three periodic
    /// tasks and the listener — have reached their terminal states; it
    /// never unblocks early.
    pub fn join_would_return(&self) -> (r: bool)
        ensures
            r <==> (self.tracker.closed && self.units_terminal()),
    {
        self.tracker.closed && matches!(self.info_task.state, TaskState::Stopped) && matches!(
            self.warn_task.state,
            TaskState::Stopped,
        ) && matches!(self.debug_task.state, TaskState::Stopped) && matches!(
            self.listener.state,
            ListenerState::Done,
        )
    }
}

/// The log line shape of the process: the severity tag, the component tag,
/// a fixed marker, then the message text indented on its own line.
pub open spec fn spec_log_line(lv: Level, target: Seq<char>, message: Seq<char>) -> Seq<char> {
    spec_level_tag(lv) + ": "@ + target + "[1]\n"@ + "      "@ + message + "\n"@
}

/// Renders one complete log record in the process's fixed two-line shape.
pub fn format_log_line(lv: Level, target: &str, message: &str) -> (r: String)
    ensures
        r@ == spec_log_line(lv, target@, message@),
{
    let mut s = String::from_str(level_display(lv));
    s.append(": ");
    s.append(target);
    s.append("[1]\n");
    s.append("      ");
    s.append(message);
    s.append("\n");
    proof {
        assert(s@ =~= spec_log_line(lv, target@, message@));
    }
    s
}

/// The one informational line confirming graceful completion, emitted
/// after the final join unblocks.
pub fn final_message() -> (r: &'static str)
    ensures
        r@ == "successfully end with message"@,
{
    "successfully end with message"
}

} // verus!
