//! Periodic tasks: a severity, a fixed tick interval, and a loop that emits
//! one log line per tick until it observes the cancellation signal.
//!
//! Time is measured in tenths of a second (deciseconds) on the process
//! clock. A task's ticks are periodic from task start: tick `k` fires at
//! `k * interval`. The task checks the signal at the top of its loop, and
//! its wait for the next tick is raced against the signal, so cancellation
//! ends the wait at once; a tick that would fire at or after the moment of
//! cancellation does not emit.

use vstd::arithmetic::div_mod::lemma_div_is_ordered;
use vstd::arithmetic::div_mod::lemma_hoist_over_denominator;
use vstd::arithmetic::div_mod::lemma_div_multiples_vanish;
use vstd::arithmetic::div_mod::lemma_fundamental_div_mod_converse;
use vstd::arithmetic::mul::lemma_mul_strict_inequality;
use vstd::prelude::*;

use crate::level::Level;
use crate::textfmt::elapsed_display;
use crate::textfmt::elapsed_string;

verus! {

/// The severity a periodic task logs at.
#[derive(Clone, Copy, Debug, PartialEq, Eq, Structural)]
pub enum Severity {
    Info,
    Warn,
    Debug,
}

/// The two states of a periodic task: it runs until it observes
/// cancellation, then stops; stopped is terminal.
#[derive(Clone, Copy, Debug, PartialEq, Eq, Structural)]
pub enum TaskState {
    Running,
    Stopped,
}

/// What a task decides at the top of its loop: wait for the next tick, or
/// finish because cancellation was observed.
#[derive(Clone, Copy, Debug, PartialEq, Eq, Structural)]
pub enum TaskStep {
    AwaitTick,
    Finish,
}

/// One formatted log line: a severity level and the message text.
pub struct LogLine {
    pub level: Level,
    pub message: String,
}

/// The log level a task of a given severity emits at.
pub open spec fn severity_level(sev: Severity) -> Level {
    match sev {
        Severity::Info => Level::Info,
        Severity::Warn => Level::Warn,
        Severity::Debug => Level::Debug,
    }
}

/// The fixed message prefix of each severity.
pub open spec fn severity_prefix(sev: Severity) -> Seq<char> {
    match sev {
        Severity::Info => "information at "@,
        Severity::Warn => "warning at "@,
        Severity::Debug => "debug message at "@,
    }
}

/// The message a task emits on a tick: its prefix, the elapsed time with
/// one decimal, and the unit.
pub open spec fn tick_message_spec(sev: Severity, elapsed_ds: nat) -> Seq<char> {
    severity_prefix(sev) + elapsed_display(elapsed_ds) + " sec"@
}

/// A periodic task: a severity and a fixed tick interval in deciseconds,
/// plus its run state.
#[derive(Clone, Copy, Debug, PartialEq, Eq, Structural)]
pub struct PeriodicTask {
    pub severity: Severity,
    pub interval_ds: u64,
    pub state: TaskState,
}

/// Builds the periodic tasks: holds the shared start instant (on the
/// process clock, in deciseconds) and the cancellation signal as created at
/// startup.
#[derive(Clone, Copy, Debug, PartialEq, Eq, Structural)]
pub struct RoutineBuilder {
    pub start_ds: u64,
    pub signal: crate::signal::CancellationSignal,
}

impl RoutineBuilder {
    /// Captures the shared start instant and the cancellation signal.
    pub fn new(start_ds: u64, signal: crate::signal::CancellationSignal) -> (r: Self)
        ensures
            r.start_ds == start_ds,
            r.signal == signal,
    {
        RoutineBuilder { start_ds, signal }
    }

    /// A running info-severity task with the given tick interval.
    pub fn info(&self, interval_ds: u64) -> (t: PeriodicTask)
        ensures
            t == (PeriodicTask {
                severity: Severity::Info,
                interval_ds,
                state: TaskState::Running,
            }),
    {
        PeriodicTask { severity: Severity::Info, interval_ds, state: TaskState::Running }
    }

    /// A running warn-severity task with the given tick interval.
    pub fn warn(&self, interval_ds: u64) -> (t: PeriodicTask)
        ensures
            t == (PeriodicTask {
                severity: Severity::Warn,
                interval_ds,
                state: TaskState::Running,
            }),
    {
        PeriodicTask { severity: Severity::Warn, interval_ds, state: TaskState::Running }
    }

    /// A running debug-severity task with the given tick interval.
    pub fn debug(&self, interval_ds: u64) -> (t: PeriodicTask)
        ensures
            t == (PeriodicTask {
                severity: Severity::Debug,
                interval_ds,
                state: TaskState::Running,
            }),
    {
        PeriodicTask { severity: Severity::Debug, interval_ds, state: TaskState::Running }
    }
}

impl PeriodicTask {
    /// The decision at the top of the task loop: finish as soon as
    /// cancellation is observed (or the task has already stopped),
    /// otherwise keep running and wait for the next tick. A task that is
    /// never cancelled therefore never stops.
    pub fn poll(&mut self, cancelled: bool) -> (step: TaskStep)
        ensures
            final(self).severity == old(self).severity,
            final(self).interval_ds == old(self).interval_ds,
            cancelled || old(self).state == TaskState::Stopped ==> final(self).state
                == TaskState::Stopped && step == TaskStep::Finish,
            !cancelled && old(self).state == TaskState::Running ==> *final(self) == *old(self)
                && step == TaskStep::AwaitTick,
    {
        if cancelled || matches!(self.state, TaskState::Stopped) {
            self.state = TaskState::Stopped;
            TaskStep::Finish
        } else {
            TaskStep::AwaitTick
        }
    }

    /// The line emitted on a tick: exactly one message at the task's
    /// severity, showing the elapsed time in seconds with one decimal.
    pub fn on_tick(&self, elapsed_ds: u64) -> (line: LogLine)
        requires
            self.state == TaskState::Running,
        ensures
            line.level == severity_level(self.severity),
            line.message@ == tick_message_spec(self.severity, elapsed_ds as nat),
    {
        let prefix: &'static str = match self.severity {
            Severity::Info => "information at ",
            Severity::Warn => "warning at ",
            Severity::Debug => "debug message at ",
        };
        let mut message = String::from_str(prefix);
        let elapsed = elapsed_string(elapsed_ds);
        message.append(elapsed.as_str());
        message.append(" sec");
        proof {
            assert(message@ =~= tick_message_spec(self.severity, elapsed_ds as nat));
        }
        LogLine { level: severity_level_exec(self.severity), message }
    }
}

/// Returns the log level a task of the given severity emits at.
pub fn severity_level_exec(sev: Severity) -> (lv: Level)
    ensures
        lv == severity_level(sev),
{
    match sev {
        Severity::Info => Level::Info,
        Severity::Warn => Level::Warn,
        Severity::Debug => Level::Debug,
    }
}

/// How many lines a task with tick interval `interval` (in deciseconds,
/// positive) emits when the signal is cancelled `cancel_at` deciseconds
/// after task start: the ticks `k * interval`, `k >= 1`, that fire strictly
/// before the cancellation instant.
pub open spec fn emitted_count(interval: nat, cancel_at: nat) -> nat
    recommends
        interval > 0,
{
    if cancel_at == 0 {
        0
    } else {
        (((cancel_at - 1) as nat) / interval)
    }
}

/// The complete record of one task's run against a cancellation instant:
/// the stopped task, the elapsed time of every line it emitted, and the
/// instant it observed cancellation and stopped.
pub struct TaskRun {
    pub task: PeriodicTask,
    pub emitted_ds: Vec<u64>,
    pub stopped_at_ds: u64,
}

/// Runs a task's loop against a signal cancelled `cancel_at_ds`
/// deciseconds after task start: at the top of each iteration the task
/// polls the signal and finishes if it is cancelled; otherwise it waits for
/// the next tick, a wait the cancellation interrupts at once. Each tick
/// that fires emits one line.
///
/// The run record pins the whole behavior down: the task ends stopped; the
/// emitted lines are exactly the ticks `interval, 2*interval, ...` strictly
/// before the cancellation instant, `emitted_count` of them; and the task
/// observes cancellation and stops at the cancellation instant itself — in
/// particular within one tick interval of it, and nothing is emitted at or
/// after it.
pub fn run_until_cancelled(task: PeriodicTask, cancel_at_ds: u64) -> (r: TaskRun)
    requires
        task.state == TaskState::Running,
        task.interval_ds > 0,
        cancel_at_ds + task.interval_ds <= u64::MAX,
    ensures
        r.task.severity == task.severity,
        r.task.interval_ds == task.interval_ds,
        r.task.state == TaskState::Stopped,
        r.emitted_ds@.len() == emitted_count(task.interval_ds as nat, cancel_at_ds as nat),
        forall|j: int|
            0 <= j < r.emitted_ds@.len() ==> r.emitted_ds@[j] == (j + 1) * task.interval_ds,
        forall|j: int| 0 <= j < r.emitted_ds@.len() ==> r.emitted_ds@[j] < cancel_at_ds,
        r.stopped_at_ds == cancel_at_ds,
        r.stopped_at_ds <= cancel_at_ds + task.interval_ds,
{
    let interval: u64 = task.interval_ds;
    let mut t = task;
    let mut emitted: Vec<u64> = Vec::new();
    let mut now: u64 = 0;
    proof {
        assert((emitted@.len() + 1) * interval == interval) by (nonlinear_arith)
            requires
                emitted@.len() == 0,
        ;
    }
    loop
        invariant_except_break
            t.state == TaskState::Running,
            (now == emitted@.len() * interval && now < cancel_at_ds) || (now == cancel_at_ds
                && cancel_at_ds <= (emitted@.len() + 1) * interval && (emitted@.len() == 0
                || emitted@.len() * interval < cancel_at_ds)),
        invariant
            t.severity == task.severity,
            t.interval_ds == interval,
            interval == task.interval_ds,
            interval > 0,
            cancel_at_ds + interval <= u64::MAX,
            now <= cancel_at_ds,
            forall|j: int| 0 <= j < emitted@.len() ==> emitted@[j] == (j + 1) * interval,
            forall|j: int| 0 <= j < emitted@.len() ==> emitted@[j] < cancel_at_ds,
        ensures
            t.state == TaskState::Stopped,
            now == cancel_at_ds,
            cancel_at_ds <= (emitted@.len() + 1) * interval,
            emitted@.len() == 0 || emitted@.len() * interval < cancel_at_ds,
        decreases cancel_at_ds + interval - now,
    {
        let ghost len0 = emitted@.len();
        let cancelled = cancel_at_ds <= now;
        let step = t.poll(cancelled);
        if matches!(step, TaskStep::Finish) {
            break ;
        }
        // The task waits for the next tick; cancellation interrupts the
        // wait the moment it fires.
        proof {
            assert(now == len0 * interval && now < cancel_at_ds);
            assert((len0 + 1) * interval == len0 * interval + interval) by (nonlinear_arith);
        }
        let next_tick = now + interval;
        if cancel_at_ds <= next_tick {
            now = cancel_at_ds;
        } else {
            now = next_tick;
            emitted.push(now);
        }
    }
    proof {
        lemma_run_count(interval as nat, cancel_at_ds as nat, emitted@.len());
    }
    TaskRun { task: t, emitted_ds: emitted, stopped_at_ds: now }
}

/// A run whose last emitted tick fires strictly before the cancellation
/// instant, with the following tick at or after it, emits exactly
/// `emitted_count` lines.
proof fn lemma_run_count(interval: nat, cancel_at: nat, n: nat)
    requires
        interval > 0,
        n == 0 || n * interval < cancel_at,
        cancel_at <= (n + 1) * interval,
    ensures
        n == emitted_count(interval, cancel_at),
{
    if cancel_at == 0 {
        assert(n == 0);
    } else {
        let x = (cancel_at - 1) as int;
        assert((n + 1) * interval == n * interval + interval) by (nonlinear_arith);
        assert(n * interval >= 0) by (nonlinear_arith);
        let r = x - n * interval;
        assert(0 <= r < interval);
        lemma_fundamental_div_mod_converse(x, interval as int, n as int, r);
    }
}

/// The number of lines a task emits before cancellation is the whole
/// number of intervals in the elapsed time, give or take one for the tick
/// in flight at the boundary.
pub proof fn lemma_emitted_count_within_one(interval: nat, cancel_at: nat)
    requires
        interval > 0,
    ensures
        emitted_count(interval, cancel_at) <= cancel_at / interval,
        cancel_at / interval <= emitted_count(interval, cancel_at) + 1,
{
    if cancel_at > 0 {
        let x = (cancel_at - 1) as int;
        lemma_div_is_ordered(x, cancel_at as int, interval as int);
        lemma_hoist_over_denominator(x, 1, interval);
        lemma_div_is_ordered(cancel_at as int, x + interval, interval as int);
    }
}

/// A task's own lines are strictly increasing in elapsed time: the
/// elapsed values a run emits — tick `j + 1` at `(j + 1) * interval` — grow
/// strictly with the tick index.
pub proof fn lemma_emitted_strictly_increasing(emitted: Seq<u64>, interval: nat)
    requires
        interval > 0,
        forall|j: int| 0 <= j < emitted.len() ==> emitted[j] == (j + 1) * interval,
    ensures
        forall|j: int, k: int| 0 <= j < k < emitted.len() ==> emitted[j] < emitted[k],
{
    assert forall|j: int, k: int| 0 <= j < k < emitted.len() implies emitted[j] < emitted[k] by {
        lemma_mul_strict_inequality(j + 1, k + 1, interval as int);
    }
}

/// A task that is never cancelled keeps emitting: by any elapsed time of
/// `n` whole intervals and a little more, it has emitted at least `n`
/// lines, so no finite bound holds of an uncancelled run.
pub proof fn lemma_uncancelled_emission_unbounded(interval: nat, n: nat)
    requires
        interval > 0,
    ensures
        emitted_count(interval, n * interval + 1) >= n,
{
    assert(n * interval == interval * n) by (nonlinear_arith);
    lemma_div_multiples_vanish(n as int, interval as int);
}

} // verus!
