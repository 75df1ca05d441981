//! The signal listener: bridges the first OS termination notification into
//! the shared cancellation signal.
//!
//! The listener is one-shot: it waits for any notification out of the fixed
//! platform set, logs exactly one line naming the notification it received,
//! cancels the shared signal, and is done. A second notification is never
//! processed: handling one requires the listener to still be waiting.

use vstd::prelude::*;

use crate::level::Level;
use crate::routine::LogLine;
use crate::signal::CancellationSignal;
use crate::signal::spec_cancel;

verus! {

/// A termination notification the process can receive: terminate and
/// interrupt requests on POSIX-like systems, console control events on
/// Windows-like systems.
#[derive(Clone, Copy, Debug, PartialEq, Eq, Structural)]
pub enum NotificationKind {
    Terminate,
    Interrupt,
    CtrlC,
    CtrlBreak,
    CtrlClose,
    CtrlShutdown,
}

/// The listener's states: it waits for one notification, then is done;
/// done is terminal.
#[derive(Clone, Copy, Debug, PartialEq, Eq, Structural)]
pub enum ListenerState {
    Waiting,
    Done,
}

/// The one log line the listener emits, naming the notification received.
pub open spec fn received_message_spec(kind: NotificationKind) -> Seq<char> {
    match kind {
        NotificationKind::Terminate => "Received SIGTERM."@,
        NotificationKind::Interrupt => "Received SIGINT."@,
        NotificationKind::CtrlC => "Received CTRL_C."@,
        NotificationKind::CtrlBreak => "Received CTRL_BREAK."@,
        NotificationKind::CtrlClose => "Received CTRL_CLOSE."@,
        NotificationKind::CtrlShutdown => "Received CTRL_SHUTDOWN."@,
    }
}

/// The signal listener: waits for the first termination notification and
/// flips the cancellation signal.
#[derive(Clone, Copy, Debug, PartialEq, Eq, Structural)]
pub struct SignalListener {
    pub state: ListenerState,
}

impl SignalListener {
    /// A listener that is waiting for a notification.
    pub fn new() -> (r: Self)
        ensures
            r.state == ListenerState::Waiting,
    {
        SignalListener { state: ListenerState::Waiting }
    }

    /// Handles the first termination notification: emits exactly one
    /// debug-level line naming it, cancels the shared signal, and reaches
    /// the terminal state. Only a waiting listener handles a notification,
    /// so no second one is ever processed.
    pub fn on_notification(
        &mut self,
        kind: NotificationKind,
        signal: &mut CancellationSignal,
    ) -> (line: LogLine)
        requires
            old(self).state == ListenerState::Waiting,
        ensures
            final(self).state == ListenerState::Done,
            *final(signal) == spec_cancel(*old(signal)),
            final(signal).spec_is_cancelled(),
            line.level == Level::Debug,
            line.message@ == received_message_spec(kind),
    {
        let text: &'static str = match kind {
            NotificationKind::Terminate => "Received SIGTERM.",
            NotificationKind::Interrupt => "Received SIGINT.",
            NotificationKind::CtrlC => "Received CTRL_C.",
            NotificationKind::CtrlBreak => "Received CTRL_BREAK.",
            NotificationKind::CtrlClose => "Received CTRL_CLOSE.",
            NotificationKind::CtrlShutdown => "Received CTRL_SHUTDOWN.",
        };
        signal.cancel();
        self.state = ListenerState::Done;
        LogLine { level: Level::Debug, message: String::from_str(text) }
    }
}

} // verus!
