//! The messages exchanged with a session and the values they carry.
//!
//! Each executable type has a mathematical view in which strings are
//! sequences of characters; the contracts of the crate speak of the views.
use std::time::Duration;
use std::time::Instant;
use vstd::prelude::*;
use crate::differ::lines_view;

verus! {

/// `std::time::Instant`, a point in time that is carried through unread.
#[verifier::external_type_specification]
#[verifier::external_body]
pub struct ExInstant(std::time::Instant);

/// `Clone::clone` of `std::time::Instant`, a `Copy` type: the clone is the
/// value itself.
pub assume_specification[ <std::time::Instant as std::clone::Clone>::clone ](
    instant: &std::time::Instant,
) -> (copy: std::time::Instant)
    ensures
        copy == *instant,
;

/// `Clone::clone` of `std::time::Duration`, a `Copy` type: the clone is the
/// value itself.
pub assume_specification[ <std::time::Duration as std::clone::Clone>::clone ](
    duration: &std::time::Duration,
) -> (copy: std::time::Duration)
    ensures
        copy == *duration,
;

/// Whether a console is bound, and of which process.
#[derive(Clone, Copy, Debug, PartialEq, Eq, Structural)]
pub enum SessionState {
    Detached,
    Attached { pid: u32 },
}

/// What can go wrong in a session.
#[derive(Clone, Debug)]
pub enum SessionError {
    /// The console of `pid` could not be bound.
    AttachFailed { pid: u32, reason: String },
    /// The binding could not be released; never fatal.
    DetachFailed { reason: String },
    /// The screen could not be read.
    ReadFailed { reason: String },
    /// Keystrokes or a control code could not be injected.
    WriteFailed { reason: String },
    /// A write was requested while no console was bound.
    NotAttached,
    /// The owner of the session no longer takes commands.
    QueueClosed,
}

/// The view of a [`SessionError`].
pub enum Failure {
    AttachFailed { pid: u32, reason: Seq<char> },
    DetachFailed { reason: Seq<char> },
    ReadFailed { reason: Seq<char> },
    WriteFailed { reason: Seq<char> },
    NotAttached,
    QueueClosed,
}

impl View for SessionError {
    type V = Failure;

    open spec fn view(&self) -> Failure {
        match *self {
            SessionError::AttachFailed { pid, reason } => Failure::AttachFailed {
                pid,
                reason: reason@,
            },
            SessionError::DetachFailed { reason } => Failure::DetachFailed { reason: reason@ },
            SessionError::ReadFailed { reason } => Failure::ReadFailed { reason: reason@ },
            SessionError::WriteFailed { reason } => Failure::WriteFailed { reason: reason@ },
            SessionError::NotAttached => Failure::NotAttached,
            SessionError::QueueClosed => Failure::QueueClosed,
        }
    }
}

/// A command for the owner of the session.
#[derive(Clone, Debug)]
pub enum UiMessage {
    /// Bind the console of this process.
    Attach(u32),
    /// Release the current binding.
    Detach,
    /// Type this text into the bound console.
    SendText(String),
    /// Inject this control code into the bound console.
    SendControl(u16),
    /// Change the pause between two polls.
    SetInterval(Duration),
    /// Change how many lines a poll reads.
    SetLines(usize),
    /// End the session.
    Stop,
}

/// The view of a [`UiMessage`].
pub enum Command {
    Attach(u32),
    Detach,
    SendText(Seq<char>),
    SendControl(u16),
    SetInterval(Duration),
    SetLines(usize),
    Stop,
}

impl View for UiMessage {
    type V = Command;

    open spec fn view(&self) -> Command {
        match *self {
            UiMessage::Attach(pid) => Command::Attach(pid),
            UiMessage::Detach => Command::Detach,
            UiMessage::SendText(text) => Command::SendText(text@),
            UiMessage::SendControl(code) => Command::SendControl(code),
            UiMessage::SetInterval(interval) => Command::SetInterval(interval),
            UiMessage::SetLines(lines) => Command::SetLines(lines),
            UiMessage::Stop => Command::Stop,
        }
    }
}

/// An event published by the owner of the session.
#[derive(Clone, Debug)]
pub enum WorkerMessage {
    /// The screen content changed.
    Output { lines: Vec<String>, timestamp: Instant },
    /// An operation failed; the session goes on.
    Error(SessionError),
    /// The binding changed, or was confirmed.
    Status(String),
    /// The bound console was lost.
    Disconnected,
}

/// The view of a [`WorkerMessage`].
pub enum Event {
    Output { lines: Seq<Seq<char>>, timestamp: Instant },
    Error(Failure),
    Status(Seq<char>),
    Disconnected,
}

impl View for WorkerMessage {
    type V = Event;

    open spec fn view(&self) -> Event {
        match *self {
            WorkerMessage::Output { lines, timestamp } => Event::Output {
                lines: lines_view(lines@),
                timestamp,
            },
            WorkerMessage::Error(error) => Event::Error(error@),
            WorkerMessage::Status(message) => Event::Status(message@),
            WorkerMessage::Disconnected => Event::Disconnected,
        }
    }
}

/// The events of `events`, each by its view.
pub open spec fn events_view(events: Seq<WorkerMessage>) -> Seq<Event> {
    events.map_values(|event: WorkerMessage| event@)
}

/// The poll cadence: how long to pause between polls and how many lines a
/// poll reads.
#[derive(Clone, Debug)]
pub struct WorkerConfig {
    pub interval: Duration,
    pub lines: usize,
}

/// The number of lines that a poll reads unless told otherwise.
pub const DEFAULT_LINES: usize = 100;

/// The pause between two polls unless told otherwise, in milliseconds.
pub const DEFAULT_INTERVAL_MILLIS: u64 = 500;

/// The duration that `Duration::from_millis` makes of a number of
/// milliseconds.
pub uninterp spec fn millis_duration(millis: u64) -> Duration;

/// `std::time::Duration::from_millis`: the duration depends on the number of
/// milliseconds alone.
pub assume_specification[ std::time::Duration::from_millis ](millis: u64) -> (duration: Duration)
    ensures
        duration == millis_duration(millis),
;

impl Default for WorkerConfig {
    /// Half a second between polls, a hundred lines per poll.
    fn default() -> (config: WorkerConfig)
        ensures
            config.interval == millis_duration(DEFAULT_INTERVAL_MILLIS),
            config.lines == DEFAULT_LINES,
    {
        WorkerConfig { interval: Duration::from_millis(DEFAULT_INTERVAL_MILLIS), lines: DEFAULT_LINES }
    }
}

} // verus!
