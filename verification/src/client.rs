//! What a client of a session remembers of it: the screen content and the
//! status that the events report. The client changes it only by absorbing
//! events and by noting its own requests.
use std::time::Instant;
use vstd::prelude::*;
use vstd::string::StringExecFns;
use crate::differ::{empty_lines, lines_view};
use crate::protocol::{Event, WorkerMessage};
use crate::text::{decimal, decimal_text, failure_text};

verus! {

/// What the client shows of a session.
#[derive(Debug)]
pub struct ClientState {
    /// The lines of the snapshot that was published last.
    pub console_output: Vec<String>,
    /// When that snapshot was read.
    pub output_update_timestamp: Option<Instant>,
    /// The process that the client asked to attach to, until it detaches or
    /// the console is lost.
    pub attached_pid: Option<u32>,
    /// One line on what the session is doing.
    pub status_message: String,
    /// The failure reported last, until an output arrives.
    pub last_error: Option<String>,
}

/// The view of a [`ClientState`].
pub struct ClientView {
    pub console_output: Seq<Seq<char>>,
    pub output_update_timestamp: Option<Instant>,
    pub attached_pid: Option<u32>,
    pub status_message: Seq<char>,
    pub last_error: Option<Seq<char>>,
}

/// An optional text by its view.
pub open spec fn optional_text(text: Option<String>) -> Option<Seq<char>> {
    match text {
        Some(text) => Some(text@),
        None => None,
    }
}

impl View for ClientState {
    type V = ClientView;

    open spec fn view(&self) -> ClientView {
        ClientView {
            console_output: lines_view(self.console_output@),
            output_update_timestamp: self.output_update_timestamp,
            attached_pid: self.attached_pid,
            status_message: self.status_message@,
            last_error: optional_text(self.last_error),
        }
    }
}

impl ClientView {
    /// A client that has asked for nothing yet.
    pub open spec fn initial() -> ClientView {
        ClientView {
            console_output: Seq::empty(),
            output_update_timestamp: None,
            attached_pid: None,
            status_message: "Not attached"@,
            last_error: None,
        }
    }

    /// The client after it has asked to attach to `pid`.
    pub open spec fn attaching(self, pid: u32) -> ClientView {
        ClientView {
            attached_pid: Some(pid),
            status_message: "Attaching to PID "@ + decimal_text(pid as nat) + "..."@,
            ..self
        }
    }

    /// The client after it has asked to detach: nothing is shown any more.
    pub open spec fn detached(self) -> ClientView {
        ClientView {
            attached_pid: None,
            console_output: Seq::empty(),
            status_message: "Not attached"@,
            ..self
        }
    }

    /// The client after an event. An output replaces the lines and clears
    /// the failure; a failure is kept as text; a status replaces the status
    /// line; a lost console ends the attachment and is reported as a
    /// failure.
    pub open spec fn absorbed(self, event: Event) -> ClientView {
        match event {
            Event::Output { lines, timestamp } => ClientView {
                console_output: lines,
                output_update_timestamp: Some(timestamp),
                last_error: None,
                ..self
            },
            Event::Error(failure) => ClientView { last_error: Some(failure_text(failure)), ..self },
            Event::Status(message) => ClientView { status_message: message, ..self },
            Event::Disconnected => ClientView {
                attached_pid: None,
                status_message: "Disconnected"@,
                last_error: Some("Console disconnected"@),
                ..self
            },
        }
    }
}

impl ClientState {
    /// A client that has asked for nothing yet.
    pub fn new() -> (client: ClientState)
        ensures
            client@ == ClientView::initial(),
    {
        ClientState {
            console_output: empty_lines(),
            output_update_timestamp: None,
            attached_pid: None,
            status_message: String::from_str("Not attached"),
            last_error: None,
        }
    }

    /// Notes that the client has asked to attach to `pid`.
    pub fn note_attaching(&mut self, pid: u32)
        ensures
            final(self)@ == old(self)@.attaching(pid),
    {
        let digits = decimal(pid);
        self.attached_pid = Some(pid);
        self.status_message = String::from_str("Attaching to PID ").concat(digits.as_str()).concat(
            "...",
        );
    }

    /// Notes that the client has asked to detach.
    pub fn note_detached(&mut self)
        ensures
            final(self)@ == old(self)@.detached(),
    {
        self.attached_pid = None;
        self.console_output = empty_lines();
        self.status_message = String::from_str("Not attached");
    }

    /// Takes one event in. The result says whether the console was lost, in
    /// which case the session is of no use any more.
    pub fn absorb(&mut self, message: WorkerMessage) -> (disconnected: bool)
        ensures
            final(self)@ == old(self)@.absorbed(message@),
            disconnected == (message@ is Disconnected),
    {
        match message {
            WorkerMessage::Output { lines, timestamp } => {
                self.console_output = lines;
                self.output_update_timestamp = Some(timestamp);
                self.last_error = None;
                false
            },
            WorkerMessage::Error(error) => {
                self.last_error = Some(error.message());
                false
            },
            WorkerMessage::Status(message) => {
                self.status_message = message;
                false
            },
            WorkerMessage::Disconnected => {
                self.attached_pid = None;
                self.status_message = String::from_str("Disconnected");
                self.last_error = Some(String::from_str("Console disconnected"));
                true
            },
        }
    }
}

} // verus!
