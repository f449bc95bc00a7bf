//! The two ends of a session: the handle that clients hold, and the owner
//! that runs the session on its own thread of control. They are joined by
//! two unbounded channels, one for commands and one for events.
use std::time::Duration;
use crossbeam_channel::Receiver;
use crossbeam_channel::SendError;
use crossbeam_channel::Sender;
use vstd::prelude::*;
use crate::protocol::{Failure, SessionError, UiMessage, WorkerConfig, WorkerMessage};
use crate::session::{Action, Outcome, OutcomeView, Phase, SessionManager, SessionView};

verus! {

/// `crossbeam_channel::Sender`, the sending end of a channel.
#[verifier::external_type_specification]
#[verifier::external_body]
#[verifier::reject_recursive_types(T)]
pub struct ExSender<T>(crossbeam_channel::Sender<T>);

/// `crossbeam_channel::Receiver`, the receiving end of a channel.
#[verifier::external_type_specification]
#[verifier::external_body]
#[verifier::reject_recursive_types(T)]
pub struct ExReceiver<T>(crossbeam_channel::Receiver<T>);

/// `crossbeam_channel::SendError`, which hands back a message that could
/// not be sent because the channel is disconnected.
#[verifier::external_type_specification]
#[verifier::external_body]
#[verifier::reject_recursive_types(T)]
pub struct ExSendError<T>(crossbeam_channel::SendError<T>);

/// What a receive without unbounded waiting can come back with.
#[derive(Debug)]
pub enum Received<T> {
    /// The oldest message of the channel.
    Message(T),
    /// No message was there in time, but one may still come.
    Nothing,
    /// The channel is empty and every sender is gone.
    Disconnected,
}

/// `crossbeam_channel::unbounded`: a new channel without a limit, as its two
/// ends. Nothing is claimed of the ends.
#[verifier::external_body]
fn channel<T>() -> (ends: (Sender<T>, Receiver<T>)) {
    crossbeam_channel::unbounded()
}

/// `Sender::send`: whether the message went into the channel depends on
/// whether a receiver still lives, so nothing is claimed of the result. The
/// senders of this module belong to unbounded channels, into which a send
/// does not wait.
#[verifier::external_body]
fn channel_send<T>(sender: &Sender<T>, message: T) -> (sent: Result<(), SendError<T>>) {
    sender.send(message)
}

/// `Receiver::try_recv`: what comes back depends on the other threads, so
/// nothing is claimed of it. The two errors of the channel are told apart.
#[verifier::external_body]
fn channel_try_recv<T>(receiver: &Receiver<T>) -> (received: Received<T>) {
    match receiver.try_recv() {
        Ok(message) => Received::Message(message),
        Err(crossbeam_channel::TryRecvError::Empty) => Received::Nothing,
        Err(crossbeam_channel::TryRecvError::Disconnected) => Received::Disconnected,
    }
}

/// `Receiver::recv_timeout`: waits for a message until the timeout is over
/// or the channel is disconnected; with a timeout beyond what the clock can
/// add, until one of the two happens. Nothing is claimed of what comes back.
#[verifier::external_body]
fn channel_recv_timeout<T>(receiver: &Receiver<T>, timeout: Duration) -> (received: Received<T>) {
    match receiver.recv_timeout(timeout) {
        Ok(message) => Received::Message(message),
        Err(crossbeam_channel::RecvTimeoutError::Timeout) => Received::Nothing,
        Err(crossbeam_channel::RecvTimeoutError::Disconnected) => Received::Disconnected,
    }
}

/// What the caller of `send` is told, given what the channel said: success
/// as it is, and any failure as `QueueClosed`, for a send into an unbounded
/// channel fails only when no receiver is left.
pub fn send_result(sent: Result<(), SendError<UiMessage>>) -> (told: Result<(), SessionError>)
    ensures
        told is Ok <==> sent is Ok,
        told is Err ==> told->Err_0@ == Failure::QueueClosed,
{
    match sent {
        Ok(_) => Ok(()),
        Err(_) => Err(SessionError::QueueClosed),
    }
}

/// The message of a receive, if there was one.
pub fn received_message<T>(received: Received<T>) -> (message: Option<T>)
    ensures
        message == match received {
            Received::Message(m) => Some(m),
            _ => None::<T>,
        },
{
    match received {
        Received::Message(m) => Some(m),
        _ => None,
    }
}

/// The view of what the command queue answered.
pub open spec fn queue_view(received: Received<UiMessage>) -> OutcomeView {
    match received {
        Received::Message(command) => OutcomeView::Command(command@),
        Received::Nothing => OutcomeView::QueueEmpty,
        Received::Disconnected => OutcomeView::QueueClosed,
    }
}

/// What the command queue answered, as an outcome for the session: the
/// command, or that the queue is empty, or that it is closed.
pub fn queue_outcome(received: Received<UiMessage>) -> (outcome: Outcome)
    ensures
        outcome@ == queue_view(received),
{
    match received {
        Received::Message(command) => Outcome::Command(command),
        Received::Nothing => Outcome::QueueEmpty,
        Received::Disconnected => Outcome::QueueClosed,
    }
}

/// The handle of a session: the only thing that clients touch. It sends
/// commands and receives events, and has no access to the console.
pub struct ConsoleWorker {
    ui_tx: Sender<UiMessage>,
    worker_rx: Receiver<WorkerMessage>,
}

/// The owner's side of a session: the manager with the receiving end of the
/// command queue and the sending end of the event queue. It is meant to be
/// moved to the thread of control that runs the session.
pub struct SessionOwner {
    manager: SessionManager,
    ui_rx: Receiver<UiMessage>,
    worker_tx: Sender<WorkerMessage>,
}

impl ConsoleWorker {
    /// A new session with the cadence `config`, as its two sides. The owner
    /// begins detached and awaits the queue.
    pub fn new(config: WorkerConfig) -> (sides: (ConsoleWorker, SessionOwner))
        ensures
            sides.1.manager_view() == SessionView::initial(config.interval, config.lines),
            sides.1.manager_view().wf(),
    {
        let (ui_tx, ui_rx) = channel::<UiMessage>();
        let (worker_tx, worker_rx) = channel::<WorkerMessage>();
        let manager = SessionManager::new(config);
        (ConsoleWorker { ui_tx, worker_rx }, SessionOwner { manager, ui_rx, worker_tx })
    }

    /// Queues a command without waiting. The only failure is `QueueClosed`:
    /// the owner is gone.
    pub fn send(&self, msg: UiMessage) -> (told: Result<(), SessionError>)
        ensures
            told is Err ==> told->Err_0@ == Failure::QueueClosed,
    {
        send_result(channel_send(&self.ui_tx, msg))
    }

    /// The oldest event that has not been received yet, without waiting.
    pub fn try_recv(&self) -> (event: Option<WorkerMessage>) {
        received_message(channel_try_recv(&self.worker_rx))
    }

    /// The oldest event that has not been received yet, waiting for one for
    /// at most `timeout`.
    pub fn recv_timeout(&self, timeout: Duration) -> (event: Option<WorkerMessage>) {
        received_message(channel_recv_timeout(&self.worker_rx, timeout))
    }
}

impl SessionOwner {
    /// The state of the session that this side owns.
    pub closed spec fn manager_view(self) -> SessionView {
        self.manager@
    }

    /// The manager, for reading.
    pub fn manager(&self) -> (manager: &SessionManager)
        ensures
            manager@ == self.manager_view(),
    {
        &self.manager
    }

    /// Asks the command queue without waiting, but only while the session
    /// awaits a command: while an operation is outstanding the queue is not
    /// touched and the answer is `None`, so no command is taken before the
    /// one before it is resolved. Otherwise, whatever the queue answers, the
    /// outcome is a command, or that the queue is empty or closed, and the
    /// session awaits it.
    pub fn next_outcome(&self) -> (outcome: Option<Outcome>)
        ensures
            outcome is Some <==> self.manager_view().phase == Phase::Draining,
            outcome matches Some(taken) ==> {
                &&& taken@ is Command || taken@ is QueueEmpty || taken@ is QueueClosed
                &&& self.manager_view().awaits(taken@)
            },
    {
        match self.manager.phase() {
            Phase::Draining => Some(queue_outcome(channel_try_recv(&self.ui_rx))),
            _ => None,
        }
    }

    /// Gives the session the outcome of the outstanding action, sends the
    /// events that the transition publishes to the event queue, oldest
    /// first, and answers with the next action. An outcome that is not
    /// awaited is handed back; then nothing is sent and nothing changes.
    pub fn advance(&mut self, outcome: Outcome) -> (answer: Result<Action, Outcome>)
        ensures
            answer is Ok <==> old(self).manager_view().awaits(outcome@),
            match answer {
                Ok(action) => {
                    &&& final(self).manager_view() == old(self).manager_view().transition(
                        outcome@,
                    ).next
                    &&& action@ == old(self).manager_view().transition(outcome@).action
                },
                Err(back) => back == outcome && final(self).manager_view() == old(
                    self,
                ).manager_view(),
            },
            old(self).manager_view().wf() ==> final(self).manager_view().wf(),
    {
        match self.manager.step(outcome) {
            Ok(step) => {
                publish(&self.worker_tx, step.events);
                Ok(step.action)
            },
            Err(back) => Err(back),
        }
    }
}

/// Sends `events` in order. An event that cannot be delivered is dropped, as
/// are those after it: the receiver is gone and will not come back.
fn publish(sender: &Sender<WorkerMessage>, events: Vec<WorkerMessage>) {
    let mut rest = events;
    while rest.len() > 0
        decreases rest@.len(),
    {
        let event = rest.remove(0);
        match channel_send(sender, event) {
            Ok(_) => {},
            Err(_) => {
                return ;
            },
        }
    }
}

} // verus!
