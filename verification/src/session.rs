//! The owner of the console binding, as a transition system.
//!
//! The manager is told the outcome of the action it asked for last and
//! answers with the events to publish and the next action. Exactly one
//! action is outstanding at any time, so console operations never overlap,
//! and the command queue is consulted only between them.
use std::time::Duration;
use std::time::Instant;
use vstd::prelude::*;
use crate::differ::{copy_lines, diff, empty_lines, lines_view};
use crate::protocol::{
    events_view, Command, Event, Failure, SessionError, SessionState, UiMessage, WorkerConfig,
    WorkerMessage,
};
use crate::text::{attached_message, attached_text, detached_message, detached_text};

verus! {

/// Where the owner stands in its loop, that is, which outcome it awaits.
#[derive(Clone, Copy, Debug, PartialEq, Eq, Structural)]
pub enum Phase {
    /// Between operations: the next queued command is awaited.
    Draining,
    /// The old binding is being released so that `pid` can be bound.
    Replacing { pid: u32 },
    /// The console of `pid` is being bound.
    Attaching { pid: u32 },
    /// The binding is being released on request.
    Releasing,
    /// Text or a control code is being injected.
    Writing,
    /// The binding is being released because the session ends.
    Finishing,
    /// The screen is being read.
    Reading,
    /// The pause between two rounds.
    Sleeping,
    /// The session has ended.
    Stopped,
}

/// What the driver of the session must do next.
#[derive(Clone, Debug)]
pub enum Action {
    /// Take the next command from the queue without waiting, and report it,
    /// or that the queue is empty or closed.
    NextCommand,
    /// Release the console binding.
    Detach,
    /// Bind the console of this process.
    Attach(u32),
    /// Read this many of the most recent lines of the screen.
    ReadLines(usize),
    /// Type this text into the console.
    SendText(String),
    /// Inject this control code into the console.
    SendControl(u16),
    /// Pause for this long.
    Sleep(Duration),
    /// Leave the loop.
    Exit,
}

/// The view of an [`Action`].
pub enum ActionView {
    NextCommand,
    Detach,
    Attach(u32),
    ReadLines(usize),
    SendText(Seq<char>),
    SendControl(u16),
    Sleep(Duration),
    Exit,
}

impl View for Action {
    type V = ActionView;

    open spec fn view(&self) -> ActionView {
        match *self {
            Action::NextCommand => ActionView::NextCommand,
            Action::Detach => ActionView::Detach,
            Action::Attach(pid) => ActionView::Attach(pid),
            Action::ReadLines(count) => ActionView::ReadLines(count),
            Action::SendText(text) => ActionView::SendText(text@),
            Action::SendControl(code) => ActionView::SendControl(code),
            Action::Sleep(interval) => ActionView::Sleep(interval),
            Action::Exit => ActionView::Exit,
        }
    }
}

impl ActionView {
    /// Whether the action is an operation on the console itself.
    pub open spec fn touches_console(self) -> bool {
        match self {
            ActionView::Detach => true,
            ActionView::Attach(_) => true,
            ActionView::ReadLines(_) => true,
            ActionView::SendText(_) => true,
            ActionView::SendControl(_) => true,
            _ => false,
        }
    }
}

/// What the driver reports back: the outcome of the action asked for last.
/// A failed console operation carries the reason as text.
#[derive(Debug)]
pub enum Outcome {
    /// The next command of the queue.
    Command(UiMessage),
    /// No command is queued.
    QueueEmpty,
    /// No command can come any more: every handle is gone.
    QueueClosed,
    /// The release of the binding returned.
    Detached(Result<(), String>),
    /// The attempt to bind a console returned.
    Attached(Result<(), String>),
    /// The injection of text or of a control code returned.
    Written(Result<(), String>),
    /// The read of the screen returned, at the given time.
    Lines { result: Result<Vec<String>, String>, observed_at: Instant },
    /// The pause is over.
    Slept,
}

/// The view of an [`Outcome`]. A console operation that failed is `Some`
/// reason, one that succeeded is `None`.
pub enum OutcomeView {
    Command(Command),
    QueueEmpty,
    QueueClosed,
    Detached(Option<Seq<char>>),
    Attached(Option<Seq<char>>),
    Written(Option<Seq<char>>),
    LinesRead { lines: Seq<Seq<char>>, observed_at: Instant },
    ReadFailed { reason: Seq<char> },
    Slept,
}

/// The reason for which a console operation failed, if it did.
pub open spec fn failure_of(result: Result<(), String>) -> Option<Seq<char>> {
    match result {
        Ok(_) => None,
        Err(reason) => Some(reason@),
    }
}

impl View for Outcome {
    type V = OutcomeView;

    open spec fn view(&self) -> OutcomeView {
        match *self {
            Outcome::Command(command) => OutcomeView::Command(command@),
            Outcome::QueueEmpty => OutcomeView::QueueEmpty,
            Outcome::QueueClosed => OutcomeView::QueueClosed,
            Outcome::Detached(result) => OutcomeView::Detached(failure_of(result)),
            Outcome::Attached(result) => OutcomeView::Attached(failure_of(result)),
            Outcome::Written(result) => OutcomeView::Written(failure_of(result)),
            Outcome::Lines { result, observed_at } => match result {
                Ok(lines) => OutcomeView::LinesRead { lines: lines_view(lines@), observed_at },
                Err(reason) => OutcomeView::ReadFailed { reason: reason@ },
            },
            Outcome::Slept => OutcomeView::Slept,
        }
    }
}

/// The answer to an outcome: the events to publish, in order, and the next
/// action.
#[derive(Clone, Debug)]
pub struct Step {
    pub events: Vec<WorkerMessage>,
    pub action: Action,
}

/// The mathematical state of a session.
pub struct SessionView {
    pub state: SessionState,
    pub phase: Phase,
    pub interval: Duration,
    pub lines: usize,
    /// The snapshot that was published last; empty while nothing is bound.
    pub snapshot: Seq<Seq<char>>,
}

/// The mathematical answer to an outcome.
pub struct StepView {
    pub next: SessionView,
    pub events: Seq<Event>,
    pub action: ActionView,
}

impl SessionView {
    /// A session as it begins: nothing bound, nothing published, the queue
    /// awaited.
    pub open spec fn initial(interval: Duration, lines: usize) -> SessionView {
        SessionView {
            state: SessionState::Detached,
            phase: Phase::Draining,
            interval,
            lines,
            snapshot: Seq::empty(),
        }
    }

    /// What holds of every session that began as `initial` and was driven by
    /// `transition`: a console operation that needs a binding is outstanding
    /// only while one is recorded, an attach only while none is, and without
    /// a binding there is no snapshot.
    pub open spec fn wf(self) -> bool {
        &&& match self.phase {
            Phase::Replacing { .. } | Phase::Releasing | Phase::Writing | Phase::Finishing
            | Phase::Reading => self.state is Attached,
            Phase::Attaching { .. } => self.state is Detached,
            _ => true,
        }
        &&& (self.state is Detached ==> self.snapshot == Seq::<Seq<char>>::empty())
    }

    /// Whether `outcome` answers the action that is outstanding.
    pub open spec fn awaits(self, outcome: OutcomeView) -> bool {
        match self.phase {
            Phase::Draining => outcome is Command || outcome is QueueEmpty
                || outcome is QueueClosed,
            Phase::Replacing { .. } | Phase::Releasing | Phase::Finishing => outcome is Detached,
            Phase::Attaching { .. } => outcome is Attached,
            Phase::Writing => outcome is Written,
            Phase::Reading => outcome is LinesRead || outcome is ReadFailed,
            Phase::Sleeping => outcome is Slept,
            Phase::Stopped => false,
        }
    }

    /// The session with phase `phase`, nothing else changed.
    pub open spec fn at(self, phase: Phase) -> SessionView {
        SessionView { phase, ..self }
    }

    /// The session without a binding and without a snapshot, at `phase`.
    pub open spec fn unbound(self, phase: Phase) -> SessionView {
        SessionView { state: SessionState::Detached, snapshot: Seq::empty(), phase, ..self }
    }

    /// The session between two operations with no event to publish.
    pub open spec fn settled(self) -> StepView {
        StepView { next: self.at(Phase::Draining), events: seq![], action: ActionView::NextCommand }
    }

    /// The session between two operations with one event to publish.
    pub open spec fn settled_with(self, event: Event) -> StepView {
        StepView {
            next: self.at(Phase::Draining),
            events: seq![event],
            action: ActionView::NextCommand,
        }
    }

    /// The answer to a command taken from the queue.
    pub open spec fn apply(self, command: Command) -> StepView {
        match command {
            Command::Attach(pid) => match self.state {
                SessionState::Attached { .. } => StepView {
                    next: self.at(Phase::Replacing { pid }),
                    events: seq![],
                    action: ActionView::Detach,
                },
                SessionState::Detached => StepView {
                    next: self.at(Phase::Attaching { pid }),
                    events: seq![],
                    action: ActionView::Attach(pid),
                },
            },
            Command::Detach => match self.state {
                SessionState::Attached { .. } => StepView {
                    next: self.at(Phase::Releasing),
                    events: seq![],
                    action: ActionView::Detach,
                },
                SessionState::Detached => self.settled_with(Event::Status(detached_text())),
            },
            Command::SendText(text) => match self.state {
                SessionState::Attached { .. } => StepView {
                    next: self.at(Phase::Writing),
                    events: seq![],
                    action: ActionView::SendText(text),
                },
                SessionState::Detached => self.settled_with(Event::Error(Failure::NotAttached)),
            },
            Command::SendControl(code) => match self.state {
                SessionState::Attached { .. } => StepView {
                    next: self.at(Phase::Writing),
                    events: seq![],
                    action: ActionView::SendControl(code),
                },
                SessionState::Detached => self.settled_with(Event::Error(Failure::NotAttached)),
            },
            Command::SetInterval(interval) => SessionView { interval, ..self }.settled(),
            Command::SetLines(lines) => SessionView { lines, ..self }.settled(),
            Command::Stop => self.finish(),
        }
    }

    /// The answer to the end of the session: the binding, if any, is
    /// released first.
    pub open spec fn finish(self) -> StepView {
        match self.state {
            SessionState::Attached { .. } => StepView {
                next: self.at(Phase::Finishing),
                events: seq![],
                action: ActionView::Detach,
            },
            SessionState::Detached => StepView {
                next: self.at(Phase::Stopped),
                events: seq![],
                action: ActionView::Exit,
            },
        }
    }

    /// The answer to an empty queue: one poll if a console is bound, then
    /// the pause.
    pub open spec fn poll_or_pause(self) -> StepView {
        match self.state {
            SessionState::Attached { .. } => StepView {
                next: self.at(Phase::Reading),
                events: seq![],
                action: ActionView::ReadLines(self.lines),
            },
            SessionState::Detached => self.pause(seq![]),
        }
    }

    /// The pause that ends a round, with `events` to publish.
    pub open spec fn pause(self, events: Seq<Event>) -> StepView {
        StepView { next: self.at(Phase::Sleeping), events, action: ActionView::Sleep(self.interval) }
    }

    /// The event that reports a release that failed, if it did.
    pub open spec fn release_events(failure: Option<Seq<char>>) -> Seq<Event> {
        match failure {
            Some(reason) => seq![Event::Error(Failure::DetachFailed { reason })],
            None => seq![],
        }
    }

    /// The answer to `outcome`. An outcome that the session does not await
    /// changes nothing and publishes nothing; the manager hands such an
    /// outcome back instead of answering it.
    pub open spec fn transition(self, outcome: OutcomeView) -> StepView {
        match (self.phase, outcome) {
            (Phase::Draining, OutcomeView::Command(command)) => self.apply(command),
            (Phase::Draining, OutcomeView::QueueEmpty) => self.poll_or_pause(),
            (Phase::Draining, OutcomeView::QueueClosed) => self.finish(),
            (Phase::Replacing { pid }, OutcomeView::Detached(failure)) => StepView {
                next: self.unbound(Phase::Attaching { pid }),
                events: Self::release_events(failure),
                action: ActionView::Attach(pid),
            },
            (Phase::Attaching { pid }, OutcomeView::Attached(None)) => StepView {
                next: SessionView {
                    state: SessionState::Attached { pid },
                    snapshot: Seq::empty(),
                    phase: Phase::Draining,
                    ..self
                },
                events: seq![Event::Status(attached_text(pid))],
                action: ActionView::NextCommand,
            },
            (Phase::Attaching { pid }, OutcomeView::Attached(Some(reason))) => StepView {
                next: self.unbound(Phase::Draining),
                events: seq![Event::Error(Failure::AttachFailed { pid, reason })],
                action: ActionView::NextCommand,
            },
            (Phase::Releasing, OutcomeView::Detached(failure)) => StepView {
                next: self.unbound(Phase::Draining),
                events: Self::release_events(failure).push(Event::Status(detached_text())),
                action: ActionView::NextCommand,
            },
            (Phase::Writing, OutcomeView::Written(None)) => self.settled(),
            (Phase::Writing, OutcomeView::Written(Some(reason))) => self.settled_with(
                Event::Error(Failure::WriteFailed { reason }),
            ),
            (Phase::Finishing, OutcomeView::Detached(failure)) => StepView {
                next: self.unbound(Phase::Stopped),
                events: Self::release_events(failure),
                action: ActionView::Exit,
            },
            (Phase::Reading, OutcomeView::LinesRead { lines, observed_at }) => {
                if lines != self.snapshot {
                    SessionView { snapshot: lines, ..self }.pause(
                        seq![Event::Output { lines, timestamp: observed_at }],
                    )
                } else {
                    self.pause(seq![])
                }
            },
            (Phase::Reading, OutcomeView::ReadFailed { .. }) => self.unbound(Phase::Sleeping).pause(
                seq![Event::Disconnected],
            ),
            (Phase::Sleeping, OutcomeView::Slept) => self.settled(),
            _ => StepView { next: self, events: seq![], action: ActionView::NextCommand },
        }
    }
}

/// The owner of the console binding. It holds the binding state, the poll
/// cadence and the snapshot published last, and hands none of them out for
/// writing: they change through `step` alone.
pub struct SessionManager {
    state: SessionState,
    phase: Phase,
    config: WorkerConfig,
    last_snapshot: Vec<String>,
}

impl View for SessionManager {
    type V = SessionView;

    closed spec fn view(&self) -> SessionView {
        SessionView {
            state: self.state,
            phase: self.phase,
            interval: self.config.interval,
            lines: self.config.lines,
            snapshot: lines_view(self.last_snapshot@),
        }
    }
}

fn no_events() -> (events: Vec<WorkerMessage>)
    ensures
        events_view(events@) == Seq::<Event>::empty(),
{
    let events: Vec<WorkerMessage> = Vec::new();
    assert(events_view(events@) =~= Seq::<Event>::empty());
    events
}

fn one_event(event: WorkerMessage) -> (events: Vec<WorkerMessage>)
    ensures
        events_view(events@) == seq![event@],
{
    let mut events: Vec<WorkerMessage> = Vec::new();
    events.push(event);
    assert(events_view(events@) =~= seq![event@]);
    events
}

fn release_events(result: Result<(), String>) -> (events: Vec<WorkerMessage>)
    ensures
        events_view(events@) == SessionView::release_events(failure_of(result)),
{
    match result {
        Ok(_) => no_events(),
        Err(reason) => one_event(WorkerMessage::Error(SessionError::DetachFailed { reason })),
    }
}

impl SessionManager {
    /// A session that has not bound anything yet and awaits the queue: its
    /// driver begins with [`Action::NextCommand`].
    pub fn new(config: WorkerConfig) -> (manager: SessionManager)
        ensures
            manager@ == SessionView::initial(config.interval, config.lines),
            manager@.wf(),
    {
        SessionManager {
            state: SessionState::Detached,
            phase: Phase::Draining,
            config,
            last_snapshot: empty_lines(),
        }
    }

    /// The binding as the session records it.
    pub fn state(&self) -> (state: SessionState)
        ensures
            state == self@.state,
    {
        self.state
    }

    /// Where the session stands in its loop.
    pub fn phase(&self) -> (phase: Phase)
        ensures
            phase == self@.phase,
    {
        self.phase
    }

    /// The pause between two polls.
    pub fn interval(&self) -> (interval: Duration)
        ensures
            interval == self@.interval,
    {
        self.config.interval
    }

    /// The number of lines that a poll reads.
    pub fn line_count(&self) -> (lines: usize)
        ensures
            lines == self@.lines,
    {
        self.config.lines
    }

    /// Whether the session has ended.
    pub fn is_stopped(&self) -> (stopped: bool)
        ensures
            stopped == (self@.phase == Phase::Stopped),
    {
        match self.phase {
            Phase::Stopped => true,
            _ => false,
        }
    }

    fn is_bound(&self) -> (bound: bool)
        ensures
            bound == (self@.state is Attached),
    {
        match self.state {
            SessionState::Attached { .. } => true,
            SessionState::Detached => false,
        }
    }

    fn settle(&mut self, events: Vec<WorkerMessage>) -> (step: Step)
        ensures
            final(self)@ == old(self)@.at(Phase::Draining),
            step.events == events,
            step.action@ == ActionView::NextCommand,
    {
        self.phase = Phase::Draining;
        Step { events, action: Action::NextCommand }
    }

    fn unbind(&mut self, phase: Phase)
        ensures
            final(self)@ == old(self)@.unbound(phase),
    {
        self.state = SessionState::Detached;
        self.last_snapshot = empty_lines();
        self.phase = phase;
    }

    fn pause(&mut self, events: Vec<WorkerMessage>) -> (step: Step)
        ensures
            final(self)@ == old(self)@.at(Phase::Sleeping),
            step.events == events,
            step.action@ == ActionView::Sleep(old(self)@.interval),
    {
        self.phase = Phase::Sleeping;
        Step { events, action: Action::Sleep(self.config.interval) }
    }

    fn finish(&mut self) -> (step: Step)
        ensures
            final(self)@ == old(self)@.finish().next,
            events_view(step.events@) == old(self)@.finish().events,
            step.action@ == old(self)@.finish().action,
    {
        if self.is_bound() {
            self.phase = Phase::Finishing;
            Step { events: no_events(), action: Action::Detach }
        } else {
            self.phase = Phase::Stopped;
            Step { events: no_events(), action: Action::Exit }
        }
    }

    fn poll_or_pause(&mut self) -> (step: Step)
        ensures
            final(self)@ == old(self)@.poll_or_pause().next,
            events_view(step.events@) == old(self)@.poll_or_pause().events,
            step.action@ == old(self)@.poll_or_pause().action,
    {
        if self.is_bound() {
            self.phase = Phase::Reading;
            Step { events: no_events(), action: Action::ReadLines(self.config.lines) }
        } else {
            self.pause(no_events())
        }
    }

    fn apply(&mut self, command: UiMessage) -> (step: Step)
        ensures
            final(self)@ == old(self)@.apply(command@).next,
            events_view(step.events@) == old(self)@.apply(command@).events,
            step.action@ == old(self)@.apply(command@).action,
    {
        let bound = self.is_bound();
        match command {
            UiMessage::Attach(pid) => {
                if bound {
                    self.phase = Phase::Replacing { pid };
                    Step { events: no_events(), action: Action::Detach }
                } else {
                    self.phase = Phase::Attaching { pid };
                    Step { events: no_events(), action: Action::Attach(pid) }
                }
            },
            UiMessage::Detach => {
                if bound {
                    self.phase = Phase::Releasing;
                    Step { events: no_events(), action: Action::Detach }
                } else {
                    self.settle(one_event(WorkerMessage::Status(detached_message())))
                }
            },
            UiMessage::SendText(text) => {
                if bound {
                    self.phase = Phase::Writing;
                    Step { events: no_events(), action: Action::SendText(text) }
                } else {
                    self.settle(one_event(WorkerMessage::Error(SessionError::NotAttached)))
                }
            },
            UiMessage::SendControl(code) => {
                if bound {
                    self.phase = Phase::Writing;
                    Step { events: no_events(), action: Action::SendControl(code) }
                } else {
                    self.settle(one_event(WorkerMessage::Error(SessionError::NotAttached)))
                }
            },
            UiMessage::SetInterval(interval) => {
                self.config.interval = interval;
                self.settle(no_events())
            },
            UiMessage::SetLines(lines) => {
                self.config.lines = lines;
                self.settle(no_events())
            },
            UiMessage::Stop => self.finish(),
        }
    }

    fn observe(&mut self, lines: Vec<String>, observed_at: Instant) -> (step: Step)
        ensures
            final(self)@ == old(self)@.at(Phase::Reading).transition(
                OutcomeView::LinesRead { lines: lines_view(lines@), observed_at },
            ).next,
            events_view(step.events@) == old(self)@.at(Phase::Reading).transition(
                OutcomeView::LinesRead { lines: lines_view(lines@), observed_at },
            ).events,
            step.action@ == old(self)@.at(Phase::Reading).transition(
                OutcomeView::LinesRead { lines: lines_view(lines@), observed_at },
            ).action,
    {
        if diff(&self.last_snapshot, &lines) {
            self.last_snapshot = copy_lines(&lines);
            self.pause(one_event(WorkerMessage::Output { lines, timestamp: observed_at }))
        } else {
            self.pause(no_events())
        }
    }

    /// Takes the outcome of the outstanding action and answers with the
    /// events to publish and the next action, as `transition` says. An
    /// outcome that does not answer the outstanding action is handed back
    /// and nothing changes; a session that has ended awaits nothing.
    pub fn step(&mut self, outcome: Outcome) -> (answer: Result<Step, Outcome>)
        ensures
            answer is Ok <==> old(self)@.awaits(outcome@),
            match answer {
                Ok(step) => {
                    &&& final(self)@ == old(self)@.transition(outcome@).next
                    &&& events_view(step.events@) == old(self)@.transition(outcome@).events
                    &&& step.action@ == old(self)@.transition(outcome@).action
                },
                Err(back) => back == outcome && final(self)@ == old(self)@,
            },
            old(self)@.wf() ==> final(self)@.wf(),
    {
        match self.phase {
            Phase::Draining => match outcome {
                Outcome::Command(command) => Ok(self.apply(command)),
                Outcome::QueueEmpty => Ok(self.poll_or_pause()),
                Outcome::QueueClosed => Ok(self.finish()),
                other => Err(other),
            },
            Phase::Replacing { pid } => match outcome {
                Outcome::Detached(result) => {
                    self.unbind(Phase::Attaching { pid });
                    Ok(Step { events: release_events(result), action: Action::Attach(pid) })
                },
                other => Err(other),
            },
            Phase::Attaching { pid } => match outcome {
                Outcome::Attached(Ok(_)) => {
                    self.state = SessionState::Attached { pid };
                    self.last_snapshot = empty_lines();
                    Ok(self.settle(one_event(WorkerMessage::Status(attached_message(pid)))))
                },
                Outcome::Attached(Err(reason)) => {
                    self.unbind(Phase::Draining);
                    Ok(
                        Step {
                            events: one_event(
                                WorkerMessage::Error(SessionError::AttachFailed { pid, reason }),
                            ),
                            action: Action::NextCommand,
                        },
                    )
                },
                other => Err(other),
            },
            Phase::Releasing => match outcome {
                Outcome::Detached(result) => {
                    self.unbind(Phase::Draining);
                    let mut events = release_events(result);
                    let ghost before = events@;
                    let status = WorkerMessage::Status(detached_message());
                    events.push(status);
                    assert(events_view(events@) =~= events_view(before).push(status@));
                    Ok(Step { events, action: Action::NextCommand })
                },
                other => Err(other),
            },
            Phase::Writing => match outcome {
                Outcome::Written(Ok(_)) => Ok(self.settle(no_events())),
                Outcome::Written(Err(reason)) => Ok(
                    self.settle(
                        one_event(WorkerMessage::Error(SessionError::WriteFailed { reason })),
                    ),
                ),
                other => Err(other),
            },
            Phase::Finishing => match outcome {
                Outcome::Detached(result) => {
                    self.unbind(Phase::Stopped);
                    Ok(Step { events: release_events(result), action: Action::Exit })
                },
                other => Err(other),
            },
            Phase::Reading => match outcome {
                Outcome::Lines { result: Ok(lines), observed_at } => Ok(
                    self.observe(lines, observed_at),
                ),
                Outcome::Lines { result: Err(_), observed_at: _ } => {
                    self.unbind(Phase::Sleeping);
                    Ok(self.pause(one_event(WorkerMessage::Disconnected)))
                },
                other => Err(other),
            },
            Phase::Sleeping => match outcome {
                Outcome::Slept => Ok(self.settle(no_events())),
                other => Err(other),
            },
            Phase::Stopped => Err(outcome),
        }
    }
}

} // verus!
