//! What holds of every session, proved over the transition function.
use std::time::Instant;
use vstd::prelude::*;
use crate::differ::lines_view;
use crate::protocol::{Command, Event, Failure, SessionState};
use crate::session::{ActionView, OutcomeView, Phase, SessionView};
use crate::text::detached_text;

verus! {

/// The processes whose console a state records as bound.
pub open spec fn bound_pids(state: SessionState) -> Set<u32> {
    match state {
        SessionState::Attached { pid } => set![pid],
        SessionState::Detached => Set::empty(),
    }
}

/// A ledger of live bindings, kept from the console operations alone: a
/// successful attach adds its process, a release empties the ledger whether
/// or not it reported success, and so does a failed read, which means that
/// the console is gone. Nothing else changes it.
pub open spec fn ledger_after(ledger: Set<u32>, session: SessionView, outcome: OutcomeView) -> Set<
    u32,
> {
    match (session.phase, outcome) {
        (Phase::Attaching { pid }, OutcomeView::Attached(None)) => ledger.insert(pid),
        (Phase::Replacing { .. }, OutcomeView::Detached(_)) => Set::empty(),
        (Phase::Releasing, OutcomeView::Detached(_)) => Set::empty(),
        (Phase::Finishing, OutcomeView::Detached(_)) => Set::empty(),
        (Phase::Reading, OutcomeView::ReadFailed { .. }) => Set::empty(),
        _ => ledger,
    }
}

/// The session after a sequence of outcomes, taken in order.
pub open spec fn run(session: SessionView, outcomes: Seq<OutcomeView>) -> SessionView
    decreases outcomes.len(),
{
    if outcomes.len() == 0 {
        session
    } else {
        run(session, outcomes.drop_last()).transition(outcomes.last()).next
    }
}

/// The ledger of live bindings after a sequence of outcomes, begun with
/// what the session records.
pub open spec fn ledger_run(session: SessionView, outcomes: Seq<OutcomeView>) -> Set<u32>
    decreases outcomes.len(),
{
    if outcomes.len() == 0 {
        bound_pids(session.state)
    } else {
        ledger_after(
            ledger_run(session, outcomes.drop_last()),
            run(session, outcomes.drop_last()),
            outcomes.last(),
        )
    }
}

/// Two snapshots differ in the sense of the differencer: in length, or in
/// the line at some index.
pub open spec fn differs(previous: Seq<Seq<char>>, current: Seq<Seq<char>>) -> bool {
    previous.len() != current.len() || exists|i: int|
        0 <= i < previous.len() && #[trigger] previous[i] != current[i]
}

/// Every transition keeps a well-formed session well-formed.
pub proof fn law_transition_keeps_wf(session: SessionView, outcome: OutcomeView)
    requires
        session.wf(),
    ensures
        session.transition(outcome).next.wf(),
{
}

/// One transition keeps the ledger of live bindings equal to what the
/// session records, so the ledger never holds two processes; and an attach
/// is asked for only while the session records no binding.
pub proof fn law_single_binding(session: SessionView, outcome: OutcomeView)
    requires
        session.wf(),
    ensures
        ledger_after(bound_pids(session.state), session, outcome) == bound_pids(
            session.transition(outcome).next.state,
        ),
        bound_pids(session.transition(outcome).next.state).finite(),
        bound_pids(session.transition(outcome).next.state).len() <= 1,
        session.transition(outcome).action is Attach ==> session.transition(outcome).next.state
            is Detached,
{
    let next = session.transition(outcome).next;
    assert(ledger_after(bound_pids(session.state), session, outcome) =~= bound_pids(next.state));
    lemma_bound_pids_small(next.state);
}

proof fn lemma_bound_pids_small(state: SessionState)
    ensures
        bound_pids(state).finite(),
        bound_pids(state).len() <= 1,
{
    match state {
        SessionState::Attached { pid } => {
            assert(bound_pids(state) =~= Set::<u32>::empty().insert(pid));
        },
        SessionState::Detached => {},
    }
}

/// Mutual exclusion: whatever outcomes a well-formed session is driven
/// with, in whatever order the commands among them were queued, the ledger
/// of live bindings agrees with the recorded state and never holds two
/// processes at once.
pub proof fn law_mutual_exclusion(session: SessionView, outcomes: Seq<OutcomeView>)
    requires
        session.wf(),
    ensures
        run(session, outcomes).wf(),
        ledger_run(session, outcomes) == bound_pids(run(session, outcomes).state),
        ledger_run(session, outcomes).finite(),
        ledger_run(session, outcomes).len() <= 1,
    decreases outcomes.len(),
{
    if outcomes.len() == 0 {
        lemma_bound_pids_small(session.state);
    } else {
        law_mutual_exclusion(session, outcomes.drop_last());
        let before = run(session, outcomes.drop_last());
        law_transition_keeps_wf(before, outcomes.last());
        law_single_binding(before, outcomes.last());
    }
}

/// Commands take their turn. A command is accepted only between two
/// operations; while an operation is outstanding a command changes nothing,
/// so the command before it is resolved first. The queue is asked for only
/// when nothing is outstanding. And a command that is accepted is either
/// resolved at once, or ends the session, or leaves exactly one console
/// operation outstanding.
pub proof fn law_commands_in_turn(session: SessionView, outcome: OutcomeView, command: Command)
    requires
        session.wf(),
    ensures
        session.awaits(OutcomeView::Command(command)) <==> session.phase == Phase::Draining,
        session.phase != Phase::Draining ==> {
            &&& session.transition(OutcomeView::Command(command)).next == session
            &&& session.transition(OutcomeView::Command(command)).events.len() == 0
        },
        session.awaits(outcome) && session.transition(outcome).action is NextCommand
            ==> session.transition(outcome).next.phase == Phase::Draining,
        session.phase == Phase::Draining ==> {
            let step = session.apply(command);
            ||| step.action is NextCommand && step.next.phase == Phase::Draining
            ||| step.action is Exit && step.next.phase == Phase::Stopped
            ||| step.action.touches_console() && step.next.phase != Phase::Draining
                && step.next.state == session.state && step.events.len() == 0
        },
{
}

/// The differencer's verdict is inequality of the snapshots, and that is
/// the same as a difference in length or at some index. In particular a
/// snapshot never differs from itself.
pub proof fn law_diff(previous: Seq<Seq<char>>, current: Seq<Seq<char>>)
    ensures
        (previous != current) <==> differs(previous, current),
        !differs(previous, previous),
{
    if !differs(previous, current) {
        assert(previous =~= current);
    }
}

/// Two snapshots of strings whose lines agree at every index have the same
/// view, and a difference in length or in one line shows in the views.
pub proof fn law_diff_of_lines(previous: Seq<String>, current: Seq<String>)
    ensures
        differs(lines_view(previous), lines_view(current)) <==> (previous.len() != current.len()
            || exists|i: int| 0 <= i < previous.len() && #[trigger] previous[i]@ != current[i]@),
{
    let a = lines_view(previous);
    let b = lines_view(current);
    if previous.len() == current.len() {
        if exists|i: int| 0 <= i < previous.len() && #[trigger] previous[i]@ != current[i]@ {
            let i = choose|i: int| 0 <= i < previous.len() && #[trigger] previous[i]@ != current[i]@;
            assert(a[i] != b[i]);
        }
        if differs(a, b) {
            let i = choose|i: int| 0 <= i < a.len() && #[trigger] a[i] != b[i];
            assert(previous[i]@ != current[i]@);
        }
    }
}

/// A poll publishes at most one event, and a read that repeats the one
/// before it publishes nothing: after a read of `lines`, the pause and an
/// empty queue, a second read of the same `lines` yields no event.
pub proof fn law_identical_reads_publish_once(
    session: SessionView,
    lines: Seq<Seq<char>>,
    first_at: Instant,
    second_at: Instant,
)
    requires
        session.wf(),
        session.phase == Phase::Reading,
    ensures
        ({
            let first = session.transition(OutcomeView::LinesRead { lines, observed_at: first_at });
            let rested = first.next.transition(OutcomeView::Slept).next;
            let again = rested.transition(OutcomeView::QueueEmpty);
            let second = again.next.transition(
                OutcomeView::LinesRead { lines, observed_at: second_at },
            );
            &&& first.events.len() <= 1
            &&& first.next.snapshot == lines
            &&& again.action == ActionView::ReadLines(session.lines)
            &&& second.events.len() == 0
            &&& second.next.snapshot == lines
        }),
{
}

/// A read that returns what was published last publishes nothing and
/// leaves the session as it would be after any read: paused, with the same
/// binding and the same snapshot. So however often the same lines are read
/// in a row, only the first read publishes them.
pub proof fn law_unchanged_read_is_silent(
    session: SessionView,
    lines: Seq<Seq<char>>,
    observed_at: Instant,
)
    requires
        session.phase == Phase::Reading,
        session.snapshot == lines,
    ensures
        ({
            let read = session.transition(OutcomeView::LinesRead { lines, observed_at });
            &&& read.events.len() == 0
            &&& read.next == session.at(Phase::Sleeping)
        }),
{
}

/// The snapshot changes in two ways only: a read replaces it with the lines
/// that were read, and a new or a lost binding empties it. Commands that
/// keep the binding, pauses and writes leave it as it is.
pub proof fn law_baseline_changes_by_read_or_binding(session: SessionView, outcome: OutcomeView)
    ensures
        ({
            let next = session.transition(outcome).next;
            ||| next.snapshot == session.snapshot
            ||| outcome matches OutcomeView::LinesRead { lines, .. } && next.snapshot == lines
            ||| next.snapshot.len() == 0
        }),
{
}

/// A detach while nothing is bound touches no console and changes nothing;
/// it only confirms the status.
pub proof fn law_detach_is_idempotent(session: SessionView)
    requires
        session.phase == Phase::Draining,
        session.state is Detached,
    ensures
        ({
            let step = session.transition(OutcomeView::Command(Command::Detach));
            &&& step.next == session
            &&& !step.action.touches_console()
            &&& step.action is NextCommand
            &&& step.events == seq![Event::Status(detached_text())]
        }),
{
}

/// A successful attach forgets every earlier snapshot, so the first read
/// after it that returns at least one line is published, whatever was
/// published before.
pub proof fn law_reattach_resets_baseline(
    session: SessionView,
    pid: u32,
    lines: Seq<Seq<char>>,
    observed_at: Instant,
)
    requires
        session.phase == (Phase::Attaching { pid }),
        lines.len() > 0,
    ensures
        ({
            let attached = session.transition(OutcomeView::Attached(None)).next;
            let polling = attached.transition(OutcomeView::QueueEmpty);
            let read = polling.next.transition(OutcomeView::LinesRead { lines, observed_at });
            &&& attached.state == SessionState::Attached { pid }
            &&& attached.snapshot.len() == 0
            &&& polling.action == ActionView::ReadLines(session.lines)
            &&& read.events == seq![Event::Output { lines, timestamp: observed_at }]
            &&& read.next.snapshot == lines
        }),
{
}

/// Every way into the unbound state forgets the snapshot: a session that
/// records no binding after a transition has none.
pub proof fn law_unbinding_clears_baseline(session: SessionView, outcome: OutcomeView)
    requires
        session.wf(),
    ensures
        session.transition(outcome).next.state is Detached ==> session.transition(
            outcome,
        ).next.snapshot.len() == 0,
{
}

/// While nothing is bound, a command to send text or a control code never
/// reaches the console: it is answered at once with the failure
/// `NotAttached`, and nothing changes.
pub proof fn law_writes_are_gated(session: SessionView, command: Command)
    requires
        session.phase == Phase::Draining,
        session.state is Detached,
        command is SendText || command is SendControl,
    ensures
        ({
            let step = session.transition(OutcomeView::Command(command));
            &&& step.next == session
            &&& !step.action.touches_console()
            &&& step.action is NextCommand
            &&& step.events == seq![Event::Error(Failure::NotAttached)]
        }),
{
}

} // verus!
