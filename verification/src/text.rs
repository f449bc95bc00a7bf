//! Text that the session layer produces: decimal numbers, status messages
//! and line joining.
use vstd::prelude::*;
use vstd::string::StringExecFns;
use crate::protocol::{Failure, SessionError};

verus! {

/// The character that writes the digit `d`, for `d` below ten.
pub open spec fn digit_char(d: nat) -> char {
    if d == 0 {
        '0'
    } else if d == 1 {
        '1'
    } else if d == 2 {
        '2'
    } else if d == 3 {
        '3'
    } else if d == 4 {
        '4'
    } else if d == 5 {
        '5'
    } else if d == 6 {
        '6'
    } else if d == 7 {
        '7'
    } else if d == 8 {
        '8'
    } else {
        '9'
    }
}

/// The decimal notation of `n`, most significant digit first, without
/// leading zeros.
pub open spec fn decimal_text(n: nat) -> Seq<char>
    decreases n,
{
    if n < 10 {
        seq![digit_char(n)]
    } else {
        decimal_text(n / 10).push(digit_char(n % 10))
    }
}

/// The status message that announces a binding to `pid`.
pub open spec fn attached_text(pid: u32) -> Seq<char> {
    "attached to "@ + decimal_text(pid as nat)
}

/// The status message that announces that no console is bound.
pub open spec fn detached_text() -> Seq<char> {
    "detached"@
}

/// The lines of `lines` with one line feed between each two neighbours.
pub open spec fn joined_text(lines: Seq<Seq<char>>) -> Seq<char>
    decreases lines.len(),
{
    if lines.len() == 0 {
        Seq::empty()
    } else if lines.len() == 1 {
        lines[0]
    } else {
        joined_text(lines.drop_last()) + seq!['\n'] + lines.last()
    }
}

fn digit_str(d: u32) -> (s: &'static str)
    requires
        d < 10,
    ensures
        s@ == seq![digit_char(d as nat)],
{
    proof {
        reveal_strlit("0");
        reveal_strlit("1");
        reveal_strlit("2");
        reveal_strlit("3");
        reveal_strlit("4");
        reveal_strlit("5");
        reveal_strlit("6");
        reveal_strlit("7");
        reveal_strlit("8");
        reveal_strlit("9");
    }
    let s = if d == 0 {
        "0"
    } else if d == 1 {
        "1"
    } else if d == 2 {
        "2"
    } else if d == 3 {
        "3"
    } else if d == 4 {
        "4"
    } else if d == 5 {
        "5"
    } else if d == 6 {
        "6"
    } else if d == 7 {
        "7"
    } else if d == 8 {
        "8"
    } else {
        "9"
    };
    assert(s@ =~= seq![digit_char(d as nat)]);
    s
}

/// Writes `n` in decimal.
pub fn decimal(n: u32) -> (s: String)
    ensures
        s@ == decimal_text(n as nat),
    decreases n,
{
    if n < 10 {
        String::from_str(digit_str(n))
    } else {
        let mut s = decimal(n / 10);
        let ghost before = s@;
        s.append(digit_str(n % 10));
        assert(s@ =~= before.push(digit_char((n % 10) as nat)));
        s
    }
}

/// Builds the status message for a binding to `pid`.
pub fn attached_message(pid: u32) -> (s: String)
    ensures
        s@ == attached_text(pid),
{
    let digits = decimal(pid);
    String::from_str("attached to ").concat(digits.as_str())
}

/// Builds the status message for the unbound state.
pub fn detached_message() -> (s: String)
    ensures
        s@ == detached_text(),
{
    String::from_str("detached")
}

/// The text that reports a failure to a person.
pub open spec fn failure_text(failure: Failure) -> Seq<char> {
    match failure {
        Failure::AttachFailed { pid, reason } => "failed to attach to "@ + decimal_text(pid as nat)
            + ": "@ + reason,
        Failure::DetachFailed { reason } => "failed to detach: "@ + reason,
        Failure::ReadFailed { reason } => "failed to read the console: "@ + reason,
        Failure::WriteFailed { reason } => "failed to write to the console: "@ + reason,
        Failure::NotAttached => "not attached to any console"@,
        Failure::QueueClosed => "the session has ended"@,
    }
}

impl SessionError {
    /// The failure as text for a person.
    pub fn message(&self) -> (text: String)
        ensures
            text@ == failure_text(self@),
    {
        match self {
            SessionError::AttachFailed { pid, reason } => {
                let digits = decimal(*pid);
                String::from_str("failed to attach to ").concat(digits.as_str()).concat(
                    ": ",
                ).concat(reason.as_str())
            },
            SessionError::DetachFailed { reason } => String::from_str("failed to detach: ").concat(
                reason.as_str(),
            ),
            SessionError::ReadFailed { reason } => String::from_str(
                "failed to read the console: ",
            ).concat(reason.as_str()),
            SessionError::WriteFailed { reason } => String::from_str(
                "failed to write to the console: ",
            ).concat(reason.as_str()),
            SessionError::NotAttached => String::from_str("not attached to any console"),
            SessionError::QueueClosed => String::from_str("the session has ended"),
        }
    }
}

} // verus!
