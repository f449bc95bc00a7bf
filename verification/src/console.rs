//! Values around the console itself: the record of one binding, the device
//! names in the form the system takes them, and the screen as one text.
use vstd::prelude::*;
use vstd::string::StrSliceExecFns;
use vstd::string::StringExecFns;
use crate::differ::lines_view;
use crate::protocol::{Failure, SessionError, SessionState};
use crate::text::joined_text;

verus! {

/// The number of lines that make up the whole screen for `read_all_console`.
pub const ALL_CONSOLE_LINES: usize = 500;

/// The record of one binding, from the attach that made it to its release.
#[derive(Debug)]
pub struct ConsoleAttachment {
    pid: u32,
    attached: bool,
}

impl ConsoleAttachment {
    /// The process whose console the record is of.
    pub closed spec fn spec_pid(self) -> u32 {
        self.pid
    }

    /// Whether the binding is live.
    pub closed spec fn spec_is_attached(self) -> bool {
        self.attached
    }

    /// The session state that the record stands for.
    pub open spec fn state(self) -> SessionState {
        if self.spec_is_attached() {
            SessionState::Attached { pid: self.spec_pid() }
        } else {
            SessionState::Detached
        }
    }

    /// The record of the attempt to bind the console of `pid`, given how the
    /// attempt ended: a live binding if it succeeded, else the failure with
    /// its reason.
    pub fn new(pid: u32, outcome: Result<(), String>) -> (made: Result<Self, SessionError>)
        ensures
            match outcome {
                Ok(_) => made is Ok && made->Ok_0.spec_pid() == pid
                    && made->Ok_0.spec_is_attached() && made->Ok_0.state() == (
                SessionState::Attached { pid }),
                Err(reason) => made is Err && made->Err_0@ == (Failure::AttachFailed {
                    pid,
                    reason: reason@,
                }),
            },
    {
        match outcome {
            Ok(_) => Ok(ConsoleAttachment { pid, attached: true }),
            Err(reason) => Err(SessionError::AttachFailed { pid, reason }),
        }
    }

    /// The process whose console the record is of.
    pub fn pid(&self) -> (pid: u32)
        ensures
            pid == self.spec_pid(),
    {
        self.pid
    }

    /// Whether the binding is live.
    pub fn is_attached(&self) -> (attached: bool)
        ensures
            attached == self.spec_is_attached(),
    {
        self.attached
    }

    /// Marks the binding as released and says whether the console has to be
    /// detached for it: exactly if the binding was live. A second release
    /// asks for nothing.
    pub fn release(&mut self) -> (must_detach: bool)
        ensures
            must_detach == old(self).spec_is_attached(),
            !final(self).spec_is_attached(),
            final(self).spec_pid() == old(self).spec_pid(),
            final(self).state() == SessionState::Detached,
    {
        let must_detach = self.attached;
        self.attached = false;
        must_detach
    }
}

/// The code units of `text`, each character as one unit, with a closing
/// zero. For characters of the basic plane that is the null-terminated wide
/// string of `text`.
pub open spec fn wide_text(text: Seq<char>) -> Seq<u16> {
    text.map_values(|c: char| c as u16).push(0u16)
}

fn wide(text: &str) -> (units: Vec<u16>)
    ensures
        units@ == wide_text(text@),
{
    let count = text.unicode_len();
    let mut units: Vec<u16> = Vec::new();
    let mut i: usize = 0;
    while i < count
        invariant
            i <= count,
            count == text@.len(),
            units@ == text@.take(i as int).map_values(|c: char| c as u16),
        decreases count - i,
    {
        let c = text.get_char(i);
        units.push(c as u16);
        assert(units@ =~= text@.take(i + 1).map_values(|c: char| c as u16));
        i += 1;
    }
    assert(text@.take(count as int) =~= text@);
    units.push(0u16);
    units
}

/// The name of the console's output device as a null-terminated wide string.
pub fn conout_wide() -> (units: Vec<u16>)
    ensures
        units@ == wide_text("CONOUT$"@),
        units@ == seq![0x43u16, 0x4fu16, 0x4eu16, 0x4fu16, 0x55u16, 0x54u16, 0x24u16, 0u16],
{
    let units = wide("CONOUT$");
    proof {
        reveal_strlit("CONOUT$");
        assert(units@ =~= seq![
            0x43u16,
            0x4fu16,
            0x4eu16,
            0x4fu16,
            0x55u16,
            0x54u16,
            0x24u16,
            0u16,
        ]);
    }
    units
}

/// The name of the console's input device as a null-terminated wide string.
pub fn conin_wide() -> (units: Vec<u16>)
    ensures
        units@ == wide_text("CONIN$"@),
        units@ == seq![0x43u16, 0x4fu16, 0x4eu16, 0x49u16, 0x4eu16, 0x24u16, 0u16],
{
    let units = wide("CONIN$");
    proof {
        reveal_strlit("CONIN$");
        assert(units@ =~= seq![0x43u16, 0x4fu16, 0x4eu16, 0x49u16, 0x4eu16, 0x24u16, 0u16]);
    }
    units
}

/// The screen as one text: the lines that were read, oldest first, with a
/// line feed between each two. The lines are those of a read of
/// `ALL_CONSOLE_LINES` lines.
pub fn read_all_console(lines: &Vec<String>) -> (text: String)
    ensures
        text@ == joined_text(lines_view(lines@)),
{
    let ghost all = lines_view(lines@);
    let mut text = String::new();
    let mut i: usize = 0;
    proof {
        reveal_strlit("\n");
        assert(all.take(0) =~= Seq::<Seq<char>>::empty());
    }
    while i < lines.len()
        invariant
            i <= lines.len(),
            all == lines_view(lines@),
            text@ == joined_text(all.take(i as int)),
            "\n"@ == seq!['\n'],
        decreases lines.len() - i,
    {
        let ghost before = text@;
        if i > 0 {
            text.append("\n");
        }
        text.append(lines[i].as_str());
        proof {
            let shorter = all.take(i as int);
            let longer = all.take(i + 1);
            assert(longer.drop_last() =~= shorter);
            assert(longer.last() == lines@[i as int]@);
            if i == 0 {
                assert(before =~= Seq::<char>::empty());
                assert(text@ =~= longer[0]);
            } else {
                assert(text@ =~= joined_text(shorter) + seq!['\n'] + longer.last());
            }
        }
        i += 1;
    }
    assert(all.take(lines.len() as int) =~= all);
    text
}

/// The rows of the screen buffer that a read of at most `max_lines` lines
/// takes when the cursor stands in row `cursor_y`: the most recent ones, up
/// to and including the cursor's row.
pub open spec fn recent_rows_spec(cursor_y: i16, max_lines: usize) -> Option<(i16, i16)> {
    if cursor_y < 0 || max_lines == 0 {
        None
    } else if max_lines > cursor_y {
        Some((0i16, cursor_y))
    } else {
        Some(((cursor_y - max_lines + 1) as i16, cursor_y))
    }
}

/// The first and the last row to read, or `None` where there is none to
/// read: with no line asked for, or a cursor above the buffer.
pub fn recent_rows(cursor_y: i16, max_lines: usize) -> (rows: Option<(i16, i16)>)
    ensures
        rows == recent_rows_spec(cursor_y, max_lines),
        rows matches Some((first, last)) ==> 0 <= first <= last && last == cursor_y && last
            - first + 1 <= max_lines,
{
    if cursor_y < 0 || max_lines == 0 {
        None
    } else if max_lines > cursor_y as usize {
        Some((0i16, cursor_y))
    } else {
        let back = (max_lines - 1) as i16;
        Some((cursor_y - back, cursor_y))
    }
}

/// What `String::from_utf16_lossy` makes of a sequence of code units.
pub uninterp spec fn utf16_lossy_text(units: Seq<u16>) -> Seq<char>;

/// What `str::trim_end` leaves of a text.
pub uninterp spec fn trim_end_text(text: Seq<char>) -> Seq<char>;

/// `text` without the null characters at its end.
pub open spec fn without_trailing_nuls(text: Seq<char>) -> Seq<char>
    decreases text.len(),
{
    if text.len() > 0 && text.last() == '\0' {
        without_trailing_nuls(text.drop_last())
    } else {
        text
    }
}

/// `String::from_utf16_lossy`: the text depends on the code units alone.
#[verifier::external_body]
fn decode_utf16_lossy(units: &Vec<u16>) -> (text: String)
    ensures
        text@ == utf16_lossy_text(units@),
{
    String::from_utf16_lossy(units)
}

/// `str::trim_end_matches` with the null character as its pattern: what is
/// left is the text without every null character at its end.
#[verifier::external_body]
fn trim_trailing_nuls(text: &str) -> (rest: &str)
    ensures
        rest@ == without_trailing_nuls(text@),
{
    text.trim_end_matches('\0')
}

/// `str::trim_end`: what is left depends on the text alone.
#[verifier::external_body]
fn trim_end(text: &str) -> (rest: &str)
    ensures
        rest@ == trim_end_text(text@),
{
    text.trim_end()
}

/// The text of one row of the screen buffer, given its code units: decoded,
/// then without the null characters at its end, then without the white
/// space at the end of what is left.
pub fn screen_line(units: &Vec<u16>) -> (line: String)
    ensures
        line@ == trim_end_text(without_trailing_nuls(utf16_lossy_text(units@))),
{
    let decoded = decode_utf16_lossy(units);
    String::from_str(trim_end(trim_trailing_nuls(decoded.as_str())))
}

} // verus!
