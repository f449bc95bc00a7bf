//! Candidate processes: which of the running processes is offered for an
//! attach, and what is recorded of it.
use vstd::prelude::*;
use vstd::string::StringExecFns;

verus! {

/// What is known of one command-interpreter process.
#[derive(Clone, Debug)]
pub struct CmdProcessInfo {
    pub pid: u32,
    pub window_title: Option<String>,
    pub session_id: u32,
    pub has_window: bool,
    pub attachable: bool,
}

/// What `str::to_lowercase` makes of a text.
pub uninterp spec fn lowercase_text(text: Seq<char>) -> Seq<char>;

/// `str::to_lowercase`: the lowercase form of a text depends on the text
/// alone.
#[verifier::external_body]
fn lowercase(text: &str) -> (lowered: String)
    ensures
        lowered@ == lowercase_text(text@),
{
    text.to_lowercase()
}

/// Whether a process is offered: it is not the asking process itself, its
/// name in lowercase is `cmd.exe`, and it runs in the asking process's
/// session.
pub open spec fn is_candidate(
    lowered_name: Seq<char>,
    pid: u32,
    own_pid: u32,
    session_id: u32,
    own_session_id: u32,
) -> bool {
    pid != own_pid && lowered_name == "cmd.exe"@ && session_id == own_session_id
}

/// Decides whether a process is offered, from its name in lowercase.
pub fn is_cmd_candidate(
    lowered_name: &String,
    pid: u32,
    own_pid: u32,
    session_id: u32,
    own_session_id: u32,
) -> (offered: bool)
    ensures
        offered == is_candidate(lowered_name@, pid, own_pid, session_id, own_session_id),
{
    let wanted = String::from_str("cmd.exe");
    pid != own_pid && *lowered_name == wanted && session_id == own_session_id
}

/// Decides whether a process is offered, from its name as the system gives
/// it.
pub fn is_cmd_process(
    name: &str,
    pid: u32,
    own_pid: u32,
    session_id: u32,
    own_session_id: u32,
) -> (offered: bool)
    ensures
        offered == is_candidate(lowercase_text(name@), pid, own_pid, session_id, own_session_id),
{
    let lowered = lowercase(name);
    is_cmd_candidate(&lowered, pid, own_pid, session_id, own_session_id)
}

impl CmdProcessInfo {
    /// The record of a candidate. A title is kept only for a process that
    /// has a window.
    pub fn new(
        pid: u32,
        session_id: u32,
        has_window: bool,
        window_title: Option<String>,
        attachable: bool,
    ) -> (info: CmdProcessInfo)
        ensures
            info.pid == pid,
            info.session_id == session_id,
            info.has_window == has_window,
            info.attachable == attachable,
            info.window_title == if has_window {
                window_title
            } else {
                None::<String>
            },
    {
        let window_title = if has_window {
            window_title
        } else {
            None
        };
        CmdProcessInfo { pid, window_title, session_id, has_window, attachable }
    }
}

} // verus!
