use remote_console::console::{conin_wide, conout_wide, read_all_console, ConsoleAttachment, ALL_CONSOLE_LINES};
use remote_console::differ::{copy_lines, diff, empty_lines};
use remote_console::protocol::SessionError;
use remote_console::text::{attached_message, decimal, detached_message};

fn text_lines(items: &[&str]) -> Vec<String> {
    items.iter().map(|s| s.to_string()).collect()
}

#[test]
fn diff_of_a_snapshot_with_itself_is_false() {
    assert!(!diff(&text_lines(&[]), &text_lines(&[])));
    assert!(!diff(&text_lines(&["C:\\>", "", "dir"]), &text_lines(&["C:\\>", "", "dir"])));
}

#[test]
fn diff_sees_a_different_length() {
    assert!(diff(&text_lines(&["a"]), &text_lines(&["a", ""])));
    assert!(diff(&text_lines(&["a", ""]), &text_lines(&["a"])));
    assert!(diff(&text_lines(&[]), &text_lines(&[""])));
}

#[test]
fn diff_sees_a_different_line() {
    assert!(diff(&text_lines(&["a", "b", "c"]), &text_lines(&["a", "x", "c"])));
    assert!(diff(&text_lines(&["a", "b", "c"]), &text_lines(&["a", "b", "c "])));
}

#[test]
fn copy_of_lines_is_equal() {
    let snapshot = text_lines(&["one", "", "three"]);
    assert_eq!(copy_lines(&snapshot), snapshot);
    assert!(empty_lines().is_empty());
}

#[test]
fn decimal_writes_numbers() {
    assert_eq!(decimal(0), "0");
    assert_eq!(decimal(7), "7");
    assert_eq!(decimal(10), "10");
    assert_eq!(decimal(4321), "4321");
    assert_eq!(decimal(1_000_000), "1000000");
    assert_eq!(decimal(u32::MAX), "4294967295");
}

#[test]
fn status_messages_have_their_text() {
    assert_eq!(attached_message(4321), "attached to 4321");
    assert_eq!(attached_message(0), "attached to 0");
    assert_eq!(detached_message(), "detached");
}

#[test]
fn device_names_are_null_terminated_wide_strings() {
    let mut conout: Vec<u16> = "CONOUT$".encode_utf16().collect();
    conout.push(0);
    assert_eq!(conout_wide(), conout);
    assert_eq!(conout_wide(), vec![0x43, 0x4f, 0x4e, 0x4f, 0x55, 0x54, 0x24, 0]);
    let mut conin: Vec<u16> = "CONIN$".encode_utf16().collect();
    conin.push(0);
    assert_eq!(conin_wide(), conin);
}

#[test]
fn read_all_console_joins_with_line_feeds() {
    assert_eq!(read_all_console(&text_lines(&[])), "");
    assert_eq!(read_all_console(&text_lines(&["only"])), "only");
    assert_eq!(read_all_console(&text_lines(&["a", "", "c"])), "a\n\nc");
    assert_eq!(read_all_console(&text_lines(&["", ""])), "\n");
    assert_eq!(ALL_CONSOLE_LINES, 500);
}

#[test]
fn attachment_records_a_successful_attach() {
    let mut attachment = match ConsoleAttachment::new(4321, Ok(())) {
        Ok(attachment) => attachment,
        Err(error) => panic!("unexpected failure {:?}", error),
    };
    assert_eq!(attachment.pid(), 4321);
    assert!(attachment.is_attached());
    assert!(attachment.release());
    assert!(!attachment.is_attached());
    assert_eq!(attachment.pid(), 4321);
    assert!(!attachment.release());
}

#[test]
fn attachment_reports_a_failed_attach() {
    match ConsoleAttachment::new(12, Err("no console".to_string())) {
        Err(SessionError::AttachFailed { pid, reason }) => {
            assert_eq!(pid, 12);
            assert_eq!(reason, "no console");
        }
        other => panic!("unexpected result {:?}", other),
    }
}
