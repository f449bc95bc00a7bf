use remote_console::console::{recent_rows, screen_line};
use remote_console::keys::{
    command_keystrokes, control_char_keystrokes, create_control_char_event, create_ctrl_key_event,
    create_key_event, ctrl_c_keystrokes, KeyStroke, LEFT_CTRL_PRESSED,
};
use remote_console::process::{is_cmd_candidate, is_cmd_process, CmdProcessInfo};

fn plain(unicode_char: u16, key_down: bool) -> KeyStroke {
    KeyStroke {
        key_down,
        repeat_count: 1,
        virtual_key_code: 0,
        virtual_scan_code: 0,
        unicode_char,
        control_key_state: 0,
    }
}

#[test]
fn key_event_carries_the_character() {
    assert_eq!(create_key_event('d', true), plain(0x64, true));
    assert_eq!(create_key_event('\r', false), plain(0x0d, false));
}

#[test]
fn ctrl_key_event_holds_left_control() {
    let stroke = create_ctrl_key_event(0x43, true, true);
    assert_eq!(stroke.virtual_key_code, 0x43);
    assert_eq!(stroke.unicode_char, 0);
    assert_eq!(stroke.control_key_state, LEFT_CTRL_PRESSED);
    assert_eq!(stroke.control_key_state, 8);
    assert_eq!(stroke.repeat_count, 1);
    assert!(stroke.key_down);
    assert_eq!(create_ctrl_key_event(0x43, false, false).control_key_state, 0);
}

#[test]
fn control_char_event_uses_the_code_twice() {
    let stroke = create_control_char_event(0x0a, false);
    assert_eq!(stroke.virtual_key_code, 0x0a);
    assert_eq!(stroke.unicode_char, 0x0a);
    assert_eq!(stroke.control_key_state, 0);
    assert!(!stroke.key_down);
}

#[test]
fn command_keystrokes_type_and_press_return() {
    assert_eq!(
        command_keystrokes("dir"),
        vec![
            plain(0x64, true),
            plain(0x64, false),
            plain(0x69, true),
            plain(0x69, false),
            plain(0x72, true),
            plain(0x72, false),
            plain(0x0d, true),
            plain(0x0d, false),
        ]
    );
    assert_eq!(command_keystrokes(""), vec![plain(0x0d, true), plain(0x0d, false)]);
}

#[test]
fn ctrl_c_is_two_strokes() {
    let strokes = ctrl_c_keystrokes();
    assert_eq!(strokes.len(), 2);
    assert_eq!(strokes[0], create_ctrl_key_event(0x43, true, true));
    assert_eq!(strokes[1], create_ctrl_key_event(0x43, false, true));
}

#[test]
fn control_char_is_two_strokes() {
    let strokes = control_char_keystrokes(0x0d);
    assert_eq!(strokes, vec![create_control_char_event(0x0d, true), create_control_char_event(0x0d, false)]);
}

#[test]
fn recent_rows_end_at_the_cursor() {
    assert_eq!(recent_rows(10, 3), Some((8, 10)));
    assert_eq!(recent_rows(10, 11), Some((0, 10)));
    assert_eq!(recent_rows(10, 10), Some((1, 10)));
    assert_eq!(recent_rows(10, 500), Some((0, 10)));
    assert_eq!(recent_rows(0, 1), Some((0, 0)));
    assert_eq!(recent_rows(i16::MAX, 1), Some((i16::MAX, i16::MAX)));
    assert_eq!(recent_rows(i16::MAX, usize::MAX), Some((0, i16::MAX)));
}

#[test]
fn recent_rows_can_be_none() {
    assert_eq!(recent_rows(10, 0), None);
    assert_eq!(recent_rows(-1, 5), None);
}

#[test]
fn screen_line_decodes_and_trims() {
    let units: Vec<u16> = "C:\\> dir  \0\0".encode_utf16().collect();
    assert_eq!(screen_line(&units), "C:\\> dir");
    let padded: Vec<u16> = "prompt   ".encode_utf16().collect();
    assert_eq!(screen_line(&padded), "prompt");
    assert_eq!(screen_line(&vec![0u16; 8]), "");
    assert_eq!(screen_line(&vec![0x20u16, 0x41, 0xD800, 0x20]), " A\u{FFFD}");
}

#[test]
fn cmd_processes_are_found_whatever_the_case() {
    assert!(is_cmd_process("cmd.exe", 10, 1, 1, 1));
    assert!(is_cmd_process("CMD.EXE", 10, 1, 1, 1));
    assert!(is_cmd_process("Cmd.Exe", 10, 1, 1, 1));
    assert!(!is_cmd_process("powershell.exe", 10, 1, 1, 1));
    assert!(!is_cmd_process("cmd.exe", 1, 1, 1, 1));
    assert!(!is_cmd_process("cmd.exe", 10, 1, 2, 1));
}

#[test]
fn candidate_rule_takes_the_lowered_name_as_it_is() {
    assert!(is_cmd_candidate(&"cmd.exe".to_string(), 10, 1, 1, 1));
    assert!(!is_cmd_candidate(&"CMD.EXE".to_string(), 10, 1, 1, 1));
    assert!(!is_cmd_candidate(&"cmd.exe".to_string(), 7, 7, 1, 1));
    assert!(!is_cmd_candidate(&"cmd.exe".to_string(), 10, 1, 0, 1));
}

#[test]
fn process_info_keeps_a_title_only_with_a_window() {
    let info = CmdProcessInfo::new(5, 1, true, Some("Command Prompt".to_string()), true);
    assert_eq!(info.pid, 5);
    assert_eq!(info.session_id, 1);
    assert!(info.has_window);
    assert!(info.attachable);
    assert_eq!(info.window_title, Some("Command Prompt".to_string()));
    let hidden = CmdProcessInfo::new(6, 1, false, Some("ignored".to_string()), false);
    assert_eq!(hidden.window_title, None);
    assert!(!hidden.attachable);
}
