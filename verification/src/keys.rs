//! The keystrokes that are injected into a console, as plain records. The
//! caller turns each record into the system's input record, field by field.
use vstd::prelude::*;
use vstd::string::StrSliceExecFns;

verus! {

/// The control-key state of a key that is pressed with the left control key.
pub const LEFT_CTRL_PRESSED: u32 = 0x0008;

/// The virtual key code of the letter C.
pub const VK_C: u16 = 0x43;

/// The control code of control-C, the interrupt.
pub const CTRL_C: u16 = 0x03;

/// One key going down or up.
#[derive(Clone, Copy, Debug, PartialEq, Eq, Structural)]
pub struct KeyStroke {
    pub key_down: bool,
    pub repeat_count: u16,
    pub virtual_key_code: u16,
    pub virtual_scan_code: u16,
    pub unicode_char: u16,
    pub control_key_state: u32,
}

/// The stroke of the character `ch`: no key code, the character as one code
/// unit.
pub open spec fn key_stroke(ch: char, key_down: bool) -> KeyStroke {
    KeyStroke {
        key_down,
        repeat_count: 1,
        virtual_key_code: 0,
        virtual_scan_code: 0,
        unicode_char: ch as u16,
        control_key_state: 0,
    }
}

/// The stroke of the key `vk_code` without a character, with the left
/// control key held if `ctrl`.
pub open spec fn ctrl_key_stroke(vk_code: u16, key_down: bool, ctrl: bool) -> KeyStroke {
    KeyStroke {
        key_down,
        repeat_count: 1,
        virtual_key_code: vk_code,
        virtual_scan_code: 0,
        unicode_char: 0,
        control_key_state: if ctrl {
            LEFT_CTRL_PRESSED
        } else {
            0
        },
    }
}

/// The stroke of the control code `code`, which is both key code and
/// character.
pub open spec fn control_char_stroke(code: u16, key_down: bool) -> KeyStroke {
    KeyStroke {
        key_down,
        repeat_count: 1,
        virtual_key_code: code,
        virtual_scan_code: 0,
        unicode_char: code,
        control_key_state: 0,
    }
}

/// The strokes that type `command` and then press return: each character
/// down and up, in order, then the carriage return down and up.
pub open spec fn command_strokes(command: Seq<char>) -> Seq<KeyStroke> {
    Seq::new(
        2 * command.len() + 2,
        |i: int|
            if i < 2 * command.len() {
                key_stroke(command[i / 2], i % 2 == 0)
            } else {
                key_stroke('\r', i == 2 * command.len())
            },
    )
}

/// Makes the stroke of the character `ch`.
pub fn create_key_event(ch: char, key_down: bool) -> (stroke: KeyStroke)
    ensures
        stroke == key_stroke(ch, key_down),
{
    KeyStroke {
        key_down,
        repeat_count: 1,
        virtual_key_code: 0,
        virtual_scan_code: 0,
        unicode_char: ch as u16,
        control_key_state: 0,
    }
}

/// Makes the stroke of the key `vk_code`, with the left control key held if
/// `ctrl`.
pub fn create_ctrl_key_event(vk_code: u16, key_down: bool, ctrl: bool) -> (stroke: KeyStroke)
    ensures
        stroke == ctrl_key_stroke(vk_code, key_down, ctrl),
{
    KeyStroke {
        key_down,
        repeat_count: 1,
        virtual_key_code: vk_code,
        virtual_scan_code: 0,
        unicode_char: 0,
        control_key_state: if ctrl {
            LEFT_CTRL_PRESSED
        } else {
            0
        },
    }
}

/// Makes the stroke of the control code `code`.
pub fn create_control_char_event(code: u16, key_down: bool) -> (stroke: KeyStroke)
    ensures
        stroke == control_char_stroke(code, key_down),
{
    KeyStroke {
        key_down,
        repeat_count: 1,
        virtual_key_code: code,
        virtual_scan_code: 0,
        unicode_char: code,
        control_key_state: 0,
    }
}

/// The strokes that type `command` and press return.
pub fn command_keystrokes(command: &str) -> (strokes: Vec<KeyStroke>)
    ensures
        strokes@ == command_strokes(command@),
{
    let count = command.unicode_len();
    let mut strokes: Vec<KeyStroke> = Vec::new();
    let mut i: usize = 0;
    while i < count
        invariant
            i <= count,
            count == command@.len(),
            strokes@.len() == 2 * i,
            forall|j: int| 0 <= j < 2 * i ==> strokes@[j] == command_strokes(command@)[j],
        decreases count - i,
    {
        let ch = command.get_char(i);
        strokes.push(create_key_event(ch, true));
        strokes.push(create_key_event(ch, false));
        i += 1;
    }
    strokes.push(create_key_event('\r', true));
    strokes.push(create_key_event('\r', false));
    assert(strokes@ =~= command_strokes(command@));
    strokes
}

/// The two strokes of control-C: the key C down and up with the left
/// control key held.
pub fn ctrl_c_keystrokes() -> (strokes: Vec<KeyStroke>)
    ensures
        strokes@ == seq![ctrl_key_stroke(VK_C, true, true), ctrl_key_stroke(VK_C, false, true)],
{
    let mut strokes: Vec<KeyStroke> = Vec::new();
    strokes.push(create_ctrl_key_event(VK_C, true, true));
    strokes.push(create_ctrl_key_event(VK_C, false, true));
    assert(strokes@ =~= seq![
        ctrl_key_stroke(VK_C, true, true),
        ctrl_key_stroke(VK_C, false, true),
    ]);
    strokes
}

/// The two strokes of the control code `code`: down and up.
pub fn control_char_keystrokes(code: u16) -> (strokes: Vec<KeyStroke>)
    ensures
        strokes@ == seq![control_char_stroke(code, true), control_char_stroke(code, false)],
{
    let mut strokes: Vec<KeyStroke> = Vec::new();
    strokes.push(create_control_char_event(code, true));
    strokes.push(create_control_char_event(code, false));
    assert(strokes@ =~= seq![control_char_stroke(code, true), control_char_stroke(code, false)]);
    strokes
}

/// The strokes of a control code: for the interrupt the key C with the
/// control key held, for every other code the code itself as key and
/// character; each down and up.
pub open spec fn control_strokes(code: u16) -> Seq<KeyStroke> {
    if code == CTRL_C {
        seq![ctrl_key_stroke(VK_C, true, true), ctrl_key_stroke(VK_C, false, true)]
    } else {
        seq![control_char_stroke(code, true), control_char_stroke(code, false)]
    }
}

/// The strokes that inject the control code `code`.
pub fn control_keystrokes(code: u16) -> (strokes: Vec<KeyStroke>)
    ensures
        strokes@ == control_strokes(code),
{
    if code == CTRL_C {
        ctrl_c_keystrokes()
    } else {
        control_char_keystrokes(code)
    }
}

} // verus!
