use hapi::display::{control_outcome, key_from_raw, Display, DisplayError, KeyPress};

const A: u64 = 1;
const B: u64 = 2;

fn key(code: i32) -> KeyPress {
    KeyPress { key: code, shift: false, ctrl: false }
}

fn shifted(code: i32) -> KeyPress {
    KeyPress { key: code, shift: true, ctrl: false }
}

#[test]
fn arbitration_protocol() {
    let mut d = Display::new();
    assert!(d.assume_control(A).is_ok());
    assert_eq!(d.assume_control(B), Err(DisplayError::Occupied));
    d.override_control(B);
    assert_eq!(d.holder(), Some(B));
    assert_eq!(d.release_control(A), Err(DisplayError::Occupied));
    assert!(d.release_control(B).is_ok());
    assert_eq!(d.holder(), None);
}

#[test]
fn release_without_holding_fails() {
    let mut d = Display::new();
    assert_eq!(d.release_control(A), Err(DisplayError::Occupied));
}

#[test]
fn displace_unclaims_unconditionally() {
    let mut d = Display::new();
    d.override_control(A);
    d.displace_control();
    assert_eq!(d.holder(), None);
    assert!(d.assume_control(B).is_ok());
}

#[test]
fn key_buffer_reads_and_clears() {
    let mut d = Display::new();
    d.assume_control(A).unwrap();
    d.press_key(key(65));
    assert_eq!(d.key_buffer(A), Some(key(65)));
    assert_eq!(d.key_buffer(A), None);
}

#[test]
fn key_buffer_ignores_non_holder() {
    let mut d = Display::new();
    d.assume_control(A).unwrap();
    d.press_key(key(66));
    assert_eq!(d.key_buffer(B), None);
    assert_eq!(d.key_buffer(A), Some(key(66)));
}

#[test]
fn clear_key_discards_event() {
    let mut d = Display::new();
    d.assume_control(A).unwrap();
    d.press_key(key(67));
    d.clear_key(A);
    assert_eq!(d.key_buffer(A), None);
}

#[test]
fn text_operations_respect_holder() {
    let mut d = Display::new();
    d.assume_control(A).unwrap();
    d.set_text(A, "hello");
    assert_eq!(d.text().as_str(), "hello");
    d.set_text(B, "hijack");
    assert_eq!(d.text().as_str(), "hello");
    d.push_stdout(A, " world");
    assert_eq!(d.text().as_str(), "hello world");
    d.push_stdout(B, "!");
    assert_eq!(d.text().as_str(), "hello world");
}

#[test]
fn to_char_letters() {
    assert_eq!(key(65).to_char(), Some('a'));
    assert_eq!(shifted(65).to_char(), Some('A'));
    assert_eq!(key(90).to_char(), Some('z'));
    assert_eq!(shifted(90).to_char(), Some('Z'));
}

#[test]
fn to_char_digits() {
    assert_eq!(key(48).to_char(), Some('0'));
    assert_eq!(key(57).to_char(), Some('9'));
    assert_eq!(shifted(49).to_char(), Some('!'));
    assert_eq!(shifted(48).to_char(), Some(')'));
}

#[test]
fn to_char_whitespace_and_punctuation() {
    assert_eq!(key(32).to_char(), Some(' '));
    assert_eq!(key(13).to_char(), Some('\n'));
    assert_eq!(key(9).to_char(), Some('\t'));
    assert_eq!(key(189).to_char(), Some('-'));
    assert_eq!(shifted(189).to_char(), Some('_'));
    assert_eq!(key(191).to_char(), Some('/'));
    assert_eq!(shifted(191).to_char(), Some('?'));
}

#[test]
fn to_char_unknown_codes() {
    assert_eq!(key(16).to_char(), None);
    assert_eq!(key(17).to_char(), None);
    assert_eq!(key(300).to_char(), None);
    assert_eq!(key(-1).to_char(), None);
}

#[test]
fn control_statuses() {
    assert!(control_outcome(0).is_ok());
    assert!(control_outcome(1).is_ok());
    assert_eq!(control_outcome(-1), Err(DisplayError::Occupied));
}

#[test]
fn key_from_raw_values() {
    assert_eq!(
        key_from_raw(65, 1, 0),
        Some(KeyPress { key: 65, shift: true, ctrl: false })
    );
    assert_eq!(
        key_from_raw(70, 0, 2),
        Some(KeyPress { key: 70, shift: false, ctrl: true })
    );
    assert_eq!(key_from_raw(-1, 0, 0), None);
    assert_eq!(key_from_raw(-2, 1, 1), None);
}

#[test]
fn display_error_message() {
    assert_eq!(
        DisplayError::Occupied.message(),
        "The display is currently occupied by another process"
    );
}

#[test]
fn operations_stop_after_control_seized() {
    let mut d = Display::new();
    d.assume_control(A).unwrap();
    d.set_text(A, "mine");
    d.override_control(B);
    d.set_text(A, "changed");
    assert_eq!(d.text().as_str(), "mine");
    d.press_key(key(65));
    assert_eq!(d.key_buffer(A), None);
    assert_eq!(d.key_buffer(B), Some(key(65)));
}
