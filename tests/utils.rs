use steamworks::callbacks::CallbackRegistry;
use steamworks::utils::{
    entered_text, entered_text_length, show_floating_gamepad_text_input, show_gamepad_text_input,
    FloatingGamepadTextInputDismissed, FloatingGamepadTextInputMode, GamepadTextInputDismissed,
    GamepadTextInputLineMode, GamepadTextInputMode, NotificationPosition,
};

#[test]
fn dismissal_submitted_carries_length() {
    let raw = [1u8, 0, 0, 0, 0x2c, 0x01, 0, 0, 0, 0, 0, 0];
    let d = GamepadTextInputDismissed::from_raw(&raw);
    assert!(d.submitted);
    assert_eq!(d.submitted_text_len, Some(300));
}

#[test]
fn dismissal_not_submitted_has_no_length() {
    let raw = [0u8, 0, 0, 0, 7, 0, 0, 0, 0, 0, 0, 0];
    let d = GamepadTextInputDismissed::from_raw(&raw);
    assert!(!d.submitted);
    assert_eq!(d.submitted_text_len, None);
}

#[test]
fn floating_dismissal_decodes() {
    assert_eq!(FloatingGamepadTextInputDismissed::from_raw(&[3]), FloatingGamepadTextInputDismissed);
}

#[test]
fn native_codes_of_modes() {
    assert_eq!(NotificationPosition::TopLeft.native_code(), 0);
    assert_eq!(NotificationPosition::TopRight.native_code(), 1);
    assert_eq!(NotificationPosition::BottomLeft.native_code(), 2);
    assert_eq!(NotificationPosition::BottomRight.native_code(), 3);
    assert_eq!(GamepadTextInputMode::Normal.native_code(), 0);
    assert_eq!(GamepadTextInputMode::Password.native_code(), 1);
    assert_eq!(GamepadTextInputLineMode::SingleLine.native_code(), 0);
    assert_eq!(GamepadTextInputLineMode::MultipleLines.native_code(), 1);
    assert_eq!(FloatingGamepadTextInputMode::SingleLine.native_code(), 0);
    assert_eq!(FloatingGamepadTextInputMode::MultipleLines.native_code(), 1);
    assert_eq!(FloatingGamepadTextInputMode::Email.native_code(), 2);
    assert_eq!(FloatingGamepadTextInputMode::Numeric.native_code(), 3);
}

#[test]
fn entered_text_length_positive_only() {
    assert_eq!(entered_text_length(0), None);
    assert_eq!(entered_text_length(12), Some(12));
}

#[test]
fn entered_text_read_lossily() {
    assert_eq!(entered_text(false, b"abc"), None);
    assert_eq!(entered_text(true, b"abc"), Some("abc".to_string()));
    assert_eq!(entered_text(true, &[b'a', 0xff]), Some("a\u{fffd}".to_string()));
}

#[test]
fn gamepad_text_input_registers_one_shot() {
    let mut reg = CallbackRegistry::new();
    let call = show_gamepad_text_input(
        &mut reg,
        GamepadTextInputMode::Password,
        GamepadTextInputLineMode::MultipleLines,
        "Name",
        32,
        Some("Bob"),
        11,
    );
    assert_eq!(call.input_mode, 1);
    assert_eq!(call.input_line_mode, 1);
    assert_eq!(call.description, b"Name\0".to_vec());
    assert_eq!(call.max_characters, 32);
    assert_eq!(call.existing_text, Some(b"Bob\0".to_vec()));
    let e = reg.entries()[0];
    assert_eq!((e.id, e.size, e.persistent, e.handler), (714, 12, false, 11));
    let d = reg.dispatch(714, &[0u8; 12]).unwrap();
    assert_eq!(d.handlers.len(), 1);
    assert!(reg.entries().is_empty());
}

#[test]
fn gamepad_text_input_without_existing_text() {
    let mut reg = CallbackRegistry::new();
    let call = show_gamepad_text_input(
        &mut reg,
        GamepadTextInputMode::Normal,
        GamepadTextInputLineMode::SingleLine,
        "",
        0,
        None,
        1,
    );
    assert_eq!(call.description, vec![0u8]);
    assert_eq!(call.existing_text, None);
}

#[test]
fn floating_text_input_registers_one_shot() {
    let mut reg = CallbackRegistry::new();
    let call = show_floating_gamepad_text_input(
        &mut reg,
        FloatingGamepadTextInputMode::Email,
        10,
        20,
        300,
        40,
        6,
    );
    assert_eq!((call.keyboard_mode, call.x, call.y, call.width, call.height), (2, 10, 20, 300, 40));
    let e = reg.entries()[0];
    assert_eq!((e.id, e.size, e.persistent, e.handler), (738, 1, false, 6));
}
