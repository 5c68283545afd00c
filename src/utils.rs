//! Host-utility values: overlay positions and text-input modes with their
//! native codes, the gamepad text-input dismissal events, and the reading of
//! what the native text-input queries hand back.
use vstd::prelude::*;
use crate::bytes::{le_u32_at, read_u32_le};
use crate::callbacks::{CallbackEntry, CallbackRegistry};
use crate::text::{buffer_text, c_compatible, c_string, c_string_of, utf8_lossy_of};
use vstd::string::StringSliceAdditionalSpecFns;

verus! {

/// Event identifier of the dismissal of the gamepad text input.
pub const GAMEPAD_TEXT_INPUT_DISMISSED_ID: i32 = 714;

/// Size in bytes of the native payload of a gamepad text-input dismissal:
/// a submitted flag, the submitted text's length and the app id.
pub const GAMEPAD_TEXT_INPUT_DISMISSED_SIZE: usize = 12;

/// Event identifier of the dismissal of the floating gamepad text input.
pub const FLOATING_GAMEPAD_TEXT_INPUT_DISMISSED_ID: i32 = 738;

/// Size in bytes of the native payload of a floating text-input dismissal,
/// which carries no field.
pub const FLOATING_GAMEPAD_TEXT_INPUT_DISMISSED_SIZE: usize = 1;

/// The dismissal of the gamepad text input.
#[derive(Clone, Copy, Debug, PartialEq, Eq, Structural)]
pub struct GamepadTextInputDismissed {
    pub submitted: bool,
    /// The length of the submitted text; present exactly when it was submitted.
    pub submitted_text_len: Option<u32>,
}

/// The dismissal held by a native payload: the submitted flag in its first
/// byte, the text length as a little-endian `u32` at offset 4.
pub open spec fn gamepad_dismissal_of(raw: Seq<u8>) -> GamepadTextInputDismissed {
    let submitted = raw[0] != 0;
    GamepadTextInputDismissed {
        submitted,
        submitted_text_len: if submitted {
            Some(le_u32_at(raw, 4) as u32)
        } else {
            None
        },
    }
}

impl GamepadTextInputDismissed {
    /// Decodes a dismissal from its native payload into an independent value.
    pub fn from_raw(raw: &[u8]) -> (r: GamepadTextInputDismissed)
        requires
            raw@.len() >= GAMEPAD_TEXT_INPUT_DISMISSED_SIZE,
        ensures
            r == gamepad_dismissal_of(raw@),
            r.submitted_text_len is Some <==> r.submitted,
    {
        let submitted = raw[0] != 0;
        GamepadTextInputDismissed {
            submitted,
            submitted_text_len: if submitted {
                Some(read_u32_le(raw, 4))
            } else {
                None
            },
        }
    }
}

/// The dismissal of the floating gamepad text input.
#[derive(Clone, Copy, Debug, PartialEq, Eq, Structural)]
pub struct FloatingGamepadTextInputDismissed;

impl FloatingGamepadTextInputDismissed {
    /// Decodes a dismissal from its native payload, whose content it ignores.
    pub fn from_raw(raw: &[u8]) -> (r: FloatingGamepadTextInputDismissed)
        ensures
            r == FloatingGamepadTextInputDismissed,
    {
        FloatingGamepadTextInputDismissed
    }
}

/// Where popups of the overlay appear on the screen.
#[derive(Clone, Copy, Debug, PartialEq, Eq, Structural)]
pub enum NotificationPosition {
    TopLeft,
    TopRight,
    BottomLeft,
    BottomRight,
}

/// The native code `ENotificationPosition` of each position.
pub open spec fn notification_position_code(p: NotificationPosition) -> i32 {
    match p {
        NotificationPosition::TopLeft => 0,
        NotificationPosition::TopRight => 1,
        NotificationPosition::BottomLeft => 2,
        NotificationPosition::BottomRight => 3,
    }
}

impl NotificationPosition {
    /// The native code of this position.
    pub fn native_code(self) -> (r: i32)
        ensures
            r == notification_position_code(self),
    {
        match self {
            NotificationPosition::TopLeft => 0,
            NotificationPosition::TopRight => 1,
            NotificationPosition::BottomLeft => 2,
            NotificationPosition::BottomRight => 3,
        }
    }
}

/// Whether the gamepad text input shows what is typed.
#[derive(Clone, Copy, Debug, PartialEq, Eq, Structural)]
pub enum GamepadTextInputMode {
    Normal,
    Password,
}

/// The native code `EGamepadTextInputMode` of each mode.
pub open spec fn text_input_mode_code(m: GamepadTextInputMode) -> i32 {
    match m {
        GamepadTextInputMode::Normal => 0,
        GamepadTextInputMode::Password => 1,
    }
}

impl GamepadTextInputMode {
    /// The native code of this mode.
    pub fn native_code(self) -> (r: i32)
        ensures
            r == text_input_mode_code(self),
    {
        match self {
            GamepadTextInputMode::Normal => 0,
            GamepadTextInputMode::Password => 1,
        }
    }
}

/// Whether the gamepad text input takes one line or several.
#[derive(Clone, Copy, Debug, PartialEq, Eq, Structural)]
pub enum GamepadTextInputLineMode {
    SingleLine,
    MultipleLines,
}

/// The native code `EGamepadTextInputLineMode` of each line mode.
pub open spec fn text_input_line_mode_code(m: GamepadTextInputLineMode) -> i32 {
    match m {
        GamepadTextInputLineMode::SingleLine => 0,
        GamepadTextInputLineMode::MultipleLines => 1,
    }
}

impl GamepadTextInputLineMode {
    /// The native code of this line mode.
    pub fn native_code(self) -> (r: i32)
        ensures
            r == text_input_line_mode_code(self),
    {
        match self {
            GamepadTextInputLineMode::SingleLine => 0,
            GamepadTextInputLineMode::MultipleLines => 1,
        }
    }
}

/// The keyboard that the floating gamepad text input shows.
#[derive(Clone, Copy, Debug, PartialEq, Eq, Structural)]
pub enum FloatingGamepadTextInputMode {
    SingleLine,
    MultipleLines,
    Email,
    Numeric,
}

/// The native code `EFloatingGamepadTextInputMode` of each keyboard.
pub open spec fn floating_mode_code(m: FloatingGamepadTextInputMode) -> i32 {
    match m {
        FloatingGamepadTextInputMode::SingleLine => 0,
        FloatingGamepadTextInputMode::MultipleLines => 1,
        FloatingGamepadTextInputMode::Email => 2,
        FloatingGamepadTextInputMode::Numeric => 3,
    }
}

impl FloatingGamepadTextInputMode {
    /// The native code of this keyboard.
    pub fn native_code(self) -> (r: i32)
        ensures
            r == floating_mode_code(self),
    {
        match self {
            FloatingGamepadTextInputMode::SingleLine => 0,
            FloatingGamepadTextInputMode::MultipleLines => 1,
            FloatingGamepadTextInputMode::Email => 2,
            FloatingGamepadTextInputMode::Numeric => 3,
        }
    }
}

/// Reads what the native text-length query handed back: a length only where
/// it is positive.
pub fn entered_text_length(res: u32) -> (r: Option<usize>)
    ensures
        r == (if res > 0 { Some(res as usize) } else { None::<usize> }),
{
    if res > 0 {
        Some(res as usize)
    } else {
        None
    }
}

/// Reads what the native entered-text query handed back: the text of the whole
/// buffer where the query succeeded.
pub fn entered_text(ok: bool, buf: &[u8]) -> (r: Option<String>)
    ensures
        r is Some <==> ok,
        r matches Some(t) ==> t@ == utf8_lossy_of(buf@),
{
    if ok {
        Some(buffer_text(buf))
    } else {
        None
    }
}

/// The arguments of the native call that shows the gamepad text input.
pub struct GamepadTextInputCall {
    pub input_mode: i32,
    pub input_line_mode: i32,
    /// The description, as a C string.
    pub description: Vec<u8>,
    pub max_characters: u32,
    /// The text already entered, as a C string, if any.
    pub existing_text: Option<Vec<u8>>,
}

/// Prepares the gamepad text input: registers `handler` to fire once, on its
/// dismissal, and marshals the arguments of the native call that shows it.
/// Text that holds a NUL cannot be marshaled: that is a defect of the caller,
/// ruled out here.
pub fn show_gamepad_text_input(
    registry: &mut CallbackRegistry,
    input_mode: GamepadTextInputMode,
    input_line_mode: GamepadTextInputLineMode,
    description: &str,
    max_characters: u32,
    existing_text: Option<&str>,
    handler: u64,
) -> (r: GamepadTextInputCall)
    requires
        old(registry).wf(),
        c_compatible(description.spec_bytes()),
        existing_text matches Some(t) ==> c_compatible(t.spec_bytes()),
    ensures
        final(registry).wf(),
        final(registry)@ == old(registry)@.push(
            CallbackEntry {
                id: GAMEPAD_TEXT_INPUT_DISMISSED_ID,
                size: GAMEPAD_TEXT_INPUT_DISMISSED_SIZE,
                persistent: false,
                handler,
            },
        ),
        r.input_mode == text_input_mode_code(input_mode),
        r.input_line_mode == text_input_line_mode_code(input_line_mode),
        r.description@ == c_string_of(description.spec_bytes()),
        r.max_characters == max_characters,
        r.existing_text is Some <==> existing_text is Some,
        existing_text matches Some(t) ==> r.existing_text->0@ == c_string_of(t.spec_bytes()),
{
    let description = c_string(description);
    let existing_text = match existing_text {
        Some(t) => Some(c_string(t)),
        None => None,
    };
    registry.register(
        GAMEPAD_TEXT_INPUT_DISMISSED_ID,
        GAMEPAD_TEXT_INPUT_DISMISSED_SIZE,
        false,
        handler,
    );
    GamepadTextInputCall {
        input_mode: input_mode.native_code(),
        input_line_mode: input_line_mode.native_code(),
        description,
        max_characters,
        existing_text,
    }
}

/// The arguments of the native call that shows the floating gamepad text
/// input: the keyboard, and the text field's rectangle in window pixels.
pub struct FloatingGamepadTextInputCall {
    pub keyboard_mode: i32,
    pub x: i32,
    pub y: i32,
    pub width: i32,
    pub height: i32,
}

/// Prepares the floating gamepad text input: registers `handler` to fire
/// once, on its dismissal, and marshals the arguments of the native call that
/// shows it.
pub fn show_floating_gamepad_text_input(
    registry: &mut CallbackRegistry,
    keyboard_mode: FloatingGamepadTextInputMode,
    x: i32,
    y: i32,
    width: i32,
    height: i32,
    handler: u64,
) -> (r: FloatingGamepadTextInputCall)
    requires
        old(registry).wf(),
    ensures
        final(registry).wf(),
        final(registry)@ == old(registry)@.push(
            CallbackEntry {
                id: FLOATING_GAMEPAD_TEXT_INPUT_DISMISSED_ID,
                size: FLOATING_GAMEPAD_TEXT_INPUT_DISMISSED_SIZE,
                persistent: false,
                handler,
            },
        ),
        r == (FloatingGamepadTextInputCall {
            keyboard_mode: floating_mode_code(keyboard_mode),
            x,
            y,
            width,
            height,
        }),
{
    registry.register(
        FLOATING_GAMEPAD_TEXT_INPUT_DISMISSED_ID,
        FLOATING_GAMEPAD_TEXT_INPUT_DISMISSED_SIZE,
        false,
        handler,
    );
    FloatingGamepadTextInputCall {
        keyboard_mode: keyboard_mode.native_code(),
        x,
        y,
        width,
        height,
    }
}

} // verus!
