//! Key and modifier translation.
//!
//! The host toolkit reports keyboard input as a 32-bit keyval and a bitmask of
//! modifier flags; the immediate-mode GUI expects a logical key from a fixed
//! set and a record of five modifier booleans. This module holds the library's
//! model of that key set, the keyval table, the modifier translation, and the
//! rules that recognise the clipboard commands (cut, copy, paste).

use vstd::prelude::*;

verus! {

/// The operating-system family the widget runs on. The translation rules
/// differ in two places: on macOS the `command` modifier follows the meta
/// key, elsewhere the control key; and on Windows the legacy clipboard
/// chords (shift+delete, ctrl+insert, shift+insert) are recognised too.
#[derive(Clone, Copy, Debug, PartialEq, Eq, Structural)]
pub enum Platform {
    MacOs,
    Windows,
    Other,
}

/// The immediate-mode GUI's modifier state: one flag per modifier key, and
/// `command`, the platform-dependent shorthand that the clipboard chords use.
#[derive(Clone, Copy, Debug, PartialEq, Eq, Structural)]
pub struct Modifiers {
    pub alt: bool,
    pub ctrl: bool,
    pub shift: bool,
    /// The macOS command key itself, whatever the platform.
    pub mac_cmd: bool,
    /// The chord modifier: the meta key on macOS, the control key elsewhere.
    pub command: bool,
}

/// The logical key set of the immediate-mode GUI, one variant per key.
#[derive(Clone, Copy, Debug, PartialEq, Eq, Structural)]
pub enum Key {
    ArrowDown,
    ArrowLeft,
    ArrowRight,
    ArrowUp,
    Escape,
    Tab,
    Backspace,
    Enter,
    Space,
    Insert,
    Delete,
    Home,
    End,
    PageUp,
    PageDown,
    Copy,
    Cut,
    Paste,
    Colon,
    Comma,
    Backslash,
    Slash,
    Pipe,
    Questionmark,
    OpenBracket,
    CloseBracket,
    Backtick,
    Minus,
    Period,
    Plus,
    Equals,
    Semicolon,
    Quote,
    Num0,
    Num1,
    Num2,
    Num3,
    Num4,
    Num5,
    Num6,
    Num7,
    Num8,
    Num9,
    A,
    B,
    C,
    D,
    E,
    F,
    G,
    H,
    I,
    J,
    K,
    L,
    M,
    N,
    O,
    P,
    Q,
    R,
    S,
    T,
    U,
    V,
    W,
    X,
    Y,
    Z,
    F1,
    F2,
    F3,
    F4,
    F5,
    F6,
    F7,
    F8,
    F9,
    F10,
    F11,
    F12,
    F13,
    F14,
    F15,
    F16,
    F17,
    F18,
    F19,
    F20,
    F21,
    F22,
    F23,
    F24,
    F25,
    F26,
    F27,
    F28,
    F29,
    F30,
    F31,
    F32,
    F33,
    F34,
    F35,
}

/// The toolkit's modifier bits, as its key controllers report them.
pub const GDK_SHIFT_MASK: u32 = 1;
pub const GDK_CONTROL_MASK: u32 = 4;
pub const GDK_ALT_MASK: u32 = 8;
pub const GDK_META_MASK: u32 = 0x1000_0000;

/// The modifier record that a raw modifier bitmask translates to.
pub open spec fn spec_modifiers_of_bits(bits: u32, platform: Platform) -> Modifiers {
    Modifiers {
        alt: bits & GDK_ALT_MASK != 0,
        ctrl: bits & GDK_CONTROL_MASK != 0,
        shift: bits & GDK_SHIFT_MASK != 0,
        mac_cmd: bits & GDK_META_MASK != 0,
        command: if platform is MacOs {
            bits & GDK_META_MASK != 0
        } else {
            bits & GDK_CONTROL_MASK != 0
        },
    }
}

/// Translates the toolkit's modifier bitmask into the GUI's modifier record.
/// `command` follows the meta key on macOS and the control key elsewhere.
pub fn gdk_to_egui_modifiers(bits: u32, platform: Platform) -> (r: Modifiers)
    ensures
        r == spec_modifiers_of_bits(bits, platform),
{
    Modifiers {
        alt: bits & GDK_ALT_MASK != 0,
        ctrl: bits & GDK_CONTROL_MASK != 0,
        shift: bits & GDK_SHIFT_MASK != 0,
        mac_cmd: bits & GDK_META_MASK != 0,
        command: if platform == Platform::MacOs {
            bits & GDK_META_MASK != 0
        } else {
            bits & GDK_CONTROL_MASK != 0
        },
    }
}

/// The logical key a toolkit keyval maps to, if the table names it.
/// The keyvals are the toolkit's key constants; a comment names each one.
pub open spec fn spec_key_of_keyval(keyval: u32) -> Option<Key> {
    match keyval {
        65288 => Some(Key::Backspace),           // BackSpace
        65364 => Some(Key::ArrowDown),           // Down
        65362 => Some(Key::ArrowUp),             // Up
        65361 => Some(Key::ArrowLeft),           // Left
        65363 => Some(Key::ArrowRight),          // Right
        65421 | 65076 => Some(Key::Enter),       // KP_Enter, ISO_Enter
        32 | 65408 => Some(Key::Space),          // space, KP_Space
        65365 => Some(Key::PageUp),              // Page_Up
        65366 => Some(Key::PageDown),            // Page_Down
        58 => Some(Key::Colon),                  // colon
        44 => Some(Key::Comma),                  // comma
        92 => Some(Key::Backslash),              // backslash
        47 => Some(Key::Slash),                  // slash
        2552 => Some(Key::Pipe),                 // vertbar
        63 => Some(Key::Questionmark),           // question
        91 => Some(Key::OpenBracket),            // bracketleft
        125 => Some(Key::CloseBracket),          // braceright
        96 => Some(Key::Backtick),               // grave
        45 => Some(Key::Minus),                  // minus
        46 => Some(Key::Period),                 // period
        43 => Some(Key::Plus),                   // plus
        61 => Some(Key::Equals),                 // equal
        59 => Some(Key::Semicolon),              // semicolon
        2813 => Some(Key::Quote),                // singlelowquotemark
        48 | 65456 => Some(Key::Num0),           // 0, KP_0
        49 | 65457 => Some(Key::Num1),           // 1, KP_1
        50 | 65458 => Some(Key::Num2),           // 2, KP_2
        51 | 65459 => Some(Key::Num3),           // 3, KP_3
        52 | 65460 => Some(Key::Num4),           // 4, KP_4
        53 | 65461 => Some(Key::Num5),           // 5, KP_5
        54 | 65462 => Some(Key::Num6),           // 6, KP_6
        55 | 65463 => Some(Key::Num7),           // 7, KP_7
        56 | 65464 => Some(Key::Num8),           // 8, KP_8
        57 | 65465 => Some(Key::Num9),           // 9, KP_9
        _ => None,
    }
}

/// Translates a toolkit keyval into the GUI's logical key through the table
/// above. A keyval the table does not name yields `None`; the caller may then
/// fall back to the toolkit's key-name lookup, which only the toolkit itself
/// can compute.
pub fn gdk_to_egui_key(keyval: u32) -> (r: Option<Key>)
    ensures
        r == spec_key_of_keyval(keyval),
{
    match keyval {
        65288 => Some(Key::Backspace),           // BackSpace
        65364 => Some(Key::ArrowDown),           // Down
        65362 => Some(Key::ArrowUp),             // Up
        65361 => Some(Key::ArrowLeft),           // Left
        65363 => Some(Key::ArrowRight),          // Right
        65421 | 65076 => Some(Key::Enter),       // KP_Enter, ISO_Enter
        32 | 65408 => Some(Key::Space),          // space, KP_Space
        65365 => Some(Key::PageUp),              // Page_Up
        65366 => Some(Key::PageDown),            // Page_Down
        58 => Some(Key::Colon),                  // colon
        44 => Some(Key::Comma),                  // comma
        92 => Some(Key::Backslash),              // backslash
        47 => Some(Key::Slash),                  // slash
        2552 => Some(Key::Pipe),                 // vertbar
        63 => Some(Key::Questionmark),           // question
        91 => Some(Key::OpenBracket),            // bracketleft
        125 => Some(Key::CloseBracket),          // braceright
        96 => Some(Key::Backtick),               // grave
        45 => Some(Key::Minus),                  // minus
        46 => Some(Key::Period),                 // period
        43 => Some(Key::Plus),                   // plus
        61 => Some(Key::Equals),                 // equal
        59 => Some(Key::Semicolon),              // semicolon
        2813 => Some(Key::Quote),                // singlelowquotemark
        48 | 65456 => Some(Key::Num0),           // 0, KP_0
        49 | 65457 => Some(Key::Num1),           // 1, KP_1
        50 | 65458 => Some(Key::Num2),           // 2, KP_2
        51 | 65459 => Some(Key::Num3),           // 3, KP_3
        52 | 65460 => Some(Key::Num4),           // 4, KP_4
        53 | 65461 => Some(Key::Num5),           // 5, KP_5
        54 | 65462 => Some(Key::Num6),           // 6, KP_6
        55 | 65463 => Some(Key::Num7),           // 7, KP_7
        56 | 65464 => Some(Key::Num8),           // 8, KP_8
        57 | 65465 => Some(Key::Num9),           // 9, KP_9
        _ => None,
    }
}

/// Whether the key and modifiers spell the cut command.
pub open spec fn spec_is_cut_command(platform: Platform, modifiers: Modifiers, key: Key) -> bool {
    ||| key is Cut
    ||| (modifiers.command && key is X)
    ||| (platform is Windows && modifiers.shift && key is Delete)
}

/// Whether the key and modifiers spell the copy command.
pub open spec fn spec_is_copy_command(platform: Platform, modifiers: Modifiers, key: Key) -> bool {
    ||| key is Copy
    ||| (modifiers.command && key is C)
    ||| (platform is Windows && modifiers.ctrl && key is Insert)
}

/// Whether the key and modifiers spell the paste command.
pub open spec fn spec_is_paste_command(platform: Platform, modifiers: Modifiers, key: Key) -> bool {
    ||| key is Paste
    ||| (modifiers.command && key is V)
    ||| (platform is Windows && modifiers.shift && key is Insert)
}

/// A dedicated cut key, command+X, or (on Windows) shift+delete.
pub fn is_cut_command(platform: Platform, modifiers: Modifiers, key: Key) -> (r: bool)
    ensures
        r == spec_is_cut_command(platform, modifiers, key),
{
    key == Key::Cut
        || (modifiers.command && key == Key::X)
        || (platform == Platform::Windows && modifiers.shift && key == Key::Delete)
}

/// A dedicated copy key, command+C, or (on Windows) ctrl+insert.
pub fn is_copy_command(platform: Platform, modifiers: Modifiers, key: Key) -> (r: bool)
    ensures
        r == spec_is_copy_command(platform, modifiers, key),
{
    key == Key::Copy
        || (modifiers.command && key == Key::C)
        || (platform == Platform::Windows && modifiers.ctrl && key == Key::Insert)
}

/// A dedicated paste key, command+V, or (on Windows) shift+insert.
pub fn is_paste_command(platform: Platform, modifiers: Modifiers, key: Key) -> (r: bool)
    ensures
        r == spec_is_paste_command(platform, modifiers, key),
{
    key == Key::Paste
        || (modifiers.command && key == Key::V)
        || (platform == Platform::Windows && modifiers.shift && key == Key::Insert)
}

/// Whether a code point is a control character (the Unicode `Cc` category):
/// the two ranges U+0000..=U+001F and U+007F..=U+009F.
pub open spec fn spec_is_control_codepoint(codepoint: u32) -> bool {
    ||| codepoint < 32
    ||| (127 <= codepoint && codepoint <= 159)
}

/// Whether a code point is a control character and so never typed text.
pub fn is_control_codepoint(codepoint: u32) -> (r: bool)
    ensures
        r == spec_is_control_codepoint(codepoint),
{
    codepoint < 32 || (127 <= codepoint && codepoint <= 159)
}

} // verus!
