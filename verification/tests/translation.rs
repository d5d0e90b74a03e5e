//! The pure translation layer: keyvals, modifiers, clipboard commands,
//! frame pacing, geometry, and platform-output commands.

use egui_area::geometry::{effective_scale_factor, native_size};
use egui_area::keys::{
    gdk_to_egui_key, gdk_to_egui_modifiers, is_control_codepoint, is_copy_command, is_cut_command,
    is_paste_command, Key, Modifiers, Platform,
};
use egui_area::output::{platform_output_commands, OutputCommand};
use egui_area::pacing::interval_micros_for_fps;

fn mods(alt: bool, ctrl: bool, shift: bool, mac_cmd: bool, command: bool) -> Modifiers {
    Modifiers { alt, ctrl, shift, mac_cmd, command }
}

#[test]
fn keyval_table_named_keys() {
    assert_eq!(gdk_to_egui_key(65288), Some(Key::Backspace));
    assert_eq!(gdk_to_egui_key(65364), Some(Key::ArrowDown));
    assert_eq!(gdk_to_egui_key(65362), Some(Key::ArrowUp));
    assert_eq!(gdk_to_egui_key(65361), Some(Key::ArrowLeft));
    assert_eq!(gdk_to_egui_key(65363), Some(Key::ArrowRight));
    assert_eq!(gdk_to_egui_key(65421), Some(Key::Enter));
    assert_eq!(gdk_to_egui_key(65076), Some(Key::Enter));
    assert_eq!(gdk_to_egui_key(32), Some(Key::Space));
    assert_eq!(gdk_to_egui_key(65408), Some(Key::Space));
    assert_eq!(gdk_to_egui_key(65365), Some(Key::PageUp));
    assert_eq!(gdk_to_egui_key(65366), Some(Key::PageDown));
}

#[test]
fn keyval_table_punctuation() {
    assert_eq!(gdk_to_egui_key(58), Some(Key::Colon));
    assert_eq!(gdk_to_egui_key(44), Some(Key::Comma));
    assert_eq!(gdk_to_egui_key(92), Some(Key::Backslash));
    assert_eq!(gdk_to_egui_key(47), Some(Key::Slash));
    assert_eq!(gdk_to_egui_key(2552), Some(Key::Pipe));
    assert_eq!(gdk_to_egui_key(63), Some(Key::Questionmark));
    assert_eq!(gdk_to_egui_key(91), Some(Key::OpenBracket));
    assert_eq!(gdk_to_egui_key(125), Some(Key::CloseBracket));
    assert_eq!(gdk_to_egui_key(96), Some(Key::Backtick));
    assert_eq!(gdk_to_egui_key(45), Some(Key::Minus));
    assert_eq!(gdk_to_egui_key(46), Some(Key::Period));
    assert_eq!(gdk_to_egui_key(43), Some(Key::Plus));
    assert_eq!(gdk_to_egui_key(61), Some(Key::Equals));
    assert_eq!(gdk_to_egui_key(59), Some(Key::Semicolon));
    assert_eq!(gdk_to_egui_key(2813), Some(Key::Quote));
}

#[test]
fn keyval_table_digits() {
    assert_eq!(gdk_to_egui_key(48), Some(Key::Num0));
    assert_eq!(gdk_to_egui_key(57), Some(Key::Num9));
    assert_eq!(gdk_to_egui_key(65456), Some(Key::Num0));
    assert_eq!(gdk_to_egui_key(65465), Some(Key::Num9));
}

#[test]
fn keyval_table_unmapped() {
    // Letters and function keys are not in the table; they go through the
    // toolkit's key-name fallback instead.
    assert_eq!(gdk_to_egui_key(97), None); // the letter a
    assert_eq!(gdk_to_egui_key(0xFFBE), None); // F1
    assert_eq!(gdk_to_egui_key(65307), None); // Escape
}

#[test]
fn modifier_translation_empty() {
    let m = gdk_to_egui_modifiers(0, Platform::Other);
    assert_eq!(m, mods(false, false, false, false, false));
}

#[test]
fn modifier_translation_bits() {
    // SHIFT_MASK = 1, CONTROL_MASK = 4, ALT_MASK = 8, META_MASK = 1 << 28.
    let m = gdk_to_egui_modifiers(1 | 8, Platform::Other);
    assert_eq!(m, mods(true, false, true, false, false));
    let m = gdk_to_egui_modifiers(4, Platform::Other);
    assert_eq!(m, mods(false, true, false, false, true));
    let m = gdk_to_egui_modifiers(1 << 28, Platform::Other);
    assert_eq!(m, mods(false, false, false, true, false));
}

#[test]
fn modifier_command_follows_platform() {
    // On macOS `command` follows the meta key, elsewhere the control key.
    let m = gdk_to_egui_modifiers(1 << 28, Platform::MacOs);
    assert!(m.mac_cmd && m.command && !m.ctrl);
    let m = gdk_to_egui_modifiers(4, Platform::MacOs);
    assert!(m.ctrl && !m.command);
    let m = gdk_to_egui_modifiers(4, Platform::Windows);
    assert!(m.ctrl && m.command);
}

#[test]
fn copy_command_forms() {
    let none = mods(false, false, false, false, false);
    let cmd = mods(false, true, false, false, true);
    assert!(is_copy_command(Platform::Other, none, Key::Copy));
    assert!(is_copy_command(Platform::Other, cmd, Key::C));
    assert!(!is_copy_command(Platform::Other, none, Key::C));
    assert!(!is_copy_command(Platform::Other, cmd, Key::X));
}

#[test]
fn cut_command_forms() {
    let none = mods(false, false, false, false, false);
    let cmd = mods(false, true, false, false, true);
    assert!(is_cut_command(Platform::Other, none, Key::Cut));
    assert!(is_cut_command(Platform::Other, cmd, Key::X));
    assert!(!is_cut_command(Platform::Other, none, Key::X));
}

#[test]
fn paste_command_forms() {
    let none = mods(false, false, false, false, false);
    let cmd = mods(false, true, false, false, true);
    assert!(is_paste_command(Platform::Other, none, Key::Paste));
    assert!(is_paste_command(Platform::Other, cmd, Key::V));
    assert!(!is_paste_command(Platform::Other, none, Key::V));
}

#[test]
fn windows_legacy_clipboard_chords() {
    let shift = mods(false, false, true, false, false);
    let ctrl = mods(false, true, false, false, true);
    assert!(is_cut_command(Platform::Windows, shift, Key::Delete));
    assert!(!is_cut_command(Platform::Other, shift, Key::Delete));
    assert!(!is_cut_command(Platform::MacOs, shift, Key::Delete));
    assert!(is_copy_command(Platform::Windows, ctrl, Key::Insert));
    assert!(!is_copy_command(Platform::Other, ctrl, Key::Insert));
    assert!(is_paste_command(Platform::Windows, shift, Key::Insert));
    assert!(!is_paste_command(Platform::Other, shift, Key::Insert));
}

#[test]
fn control_codepoint_ranges() {
    assert!(is_control_codepoint(0x00));
    assert!(is_control_codepoint(0x08));
    assert!(is_control_codepoint(0x1F));
    assert!(!is_control_codepoint(0x20));
    assert!(!is_control_codepoint(0x7E));
    assert!(is_control_codepoint(0x7F));
    assert!(is_control_codepoint(0x9F));
    assert!(!is_control_codepoint(0xA0));
    assert!(!is_control_codepoint('a' as u32));
}

#[test]
fn interval_from_frame_rate() {
    assert_eq!(interval_micros_for_fps(0), u64::MAX);
    assert_eq!(interval_micros_for_fps(1), 1_000_000);
    assert_eq!(interval_micros_for_fps(60), 16_666);
    assert_eq!(interval_micros_for_fps(1_000_000), 1);
    assert_eq!(interval_micros_for_fps(3_000_000), 0);
}

#[test]
fn scale_factor_defaults_to_one() {
    assert_eq!(effective_scale_factor(Some(3)), 3);
    assert_eq!(effective_scale_factor(Some(-2)), -2);
    assert_eq!(effective_scale_factor(None), 1);
}

#[test]
fn native_size_scales_and_clamps() {
    assert_eq!(native_size(100, 50, 2), (200, 100));
    assert_eq!(native_size(0, 0, 1), (0, 0));
    assert_eq!(native_size(-5, 10, 1), (0, 10));
    assert_eq!(native_size(10, -5, 3), (30, 0));
    assert_eq!(native_size(i32::MAX, 1, 4), (u32::MAX, 4));
    assert_eq!(native_size(3, 3, 0), (0, 0));
}

#[test]
fn output_commands_when_nothing_happened() {
    let cmds = platform_output_commands(String::new(), None);
    assert!(cmds.is_empty());
}

#[test]
fn output_commands_copy_only() {
    let cmds = platform_output_commands(String::from("hello"), None);
    assert_eq!(cmds, vec![OutputCommand::SetClipboard { text: String::from("hello") }]);
}

#[test]
fn output_commands_url_only() {
    let cmds = platform_output_commands(String::new(), Some(String::from("https://example.org")));
    assert_eq!(cmds, vec![OutputCommand::OpenUrl { url: String::from("https://example.org") }]);
}

#[test]
fn output_commands_both_in_order() {
    let cmds = platform_output_commands(String::from("x"), Some(String::from("u")));
    assert_eq!(
        cmds,
        vec![
            OutputCommand::SetClipboard { text: String::from("x") },
            OutputCommand::OpenUrl { url: String::from("u") },
        ]
    );
}
