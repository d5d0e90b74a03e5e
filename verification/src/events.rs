//! The input events the adapter feeds to the immediate-mode GUI each frame.
//!
//! Pointer coordinates and scroll deltas are carried through the adapter
//! untouched, so this model stores them as the bit patterns of the toolkit's
//! 64-bit floating-point values (`f64::to_bits`); the painting side turns
//! them back into coordinates when it builds the frame's raw input. The one
//! computation the adapter performs on them, negating a scroll delta, is the
//! sign-bit flip on that pattern.

use vstd::prelude::*;

use crate::keys::Key;
use crate::keys::Modifiers;

verus! {

/// The sign bit of a 64-bit IEEE 754 value: flipping it negates the value.
pub const F64_SIGN_BIT: u64 = 0x8000_0000_0000_0000;

/// One translated input event, queued between toolkit callbacks and the next
/// render pass.
#[derive(Debug, PartialEq)]
pub enum InputEvent {
    /// The primary pointer button went down or up at the given position.
    PointerButton { x_bits: u64, y_bits: u64, pressed: bool, modifiers: Modifiers },
    /// The pointer moved to the given position.
    PointerMoved { x_bits: u64, y_bits: u64 },
    /// The pointer left the widget.
    PointerGone,
    /// A discrete scroll of the given number of lines; the deltas are the
    /// negated scroll offsets the toolkit reported.
    MouseWheel { delta_x_bits: u64, delta_y_bits: u64, modifiers: Modifiers },
    /// A logical key went down or up.
    Key { key: Key, pressed: bool, modifiers: Modifiers },
    /// A printable character was typed, carried as its Unicode code point.
    Text { codepoint: u32 },
    /// The clipboard answered a paste command with this text.
    Paste { text: String },
    /// A copy command: the GUI should place its selection on the clipboard.
    Copy,
    /// A cut command: like copy, but the GUI also deletes the selection.
    Cut,
}

} // verus!
