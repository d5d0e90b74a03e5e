//! The widget adapter's state machine.
//!
//! [`EguiArea`] models the state the GL-area widget carries between toolkit
//! callbacks: whether the GL painter exists (it lives exactly from realize to
//! unrealize), whether a ui callback is installed, the frame-pacing setting,
//! the modifier state the key controller last reported, and the queue of
//! translated input events. Each toolkit callback becomes one method here;
//! the toolkit shell around the library calls the method with the plain
//! values the callback carried and performs whatever the method decided
//! (create or destroy the painter, queue a render, start a clipboard read).

use vstd::prelude::*;

use crate::events::F64_SIGN_BIT;
use crate::events::InputEvent;
use crate::keys::GDK_SHIFT_MASK;
use crate::keys::Key;
use crate::keys::Modifiers;
use crate::keys::Platform;
use crate::keys::gdk_to_egui_modifiers;
use crate::keys::is_control_codepoint;
use crate::keys::is_copy_command;
use crate::keys::is_cut_command;
use crate::keys::is_paste_command;
use crate::keys::spec_is_control_codepoint;
use crate::keys::spec_is_copy_command;
use crate::keys::spec_is_cut_command;
use crate::keys::spec_is_paste_command;
use crate::keys::spec_modifiers_of_bits;
use crate::pacing::interval_micros_for_fps;
use crate::pacing::spec_interval_micros_for_fps;

verus! {

/// The modifier record with every flag clear: the state before the key
/// controller has reported anything.
pub open spec fn spec_no_modifiers() -> Modifiers {
    Modifiers { alt: false, ctrl: false, shift: false, mac_cmd: false, command: false }
}

/// The state of the widget adapter between toolkit callbacks.
pub struct EguiArea {
    /// Whether the GL painter exists: set at realize, cleared at unrealize.
    /// Rendering may only run while it does.
    pub painter_present: bool,
    /// Whether a ui callback is installed; a render pass runs the GUI only
    /// when one is.
    pub run_ui: bool,
    /// The minimum interval between renders, in microseconds, or `None` to
    /// render on every tick of the frame clock.
    pub min_render_interval_micros: Option<u64>,
    /// The modifier state the key controller last reported; pointer and
    /// scroll events are stamped with it.
    pub current_modifiers: Modifiers,
    /// Translated input events waiting for the next render pass.
    pub input_events: Vec<InputEvent>,
}

/// The widget's settings (painter, ui callback, frame pacing) are the same in
/// both states: the event-queueing methods leave them alone.
pub open spec fn spec_settings_unchanged(pre: EguiArea, post: EguiArea) -> bool {
    &&& post.painter_present == pre.painter_present
    &&& post.run_ui == pre.run_ui
    &&& post.min_render_interval_micros == pre.min_render_interval_micros
}

/// The text event a key press contributes: the typed character (as its code
/// point), if the raw modifier mask names no modifier beyond shift and the
/// character is not a control character.
pub open spec fn spec_text_events(raw_modifier_bits: u32, unicode: Option<u32>) -> Seq<InputEvent> {
    match unicode {
        Some(codepoint) => {
            if (raw_modifier_bits == 0 || raw_modifier_bits & GDK_SHIFT_MASK != 0)
                && !spec_is_control_codepoint(codepoint) {
                seq![InputEvent::Text { codepoint }]
            } else {
                Seq::empty()
            }
        },
        None => Seq::empty(),
    }
}

/// The clipboard event a key press contributes: copy wins over cut; a paste
/// command contributes nothing here, because its text arrives only once the
/// asynchronous clipboard read answers.
pub open spec fn spec_command_events(platform: Platform, modifiers: Modifiers, key: Key) -> Seq<
    InputEvent,
> {
    if spec_is_copy_command(platform, modifiers, key) {
        seq![InputEvent::Copy]
    } else if spec_is_cut_command(platform, modifiers, key) {
        seq![InputEvent::Cut]
    } else {
        Seq::empty()
    }
}

/// Whether a key press starts an asynchronous clipboard read: it spells the
/// paste command and is not already taken as copy or cut, which are checked
/// first.
pub open spec fn spec_starts_paste_read(platform: Platform, modifiers: Modifiers, key: Key) -> bool {
    &&& !spec_is_copy_command(platform, modifiers, key)
    &&& !spec_is_cut_command(platform, modifiers, key)
    &&& spec_is_paste_command(platform, modifiers, key)
}

/// Everything one key press appends to the queue: the text event, then, if
/// the key resolved to a logical key, the clipboard event and the key-down
/// event itself.
pub open spec fn spec_key_press_events(
    platform: Platform,
    raw_modifier_bits: u32,
    unicode: Option<u32>,
    key: Option<Key>,
) -> Seq<InputEvent> {
    spec_text_events(raw_modifier_bits, unicode) + match key {
        Some(k) => {
            let m = spec_modifiers_of_bits(raw_modifier_bits, platform);
            spec_command_events(platform, m, k) + seq![
                InputEvent::Key { key: k, pressed: true, modifiers: m },
            ]
        },
        None => Seq::empty(),
    }
}

impl EguiArea {
    /// The state of a freshly constructed widget: no painter, no ui callback,
    /// no frame-rate cap, no modifiers, an empty queue.
    pub fn new() -> (r: EguiArea)
        ensures
            !r.painter_present,
            !r.run_ui,
            r.min_render_interval_micros is None,
            r.current_modifiers == spec_no_modifiers(),
            r.input_events@ == Seq::<InputEvent>::empty(),
    {
        EguiArea {
            painter_present: false,
            run_ui: false,
            min_render_interval_micros: None,
            current_modifiers: Modifiers {
                alt: false,
                ctrl: false,
                shift: false,
                mac_cmd: false,
                command: false,
            },
            input_events: Vec::new(),
        }
    }

    /// A freshly constructed widget with a ui callback installed and the
    /// frame rate capped at `max_fps`.
    pub fn with_max_fps(max_fps: u32) -> (r: EguiArea)
        ensures
            !r.painter_present,
            r.run_ui,
            r.min_render_interval_micros == Some(spec_interval_micros_for_fps(max_fps)),
            r.current_modifiers == spec_no_modifiers(),
            r.input_events@ == Seq::<InputEvent>::empty(),
    {
        let mut area = EguiArea::new();
        area.set_ui();
        area.set_max_fps(max_fps);
        area
    }

    /// Caps the frame rate: renders will be at least the matching interval
    /// apart from now on.
    pub fn set_max_fps(&mut self, max_fps: u32)
        ensures
            final(self).min_render_interval_micros == Some(
                spec_interval_micros_for_fps(max_fps),
            ),
            final(self).painter_present == old(self).painter_present,
            final(self).run_ui == old(self).run_ui,
            final(self).current_modifiers == old(self).current_modifiers,
            final(self).input_events@ == old(self).input_events@,
    {
        self.min_render_interval_micros = Some(interval_micros_for_fps(max_fps));
    }

    /// Records that a ui callback is installed, so render passes run the GUI.
    pub fn set_ui(&mut self)
        ensures
            final(self).run_ui,
            final(self).painter_present == old(self).painter_present,
            final(self).min_render_interval_micros == old(self).min_render_interval_micros,
            final(self).current_modifiers == old(self).current_modifiers,
            final(self).input_events@ == old(self).input_events@,
    {
        self.run_ui = true;
    }

    /// The frame clock ticked `elapsed_nanos` nanoseconds after the last
    /// queued render: whether to queue another. Without a frame-rate cap a
    /// render is queued on every tick; with one, only once strictly more than
    /// the minimum interval has elapsed.
    pub fn should_render(&self, elapsed_nanos: u128) -> (r: bool)
        ensures
            r == match self.min_render_interval_micros {
                Some(micros) => elapsed_nanos > micros as u128 * 1000,
                None => true,
            },
    {
        match self.min_render_interval_micros {
            Some(micros) => elapsed_nanos > micros as u128 * 1000,
            None => true,
        }
    }

    /// The widget was realized: the shell makes the GL context current and
    /// creates the painter, which this records.
    pub fn on_realize(&mut self)
        ensures
            final(self).painter_present,
            final(self).run_ui == old(self).run_ui,
            final(self).min_render_interval_micros == old(self).min_render_interval_micros,
            final(self).current_modifiers == old(self).current_modifiers,
            final(self).input_events@ == old(self).input_events@,
    {
        self.painter_present = true;
    }

    /// The widget was unrealized: the painter, if one exists, must release
    /// its GL resources. Returns whether there is one to destroy.
    pub fn on_unrealize(&mut self) -> (destroy: bool)
        ensures
            destroy == old(self).painter_present,
            !final(self).painter_present,
            final(self).run_ui == old(self).run_ui,
            final(self).min_render_interval_micros == old(self).min_render_interval_micros,
            final(self).current_modifiers == old(self).current_modifiers,
            final(self).input_events@ == old(self).input_events@,
    {
        let destroy = self.painter_present;
        self.painter_present = false;
        destroy
    }

    /// Whether a render pass may run: only while the painter exists.
    pub fn can_render(&self) -> (r: bool)
        ensures
            r == self.painter_present,
    {
        self.painter_present
    }

    /// Whether a render pass runs the GUI: only while a ui callback is
    /// installed.
    pub fn has_ui(&self) -> (r: bool)
        ensures
            r == self.run_ui,
    {
        self.run_ui
    }

    /// Hands the queued input events to the render pass, in the order they
    /// arrived, and leaves the queue empty.
    pub fn take_input_events(&mut self) -> (taken: Vec<InputEvent>)
        ensures
            taken@ == old(self).input_events@,
            final(self).input_events@ == Seq::<InputEvent>::empty(),
            spec_settings_unchanged(*old(self), *final(self)),
            final(self).current_modifiers == old(self).current_modifiers,
    {
        let mut taken: Vec<InputEvent> = Vec::new();
        core::mem::swap(&mut taken, &mut self.input_events);
        taken
    }

    /// The primary pointer button went down at the given position (the bit
    /// pattern of each coordinate): queues the button event, stamped with the
    /// current modifiers.
    pub fn on_pointer_pressed(&mut self, x_bits: u64, y_bits: u64)
        ensures
            final(self).input_events@ == old(self).input_events@.push(
                (InputEvent::PointerButton {
                    x_bits,
                    y_bits,
                    pressed: true,
                    modifiers: old(self).current_modifiers,
                }),
            ),
            spec_settings_unchanged(*old(self), *final(self)),
            final(self).current_modifiers == old(self).current_modifiers,
    {
        let modifiers = self.current_modifiers;
        self.input_events.push(
            InputEvent::PointerButton { x_bits, y_bits, pressed: true, modifiers },
        );
    }

    /// The primary pointer button went up at the given position: queues the
    /// button event, stamped with the current modifiers.
    pub fn on_pointer_released(&mut self, x_bits: u64, y_bits: u64)
        ensures
            final(self).input_events@ == old(self).input_events@.push(
                (InputEvent::PointerButton {
                    x_bits,
                    y_bits,
                    pressed: false,
                    modifiers: old(self).current_modifiers,
                }),
            ),
            spec_settings_unchanged(*old(self), *final(self)),
            final(self).current_modifiers == old(self).current_modifiers,
    {
        let modifiers = self.current_modifiers;
        self.input_events.push(
            InputEvent::PointerButton { x_bits, y_bits, pressed: false, modifiers },
        );
    }

    /// The pointer moved to the given position: queues the motion event.
    pub fn on_pointer_moved(&mut self, x_bits: u64, y_bits: u64)
        ensures
            final(self).input_events@ == old(self).input_events@.push(
                (InputEvent::PointerMoved { x_bits, y_bits }),
            ),
            spec_settings_unchanged(*old(self), *final(self)),
            final(self).current_modifiers == old(self).current_modifiers,
    {
        self.input_events.push(InputEvent::PointerMoved { x_bits, y_bits });
    }

    /// The pointer left the widget: queues the pointer-gone event.
    pub fn on_pointer_left(&mut self)
        ensures
            final(self).input_events@ == old(self).input_events@.push(InputEvent::PointerGone),
            spec_settings_unchanged(*old(self), *final(self)),
            final(self).current_modifiers == old(self).current_modifiers,
    {
        self.input_events.push(InputEvent::PointerGone);
    }

    /// A discrete scroll by the given offsets (the bit pattern of each):
    /// queues a line-unit wheel event whose deltas are the negated offsets —
    /// on bit patterns, negation is the sign-bit flip — stamped with the
    /// current modifiers.
    pub fn on_scroll(&mut self, x_bits: u64, y_bits: u64)
        ensures
            final(self).input_events@ == old(self).input_events@.push(
                (InputEvent::MouseWheel {
                    delta_x_bits: x_bits ^ F64_SIGN_BIT,
                    delta_y_bits: y_bits ^ F64_SIGN_BIT,
                    modifiers: old(self).current_modifiers,
                }),
            ),
            spec_settings_unchanged(*old(self), *final(self)),
            final(self).current_modifiers == old(self).current_modifiers,
    {
        let modifiers = self.current_modifiers;
        self.input_events.push(
            InputEvent::MouseWheel {
                delta_x_bits: x_bits ^ F64_SIGN_BIT,
                delta_y_bits: y_bits ^ F64_SIGN_BIT,
                modifiers,
            },
        );
    }

    /// A key went down. `raw_modifier_bits` is the mask the controller
    /// reported, `unicode` the code point of the character the keyval prints
    /// as, and `key` the logical key it resolved to (through the keyval
    /// table, or the shell's name-based fallback), if any. Queues the text
    /// event, the clipboard event and the key-down event that the press
    /// translates to, and returns whether the shell must start an
    /// asynchronous clipboard read — the paste event itself is queued only
    /// when that read answers, through [`EguiArea::on_paste_text`].
    pub fn on_key_pressed(
        &mut self,
        platform: Platform,
        raw_modifier_bits: u32,
        unicode: Option<u32>,
        key: Option<Key>,
    ) -> (start_paste: bool)
        ensures
            final(self).input_events@ == old(self).input_events@ + spec_key_press_events(
                platform,
                raw_modifier_bits,
                unicode,
                key,
            ),
            start_paste == (key matches Some(k) && spec_starts_paste_read(
                platform,
                spec_modifiers_of_bits(raw_modifier_bits, platform),
                k,
            )),
            spec_settings_unchanged(*old(self), *final(self)),
            final(self).current_modifiers == old(self).current_modifiers,
    {
        let ghost pre = self.input_events@;
        if raw_modifier_bits == 0 || raw_modifier_bits & GDK_SHIFT_MASK != 0 {
            if let Some(codepoint) = unicode {
                if !is_control_codepoint(codepoint) {
                    self.input_events.push(InputEvent::Text { codepoint });
                }
            }
        }
        proof {
            assert(self.input_events@ =~= pre + spec_text_events(raw_modifier_bits, unicode));
        }
        let ghost mid = self.input_events@;
        let mut start_paste = false;
        if let Some(k) = key {
            let m = gdk_to_egui_modifiers(raw_modifier_bits, platform);
            if is_copy_command(platform, m, k) {
                self.input_events.push(InputEvent::Copy);
            } else if is_cut_command(platform, m, k) {
                self.input_events.push(InputEvent::Cut);
            } else if is_paste_command(platform, m, k) {
                start_paste = true;
            }
            self.input_events.push(InputEvent::Key { key: k, pressed: true, modifiers: m });
            proof {
                assert(self.input_events@ =~= mid + spec_command_events(platform, m, k) + seq![
                    InputEvent::Key { key: k, pressed: true, modifiers: m },
                ]);
            }
        }
        proof {
            assert(self.input_events@ =~= pre + spec_key_press_events(
                platform,
                raw_modifier_bits,
                unicode,
                key,
            ));
        }
        start_paste
    }

    /// A key went up: if it resolved to a logical key, queues the key-up
    /// event with the modifiers the controller reported.
    pub fn on_key_released(
        &mut self,
        platform: Platform,
        raw_modifier_bits: u32,
        key: Option<Key>,
    )
        ensures
            final(self).input_events@ == match key {
                Some(k) => old(self).input_events@.push(
                    (InputEvent::Key {
                        key: k,
                        pressed: false,
                        modifiers: spec_modifiers_of_bits(raw_modifier_bits, platform),
                    }),
                ),
                None => old(self).input_events@,
            },
            spec_settings_unchanged(*old(self), *final(self)),
            final(self).current_modifiers == old(self).current_modifiers,
    {
        if let Some(k) = key {
            let m = gdk_to_egui_modifiers(raw_modifier_bits, platform);
            self.input_events.push(InputEvent::Key { key: k, pressed: false, modifiers: m });
        }
    }

    /// The controller reported a new modifier mask: records its translation
    /// as the current modifiers. Queues nothing.
    pub fn on_modifiers_changed(&mut self, platform: Platform, raw_modifier_bits: u32)
        ensures
            final(self).current_modifiers == spec_modifiers_of_bits(raw_modifier_bits, platform),
            final(self).input_events@ == old(self).input_events@,
            spec_settings_unchanged(*old(self), *final(self)),
    {
        self.current_modifiers = gdk_to_egui_modifiers(raw_modifier_bits, platform);
    }

    /// The asynchronous clipboard read that a paste command started answered
    /// with `text`: queues the paste event.
    pub fn on_paste_text(&mut self, text: String)
        ensures
            final(self).input_events@ == old(self).input_events@.push(
                (InputEvent::Paste { text }),
            ),
            spec_settings_unchanged(*old(self), *final(self)),
            final(self).current_modifiers == old(self).current_modifiers,
    {
        self.input_events.push(InputEvent::Paste { text });
    }
}

} // verus!
