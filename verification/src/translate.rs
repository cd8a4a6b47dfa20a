use vstd::prelude::*;

use crate::gui::{GuiEvent, Modifiers, TouchPhase};
use crate::mapping::{
    sapp_key_to_egui_key, sapp_mouse_button_to_egui_pointer_button, spec_button_map, spec_key_map,
};
use crate::platform::{
    Event, TouchPoint, MODIFIER_ALT, MODIFIER_CTRL, MODIFIER_SHIFT, MODIFIER_SUPER,
};

verus! {

/// Device id reported with every translated touch event; the platform
/// reports no device identity of its own, so one fixed id stands in.
pub const TOUCH_DEVICE_ID: u64 = 1337;

/// The modifier snapshot a platform modifier bitmask stands for: each flag
/// is the mask test of its bit, and `command` is held whenever control or
/// the platform super modifier is.
pub open spec fn spec_modifiers_from_mask(mask: u32) -> Modifiers {
    Modifiers {
        alt: mask & MODIFIER_ALT != 0,
        ctrl: mask & MODIFIER_CTRL != 0,
        shift: mask & MODIFIER_SHIFT != 0,
        command: mask & MODIFIER_CTRL != 0 || mask & MODIFIER_SUPER != 0,
    }
}

/// Recompute the live modifier flags from a platform modifier bitmask.
pub fn modifiers_from_mask(mask: u32) -> (m: Modifiers)
    ensures
        m == spec_modifiers_from_mask(mask),
{
    let ctrl = mask & MODIFIER_CTRL != 0;
    Modifiers {
        alt: mask & MODIFIER_ALT != 0,
        ctrl,
        shift: mask & MODIFIER_SHIFT != 0,
        command: ctrl || mask & MODIFIER_SUPER != 0,
    }
}

/// Whatever bitmask the platform reports, the recomputed snapshot holds
/// `command` whenever it holds `ctrl`, and whenever the super bit is set.
pub proof fn lemma_modifiers_command(mask: u32)
    ensures
        spec_modifiers_from_mask(mask).spec_consistent(),
        mask & MODIFIER_SUPER != 0 ==> spec_modifiers_from_mask(mask).command,
{
}

/// The translated event one changed touch point produces.
pub open spec fn spec_touch_event(t: TouchPoint, phase: TouchPhase) -> GuiEvent {
    GuiEvent::Touch {
        device_id: TOUCH_DEVICE_ID,
        id: t.identifier,
        phase,
        x_bits: t.x_bits,
        y_bits: t.y_bits,
        force_bits: 0,
    }
}

/// The translation of a platform touch batch: exactly the points flagged
/// "changed", in their original batch order, each with the phase of the
/// batch carried through.
pub open spec fn spec_touch_batch(ts: Seq<TouchPoint>, phase: TouchPhase) -> Seq<GuiEvent>
    decreases ts.len(),
{
    if ts.len() == 0 {
        Seq::empty()
    } else {
        let front = spec_touch_batch(ts.drop_last(), phase);
        if ts.last().changed {
            front.push(spec_touch_event(ts.last(), phase))
        } else {
            front
        }
    }
}

/// The batch translation is the changed subset mapped pointwise: it keeps
/// exactly the changed points, in batch order, with the phase unchanged.
pub proof fn lemma_touch_batch_is_filtered_map(ts: Seq<TouchPoint>, phase: TouchPhase)
    ensures
        spec_touch_batch(ts, phase) == ts.filter(|t: TouchPoint| t.changed).map_values(
            |t: TouchPoint| spec_touch_event(t, phase),
        ),
    decreases ts.len(),
{
    reveal(Seq::filter);
    let changed = |t: TouchPoint| t.changed;
    let to_event = |t: TouchPoint| spec_touch_event(t, phase);
    if ts.len() == 0 {
        assert(spec_touch_batch(ts, phase) =~= ts.filter(changed).map_values(to_event));
    } else {
        lemma_touch_batch_is_filtered_map(ts.drop_last(), phase);
        if ts.last().changed {
            assert(ts.filter(changed).map_values(to_event) =~= ts.drop_last().filter(
                changed,
            ).map_values(to_event).push(to_event(ts.last())));
        } else {
            assert(ts.filter(changed) == ts.drop_last().filter(changed));
        }
        assert(spec_touch_batch(ts, phase) =~= ts.filter(changed).map_values(to_event));
    }
}

/// Translate one platform touch batch into GUI touch events.
pub fn translate_touches(touches: &Vec<TouchPoint>, phase: TouchPhase) -> (r: Vec<GuiEvent>)
    ensures
        r@ == spec_touch_batch(touches@, phase),
{
    let mut out: Vec<GuiEvent> = Vec::new();
    let mut i: usize = 0;
    while i < touches.len()
        invariant
            i <= touches.len(),
            out@ == spec_touch_batch(touches@.take(i as int), phase),
        decreases touches.len() - i,
    {
        let t = touches[i];
        proof {
            assert(touches@.take(i + 1).drop_last() =~= touches@.take(i as int));
            assert(touches@.take(i + 1).last() == touches@[i as int]);
        }
        if t.changed {
            out.push(
                GuiEvent::Touch {
                    device_id: TOUCH_DEVICE_ID,
                    id: t.identifier,
                    phase,
                    x_bits: t.x_bits,
                    y_bits: t.y_bits,
                    force_bits: 0,
                },
            );
        }
        i = i + 1;
    }
    proof {
        assert(touches@.take(touches@.len() as int) =~= touches@);
    }
    out
}

/// The modifier snapshot after a platform event: a key transition while the
/// GUI wants keyboard input recomputes it from the event's bitmask; every
/// other event leaves it as it was.
pub open spec fn spec_mods_after(m: Modifiers, ev: Event, wants_keyboard: bool) -> Modifiers {
    match ev {
        Event::KeyDown { modifier_mask, .. } => if wants_keyboard {
            spec_modifiers_from_mask(modifier_mask)
        } else {
            m
        },
        Event::KeyUp { modifier_mask, .. } => if wants_keyboard {
            spec_modifiers_from_mask(modifier_mask)
        } else {
            m
        },
        _ => m,
    }
}

/// True exactly when the u32 is a Unicode scalar value, i.e. when the
/// platform character code names a text character.
pub open spec fn spec_is_scalar(code: u32) -> bool {
    vstd::utf8::is_scalar(code)
}

/// The GUI events a platform event appends to the frame's buffer, given the
/// modifier snapshot `m` that holds after the event, whether the GUI wants
/// keyboard input, and whether pointer-shaped events are being translated.
/// Each platform event yields zero or one GUI event, except a touch batch,
/// which yields one event per changed point. A key or button transition
/// carries the down/up distinction in its `pressed` flag.
pub open spec fn spec_emitted(
    ev: Event,
    m: Modifiers,
    wants_keyboard: bool,
    translate_pointer: bool,
) -> Seq<GuiEvent> {
    match ev {
        Event::KeyDown { key_code, repeat, .. } => if wants_keyboard {
            match spec_key_map(key_code) {
                Some(key) => seq![
                    GuiEvent::Key { key, pressed: true, repeat, modifiers: m },
                ],
                None => Seq::empty(),
            }
        } else {
            Seq::empty()
        },
        Event::KeyUp { key_code, repeat, .. } => if wants_keyboard {
            match spec_key_map(key_code) {
                Some(key) => seq![
                    GuiEvent::Key { key, pressed: false, repeat, modifiers: m },
                ],
                None => Seq::empty(),
            }
        } else {
            Seq::empty()
        },
        Event::Char { char_code } => if wants_keyboard && spec_is_scalar(char_code) {
            seq![GuiEvent::Text { ch: char_code as char }]
        } else {
            Seq::empty()
        },
        Event::MouseDown { button, x_bits, y_bits } => if translate_pointer {
            seq![
                GuiEvent::PointerButton {
                    x_bits,
                    y_bits,
                    button: spec_button_map(button),
                    pressed: true,
                    modifiers: m,
                },
            ]
        } else {
            Seq::empty()
        },
        Event::MouseUp { button, x_bits, y_bits } => if translate_pointer {
            seq![
                GuiEvent::PointerButton {
                    x_bits,
                    y_bits,
                    button: spec_button_map(button),
                    pressed: false,
                    modifiers: m,
                },
            ]
        } else {
            Seq::empty()
        },
        Event::MouseScroll { dx_bits, dy_bits } => if translate_pointer {
            seq![GuiEvent::Scroll { dx_bits, dy_bits }]
        } else {
            Seq::empty()
        },
        Event::MouseMove { x_bits, y_bits } => if translate_pointer {
            seq![GuiEvent::PointerMoved { x_bits, y_bits }]
        } else {
            Seq::empty()
        },
        Event::MouseEnter { x_bits, y_bits } => if translate_pointer {
            seq![GuiEvent::PointerMoved { x_bits, y_bits }]
        } else {
            Seq::empty()
        },
        Event::MouseLeave => if translate_pointer {
            seq![GuiEvent::PointerGone]
        } else {
            Seq::empty()
        },
        Event::TouchesBegan { touches } => if translate_pointer {
            spec_touch_batch(touches@, TouchPhase::Start)
        } else {
            Seq::empty()
        },
        Event::TouchesMoved { touches } => if translate_pointer {
            spec_touch_batch(touches@, TouchPhase::Move)
        } else {
            Seq::empty()
        },
        Event::TouchesEnded { touches } => if translate_pointer {
            spec_touch_batch(touches@, TouchPhase::End)
        } else {
            Seq::empty()
        },
        Event::TouchesCancelled { touches } => if translate_pointer {
            spec_touch_batch(touches@, TouchPhase::Cancel)
        } else {
            Seq::empty()
        },
        _ => Seq::empty(),
    }
}

/// The window-focus flag after a platform event: iconify, focus-loss and
/// suspend clear it; restore, focus-gain and resume set it; everything else
/// leaves it.
pub open spec fn spec_focus_after(has_focus: bool, ev: Event) -> bool {
    match ev {
        Event::Iconified => false,
        Event::Unfocused => false,
        Event::Suspended => false,
        Event::Restored => true,
        Event::Focused => true,
        Event::Resumed => true,
        _ => has_focus,
    }
}

/// Whether the platform event counts as consumed by the bridge. A key
/// transition counts as soon as modifier bookkeeping ran, whether or not a
/// key event was emitted; a character counts only when it named a text
/// character; pointer events count whenever pointer translation is on, a
/// touch batch only if some point changed; window lifecycle events count as
/// implicitly handled; quit, clipboard-paste, file-drop and invalid events
/// are left to the platform.
pub open spec fn spec_consumed(ev: Event, wants_keyboard: bool, translate_pointer: bool) -> bool {
    match ev {
        Event::KeyDown { .. } => wants_keyboard,
        Event::KeyUp { .. } => wants_keyboard,
        Event::Char { char_code } => wants_keyboard && spec_is_scalar(char_code),
        Event::MouseDown { .. } => translate_pointer,
        Event::MouseUp { .. } => translate_pointer,
        Event::MouseScroll { .. } => translate_pointer,
        Event::MouseMove { .. } => translate_pointer,
        Event::MouseEnter { .. } => translate_pointer,
        Event::MouseLeave => translate_pointer,
        Event::TouchesBegan { touches } => translate_pointer && spec_touch_batch(
            touches@,
            TouchPhase::Start,
        ).len() > 0,
        Event::TouchesMoved { touches } => translate_pointer && spec_touch_batch(
            touches@,
            TouchPhase::Move,
        ).len() > 0,
        Event::TouchesEnded { touches } => translate_pointer && spec_touch_batch(
            touches@,
            TouchPhase::End,
        ).len() > 0,
        Event::TouchesCancelled { touches } => translate_pointer && spec_touch_batch(
            touches@,
            TouchPhase::Cancel,
        ).len() > 0,
        Event::Resized => true,
        Event::Iconified => true,
        Event::Unfocused => true,
        Event::Suspended => true,
        Event::Restored => true,
        Event::Focused => true,
        Event::Resumed => true,
        _ => false,
    }
}

/// Relies on char::from_u32 of std: the result is the character of the given
/// code, and it exists exactly when the code is a Unicode scalar value.
#[verifier::external_body]
fn char_from_u32(code: u32) -> (r: Option<char>)
    ensures
        r is Some <==> spec_is_scalar(code),
        r is Some ==> r == Some(code as char),
{
    char::from_u32(code)
}

/// Apply one platform event to the translator's shared state: update the
/// modifier snapshot and the focus flag, append the translated events to the
/// frame's buffer in arrival order, and report whether the event was
/// consumed.
pub fn translate_event(
    buffer: &mut Vec<GuiEvent>,
    modifiers: &mut Modifiers,
    has_focus: &mut bool,
    ev: &Event,
    wants_keyboard: bool,
    translate_pointer: bool,
) -> (consumed: bool)
    ensures
        *final(modifiers) == spec_mods_after(*old(modifiers), *ev, wants_keyboard),
        final(buffer)@ == old(buffer)@ + spec_emitted(
            *ev,
            *final(modifiers),
            wants_keyboard,
            translate_pointer,
        ),
        *final(has_focus) == spec_focus_after(*old(has_focus), *ev),
        consumed == spec_consumed(*ev, wants_keyboard, translate_pointer),
{
    let ghost pre_buffer = buffer@;
    let consumed: bool;
    match ev {
        Event::KeyDown { key_code, repeat, modifier_mask } => {
            if wants_keyboard {
                *modifiers = modifiers_from_mask(*modifier_mask);
                if let Some(key) = sapp_key_to_egui_key(*key_code) {
                    buffer.push(
                        GuiEvent::Key {
                            key,
                            pressed: true,
                            repeat: *repeat,
                            modifiers: *modifiers,
                        },
                    );
                }
                consumed = true;
            } else {
                consumed = false;
            }
        },
        Event::KeyUp { key_code, repeat, modifier_mask } => {
            if wants_keyboard {
                *modifiers = modifiers_from_mask(*modifier_mask);
                if let Some(key) = sapp_key_to_egui_key(*key_code) {
                    buffer.push(
                        GuiEvent::Key {
                            key,
                            pressed: false,
                            repeat: *repeat,
                            modifiers: *modifiers,
                        },
                    );
                }
                consumed = true;
            } else {
                consumed = false;
            }
        },
        Event::Char { char_code } => {
            if wants_keyboard {
                if let Some(ch) = char_from_u32(*char_code) {
                    buffer.push(GuiEvent::Text { ch });
                    consumed = true;
                } else {
                    consumed = false;
                }
            } else {
                consumed = false;
            }
        },
        Event::MouseDown { button, x_bits, y_bits } => {
            if translate_pointer {
                buffer.push(
                    GuiEvent::PointerButton {
                        x_bits: *x_bits,
                        y_bits: *y_bits,
                        button: sapp_mouse_button_to_egui_pointer_button(*button),
                        pressed: true,
                        modifiers: *modifiers,
                    },
                );
                consumed = true;
            } else {
                consumed = false;
            }
        },
        Event::MouseUp { button, x_bits, y_bits } => {
            if translate_pointer {
                buffer.push(
                    GuiEvent::PointerButton {
                        x_bits: *x_bits,
                        y_bits: *y_bits,
                        button: sapp_mouse_button_to_egui_pointer_button(*button),
                        pressed: false,
                        modifiers: *modifiers,
                    },
                );
                consumed = true;
            } else {
                consumed = false;
            }
        },
        Event::MouseScroll { dx_bits, dy_bits } => {
            if translate_pointer {
                buffer.push(GuiEvent::Scroll { dx_bits: *dx_bits, dy_bits: *dy_bits });
                consumed = true;
            } else {
                consumed = false;
            }
        },
        Event::MouseMove { x_bits, y_bits } => {
            if translate_pointer {
                buffer.push(GuiEvent::PointerMoved { x_bits: *x_bits, y_bits: *y_bits });
                consumed = true;
            } else {
                consumed = false;
            }
        },
        Event::MouseEnter { x_bits, y_bits } => {
            if translate_pointer {
                buffer.push(GuiEvent::PointerMoved { x_bits: *x_bits, y_bits: *y_bits });
                consumed = true;
            } else {
                consumed = false;
            }
        },
        Event::MouseLeave => {
            if translate_pointer {
                buffer.push(GuiEvent::PointerGone);
                consumed = true;
            } else {
                consumed = false;
            }
        },
        Event::TouchesBegan { touches } => {
            if translate_pointer {
                let mut translated = translate_touches(touches, TouchPhase::Start);
                consumed = translated.len() > 0;
                buffer.append(&mut translated);
            } else {
                consumed = false;
            }
        },
        Event::TouchesMoved { touches } => {
            if translate_pointer {
                let mut translated = translate_touches(touches, TouchPhase::Move);
                consumed = translated.len() > 0;
                buffer.append(&mut translated);
            } else {
                consumed = false;
            }
        },
        Event::TouchesEnded { touches } => {
            if translate_pointer {
                let mut translated = translate_touches(touches, TouchPhase::End);
                consumed = translated.len() > 0;
                buffer.append(&mut translated);
            } else {
                consumed = false;
            }
        },
        Event::TouchesCancelled { touches } => {
            if translate_pointer {
                let mut translated = translate_touches(touches, TouchPhase::Cancel);
                consumed = translated.len() > 0;
                buffer.append(&mut translated);
            } else {
                consumed = false;
            }
        },
        Event::Resized => {
            consumed = true;
        },
        Event::Iconified => {
            *has_focus = false;
            consumed = true;
        },
        Event::Unfocused => {
            *has_focus = false;
            consumed = true;
        },
        Event::Suspended => {
            *has_focus = false;
            consumed = true;
        },
        Event::Restored => {
            *has_focus = true;
            consumed = true;
        },
        Event::Focused => {
            *has_focus = true;
            consumed = true;
        },
        Event::Resumed => {
            *has_focus = true;
            consumed = true;
        },
        Event::QuitRequested => {
            consumed = false;
        },
        Event::ClipboardPasted => {
            consumed = false;
        },
        Event::FilesDropped => {
            consumed = false;
        },
        Event::Num => {
            consumed = false;
        },
        Event::Invalid => {
            consumed = false;
        },
    }
    proof {
        assert(buffer@ =~= pre_buffer + spec_emitted(
            *ev,
            *modifiers,
            wants_keyboard,
            translate_pointer,
        ));
    }
    consumed
}

} // verus!
