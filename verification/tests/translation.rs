use segui::gui::{GuiEvent, Key, Modifiers, PointerButton, TouchPhase};
use segui::platform::{
    Event, Keycode, Mousebutton, TouchPoint, MODIFIER_ALT, MODIFIER_CTRL, MODIFIER_SHIFT,
    MODIFIER_SUPER,
};
use segui::translate::{modifiers_from_mask, translate_touches, TOUCH_DEVICE_ID};
use segui::{begin, event_with_signals, Desc, State};

fn ready_state() -> State {
    let mut state = State::new();
    begin(&mut state, &Desc::new()).unwrap();
    state
}

fn no_modifiers() -> Modifiers {
    Modifiers { alt: false, ctrl: false, shift: false, command: false }
}

#[test]
fn modifiers_empty_mask_sets_nothing() {
    assert_eq!(modifiers_from_mask(0), no_modifiers());
}

#[test]
fn modifiers_mask_bits_are_tested_not_ored() {
    let m = modifiers_from_mask(MODIFIER_SHIFT);
    assert_eq!(m, Modifiers { alt: false, ctrl: false, shift: true, command: false });
    let m = modifiers_from_mask(MODIFIER_ALT);
    assert_eq!(m, Modifiers { alt: true, ctrl: false, shift: false, command: false });
}

#[test]
fn modifiers_ctrl_implies_command() {
    let m = modifiers_from_mask(MODIFIER_CTRL);
    assert!(m.ctrl);
    assert!(m.command);
    assert!(!m.alt);
    assert!(!m.shift);
}

#[test]
fn modifiers_super_implies_command() {
    let m = modifiers_from_mask(MODIFIER_SUPER);
    assert!(m.command);
    assert!(!m.ctrl);
}

#[test]
fn modifiers_all_bits() {
    let mask = MODIFIER_SHIFT | MODIFIER_CTRL | MODIFIER_ALT | MODIFIER_SUPER;
    let m = modifiers_from_mask(mask);
    assert_eq!(m, Modifiers { alt: true, ctrl: true, shift: true, command: true });
}

fn touch(id: u64, x: f32, y: f32, changed: bool) -> TouchPoint {
    TouchPoint { identifier: id, x_bits: x.to_bits(), y_bits: y.to_bits(), changed }
}

#[test]
fn touch_batch_keeps_changed_subset_in_order() {
    let batch = vec![
        touch(7, 1.0, 2.0, true),
        touch(8, 3.0, 4.0, false),
        touch(9, 5.0, 6.0, true),
    ];
    let events = translate_touches(&batch, TouchPhase::Start);
    assert_eq!(events.len(), 2);
    assert_eq!(
        events[0],
        GuiEvent::Touch {
            device_id: TOUCH_DEVICE_ID,
            id: 7,
            phase: TouchPhase::Start,
            x_bits: 1.0f32.to_bits(),
            y_bits: 2.0f32.to_bits(),
            force_bits: 0,
        }
    );
    assert_eq!(
        events[1],
        GuiEvent::Touch {
            device_id: TOUCH_DEVICE_ID,
            id: 9,
            phase: TouchPhase::Start,
            x_bits: 5.0f32.to_bits(),
            y_bits: 6.0f32.to_bits(),
            force_bits: 0,
        }
    );
}

#[test]
fn touch_batch_carries_phase_through() {
    let batch = vec![touch(1, 0.0, 0.0, true)];
    for phase in [TouchPhase::Start, TouchPhase::Move, TouchPhase::End, TouchPhase::Cancel] {
        let events = translate_touches(&batch, phase);
        assert_eq!(events.len(), 1);
        match events[0] {
            GuiEvent::Touch { phase: p, .. } => assert_eq!(p, phase),
            _ => panic!("expected a touch event"),
        }
    }
}

#[test]
fn touch_batch_with_no_changed_points_is_empty_and_unconsumed() {
    let mut state = ready_state();
    let batch = vec![touch(1, 0.0, 0.0, false), touch(2, 1.0, 1.0, false)];
    let consumed = event_with_signals(
        &mut state,
        &Event::TouchesMoved { touches: batch },
        false,
        true,
    )
    .unwrap();
    assert!(!consumed);
    assert!(state.pending_events().is_empty());
}

#[test]
fn touch_batch_event_appends_changed_points() {
    let mut state = ready_state();
    let batch = vec![touch(1, 0.5, 0.25, true), touch(2, 8.0, 9.0, false)];
    let consumed = event_with_signals(
        &mut state,
        &Event::TouchesEnded { touches: batch },
        false,
        true,
    )
    .unwrap();
    assert!(consumed);
    let events = state.pending_events();
    assert_eq!(events.len(), 1);
    match events[0] {
        GuiEvent::Touch { id, phase, .. } => {
            assert_eq!(id, 1);
            assert_eq!(phase, TouchPhase::End);
        }
        _ => panic!("expected a touch event"),
    }
}

#[test]
fn key_down_updates_modifiers_even_when_key_is_unmapped() {
    let mut state = ready_state();
    let consumed = event_with_signals(
        &mut state,
        &Event::KeyDown { key_code: Keycode::CapsLock, repeat: false, modifier_mask: MODIFIER_CTRL },
        true,
        true,
    )
    .unwrap();
    assert!(consumed);
    assert!(state.pending_events().is_empty());
    let m = state.modifier_snapshot();
    assert!(m.ctrl && m.command && !m.alt && !m.shift);
}

#[test]
fn key_events_are_ignored_without_keyboard_focus() {
    let mut state = ready_state();
    let consumed = event_with_signals(
        &mut state,
        &Event::KeyDown { key_code: Keycode::A, repeat: false, modifier_mask: MODIFIER_SHIFT },
        false,
        true,
    )
    .unwrap();
    assert!(!consumed);
    assert!(state.pending_events().is_empty());
    assert_eq!(state.modifier_snapshot(), no_modifiers());
}

#[test]
fn key_up_emits_key_event_with_snapshot() {
    let mut state = ready_state();
    let consumed = event_with_signals(
        &mut state,
        &Event::KeyUp { key_code: Keycode::Enter, repeat: false, modifier_mask: MODIFIER_SHIFT },
        true,
        true,
    )
    .unwrap();
    assert!(consumed);
    let events = state.pending_events();
    assert_eq!(events.len(), 1);
    assert_eq!(
        events[0],
        GuiEvent::Key {
            key: Key::Enter,
            pressed: false,
            repeat: false,
            modifiers: Modifiers { alt: false, ctrl: false, shift: true, command: false },
        }
    );
}

#[test]
fn key_transitions_carry_the_pressed_flag() {
    let mut state = ready_state();
    event_with_signals(
        &mut state,
        &Event::KeyDown { key_code: Keycode::Z, repeat: true, modifier_mask: 0 },
        true,
        true,
    )
    .unwrap();
    event_with_signals(
        &mut state,
        &Event::KeyUp { key_code: Keycode::Z, repeat: false, modifier_mask: 0 },
        true,
        true,
    )
    .unwrap();
    let events = state.pending_events();
    assert_eq!(
        events[0],
        GuiEvent::Key { key: Key::Z, pressed: true, repeat: true, modifiers: no_modifiers() }
    );
    assert_eq!(
        events[1],
        GuiEvent::Key { key: Key::Z, pressed: false, repeat: false, modifiers: no_modifiers() }
    );
}

#[test]
fn char_event_emits_text_for_scalar_values() {
    let mut state = ready_state();
    let consumed = event_with_signals(
        &mut state,
        &Event::Char { char_code: 'q' as u32 },
        true,
        true,
    )
    .unwrap();
    assert!(consumed);
    assert_eq!(state.pending_events()[0], GuiEvent::Text { ch: 'q' });
}

#[test]
fn char_event_drops_surrogate_codes() {
    let mut state = ready_state();
    let consumed = event_with_signals(
        &mut state,
        &Event::Char { char_code: 0xD800 },
        true,
        true,
    )
    .unwrap();
    assert!(!consumed);
    assert!(state.pending_events().is_empty());
}

#[test]
fn mouse_buttons_scroll_and_moves_translate() {
    let mut state = ready_state();
    let ev = Event::MouseDown {
        button: Mousebutton::Left,
        x_bits: 10.0f32.to_bits(),
        y_bits: 20.0f32.to_bits(),
    };
    assert!(event_with_signals(&mut state, &ev, false, true).unwrap());
    let ev = Event::MouseUp {
        button: Mousebutton::Right,
        x_bits: 10.0f32.to_bits(),
        y_bits: 20.0f32.to_bits(),
    };
    assert!(event_with_signals(&mut state, &ev, false, true).unwrap());
    let ev = Event::MouseMove { x_bits: 1.0f32.to_bits(), y_bits: 2.0f32.to_bits() };
    assert!(event_with_signals(&mut state, &ev, false, true).unwrap());
    let ev = Event::MouseLeave;
    assert!(event_with_signals(&mut state, &ev, false, true).unwrap());

    let events = state.pending_events();
    assert_eq!(events.len(), 4);
    assert_eq!(
        events[0],
        GuiEvent::PointerButton {
            x_bits: 10.0f32.to_bits(),
            y_bits: 20.0f32.to_bits(),
            button: PointerButton::Primary,
            pressed: true,
            modifiers: no_modifiers(),
        }
    );
    assert_eq!(
        events[1],
        GuiEvent::PointerButton {
            x_bits: 10.0f32.to_bits(),
            y_bits: 20.0f32.to_bits(),
            button: PointerButton::Secondary,
            pressed: false,
            modifiers: no_modifiers(),
        }
    );
    assert_eq!(
        events[2],
        GuiEvent::PointerMoved { x_bits: 1.0f32.to_bits(), y_bits: 2.0f32.to_bits() }
    );
    assert_eq!(events[3], GuiEvent::PointerGone);
}

#[test]
fn pointer_gating_policy_respects_gui_wish() {
    let mut state = State::new();
    begin(&mut state, &Desc { gate_pointer_input: true }).unwrap();
    let ev = Event::MouseMove { x_bits: 0, y_bits: 0 };
    let consumed = event_with_signals(&mut state, &ev, false, false).unwrap();
    assert!(!consumed);
    assert!(state.pending_events().is_empty());
    let consumed = event_with_signals(&mut state, &ev, false, true).unwrap();
    assert!(consumed);
    assert_eq!(state.pending_events().len(), 1);
}

#[test]
fn window_lifecycle_events_update_focus() {
    let mut state = ready_state();
    assert!(state.window_focused());
    assert!(event_with_signals(&mut state, &Event::Unfocused, false, true).unwrap());
    assert!(!state.window_focused());
    assert!(event_with_signals(&mut state, &Event::Restored, false, true).unwrap());
    assert!(state.window_focused());
    assert!(event_with_signals(&mut state, &Event::Suspended, false, true).unwrap());
    assert!(!state.window_focused());
    assert!(event_with_signals(&mut state, &Event::Focused, false, true).unwrap());
    assert!(state.window_focused());
    assert!(event_with_signals(&mut state, &Event::Resized, false, true).unwrap());
    assert!(state.pending_events().is_empty());
}

#[test]
fn unhandled_platform_events_are_left_to_the_platform() {
    let mut state = ready_state();
    for ev in [
        Event::QuitRequested,
        Event::ClipboardPasted,
        Event::FilesDropped,
        Event::Num,
        Event::Invalid,
    ] {
        assert!(!event_with_signals(&mut state, &ev, true, true).unwrap());
    }
    assert!(state.pending_events().is_empty());
}
