use segui::gui::{
    CursorIcon, FullOutput, GuiEvent, Key, Modifiers, OpenUrl, TextureDelta, TextureFilter,
    TextureId, TextureOptions, TexturePos,
};
use segui::platform::{Event, Keycode, MouseCursor};
use segui::{
    begin, draw, event_with_signals, frame, frame_end, shutdown, Desc, FrameGeometry,
    LifecycleError, State,
};

fn geometry() -> FrameGeometry {
    FrameGeometry {
        width_bits: 800.0f32.to_bits(),
        height_bits: 600.0f32.to_bits(),
        pixels_per_point_bits: 1.0f32.to_bits(),
        predicted_dt_bits: (1.0f32 / 60.0).to_bits(),
    }
}

fn quiet_output() -> FullOutput {
    FullOutput {
        cursor_icon: CursorIcon::Default,
        copied_text: String::new(),
        open_url: None,
        textures_set: Vec::new(),
        textures_free: Vec::new(),
        repaint_after_nanos: 0,
    }
}

#[test]
fn begin_twice_is_a_lifecycle_violation() {
    let mut state = State::new();
    assert_eq!(begin(&mut state, &Desc::new()), Ok(()));
    assert_eq!(
        begin(&mut state, &Desc::new()),
        Err(LifecycleError::AlreadyInitialized)
    );
    assert!(state.is_ready());
}

#[test]
fn entry_points_before_begin_are_violations() {
    let mut state = State::new();
    assert_eq!(
        event_with_signals(&mut state, &Event::Resized, false, true),
        Err(LifecycleError::NotInitialized)
    );
    assert_eq!(frame(&mut state, geometry()).err(), Some(LifecycleError::NotInitialized));
    assert_eq!(
        frame_end(&mut state, quiet_output()).err(),
        Some(LifecycleError::NotInitialized)
    );
    assert_eq!(draw(&state).err(), Some(LifecycleError::NotInitialized));
    assert_eq!(shutdown(&mut state), Err(LifecycleError::NotInitialized));
}

#[test]
fn shutdown_releases_and_allows_begin_again() {
    let mut state = State::new();
    begin(&mut state, &Desc::new()).unwrap();
    event_with_signals(
        &mut state,
        &Event::KeyDown { key_code: Keycode::A, repeat: false, modifier_mask: 0 },
        true,
        true,
    )
    .unwrap();
    assert_eq!(shutdown(&mut state), Ok(()));
    assert!(!state.is_ready());
    assert!(state.pending_events().is_empty());
    assert_eq!(
        event_with_signals(&mut state, &Event::Resized, false, true),
        Err(LifecycleError::NotInitialized)
    );
    assert_eq!(begin(&mut state, &Desc::new()), Ok(()));
    assert!(state.is_ready());
}

#[test]
fn key_down_then_frame_delivers_one_key_event_and_clears() {
    let mut state = State::new();
    begin(&mut state, &Desc::new()).unwrap();
    let consumed = event_with_signals(
        &mut state,
        &Event::KeyDown { key_code: Keycode::A, repeat: false, modifier_mask: 0 },
        true,
        true,
    )
    .unwrap();
    assert!(consumed);
    let snapshot = frame(&mut state, geometry()).unwrap();
    assert_eq!(snapshot.events.len(), 1);
    match snapshot.events[0] {
        GuiEvent::Key { key, pressed, repeat, modifiers } => {
            assert_eq!(key, Key::A);
            assert!(pressed);
            assert!(!repeat);
            assert_eq!(
                modifiers,
                Modifiers { alt: false, ctrl: false, shift: false, command: false }
            );
        }
        _ => panic!("expected a key event"),
    }
    assert!(state.pending_events().is_empty());
}

#[test]
fn scroll_event_translates_to_one_scroll_with_same_delta() {
    let mut state = State::new();
    begin(&mut state, &Desc::new()).unwrap();
    let consumed = event_with_signals(
        &mut state,
        &Event::MouseScroll {
            dx_bits: 1.0f32.to_bits(),
            dy_bits: (-2.0f32).to_bits(),
        },
        false,
        true,
    )
    .unwrap();
    assert!(consumed);
    let events = state.pending_events();
    assert_eq!(events.len(), 1);
    match events[0] {
        GuiEvent::Scroll { dx_bits, dy_bits } => {
            assert_eq!(f32::from_bits(dx_bits), 1.0);
            assert_eq!(f32::from_bits(dy_bits), -2.0);
        }
        _ => panic!("expected a scroll event"),
    }
}

#[test]
fn second_frame_without_input_sees_empty_buffer() {
    let mut state = State::new();
    begin(&mut state, &Desc::new()).unwrap();
    event_with_signals(
        &mut state,
        &Event::KeyDown { key_code: Keycode::B, repeat: false, modifier_mask: 0 },
        true,
        true,
    )
    .unwrap();
    let first = frame(&mut state, geometry()).unwrap();
    assert_eq!(first.events.len(), 1);
    let second = frame(&mut state, geometry()).unwrap();
    assert!(second.events.is_empty());
    assert!(state.pending_events().is_empty());
}

#[test]
fn frame_snapshot_carries_geometry_and_focus() {
    let mut state = State::new();
    begin(&mut state, &Desc::new()).unwrap();
    event_with_signals(&mut state, &Event::Unfocused, false, true).unwrap();
    let g = geometry();
    let snapshot = frame(&mut state, g).unwrap();
    assert_eq!(snapshot.geometry, g);
    assert!(!snapshot.has_focus);
}

#[test]
fn draw_before_any_frame_output_is_a_noop() {
    let mut state = State::new();
    begin(&mut state, &Desc::new()).unwrap();
    let actions = draw(&state).unwrap();
    assert!(actions.uploads.is_empty());
    assert!(actions.frees.is_empty());
    assert_eq!(actions.repaint_after_nanos, 0);
}

#[test]
fn frame_end_maps_cursor_every_frame() {
    let mut state = State::new();
    begin(&mut state, &Desc::new()).unwrap();
    let mut output = quiet_output();
    output.cursor_icon = CursorIcon::Text;
    let actions = frame_end(&mut state, output).unwrap();
    assert_eq!(actions.cursor, MouseCursor::Ibeam);
    assert_eq!(actions.copy_text, None);
    assert!(actions.open_url.is_none());
}

#[test]
fn frame_end_forwards_clipboard_text_only_when_nonempty() {
    let mut state = State::new();
    begin(&mut state, &Desc::new()).unwrap();
    let mut output = quiet_output();
    output.copied_text = String::from("copied words");
    let actions = frame_end(&mut state, output).unwrap();
    assert_eq!(actions.copy_text.as_deref(), Some("copied words"));

    let actions = frame_end(&mut state, quiet_output()).unwrap();
    assert_eq!(actions.copy_text, None);
}

#[test]
fn frame_end_forwards_url_requests() {
    let mut state = State::new();
    begin(&mut state, &Desc::new()).unwrap();
    let mut output = quiet_output();
    output.open_url = Some(OpenUrl { url: String::from("https://example.net/a"), new_tab: true });
    let actions = frame_end(&mut state, output).unwrap();
    let url = actions.open_url.expect("a url request");
    assert_eq!(url.url, "https://example.net/a");
    assert!(url.new_tab);
}

#[test]
fn draw_hands_out_texture_work_in_output_order() {
    let mut state = State::new();
    begin(&mut state, &Desc::new()).unwrap();
    let options = TextureOptions {
        magnification: TextureFilter::Linear,
        minification: TextureFilter::Nearest,
    };
    let deltas = vec![
        TextureDelta { id: TextureId::Managed(0), pos: None, options },
        TextureDelta {
            id: TextureId::Managed(0),
            pos: Some(TexturePos { x: 16, y: 32 }),
            options,
        },
        TextureDelta { id: TextureId::User(5), pos: None, options },
    ];
    let mut output = quiet_output();
    output.textures_set = deltas.clone();
    output.textures_free = vec![TextureId::Managed(9), TextureId::User(1)];
    output.repaint_after_nanos = 16_000_000;
    frame_end(&mut state, output).unwrap();

    let actions = draw(&state).unwrap();
    assert_eq!(actions.uploads, deltas);
    assert_eq!(actions.frees, vec![TextureId::Managed(9), TextureId::User(1)]);
    assert_eq!(actions.repaint_after_nanos, 16_000_000);
}

#[test]
fn new_frame_output_replaces_the_previous_one() {
    let mut state = State::new();
    begin(&mut state, &Desc::new()).unwrap();
    let options = TextureOptions {
        magnification: TextureFilter::Linear,
        minification: TextureFilter::Linear,
    };
    let mut output = quiet_output();
    output.textures_set = vec![TextureDelta { id: TextureId::Managed(1), pos: None, options }];
    frame_end(&mut state, output).unwrap();
    let mut output = quiet_output();
    output.textures_free = vec![TextureId::Managed(1)];
    frame_end(&mut state, output).unwrap();

    let actions = draw(&state).unwrap();
    assert!(actions.uploads.is_empty());
    assert_eq!(actions.frees, vec![TextureId::Managed(1)]);
}
