//! A per-frame bridge between a platform windowing/input layer and an
//! immediate-mode GUI library.
//!
//! The bridge translates discrete platform input events into the GUI
//! library's event vocabulary with stateful modifier tracking, runs the
//! per-frame lifecycle that accumulates events and stores the library's
//! output, and translates that output (cursor shape, clipboard and URL
//! requests, texture lifecycle deltas) back into platform-side actions.
//!
//! The host loop owns a [`control::State`] and drives it: `begin`, then per
//! frame zero or more `event` intakes followed by `frame`, the GUI
//! library's own begin/end pair on the snapshot, `frame_end`, and `draw`;
//! finally `shutdown`.

pub mod control;
pub mod gui;
pub mod mapping;
pub mod platform;
pub mod translate;

pub use control::{
    begin, draw, event, event_with_signals, frame, frame_end, shutdown, Desc, DrawActions,
    FrameActions, FrameGeometry, FrameSnapshot, LifecycleError, Phase, RawInput, State,
};
pub use mapping::{
    egui_cursor_to_sapp_cursor, sapp_key_to_egui_key, sapp_mouse_button_to_egui_pointer_button,
};
