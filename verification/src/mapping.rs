use vstd::prelude::*;

use crate::gui::{CursorIcon, Key, PointerButton};
use crate::platform::{Keycode, MouseCursor, Mousebutton};

verus! {

/// The fixed reference table from platform key codes to GUI keys.
/// Codes outside the table translate to no key at all.
pub open spec fn spec_key_map(keycode: Keycode) -> Option<Key> {
    match keycode {
        Keycode::Space => Some(Key::Space),
        Keycode::Minus => Some(Key::Minus),
        Keycode::Num0 => Some(Key::Num0),
        Keycode::Num1 => Some(Key::Num1),
        Keycode::Num2 => Some(Key::Num2),
        Keycode::Num3 => Some(Key::Num3),
        Keycode::Num4 => Some(Key::Num4),
        Keycode::Num5 => Some(Key::Num5),
        Keycode::Num6 => Some(Key::Num6),
        Keycode::Num7 => Some(Key::Num7),
        Keycode::Num8 => Some(Key::Num8),
        Keycode::Num9 => Some(Key::Num9),
        Keycode::Equal => Some(Key::PlusEquals),
        Keycode::A => Some(Key::A),
        Keycode::B => Some(Key::B),
        Keycode::C => Some(Key::C),
        Keycode::D => Some(Key::D),
        Keycode::E => Some(Key::E),
        Keycode::F => Some(Key::F),
        Keycode::G => Some(Key::G),
        Keycode::H => Some(Key::H),
        Keycode::I => Some(Key::I),
        Keycode::J => Some(Key::J),
        Keycode::K => Some(Key::K),
        Keycode::L => Some(Key::L),
        Keycode::M => Some(Key::M),
        Keycode::N => Some(Key::N),
        Keycode::O => Some(Key::O),
        Keycode::P => Some(Key::P),
        Keycode::Q => Some(Key::Q),
        Keycode::R => Some(Key::R),
        Keycode::S => Some(Key::S),
        Keycode::T => Some(Key::T),
        Keycode::U => Some(Key::U),
        Keycode::V => Some(Key::V),
        Keycode::W => Some(Key::W),
        Keycode::X => Some(Key::X),
        Keycode::Y => Some(Key::Y),
        Keycode::Z => Some(Key::Z),
        Keycode::Escape => Some(Key::Escape),
        Keycode::Enter => Some(Key::Enter),
        Keycode::Tab => Some(Key::Tab),
        Keycode::Backspace => Some(Key::Backspace),
        Keycode::Insert => Some(Key::Insert),
        Keycode::Delete => Some(Key::Delete),
        Keycode::Right => Some(Key::ArrowRight),
        Keycode::Left => Some(Key::ArrowLeft),
        Keycode::Down => Some(Key::ArrowDown),
        Keycode::Up => Some(Key::ArrowUp),
        Keycode::PageUp => Some(Key::PageUp),
        Keycode::PageDown => Some(Key::PageDown),
        Keycode::Home => Some(Key::Home),
        Keycode::End => Some(Key::End),
        Keycode::F1 => Some(Key::F1),
        Keycode::F2 => Some(Key::F2),
        Keycode::F3 => Some(Key::F3),
        Keycode::F4 => Some(Key::F4),
        Keycode::F5 => Some(Key::F5),
        Keycode::F6 => Some(Key::F6),
        Keycode::F7 => Some(Key::F7),
        Keycode::F8 => Some(Key::F8),
        Keycode::F9 => Some(Key::F9),
        Keycode::F10 => Some(Key::F10),
        Keycode::F11 => Some(Key::F11),
        Keycode::F12 => Some(Key::F12),
        Keycode::F13 => Some(Key::F13),
        Keycode::F14 => Some(Key::F14),
        Keycode::F15 => Some(Key::F15),
        Keycode::F16 => Some(Key::F16),
        Keycode::F17 => Some(Key::F17),
        Keycode::F18 => Some(Key::F18),
        Keycode::F19 => Some(Key::F19),
        Keycode::F20 => Some(Key::F20),
        Keycode::Kp0 => Some(Key::Num0),
        Keycode::Kp1 => Some(Key::Num1),
        Keycode::Kp2 => Some(Key::Num2),
        Keycode::Kp3 => Some(Key::Num3),
        Keycode::Kp4 => Some(Key::Num4),
        Keycode::Kp5 => Some(Key::Num5),
        Keycode::Kp6 => Some(Key::Num6),
        Keycode::Kp7 => Some(Key::Num7),
        Keycode::Kp8 => Some(Key::Num8),
        Keycode::Kp9 => Some(Key::Num9),
        Keycode::KpSubtract => Some(Key::Minus),
        Keycode::KpAdd => Some(Key::PlusEquals),
        Keycode::KpEnter => Some(Key::Enter),
        Keycode::KpEqual => Some(Key::PlusEquals),
        _ => None,
    }
}

/// Translate a platform key code into the GUI key it stands for, or `None`
/// for a code outside the reference table. Total over all platform codes:
/// every code yields exactly one GUI key or explicitly none.
pub fn sapp_key_to_egui_key(keycode: Keycode) -> (r: Option<Key>)
    ensures
        r == spec_key_map(keycode),
{
    match keycode {
        Keycode::Space => Some(Key::Space),
        Keycode::Minus => Some(Key::Minus),
        Keycode::Num0 => Some(Key::Num0),
        Keycode::Num1 => Some(Key::Num1),
        Keycode::Num2 => Some(Key::Num2),
        Keycode::Num3 => Some(Key::Num3),
        Keycode::Num4 => Some(Key::Num4),
        Keycode::Num5 => Some(Key::Num5),
        Keycode::Num6 => Some(Key::Num6),
        Keycode::Num7 => Some(Key::Num7),
        Keycode::Num8 => Some(Key::Num8),
        Keycode::Num9 => Some(Key::Num9),
        Keycode::Equal => Some(Key::PlusEquals),
        Keycode::A => Some(Key::A),
        Keycode::B => Some(Key::B),
        Keycode::C => Some(Key::C),
        Keycode::D => Some(Key::D),
        Keycode::E => Some(Key::E),
        Keycode::F => Some(Key::F),
        Keycode::G => Some(Key::G),
        Keycode::H => Some(Key::H),
        Keycode::I => Some(Key::I),
        Keycode::J => Some(Key::J),
        Keycode::K => Some(Key::K),
        Keycode::L => Some(Key::L),
        Keycode::M => Some(Key::M),
        Keycode::N => Some(Key::N),
        Keycode::O => Some(Key::O),
        Keycode::P => Some(Key::P),
        Keycode::Q => Some(Key::Q),
        Keycode::R => Some(Key::R),
        Keycode::S => Some(Key::S),
        Keycode::T => Some(Key::T),
        Keycode::U => Some(Key::U),
        Keycode::V => Some(Key::V),
        Keycode::W => Some(Key::W),
        Keycode::X => Some(Key::X),
        Keycode::Y => Some(Key::Y),
        Keycode::Z => Some(Key::Z),
        Keycode::Escape => Some(Key::Escape),
        Keycode::Enter => Some(Key::Enter),
        Keycode::Tab => Some(Key::Tab),
        Keycode::Backspace => Some(Key::Backspace),
        Keycode::Insert => Some(Key::Insert),
        Keycode::Delete => Some(Key::Delete),
        Keycode::Right => Some(Key::ArrowRight),
        Keycode::Left => Some(Key::ArrowLeft),
        Keycode::Down => Some(Key::ArrowDown),
        Keycode::Up => Some(Key::ArrowUp),
        Keycode::PageUp => Some(Key::PageUp),
        Keycode::PageDown => Some(Key::PageDown),
        Keycode::Home => Some(Key::Home),
        Keycode::End => Some(Key::End),
        Keycode::F1 => Some(Key::F1),
        Keycode::F2 => Some(Key::F2),
        Keycode::F3 => Some(Key::F3),
        Keycode::F4 => Some(Key::F4),
        Keycode::F5 => Some(Key::F5),
        Keycode::F6 => Some(Key::F6),
        Keycode::F7 => Some(Key::F7),
        Keycode::F8 => Some(Key::F8),
        Keycode::F9 => Some(Key::F9),
        Keycode::F10 => Some(Key::F10),
        Keycode::F11 => Some(Key::F11),
        Keycode::F12 => Some(Key::F12),
        Keycode::F13 => Some(Key::F13),
        Keycode::F14 => Some(Key::F14),
        Keycode::F15 => Some(Key::F15),
        Keycode::F16 => Some(Key::F16),
        Keycode::F17 => Some(Key::F17),
        Keycode::F18 => Some(Key::F18),
        Keycode::F19 => Some(Key::F19),
        Keycode::F20 => Some(Key::F20),
        Keycode::Kp0 => Some(Key::Num0),
        Keycode::Kp1 => Some(Key::Num1),
        Keycode::Kp2 => Some(Key::Num2),
        Keycode::Kp3 => Some(Key::Num3),
        Keycode::Kp4 => Some(Key::Num4),
        Keycode::Kp5 => Some(Key::Num5),
        Keycode::Kp6 => Some(Key::Num6),
        Keycode::Kp7 => Some(Key::Num7),
        Keycode::Kp8 => Some(Key::Num8),
        Keycode::Kp9 => Some(Key::Num9),
        Keycode::KpSubtract => Some(Key::Minus),
        Keycode::KpAdd => Some(Key::PlusEquals),
        Keycode::KpEnter => Some(Key::Enter),
        Keycode::KpEqual => Some(Key::PlusEquals),
        _ => None,
    }
}

/// The fixed 1:1 table from platform mouse buttons to GUI pointer buttons.
/// The invalid button code folds to an explicit extra-button category, so the
/// table has no missing case.
pub open spec fn spec_button_map(button: Mousebutton) -> PointerButton {
    match button {
        Mousebutton::Left => PointerButton::Primary,
        Mousebutton::Right => PointerButton::Secondary,
        Mousebutton::Middle => PointerButton::Middle,
        Mousebutton::Invalid => PointerButton::Extra1,
    }
}

/// Translate a platform mouse button into the GUI pointer button it stands
/// for. Total: the invalid code maps to an explicit fallback category.
pub fn sapp_mouse_button_to_egui_pointer_button(button: Mousebutton) -> (r: PointerButton)
    ensures
        r == spec_button_map(button),
{
    match button {
        Mousebutton::Left => PointerButton::Primary,
        Mousebutton::Right => PointerButton::Secondary,
        Mousebutton::Middle => PointerButton::Middle,
        Mousebutton::Invalid => PointerButton::Extra1,
    }
}

/// The cursor icons the bridge maps to a specific platform cursor; every
/// icon outside this set folds to the platform's default arrow cursor.
pub open spec fn spec_cursor_explicitly_mapped(cursor: CursorIcon) -> bool {
    match cursor {
        CursorIcon::Default => true,
        CursorIcon::PointingHand => true,
        CursorIcon::Crosshair => true,
        CursorIcon::Text => true,
        CursorIcon::VerticalText => true,
        CursorIcon::NoDrop => true,
        CursorIcon::NotAllowed => true,
        CursorIcon::ResizeHorizontal => true,
        CursorIcon::ResizeNeSw => true,
        CursorIcon::ResizeNwSe => true,
        CursorIcon::ResizeVertical => true,
        CursorIcon::ResizeEast => true,
        CursorIcon::ResizeSouthEast => true,
        CursorIcon::ResizeSouth => true,
        CursorIcon::ResizeSouthWest => true,
        CursorIcon::ResizeWest => true,
        CursorIcon::ResizeNorthWest => true,
        CursorIcon::ResizeNorth => true,
        CursorIcon::ResizeNorthEast => true,
        CursorIcon::ResizeColumn => true,
        CursorIcon::ResizeRow => true,
        _ => false,
    }
}

/// The total table from GUI cursor icons to platform cursor kinds. Both
/// text-caret icons fold to the I-beam cursor; diagonal resize directions
/// without a platform equivalent fold to the generic resize-all cursor;
/// every icon outside the explicit table folds to the default arrow.
pub open spec fn spec_cursor_map(cursor: CursorIcon) -> MouseCursor {
    match cursor {
        CursorIcon::Default => MouseCursor::Default,
        CursorIcon::PointingHand => MouseCursor::PointingHand,
        CursorIcon::Crosshair => MouseCursor::Crosshair,
        CursorIcon::Text => MouseCursor::Ibeam,
        CursorIcon::VerticalText => MouseCursor::Ibeam,
        CursorIcon::NoDrop => MouseCursor::NotAllowed,
        CursorIcon::NotAllowed => MouseCursor::NotAllowed,
        CursorIcon::ResizeHorizontal => MouseCursor::ResizeEw,
        CursorIcon::ResizeNeSw => MouseCursor::ResizeNesw,
        CursorIcon::ResizeNwSe => MouseCursor::ResizeNwse,
        CursorIcon::ResizeVertical => MouseCursor::ResizeNs,
        CursorIcon::ResizeEast => MouseCursor::ResizeEw,
        CursorIcon::ResizeSouthEast => MouseCursor::ResizeAll,
        CursorIcon::ResizeSouth => MouseCursor::ResizeNs,
        CursorIcon::ResizeSouthWest => MouseCursor::ResizeAll,
        CursorIcon::ResizeWest => MouseCursor::ResizeEw,
        CursorIcon::ResizeNorthWest => MouseCursor::ResizeAll,
        CursorIcon::ResizeNorth => MouseCursor::ResizeNs,
        CursorIcon::ResizeNorthEast => MouseCursor::ResizeAll,
        CursorIcon::ResizeColumn => MouseCursor::ResizeNs,
        CursorIcon::ResizeRow => MouseCursor::ResizeEw,
        _ => MouseCursor::Default,
    }
}

/// Map a GUI cursor icon to the platform cursor kind that shows it.
/// Total over the whole icon vocabulary: no icon is left unmapped.
pub fn egui_cursor_to_sapp_cursor(cursor: CursorIcon) -> (r: MouseCursor)
    ensures
        r == spec_cursor_map(cursor),
{
    match cursor {
        CursorIcon::Default => MouseCursor::Default,
        CursorIcon::PointingHand => MouseCursor::PointingHand,
        CursorIcon::Crosshair => MouseCursor::Crosshair,
        CursorIcon::Text => MouseCursor::Ibeam,
        CursorIcon::VerticalText => MouseCursor::Ibeam,
        CursorIcon::NoDrop => MouseCursor::NotAllowed,
        CursorIcon::NotAllowed => MouseCursor::NotAllowed,
        CursorIcon::ResizeHorizontal => MouseCursor::ResizeEw,
        CursorIcon::ResizeNeSw => MouseCursor::ResizeNesw,
        CursorIcon::ResizeNwSe => MouseCursor::ResizeNwse,
        CursorIcon::ResizeVertical => MouseCursor::ResizeNs,
        CursorIcon::ResizeEast => MouseCursor::ResizeEw,
        CursorIcon::ResizeSouthEast => MouseCursor::ResizeAll,
        CursorIcon::ResizeSouth => MouseCursor::ResizeNs,
        CursorIcon::ResizeSouthWest => MouseCursor::ResizeAll,
        CursorIcon::ResizeWest => MouseCursor::ResizeEw,
        CursorIcon::ResizeNorthWest => MouseCursor::ResizeAll,
        CursorIcon::ResizeNorth => MouseCursor::ResizeNs,
        CursorIcon::ResizeNorthEast => MouseCursor::ResizeAll,
        CursorIcon::ResizeColumn => MouseCursor::ResizeNs,
        CursorIcon::ResizeRow => MouseCursor::ResizeEw,
        _ => MouseCursor::Default,
    }
}

/// The cursor mapping is total: every icon outside the explicit table still
/// has a defined image, the platform's default arrow cursor. Together with
/// the exhaustive table above, no icon ever maps to an unmapped cursor.
pub proof fn lemma_cursor_map_total()
    ensures
        forall|c: CursorIcon|
            !spec_cursor_explicitly_mapped(c) ==> #[trigger] spec_cursor_map(c)
                == MouseCursor::Default,
{
}

} // verus!
