use vstd::prelude::*;

verus! {

/// Platform modifier bitmask: shift bit.
pub const MODIFIER_SHIFT: u32 = 1;

/// Platform modifier bitmask: control bit.
pub const MODIFIER_CTRL: u32 = 2;

/// Platform modifier bitmask: alt bit.
pub const MODIFIER_ALT: u32 = 4;

/// Platform modifier bitmask: super (OS/command) bit.
pub const MODIFIER_SUPER: u32 = 8;

/// The platform's key-code vocabulary: the domain of key translation.
#[derive(Clone, Copy, PartialEq, Eq, Structural, Debug)]
pub enum Keycode {
    Invalid,
    Space,
    Apostrophe,
    Comma,
    Minus,
    Period,
    Slash,
    Num0,
    Num1,
    Num2,
    Num3,
    Num4,
    Num5,
    Num6,
    Num7,
    Num8,
    Num9,
    Semicolon,
    Equal,
    A,
    B,
    C,
    D,
    E,
    F,
    G,
    H,
    I,
    J,
    K,
    L,
    M,
    N,
    O,
    P,
    Q,
    R,
    S,
    T,
    U,
    V,
    W,
    X,
    Y,
    Z,
    LeftBracket,
    Backslash,
    RightBracket,
    GraveAccent,
    World1,
    World2,
    Escape,
    Enter,
    Tab,
    Backspace,
    Insert,
    Delete,
    Right,
    Left,
    Down,
    Up,
    PageUp,
    PageDown,
    Home,
    End,
    CapsLock,
    ScrollLock,
    NumLock,
    PrintScreen,
    Pause,
    F1,
    F2,
    F3,
    F4,
    F5,
    F6,
    F7,
    F8,
    F9,
    F10,
    F11,
    F12,
    F13,
    F14,
    F15,
    F16,
    F17,
    F18,
    F19,
    F20,
    F21,
    F22,
    F23,
    F24,
    F25,
    Kp0,
    Kp1,
    Kp2,
    Kp3,
    Kp4,
    Kp5,
    Kp6,
    Kp7,
    Kp8,
    Kp9,
    KpDecimal,
    KpDivide,
    KpMultiply,
    KpSubtract,
    KpAdd,
    KpEnter,
    KpEqual,
    LeftShift,
    LeftControl,
    LeftAlt,
    LeftSuper,
    RightShift,
    RightControl,
    RightAlt,
    RightSuper,
    Menu,
}

/// The platform's mouse-button vocabulary: the domain of button translation.
#[derive(Clone, Copy, PartialEq, Eq, Structural, Debug)]
pub enum Mousebutton {
    Left,
    Right,
    Middle,
    Invalid,
}

/// The platform's cursor-kind vocabulary: the target of cursor mapping.
#[derive(Clone, Copy, PartialEq, Eq, Structural, Debug)]
pub enum MouseCursor {
    Default,
    Arrow,
    Ibeam,
    Crosshair,
    PointingHand,
    ResizeEw,
    ResizeNs,
    ResizeNwse,
    ResizeNesw,
    ResizeAll,
    NotAllowed,
}

/// One touch point inside a platform touch batch. Coordinates are logical
/// units, held as IEEE 754 single-precision bit patterns and carried through
/// unchanged.
#[derive(Clone, Copy, PartialEq, Eq, Debug)]
pub struct TouchPoint {
    pub identifier: u64,
    pub x_bits: u32,
    pub y_bits: u32,
    pub changed: bool,
}

/// A discrete notification from the platform windowing and input layer.
///
/// Positions, scroll deltas and touch coordinates are logical-unit
/// measurements carried through unchanged as IEEE 754 single-precision bit
/// patterns; the bridge never computes with them.
#[derive(Clone, PartialEq, Eq, Debug)]
pub enum Event {
    KeyDown { key_code: Keycode, repeat: bool, modifier_mask: u32 },
    KeyUp { key_code: Keycode, repeat: bool, modifier_mask: u32 },
    Char { char_code: u32 },
    MouseDown { button: Mousebutton, x_bits: u32, y_bits: u32 },
    MouseUp { button: Mousebutton, x_bits: u32, y_bits: u32 },
    MouseScroll { dx_bits: u32, dy_bits: u32 },
    MouseMove { x_bits: u32, y_bits: u32 },
    MouseEnter { x_bits: u32, y_bits: u32 },
    MouseLeave,
    TouchesBegan { touches: Vec<TouchPoint> },
    TouchesMoved { touches: Vec<TouchPoint> },
    TouchesEnded { touches: Vec<TouchPoint> },
    TouchesCancelled { touches: Vec<TouchPoint> },
    Resized,
    Iconified,
    Unfocused,
    Suspended,
    Restored,
    Focused,
    Resumed,
    QuitRequested,
    ClipboardPasted,
    FilesDropped,
    Num,
    Invalid,
}

} // verus!
