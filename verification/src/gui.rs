use vstd::prelude::*;

verus! {

/// The GUI library's abstract key vocabulary: the target of key translation.
#[derive(Clone, Copy, PartialEq, Eq, Structural, Debug)]
pub enum Key {
    ArrowDown,
    ArrowLeft,
    ArrowRight,
    ArrowUp,
    Escape,
    Tab,
    Backspace,
    Enter,
    Space,
    Insert,
    Delete,
    Home,
    End,
    PageUp,
    PageDown,
    Minus,
    PlusEquals,
    Num0,
    Num1,
    Num2,
    Num3,
    Num4,
    Num5,
    Num6,
    Num7,
    Num8,
    Num9,
    A,
    B,
    C,
    D,
    E,
    F,
    G,
    H,
    I,
    J,
    K,
    L,
    M,
    N,
    O,
    P,
    Q,
    R,
    S,
    T,
    U,
    V,
    W,
    X,
    Y,
    Z,
    F1,
    F2,
    F3,
    F4,
    F5,
    F6,
    F7,
    F8,
    F9,
    F10,
    F11,
    F12,
    F13,
    F14,
    F15,
    F16,
    F17,
    F18,
    F19,
    F20,
}

/// The GUI library's cursor-icon vocabulary: the domain of cursor mapping.
#[derive(Clone, Copy, PartialEq, Eq, Structural, Debug)]
pub enum CursorIcon {
    Default,
    NoCursor,
    ContextMenu,
    Help,
    PointingHand,
    Progress,
    Wait,
    Cell,
    Crosshair,
    Text,
    VerticalText,
    Alias,
    Copy,
    Move,
    NoDrop,
    NotAllowed,
    Grab,
    Grabbing,
    AllScroll,
    ResizeHorizontal,
    ResizeNeSw,
    ResizeNwSe,
    ResizeVertical,
    ResizeEast,
    ResizeSouthEast,
    ResizeSouth,
    ResizeSouthWest,
    ResizeWest,
    ResizeNorthWest,
    ResizeNorth,
    ResizeNorthEast,
    ResizeColumn,
    ResizeRow,
    ZoomIn,
    ZoomOut,
}

/// The GUI library's pointer-button vocabulary: the target of button translation.
#[derive(Clone, Copy, PartialEq, Eq, Structural, Debug)]
pub enum PointerButton {
    Primary,
    Secondary,
    Middle,
    Extra1,
    Extra2,
}

/// Phase of a touch point's life, carried verbatim from the platform event kind.
#[derive(Clone, Copy, PartialEq, Eq, Structural, Debug)]
pub enum TouchPhase {
    Start,
    Move,
    End,
    Cancel,
}

/// Live modifier-key flags, recomputed on every key transition and kept
/// until the next one.
#[derive(Clone, Copy, PartialEq, Eq, Structural, Debug)]
pub struct Modifiers {
    pub alt: bool,
    pub ctrl: bool,
    pub shift: bool,
    pub command: bool,
}

impl Modifiers {
    /// The modifier snapshot holds `command` whenever `ctrl` is held.
    pub open spec fn spec_consistent(self) -> bool {
        self.ctrl ==> self.command
    }
}

impl Default for Modifiers {
    /// All modifier flags start out released.
    fn default() -> (m: Modifiers)
        ensures
            m == (Modifiers { alt: false, ctrl: false, shift: false, command: false }),
    {
        Modifiers { alt: false, ctrl: false, shift: false, command: false }
    }
}

/// One translated input event in the GUI library's vocabulary.
///
/// Screen coordinates and scroll deltas are logical-unit measurements that the
/// bridge carries through unchanged; they are held as IEEE 754 single-precision
/// bit patterns, since the bridge itself never computes with them.
#[derive(Clone, Copy, PartialEq, Eq, Debug)]
pub enum GuiEvent {
    Key { key: Key, pressed: bool, repeat: bool, modifiers: Modifiers },
    Text { ch: char },
    PointerButton { x_bits: u32, y_bits: u32, button: PointerButton, pressed: bool, modifiers: Modifiers },
    PointerMoved { x_bits: u32, y_bits: u32 },
    PointerGone,
    Scroll { dx_bits: u32, dy_bits: u32 },
    Touch { device_id: u64, id: u64, phase: TouchPhase, x_bits: u32, y_bits: u32, force_bits: u32 },
}

/// Identifier of a GPU-resident texture in the GUI library's output.
#[derive(Clone, Copy, PartialEq, Eq, Structural, Debug)]
pub enum TextureId {
    Managed(u64),
    User(u64),
}

/// Texel-filtering choice attached to a texture upload.
#[derive(Clone, Copy, PartialEq, Eq, Structural, Debug)]
pub enum TextureFilter {
    Nearest,
    Linear,
}

/// Sampler options attached to a texture upload.
#[derive(Clone, Copy, PartialEq, Eq, Structural, Debug)]
pub struct TextureOptions {
    pub magnification: TextureFilter,
    pub minification: TextureFilter,
}

/// Destination offset of a partial texture update, in texels.
#[derive(Clone, Copy, PartialEq, Eq, Structural, Debug)]
pub struct TexturePos {
    pub x: u64,
    pub y: u64,
}

/// One texture-upload instruction from the GUI library's per-frame output.
/// A `pos` of `None` means the whole texture is (re)defined.
#[derive(Clone, Copy, PartialEq, Eq, Debug)]
pub struct TextureDelta {
    pub id: TextureId,
    pub pos: Option<TexturePos>,
    pub options: TextureOptions,
}

/// A request from the GUI library to open a URL.
#[derive(PartialEq, Eq, Debug)]
pub struct OpenUrl {
    pub url: String,
    pub new_tab: bool,
}

impl Clone for OpenUrl {
    /// The copy stands for the same request.
    fn clone(&self) -> (c: OpenUrl)
        ensures
            c@ == self@,
    {
        OpenUrl { url: self.url.clone(), new_tab: self.new_tab }
    }
}

/// Mathematical model of an [`OpenUrl`] request.
pub struct OpenUrlModel {
    pub url: Seq<char>,
    pub new_tab: bool,
}

impl View for OpenUrl {
    type V = OpenUrlModel;

    open spec fn view(&self) -> OpenUrlModel {
        OpenUrlModel { url: self.url@, new_tab: self.new_tab }
    }
}

/// The GUI library's end-of-frame output: the single most recent snapshot the
/// frame controller stores, fully replacing the previous one.
#[derive(Clone, PartialEq, Eq, Debug)]
pub struct FullOutput {
    pub cursor_icon: CursorIcon,
    pub copied_text: String,
    pub open_url: Option<OpenUrl>,
    pub textures_set: Vec<TextureDelta>,
    pub textures_free: Vec<TextureId>,
    pub repaint_after_nanos: u64,
}

/// Mathematical model of a [`FullOutput`] snapshot.
pub struct FullOutputModel {
    pub cursor_icon: CursorIcon,
    pub copied_text: Seq<char>,
    pub open_url: Option<OpenUrlModel>,
    pub textures_set: Seq<TextureDelta>,
    pub textures_free: Seq<TextureId>,
    pub repaint_after_nanos: u64,
}

impl View for FullOutput {
    type V = FullOutputModel;

    open spec fn view(&self) -> FullOutputModel {
        FullOutputModel {
            cursor_icon: self.cursor_icon,
            copied_text: self.copied_text@,
            open_url: match self.open_url {
                Some(u) => Some(u@),
                None => None,
            },
            textures_set: self.textures_set@,
            textures_free: self.textures_free@,
            repaint_after_nanos: self.repaint_after_nanos,
        }
    }
}

} // verus!
