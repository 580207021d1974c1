//! Plain data that crosses the boundary to the host.
//!
//! Handles and callbacks are foreign addresses. The library never looks
//! behind one: it stores them, compares them with zero and hands them back.

use vstd::prelude::*;
use crate::json::{double_from_u32, whole_double, Double};

verus! {

/// Address of a foreign function that the host registered.
pub type CallbackAddress = usize;

/// Pointer-sized value that the host attached to a registration. It is only
/// ever handed back to the host.
pub type UserData = usize;

/// Address of the boxed window state that the host holds as its handle.
pub type WryWindow = usize;

/// The address that stands for "no handle".
pub const NULL_HANDLE: usize = 0;

/// Identifies a window in the registry.
#[derive(Clone, Copy, Debug, PartialEq, Eq, Structural, Hash)]
pub struct WindowId {
    pub raw: u64,
}

#[derive(Clone, Copy, Debug, PartialEq, Eq, Structural)]
pub struct WryColor {
    pub red: u8,
    pub green: u8,
    pub blue: u8,
    pub alpha: u8,
}

#[derive(Clone, Copy, Debug, PartialEq, Eq, Structural)]
pub enum WryWindowTheme {
    Unspecified,
    Light,
    Dark,
}

#[derive(Clone, Copy, Debug, PartialEq, Eq, Structural)]
pub enum WryActivationPolicy {
    Regular,
    Accessory,
    Prohibited,
}

#[derive(Clone, Copy, Debug, PartialEq, Eq, Structural)]
pub enum WryEventLoopControlFlow {
    Poll,
    Wait,
    Exit,
}

#[derive(Clone, Copy, Debug, PartialEq, Eq, Structural)]
pub enum WryUserAttentionType {
    Informational,
    Critical,
}

#[derive(Clone, Copy, Debug, PartialEq, Eq, Structural)]
pub enum WryResizeDirection {
    East,
    North,
    NorthEast,
    NorthWest,
    South,
    SouthEast,
    SouthWest,
    West,
}

#[derive(Clone, Copy, Debug, PartialEq, Eq, Structural)]
pub enum WryMessageDialogLevel {
    Info,
    Warning,
    Error,
}

impl Default for WryMessageDialogLevel {
    fn default() -> (level: Self)
        ensures
            level == WryMessageDialogLevel::Info,
    {
        WryMessageDialogLevel::Info
    }
}

#[derive(Clone, Copy, Debug, PartialEq, Eq, Structural)]
pub enum WryMessageDialogButtons {
    OkOnly,
    OkCancel,
    YesNo,
    YesNoCancel,
}

impl Default for WryMessageDialogButtons {
    fn default() -> (buttons: Self)
        ensures
            buttons == WryMessageDialogButtons::OkOnly,
    {
        WryMessageDialogButtons::OkOnly
    }
}

#[derive(Clone, Copy, Debug, PartialEq, Eq, Structural)]
pub enum WryTrayEventKind {
    Click,
    DoubleClick,
    Enter,
    Move,
    Leave,
}

/// A run of bytes in the host's memory: where it starts and how long it is.
#[derive(Clone, Copy, Debug, PartialEq, Eq, Structural)]
pub struct WryCustomProtocolBuffer {
    pub ptr: usize,
    pub len: usize,
}

impl Default for WryCustomProtocolBuffer {
    fn default() -> (buffer: Self)
        ensures
            buffer.ptr == NULL_HANDLE,
            buffer.len == 0,
    {
        WryCustomProtocolBuffer { ptr: NULL_HANDLE, len: 0 }
    }
}

/// Why a call failed.
#[derive(Clone, Copy, Debug, PartialEq, Eq, Structural)]
pub enum WryErrorCode {
    /// A handle was null.
    InvalidHandle,
    /// A string was missing or not valid UTF-8, or a required field was null.
    InvalidParameter,
    /// The platform refused the operation.
    OperationFailed,
    /// The event loop is not in the state that the call needs.
    EventLoopError,
    /// The platform has no such feature.
    NotSupported,
    /// Anything else.
    Unknown,
}

impl WryErrorCode {
    /// The number under which the host knows this failure. Zero is taken by
    /// success.
    pub open spec fn spec_code(self) -> i32 {
        match self {
            WryErrorCode::InvalidHandle => 1,
            WryErrorCode::InvalidParameter => 2,
            WryErrorCode::OperationFailed => 3,
            WryErrorCode::EventLoopError => 4,
            WryErrorCode::NotSupported => 5,
            WryErrorCode::Unknown => 6,
        }
    }

    #[verifier::when_used_as_spec(spec_code)]
    pub fn code(self) -> (code: i32)
        ensures
            code == self.spec_code(),
            code != 0,
    {
        match self {
            WryErrorCode::InvalidHandle => 1,
            WryErrorCode::InvalidParameter => 2,
            WryErrorCode::OperationFailed => 3,
            WryErrorCode::EventLoopError => 4,
            WryErrorCode::NotSupported => 5,
            WryErrorCode::Unknown => 6,
        }
    }
}

/// Outcome of a call, as the host reads it: a flag and, on failure, the
/// number of the failure.
#[derive(Clone, Copy, Debug, PartialEq, Eq, Structural)]
pub struct WryResult {
    pub success: bool,
    pub error_code: i32,
}

impl WryResult {
    pub fn ok() -> (result: Self)
        ensures
            result == (WryResult { success: true, error_code: 0 }),
    {
        WryResult { success: true, error_code: 0 }
    }

    pub fn err(code: i32) -> (result: Self)
        ensures
            result == (WryResult { success: false, error_code: code }),
    {
        WryResult { success: false, error_code: code }
    }
}

/// What another thread, the menu or the tray sends into the event loop.
#[derive(Clone, Debug, PartialEq)]
pub enum WryUserEvent {
    Exit,
    Custom(String),
    Menu(String),
    Tray(WryTrayEvent),
}

/// Where a tray icon sits on the screen.
#[derive(Clone, Debug, PartialEq)]
pub struct WryTrayRect {
    pub origin_x: Double,
    pub origin_y: Double,
    pub width: Double,
    pub height: Double,
}

/// What happened to a tray icon.
#[derive(Clone, Debug, PartialEq)]
pub struct WryTrayEvent {
    pub identifier: String,
    pub kind: WryTrayEventKind,
    pub position: Option<(Double, Double)>,
    pub rect: Option<WryTrayRect>,
    pub button: Option<String>,
    pub button_state: Option<String>,
}

/// A tray event with its texts as sequences of characters.
pub struct TrayEventView {
    pub identifier: Seq<char>,
    pub kind: WryTrayEventKind,
    pub position: Option<(Double, Double)>,
    pub rect: Option<WryTrayRect>,
    pub button: Option<Seq<char>>,
    pub button_state: Option<Seq<char>>,
}

/// The characters of a text that may be absent.
pub open spec fn optional_view(text: Option<String>) -> Option<Seq<char>> {
    match text {
        Some(present) => Some(present@),
        None => None,
    }
}

impl View for WryTrayEvent {
    type V = TrayEventView;

    open spec fn view(&self) -> TrayEventView {
        TrayEventView {
            identifier: self.identifier@,
            kind: self.kind,
            position: self.position,
            rect: self.rect,
            button: optional_view(self.button),
            button_state: optional_view(self.button_state),
        }
    }
}

/// The rectangle of a tray icon as the platform reports it: the corner as
/// doubles, the sides in whole pixels.
#[derive(Clone, Debug, PartialEq)]
pub struct TrayRect {
    pub x: Double,
    pub y: Double,
    pub width: u32,
    pub height: u32,
}

#[derive(Clone, Copy, Debug, PartialEq, Eq, Structural)]
pub enum TrayMouseButton {
    Left,
    Right,
    Middle,
}

#[derive(Clone, Copy, Debug, PartialEq, Eq, Structural)]
pub enum TrayMouseButtonState {
    Up,
    Down,
}

/// A tray event as the platform reports it.
#[derive(Clone, Debug, PartialEq)]
pub enum TrayIconEvent {
    Click {
        id: String,
        x: Double,
        y: Double,
        rect: TrayRect,
        button: TrayMouseButton,
        button_state: TrayMouseButtonState,
    },
    DoubleClick { id: String, x: Double, y: Double, rect: TrayRect, button: TrayMouseButton },
    Enter { id: String, x: Double, y: Double, rect: TrayRect },
    Move { id: String, x: Double, y: Double, rect: TrayRect },
    Leave { id: String, x: Double, y: Double, rect: TrayRect },
    /// An event that the platform added later: all that is known is the icon.
    Other { id: String },
}

pub open spec fn tray_button_text(button: TrayMouseButton) -> Seq<char> {
    match button {
        TrayMouseButton::Left => "left"@,
        TrayMouseButton::Right => "right"@,
        TrayMouseButton::Middle => "middle"@,
    }
}

pub open spec fn tray_button_state_text(state: TrayMouseButtonState) -> Seq<char> {
    match state {
        TrayMouseButtonState::Up => "up"@,
        TrayMouseButtonState::Down => "down"@,
    }
}

/// The rectangle with its sides as doubles.
pub open spec fn tray_rect_of(rect: TrayRect) -> WryTrayRect {
    WryTrayRect {
        origin_x: rect.x,
        origin_y: rect.y,
        width: Some(whole_double(rect.width as int)),
        height: Some(whole_double(rect.height as int)),
    }
}

/// What the host is told of a platform tray event. An event of a kind that
/// the library does not know is reported as a move without a position.
pub open spec fn tray_event_of(event: TrayIconEvent) -> TrayEventView {
    match event {
        TrayIconEvent::Click { id, x, y, rect, button, button_state } => TrayEventView {
            identifier: id@,
            kind: WryTrayEventKind::Click,
            position: Some((x, y)),
            rect: Some(tray_rect_of(rect)),
            button: Some(tray_button_text(button)),
            button_state: Some(tray_button_state_text(button_state)),
        },
        TrayIconEvent::DoubleClick { id, x, y, rect, button } => TrayEventView {
            identifier: id@,
            kind: WryTrayEventKind::DoubleClick,
            position: Some((x, y)),
            rect: Some(tray_rect_of(rect)),
            button: Some(tray_button_text(button)),
            button_state: None,
        },
        TrayIconEvent::Enter { id, x, y, rect } => TrayEventView {
            identifier: id@,
            kind: WryTrayEventKind::Enter,
            position: Some((x, y)),
            rect: Some(tray_rect_of(rect)),
            button: None,
            button_state: None,
        },
        TrayIconEvent::Move { id, x, y, rect } => TrayEventView {
            identifier: id@,
            kind: WryTrayEventKind::Move,
            position: Some((x, y)),
            rect: Some(tray_rect_of(rect)),
            button: None,
            button_state: None,
        },
        TrayIconEvent::Leave { id, x, y, rect } => TrayEventView {
            identifier: id@,
            kind: WryTrayEventKind::Leave,
            position: Some((x, y)),
            rect: Some(tray_rect_of(rect)),
            button: None,
            button_state: None,
        },
        TrayIconEvent::Other { id } => TrayEventView {
            identifier: id@,
            kind: WryTrayEventKind::Move,
            position: None,
            rect: None,
            button: None,
            button_state: None,
        },
    }
}

fn tray_button_label(button: TrayMouseButton) -> (label: String)
    ensures
        label@ == tray_button_text(button),
{
    match button {
        TrayMouseButton::Left => "left".to_owned(),
        TrayMouseButton::Right => "right".to_owned(),
        TrayMouseButton::Middle => "middle".to_owned(),
    }
}

fn tray_button_state_label(state: TrayMouseButtonState) -> (label: String)
    ensures
        label@ == tray_button_state_text(state),
{
    match state {
        TrayMouseButtonState::Up => "up".to_owned(),
        TrayMouseButtonState::Down => "down".to_owned(),
    }
}

impl From<TrayRect> for WryTrayRect {
    fn from(rect: TrayRect) -> (converted: Self)
        ensures
            converted == tray_rect_of(rect),
    {
        WryTrayRect {
            origin_x: rect.x,
            origin_y: rect.y,
            width: double_from_u32(rect.width),
            height: double_from_u32(rect.height),
        }
    }
}

impl vstd::std_specs::convert::FromSpecImpl<TrayRect> for WryTrayRect {
    open spec fn obeys_from_spec() -> bool {
        true
    }

    open spec fn from_spec(rect: TrayRect) -> Self {
        tray_rect_of(rect)
    }
}

impl From<TrayIconEvent> for WryTrayEvent {
    fn from(event: TrayIconEvent) -> (converted: Self)
        ensures
            converted@ == tray_event_of(event),
    {
        match event {
            TrayIconEvent::Click { id, x, y, rect, button, button_state } => WryTrayEvent {
                identifier: id,
                kind: WryTrayEventKind::Click,
                position: Some((x, y)),
                rect: Some(WryTrayRect::from(rect)),
                button: Some(tray_button_label(button)),
                button_state: Some(tray_button_state_label(button_state)),
            },
            TrayIconEvent::DoubleClick { id, x, y, rect, button } => WryTrayEvent {
                identifier: id,
                kind: WryTrayEventKind::DoubleClick,
                position: Some((x, y)),
                rect: Some(WryTrayRect::from(rect)),
                button: Some(tray_button_label(button)),
                button_state: None,
            },
            TrayIconEvent::Enter { id, x, y, rect } => WryTrayEvent {
                identifier: id,
                kind: WryTrayEventKind::Enter,
                position: Some((x, y)),
                rect: Some(WryTrayRect::from(rect)),
                button: None,
                button_state: None,
            },
            TrayIconEvent::Move { id, x, y, rect } => WryTrayEvent {
                identifier: id,
                kind: WryTrayEventKind::Move,
                position: Some((x, y)),
                rect: Some(WryTrayRect::from(rect)),
                button: None,
                button_state: None,
            },
            TrayIconEvent::Leave { id, x, y, rect } => WryTrayEvent {
                identifier: id,
                kind: WryTrayEventKind::Leave,
                position: Some((x, y)),
                rect: Some(WryTrayRect::from(rect)),
                button: None,
                button_state: None,
            },
            TrayIconEvent::Other { id } => WryTrayEvent {
                identifier: id,
                kind: WryTrayEventKind::Move,
                position: None,
                rect: None,
                button: None,
                button_state: None,
            },
        }
    }
}

/// The conversion makes new texts, and a specification can describe a text
/// but not make one. So there is no value to name here: what the conversion
/// yields is stated on `from` itself, through the view of the result.
impl vstd::std_specs::convert::FromSpecImpl<TrayIconEvent> for WryTrayEvent {
    open spec fn obeys_from_spec() -> bool {
        false
    }

    open spec fn from_spec(event: TrayIconEvent) -> Self {
        arbitrary()
    }
}

} // verus!
