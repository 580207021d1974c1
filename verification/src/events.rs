//! How an event is written down for the host.
//!
//! Every event becomes one JSON object with a `type` member that tells the
//! host what happened, and further members that depend on the type. The
//! functions here fix which members an event gets; `serde_json` writes the
//! text.

use vstd::prelude::*;
use crate::json::{
    double_json,
    finish_text, json_array, json_bool, json_null, json_number, json_object, json_string,
    json_text, map_insert, map_model, map_new, no_members, to_text, value_model,
    Double, Json, JsonMembers,
};
use crate::string::{append_decimal, decimal_text};
use crate::types::{WryTrayEvent, WryTrayEventKind, WryTrayRect, WryUserEvent};

verus! {

/// Which modifier keys are held.
#[derive(Clone, Copy, Debug, PartialEq, Eq, Structural)]
pub struct ModifiersState {
    pub shift: bool,
    pub control: bool,
    pub alt: bool,
    pub super_key: bool,
}

#[derive(Clone, Copy, Debug, PartialEq, Eq, Structural)]
pub enum ElementState {
    Pressed,
    Released,
    /// A state that the platform added later.
    Unknown,
}

#[derive(Clone, Copy, Debug, PartialEq, Eq, Structural)]
pub enum MouseButton {
    Left,
    Right,
    Middle,
    Other(u16),
    /// A button that the platform added later.
    Unknown,
}

#[derive(Clone, Debug, PartialEq)]
pub enum MouseScrollDelta {
    LineDelta { x: Double, y: Double },
    PixelDelta { x: Double, y: Double },
    /// A unit that the platform added later.
    Unknown,
}

/// What happened to a window. Text fields hold the platform's own rendering
/// of a value that the library does not look into. Sizes and positions are
/// doubles in logical units, that is, in pixels divided by the scale factor
/// of the window; the caller converts what the platform gave in physical
/// pixels, and every size and position in a message is in the same unit.
#[derive(Clone, Debug, PartialEq)]
pub enum WindowEvent {
    CloseRequested,
    Destroyed,
    Resized { width: Double, height: Double },
    Moved { x: Double, y: Double },
    Focused(bool),
    ScaleFactorChanged { scale_factor: Double, width: Double, height: Double },
    KeyboardInput {
        state: String,
        logical_key: String,
        physical_key: String,
        text: Option<String>,
        repeat: bool,
        location: String,
        is_synthetic: bool,
    },
    ReceivedImeText(String),
    ModifiersChanged(ModifiersState),
    CursorMoved { x: Double, y: Double },
    CursorEntered { device_id: String },
    CursorLeft { device_id: String },
    MouseInput { state: ElementState, button: MouseButton },
    MouseWheel { delta: MouseScrollDelta, phase: String },
    DroppedFile(String),
    HoveredFile(String),
    HoveredFileCancelled,
    ThemeChanged(String),
    /// Any other window event, by its rendering.
    Other { kind: String },
}

/// The label of a mouse button that has a number and no name.
pub open spec fn other_button_text(number: u16) -> Seq<char> {
    "other:"@ + decimal_text(number as nat)
}

pub open spec fn element_state_text(state: ElementState) -> Seq<char> {
    match state {
        ElementState::Pressed => "pressed"@,
        ElementState::Released => "released"@,
        ElementState::Unknown => "unknown"@,
    }
}

pub open spec fn mouse_button_text(button: MouseButton) -> Seq<char> {
    match button {
        MouseButton::Left => "left"@,
        MouseButton::Right => "right"@,
        MouseButton::Middle => "middle"@,
        MouseButton::Other(number) => other_button_text(number),
        MouseButton::Unknown => "unknown"@,
    }
}

/// The members that every window event has: its type and its window.
pub open spec fn window_members(kind: Seq<char>, window_id: Seq<char>) -> Map<Seq<char>, Json> {
    no_members().insert("type"@, Json::Text(kind)).insert("window_id"@, Json::Text(window_id))
}

/// A size: its two sides.
pub open spec fn size_record(width: Double, height: Double) -> Json {
    Json::Record(
        no_members().insert("width"@, double_json(width)).insert("height"@, double_json(height)),
    )
}

/// A position: its two coordinates.
pub open spec fn point_record(x: Double, y: Double) -> Json {
    Json::Record(no_members().insert("x"@, double_json(x)).insert("y"@, double_json(y)))
}

/// The held modifier keys, each under its name.
pub open spec fn modifiers_record(modifiers: ModifiersState) -> Json {
    Json::Record(
        no_members().insert("shift"@, Json::Bool(modifiers.shift)).insert(
            "control"@,
            Json::Bool(modifiers.control),
        ).insert("alt"@, Json::Bool(modifiers.alt)).insert(
            "super_key"@,
            Json::Bool(modifiers.super_key),
        ),
    )
}

/// How far the wheel moved, and in which unit.
pub open spec fn scroll_delta_record(delta: MouseScrollDelta) -> Json {
    match delta {
        MouseScrollDelta::LineDelta { x, y } => Json::Record(
            no_members().insert("unit"@, Json::Text("line"@)).insert("x"@, double_json(x)).insert(
                "y"@,
                double_json(y),
            ),
        ),
        MouseScrollDelta::PixelDelta { x, y } => Json::Record(
            no_members().insert("unit"@, Json::Text("pixel"@)).insert("x"@, double_json(x)).insert(
                "y"@,
                double_json(y),
            ),
        ),
        MouseScrollDelta::Unknown => Json::Record(
            no_members().insert("unit"@, Json::Text("unknown"@)),
        ),
    }
}

/// A text that may be absent: itself, or `null`.
pub open spec fn optional_text(text: Option<String>) -> Json {
    match text {
        Some(present) => Json::Text(present@),
        None => Json::Null,
    }
}

/// The message for a window event: which members it has and what each holds.
pub open spec fn window_event_record(window_id: Seq<char>, event: WindowEvent) -> Json {
    match event {
        WindowEvent::CloseRequested => Json::Record(
            window_members("window-close-requested"@, window_id),
        ),
        WindowEvent::Destroyed => Json::Record(window_members("window-destroyed"@, window_id)),
        WindowEvent::Resized { width, height } => Json::Record(
            window_members("window-resized"@, window_id).insert(
                "size"@,
                size_record(width, height),
            ),
        ),
        WindowEvent::Moved { x, y } => Json::Record(
            window_members("window-moved"@, window_id).insert("position"@, point_record(x, y)),
        ),
        WindowEvent::Focused(focused) => Json::Record(
            window_members("window-focused"@, window_id).insert("isFocused"@, Json::Bool(focused)),
        ),
        WindowEvent::ScaleFactorChanged { scale_factor, width, height } => Json::Record(
            window_members("window-scale-factor-changed"@, window_id).insert(
                "scale_factor"@,
                double_json(scale_factor),
            ).insert("size"@, size_record(width, height)),
        ),
        WindowEvent::KeyboardInput {
            state,
            logical_key,
            physical_key,
            text,
            repeat,
            location,
            is_synthetic,
        } => Json::Record(
            window_members("window-keyboard-input"@, window_id).insert(
                "state"@,
                Json::Text(state@),
            ).insert("logical_key"@, Json::Text(logical_key@)).insert(
                "physical_key"@,
                Json::Text(physical_key@),
            ).insert("text"@, optional_text(text)).insert("repeat"@, Json::Bool(repeat)).insert(
                "location"@,
                Json::Text(location@),
            ).insert("is_synthetic"@, Json::Bool(is_synthetic)),
        ),
        WindowEvent::ReceivedImeText(text) => Json::Record(
            window_members("window-ime-text"@, window_id).insert("text"@, Json::Text(text@)),
        ),
        WindowEvent::ModifiersChanged(modifiers) => Json::Record(
            window_members("window-modifiers-changed"@, window_id).insert(
                "modifiers"@,
                modifiers_record(modifiers),
            ),
        ),
        WindowEvent::CursorMoved { x, y } => Json::Record(
            window_members("window-cursor-moved"@, window_id).insert(
                "position"@,
                point_record(x, y),
            ),
        ),
        WindowEvent::CursorEntered { device_id } => Json::Record(
            window_members("window-cursor-entered"@, window_id).insert(
                "device_id"@,
                Json::Text(device_id@),
            ),
        ),
        WindowEvent::CursorLeft { device_id } => Json::Record(
            window_members("window-cursor-left"@, window_id).insert(
                "device_id"@,
                Json::Text(device_id@),
            ),
        ),
        WindowEvent::MouseInput { state, button } => Json::Record(
            window_members("window-mouse-input"@, window_id).insert(
                "state"@,
                Json::Text(element_state_text(state)),
            ).insert("button"@, Json::Text(mouse_button_text(button))),
        ),
        WindowEvent::MouseWheel { delta, phase } => Json::Record(
            window_members("window-mouse-wheel"@, window_id).insert(
                "delta"@,
                scroll_delta_record(delta),
            ).insert("phase"@, Json::Text(phase@)),
        ),
        WindowEvent::DroppedFile(path) => Json::Record(
            window_members("window-dropped-file"@, window_id).insert("path"@, Json::Text(path@)),
        ),
        WindowEvent::HoveredFile(path) => Json::Record(
            window_members("window-hovered-file"@, window_id).insert("path"@, Json::Text(path@)),
        ),
        WindowEvent::HoveredFileCancelled => Json::Record(
            window_members("window-hovered-file-cancelled"@, window_id),
        ),
        WindowEvent::ThemeChanged(theme) => Json::Record(
            window_members("window-theme-changed"@, window_id).insert(
                "theme"@,
                Json::Text(theme@),
            ),
        ),
        WindowEvent::Other { kind } => Json::Record(
            window_members("window-event"@, window_id).insert("kind"@, Json::Text(kind@)),
        ),
    }
}

fn start_window_members(kind: &str, window_id: &str) -> (members: JsonMembers)
    ensures
        map_model(members) == window_members(kind@, window_id@),
{
    let mut members = map_new();
    map_insert(&mut members, "type", json_string(kind));
    map_insert(&mut members, "window_id", json_string(window_id));
    members
}

fn double_value(double: &Double) -> (value: serde_json::Value)
    ensures
        value_model(value) == double_json(*double),
{
    match double {
        Some(number) => json_number(number),
        None => json_null(),
    }
}

fn size_value(width: &Double, height: &Double) -> (value: serde_json::Value)
    ensures
        value_model(value) == size_record(*width, *height),
{
    let mut members = map_new();
    map_insert(&mut members, "width", double_value(width));
    map_insert(&mut members, "height", double_value(height));
    json_object(members)
}

fn point_value(x: &Double, y: &Double) -> (value: serde_json::Value)
    ensures
        value_model(value) == point_record(*x, *y),
{
    let mut members = map_new();
    map_insert(&mut members, "x", double_value(x));
    map_insert(&mut members, "y", double_value(y));
    json_object(members)
}

fn optional_text_value(text: &Option<String>) -> (value: serde_json::Value)
    ensures
        value_model(value) == optional_text(*text),
{
    match text {
        Some(present) => json_string(present.as_str()),
        None => json_null(),
    }
}

fn scroll_delta_value(delta: &MouseScrollDelta) -> (value: serde_json::Value)
    ensures
        value_model(value) == scroll_delta_record(*delta),
{
    let mut members = map_new();
    match delta {
        MouseScrollDelta::LineDelta { x, y } => {
            map_insert(&mut members, "unit", json_string("line"));
            map_insert(&mut members, "x", double_value(x));
            map_insert(&mut members, "y", double_value(y));
        },
        MouseScrollDelta::PixelDelta { x, y } => {
            map_insert(&mut members, "unit", json_string("pixel"));
            map_insert(&mut members, "x", double_value(x));
            map_insert(&mut members, "y", double_value(y));
        },
        MouseScrollDelta::Unknown => {
            map_insert(&mut members, "unit", json_string("unknown"));
        },
    }
    json_object(members)
}

fn element_state_label(state: ElementState) -> (label: &'static str)
    ensures
        label@ == element_state_text(state),
{
    match state {
        ElementState::Pressed => "pressed",
        ElementState::Released => "released",
        ElementState::Unknown => "unknown",
    }
}

fn mouse_button_label(button: MouseButton) -> (label: String)
    ensures
        label@ == mouse_button_text(button),
{
    match button {
        MouseButton::Left => "left".to_owned(),
        MouseButton::Right => "right".to_owned(),
        MouseButton::Middle => "middle".to_owned(),
        MouseButton::Other(number) => {
            let mut label = "other:".to_owned();
            append_decimal(&mut label, number as u64);
            label
        },
        MouseButton::Unknown => "unknown".to_owned(),
    }
}

/// The payload for a change of modifier keys: each of the four keys under
/// its name, with whether it is held.
pub fn modifiers_payload(modifiers: ModifiersState) -> (value: serde_json::Value)
    ensures
        value_model(value) == modifiers_record(modifiers),
{
    let mut members = map_new();
    map_insert(&mut members, "shift", json_bool(modifiers.shift));
    map_insert(&mut members, "control", json_bool(modifiers.control));
    map_insert(&mut members, "alt", json_bool(modifiers.alt));
    map_insert(&mut members, "super_key", json_bool(modifiers.super_key));
    json_object(members)
}

/// Writes a window event down as a JSON object. The object holds the event's
/// type, the window it belongs to, and what the type calls for.
pub fn serialize_window_event(window_id: &str, event: &WindowEvent) -> (value: serde_json::Value)
    ensures
        value_model(value) == window_event_record(window_id@, *event),
{
    match event {
        WindowEvent::CloseRequested => json_object(
            start_window_members("window-close-requested", window_id),
        ),
        WindowEvent::Destroyed => json_object(start_window_members("window-destroyed", window_id)),
        WindowEvent::Resized { width, height } => {
            let mut members = start_window_members("window-resized", window_id);
            map_insert(&mut members, "size", size_value(width, height));
            json_object(members)
        },
        WindowEvent::Moved { x, y } => {
            let mut members = start_window_members("window-moved", window_id);
            map_insert(&mut members, "position", point_value(x, y));
            json_object(members)
        },
        WindowEvent::Focused(focused) => {
            let mut members = start_window_members("window-focused", window_id);
            map_insert(&mut members, "isFocused", json_bool(*focused));
            json_object(members)
        },
        WindowEvent::ScaleFactorChanged { scale_factor, width, height } => {
            let mut members = start_window_members("window-scale-factor-changed", window_id);
            map_insert(&mut members, "scale_factor", double_value(scale_factor));
            map_insert(&mut members, "size", size_value(width, height));
            json_object(members)
        },
        WindowEvent::KeyboardInput {
            state,
            logical_key,
            physical_key,
            text,
            repeat,
            location,
            is_synthetic,
        } => {
            let mut members = start_window_members("window-keyboard-input", window_id);
            map_insert(&mut members, "state", json_string(state.as_str()));
            map_insert(&mut members, "logical_key", json_string(logical_key.as_str()));
            map_insert(&mut members, "physical_key", json_string(physical_key.as_str()));
            map_insert(&mut members, "text", optional_text_value(text));
            map_insert(&mut members, "repeat", json_bool(*repeat));
            map_insert(&mut members, "location", json_string(location.as_str()));
            map_insert(&mut members, "is_synthetic", json_bool(*is_synthetic));
            json_object(members)
        },
        WindowEvent::ReceivedImeText(text) => {
            let mut members = start_window_members("window-ime-text", window_id);
            map_insert(&mut members, "text", json_string(text.as_str()));
            json_object(members)
        },
        WindowEvent::ModifiersChanged(modifiers) => {
            let mut members = start_window_members("window-modifiers-changed", window_id);
            map_insert(&mut members, "modifiers", modifiers_payload(*modifiers));
            json_object(members)
        },
        WindowEvent::CursorMoved { x, y } => {
            let mut members = start_window_members("window-cursor-moved", window_id);
            map_insert(&mut members, "position", point_value(x, y));
            json_object(members)
        },
        WindowEvent::CursorEntered { device_id } => {
            let mut members = start_window_members("window-cursor-entered", window_id);
            map_insert(&mut members, "device_id", json_string(device_id.as_str()));
            json_object(members)
        },
        WindowEvent::CursorLeft { device_id } => {
            let mut members = start_window_members("window-cursor-left", window_id);
            map_insert(&mut members, "device_id", json_string(device_id.as_str()));
            json_object(members)
        },
        WindowEvent::MouseInput { state, button } => {
            let mut members = start_window_members("window-mouse-input", window_id);
            map_insert(&mut members, "state", json_string(element_state_label(*state)));
            let button_label = mouse_button_label(*button);
            map_insert(&mut members, "button", json_string(button_label.as_str()));
            json_object(members)
        },
        WindowEvent::MouseWheel { delta, phase } => {
            let mut members = start_window_members("window-mouse-wheel", window_id);
            map_insert(&mut members, "delta", scroll_delta_value(delta));
            map_insert(&mut members, "phase", json_string(phase.as_str()));
            json_object(members)
        },
        WindowEvent::DroppedFile(path) => {
            let mut members = start_window_members("window-dropped-file", window_id);
            map_insert(&mut members, "path", json_string(path.as_str()));
            json_object(members)
        },
        WindowEvent::HoveredFile(path) => {
            let mut members = start_window_members("window-hovered-file", window_id);
            map_insert(&mut members, "path", json_string(path.as_str()));
            json_object(members)
        },
        WindowEvent::HoveredFileCancelled => json_object(
            start_window_members("window-hovered-file-cancelled", window_id),
        ),
        WindowEvent::ThemeChanged(theme) => {
            let mut members = start_window_members("window-theme-changed", window_id);
            map_insert(&mut members, "theme", json_string(theme.as_str()));
            json_object(members)
        },
        WindowEvent::Other { kind } => {
            let mut members = start_window_members("window-event", window_id);
            map_insert(&mut members, "kind", json_string(kind.as_str()));
            json_object(members)
        },
    }
}

/// What the event loop reports. Text fields hold the platform's own
/// rendering of a value that the library does not look into.
#[derive(Clone, Debug, PartialEq)]
pub enum Event {
    NewEvents { cause: String },
    MainEventsCleared,
    RedrawEventsCleared,
    LoopDestroyed,
    Suspended,
    Resumed,
    RedrawRequested { window_id: String },
    UserEvent(WryUserEvent),
    DeviceEvent { device_id: String, event: String },
    Opened { urls: Vec<String> },
    Reopen { has_visible_windows: bool },
    WindowEvent { window_id: String, event: WindowEvent },
    /// Any other event, by its rendering.
    Raw { debug: String },
}

pub open spec fn tray_kind_text(kind: WryTrayEventKind) -> Seq<char> {
    match kind {
        WryTrayEventKind::Click => "click"@,
        WryTrayEventKind::DoubleClick => "double-click"@,
        WryTrayEventKind::Enter => "enter"@,
        WryTrayEventKind::Move => "move"@,
        WryTrayEventKind::Leave => "leave"@,
    }
}

/// The rectangle of a tray icon: its corner and its sides.
pub open spec fn tray_rect_record(rect: WryTrayRect) -> Json {
    Json::Record(
        no_members().insert("x"@, double_json(rect.origin_x)).insert(
            "y"@,
            double_json(rect.origin_y),
        ).insert("width"@, double_json(rect.width)).insert("height"@, double_json(rect.height)),
    )
}

/// `members`, with `value` under `key` where there is a value.
pub open spec fn with_optional(
    members: Map<Seq<char>, Json>,
    key: Seq<char>,
    value: Option<Json>,
) -> Map<Seq<char>, Json> {
    match value {
        Some(present) => members.insert(key, present),
        None => members,
    }
}

/// The message for a tray event. It always tells the icon and the kind of
/// event; position, rectangle, button and button state are members only
/// where the event has them.
pub open spec fn tray_event_record(event: WryTrayEvent) -> Json {
    let always = no_members().insert("type"@, Json::Text("tray-event"@)).insert(
        "tray_id"@,
        Json::Text(event.identifier@),
    ).insert("event_type"@, Json::Text(tray_kind_text(event.kind)));
    let position = match event.position {
        Some((x, y)) => Some(point_record(x, y)),
        None => None,
    };
    let rect = match event.rect {
        Some(rect) => Some(tray_rect_record(rect)),
        None => None,
    };
    let button = match event.button {
        Some(button) => Some(Json::Text(button@)),
        None => None,
    };
    let button_state = match event.button_state {
        Some(state) => Some(Json::Text(state@)),
        None => None,
    };
    Json::Record(
        with_optional(
            with_optional(
                with_optional(with_optional(always, "position"@, position), "rect"@, rect),
                "button"@,
                button,
            ),
            "button_state"@,
            button_state,
        ),
    )
}

/// A message that holds nothing but its type.
pub open spec fn bare_record(kind: Seq<char>) -> Json {
    Json::Record(no_members().insert("type"@, Json::Text(kind)))
}

/// A list of texts.
pub open spec fn text_list(texts: Seq<String>) -> Json {
    Json::List(texts.map_values(|text: String| Json::Text(text@)))
}

/// The message for an event: which members it has and what each holds.
pub open spec fn event_record(event: Event) -> Json {
    match event {
        Event::NewEvents { cause } => Json::Record(
            no_members().insert("type"@, Json::Text("new-events"@)).insert(
                "cause"@,
                Json::Text(cause@),
            ),
        ),
        Event::MainEventsCleared => bare_record("main-events-cleared"@),
        Event::RedrawEventsCleared => bare_record("redraw-events-cleared"@),
        Event::LoopDestroyed => bare_record("loop-destroyed"@),
        Event::Suspended => bare_record("suspended"@),
        Event::Resumed => bare_record("resumed"@),
        Event::RedrawRequested { window_id } => Json::Record(
            window_members("window-redraw-requested"@, window_id@),
        ),
        Event::UserEvent(WryUserEvent::Exit) => bare_record("user-exit"@),
        Event::UserEvent(WryUserEvent::Custom(payload)) => Json::Record(
            no_members().insert("type"@, Json::Text("user-event"@)).insert(
                "payload"@,
                Json::Text(payload@),
            ),
        ),
        Event::UserEvent(WryUserEvent::Menu(menu_id)) => Json::Record(
            no_members().insert("type"@, Json::Text("menu-event"@)).insert(
                "menu_id"@,
                Json::Text(menu_id@),
            ),
        ),
        Event::UserEvent(WryUserEvent::Tray(tray)) => tray_event_record(tray),
        Event::DeviceEvent { device_id, event } => Json::Record(
            no_members().insert("type"@, Json::Text("device-event"@)).insert(
                "device_id"@,
                Json::Text(device_id@),
            ).insert("event"@, Json::Text(event@)),
        ),
        Event::Opened { urls } => Json::Record(
            no_members().insert("type"@, Json::Text("opened"@)).insert("urls"@, text_list(urls@)),
        ),
        Event::Reopen { has_visible_windows } => Json::Record(
            no_members().insert("type"@, Json::Text("reopen"@)).insert(
                "has_visible_windows"@,
                Json::Bool(has_visible_windows),
            ),
        ),
        Event::WindowEvent { window_id, event } => window_event_record(window_id@, event),
        Event::Raw { debug } => Json::Record(
            no_members().insert("type"@, Json::Text("raw"@)).insert("debug"@, Json::Text(debug@)),
        ),
    }
}

fn tray_kind_label(kind: WryTrayEventKind) -> (label: &'static str)
    ensures
        label@ == tray_kind_text(kind),
{
    match kind {
        WryTrayEventKind::Click => "click",
        WryTrayEventKind::DoubleClick => "double-click",
        WryTrayEventKind::Enter => "enter",
        WryTrayEventKind::Move => "move",
        WryTrayEventKind::Leave => "leave",
    }
}

fn tray_rect_value(rect: &WryTrayRect) -> (value: serde_json::Value)
    ensures
        value_model(value) == tray_rect_record(*rect),
{
    let mut members = map_new();
    map_insert(&mut members, "x", double_value(&rect.origin_x));
    map_insert(&mut members, "y", double_value(&rect.origin_y));
    map_insert(&mut members, "width", double_value(&rect.width));
    map_insert(&mut members, "height", double_value(&rect.height));
    json_object(members)
}

/// Writes a tray event down as a JSON object.
pub fn serialize_tray_event(event: &WryTrayEvent) -> (value: serde_json::Value)
    ensures
        value_model(value) == tray_event_record(*event),
{
    let mut members = map_new();
    map_insert(&mut members, "type", json_string("tray-event"));
    map_insert(&mut members, "tray_id", json_string(event.identifier.as_str()));
    map_insert(&mut members, "event_type", json_string(tray_kind_label(event.kind)));
    if let Some((x, y)) = &event.position {
        map_insert(&mut members, "position", point_value(x, y));
    }
    if let Some(rect) = &event.rect {
        map_insert(&mut members, "rect", tray_rect_value(rect));
    }
    if let Some(button) = &event.button {
        map_insert(&mut members, "button", json_string(button.as_str()));
    }
    if let Some(state) = &event.button_state {
        map_insert(&mut members, "button_state", json_string(state.as_str()));
    }
    json_object(members)
}

fn bare_value(kind: &str) -> (value: serde_json::Value)
    ensures
        value_model(value) == bare_record(kind@),
{
    let mut members = map_new();
    map_insert(&mut members, "type", json_string(kind));
    json_object(members)
}

fn tagged_text_value(kind: &str, key: &str, text: &str) -> (value: serde_json::Value)
    ensures
        value_model(value) == Json::Record(
            no_members().insert("type"@, Json::Text(kind@)).insert(key@, Json::Text(text@)),
        ),
{
    let mut members = map_new();
    map_insert(&mut members, "type", json_string(kind));
    map_insert(&mut members, key, json_string(text));
    json_object(members)
}

fn text_list_value(texts: &Vec<String>) -> (value: serde_json::Value)
    ensures
        value_model(value) == text_list(texts@),
{
    let mut items: Vec<serde_json::Value> = Vec::new();
    let mut index: usize = 0;
    while index < texts.len()
        invariant
            index <= texts.len(),
            items@.len() == index,
            forall|i: int| 0 <= i < index ==> value_model(#[trigger] items@[i]) == Json::Text(texts@[i]@),
        decreases texts.len() - index,
    {
        items.push(json_string(texts[index].as_str()));
        index += 1;
    }
    assert(items@.map_values(|item| value_model(item)) =~= texts@.map_values(
        |text: String| Json::Text(text@),
    ));
    json_array(items)
}

/// Builds the JSON object for an event.
pub fn event_value(event: &Event) -> (value: serde_json::Value)
    ensures
        value_model(value) == event_record(*event),
{
    match event {
        Event::NewEvents { cause } => tagged_text_value("new-events", "cause", cause.as_str()),
        Event::MainEventsCleared => bare_value("main-events-cleared"),
        Event::RedrawEventsCleared => bare_value("redraw-events-cleared"),
        Event::LoopDestroyed => bare_value("loop-destroyed"),
        Event::Suspended => bare_value("suspended"),
        Event::Resumed => bare_value("resumed"),
        Event::RedrawRequested { window_id } => json_object(
            start_window_members("window-redraw-requested", window_id.as_str()),
        ),
        Event::UserEvent(WryUserEvent::Exit) => bare_value("user-exit"),
        Event::UserEvent(WryUserEvent::Custom(payload)) => tagged_text_value(
            "user-event",
            "payload",
            payload.as_str(),
        ),
        Event::UserEvent(WryUserEvent::Menu(menu_id)) => tagged_text_value(
            "menu-event",
            "menu_id",
            menu_id.as_str(),
        ),
        Event::UserEvent(WryUserEvent::Tray(tray)) => serialize_tray_event(tray),
        Event::DeviceEvent { device_id, event } => {
            let mut members = map_new();
            map_insert(&mut members, "type", json_string("device-event"));
            map_insert(&mut members, "device_id", json_string(device_id.as_str()));
            map_insert(&mut members, "event", json_string(event.as_str()));
            json_object(members)
        },
        Event::Opened { urls } => {
            let mut members = map_new();
            map_insert(&mut members, "type", json_string("opened"));
            map_insert(&mut members, "urls", text_list_value(urls));
            json_object(members)
        },
        Event::Reopen { has_visible_windows } => {
            let mut members = map_new();
            map_insert(&mut members, "type", json_string("reopen"));
            map_insert(&mut members, "has_visible_windows", json_bool(*has_visible_windows));
            json_object(members)
        },
        Event::WindowEvent { window_id, event } => serialize_window_event(
            window_id.as_str(),
            event,
        ),
        Event::Raw { debug } => tagged_text_value("raw", "debug", debug.as_str()),
    }
}

/// Writes an event down as the text that the host's callback receives: the
/// compact JSON of the event's object. The text depends on the event alone.
pub fn serialize_event(event: &Event) -> (text: String)
    ensures
        text@ == json_text(event_record(*event)),
{
    let value = event_value(event);
    finish_text(to_text(&value))
}

/// A resize is written down without loss: the message of a resize event has
/// the resize type, names its window, and holds as its size the very doubles
/// that the event carries, each under its name.
pub proof fn lemma_resize_message_is_exact(window_id: Seq<char>, width: Double, height: Double)
    ensures
        window_event_record(window_id, WindowEvent::Resized { width, height }) matches Json::Record(
            members,
        ) && {
            &&& members.dom() == set!["type"@, "window_id"@, "size"@]
            &&& members["type"@] == Json::Text("window-resized"@)
            &&& members["window_id"@] == Json::Text(window_id)
            &&& members["size"@] matches Json::Record(size) && {
                &&& size.dom() == set!["width"@, "height"@]
                &&& size["width"@] == double_json(width)
                &&& size["height"@] == double_json(height)
            }
        },
{
    reveal_strlit("type");
    reveal_strlit("window_id");
    reveal_strlit("size");
    reveal_strlit("width");
    reveal_strlit("height");
    assert("type"@ != "window_id"@ && "type"@ != "size"@ && "window_id"@ != "size"@) by {
        assert("type"@.len() == 4 && "window_id"@.len() == 9);
        assert("type"@[0] == 't' && "size"@[0] == 's');
        assert("size"@.len() == 4);
    }
    assert("width"@ != "height"@) by {
        assert("width"@.len() == 5 && "height"@.len() == 6);
    }
    let members = window_members("window-resized"@, window_id).insert(
        "size"@,
        size_record(width, height),
    );
    assert(members.dom() =~= set!["type"@, "window_id"@, "size"@]);
    let size = no_members().insert("width"@, double_json(width)).insert(
        "height"@,
        double_json(height),
    );
    assert(size.dom() =~= set!["width"@, "height"@]);
}

/// No member of a message is named like its type.
proof fn lemma_type_key_is_distinct()
    ensures
        "type"@ != "window_id"@,
        "type"@ != "size"@,
        "type"@ != "position"@,
        "type"@ != "isFocused"@,
        "type"@ != "scale_factor"@,
        "type"@ != "state"@,
        "type"@ != "logical_key"@,
        "type"@ != "physical_key"@,
        "type"@ != "text"@,
        "type"@ != "repeat"@,
        "type"@ != "location"@,
        "type"@ != "is_synthetic"@,
        "type"@ != "modifiers"@,
        "type"@ != "device_id"@,
        "type"@ != "button"@,
        "type"@ != "delta"@,
        "type"@ != "phase"@,
        "type"@ != "path"@,
        "type"@ != "theme"@,
        "type"@ != "kind"@,
        "type"@ != "cause"@,
        "type"@ != "payload"@,
        "type"@ != "menu_id"@,
        "type"@ != "event"@,
        "type"@ != "urls"@,
        "type"@ != "has_visible_windows"@,
        "type"@ != "debug"@,
        "type"@ != "tray_id"@,
        "type"@ != "event_type"@,
        "type"@ != "rect"@,
        "type"@ != "button_state"@,
{
    reveal_strlit("type");
    reveal_strlit("window_id");
    assert("type"@.len() == 4 && "window_id"@.len() == 9);
    reveal_strlit("size");
    assert("type"@[0] == 't' && "size"@[0] == 's');
    reveal_strlit("position");
    assert("type"@.len() == 4 && "position"@.len() == 8);
    reveal_strlit("isFocused");
    assert("type"@.len() == 4 && "isFocused"@.len() == 9);
    reveal_strlit("scale_factor");
    assert("type"@.len() == 4 && "scale_factor"@.len() == 12);
    reveal_strlit("state");
    assert("type"@.len() == 4 && "state"@.len() == 5);
    reveal_strlit("logical_key");
    assert("type"@.len() == 4 && "logical_key"@.len() == 11);
    reveal_strlit("physical_key");
    assert("type"@.len() == 4 && "physical_key"@.len() == 12);
    reveal_strlit("text");
    assert("type"@[1] == 'y' && "text"@[1] == 'e');
    reveal_strlit("repeat");
    assert("type"@.len() == 4 && "repeat"@.len() == 6);
    reveal_strlit("location");
    assert("type"@.len() == 4 && "location"@.len() == 8);
    reveal_strlit("is_synthetic");
    assert("type"@.len() == 4 && "is_synthetic"@.len() == 12);
    reveal_strlit("modifiers");
    assert("type"@.len() == 4 && "modifiers"@.len() == 9);
    reveal_strlit("device_id");
    assert("type"@.len() == 4 && "device_id"@.len() == 9);
    reveal_strlit("button");
    assert("type"@.len() == 4 && "button"@.len() == 6);
    reveal_strlit("delta");
    assert("type"@.len() == 4 && "delta"@.len() == 5);
    reveal_strlit("phase");
    assert("type"@.len() == 4 && "phase"@.len() == 5);
    reveal_strlit("path");
    assert("type"@[0] == 't' && "path"@[0] == 'p');
    reveal_strlit("theme");
    assert("type"@.len() == 4 && "theme"@.len() == 5);
    reveal_strlit("kind");
    assert("type"@[0] == 't' && "kind"@[0] == 'k');
    reveal_strlit("cause");
    assert("type"@.len() == 4 && "cause"@.len() == 5);
    reveal_strlit("payload");
    assert("type"@.len() == 4 && "payload"@.len() == 7);
    reveal_strlit("menu_id");
    assert("type"@.len() == 4 && "menu_id"@.len() == 7);
    reveal_strlit("event");
    assert("type"@.len() == 4 && "event"@.len() == 5);
    reveal_strlit("urls");
    assert("type"@[0] == 't' && "urls"@[0] == 'u');
    reveal_strlit("has_visible_windows");
    assert("type"@.len() == 4 && "has_visible_windows"@.len() == 19);
    reveal_strlit("debug");
    assert("type"@.len() == 4 && "debug"@.len() == 5);
    reveal_strlit("tray_id");
    assert("type"@.len() == 4 && "tray_id"@.len() == 7);
    reveal_strlit("event_type");
    assert("type"@.len() == 4 && "event_type"@.len() == 10);
    reveal_strlit("rect");
    assert("type"@[0] == 't' && "rect"@[0] == 'r');
    reveal_strlit("button_state");
    assert("type"@.len() == 4 && "button_state"@.len() == 12);
}

/// Every message is an object that tells its type: whatever the event, its
/// message has a member `type` that holds a text. An event that the library
/// knows no more of than its rendering has the type `raw` and holds the
/// rendering under `debug`.
pub proof fn lemma_every_message_tells_its_type(event: Event)
    ensures
        event_record(event) matches Json::Record(members) && members.contains_key("type"@)
            && members["type"@] is Text,
        event matches Event::Raw { debug } ==> event_record(event) == Json::Record(
            no_members().insert("type"@, Json::Text("raw"@)).insert("debug"@, Json::Text(debug@)),
        ),
{
    lemma_type_key_is_distinct();
    match event {
        Event::WindowEvent { window_id, event } => {
            assert(window_event_record(window_id@, event) matches Json::Record(members)
                && members.contains_key("type"@) && members["type"@] is Text);
        },
        Event::UserEvent(WryUserEvent::Tray(tray)) => {
            assert(tray_event_record(tray) matches Json::Record(members) && members.contains_key(
                "type"@,
            ) && members["type"@] is Text);
        },
        _ => {},
    }
}

} // verus!
