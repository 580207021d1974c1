//! Small conversions at the boundary.

use vstd::prelude::*;
use vstd::utf8::{decode_utf8, valid_utf8};
use crate::json::{
    double_json, finish_text, json_number, json_null, json_object, json_string, json_text,
    map_insert, map_new, no_members, to_text, value_model, whole_integer, integer_from_i32,
    integer_from_u32, Double, Json,
};
use crate::string::{c_str_to_string, has_nul};
use crate::types::{WryColor, WryWindowTheme};

verus! {

/// Convert the bytes of a C string, or nothing for a null pointer, to an
/// owned text. There is none for a null pointer and for bytes that are not
/// UTF-8.
pub fn opt_cstring(bytes: Option<&[u8]>) -> (text: Option<String>)
    ensures
        text is Some <==> (bytes matches Some(given) && valid_utf8(given@)),
        text matches Some(decoded) ==> decoded@ == decode_utf8(bytes->0@),
{
    c_str_to_string(bytes)
}

/// Convert an optional color to its red, green, blue and alpha parts.
pub fn opt_color(color: Option<&WryColor>) -> (parts: Option<(u8, u8, u8, u8)>)
    ensures
        parts == (match color {
            Some(given) => Some((given.red, given.green, given.blue, given.alpha)),
            None => None,
        }),
{
    match color {
        Some(given) => Some((given.red, given.green, given.blue, given.alpha)),
        None => None,
    }
}

/// Runs an operation on what is behind a handle. A null handle has nothing
/// behind it: the operation is not run, and there is no result.
pub fn with_window<W, R, F: FnOnce(&W) -> R>(window: Option<&W>, operation: F) -> (result: Option<R>)
    requires
        window matches Some(target) ==> operation.requires((target,)),
    ensures
        match window {
            Some(target) => result matches Some(value) && operation.ensures((target,), value),
            None => result is None,
        },
{
    match window {
        Some(target) => Some(operation(target)),
        None => None,
    }
}

/// As [`with_window`], for the handle of a webview.
pub fn with_webview<V, R, F: FnOnce(&V) -> R>(webview: Option<&V>, operation: F) -> (result: Option<
    R,
>)
    requires
        webview matches Some(target) ==> operation.requires((target,)),
    ensures
        match webview {
            Some(target) => result matches Some(value) && operation.ensures((target,), value),
            None => result is None,
        },
{
    match webview {
        Some(target) => Some(operation(target)),
        None => None,
    }
}

/// A window theme that the platform knows.
#[derive(Clone, Copy, Debug, PartialEq, Eq, Structural)]
pub enum Theme {
    Light,
    Dark,
}

/// Convert the host's theme to the platform's. An unspecified theme is no
/// theme: the window follows the system.
pub fn theme_from_ffi(theme: WryWindowTheme) -> (converted: Option<Theme>)
    ensures
        converted == (match theme {
            WryWindowTheme::Unspecified => None,
            WryWindowTheme::Light => Some(Theme::Light),
            WryWindowTheme::Dark => Some(Theme::Dark),
        }),
{
    match theme {
        WryWindowTheme::Unspecified => None,
        WryWindowTheme::Light => Some(Theme::Light),
        WryWindowTheme::Dark => Some(Theme::Dark),
    }
}

/// A text that the host reads as a C string through a pointer that stays
/// valid until the next text is written. The host keeps one per thread.
pub struct ScratchBuffer {
    text: String,
}

impl View for ScratchBuffer {
    type V = Seq<char>;

    closed spec fn view(&self) -> Seq<char> {
        self.text@
    }
}

impl ScratchBuffer {
    /// An empty buffer.
    pub fn new() -> (buffer: Self)
        ensures
            buffer@ == Seq::<char>::empty(),
    {
        ScratchBuffer { text: String::new() }
    }

    /// The text in the buffer.
    pub fn as_str(&self) -> (text: &str)
        ensures
            text@ == self@,
    {
        self.text.as_str()
    }
}

/// What a buffer holds after `value` was written to it: the value, or
/// `fallback` where the value holds a zero character and cannot be read as
/// a C string.
pub open spec fn buffered(value: Seq<char>, fallback: Seq<char>) -> Seq<char> {
    if value.contains('\0') {
        fallback
    } else {
        value
    }
}

/// Write a text to the buffer, in place of what was there. A text that
/// cannot be read as a C string leaves the buffer empty.
pub fn write_string_to_buffer(buffer: &mut ScratchBuffer, value: String)
    ensures
        final(buffer)@ == buffered(value@, Seq::empty()),
{
    if has_nul(value.as_str()) {
        buffer.text = String::new();
    } else {
        buffer.text = value;
    }
}

/// Write a JSON value to the buffer as text, in place of what was there.
/// Should the text hold a zero character, the buffer holds an empty object.
pub fn write_json_to_buffer(buffer: &mut ScratchBuffer, value: &serde_json::Value)
    ensures
        final(buffer)@ == buffered(json_text(value_model(*value)), "{}"@),
{
    let text = finish_text(to_text(value));
    if has_nul(text.as_str()) {
        buffer.text = "{}".to_owned();
    } else {
        buffer.text = text;
    }
}

/// A monitor as the platform reports it: its name if it has one, its scale
/// factor, the position of its top left corner and its size in pixels.
#[derive(Clone, Debug, PartialEq)]
pub struct MonitorInfo {
    pub name: Option<String>,
    pub scale_factor: Double,
    pub x: i32,
    pub y: i32,
    pub width: u32,
    pub height: u32,
}

/// The message that describes a monitor. Position and size are whole
/// numbers of pixels; a monitor without a name has an empty one.
pub open spec fn monitor_record(monitor: MonitorInfo) -> Json {
    Json::Record(
        no_members().insert(
            "name"@,
            Json::Text(
                match monitor.name {
                    Some(name) => name@,
                    None => Seq::empty(),
                },
            ),
        ).insert("scale_factor"@, double_json(monitor.scale_factor)).insert(
            "position"@,
            Json::Record(
                no_members().insert("x"@, Json::Number(whole_integer(monitor.x as int))).insert(
                    "y"@,
                    Json::Number(whole_integer(monitor.y as int)),
                ),
            ),
        ).insert(
            "size"@,
            Json::Record(
                no_members().insert(
                    "width"@,
                    Json::Number(whole_integer(monitor.width as int)),
                ).insert("height"@, Json::Number(whole_integer(monitor.height as int))),
            ),
        ),
    )
}

/// Writes a monitor down as a JSON object.
pub fn monitor_to_json(monitor: &MonitorInfo) -> (value: serde_json::Value)
    ensures
        value_model(value) == monitor_record(*monitor),
{
    let mut position = map_new();
    map_insert(&mut position, "x", json_number(&integer_from_i32(monitor.x)));
    map_insert(&mut position, "y", json_number(&integer_from_i32(monitor.y)));
    let mut size = map_new();
    map_insert(&mut size, "width", json_number(&integer_from_u32(monitor.width)));
    map_insert(&mut size, "height", json_number(&integer_from_u32(monitor.height)));
    let mut members = map_new();
    let name = match &monitor.name {
        Some(name) => json_string(name.as_str()),
        None => json_string(""),
    };
    proof {
        reveal_strlit("");
        assert(""@ =~= Seq::<char>::empty());
    }
    map_insert(&mut members, "name", name);
    let scale_factor = match &monitor.scale_factor {
        Some(number) => json_number(number),
        None => json_null(),
    };
    map_insert(&mut members, "scale_factor", scale_factor);
    map_insert(&mut members, "position", json_object(position));
    map_insert(&mut members, "size", json_object(size));
    json_object(members)
}

} // verus!
