//! The entry that the application keeps for each of its windows.

use vstd::prelude::*;
use vstd::utf8::{decode_utf8, valid_utf8};
use crate::string::{c_str_to_string, has_nul};
use crate::callbacks::{with_message_callback, with_window, CallbackRegistry, StoredCallback, WindowCallbacks};
use crate::types::{CallbackAddress, UserData, WindowId, WryWindow};

verus! {

/// Where a window is between its creation and its removal. A window that is
/// being built has no entry yet, and a removed one has none any more, so an
/// entry is in one of two states.
#[derive(Clone, Copy, Debug, PartialEq, Eq, Structural)]
pub enum WindowLifecycle {
    /// On screen, taking events.
    Live,
    /// The user asked to close it, and the host has been asked whether it
    /// may. The answer removes the window or makes it live again.
    CloseRequested,
}

/// One window of the application.
#[derive(Clone, Copy, Debug, PartialEq, Eq, Structural)]
pub struct WindowState {
    pub id: WindowId,
    /// Whether a webview is embedded in the window.
    pub has_webview: bool,
    pub callbacks: WindowCallbacks,
    pub lifecycle: WindowLifecycle,
}

impl WindowState {
    /// The entry of a window that was just built: live, without a webview,
    /// with no callback registered.
    pub fn new(id: WindowId) -> (state: Self)
        ensures
            state == (WindowState {
                id,
                has_webview: false,
                callbacks: WindowCallbacks {
                    window_id: id,
                    closing: None,
                    resized: None,
                    moved: None,
                    focus: None,
                    navigation: None,
                    window_ptr: crate::types::NULL_HANDLE,
                },
                lifecycle: WindowLifecycle::Live,
            }),
    {
        WindowState {
            id,
            has_webview: false,
            callbacks: WindowCallbacks::new(id),
            lifecycle: WindowLifecycle::Live,
        }
    }
}

/// Registers the callback for messages from the window's web content. The
/// handle itself becomes the window that callbacks receive. On a null handle
/// nothing happens.
pub fn wry_window_set_message_callback(
    window: Option<&mut WindowState>,
    registry: &mut CallbackRegistry,
    handle: WryWindow,
    callback: CallbackAddress,
    user_data: UserData,
)
    ensures
        match window {
            Some(state) => {
                &&& *final(state) == (WindowState {
                    callbacks: WindowCallbacks { window_ptr: handle, ..state.callbacks },
                    ..*state
                })
                &&& final(registry)@ == with_message_callback(
                    with_window(old(registry)@, state.callbacks.window_id, handle),
                    state.callbacks.window_id,
                    StoredCallback { callback, user_data },
                )
            },
            None => final(registry)@ == old(registry)@,
        },
{
    if let Some(state) = window {
        state.callbacks.set_window_ptr(registry, handle);
        state.callbacks.set_message(registry, callback, user_data);
    }
}

/// Registers the callback that decides whether the window may close. On a
/// null handle nothing happens.
pub fn wry_window_set_closing_callback(
    window: Option<&mut WindowState>,
    registry: &mut CallbackRegistry,
    handle: WryWindow,
    callback: CallbackAddress,
    user_data: UserData,
)
    ensures
        match window {
            Some(state) => {
                &&& *final(state) == (WindowState {
                    callbacks: WindowCallbacks {
                        window_ptr: handle,
                        closing: Some(StoredCallback { callback, user_data }),
                        ..state.callbacks
                    },
                    ..*state
                })
                &&& final(registry)@ == with_window(
                    old(registry)@,
                    state.callbacks.window_id,
                    handle,
                )
            },
            None => final(registry)@ == old(registry)@,
        },
{
    if let Some(state) = window {
        state.callbacks.set_window_ptr(registry, handle);
        state.callbacks.set_closing(callback, user_data);
    }
}

/// Registers the callback that hears of a new size. On a null handle nothing
/// happens.
pub fn wry_window_set_resized_callback(
    window: Option<&mut WindowState>,
    registry: &mut CallbackRegistry,
    handle: WryWindow,
    callback: CallbackAddress,
    user_data: UserData,
)
    ensures
        match window {
            Some(state) => {
                &&& *final(state) == (WindowState {
                    callbacks: WindowCallbacks {
                        window_ptr: handle,
                        resized: Some(StoredCallback { callback, user_data }),
                        ..state.callbacks
                    },
                    ..*state
                })
                &&& final(registry)@ == with_window(
                    old(registry)@,
                    state.callbacks.window_id,
                    handle,
                )
            },
            None => final(registry)@ == old(registry)@,
        },
{
    if let Some(state) = window {
        state.callbacks.set_window_ptr(registry, handle);
        state.callbacks.set_resized(callback, user_data);
    }
}

/// Registers the callback that hears of a new position. On a null handle
/// nothing happens.
pub fn wry_window_set_moved_callback(
    window: Option<&mut WindowState>,
    registry: &mut CallbackRegistry,
    handle: WryWindow,
    callback: CallbackAddress,
    user_data: UserData,
)
    ensures
        match window {
            Some(state) => {
                &&& *final(state) == (WindowState {
                    callbacks: WindowCallbacks {
                        window_ptr: handle,
                        moved: Some(StoredCallback { callback, user_data }),
                        ..state.callbacks
                    },
                    ..*state
                })
                &&& final(registry)@ == with_window(
                    old(registry)@,
                    state.callbacks.window_id,
                    handle,
                )
            },
            None => final(registry)@ == old(registry)@,
        },
{
    if let Some(state) = window {
        state.callbacks.set_window_ptr(registry, handle);
        state.callbacks.set_moved(callback, user_data);
    }
}

/// Registers the callback that hears of focus gained and lost. On a null
/// handle nothing happens.
pub fn wry_window_set_focus_callback(
    window: Option<&mut WindowState>,
    registry: &mut CallbackRegistry,
    handle: WryWindow,
    callback: CallbackAddress,
    user_data: UserData,
)
    ensures
        match window {
            Some(state) => {
                &&& *final(state) == (WindowState {
                    callbacks: WindowCallbacks {
                        window_ptr: handle,
                        focus: Some(StoredCallback { callback, user_data }),
                        ..state.callbacks
                    },
                    ..*state
                })
                &&& final(registry)@ == with_window(
                    old(registry)@,
                    state.callbacks.window_id,
                    handle,
                )
            },
            None => final(registry)@ == old(registry)@,
        },
{
    if let Some(state) = window {
        state.callbacks.set_window_ptr(registry, handle);
        state.callbacks.set_focus(callback, user_data);
    }
}

/// Registers the callback that decides whether the webview may navigate. On
/// a null handle nothing happens.
pub fn wry_window_set_navigation_callback(
    window: Option<&mut WindowState>,
    registry: &mut CallbackRegistry,
    handle: WryWindow,
    callback: CallbackAddress,
    user_data: UserData,
)
    ensures
        match window {
            Some(state) => {
                &&& *final(state) == (WindowState {
                    callbacks: WindowCallbacks {
                        window_ptr: handle,
                        navigation: Some(StoredCallback { callback, user_data }),
                        ..state.callbacks
                    },
                    ..*state
                })
                &&& final(registry)@ == with_window(
                    old(registry)@,
                    state.callbacks.window_id,
                    handle,
                )
            },
            None => final(registry)@ == old(registry)@,
        },
{
    if let Some(state) = window {
        state.callbacks.set_window_ptr(registry, handle);
        state.callbacks.set_navigation(callback, user_data);
    }
}

/// How the host wants a window built. The title is the bytes of a C string,
/// or nothing where the pointer was null.
#[derive(Clone, Debug, PartialEq, Eq)]
pub struct WryWindowConfig {
    pub width: u32,
    pub height: u32,
    pub title: Option<Vec<u8>>,
}

/// What a window is built with.
#[derive(Clone, Debug, PartialEq, Eq)]
pub struct WindowPlan {
    /// The title, or nothing to keep the platform's.
    pub title: Option<String>,
    /// Width and height of the content, or nothing to keep the platform's.
    pub inner_size: Option<(u32, u32)>,
}

/// The size that a window is built with: the host's, if it gave both a
/// width and a height.
pub open spec fn planned_size(width: u32, height: u32) -> Option<(u32, u32)> {
    if width > 0 && height > 0 {
        Some((width, height))
    } else {
        None
    }
}

/// Decides what a window is built with. Without a configuration, and
/// wherever the configuration leaves something out, the platform's default
/// stands. A title that is not UTF-8 counts as left out.
pub fn window_plan(config: Option<&WryWindowConfig>) -> (plan: WindowPlan)
    ensures
        match config {
            Some(given) => {
                &&& plan.inner_size == planned_size(given.width, given.height)
                &&& plan.title is Some <==> given.title is Some && valid_utf8(given.title->0@)
                &&& plan.title matches Some(title) ==> title@ == decode_utf8(given.title->0@)
            },
            None => plan.title is None && plan.inner_size is None,
        },
{
    match config {
        Some(given) => {
            let title = match &given.title {
                Some(bytes) => c_str_to_string(Some(bytes.as_slice())),
                None => None,
            };
            let inner_size = if given.width > 0 && given.height > 0 {
                Some((given.width, given.height))
            } else {
                None
            };
            WindowPlan { title, inner_size }
        },
        None => WindowPlan { title: None, inner_size: None },
    }
}

/// The identifier under which the host knows a window: the platform's
/// rendering of the window's identifier, or a fixed name where the rendering
/// holds a zero character and cannot travel as a C string.
pub fn window_identifier(rendering: &str) -> (identifier: String)
    ensures
        identifier@ == (if rendering@.contains('\0') {
            "wry-window"@
        } else {
            rendering@
        }),
{
    if has_nul(rendering) {
        "wry-window".to_owned()
    } else {
        rendering.to_owned()
    }
}

} // verus!
