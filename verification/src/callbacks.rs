//! Which foreign function the host registered for which event of a window.
//!
//! A window has one slot for each kind of event. Registering fills the slot
//! and forgets what it held before; there is no list of subscribers. When an
//! event arrives, the slot decides the call that the caller is to make: the
//! registered function, with the window's handle and the user data that came
//! with the registration. The library never calls a foreign function itself.
//!
//! Messages from web content arrive outside the window's own state, so their
//! callback is kept in a registry that is keyed by the window's identifier.

use std::collections::HashMap;
use vstd::prelude::*;
use crate::string::has_nul;
use crate::types::{CallbackAddress, UserData, WindowId, WryWindow, NULL_HANDLE};

verus! {

/// A registered foreign function and the user data to hand back to it.
#[derive(Clone, Copy, Debug, PartialEq, Eq, Structural)]
pub struct StoredCallback {
    pub callback: CallbackAddress,
    pub user_data: UserData,
}

/// A call to a foreign function that the caller is to make: which function,
/// and each argument.
#[derive(Clone, Debug, PartialEq, Eq)]
pub enum Invocation {
    /// Asks whether the window may close. The answer decides.
    Closing { callback: CallbackAddress, window: WryWindow, user_data: UserData },
    Resized {
        callback: CallbackAddress,
        window: WryWindow,
        width: u32,
        height: u32,
        user_data: UserData,
    },
    Moved { callback: CallbackAddress, window: WryWindow, x: i32, y: i32, user_data: UserData },
    Focus { callback: CallbackAddress, window: WryWindow, focused: bool, user_data: UserData },
    /// Asks whether the webview may go to `url`. The answer decides.
    Navigation { callback: CallbackAddress, window: WryWindow, url: String, user_data: UserData },
    /// Delivers a message that web content sent.
    Message {
        callback: CallbackAddress,
        window: WryWindow,
        message: String,
        user_data: UserData,
    },
    /// Runs a unit of work that another thread queued.
    Invoke { callback: CallbackAddress, user_data: UserData },
}

/// An invocation with its texts as sequences of characters.
pub enum InvocationView {
    Closing { callback: CallbackAddress, window: WryWindow, user_data: UserData },
    Resized {
        callback: CallbackAddress,
        window: WryWindow,
        width: u32,
        height: u32,
        user_data: UserData,
    },
    Moved { callback: CallbackAddress, window: WryWindow, x: i32, y: i32, user_data: UserData },
    Focus { callback: CallbackAddress, window: WryWindow, focused: bool, user_data: UserData },
    Navigation {
        callback: CallbackAddress,
        window: WryWindow,
        url: Seq<char>,
        user_data: UserData,
    },
    Message {
        callback: CallbackAddress,
        window: WryWindow,
        message: Seq<char>,
        user_data: UserData,
    },
    Invoke { callback: CallbackAddress, user_data: UserData },
}

impl View for Invocation {
    type V = InvocationView;

    open spec fn view(&self) -> InvocationView {
        match *self {
            Invocation::Closing { callback, window, user_data } => InvocationView::Closing {
                callback,
                window,
                user_data,
            },
            Invocation::Resized {
                callback,
                window,
                width,
                height,
                user_data,
            } => InvocationView::Resized { callback, window, width, height, user_data },
            Invocation::Moved { callback, window, x, y, user_data } => InvocationView::Moved {
                callback,
                window,
                x,
                y,
                user_data,
            },
            Invocation::Focus { callback, window, focused, user_data } => InvocationView::Focus {
                callback,
                window,
                focused,
                user_data,
            },
            Invocation::Navigation {
                callback,
                window,
                url,
                user_data,
            } => InvocationView::Navigation { callback, window, url: url@, user_data },
            Invocation::Message {
                callback,
                window,
                message,
                user_data,
            } => InvocationView::Message { callback, window, message: message@, user_data },
            Invocation::Invoke { callback, user_data } => InvocationView::Invoke {
                callback,
                user_data,
            },
        }
    }
}

/// The views of an invocation that may be absent.
pub open spec fn invocation_view(invocation: Option<Invocation>) -> Option<InvocationView> {
    match invocation {
        Some(call) => Some(call@),
        None => None,
    }
}

/// What the registry knows of one window.
#[derive(Clone, Copy, Debug, PartialEq, Eq, Structural)]
pub struct CallbackEntry {
    pub window_ptr: WryWindow,
    pub message_callback: Option<StoredCallback>,
}

/// The message callbacks of all windows, by window.
pub struct CallbackRegistry {
    entries: HashMap<u64, CallbackEntry>,
}

impl View for CallbackRegistry {
    type V = Map<u64, CallbackEntry>;

    closed spec fn view(&self) -> Map<u64, CallbackEntry> {
        self.entries@
    }
}

impl CallbackRegistry {
    /// A registry that knows no window.
    pub fn new() -> (registry: Self)
        ensures
            registry@ == Map::<u64, CallbackEntry>::empty(),
    {
        CallbackRegistry { entries: HashMap::new() }
    }

    /// What the registry knows of the window, if it knows it.
    pub fn entry(&self, window_id: WindowId) -> (entry: Option<CallbackEntry>)
        ensures
            entry == (if self@.contains_key(window_id.raw) {
                Some(self@[window_id.raw])
            } else {
                None
            }),
    {
        broadcast use vstd::std_specs::hash::group_hash_axioms;

        match self.entries.get(&window_id.raw) {
            Some(found) => Some(*found),
            None => None,
        }
    }
}

/// What the registry holds after a window was made known under a handle. A
/// window that was known before keeps its message callback.
pub open spec fn with_window(
    entries: Map<u64, CallbackEntry>,
    window_id: WindowId,
    window_ptr: WryWindow,
) -> Map<u64, CallbackEntry> {
    entries.insert(
        window_id.raw,
        CallbackEntry {
            window_ptr,
            message_callback: if entries.contains_key(window_id.raw) {
                entries[window_id.raw].message_callback
            } else {
                None
            },
        },
    )
}

/// Makes the window known under its handle.
pub fn register_window(registry: &mut CallbackRegistry, window_id: WindowId, window_ptr: WryWindow)
    ensures
        final(registry)@ == with_window(old(registry)@, window_id, window_ptr),
{
    broadcast use vstd::std_specs::hash::group_hash_axioms;

    let message_callback = match registry.entries.get(&window_id.raw) {
        Some(entry) => entry.message_callback,
        None => None,
    };
    registry.entries.insert(window_id.raw, CallbackEntry { window_ptr, message_callback });
}

/// Forgets the window.
pub fn unregister_window(registry: &mut CallbackRegistry, window_id: WindowId)
    ensures
        final(registry)@ == old(registry)@.remove(window_id.raw),
{
    broadcast use vstd::std_specs::hash::group_hash_axioms;

    registry.entries.remove(&window_id.raw);
}

/// What the registry holds after a message callback was set for a window:
/// the callback replaces the window's earlier one, and nothing happens where
/// the window is not known.
pub open spec fn with_message_callback(
    entries: Map<u64, CallbackEntry>,
    window_id: WindowId,
    stored: StoredCallback,
) -> Map<u64, CallbackEntry> {
    if entries.contains_key(window_id.raw) {
        entries.insert(
            window_id.raw,
            CallbackEntry {
                window_ptr: entries[window_id.raw].window_ptr,
                message_callback: Some(stored),
            },
        )
    } else {
        entries
    }
}

/// Sets the message callback of a known window.
pub fn set_global_message_callback(
    registry: &mut CallbackRegistry,
    window_id: WindowId,
    callback: CallbackAddress,
    user_data: UserData,
)
    ensures
        final(registry)@ == with_message_callback(
            old(registry)@,
            window_id,
            StoredCallback { callback, user_data },
        ),
{
    broadcast use vstd::std_specs::hash::group_hash_axioms;

    let known = match registry.entries.get(&window_id.raw) {
        Some(entry) => Some(entry.window_ptr),
        None => None,
    };
    if let Some(window_ptr) = known {
        registry.entries.insert(
            window_id.raw,
            CallbackEntry {
                window_ptr,
                message_callback: Some(StoredCallback { callback, user_data }),
            },
        );
    }
}

/// The call that delivers `message` from the web content of a window: the
/// window's message callback, with the window's handle, the message as it
/// came and the registered user data. No call is made where the window is
/// not known, where it has no message callback, or where the message holds a
/// zero character and so cannot travel as a C string.
pub open spec fn message_invocation(
    entries: Map<u64, CallbackEntry>,
    window_id: WindowId,
    message: Seq<char>,
) -> Option<InvocationView> {
    if entries.contains_key(window_id.raw) && entries[window_id.raw].message_callback is Some
        && !message.contains('\0') {
        Some(
            InvocationView::Message {
                callback: entries[window_id.raw].message_callback->0.callback,
                window: entries[window_id.raw].window_ptr,
                message,
                user_data: entries[window_id.raw].message_callback->0.user_data,
            },
        )
    } else {
        None
    }
}

/// Decides the call for a message that web content sent.
pub fn invoke_message_callback(
    registry: &CallbackRegistry,
    window_id: WindowId,
    message: &str,
) -> (call: Option<Invocation>)
    ensures
        invocation_view(call) == message_invocation(registry@, window_id, message@),
{
    match registry.entry(window_id) {
        Some(entry) => match entry.message_callback {
            Some(stored) => {
                if has_nul(message) {
                    None
                } else {
                    Some(
                        Invocation::Message {
                            callback: stored.callback,
                            window: entry.window_ptr,
                            message: message.to_owned(),
                            user_data: stored.user_data,
                        },
                    )
                }
            },
            None => None,
        },
        None => None,
    }
}

/// The kinds of event that a window keeps a callback for in its own slots.
#[derive(Clone, Copy, Debug, PartialEq, Eq, Structural)]
pub enum CallbackKind {
    Closing,
    Resized,
    Moved,
    Focus,
    Navigation,
}

/// All callbacks of one window.
#[derive(Clone, Copy, Debug, PartialEq, Eq, Structural)]
pub struct WindowCallbacks {
    pub window_id: WindowId,
    pub closing: Option<StoredCallback>,
    pub resized: Option<StoredCallback>,
    pub moved: Option<StoredCallback>,
    pub focus: Option<StoredCallback>,
    pub navigation: Option<StoredCallback>,
    /// The handle that callbacks receive as their window.
    pub window_ptr: WryWindow,
}

impl WindowCallbacks {
    /// What the slot for a kind of event holds.
    pub open spec fn slot(self, kind: CallbackKind) -> Option<StoredCallback> {
        match kind {
            CallbackKind::Closing => self.closing,
            CallbackKind::Resized => self.resized,
            CallbackKind::Moved => self.moved,
            CallbackKind::Focus => self.focus,
            CallbackKind::Navigation => self.navigation,
        }
    }

    /// The callbacks after a registration: the slot for the kind holds what
    /// was registered, in place of what it held before.
    pub open spec fn with_slot(self, kind: CallbackKind, stored: StoredCallback) -> Self {
        match kind {
            CallbackKind::Closing => WindowCallbacks { closing: Some(stored), ..self },
            CallbackKind::Resized => WindowCallbacks { resized: Some(stored), ..self },
            CallbackKind::Moved => WindowCallbacks { moved: Some(stored), ..self },
            CallbackKind::Focus => WindowCallbacks { focus: Some(stored), ..self },
            CallbackKind::Navigation => WindowCallbacks { navigation: Some(stored), ..self },
        }
    }

    /// The callbacks of a new window: every slot empty, no handle yet.
    pub fn new(window_id: WindowId) -> (callbacks: Self)
        ensures
            callbacks == (WindowCallbacks {
                window_id,
                closing: None,
                resized: None,
                moved: None,
                focus: None,
                navigation: None,
                window_ptr: NULL_HANDLE,
            }),
    {
        WindowCallbacks {
            window_id,
            closing: None,
            resized: None,
            moved: None,
            focus: None,
            navigation: None,
            window_ptr: NULL_HANDLE,
        }
    }

    /// Sets the handle that callbacks receive, and makes the window known to
    /// the registry under it.
    pub fn set_window_ptr(&mut self, registry: &mut CallbackRegistry, ptr: WryWindow)
        ensures
            *final(self) == (WindowCallbacks { window_ptr: ptr, ..*old(self) }),
            final(registry)@ == with_window(old(registry)@, old(self).window_id, ptr),
    {
        self.window_ptr = ptr;
        register_window(registry, self.window_id, ptr);
    }

    /// Registers the callback for messages from web content. It is kept in
    /// the registry, not in the window.
    pub fn set_message(
        &mut self,
        registry: &mut CallbackRegistry,
        callback: CallbackAddress,
        user_data: UserData,
    )
        ensures
            *final(self) == *old(self),
            final(registry)@ == with_message_callback(
                old(registry)@,
                old(self).window_id,
                StoredCallback { callback, user_data },
            ),
    {
        set_global_message_callback(registry, self.window_id, callback, user_data);
    }

    pub fn set_closing(&mut self, callback: CallbackAddress, user_data: UserData)
        ensures
            *final(self) == old(self).with_slot(
                CallbackKind::Closing,
                StoredCallback { callback, user_data },
            ),
    {
        self.closing = Some(StoredCallback { callback, user_data });
    }

    pub fn set_resized(&mut self, callback: CallbackAddress, user_data: UserData)
        ensures
            *final(self) == old(self).with_slot(
                CallbackKind::Resized,
                StoredCallback { callback, user_data },
            ),
    {
        self.resized = Some(StoredCallback { callback, user_data });
    }

    pub fn set_moved(&mut self, callback: CallbackAddress, user_data: UserData)
        ensures
            *final(self) == old(self).with_slot(
                CallbackKind::Moved,
                StoredCallback { callback, user_data },
            ),
    {
        self.moved = Some(StoredCallback { callback, user_data });
    }

    pub fn set_focus(&mut self, callback: CallbackAddress, user_data: UserData)
        ensures
            *final(self) == old(self).with_slot(
                CallbackKind::Focus,
                StoredCallback { callback, user_data },
            ),
    {
        self.focus = Some(StoredCallback { callback, user_data });
    }

    pub fn set_navigation(&mut self, callback: CallbackAddress, user_data: UserData)
        ensures
            *final(self) == old(self).with_slot(
                CallbackKind::Navigation,
                StoredCallback { callback, user_data },
            ),
    {
        self.navigation = Some(StoredCallback { callback, user_data });
    }

    /// The call that asks the host whether the window may close, or none
    /// where no closing callback is registered.
    pub open spec fn closing_call(self) -> Option<Invocation> {
        match self.closing {
            Some(stored) => Some(
                Invocation::Closing {
                    callback: stored.callback,
                    window: self.window_ptr,
                    user_data: stored.user_data,
                },
            ),
            None => None,
        }
    }

    /// Decides the call for a request to close the window. Where there is
    /// none to make, the close goes ahead: see [`close_allowed`].
    pub fn call_closing(&self) -> (call: Option<Invocation>)
        ensures
            call == self.closing_call(),
    {
        match self.closing {
            Some(stored) => Some(
                Invocation::Closing {
                    callback: stored.callback,
                    window: self.window_ptr,
                    user_data: stored.user_data,
                },
            ),
            None => None,
        }
    }

    pub open spec fn resized_call(self, width: u32, height: u32) -> Option<Invocation> {
        match self.resized {
            Some(stored) => Some(
                Invocation::Resized {
                    callback: stored.callback,
                    window: self.window_ptr,
                    width,
                    height,
                    user_data: stored.user_data,
                },
            ),
            None => None,
        }
    }

    /// Decides the call that tells the host the window's new size.
    pub fn call_resized(&self, width: u32, height: u32) -> (call: Option<Invocation>)
        ensures
            call == self.resized_call(width, height),
    {
        match self.resized {
            Some(stored) => Some(
                Invocation::Resized {
                    callback: stored.callback,
                    window: self.window_ptr,
                    width,
                    height,
                    user_data: stored.user_data,
                },
            ),
            None => None,
        }
    }

    pub open spec fn moved_call(self, x: i32, y: i32) -> Option<Invocation> {
        match self.moved {
            Some(stored) => Some(
                Invocation::Moved {
                    callback: stored.callback,
                    window: self.window_ptr,
                    x,
                    y,
                    user_data: stored.user_data,
                },
            ),
            None => None,
        }
    }

    /// Decides the call that tells the host the window's new position.
    pub fn call_moved(&self, x: i32, y: i32) -> (call: Option<Invocation>)
        ensures
            call == self.moved_call(x, y),
    {
        match self.moved {
            Some(stored) => Some(
                Invocation::Moved {
                    callback: stored.callback,
                    window: self.window_ptr,
                    x,
                    y,
                    user_data: stored.user_data,
                },
            ),
            None => None,
        }
    }

    pub open spec fn focus_call(self, focused: bool) -> Option<Invocation> {
        match self.focus {
            Some(stored) => Some(
                Invocation::Focus {
                    callback: stored.callback,
                    window: self.window_ptr,
                    focused,
                    user_data: stored.user_data,
                },
            ),
            None => None,
        }
    }

    /// Decides the call that tells the host whether the window has focus.
    pub fn call_focus(&self, focused: bool) -> (call: Option<Invocation>)
        ensures
            call == self.focus_call(focused),
    {
        match self.focus {
            Some(stored) => Some(
                Invocation::Focus {
                    callback: stored.callback,
                    window: self.window_ptr,
                    focused,
                    user_data: stored.user_data,
                },
            ),
            None => None,
        }
    }

    /// The call that asks the host whether the webview may go to `url`.
    /// There is none where no navigation callback is registered, or where
    /// the address holds a zero character and so cannot travel as a C string.
    pub open spec fn navigation_call(self, url: Seq<char>) -> Option<InvocationView> {
        if self.navigation is Some && !url.contains('\0') {
            Some(
                InvocationView::Navigation {
                    callback: self.navigation->0.callback,
                    window: self.window_ptr,
                    url,
                    user_data: self.navigation->0.user_data,
                },
            )
        } else {
            None
        }
    }

    /// Decides the call for a navigation. Where there is none to make, the
    /// navigation goes ahead: see [`navigation_allowed`].
    pub fn call_navigation(&self, url: &str) -> (call: Option<Invocation>)
        ensures
            invocation_view(call) == self.navigation_call(url@),
    {
        match self.navigation {
            Some(stored) => {
                if has_nul(url) {
                    None
                } else {
                    Some(
                        Invocation::Navigation {
                            callback: stored.callback,
                            window: self.window_ptr,
                            url: url.to_owned(),
                            user_data: stored.user_data,
                        },
                    )
                }
            },
            None => None,
        }
    }

    /// Takes the window out of the registry when its callbacks go away.
    pub fn release(self, registry: &mut CallbackRegistry)
        ensures
            final(registry)@ == old(registry)@.remove(self.window_id.raw),
    {
        unregister_window(registry, self.window_id);
    }
}

impl Default for WindowCallbacks {
    fn default() -> (callbacks: Self)
        ensures
            callbacks == (WindowCallbacks {
                window_id: WindowId { raw: 0 },
                closing: None,
                resized: None,
                moved: None,
                focus: None,
                navigation: None,
                window_ptr: NULL_HANDLE,
            }),
    {
        WindowCallbacks::new(WindowId { raw: 0 })
    }
}

/// Whether a window closes, given what its closing callback answered.
/// `None` stands for "no callback was called". A window closes unless a
/// callback says no.
pub open spec fn spec_close_allowed(answer: Option<bool>) -> bool {
    match answer {
        Some(allowed) => allowed,
        None => true,
    }
}

#[verifier::when_used_as_spec(spec_close_allowed)]
pub fn close_allowed(answer: Option<bool>) -> (allowed: bool)
    ensures
        allowed == spec_close_allowed(answer),
{
    match answer {
        Some(allowed) => allowed,
        None => true,
    }
}

/// Whether a navigation goes ahead, given what the navigation callback
/// answered. `None` stands for "no callback was called". A navigation goes
/// ahead unless a callback says no.
pub open spec fn spec_navigation_allowed(answer: Option<bool>) -> bool {
    match answer {
        Some(allowed) => allowed,
        None => true,
    }
}

#[verifier::when_used_as_spec(spec_navigation_allowed)]
pub fn navigation_allowed(answer: Option<bool>) -> (allowed: bool)
    ensures
        allowed == spec_navigation_allowed(answer),
{
    match answer {
        Some(allowed) => allowed,
        None => true,
    }
}

/// The last registration wins, and each slot stands for itself: after two
/// registrations for one kind of event, the slot holds the second; a
/// registration for one kind leaves the slots of the other kinds, the
/// window's identifier and its handle as they were.
pub proof fn lemma_last_registration_wins(
    callbacks: WindowCallbacks,
    kind: CallbackKind,
    other: CallbackKind,
    first: StoredCallback,
    second: StoredCallback,
)
    ensures
        callbacks.with_slot(kind, first).with_slot(kind, second).slot(kind) == Some(second),
        callbacks.with_slot(kind, first).with_slot(kind, second) == callbacks.with_slot(
            kind,
            second,
        ),
        other != kind ==> callbacks.with_slot(kind, first).slot(other) == callbacks.slot(other),
        callbacks.with_slot(kind, first).window_id == callbacks.window_id,
        callbacks.with_slot(kind, first).window_ptr == callbacks.window_ptr,
{
}

/// What is registered is what is called: after a registration for the
/// closing of a window, a request to close leads to a call of the registered
/// function with the window's handle and the registered user data.
pub proof fn lemma_registered_closing_callback_is_called(
    callbacks: WindowCallbacks,
    stored: StoredCallback,
)
    ensures
        callbacks.with_slot(CallbackKind::Closing, stored).closing_call() == Some(
            Invocation::Closing {
                callback: stored.callback,
                window: callbacks.window_ptr,
                user_data: stored.user_data,
            },
        ),
{
}

/// A message callback stays registered while other callbacks of the window
/// are registered: making the window known again, under whatever handle,
/// keeps the message callback, and messages go to it with the newest handle.
pub proof fn lemma_message_callback_survives(
    entries: Map<u64, CallbackEntry>,
    window_id: WindowId,
    stored: StoredCallback,
    handle: WryWindow,
    message: Seq<char>,
)
    requires
        entries.contains_key(window_id.raw),
        !message.contains('\0'),
    ensures
        message_invocation(
            with_window(with_message_callback(entries, window_id, stored), window_id, handle),
            window_id,
            message,
        ) == Some(
            InvocationView::Message {
                callback: stored.callback,
                window: handle,
                message,
                user_data: stored.user_data,
            },
        ),
{
}

/// A message reaches the host as it was sent: whatever characters it holds,
/// quotes and characters outside ASCII among them, the call that delivers
/// it carries the same characters in the same order. Only a message with a
/// zero character is not delivered at all.
pub proof fn lemma_message_arrives_unchanged(
    entries: Map<u64, CallbackEntry>,
    window_id: WindowId,
    message: Seq<char>,
)
    requires
        entries.contains_key(window_id.raw),
        entries[window_id.raw].message_callback is Some,
    ensures
        message.contains('\0') ==> message_invocation(entries, window_id, message) is None,
        !message.contains('\0') ==> (message_invocation(entries, window_id, message) matches Some(
            InvocationView::Message { message: delivered, .. },
        ) && delivered == message),
{
}

} // verus!
