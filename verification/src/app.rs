//! The application: its windows, its event loop, and what is done with each
//! event.
//!
//! The native event loop runs outside this library, on the thread that
//! created the application. For every event that it delivers, the caller
//! asks [`AppState::process_event`] what to do. The answer is the new state,
//! a list of foreign calls to make in order, and whether the loop goes on.
//! Where a call has an answer that matters, the caller hands the answer back
//! ([`AppState::finish_close`]).
//!
//! An event loop is run at most once. It starts out created, runs once
//! [`wry_app_run_start`] has taken it, and is stopped for good when
//! [`wry_app_run_finish`] is told that it came back.

use std::collections::HashMap;
use vstd::prelude::*;
use vstd::string::StringExecFns;
use crate::callbacks::{Invocation, InvocationView};
use crate::error::{error_result, set_last_error, stored_message, LastError};
use crate::protocol::{ProtocolHandler, ProtocolTable};
use crate::string::{append_signed_decimal, signed_decimal_text};
use crate::types::{
    CallbackAddress, UserData, WindowId, WryErrorCode, WryEventLoopControlFlow, WryResult,
};
use crate::window::{WindowLifecycle, WindowState};

verus! {

/// Where the event loop of an application is in its life.
#[derive(Clone, Copy, Debug, PartialEq, Eq, Structural)]
pub enum LoopPhase {
    /// Built and owned by the application, not yet run.
    Created,
    /// Taken by the run call, delivering events.
    Running,
    /// Returned from. It cannot be run again.
    Stopped,
}

/// Work that any thread may queue for the thread that runs the loop.
#[derive(Debug, PartialEq, Eq)]
pub enum UserEvent {
    /// Request to quit the application.
    Quit,
    /// Call a foreign function on the loop's thread. Where `completion` is
    /// given, a thread is waiting for the call to return and is woken through
    /// it afterwards.
    InvokeCallback { callback: CallbackAddress, user_data: UserData, completion: Option<usize> },
    /// Send a message to the webview of a window.
    WebViewMessage { window_id: WindowId, message: String },
    /// Close a window, without asking.
    DestroyWindow(WindowId),
}

/// What the caller is to do for the library, outside of it.
#[derive(Debug, PartialEq, Eq)]
pub enum HostAction {
    /// Make this foreign call.
    Call(Invocation),
    /// Wake the thread that waits on this completion.
    Signal { completion: usize },
    /// Run this script in the webview of this window.
    EvaluateScript { window_id: WindowId, script: String },
}

/// A host action with its texts as sequences of characters.
pub enum HostActionView {
    Call(InvocationView),
    Signal { completion: usize },
    EvaluateScript { window_id: WindowId, script: Seq<char> },
}

impl View for HostAction {
    type V = HostActionView;

    open spec fn view(&self) -> HostActionView {
        match *self {
            HostAction::Call(call) => HostActionView::Call(call@),
            HostAction::Signal { completion } => HostActionView::Signal { completion },
            HostAction::EvaluateScript { window_id, script } => HostActionView::EvaluateScript {
                window_id,
                script: script@,
            },
        }
    }
}

/// The views of a list of host actions, in the same order.
pub open spec fn actions_view(actions: Seq<HostAction>) -> Seq<HostActionView> {
    actions.map_values(|action: HostAction| action@)
}

/// An event that the native loop delivered, as far as the application acts
/// on it.
#[derive(Debug, PartialEq)]
pub enum LoopEvent {
    /// The loop has started.
    Init,
    /// Queued work has arrived.
    User(UserEvent),
    /// Something happened to a window.
    Window { window_id: WindowId, event: WindowChange },
    /// The loop is about to end.
    LoopDestroyed,
    /// Anything else.
    Other,
}

/// What happened to a window, as far as the application acts on it. Sizes
/// and positions are in whole physical pixels, as the callbacks of the host
/// take them.
#[derive(Clone, Copy, Debug, PartialEq, Eq, Structural)]
pub enum WindowChange {
    /// The user asked to close the window.
    CloseRequested,
    Resized { width: u32, height: u32 },
    Moved { x: i32, y: i32 },
    Focused(bool),
    /// Anything else.
    Other,
}

/// What one event leads to: the calls to make, in order, and whether the
/// loop goes on.
#[derive(Debug, PartialEq)]
pub struct LoopStep {
    pub actions: Vec<HostAction>,
    pub control_flow: WryEventLoopControlFlow,
}

/// The state of an application, as contracts speak of it.
pub struct AppView {
    pub phase: LoopPhase,
    /// The queued work, oldest first.
    pub pending: Seq<UserEvent>,
    pub windows: Map<u64, WindowState>,
    pub protocols: Map<Seq<char>, ProtocolHandler>,
    pub should_quit: bool,
}

/// Application state holding the event loop and windows.
pub struct AppState {
    /// Where the event loop is in its life.
    phase: LoopPhase,
    /// What was sent to the loop and has not arrived yet.
    pending: Vec<UserEvent>,
    /// All windows managed by this app.
    windows: HashMap<u64, WindowState>,
    /// Custom protocol handlers, by scheme.
    custom_protocols: ProtocolTable,
    /// Whether we should quit.
    should_quit: bool,
}

/// How a text stands in a script: in double quotes, with what Rust's `Debug`
/// escapes escaped.
pub uninterp spec fn debug_quoted(text: Seq<char>) -> Seq<char>;

/// `format!` with `{:?}` on a text.
#[verifier::external_body]
fn debug_quote(text: &str) -> (quoted: String)
    ensures
        quoted@ == debug_quoted(text@),
{
    format!("{:?}", text)
}

/// `HashMap::get_mut`: the value under the key, to change in place. The map
/// afterwards differs from the map before in that value alone.
#[verifier::external_body]
fn window_slot<'a>(windows: &'a mut HashMap<u64, WindowState>, key: u64) -> (slot: Option<
    &'a mut WindowState,
>)
    ensures
        match slot {
            Some(state) => old(windows)@.contains_key(key) && *state == old(windows)@[key]
                && final(windows)@ == old(windows)@.insert(key, *final(state)),
            None => !old(windows)@.contains_key(key) && final(windows)@ == old(windows)@,
        },
{
    windows.get_mut(&key)
}

/// The script that hands a message to the page, where the page has the
/// bridge installed, around the message as it stands in a script.
pub open spec fn script_around(quoted: Seq<char>) -> Seq<char> {
    "if(window.tauri && window.tauri.__receive) { window.tauri.__receive("@ + quoted + "); }"@
}

/// The script that hands `message` to the page.
pub open spec fn receive_script(message: Seq<char>) -> Seq<char> {
    script_around(debug_quoted(message))
}

/// Puts the script together that hands a message to the page. The message
/// comes quoted, as it is to stand in the script.
pub fn script_for_quoted(quoted: &str) -> (script: String)
    ensures
        script@ == script_around(quoted@),
{
    let mut script = "if(window.tauri && window.tauri.__receive) { window.tauri.__receive(".to_owned();
    script.append(quoted);
    script.append("); }");
    script
}

/// The state after queued work was handled. A quit request marks the
/// application as quitting; a destroy request takes the window out, whether
/// or not the host would have allowed a close. Nothing else changes.
pub open spec fn after_user_event(state: AppView, event: UserEvent) -> AppView {
    match event {
        UserEvent::Quit => AppView { should_quit: true, ..state },
        UserEvent::DestroyWindow(window_id) => AppView {
            windows: state.windows.remove(window_id.raw),
            ..state
        },
        _ => state,
    }
}

/// The calls to make for queued work, in order. A callback is called and
/// then, where a thread waits for it, that thread is woken: never the other
/// way round. A message becomes a script in the window's webview, and is
/// dropped where the window is gone or has no webview.
pub open spec fn user_event_actions(state: AppView, event: UserEvent) -> Seq<HostActionView> {
    match event {
        UserEvent::Quit => seq![],
        UserEvent::InvokeCallback { callback, user_data, completion } => match completion {
            Some(waiter) => seq![
                HostActionView::Call(InvocationView::Invoke { callback, user_data }),
                HostActionView::Signal { completion: waiter },
            ],
            None => seq![HostActionView::Call(InvocationView::Invoke { callback, user_data })],
        },
        UserEvent::WebViewMessage { window_id, message } => if state.windows.contains_key(
            window_id.raw,
        ) && state.windows[window_id.raw].has_webview {
            seq![HostActionView::EvaluateScript { window_id, script: receive_script(message@) }]
        } else {
            seq![]
        },
        UserEvent::DestroyWindow(_) => seq![],
    }
}

/// The control flow after queued work was handled: a quit request ends the
/// loop, anything else leaves the flow as it was.
pub open spec fn user_event_flow(
    before: WryEventLoopControlFlow,
    event: UserEvent,
) -> WryEventLoopControlFlow {
    match event {
        UserEvent::Quit => WryEventLoopControlFlow::Exit,
        _ => before,
    }
}

/// The call to make for a window event: the callback in the slot for that
/// kind of event, if the window is there and the slot is filled.
pub open spec fn window_event_call(
    state: AppView,
    window_id: WindowId,
    event: WindowChange,
) -> Option<Invocation> {
    if state.windows.contains_key(window_id.raw) {
        let callbacks = state.windows[window_id.raw].callbacks;
        match event {
            WindowChange::CloseRequested => callbacks.closing_call(),
            WindowChange::Resized { width, height } => callbacks.resized_call(width, height),
            WindowChange::Moved { x, y } => callbacks.moved_call(x, y),
            WindowChange::Focused(focused) => callbacks.focus_call(focused),
            _ => None,
        }
    } else {
        None
    }
}

/// The state after a window event. Only a request to close changes it: a
/// window without a closing callback is removed at once, and one with a
/// closing callback waits for the host's answer.
pub open spec fn after_window_event(
    state: AppView,
    window_id: WindowId,
    event: WindowChange,
) -> AppView {
    if event is CloseRequested && state.windows.contains_key(window_id.raw) {
        if state.windows[window_id.raw].callbacks.closing is Some {
            AppView {
                windows: state.windows.insert(
                    window_id.raw,
                    WindowState {
                        lifecycle: WindowLifecycle::CloseRequested,
                        ..state.windows[window_id.raw]
                    },
                ),
                ..state
            }
        } else {
            AppView { windows: state.windows.remove(window_id.raw), ..state }
        }
    } else {
        state
    }
}

/// The state after the host answered a request to close: an allowed close
/// removes the window, a denied one makes it live again.
pub open spec fn after_close_reply(state: AppView, window_id: WindowId, allowed: bool) -> AppView {
    if state.windows.contains_key(window_id.raw) {
        if allowed {
            AppView { windows: state.windows.remove(window_id.raw), ..state }
        } else {
            AppView {
                windows: state.windows.insert(
                    window_id.raw,
                    WindowState { lifecycle: WindowLifecycle::Live, ..state.windows[window_id.raw] },
                ),
                ..state
            }
        }
    } else {
        state
    }
}

/// Whether the loop goes on in this state: it ends once the application is
/// quitting or its last window is gone.
pub open spec fn flow_in(state: AppView) -> WryEventLoopControlFlow {
    if state.should_quit || state.windows.is_empty() {
        WryEventLoopControlFlow::Exit
    } else {
        WryEventLoopControlFlow::Wait
    }
}

/// The state after an event.
pub open spec fn after_event(state: AppView, event: LoopEvent) -> AppView {
    match event {
        LoopEvent::User(work) => after_user_event(state, work),
        LoopEvent::Window { window_id, event } => after_window_event(state, window_id, event),
        _ => state,
    }
}

/// The calls to make for an event, in order.
pub open spec fn event_actions(state: AppView, event: LoopEvent) -> Seq<HostActionView> {
    match event {
        LoopEvent::User(work) => user_event_actions(state, work),
        LoopEvent::Window { window_id, event } => match window_event_call(
            state,
            window_id,
            event,
        ) {
            Some(call) => seq![HostActionView::Call(call@)],
            None => seq![],
        },
        _ => seq![],
    }
}

/// The state after work was sent to the loop: the work is last in the
/// queue, unless the loop has stopped and takes no more.
pub open spec fn after_send(state: AppView, event: UserEvent) -> AppView {
    if state.phase == LoopPhase::Stopped {
        state
    } else {
        AppView { pending: state.pending.push(event), ..state }
    }
}

impl View for AppState {
    type V = AppView;

    closed spec fn view(&self) -> AppView {
        AppView {
            phase: self.phase,
            pending: self.pending@,
            windows: self.windows@,
            protocols: self.custom_protocols@,
            should_quit: self.should_quit,
        }
    }
}

impl AppState {
    /// Create a new app state: the loop created, nothing queued, no window,
    /// no protocol handler.
    pub fn new() -> (state: Result<Self, String>)
        ensures
            state matches Ok(app) && app@ == (AppView {
                phase: LoopPhase::Created,
                pending: Seq::empty(),
                windows: Map::empty(),
                protocols: Map::empty(),
                should_quit: false,
            }),
    {
        Ok(
            AppState {
                phase: LoopPhase::Created,
                pending: Vec::new(),
                windows: HashMap::new(),
                custom_protocols: ProtocolTable::new(),
                should_quit: false,
            },
        )
    }

    /// Where the event loop is in its life.
    pub fn phase(&self) -> (phase: LoopPhase)
        ensures
            phase == self@.phase,
    {
        self.phase
    }

    /// Whether the application has been asked to quit.
    pub fn should_quit(&self) -> (quitting: bool)
        ensures
            quitting == self@.should_quit,
    {
        self.should_quit
    }

    /// How many units of work are queued.
    pub fn pending_len(&self) -> (len: usize)
        ensures
            len == self@.pending.len(),
    {
        self.pending.len()
    }

    /// How many windows the application has.
    pub fn window_count(&self) -> (count: usize)
        ensures
            count == self@.windows.len(),
    {
        self.windows.len()
    }

    /// Get a window by ID.
    pub fn get_window(&self, id: WindowId) -> (window: Option<&WindowState>)
        ensures
            match window {
                Some(state) => self@.windows.contains_key(id.raw) && *state == self@.windows[id.raw],
                None => !self@.windows.contains_key(id.raw),
            },
    {
        broadcast use vstd::std_specs::hash::group_hash_axioms;

        self.windows.get(&id.raw)
    }

    /// Get a mutable window by ID. What the caller writes through the
    /// reference is what the registry holds for the window afterwards;
    /// nothing else changes.
    pub fn get_window_mut(&mut self, id: WindowId) -> (window: Option<&mut WindowState>)
        ensures
            match window {
                Some(state) => old(self)@.windows.contains_key(id.raw) && *state == old(self)@.windows[id.raw] && final(self)@ == (AppView {
                    windows: old(self)@.windows.insert(id.raw, *final(state)),
                    ..old(self)@
                }),
                None => !old(self)@.windows.contains_key(id.raw) && final(self)@ == old(self)@,
            },
    {
        window_slot(&mut self.windows, id.raw)
    }

    /// Takes a new window into the registry, under its identifier.
    pub fn add_window(&mut self, window: WindowState)
        ensures
            final(self)@ == (AppView {
                windows: old(self)@.windows.insert(window.id.raw, window),
                ..old(self)@
            }),
    {
        broadcast use vstd::std_specs::hash::group_hash_axioms;

        self.windows.insert(window.id.raw, window);
    }

    /// The handler of a custom scheme, if the scheme has one.
    pub fn protocol(&self, scheme: &str) -> (handler: Option<ProtocolHandler>)
        ensures
            handler == (if self@.protocols.contains_key(scheme@) {
                Some(self@.protocols[scheme@])
            } else {
                None
            }),
    {
        self.custom_protocols.get(scheme)
    }

    /// Makes `handler` the handler of `scheme`, in place of any earlier one.
    pub fn set_protocol(&mut self, scheme: String, handler: ProtocolHandler)
        ensures
            final(self)@ == (AppView {
                protocols: old(self)@.protocols.insert(scheme@, handler),
                ..old(self)@
            }),
    {
        self.custom_protocols.insert(scheme, handler);
    }

    /// Queues work for the loop's thread. A loop that has stopped takes no
    /// more work: the work comes back.
    pub fn send_event(&mut self, event: UserEvent) -> (sent: Result<(), UserEvent>)
        ensures
            final(self)@ == after_send(old(self)@, event),
            sent == (if old(self)@.phase == LoopPhase::Stopped {
                Err::<(), UserEvent>(event)
            } else {
                Ok::<(), UserEvent>(())
            }),
    {
        match self.phase {
            LoopPhase::Stopped => Err(event),
            _ => {
                self.pending.push(event);
                Ok(())
            },
        }
    }

    /// Takes the oldest queued work out of the queue, for the loop to handle.
    /// Work arrives only while the loop runs.
    pub fn next_user_event(&mut self) -> (next: Option<UserEvent>)
        ensures
            old(self)@.phase == LoopPhase::Running && old(self)@.pending.len() > 0 ==> next
                == Some(old(self)@.pending[0]) && final(self)@ == (AppView {
                pending: old(self)@.pending.skip(1),
                ..old(self)@
            }),
            !(old(self)@.phase == LoopPhase::Running && old(self)@.pending.len() > 0) ==> next
                is None && final(self)@ == old(self)@,
    {
        match self.phase {
            LoopPhase::Running => {
                if self.pending.len() > 0 {
                    let next = self.pending.remove(0);
                    assert(self.pending@ =~= old(self).pending@.skip(1));
                    Some(next)
                } else {
                    None
                }
            },
            _ => None,
        }
    }

    /// Request quit: marks the application as quitting and queues a quit
    /// request, which wakes the loop.
    pub fn quit(&mut self)
        ensures
            final(self)@ == after_send(
                AppView { should_quit: true, ..old(self)@ },
                UserEvent::Quit,
            ),
    {
        self.should_quit = true;
        let _ = self.send_event(UserEvent::Quit);
    }

    /// Decides what an event leads to. This is what the loop does with each
    /// event that the platform delivers.
    pub fn process_event(&mut self, event: LoopEvent) -> (step: LoopStep)
        ensures
            final(self)@ == after_event(old(self)@, event),
            actions_view(step.actions@) == event_actions(old(self)@, event),
            step.control_flow == flow_in(final(self)@),
    {
        let mut control_flow = WryEventLoopControlFlow::Wait;
        let actions = match event {
            LoopEvent::User(work) => handle_user_event(self, work, &mut control_flow),
            LoopEvent::Window { window_id, event } => {
                let call = handle_window_event(self, window_id, &event);
                let mut actions: Vec<HostAction> = Vec::new();
                if let Some(invocation) = call {
                    actions.push(HostAction::Call(invocation));
                    assert(actions_view(actions@) =~= seq![HostActionView::Call(invocation@)]);
                } else {
                    assert(actions_view(actions@) =~= seq![]);
                }
                actions
            },
            _ => {
                let actions: Vec<HostAction> = Vec::new();
                assert(actions_view(actions@) =~= seq![]);
                actions
            },
        };
        if self.should_quit || self.windows.is_empty() {
            control_flow = WryEventLoopControlFlow::Exit;
        } else {
            control_flow = WryEventLoopControlFlow::Wait;
        }
        LoopStep { actions, control_flow }
    }

    /// Takes the host's answer to a request to close a window, and says
    /// whether the loop goes on.
    pub fn finish_close(&mut self, window_id: WindowId, allowed: bool) -> (control_flow:
        WryEventLoopControlFlow)
        ensures
            final(self)@ == after_close_reply(old(self)@, window_id, allowed),
            control_flow == flow_in(final(self)@),
    {
        broadcast use vstd::std_specs::hash::group_hash_axioms;

        if allowed {
            self.windows.remove(&window_id.raw);
            assert(!old(self).windows@.contains_key(window_id.raw) ==> self.windows@ =~= old(self).windows@);
        } else {
            let found = match self.windows.get(&window_id.raw) {
                Some(state) => Some(*state),
                None => None,
            };
            if let Some(state) = found {
                self.windows.insert(
                    window_id.raw,
                    WindowState { lifecycle: WindowLifecycle::Live, ..state },
                );
            }
        }
        if self.should_quit || self.windows.is_empty() {
            WryEventLoopControlFlow::Exit
        } else {
            WryEventLoopControlFlow::Wait
        }
    }
}

/// Handle user events (from other threads).
pub fn handle_user_event(
    state: &mut AppState,
    event: UserEvent,
    control_flow: &mut WryEventLoopControlFlow,
) -> (actions: Vec<HostAction>)
    ensures
        final(state)@ == after_user_event(old(state)@, event),
        actions_view(actions@) == user_event_actions(old(state)@, event),
        *final(control_flow) == user_event_flow(*old(control_flow), event),
{
    broadcast use vstd::std_specs::hash::group_hash_axioms;

    let mut actions: Vec<HostAction> = Vec::new();
    match event {
        UserEvent::Quit => {
            state.should_quit = true;
            *control_flow = WryEventLoopControlFlow::Exit;
        },
        UserEvent::InvokeCallback { callback, user_data, completion } => {
            actions.push(HostAction::Call(Invocation::Invoke { callback, user_data }));
            if let Some(waiter) = completion {
                actions.push(HostAction::Signal { completion: waiter });
            }
        },
        UserEvent::WebViewMessage { window_id, message } => {
            let has_webview = match state.windows.get(&window_id.raw) {
                Some(window) => window.has_webview,
                None => false,
            };
            if has_webview {
                let quoted = debug_quote(message.as_str());
                let script = script_for_quoted(quoted.as_str());
                actions.push(HostAction::EvaluateScript { window_id, script });
            }
        },
        UserEvent::DestroyWindow(window_id) => {
            state.windows.remove(&window_id.raw);
        },
    }
    assert(actions_view(actions@) =~= user_event_actions(old(state)@, event));
    actions
}

/// Handle window events.
pub fn handle_window_event(state: &mut AppState, window_id: WindowId, event: &WindowChange) -> (call:
    Option<Invocation>)
    ensures
        final(state)@ == after_window_event(old(state)@, window_id, *event),
        call == window_event_call(old(state)@, window_id, *event),
{
    broadcast use vstd::std_specs::hash::group_hash_axioms;

    let found = match state.windows.get(&window_id.raw) {
        Some(window) => Some(*window),
        None => None,
    };
    let window = match found {
        Some(window) => window,
        None => {
            return None;
        },
    };
    match event {
        WindowChange::CloseRequested => {
            let call = window.callbacks.call_closing();
            if call.is_some() {
                state.windows.insert(
                    window_id.raw,
                    WindowState { lifecycle: WindowLifecycle::CloseRequested, ..window },
                );
            } else {
                state.windows.remove(&window_id.raw);
            }
            call
        },
        WindowChange::Resized { width, height } => window.callbacks.call_resized(*width, *height),
        WindowChange::Moved { x, y } => window.callbacks.call_moved(*x, *y),
        WindowChange::Focused(focused) => window.callbacks.call_focus(*focused),
        _ => None,
    }
}

/// Initialize the application. The caller says whether the platform's
/// toolkit could be initialized: without it there is no application, and the
/// error cell says so.
pub fn wry_app_create(toolkit_ready: bool, errors: &mut LastError) -> (app: Option<AppState>)
    ensures
        toolkit_ready ==> final(errors)@ == old(errors)@,
        toolkit_ready ==> (app matches Some(state) && state@ == (AppView {
            phase: LoopPhase::Created,
            pending: Seq::empty(),
            windows: Map::empty(),
            protocols: Map::empty(),
            should_quit: false,
        })),
        !toolkit_ready ==> app is None && final(errors)@ == stored_message(
            "Failed to initialize GTK"@,
        ),
{
    if !toolkit_ready {
        set_last_error(errors, "Failed to initialize GTK");
        return None;
    }
    match AppState::new() {
        Ok(state) => Some(state),
        Err(reason) => {
            let mut message = "Failed to create app: ".to_owned();
            message.append(reason.as_str());
            set_last_error(errors, message.as_str());
            None
        },
    }
}

/// Destroy app and free resources. On a null handle nothing happens. An
/// application must not be destroyed while its loop runs.
pub fn wry_app_destroy(app: Option<AppState>)
    requires
        app matches Some(state) ==> state@.phase != LoopPhase::Running,
{
}

/// The message that reports the code with which the loop came back.
pub open spec fn exit_message(exit_code: i32) -> Seq<char> {
    "Event loop exited with code: "@ + signed_decimal_text(exit_code as int)
}

/// Takes the event loop of an application to run it. The loop can be taken
/// once: on a null handle, and on an application whose loop is running or
/// has stopped, the call fails and says why.
pub fn wry_app_run_start(app: Option<&mut AppState>, errors: &mut LastError) -> (started: Result<
    (),
    WryResult,
>)
    ensures
        match app {
            Some(state) => if state@.phase == LoopPhase::Created {
                &&& started is Ok
                &&& final(state)@ == (AppView { phase: LoopPhase::Running, ..state@ })
                &&& final(errors)@ == old(errors)@
            } else {
                &&& started == Err::<(), WryResult>(
                    WryResult {
                        success: false,
                        error_code: WryErrorCode::EventLoopError.spec_code(),
                    },
                )
                &&& final(state)@ == state@
                &&& final(errors)@ == stored_message("Event loop already consumed or running"@)
            },
            None => {
                &&& started == Err::<(), WryResult>(
                    WryResult {
                        success: false,
                        error_code: WryErrorCode::InvalidHandle.spec_code(),
                    },
                )
                &&& final(errors)@ == stored_message("Null app handle"@)
            },
        },
{
    match app {
        Some(state) => match state.phase {
            LoopPhase::Created => {
                state.phase = LoopPhase::Running;
                Ok(())
            },
            _ => Err(
                error_result(
                    errors,
                    WryErrorCode::EventLoopError,
                    "Event loop already consumed or running",
                ),
            ),
        },
        None => Err(error_result(errors, WryErrorCode::InvalidHandle, "Null app handle")),
    }
}

/// Records that the event loop came back. The loop is stopped for good, and
/// work that was queued and never arrived is dropped. A loop that came back
/// with a code other than zero has failed.
pub fn wry_app_run_finish(state: &mut AppState, errors: &mut LastError, exit_code: i32) -> (result:
    WryResult)
    ensures
        final(state)@ == (AppView {
            phase: LoopPhase::Stopped,
            pending: Seq::empty(),
            ..old(state)@
        }),
        exit_code == 0 ==> result == (WryResult { success: true, error_code: 0 }) && final(errors)@ == old(errors)@,
        exit_code != 0 ==> result == (WryResult {
            success: false,
            error_code: WryErrorCode::EventLoopError.spec_code(),
        }) && final(errors)@ == stored_message(exit_message(exit_code)),
{
    state.phase = LoopPhase::Stopped;
    state.pending.clear();
    if exit_code != 0 {
        let mut message = "Event loop exited with code: ".to_owned();
        append_signed_decimal(&mut message, exit_code);
        error_result(errors, WryErrorCode::EventLoopError, message.as_str())
    } else {
        WryResult::ok()
    }
}

/// Request app to quit. On a null handle nothing happens.
pub fn wry_app_quit(app: Option<&mut AppState>)
    ensures
        app matches Some(state) ==> final(state)@ == after_send(
            AppView { should_quit: true, ..state@ },
            UserEvent::Quit,
        ),
{
    if let Some(state) = app {
        state.quit();
    }
}

/// The closing callback decides whether a window closes. While the host is
/// being asked, the window is still there. If the answer is no, the window
/// stays in the registry, live, with its callbacks as they were. If the
/// answer is yes, the window is removed. A window without a closing callback
/// is removed without asking, which is what a yes would have led to.
pub proof fn lemma_closing_callback_gates_close(state: AppView, window_id: WindowId)
    requires
        state.windows.contains_key(window_id.raw),
    ensures
        ({
            let window = state.windows[window_id.raw];
            let asked = after_window_event(state, window_id, WindowChange::CloseRequested);
            let call = window_event_call(state, window_id, WindowChange::CloseRequested);
            if window.callbacks.closing is Some {
                &&& call == window.callbacks.closing_call()
                &&& call is Some
                &&& asked.windows.contains_key(window_id.raw)
                &&& after_close_reply(asked, window_id, false).windows == state.windows.insert(
                    window_id.raw,
                    WindowState { lifecycle: WindowLifecycle::Live, ..window },
                )
                &&& after_close_reply(asked, window_id, true).windows == state.windows.remove(
                    window_id.raw,
                )
            } else {
                &&& call is None
                &&& asked.windows == state.windows.remove(window_id.raw)
            }
        }),
{
    let window = state.windows[window_id.raw];
    let asked = after_window_event(state, window_id, WindowChange::CloseRequested);
    if window.callbacks.closing is Some {
        assert(after_close_reply(asked, window_id, false).windows =~= state.windows.insert(
            window_id.raw,
            WindowState { lifecycle: WindowLifecycle::Live, ..window },
        ));
        assert(after_close_reply(asked, window_id, true).windows =~= state.windows.remove(
            window_id.raw,
        ));
    }
}

/// A window that is in the registry is found under its identifier, and what
/// is found is what was last put there.
pub proof fn lemma_window_is_reachable_until_removed(
    state: AppView,
    window: WindowState,
    other: WindowId,
)
    ensures
        state.windows.insert(window.id.raw, window).contains_key(window.id.raw),
        state.windows.insert(window.id.raw, window)[window.id.raw] == window,
        !state.windows.remove(window.id.raw).contains_key(window.id.raw),
        other.raw != window.id.raw ==> (state.windows.remove(other.raw).contains_key(window.id.raw)
            <==> state.windows.contains_key(window.id.raw)),
{
}

/// A thread that waits for its call is woken after the call, not before:
/// for work that carries a completion, the loop's thread first makes the
/// call and then signals the completion, and does nothing else.
pub proof fn lemma_waiter_is_woken_after_its_call(
    state: AppView,
    callback: CallbackAddress,
    user_data: UserData,
    completion: usize,
)
    ensures
        user_event_actions(
            state,
            UserEvent::InvokeCallback { callback, user_data, completion: Some(completion) },
        ) == seq![
            HostActionView::Call(InvocationView::Invoke { callback, user_data }),
            HostActionView::Signal { completion },
        ],
{
}

} // verus!
