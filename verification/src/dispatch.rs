//! Handing work to the thread that runs the event loop.
//!
//! Any thread may queue a foreign call. The loop's thread makes the calls
//! one at a time, in the order in which they were queued, each one once. A
//! call that is queued after the loop has stopped is dropped, and the thread
//! that wanted it finds the reason in its error cell.

use vstd::prelude::*;
use crate::app::{
    after_send, after_user_event, flow_in, user_event_actions, AppState, AppView, HostActionView,
    LoopPhase, UserEvent,
};
use crate::callbacks::InvocationView;
use crate::error::{set_last_error, stored_message, LastError};
use crate::types::{CallbackAddress, UserData, WryEventLoopControlFlow};

verus! {

/// Queues a foreign call for the loop's thread and returns at once. Failure
/// shows in the error cell alone.
pub fn wry_invoke(
    app: Option<&mut AppState>,
    errors: &mut LastError,
    callback: CallbackAddress,
    user_data: UserData,
)
    ensures
        match app {
            Some(state) => {
                &&& final(state)@ == after_send(
                    state@,
                    UserEvent::InvokeCallback { callback, user_data, completion: None },
                )
                &&& final(errors)@ == (if state@.phase == LoopPhase::Stopped {
                    stored_message("Failed to queue callback - event loop may not be running"@)
                } else {
                    old(errors)@
                })
            },
            None => final(errors)@ == stored_message("Null app handle"@),
        },
{
    match app {
        Some(state) => {
            let work = UserEvent::InvokeCallback { callback, user_data, completion: None };
            if state.send_event(work).is_err() {
                set_last_error(errors, "Failed to queue callback - event loop may not be running");
            }
        },
        None => {
            set_last_error(errors, "Null app handle");
        },
    }
}

/// Queues a foreign call for the loop's thread, for a thread that will wait
/// until the call has returned. The result says whether there is anything to
/// wait for: the caller blocks on `completion` exactly when it is true. The
/// loop's thread wakes the waiter after the call, so the thread that runs
/// the loop must not wait itself.
pub fn wry_invoke_sync(
    app: Option<&mut AppState>,
    errors: &mut LastError,
    callback: CallbackAddress,
    user_data: UserData,
    completion: usize,
) -> (queued: bool)
    ensures
        match app {
            Some(state) => {
                &&& queued == (state@.phase != LoopPhase::Stopped)
                &&& final(state)@ == after_send(
                    state@,
                    UserEvent::InvokeCallback { callback, user_data, completion: Some(completion) },
                )
                &&& final(errors)@ == (if state@.phase == LoopPhase::Stopped {
                    stored_message("Failed to queue callback - event loop may not be running"@)
                } else {
                    old(errors)@
                })
            },
            None => !queued && final(errors)@ == stored_message("Null app handle"@),
        },
{
    match app {
        Some(state) => {
            let work = UserEvent::InvokeCallback {
                callback,
                user_data,
                completion: Some(completion),
            };
            if state.send_event(work).is_err() {
                set_last_error(errors, "Failed to queue callback - event loop may not be running");
                false
            } else {
                true
            }
        },
        None => {
            set_last_error(errors, "Null app handle");
            false
        },
    }
}

/// The work that [`wry_invoke`] queues for a call.
pub open spec fn invoke_work(call: (CallbackAddress, UserData)) -> UserEvent {
    UserEvent::InvokeCallback { callback: call.0, user_data: call.1, completion: None }
}

/// The foreign call that the loop's thread makes for a queued call.
pub open spec fn invoke_action(call: (CallbackAddress, UserData)) -> HostActionView {
    HostActionView::Call(InvocationView::Invoke { callback: call.0, user_data: call.1 })
}

/// The state after each of `works` was sent to the loop, first to last.
pub open spec fn after_sends(state: AppView, works: Seq<UserEvent>) -> AppView
    decreases works.len(),
{
    if works.len() == 0 {
        state
    } else {
        after_send(after_sends(state, works.drop_last()), works.last())
    }
}

/// Everything that the loop's thread does while it works off the queue: it
/// takes the oldest work out, handles it, and goes on with the next unless
/// the loop is to end.
pub open spec fn drain_actions(state: AppView) -> Seq<HostActionView>
    decreases state.pending.len(),
{
    if state.phase != LoopPhase::Running || state.pending.len() == 0 {
        seq![]
    } else {
        let work = state.pending[0];
        let taken = AppView { pending: state.pending.skip(1), ..state };
        let handled = after_user_event(taken, work);
        if flow_in(handled) == WryEventLoopControlFlow::Exit {
            user_event_actions(taken, work)
        } else {
            user_event_actions(taken, work) + drain_actions(handled)
        }
    }
}

proof fn lemma_sends_append(state: AppView, works: Seq<UserEvent>)
    requires
        state.phase != LoopPhase::Stopped,
    ensures
        after_sends(state, works) == (AppView { pending: state.pending + works, ..state }),
    decreases works.len(),
{
    if works.len() == 0 {
        assert(state.pending + works =~= state.pending);
    } else {
        lemma_sends_append(state, works.drop_last());
        assert((state.pending + works.drop_last()).push(works.last()) =~= state.pending + works);
    }
}

proof fn lemma_drain_runs_each_call(state: AppView, calls: Seq<(CallbackAddress, UserData)>)
    requires
        state.phase == LoopPhase::Running,
        !state.should_quit,
        !state.windows.is_empty(),
        state.pending == calls.map_values(|call| invoke_work(call)),
    ensures
        drain_actions(state) == calls.map_values(|call| invoke_action(call)),
    decreases calls.len(),
{
    if calls.len() == 0 {
        assert(drain_actions(state) =~= calls.map_values(|call| invoke_action(call)));
    } else {
        let work = state.pending[0];
        assert(work == invoke_work(calls[0]));
        let taken = AppView { pending: state.pending.skip(1), ..state };
        let rest = calls.skip(1);
        assert(taken.pending =~= rest.map_values(|call| invoke_work(call)));
        assert(after_user_event(taken, work) == taken);
        lemma_drain_runs_each_call(taken, rest);
        assert(user_event_actions(taken, work) =~= seq![invoke_action(calls[0])]);
        assert(seq![invoke_action(calls[0])] + rest.map_values(|call| invoke_action(call))
            =~= calls.map_values(|call| invoke_action(call)));
    }
}

/// Whether the loop outlasts its queue: it works off everything that is
/// queued, and nothing of it ends the loop. A loop ends once the application
/// is quitting or its last window is gone.
pub open spec fn outlasts_queue(state: AppView) -> bool
    decreases state.pending.len(),
{
    if state.pending.len() == 0 {
        flow_in(state) != WryEventLoopControlFlow::Exit
    } else {
        let work = state.pending[0];
        let taken = AppView { pending: state.pending.skip(1), ..state };
        let handled = after_user_event(taken, work);
        flow_in(handled) != WryEventLoopControlFlow::Exit && outlasts_queue(handled)
    }
}

/// Every call that is queued while the loop runs is made exactly once, and
/// the calls are made in the order in which they were queued, after the work
/// that was queued before them. However many calls are queued, and by
/// whichever threads: the queue afterwards holds one unit of work for each
/// behind what it held, oldest first, and working the queue off does what
/// the earlier work asks for, then makes one foreign call for each of the
/// calls, one after the other, and does nothing else.
pub proof fn lemma_each_queued_call_runs_once_in_order(
    state: AppView,
    calls: Seq<(CallbackAddress, UserData)>,
)
    requires
        state.phase == LoopPhase::Running,
        outlasts_queue(state),
    ensures
        after_sends(state, calls.map_values(|call| invoke_work(call))).pending == state.pending
            + calls.map_values(|call| invoke_work(call)),
        drain_actions(after_sends(state, calls.map_values(|call| invoke_work(call))))
            == drain_actions(state) + calls.map_values(|call| invoke_action(call)),
    decreases state.pending.len(),
{
    let works = calls.map_values(|call| invoke_work(call));
    let made = calls.map_values(|call| invoke_action(call));
    let sent = after_sends(state, works);
    lemma_sends_append(state, works);
    if state.pending.len() == 0 {
        assert(state.pending + works =~= works);
        lemma_drain_runs_each_call(sent, calls);
        assert(drain_actions(state) + made =~= made);
    } else {
        let work = state.pending[0];
        let taken = AppView { pending: state.pending.skip(1), ..state };
        let handled = after_user_event(taken, work);
        let taken_sent = AppView { pending: sent.pending.skip(1), ..sent };
        let handled_sent = after_user_event(taken_sent, work);
        assert(sent.pending[0] == work);
        assert(sent.pending.skip(1) =~= state.pending.skip(1) + works);
        assert(handled_sent == (AppView { pending: handled.pending + works, ..handled }));
        lemma_sends_append(handled, works);
        lemma_each_queued_call_runs_once_in_order(handled, calls);
        assert(user_event_actions(taken_sent, work) == user_event_actions(taken, work));
        assert(drain_actions(sent) == user_event_actions(taken, work) + drain_actions(
            handled_sent,
        ));
        assert(user_event_actions(taken, work) + (drain_actions(handled) + made) =~= (
        user_event_actions(taken, work) + drain_actions(handled)) + made);
    }
}

/// Once the loop has stopped, nothing is queued any more: sending leaves the
/// queue as it is, so work that comes too late is never run.
pub proof fn lemma_stopped_loop_takes_no_work(state: AppView, work: UserEvent)
    requires
        state.phase == LoopPhase::Stopped,
    ensures
        after_send(state, work) == state,
        drain_actions(state) == Seq::<HostActionView>::empty(),
{
}

} // verus!
