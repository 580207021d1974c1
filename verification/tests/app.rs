use wry_ffi::app::{
    handle_user_event, handle_window_event, script_for_quoted, wry_app_quit, wry_app_run_finish,
    wry_app_run_start, AppState, HostAction, LoopEvent, LoopPhase, UserEvent, WindowChange,
};
use wry_ffi::callbacks::{CallbackRegistry, Invocation};
use wry_ffi::dispatch::{wry_invoke, wry_invoke_sync};
use wry_ffi::error::{get_last_error_ptr, LastError};
use wry_ffi::protocol::{wry_register_protocol, ProtocolHandler, ProtocolTable};
use wry_ffi::types::{WindowId, WryEventLoopControlFlow, WryResult};
use wry_ffi::window::{
    window_plan, wry_window_set_closing_callback, wry_window_set_focus_callback,
    wry_window_set_moved_callback, wry_window_set_resized_callback, WindowLifecycle,
    WindowState, WryWindowConfig,
};

const HANDLE: usize = 0x1000;
const DENY: usize = 0xd0;
const ALLOW: usize = 0xa0;

fn host_answer(call: &Invocation) -> bool {
    match call {
        Invocation::Closing { callback, .. } => *callback == ALLOW,
        _ => true,
    }
}

fn new_app() -> AppState {
    AppState::new().unwrap()
}

fn close_request(id: WindowId) -> LoopEvent {
    LoopEvent::Window { window_id: id, event: WindowChange::CloseRequested }
}

#[test]
fn closing_callback_decides_whether_the_window_goes() {
    let mut errors = LastError::new();
    let mut registry = CallbackRegistry::new();
    let mut app = new_app();
    assert_eq!(app.phase(), LoopPhase::Created);

    let plan = window_plan(Some(&WryWindowConfig {
        width: 400,
        height: 300,
        title: Some(b"Test".to_vec()),
    }));
    assert_eq!(plan.title.as_deref(), Some("Test"));
    assert_eq!(plan.inner_size, Some((400, 300)));

    let id = WindowId { raw: 1 };
    app.add_window(WindowState::new(id));
    wry_window_set_closing_callback(app.get_window_mut(id), &mut registry, HANDLE, DENY, 7);
    assert_eq!(wry_app_run_start(Some(&mut app), &mut errors), Ok(()));
    assert_eq!(app.phase(), LoopPhase::Running);

    let step = app.process_event(close_request(id));
    assert_eq!(step.control_flow, WryEventLoopControlFlow::Wait);
    assert_eq!(
        step.actions,
        vec![HostAction::Call(Invocation::Closing {
            callback: DENY,
            window: HANDLE,
            user_data: 7,
        })]
    );
    assert_eq!(app.get_window(id).unwrap().lifecycle, WindowLifecycle::CloseRequested);
    let answer = match &step.actions[0] {
        HostAction::Call(call) => host_answer(call),
        _ => unreachable!(),
    };
    assert!(!answer);
    assert_eq!(app.finish_close(id, answer), WryEventLoopControlFlow::Wait);
    assert_eq!(app.window_count(), 1);
    let window = app.get_window(id).unwrap();
    assert_eq!(window.lifecycle, WindowLifecycle::Live);
    assert_eq!(window.callbacks.closing.unwrap().callback, DENY);

    wry_window_set_closing_callback(app.get_window_mut(id), &mut registry, HANDLE, ALLOW, 8);
    let step = app.process_event(close_request(id));
    assert_eq!(
        step.actions,
        vec![HostAction::Call(Invocation::Closing {
            callback: ALLOW,
            window: HANDLE,
            user_data: 8,
        })]
    );
    let answer = match &step.actions[0] {
        HostAction::Call(call) => host_answer(call),
        _ => unreachable!(),
    };
    assert!(answer);
    assert_eq!(app.finish_close(id, answer), WryEventLoopControlFlow::Exit);
    assert!(app.get_window(id).is_none());
    assert_eq!(app.window_count(), 0);

    let result = wry_app_run_finish(&mut app, &mut errors, 0);
    assert_eq!(result, WryResult { success: true, error_code: 0 });
    assert_eq!(app.phase(), LoopPhase::Stopped);
    assert_eq!(get_last_error_ptr(&errors), None);
}

#[test]
fn window_without_closing_callback_closes_at_once() {
    let mut app = new_app();
    let first = WindowId { raw: 1 };
    let second = WindowId { raw: 2 };
    app.add_window(WindowState::new(first));
    app.add_window(WindowState::new(second));
    let step = app.process_event(close_request(first));
    assert!(step.actions.is_empty());
    assert_eq!(step.control_flow, WryEventLoopControlFlow::Wait);
    assert!(app.get_window(first).is_none());
    assert!(app.get_window(second).is_some());
    let step = app.process_event(close_request(second));
    assert!(step.actions.is_empty());
    assert_eq!(step.control_flow, WryEventLoopControlFlow::Exit);
    assert_eq!(app.window_count(), 0);
}

#[test]
fn close_request_for_an_unknown_window_changes_nothing() {
    let mut app = new_app();
    app.add_window(WindowState::new(WindowId { raw: 1 }));
    let call = handle_window_event(&mut app, WindowId { raw: 9 }, &WindowChange::CloseRequested);
    assert_eq!(call, None);
    assert_eq!(app.window_count(), 1);
    assert_eq!(app.finish_close(WindowId { raw: 9 }, true), WryEventLoopControlFlow::Wait);
    assert_eq!(app.window_count(), 1);
}

#[test]
fn window_events_reach_the_registered_callbacks() {
    let mut registry = CallbackRegistry::new();
    let mut app = new_app();
    let id = WindowId { raw: 5 };
    app.add_window(WindowState::new(id));
    wry_window_set_resized_callback(app.get_window_mut(id), &mut registry, HANDLE, 0x11, 1);
    wry_window_set_moved_callback(app.get_window_mut(id), &mut registry, HANDLE, 0x22, 2);
    wry_window_set_focus_callback(app.get_window_mut(id), &mut registry, HANDLE, 0x33, 3);

    assert_eq!(
        handle_window_event(&mut app, id, &WindowChange::Resized { width: 800, height: 600 }),
        Some(Invocation::Resized {
            callback: 0x11,
            window: HANDLE,
            width: 800,
            height: 600,
            user_data: 1,
        })
    );
    assert_eq!(
        handle_window_event(&mut app, id, &WindowChange::Moved { x: -3, y: 4 }),
        Some(Invocation::Moved { callback: 0x22, window: HANDLE, x: -3, y: 4, user_data: 2 })
    );
    assert_eq!(
        handle_window_event(&mut app, id, &WindowChange::Focused(true)),
        Some(Invocation::Focus { callback: 0x33, window: HANDLE, focused: true, user_data: 3 })
    );
    assert_eq!(handle_window_event(&mut app, id, &WindowChange::Other), None);
    assert_eq!(
        handle_window_event(&mut app, WindowId { raw: 6 }, &WindowChange::Focused(true)),
        None
    );
    assert_eq!(app.window_count(), 1);
}

#[test]
fn events_without_a_callback_lead_to_no_call() {
    let mut app = new_app();
    let id = WindowId { raw: 5 };
    app.add_window(WindowState::new(id));
    let step = app.process_event(LoopEvent::Window {
        window_id: id,
        event: WindowChange::Resized { width: 1, height: 1 },
    });
    assert!(step.actions.is_empty());
    assert_eq!(step.control_flow, WryEventLoopControlFlow::Wait);
    for event in [LoopEvent::Init, LoopEvent::LoopDestroyed, LoopEvent::Other] {
        let step = app.process_event(event);
        assert!(step.actions.is_empty());
        assert_eq!(step.control_flow, WryEventLoopControlFlow::Wait);
    }
}

#[test]
fn loop_without_windows_exits() {
    let mut app = new_app();
    let step = app.process_event(LoopEvent::Init);
    assert_eq!(step.control_flow, WryEventLoopControlFlow::Exit);
}

#[test]
fn event_loop_runs_at_most_once() {
    let mut errors = LastError::new();
    let mut app = new_app();
    assert_eq!(wry_app_run_start(Some(&mut app), &mut errors), Ok(()));
    assert_eq!(
        wry_app_run_start(Some(&mut app), &mut errors),
        Err(WryResult { success: false, error_code: 4 })
    );
    assert_eq!(get_last_error_ptr(&errors), Some("Event loop already consumed or running"));
    assert_eq!(app.phase(), LoopPhase::Running);
    wry_app_run_finish(&mut app, &mut errors, 0);
    assert_eq!(
        wry_app_run_start(Some(&mut app), &mut errors),
        Err(WryResult { success: false, error_code: 4 })
    );
    assert_eq!(app.phase(), LoopPhase::Stopped);
}

#[test]
fn null_app_handle_fails_every_call() {
    let mut errors = LastError::new();
    assert_eq!(
        wry_app_run_start(None, &mut errors),
        Err(WryResult { success: false, error_code: 1 })
    );
    assert_eq!(get_last_error_ptr(&errors), Some("Null app handle"));

    let mut errors = LastError::new();
    wry_invoke(None, &mut errors, 1, 2);
    assert_eq!(get_last_error_ptr(&errors), Some("Null app handle"));

    let mut errors = LastError::new();
    assert!(!wry_invoke_sync(None, &mut errors, 1, 2, 3));
    assert_eq!(get_last_error_ptr(&errors), Some("Null app handle"));

    let mut errors = LastError::new();
    assert_eq!(
        wry_register_protocol(None, &mut errors, Some(b"app".as_slice()), 1, 2),
        WryResult { success: false, error_code: 1 }
    );
    assert_eq!(get_last_error_ptr(&errors), Some("Null app handle"));

    wry_app_quit(None);
}

#[test]
fn failed_loop_reports_its_exit_code() {
    for (code, message) in [
        (3, "Event loop exited with code: 3"),
        (-1, "Event loop exited with code: -1"),
        (i32::MAX, "Event loop exited with code: 2147483647"),
        (i32::MIN, "Event loop exited with code: -2147483648"),
    ] {
        let mut errors = LastError::new();
        let mut app = new_app();
        wry_app_run_start(Some(&mut app), &mut errors).unwrap();
        assert_eq!(
            wry_app_run_finish(&mut app, &mut errors, code),
            WryResult { success: false, error_code: 4 }
        );
        assert_eq!(get_last_error_ptr(&errors), Some(message));
        assert_eq!(app.phase(), LoopPhase::Stopped);
    }
}

#[test]
fn quit_marks_the_app_and_wakes_the_loop() {
    let mut errors = LastError::new();
    let mut app = new_app();
    app.add_window(WindowState::new(WindowId { raw: 1 }));
    wry_app_run_start(Some(&mut app), &mut errors).unwrap();
    wry_app_quit(Some(&mut app));
    assert!(app.should_quit());
    assert_eq!(app.next_user_event(), Some(UserEvent::Quit));
    let step = app.process_event(LoopEvent::User(UserEvent::Quit));
    assert!(step.actions.is_empty());
    assert_eq!(step.control_flow, WryEventLoopControlFlow::Exit);
}

#[test]
fn quit_event_sets_the_flow_to_exit() {
    let mut app = new_app();
    app.add_window(WindowState::new(WindowId { raw: 1 }));
    let mut flow = WryEventLoopControlFlow::Wait;
    let actions = handle_user_event(&mut app, UserEvent::Quit, &mut flow);
    assert!(actions.is_empty());
    assert_eq!(flow, WryEventLoopControlFlow::Exit);
    assert!(app.should_quit());

    let mut flow = WryEventLoopControlFlow::Poll;
    handle_user_event(&mut app, UserEvent::DestroyWindow(WindowId { raw: 9 }), &mut flow);
    assert_eq!(flow, WryEventLoopControlFlow::Poll);
}

#[test]
fn destroy_request_removes_without_asking() {
    let mut registry = CallbackRegistry::new();
    let mut app = new_app();
    let id = WindowId { raw: 1 };
    app.add_window(WindowState::new(id));
    wry_window_set_closing_callback(app.get_window_mut(id), &mut registry, HANDLE, DENY, 0);
    let step = app.process_event(LoopEvent::User(UserEvent::DestroyWindow(id)));
    assert!(step.actions.is_empty());
    assert_eq!(step.control_flow, WryEventLoopControlFlow::Exit);
    assert!(app.get_window(id).is_none());
}

#[test]
fn message_for_a_webview_becomes_a_script() {
    let mut app = new_app();
    let id = WindowId { raw: 1 };
    let mut window = WindowState::new(id);
    window.has_webview = true;
    app.add_window(window);
    let message = "{\"event\":\"say \\\"hi\\\"\",\"n\":\"\u{e9}\"}".to_string();
    let step = app.process_event(LoopEvent::User(UserEvent::WebViewMessage {
        window_id: id,
        message: message.clone(),
    }));
    assert_eq!(
        step.actions,
        vec![HostAction::EvaluateScript {
            window_id: id,
            script: format!(
                "if(window.tauri && window.tauri.__receive) {{ window.tauri.__receive({:?}); }}",
                message
            ),
        }]
    );
    match &step.actions[0] {
        HostAction::EvaluateScript { script, .. } => {
            assert!(script.contains("__receive(\"{\\\"event\\\""));
            assert!(!script.contains(&format!("__receive({})", message)));
        }
        _ => unreachable!(),
    }
}

#[test]
fn message_without_a_webview_is_dropped() {
    let mut app = new_app();
    let id = WindowId { raw: 1 };
    app.add_window(WindowState::new(id));
    let step = app.process_event(LoopEvent::User(UserEvent::WebViewMessage {
        window_id: id,
        message: "x".to_string(),
    }));
    assert!(step.actions.is_empty());
    let step = app.process_event(LoopEvent::User(UserEvent::WebViewMessage {
        window_id: WindowId { raw: 2 },
        message: "x".to_string(),
    }));
    assert!(step.actions.is_empty());
}

#[test]
fn window_is_changed_through_its_mutable_handle() {
    let mut app = new_app();
    let id = WindowId { raw: 3 };
    app.add_window(WindowState::new(id));
    assert!(app.get_window_mut(WindowId { raw: 4 }).is_none());
    {
        let window = app.get_window_mut(id).unwrap();
        window.has_webview = true;
        window.callbacks.set_focus(1, 2);
    }
    let window = app.get_window(id).unwrap();
    assert!(window.has_webview);
    assert_eq!(window.callbacks.focus.unwrap().user_data, 2);
    assert_eq!(app.window_count(), 1);
}

#[test]
fn queued_calls_run_once_each_in_order() {
    let mut errors = LastError::new();
    let mut app = new_app();
    app.add_window(WindowState::new(WindowId { raw: 1 }));
    wry_app_run_start(Some(&mut app), &mut errors).unwrap();
    let count = 50;
    for n in 0..count {
        wry_invoke(Some(&mut app), &mut errors, 0x100 + n, n);
    }
    assert_eq!(app.pending_len(), count);
    assert_eq!(get_last_error_ptr(&errors), None);
    let mut made = Vec::new();
    while let Some(work) = app.next_user_event() {
        let step = app.process_event(LoopEvent::User(work));
        assert_eq!(step.control_flow, WryEventLoopControlFlow::Wait);
        made.extend(step.actions);
    }
    let expected: Vec<HostAction> = (0..count)
        .map(|n| HostAction::Call(Invocation::Invoke { callback: 0x100 + n, user_data: n }))
        .collect();
    assert_eq!(made, expected);
    assert_eq!(app.pending_len(), 0);
    assert_eq!(app.next_user_event(), None);
}

#[test]
fn work_queued_before_the_run_arrives_once_it_runs() {
    let mut errors = LastError::new();
    let mut app = new_app();
    wry_invoke(Some(&mut app), &mut errors, 1, 2);
    assert_eq!(app.pending_len(), 1);
    assert_eq!(app.next_user_event(), None);
    wry_app_run_start(Some(&mut app), &mut errors).unwrap();
    assert_eq!(
        app.next_user_event(),
        Some(UserEvent::InvokeCallback { callback: 1, user_data: 2, completion: None })
    );
}

#[test]
fn work_for_a_stopped_loop_is_dropped_with_an_error() {
    let mut errors = LastError::new();
    let mut app = new_app();
    wry_app_run_start(Some(&mut app), &mut errors).unwrap();
    wry_invoke(Some(&mut app), &mut errors, 1, 2);
    wry_app_run_finish(&mut app, &mut errors, 0);
    assert_eq!(app.pending_len(), 0);
    assert_eq!(app.next_user_event(), None);
    assert_eq!(get_last_error_ptr(&errors), None);

    wry_invoke(Some(&mut app), &mut errors, 1, 2);
    assert_eq!(app.pending_len(), 0);
    assert_eq!(
        get_last_error_ptr(&errors),
        Some("Failed to queue callback - event loop may not be running")
    );
    let mut errors = LastError::new();
    assert!(!wry_invoke_sync(Some(&mut app), &mut errors, 1, 2, 3));
    assert_eq!(
        get_last_error_ptr(&errors),
        Some("Failed to queue callback - event loop may not be running")
    );
    assert_eq!(
        app.send_event(UserEvent::Quit),
        Err(UserEvent::Quit)
    );
}

#[test]
fn waiter_is_woken_after_its_call() {
    let mut errors = LastError::new();
    let mut app = new_app();
    app.add_window(WindowState::new(WindowId { raw: 1 }));
    wry_app_run_start(Some(&mut app), &mut errors).unwrap();
    assert!(wry_invoke_sync(Some(&mut app), &mut errors, 0xcb, 0xda, 0x51));
    let work = app.next_user_event().unwrap();
    assert_eq!(
        work,
        UserEvent::InvokeCallback { callback: 0xcb, user_data: 0xda, completion: Some(0x51) }
    );
    let step = app.process_event(LoopEvent::User(work));
    assert_eq!(
        step.actions,
        vec![
            HostAction::Call(Invocation::Invoke { callback: 0xcb, user_data: 0xda }),
            HostAction::Signal { completion: 0x51 },
        ]
    );
    let mut executed = false;
    let mut returned_before_execution = false;
    for action in &step.actions {
        match action {
            HostAction::Call(_) => executed = true,
            HostAction::Signal { .. } => returned_before_execution = !executed,
            _ => unreachable!(),
        }
    }
    assert!(executed);
    assert!(!returned_before_execution);
}

#[test]
fn protocols_are_registered_by_scheme() {
    let mut errors = LastError::new();
    let mut app = new_app();
    assert_eq!(
        wry_register_protocol(Some(&mut app), &mut errors, Some(b"app".as_slice()), 0x10, 0x20),
        WryResult { success: true, error_code: 0 }
    );
    assert_eq!(app.protocol("app"), Some(ProtocolHandler { callback: 0x10, user_data: 0x20 }));
    assert_eq!(app.protocol("App"), None);
    assert_eq!(
        wry_register_protocol(Some(&mut app), &mut errors, Some(b"app".as_slice()), 0x11, 0x21),
        WryResult { success: true, error_code: 0 }
    );
    wry_register_protocol(Some(&mut app), &mut errors, Some(b"res".as_slice()), 0x12, 0x22);
    assert_eq!(app.protocol("app"), Some(ProtocolHandler { callback: 0x11, user_data: 0x21 }));
    assert_eq!(app.protocol("res"), Some(ProtocolHandler { callback: 0x12, user_data: 0x22 }));
    assert_eq!(get_last_error_ptr(&errors), None);
}

#[test]
fn protocol_with_a_bad_scheme_is_refused() {
    let mut app = new_app();
    for scheme in [None, Some([0xff_u8, 0xfe].as_slice())] {
        let mut errors = LastError::new();
        assert_eq!(
            wry_register_protocol(Some(&mut app), &mut errors, scheme, 1, 2),
            WryResult { success: false, error_code: 2 }
        );
        assert_eq!(get_last_error_ptr(&errors), Some("Null or invalid scheme"));
    }
    assert_eq!(app.protocol(""), None);
}

#[test]
fn protocol_table_replaces_and_keeps() {
    let mut table = ProtocolTable::new();
    assert_eq!(table.get("a"), None);
    table.insert("a".to_string(), ProtocolHandler { callback: 1, user_data: 1 });
    table.insert("b".to_string(), ProtocolHandler { callback: 2, user_data: 2 });
    table.insert("a".to_string(), ProtocolHandler { callback: 3, user_data: 3 });
    assert_eq!(table.get("a"), Some(ProtocolHandler { callback: 3, user_data: 3 }));
    assert_eq!(table.get("b"), Some(ProtocolHandler { callback: 2, user_data: 2 }));
    assert_eq!(table.get("c"), None);
}

#[test]
fn app_is_created_only_with_a_toolkit() {
    let mut errors = LastError::new();
    let app = wry_ffi::app::wry_app_create(true, &mut errors).unwrap();
    assert_eq!(app.phase(), LoopPhase::Created);
    assert_eq!(app.window_count(), 0);
    assert_eq!(app.pending_len(), 0);
    assert!(!app.should_quit());
    assert_eq!(get_last_error_ptr(&errors), None);
    wry_ffi::app::wry_app_destroy(Some(app));
    wry_ffi::app::wry_app_destroy(None);

    assert!(wry_ffi::app::wry_app_create(false, &mut errors).is_none());
    assert_eq!(get_last_error_ptr(&errors), Some("Failed to initialize GTK"));
}

#[test]
fn script_stands_around_the_quoted_message() {
    assert_eq!(
        script_for_quoted("\"hi\""),
        "if(window.tauri && window.tauri.__receive) { window.tauri.__receive(\"hi\"); }"
    );
    assert_eq!(
        script_for_quoted(""),
        "if(window.tauri && window.tauri.__receive) { window.tauri.__receive(); }"
    );
}

#[test]
fn calls_run_after_the_work_queued_before_them() {
    let mut errors = LastError::new();
    let mut app = new_app();
    let first = WindowId { raw: 1 };
    let second = WindowId { raw: 2 };
    let mut window = WindowState::new(first);
    window.has_webview = true;
    app.add_window(window);
    app.add_window(WindowState::new(second));
    wry_app_run_start(Some(&mut app), &mut errors).unwrap();
    app.send_event(UserEvent::WebViewMessage { window_id: first, message: "m".to_string() })
        .unwrap();
    app.send_event(UserEvent::DestroyWindow(second)).unwrap();
    wry_invoke(Some(&mut app), &mut errors, 0xa, 1);
    wry_invoke(Some(&mut app), &mut errors, 0xb, 2);
    let mut made = Vec::new();
    while let Some(work) = app.next_user_event() {
        let step = app.process_event(LoopEvent::User(work));
        assert_eq!(step.control_flow, WryEventLoopControlFlow::Wait);
        made.extend(step.actions);
    }
    assert_eq!(
        made,
        vec![
            HostAction::EvaluateScript { window_id: first, script: script_for_quoted("\"m\"") },
            HostAction::Call(Invocation::Invoke { callback: 0xa, user_data: 1 }),
            HostAction::Call(Invocation::Invoke { callback: 0xb, user_data: 2 }),
        ]
    );
    assert_eq!(app.window_count(), 1);
}
