use serde_json::Number;
use wry_ffi::events::{
    event_value, modifiers_payload, serialize_event, serialize_tray_event,
    serialize_window_event, ElementState, Event, ModifiersState, MouseButton, MouseScrollDelta,
    WindowEvent,
};
use wry_ffi::types::{
    TrayIconEvent, TrayMouseButton, TrayMouseButtonState, TrayRect, WryTrayEvent,
    WryTrayEventKind, WryTrayRect, WryUserEvent,
};

fn window(event: WindowEvent) -> String {
    serialize_event(&Event::WindowEvent { window_id: "WindowId(1)".to_string(), event })
}

fn double(value: f64) -> Option<Number> {
    Number::from_f64(value)
}

#[test]
fn resize_event_carries_exact_size() {
    let text = window(WindowEvent::Resized { width: double(800.0), height: double(600.0) });
    let parsed: serde_json::Value = serde_json::from_str(&text).unwrap();
    assert_eq!(parsed["type"], "window-resized");
    assert_eq!(parsed["window_id"], "WindowId(1)");
    assert_eq!(parsed["size"]["width"].as_f64(), Some(800.0));
    assert_eq!(parsed["size"]["height"].as_f64(), Some(600.0));
    assert_eq!(
        text,
        "{\"size\":{\"height\":600.0,\"width\":800.0},\"type\":\"window-resized\",\"window_id\":\"WindowId(1)\"}"
    );
}

#[test]
fn resize_event_keeps_fractions_of_a_pixel() {
    let text = window(WindowEvent::Resized { width: double(533.5), height: double(0.0) });
    let parsed: serde_json::Value = serde_json::from_str(&text).unwrap();
    assert_eq!(parsed["size"]["width"].as_f64(), Some(533.5));
    assert_eq!(parsed["size"]["height"].as_f64(), Some(0.0));
    assert!(text.contains("\"width\":533.5"));
    assert!(text.contains("\"height\":0.0"));
}

#[test]
fn serializing_twice_gives_the_same_text() {
    let event = Event::WindowEvent {
        window_id: "WindowId(1)".to_string(),
        event: WindowEvent::Resized { width: double(800.0), height: double(600.0) },
    };
    let first = serialize_event(&event);
    let second = serialize_event(&event);
    assert_eq!(first, second);
    assert_eq!(event, event.clone());
}

#[test]
fn every_message_is_an_object_with_a_type() {
    let events = vec![
        Event::MainEventsCleared,
        Event::NewEvents { cause: "Poll".to_string() },
        Event::Raw { debug: "Later(\"x\")".to_string() },
        Event::UserEvent(WryUserEvent::Custom("p".to_string())),
        Event::WindowEvent {
            window_id: "w".to_string(),
            event: WindowEvent::Other { kind: "Touch".to_string() },
        },
        Event::Opened { urls: vec!["file:///a".to_string()] },
    ];
    for event in events {
        let parsed: serde_json::Value = serde_json::from_str(&serialize_event(&event)).unwrap();
        assert!(parsed.is_object());
        assert!(parsed["type"].is_string());
    }
    let raw: serde_json::Value =
        serde_json::from_str(&serialize_event(&Event::Raw { debug: "Later".to_string() }))
            .unwrap();
    assert_eq!(raw["type"], "raw");
    assert_eq!(raw["debug"], "Later");
}

#[test]
fn moved_event_carries_signed_position() {
    let text = window(WindowEvent::Moved { x: double(-5.0), y: double(17.0) });
    assert_eq!(
        text,
        "{\"position\":{\"x\":-5.0,\"y\":17.0},\"type\":\"window-moved\",\"window_id\":\"WindowId(1)\"}"
    );
}

#[test]
fn close_and_destroy_events_name_their_window() {
    assert_eq!(
        window(WindowEvent::CloseRequested),
        "{\"type\":\"window-close-requested\",\"window_id\":\"WindowId(1)\"}"
    );
    assert_eq!(
        window(WindowEvent::Destroyed),
        "{\"type\":\"window-destroyed\",\"window_id\":\"WindowId(1)\"}"
    );
    assert_eq!(
        window(WindowEvent::HoveredFileCancelled),
        "{\"type\":\"window-hovered-file-cancelled\",\"window_id\":\"WindowId(1)\"}"
    );
}

#[test]
fn focus_event_carries_the_flag() {
    assert_eq!(
        window(WindowEvent::Focused(true)),
        "{\"isFocused\":true,\"type\":\"window-focused\",\"window_id\":\"WindowId(1)\"}"
    );
    assert_eq!(
        window(WindowEvent::Focused(false)),
        "{\"isFocused\":false,\"type\":\"window-focused\",\"window_id\":\"WindowId(1)\"}"
    );
}

#[test]
fn scale_factor_event_carries_factor_and_size() {
    let text = window(WindowEvent::ScaleFactorChanged {
        scale_factor: double(1.5),
        width: double(10.0),
        height: double(20.0),
    });
    assert_eq!(
        text,
        "{\"scale_factor\":1.5,\"size\":{\"height\":20.0,\"width\":10.0},\"type\":\"window-scale-factor-changed\",\"window_id\":\"WindowId(1)\"}"
    );
}

#[test]
fn a_double_that_is_no_number_becomes_null() {
    let text = window(WindowEvent::CursorMoved { x: double(f64::NAN), y: double(2.25) });
    assert_eq!(
        text,
        "{\"position\":{\"x\":null,\"y\":2.25},\"type\":\"window-cursor-moved\",\"window_id\":\"WindowId(1)\"}"
    );
}

#[test]
fn keyboard_event_carries_every_field() {
    let text = window(WindowEvent::KeyboardInput {
        state: "Pressed".to_string(),
        logical_key: "Character(\"a\")".to_string(),
        physical_key: "KeyA".to_string(),
        text: Some("a".to_string()),
        repeat: false,
        location: "Standard".to_string(),
        is_synthetic: true,
    });
    let parsed: serde_json::Value = serde_json::from_str(&text).unwrap();
    assert_eq!(parsed["type"], "window-keyboard-input");
    assert_eq!(parsed["state"], "Pressed");
    assert_eq!(parsed["logical_key"], "Character(\"a\")");
    assert_eq!(parsed["physical_key"], "KeyA");
    assert_eq!(parsed["text"], "a");
    assert_eq!(parsed["repeat"], false);
    assert_eq!(parsed["location"], "Standard");
    assert_eq!(parsed["is_synthetic"], true);
    assert_eq!(parsed.as_object().unwrap().len(), 9);
}

#[test]
fn keyboard_event_without_text_has_null_text() {
    let text = window(WindowEvent::KeyboardInput {
        state: "Released".to_string(),
        logical_key: "Shift".to_string(),
        physical_key: "ShiftLeft".to_string(),
        text: None,
        repeat: true,
        location: "Left".to_string(),
        is_synthetic: false,
    });
    let parsed: serde_json::Value = serde_json::from_str(&text).unwrap();
    assert!(parsed["text"].is_null());
    assert_eq!(parsed["repeat"], true);
}

#[test]
fn text_events_carry_their_text() {
    assert_eq!(
        window(WindowEvent::ReceivedImeText("\u{65e5}\u{672c}".to_string())),
        "{\"text\":\"\u{65e5}\u{672c}\",\"type\":\"window-ime-text\",\"window_id\":\"WindowId(1)\"}"
    );
    assert_eq!(
        window(WindowEvent::DroppedFile("/tmp/a b.txt".to_string())),
        "{\"path\":\"/tmp/a b.txt\",\"type\":\"window-dropped-file\",\"window_id\":\"WindowId(1)\"}"
    );
    assert_eq!(
        window(WindowEvent::HoveredFile("C:\\x".to_string())),
        "{\"path\":\"C:\\\\x\",\"type\":\"window-hovered-file\",\"window_id\":\"WindowId(1)\"}"
    );
    assert_eq!(
        window(WindowEvent::ThemeChanged("Dark".to_string())),
        "{\"theme\":\"Dark\",\"type\":\"window-theme-changed\",\"window_id\":\"WindowId(1)\"}"
    );
    assert_eq!(
        window(WindowEvent::Other { kind: "TouchpadPressure".to_string() }),
        "{\"kind\":\"TouchpadPressure\",\"type\":\"window-event\",\"window_id\":\"WindowId(1)\"}"
    );
}

#[test]
fn cursor_events_name_the_device() {
    assert_eq!(
        window(WindowEvent::CursorEntered { device_id: "DeviceId(3)".to_string() }),
        "{\"device_id\":\"DeviceId(3)\",\"type\":\"window-cursor-entered\",\"window_id\":\"WindowId(1)\"}"
    );
    assert_eq!(
        window(WindowEvent::CursorLeft { device_id: "DeviceId(3)".to_string() }),
        "{\"device_id\":\"DeviceId(3)\",\"type\":\"window-cursor-left\",\"window_id\":\"WindowId(1)\"}"
    );
}

#[test]
fn modifiers_are_named_booleans() {
    let modifiers = ModifiersState { shift: true, control: false, alt: true, super_key: false };
    let payload = modifiers_payload(modifiers);
    assert_eq!(
        serde_json::to_string(&payload).unwrap(),
        "{\"alt\":true,\"control\":false,\"shift\":true,\"super_key\":false}"
    );
    assert_eq!(
        window(WindowEvent::ModifiersChanged(modifiers)),
        "{\"modifiers\":{\"alt\":true,\"control\":false,\"shift\":true,\"super_key\":false},\"type\":\"window-modifiers-changed\",\"window_id\":\"WindowId(1)\"}"
    );
}

#[test]
fn mouse_input_names_state_and_button() {
    let cases = [
        (ElementState::Pressed, MouseButton::Left, "pressed", "left"),
        (ElementState::Released, MouseButton::Right, "released", "right"),
        (ElementState::Unknown, MouseButton::Middle, "unknown", "middle"),
        (ElementState::Pressed, MouseButton::Other(0), "pressed", "other:0"),
        (ElementState::Pressed, MouseButton::Other(7), "pressed", "other:7"),
        (ElementState::Pressed, MouseButton::Other(10), "pressed", "other:10"),
        (ElementState::Pressed, MouseButton::Other(65535), "pressed", "other:65535"),
        (ElementState::Pressed, MouseButton::Unknown, "pressed", "unknown"),
    ];
    for (state, button, state_text, button_text) in cases {
        let text = window(WindowEvent::MouseInput { state, button });
        assert_eq!(
            text,
            format!(
                "{{\"button\":\"{}\",\"state\":\"{}\",\"type\":\"window-mouse-input\",\"window_id\":\"WindowId(1)\"}}",
                button_text, state_text
            )
        );
    }
}

#[test]
fn mouse_wheel_names_the_unit() {
    assert_eq!(
        window(WindowEvent::MouseWheel {
            delta: MouseScrollDelta::LineDelta { x: double(0.0), y: double(-1.0) },
            phase: "Moved".to_string(),
        }),
        "{\"delta\":{\"unit\":\"line\",\"x\":0.0,\"y\":-1.0},\"phase\":\"Moved\",\"type\":\"window-mouse-wheel\",\"window_id\":\"WindowId(1)\"}"
    );
    assert_eq!(
        window(WindowEvent::MouseWheel {
            delta: MouseScrollDelta::PixelDelta { x: double(3.5), y: double(4.0) },
            phase: "Started".to_string(),
        }),
        "{\"delta\":{\"unit\":\"pixel\",\"x\":3.5,\"y\":4.0},\"phase\":\"Started\",\"type\":\"window-mouse-wheel\",\"window_id\":\"WindowId(1)\"}"
    );
    assert_eq!(
        window(WindowEvent::MouseWheel {
            delta: MouseScrollDelta::Unknown,
            phase: "Ended".to_string(),
        }),
        "{\"delta\":{\"unit\":\"unknown\"},\"phase\":\"Ended\",\"type\":\"window-mouse-wheel\",\"window_id\":\"WindowId(1)\"}"
    );
}

#[test]
fn loop_events_hold_only_their_type() {
    let cases = [
        (Event::MainEventsCleared, "main-events-cleared"),
        (Event::RedrawEventsCleared, "redraw-events-cleared"),
        (Event::LoopDestroyed, "loop-destroyed"),
        (Event::Suspended, "suspended"),
        (Event::Resumed, "resumed"),
        (Event::UserEvent(WryUserEvent::Exit), "user-exit"),
    ];
    for (event, kind) in cases {
        assert_eq!(serialize_event(&event), format!("{{\"type\":\"{}\"}}", kind));
    }
}

#[test]
fn tagged_events_carry_one_text() {
    assert_eq!(
        serialize_event(&Event::NewEvents { cause: "Init".to_string() }),
        "{\"cause\":\"Init\",\"type\":\"new-events\"}"
    );
    assert_eq!(
        serialize_event(&Event::RedrawRequested { window_id: "WindowId(2)".to_string() }),
        "{\"type\":\"window-redraw-requested\",\"window_id\":\"WindowId(2)\"}"
    );
    assert_eq!(
        serialize_event(&Event::UserEvent(WryUserEvent::Menu("file.open".to_string()))),
        "{\"menu_id\":\"file.open\",\"type\":\"menu-event\"}"
    );
    assert_eq!(
        serialize_event(&Event::Raw { debug: "Unknown".to_string() }),
        "{\"debug\":\"Unknown\",\"type\":\"raw\"}"
    );
    assert_eq!(
        serialize_event(&Event::DeviceEvent {
            device_id: "DeviceId(1)".to_string(),
            event: "Added".to_string(),
        }),
        "{\"device_id\":\"DeviceId(1)\",\"event\":\"Added\",\"type\":\"device-event\"}"
    );
    assert_eq!(
        serialize_event(&Event::Reopen { has_visible_windows: true }),
        "{\"has_visible_windows\":true,\"type\":\"reopen\"}"
    );
}

#[test]
fn opened_event_lists_its_urls_in_order() {
    let event = Event::Opened {
        urls: vec!["file:///b".to_string(), "file:///a".to_string()],
    };
    assert_eq!(
        serialize_event(&event),
        "{\"type\":\"opened\",\"urls\":[\"file:///b\",\"file:///a\"]}"
    );
    assert_eq!(
        serialize_event(&Event::Opened { urls: Vec::new() }),
        "{\"type\":\"opened\",\"urls\":[]}"
    );
}

#[test]
fn user_payload_survives_the_json_envelope() {
    let payload = "say \"hi\" \\ \u{1F600} \n\t <\u{e9}>\u{0}\u{1f}".to_string();
    let text = serialize_event(&Event::UserEvent(WryUserEvent::Custom(payload.clone())));
    let parsed: serde_json::Value = serde_json::from_str(&text).unwrap();
    assert_eq!(parsed["type"], "user-event");
    assert_eq!(parsed["payload"].as_str(), Some(payload.as_str()));
}

#[test]
fn window_event_value_matches_the_text() {
    let event = WindowEvent::Resized { width: double(1.0), height: double(2.0) };
    let value = serialize_window_event("w", &event);
    assert_eq!(value["type"], "window-resized");
    assert_eq!(value["window_id"], "w");
    assert_eq!(value["size"]["width"], serde_json::Value::from(1.0));
    let whole = event_value(&Event::WindowEvent { window_id: "w".to_string(), event });
    assert_eq!(whole, value);
}

fn full_tray_event() -> WryTrayEvent {
    WryTrayEvent {
        identifier: "tray-1".to_string(),
        kind: WryTrayEventKind::Click,
        position: Some((double(10.5), double(20.0))),
        rect: Some(WryTrayRect {
            origin_x: double(1.0),
            origin_y: double(2.0),
            width: double(24.0),
            height: double(24.0),
        }),
        button: Some("left".to_string()),
        button_state: Some("up".to_string()),
    }
}

#[test]
fn tray_event_with_everything() {
    let value = serialize_tray_event(&full_tray_event());
    assert_eq!(
        serde_json::to_string(&value).unwrap(),
        "{\"button\":\"left\",\"button_state\":\"up\",\"event_type\":\"click\",\"position\":{\"x\":10.5,\"y\":20.0},\"rect\":{\"height\":24.0,\"width\":24.0,\"x\":1.0,\"y\":2.0},\"tray_id\":\"tray-1\",\"type\":\"tray-event\"}"
    );
}

#[test]
fn tray_event_leaves_out_what_it_lacks() {
    let event = WryTrayEvent {
        identifier: "t".to_string(),
        kind: WryTrayEventKind::Leave,
        position: None,
        rect: None,
        button: None,
        button_state: None,
    };
    assert_eq!(
        serialize_event(&Event::UserEvent(WryUserEvent::Tray(event))),
        "{\"event_type\":\"leave\",\"tray_id\":\"t\",\"type\":\"tray-event\"}"
    );
}

#[test]
fn tray_event_kinds_have_their_names() {
    let cases = [
        (WryTrayEventKind::Click, "click"),
        (WryTrayEventKind::DoubleClick, "double-click"),
        (WryTrayEventKind::Enter, "enter"),
        (WryTrayEventKind::Move, "move"),
        (WryTrayEventKind::Leave, "leave"),
    ];
    for (kind, name) in cases {
        let event = WryTrayEvent {
            identifier: String::new(),
            kind,
            position: None,
            rect: None,
            button: None,
            button_state: None,
        };
        assert_eq!(serialize_tray_event(&event)["event_type"], name);
    }
}

fn rect() -> TrayRect {
    TrayRect { x: double(1.0), y: double(2.0), width: 24, height: 32 }
}

#[test]
fn tray_click_is_converted() {
    let event = TrayIconEvent::Click {
        id: "tray".to_string(),
        x: double(5.0),
        y: double(6.0),
        rect: rect(),
        button: TrayMouseButton::Right,
        button_state: TrayMouseButtonState::Down,
    };
    let converted = WryTrayEvent::from(event);
    assert_eq!(converted.identifier, "tray");
    assert_eq!(converted.kind, WryTrayEventKind::Click);
    assert_eq!(converted.position, Some((double(5.0), double(6.0))));
    assert_eq!(
        converted.rect,
        Some(WryTrayRect {
            origin_x: double(1.0),
            origin_y: double(2.0),
            width: double(24.0),
            height: double(32.0),
        })
    );
    assert_eq!(converted.button.as_deref(), Some("right"));
    assert_eq!(converted.button_state.as_deref(), Some("down"));
}

#[test]
fn tray_double_click_has_no_button_state() {
    let event = TrayIconEvent::DoubleClick {
        id: "tray".to_string(),
        x: double(5.0),
        y: double(6.0),
        rect: rect(),
        button: TrayMouseButton::Middle,
    };
    let converted = WryTrayEvent::from(event);
    assert_eq!(converted.kind, WryTrayEventKind::DoubleClick);
    assert_eq!(converted.button.as_deref(), Some("middle"));
    assert_eq!(converted.button_state, None);
}

#[test]
fn tray_pointer_events_have_no_button() {
    let enter = WryTrayEvent::from(TrayIconEvent::Enter {
        id: "a".to_string(),
        x: double(0.0),
        y: double(0.0),
        rect: rect(),
    });
    assert_eq!(enter.kind, WryTrayEventKind::Enter);
    assert_eq!(enter.button, None);
    assert!(enter.rect.is_some());
    let moved = WryTrayEvent::from(TrayIconEvent::Move {
        id: "a".to_string(),
        x: double(0.0),
        y: double(0.0),
        rect: rect(),
    });
    assert_eq!(moved.kind, WryTrayEventKind::Move);
    let left = WryTrayEvent::from(TrayIconEvent::Leave {
        id: "a".to_string(),
        x: double(0.0),
        y: double(0.0),
        rect: rect(),
    });
    assert_eq!(left.kind, WryTrayEventKind::Leave);
    assert_eq!(left.position, Some((double(0.0), double(0.0))));
}

#[test]
fn unknown_tray_event_is_a_bare_move() {
    let converted = WryTrayEvent::from(TrayIconEvent::Other { id: "x".to_string() });
    assert_eq!(
        converted,
        WryTrayEvent {
            identifier: "x".to_string(),
            kind: WryTrayEventKind::Move,
            position: None,
            rect: None,
            button: None,
            button_state: None,
        }
    );
}

#[test]
fn tray_rect_sides_become_doubles() {
    let converted = WryTrayRect::from(TrayRect { x: None, y: double(0.5), width: 0, height: 7 });
    assert_eq!(converted.origin_x, None);
    assert_eq!(converted.origin_y, double(0.5));
    assert_eq!(converted.width, double(0.0));
    assert_eq!(converted.height, double(7.0));
}
