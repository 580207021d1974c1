use std::cell::Cell;
use wry_ffi::bridge::{get_bridge_script, BRIDGE_SCRIPT};
use wry_ffi::helpers::{
    monitor_to_json, opt_color, opt_cstring, theme_from_ffi, with_webview, with_window,
    write_json_to_buffer, write_string_to_buffer, MonitorInfo, ScratchBuffer, Theme,
};
use wry_ffi::json::finish_text;
use wry_ffi::notifications::{
    notification_plan, notification_timeout, NotificationPlan, NotificationTimeout,
    WryNotificationOptions, WryNotificationUrgency,
};
use wry_ffi::shortcuts::{parse_accelerator, ShortcutRegistry};
use wry_ffi::types::{
    WryActivationPolicy, WryColor, WryCustomProtocolBuffer, WryResizeDirection,
    WryUserAttentionType, WryWindowTheme,
};
use wry_ffi::window::{window_identifier, window_plan, WindowPlan, WryWindowConfig};

#[test]
fn bridge_script_guards_itself() {
    let script = get_bridge_script();
    assert_eq!(script, BRIDGE_SCRIPT);
    assert!(script.contains("if (window.__tauriInitialized) return;"));
    assert!(script.contains("window.__tauriInitialized = true;"));
    assert!(script.contains("window.tauri = {"));
    assert!(script.contains("invoke: function(command, payload)"));
    assert!(script.contains("listen: function(event, callback)"));
    assert!(script.contains("emit: function(event, payload)"));
    assert!(script.contains("__receive: function(messageStr)"));
    assert!(script.contains("window.ipc.postMessage(message)"));
    assert!(script.starts_with("\n(function() {"));
    assert!(script.ends_with("})();\n"));
}

#[test]
fn plain_types_compare_by_value() {
    assert_eq!(WryCustomProtocolBuffer::default(), WryCustomProtocolBuffer { ptr: 0, len: 0 });
    assert_ne!(WryActivationPolicy::Regular, WryActivationPolicy::Accessory);
    assert_ne!(WryResizeDirection::East, WryResizeDirection::West);
    assert_ne!(WryUserAttentionType::Critical, WryUserAttentionType::Informational);
}

#[test]
fn color_is_split_into_its_parts() {
    let color = WryColor { red: 1, green: 2, blue: 3, alpha: 255 };
    assert_eq!(opt_color(Some(&color)), Some((1, 2, 3, 255)));
    assert_eq!(opt_color(None), None);
}

#[test]
fn optional_c_string_becomes_text() {
    assert_eq!(opt_cstring(Some(b"title".as_slice())), Some("title".to_string()));
    assert_eq!(opt_cstring(Some([0x80].as_slice())), None);
    assert_eq!(opt_cstring(None), None);
}

#[test]
fn theme_is_converted() {
    assert_eq!(theme_from_ffi(WryWindowTheme::Unspecified), None);
    assert_eq!(theme_from_ffi(WryWindowTheme::Light), Some(Theme::Light));
    assert_eq!(theme_from_ffi(WryWindowTheme::Dark), Some(Theme::Dark));
}

#[test]
fn null_handle_is_never_used() {
    let ran = Cell::new(false);
    let window: Option<&u32> = None;
    assert_eq!(
        with_window(window, |value: &u32| {
            ran.set(true);
            *value + 1
        }),
        None
    );
    assert!(!ran.get());
    assert_eq!(with_window(Some(&41u32), |value: &u32| *value + 1), Some(42));
    let webview: Option<&String> = None;
    assert_eq!(with_webview(webview, |view: &String| view.len()), None);
    assert_eq!(with_webview(Some(&"abc".to_string()), |view: &String| view.len()), Some(3));
}

#[test]
fn buffer_holds_the_latest_text() {
    let mut buffer = ScratchBuffer::new();
    assert_eq!(buffer.as_str(), "");
    write_string_to_buffer(&mut buffer, "My \u{2603} Title".to_string());
    assert_eq!(buffer.as_str(), "My \u{2603} Title");
    write_string_to_buffer(&mut buffer, "second".to_string());
    assert_eq!(buffer.as_str(), "second");
    write_string_to_buffer(&mut buffer, "bad\0title".to_string());
    assert_eq!(buffer.as_str(), "");
}

#[test]
fn buffer_holds_json_text() {
    let mut buffer = ScratchBuffer::new();
    let value = serde_json::Value::Array(vec![
        serde_json::Value::from("a\0b"),
        serde_json::Value::from(1),
    ]);
    write_json_to_buffer(&mut buffer, &value);
    assert_eq!(buffer.as_str(), "[\"a\\u0000b\",1]");
}

#[test]
fn failed_writing_gives_an_empty_object() {
    let failure = serde_json::from_str::<serde_json::Value>("{").unwrap_err();
    assert_eq!(finish_text(Err(failure)), "{}");
    assert_eq!(finish_text(Ok("[1]".to_string())), "[1]");
}

#[test]
fn monitor_is_written_with_whole_pixels() {
    let monitor = MonitorInfo {
        name: Some("DP-1".to_string()),
        scale_factor: serde_json::Number::from_f64(1.25),
        x: -1920,
        y: 0,
        width: 1920,
        height: 1080,
    };
    assert_eq!(
        serde_json::to_string(&monitor_to_json(&monitor)).unwrap(),
        "{\"name\":\"DP-1\",\"position\":{\"x\":-1920,\"y\":0},\"scale_factor\":1.25,\"size\":{\"height\":1080,\"width\":1920}}"
    );
    let unnamed = MonitorInfo { name: None, scale_factor: None, x: 0, y: 0, width: 0, height: 0 };
    assert_eq!(
        serde_json::to_string(&monitor_to_json(&unnamed)).unwrap(),
        "{\"name\":\"\",\"position\":{\"x\":0,\"y\":0},\"scale_factor\":null,\"size\":{\"height\":0,\"width\":0}}"
    );
}

#[test]
fn notification_timeout_follows_the_sign() {
    assert_eq!(notification_timeout(-1), None);
    assert_eq!(notification_timeout(i32::MIN), None);
    assert_eq!(notification_timeout(-2), None);
    assert_eq!(notification_timeout(0), Some(NotificationTimeout::Never));
    assert_eq!(notification_timeout(1), Some(NotificationTimeout::Milliseconds(1)));
    assert_eq!(
        notification_timeout(i32::MAX),
        Some(NotificationTimeout::Milliseconds(2147483647))
    );
}

#[test]
fn notification_is_planned_from_its_options() {
    assert_eq!(notification_plan(None), None);
    let options = WryNotificationOptions {
        title: Some(b"Done".to_vec()),
        body: None,
        icon: Some(b"/icon.png".to_vec()),
        timeout_ms: 1500,
        urgency: WryNotificationUrgency::Critical,
    };
    assert_eq!(
        notification_plan(Some(&options)),
        Some(NotificationPlan {
            summary: "Done".to_string(),
            body: String::new(),
            icon: Some("/icon.png".to_string()),
            timeout: Some(NotificationTimeout::Milliseconds(1500)),
            urgency: WryNotificationUrgency::Critical,
        })
    );
    let options = WryNotificationOptions {
        title: Some(vec![0xff]),
        body: Some(b"text".to_vec()),
        icon: Some(vec![0xff]),
        timeout_ms: -1,
        urgency: WryNotificationUrgency::Low,
    };
    assert_eq!(
        notification_plan(Some(&options)),
        Some(NotificationPlan {
            summary: String::new(),
            body: "text".to_string(),
            icon: None,
            timeout: None,
            urgency: WryNotificationUrgency::Low,
        })
    );
}

#[test]
fn shortcuts_get_numbers_in_sequence() {
    let mut registry = ShortcutRegistry::new();
    let first = parse_accelerator(Some(b"Ctrl+Shift+T".as_slice())).unwrap();
    let second = parse_accelerator(Some(b"Alt+F4".as_slice())).unwrap();
    assert_ne!(first.id(), second.id());
    assert_eq!(registry.record(first), 1);
    assert_eq!(registry.record(second), 2);
    assert_eq!(registry.shortcut_for_event(second.id()), Some(2));
    assert_eq!(registry.shortcut_for_event(first.id()), Some(1));
    assert_eq!(registry.shortcut_for_event(first.id() ^ second.id() ^ 1), None);
    assert_eq!(registry.take(1), Some(first));
    assert_eq!(registry.take(1), None);
    assert_eq!(registry.shortcut_for_event(first.id()), None);
    assert_eq!(registry.record(first), 3);
    let mut all = registry.take_all();
    all.sort_by_key(|hotkey| hotkey.id());
    let mut expected = vec![first, second];
    expected.sort_by_key(|hotkey| hotkey.id());
    assert_eq!(all, expected);
    assert_eq!(registry.take_all(), Vec::new());
    assert_eq!(registry.shortcut_for_event(second.id()), None);
    assert_eq!(registry.record(second), 4);
}

#[test]
fn accelerator_must_be_a_text_that_names_a_hotkey() {
    assert!(parse_accelerator(None).is_none());
    assert!(parse_accelerator(Some([0xff].as_slice())).is_none());
    assert!(parse_accelerator(Some(b"Ctrl+NoSuchKey".as_slice())).is_none());
    assert!(parse_accelerator(Some(b"".as_slice())).is_none());
    assert!(parse_accelerator(Some(b"A".as_slice())).is_some());
}

#[test]
fn window_plan_follows_the_configuration() {
    assert_eq!(window_plan(None), WindowPlan { title: None, inner_size: None });
    let mut config = WryWindowConfig { width: 0, height: 300, title: None };
    assert_eq!(window_plan(Some(&config)), WindowPlan { title: None, inner_size: None });
    config.width = 400;
    config.height = 0;
    assert_eq!(window_plan(Some(&config)).inner_size, None);
    config.height = 1;
    config.title = Some(vec![0xc3]);
    assert_eq!(window_plan(Some(&config)), WindowPlan { title: None, inner_size: Some((400, 1)) });
    config.title = Some(b"T\xc3\xa9st".to_vec());
    assert_eq!(window_plan(Some(&config)).title.as_deref(), Some("T\u{e9}st"));
}

#[test]
fn window_identifier_is_the_rendering() {
    assert_eq!(window_identifier("WindowId(3)"), "WindowId(3)");
    assert_eq!(window_identifier("a\0b"), "wry-window");
}

#[test]
fn accelerator_names_one_hotkey() {
    let first = parse_accelerator(Some(b"Ctrl+Shift+T".as_slice())).unwrap();
    let again = parse_accelerator(Some(b"Ctrl+Shift+T".as_slice())).unwrap();
    let spelled = parse_accelerator(Some(b"control + shift + t".as_slice())).unwrap();
    let other = parse_accelerator(Some(b"Ctrl+Shift+U".as_slice())).unwrap();
    assert_eq!(first, again);
    assert_eq!(first, spelled);
    assert_ne!(first, other);
    assert_eq!(
        first,
        global_hotkey::hotkey::HotKey::new(
            Some(global_hotkey::hotkey::Modifiers::CONTROL | global_hotkey::hotkey::Modifiers::SHIFT),
            global_hotkey::hotkey::Code::KeyT,
        )
    );
    assert!(parse_accelerator(Some(b"Ctrl+T+Shift".as_slice())).is_none());
    assert!(parse_accelerator(Some(b"Ctrl++T".as_slice())).is_none());
}
