use electrobun::error::{clear_last_error, last_error_text, set_last_error, LastError};
use electrobun::ffi_types::WebviewRendererKind;
use electrobun::host_queue::{enqueue, install_wakeup_pipe, pop_next, wakeup_read_fd, wakeup_written, EnqueueOutcome, HostQueue};
use electrobun::ops::{
    create_webview_complete, create_webview_reserve, create_webview_window, create_window_begin,
    create_window_complete, create_wgpu_view_begin, create_wgpu_view_complete, create_wgpu_view_window,
    dispatch_host_webview_event, evaluate_javascript, load_managed_html, send_internal_message_to_webview,
    require_webview_ptr, require_wgpu_view_ptr, require_window_ptr, HostWebviewEvent, ManagedHtmlLoad,
};
use electrobun::registry::{Registries, WebviewState, WindowState};
use electrobun::runtime::{build_preload, configure, mark_configured, set_rpc_port, WebviewRuntime};
use electrobun::secret_key::{format_secret_key_csv, parse_webview_secret_key, SecretKeyError};
use electrobun::sdk_types::{
    host_message_fallback_js, join_buttons, storage_types_json, MessageBoxOptions, WebviewCallbacks, WindowCallbacks, NotificationOptions, OpenFileDialogOptions, Renderer,
    StorageType, TrayOptions, WindowStyle,
};
use electrobun::text::{decimal_string, IntErrorKind};
use electrobun::tray::{ShowTray, TrayState, Trays};

type Regs = Registries<u8, u8, u8, u8>;

fn key_csv() -> String {
    (0..32).map(|b| b.to_string()).collect::<Vec<_>>().join(",")
}

fn configured() -> WebviewRuntime {
    let mut rt = WebviewRuntime::new();
    configure(&mut rt, 50000, "FULL".to_string(), "SANDBOXED".to_string());
    mark_configured(&mut rt);
    rt
}

#[test]
fn preload_needs_configuration() {
    let mut rt = WebviewRuntime::new();
    assert_eq!(build_preload(&rt, 1, 2, "1,2", false).unwrap_err(), "Webview runtime is not configured");
    mark_configured(&mut rt);
    assert_eq!(
        build_preload(&rt, 1, 2, "1,2", false).unwrap_err(),
        "Webview runtime preload scripts are not configured"
    );
}

#[test]
fn preload_texts() {
    let mut rt = configured();
    set_rpc_port(&mut rt, 50123);
    let sandboxed = build_preload(&rt, 3, 4, "9", true).unwrap();
    assert!(sandboxed.starts_with("window.__electrobunWebviewId = 3;\nwindow.__electrobunWindowId = 4;\nwindow.__electrobunEventBridge = "));
    assert!(sandboxed.ends_with(";\nSANDBOXED"));
    assert!(!sandboxed.contains("SecretKeyBytes"));
    let full = build_preload(&rt, 3, 4, "1,2,3", false).unwrap();
    assert!(full.contains("window.__electrobunHostSocketPort = 50123;\nwindow.__electrobunRpcSocketPort = 50123;\nwindow.__electrobunSecretKeyBytes = [1,2,3];\n"));
    assert!(full.contains("window.__electrobunBunBridge = window.__electrobunBunBridge || window.webkit?.messageHandlers?.bunBridge"));
    assert!(full.ends_with(";\nFULL"));
}

#[test]
fn secret_keys() {
    let csv = key_csv();
    let key = parse_webview_secret_key(&format!(" {csv} ,, \n")).unwrap();
    assert_eq!(key[31], 31);
    assert_eq!(format_secret_key_csv(&key), csv);
    assert_eq!(parse_webview_secret_key("1,2").unwrap_err(), SecretKeyError::WrongLength);
    assert_eq!(
        parse_webview_secret_key("256").unwrap_err(),
        SecretKeyError::InvalidByte(IntErrorKind::PosOverflow)
    );
    assert_eq!(parse_webview_secret_key("a").unwrap_err(), SecretKeyError::InvalidByte(IntErrorKind::InvalidDigit));
    let e = parse_webview_secret_key("x").unwrap_err();
    assert_eq!(e.message(), "Failed to parse webview secret key byte: invalid digit found in string");
    assert_eq!(SecretKeyError::WrongLength.message(), "Webview secret key must contain exactly 32 bytes");
    let too_many = format!("{csv},1");
    assert_eq!(parse_webview_secret_key(&too_many).unwrap_err(), SecretKeyError::WrongLength);
}

#[test]
fn decimal_rendering() {
    assert_eq!(decimal_string(0), "0");
    assert_eq!(decimal_string(u64::MAX), u64::MAX.to_string());
}

#[test]
fn last_error_slot() {
    let mut slot = LastError::new();
    assert_eq!(last_error_text(&slot), "");
    set_last_error(&mut slot, "bad\0tail");
    assert_eq!(last_error_text(&slot), "bad");
    clear_last_error(&mut slot);
    assert_eq!(last_error_text(&slot), "");
}

#[test]
fn host_queue_is_fifo_with_one_wakeup() {
    let mut q = HostQueue::new();
    assert_eq!(wakeup_read_fd(&q.wakeup), -1);
    // No pipe yet: the first message still asks for a wakeup (the pipe is
    // created on demand).
    let mut fresh = HostQueue::new();
    assert_eq!(enqueue(&mut fresh, 9, "z"), EnqueueOutcome::Queued { write_wakeup: true });
    install_wakeup_pipe(&mut q.wakeup, 3, 4);
    install_wakeup_pipe(&mut q.wakeup, 5, 6);
    assert_eq!(wakeup_read_fd(&q.wakeup), 3);
    assert_eq!(enqueue(&mut q, 1, "a"), EnqueueOutcome::Queued { write_wakeup: true });
    wakeup_written(&mut q.wakeup);
    assert_eq!(enqueue(&mut q, 2, "b"), EnqueueOutcome::Queued { write_wakeup: false });
    assert_eq!(enqueue(&mut q, 2, "c\0"), EnqueueOutcome::Dropped);
    let m = pop_next(&mut q).unwrap();
    assert_eq!((m.webview_id, m.message.as_str()), (1, "a"));
    let m = pop_next(&mut q).unwrap();
    assert_eq!((m.webview_id, m.message.as_str()), (2, "b"));
    assert!(pop_next(&mut q).is_none());
    // Drained: the next message wakes the host again.
    assert_eq!(enqueue(&mut q, 3, "d"), EnqueueOutcome::Queued { write_wakeup: true });
}

#[test]
fn window_create_flow() {
    let mut regs: Regs = Registries::new();
    let id = create_window_begin(&mut regs, WindowState { ptr: 0, transparent: false, handlers: 1 }).unwrap();
    assert_eq!(create_window_complete(&mut regs, id, 0xA0).unwrap(), id);
    assert_eq!(regs.window_ptr(id), 0xA0);
    let id2 = create_window_begin(&mut regs, WindowState { ptr: 0, transparent: false, handlers: 1 }).unwrap();
    assert_eq!(create_window_complete(&mut regs, id2, 0).unwrap_err(), "Failed to create window");
    assert!(regs.window_state(id2).is_none());
    assert_eq!(create_window_complete(&mut regs, 77, 1).unwrap_err(), "Window 77 disappeared during creation");
}

#[test]
fn webview_create_flow() {
    let mut regs: Regs = Registries::new();
    let rt = configured();
    assert_eq!(
        create_webview_window(&mut regs, 1, Some(1), None, None).unwrap_err(),
        "Window 1 not found"
    );
    let w = create_window_begin(&mut regs, WindowState { ptr: 0, transparent: true, handlers: 1 }).unwrap();
    assert_eq!(create_webview_window(&mut regs, w, None, None, None).unwrap_err(), format!("Window {w} not found"));
    create_window_complete(&mut regs, w, 0xB0).unwrap();
    assert_eq!(create_webview_window(&mut regs, w, None, Some(2), None).unwrap(), (0xB0, true));
    assert_eq!(regs.default_webview_callbacks().navigation_callback, Some(1));

    assert_eq!(
        create_webview_reserve(&mut regs, &rt, w, 0, "cef", "1,2", false).unwrap_err(),
        "Webview secret key must contain exactly 32 bytes"
    );
    let (id, preload) = create_webview_reserve(&mut regs, &rt, w, 5, "cef", &key_csv(), false).unwrap();
    assert!(preload.starts_with(&format!("window.__electrobunWebviewId = {id};\nwindow.__electrobunWindowId = {w};\n")));
    let st = regs.webview_state(id).unwrap();
    assert_eq!(st.renderer, WebviewRendererKind::Cef);
    assert_eq!(st.host_webview_id, Some(5));
    assert_eq!(st.secret_key[1], 1);
    assert_eq!(create_webview_complete(&mut regs, id, 0xC0).unwrap(), id);
    assert_eq!(regs.webview_ptr(id), 0xC0);
    assert!(matches!(load_managed_html(&regs, id), ManagedHtmlLoad::Cef { webview: 0xC0 }));
    assert_eq!(evaluate_javascript(&regs, id).unwrap(), 0xC0);
    assert_eq!(evaluate_javascript(&regs, 999).unwrap_err(), "Webview 999 not found");

    let unconfigured = WebviewRuntime::new();
    assert_eq!(
        create_webview_reserve(&mut regs, &unconfigured, w, 0, "native", &key_csv(), true).unwrap_err(),
        "Webview runtime is not configured"
    );
    let (id2, _) = create_webview_reserve(&mut regs, &rt, w, 0, "native", &key_csv(), true).unwrap();
    assert!(matches!(load_managed_html(&regs, id2), ManagedHtmlLoad::Missing(_)));
    assert_eq!(create_webview_complete(&mut regs, id2, 0).unwrap_err(), "Failed to create webview");
    assert!(regs.webview_state(id2).is_none());
    assert!(matches!(load_managed_html(&regs, id2), ManagedHtmlLoad::Skip));
}

#[test]
fn wgpu_create_flow() {
    let mut regs: Regs = Registries::new();
    assert_eq!(create_wgpu_view_window(&regs, 3).unwrap_err(), "Window 3 not found");
    let id = create_wgpu_view_begin(&mut regs, 3).unwrap();
    assert_eq!(create_wgpu_view_complete(&mut regs, id, 0).unwrap_err(), "Failed to create WGPUView");
    let id = create_wgpu_view_begin(&mut regs, 3).unwrap();
    assert_eq!(create_wgpu_view_complete(&mut regs, id, 0xD0).unwrap(), id);
    assert_eq!(regs.wgpu_view_ptr(id), 0xD0);
}

#[test]
fn host_webview_events() {
    let mut regs: Regs = Registries::new();
    let child = regs
        .insert_webview_placeholder(WebviewState {
            ptr: 1,
            window_id: 1,
            host_webview_id: Some(8),
            renderer: WebviewRendererKind::Native,
            secret_key: [0; 32],
            socket_handle: None,
            transport_ready: false,
        })
        .unwrap();
    match dispatch_host_webview_event(&regs, child, "did-navigate", "a\"b") {
        HostWebviewEvent::Run { host_webview_id, js } => {
            assert_eq!(host_webview_id, 8);
            assert_eq!(js, format!("document.querySelector('#electrobun-webview-{child}').emit(\"did-navigate\", \"a\\\"b\");"));
        }
        _ => panic!(),
    }
    match dispatch_host_webview_event(&regs, child, "host-message", "{\"x\":1}") {
        HostWebviewEvent::Run { js, .. } => assert!(js.ends_with(".emit(\"host-message\", {\"x\":1});")),
        _ => panic!(),
    }
    match dispatch_host_webview_event(&regs, child, "new-window-open", "a\0b") {
        HostWebviewEvent::BadScript(e) => assert_eq!(e, "Failed to allocate javascript string"),
        _ => panic!(),
    }
    assert!(matches!(dispatch_host_webview_event(&regs, 99, "x", "y"), HostWebviewEvent::NoHost));
    assert_eq!(
        send_internal_message_to_webview("{\"a\":1}").unwrap(),
        "window.__electrobun.receiveInternalMessageFromHost({\"a\":1});"
    );
    assert!(send_internal_message_to_webview("\0").is_err());
}

#[test]
fn trays() {
    let mut trays: Trays<u8> = Trays::new();
    let id = trays.insert_tray(TrayState {
        title: "t".to_string(),
        image: "i".to_string(),
        menu_config: None,
        is_template: false,
        width: 18,
        height: 18,
        handler: Some(3),
        ptr: 0,
        visible: false,
    });
    assert_eq!(id, 1);
    match trays.show_tray_plan(id) {
        ShowTray::Create { title, image, handler, menu_config, .. } => {
            assert_eq!((title.as_str(), image.as_str(), handler, menu_config), ("t", "i", Some(3), None));
        }
        _ => panic!(),
    }
    trays.tray_created(id, 0x55);
    assert!(matches!(trays.show_tray_plan(id), ShowTray::AlreadyVisible));
    assert_eq!(trays.set_tray_menu(id, "[]".to_string()), 0x55);
    assert_eq!(trays.hide_native_tray(id), 0x55);
    assert_eq!(trays.tray_ptr(id), 0);
    match trays.show_tray_plan(id) {
        ShowTray::Create { menu_config, .. } => assert_eq!(menu_config.as_deref(), Some("[]")),
        _ => panic!(),
    }
    match trays.show_tray_plan(9) {
        ShowTray::NotFound(e) => assert_eq!(e, "Tray 9 not found"),
        _ => panic!(),
    }
    assert!(trays.remove_tray(id).is_some());
    assert_eq!(trays.set_tray_title(id, "x".to_string()), 0);
    assert_eq!(trays.insert_tray(TrayState {
        title: String::new(), image: String::new(), menu_config: None, is_template: true,
        width: 1, height: 1, handler: None, ptr: 0, visible: false,
    }), 2);
}

#[test]
fn sdk_values() {
    assert_eq!(Renderer::Native.as_tag(), "native");
    assert_eq!(Renderer::Cef.as_tag(), "cef");
    assert_eq!(Renderer::default(), Renderer::Native);
    assert_eq!(StorageType::IndexedDb.as_tag(), "indexedDB");
    assert_eq!(storage_types_json(&[]), "[\"all\"]");
    assert_eq!(
        storage_types_json(&[StorageType::Cookies, StorageType::WebSql]),
        serde_json::to_string(&vec!["cookies", "webSQL"]).unwrap()
    );
    let t = TrayOptions::new("img.png");
    assert_eq!((t.title, t.image, t.is_template, t.width, t.height), ("", "img.png", false, 18, 18));
    let n = NotificationOptions::new("hi");
    assert_eq!((n.title, n.body, n.subtitle, n.silent), ("hi", "", "", false));
    let s = WindowStyle::default();
    assert!(s.titled && s.closable && s.miniaturizable && s.resizable && !s.borderless && !s.hud_window);
    let d = OpenFileDialogOptions::default();
    assert_eq!((d.starting_folder, d.allowed_file_types), ("~/", "*"));
    let m = MessageBoxOptions::default();
    assert_eq!((m.box_type, m.buttons, m.default_id, m.cancel_id), ("info", &["OK"][..], 0, -1));
    assert_eq!(join_buttons(&["Yes", "No", "Cancel"]), "Yes,No,Cancel");
    assert_eq!(join_buttons(&[]), "");
}

fn tray_state(title: &str) -> TrayState<u8> {
    TrayState {
        title: title.to_string(),
        image: "i.png".to_string(),
        menu_config: None,
        is_template: false,
        width: 18,
        height: 18,
        handler: None,
        ptr: 0,
        visible: false,
    }
}

#[test]
fn tray_creation_outcomes() {
    let mut trays: Trays<u8> = Trays::new();
    let id = trays.insert_tray(tray_state("a"));
    assert_eq!(trays.create_tray_complete(id, 0x10), Ok(id));
    assert_eq!(trays.tray_ptr(id), 0x10);
    assert!(matches!(trays.show_tray_plan(id), ShowTray::AlreadyVisible));

    let failed = trays.insert_tray(tray_state("b"));
    assert_ne!(failed, id);
    assert_eq!(trays.create_tray_complete(failed, 0), Err("Failed to create tray".to_string()));
    assert_eq!(trays.trays.len(), 1);
    assert!(trays.trays.contains_key(&id));
    assert!(trays.remove_tray(failed).is_none());

    assert_eq!(trays.hide_native_tray(id), 0x10);
    assert_eq!(trays.show_tray_complete(id, 0), Err("Failed to create tray".to_string()));
    assert_eq!(trays.tray_ptr(id), 0);
    assert_eq!(trays.show_tray_complete(id, 0x20), Ok(()));
    assert_eq!(trays.tray_ptr(id), 0x20);
}

#[test]
fn host_message_fallback_script() {
    assert_eq!(
        host_message_fallback_js(r#"{"a":1}"#),
        r#"window.__electrobun.receiveMessageFromHost({"a":1});"#
    );
}

#[test]
fn callback_defaults_and_bridge_precedence() {
    let w: WindowCallbacks<u8, u8, u8, u8, u8, u8> = WindowCallbacks::default();
    assert!(w.close.is_none() && w.move_.is_none() && w.resize.is_none());
    assert!(w.focus.is_none() && w.blur.is_none() && w.key.is_none());
    let mut cb: WebviewCallbacks<u8, u8, u8> = WebviewCallbacks::default();
    assert_eq!(cb.host_bridge_or_bun(), None);
    cb.bun_bridge = Some(2);
    assert_eq!(cb.host_bridge_or_bun(), Some(2));
    cb.host_bridge = Some(1);
    assert_eq!(cb.host_bridge_or_bun(), Some(1));
}

#[test]
fn handles_or_not_found_errors() {
    let mut regs: Regs = Registries::new();
    assert_eq!(require_window_ptr(&regs, 4).unwrap_err(), "Window 4 not found");
    assert_eq!(require_webview_ptr(&regs, 5).unwrap_err(), "Webview 5 not found");
    assert_eq!(require_wgpu_view_ptr(&regs, 6).unwrap_err(), "WGPUView 6 not found");
    let w = create_window_begin(&mut regs, WindowState { ptr: 0, transparent: false, handlers: 1 }).unwrap();
    assert_eq!(require_window_ptr(&regs, w).unwrap_err(), format!("Window {w} not found"));
    create_window_complete(&mut regs, w, 0xE0).unwrap();
    assert_eq!(require_window_ptr(&regs, w).unwrap(), 0xE0);
    let v = create_wgpu_view_begin(&mut regs, w).unwrap();
    create_wgpu_view_complete(&mut regs, v, 0xE1).unwrap();
    assert_eq!(require_wgpu_view_ptr(&regs, v).unwrap(), 0xE1);
}
