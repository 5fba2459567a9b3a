use electrobun::bridge::{
    decode_internal_bridge_packet, decode_internal_request, internal_bridge_batch_items,
    internal_bridge_response, parse_webview_tag_init, parse_wgpu_tag_init, request_reply,
    tag_callbacks_ready, BridgePacket, InternalRequestKind, RequestReply, ResponsePayload,
};
use electrobun::registry::DefaultWebviewCallbacks;
use electrobun::bridge_message::{internal_message_action, InternalAction, ViewFlag, WebviewCall};
use electrobun::ffi_types::WebviewRendererKind;
use electrobun::json::{get_u32, json_u32, JsonNumber, JsonValue};
use electrobun::registry::{Registries, WebviewState, WgpuViewState, WindowState};

fn to_json(v: &serde_json::Value) -> JsonValue {
    match v {
        serde_json::Value::Null => JsonValue::Null,
        serde_json::Value::Bool(b) => JsonValue::Bool(*b),
        serde_json::Value::Number(n) => {
            let float_as_u32 = if n.as_i64().is_some() {
                None
            } else {
                match n.as_f64() {
                    Some(f) if f.is_finite() && f.floor() == f && f >= 0.0 && f <= u32::MAX as f64 => {
                        Some(f as u32)
                    }
                    _ => None,
                }
            };
            JsonValue::Number(JsonNumber { as_i64: n.as_i64(), float_as_u32, text: n.to_string() })
        }
        serde_json::Value::String(s) => JsonValue::String(s.clone()),
        serde_json::Value::Array(a) => JsonValue::Array(a.iter().map(to_json).collect()),
        serde_json::Value::Object(m) => {
            JsonValue::Object(m.iter().map(|(k, v)| (k.clone(), to_json(v))).collect())
        }
    }
}

fn parse(text: &str) -> JsonValue {
    to_json(&serde_json::from_str::<serde_json::Value>(text).unwrap())
}

type Regs = Registries<u8, u8, u8, u8>;

fn regs_with_views() -> (Regs, u32, u32, u32) {
    let mut regs: Regs = Registries::new();
    let w = regs.insert_window_placeholder(WindowState { ptr: 500, transparent: false, handlers: 0 }).unwrap();
    let v = regs
        .insert_webview_placeholder(WebviewState {
            ptr: 600,
            window_id: w,
            host_webview_id: None,
            renderer: WebviewRendererKind::Native,
            secret_key: [0; 32],
            socket_handle: None,
            transport_ready: false,
        })
        .unwrap();
    let g = regs.insert_wgpu_view_placeholder(WgpuViewState { ptr: 700, window_id: w }).unwrap();
    (regs, w, v, g)
}

#[test]
fn json_u32_coercions() {
    assert_eq!(json_u32(&parse("5")), Some(5));
    assert_eq!(json_u32(&parse("-1")), None);
    assert_eq!(json_u32(&parse("4294967296")), None);
    assert_eq!(json_u32(&parse("7.0")), Some(7));
    assert_eq!(json_u32(&parse("7.5")), None);
    assert_eq!(json_u32(&parse("\"42\"")), Some(42));
    assert_eq!(json_u32(&parse("\"+42\"")), Some(42));
    assert_eq!(json_u32(&parse("\"4x\"")), None);
    assert_eq!(json_u32(&parse("true")), None);
    assert_eq!(get_u32(&parse("{\"id\":3}"), "id"), Some(3));
}

#[test]
fn response_packets() {
    assert_eq!(
        internal_bridge_response("r1", true, ResponsePayload::Id(12)),
        "{\"id\":\"r1\",\"payload\":12,\"success\":true,\"type\":\"response\"}"
    );
    assert_eq!(
        internal_bridge_response("a\"b", false, ResponsePayload::Text("Unknown internal request")),
        "{\"id\":\"a\\\"b\",\"payload\":\"Unknown internal request\",\"success\":false,\"type\":\"response\"}"
    );
    let mut m = serde_json::Map::new();
    m.insert("type".to_string(), serde_json::Value::String("response".to_string()));
    m.insert("id".to_string(), serde_json::Value::String("x".to_string()));
    m.insert("success".to_string(), serde_json::Value::Bool(true));
    m.insert("payload".to_string(), serde_json::Value::Bool(false));
    let expected = serde_json::Value::Object(m).to_string();
    assert_eq!(internal_bridge_response("x", true, ResponsePayload::Bool(false)), expected);
}

#[test]
fn packet_kinds() {
    let req = parse("{\"type\":\"request\",\"method\":\"m\",\"id\":\"1\",\"hostWebviewId\":2}");
    assert!(matches!(decode_internal_bridge_packet(&req), BridgePacket::Request(_)));
    let msg = parse("{\"type\":\"message\",\"id\":\"stopWindowMove\"}");
    match decode_internal_bridge_packet(&msg) {
        BridgePacket::Message { id, payload } => {
            assert_eq!(id, "stopWindowMove");
            assert!(payload.is_none());
        }
        _ => panic!(),
    }
    assert!(matches!(decode_internal_bridge_packet(&parse("{\"type\":\"other\"}")), BridgePacket::Ignore));
    assert!(matches!(decode_internal_bridge_packet(&parse("{\"type\":\"message\"}")), BridgePacket::Ignore));
    assert!(matches!(decode_internal_bridge_packet(&parse("[]")), BridgePacket::Ignore));
}

#[test]
fn batches_keep_string_items() {
    let batch = parse("[\"{}\", 3, \"[1]\"]");
    assert_eq!(internal_bridge_batch_items(&batch), Some(vec!["{}", "[1]"]));
    assert_eq!(internal_bridge_batch_items(&parse("{}")), None);
}

#[test]
fn requests_decode() {
    let (regs, _w, v, _g) = regs_with_views();
    let r = parse(&format!(
        "{{\"type\":\"request\",\"method\":\"webviewTagCanGoBack\",\"id\":\"q\",\"hostWebviewId\":\"3\",\"params\":{{\"id\":{v}}}}}"
    ));
    let q = decode_internal_request(&regs, &r).unwrap();
    assert_eq!(q.request_id, "q");
    assert_eq!(q.host_webview_id, 3);
    assert!(matches!(q.kind, InternalRequestKind::CanGoBack { webview: 600 }));
    let missing = parse("{\"method\":\"webviewTagCanGoForward\",\"id\":\"q\",\"hostWebviewId\":3,\"params\":{}}");
    assert!(decode_internal_request(&regs, &missing).is_none());
    let unknown_view = parse("{\"method\":\"webviewTagCanGoForward\",\"id\":\"q\",\"hostWebviewId\":3,\"params\":{\"id\":99}}");
    assert!(matches!(
        decode_internal_request(&regs, &unknown_view).unwrap().kind,
        InternalRequestKind::CanGoForward { webview: 0 }
    ));
    let other = parse("{\"method\":\"nope\",\"id\":\"q\",\"hostWebviewId\":3}");
    assert!(matches!(decode_internal_request(&regs, &other).unwrap().kind, InternalRequestKind::Unknown));
    let init = parse("{\"method\":\"webviewTagInit\",\"id\":\"q\",\"hostWebviewId\":3}");
    assert!(matches!(decode_internal_request(&regs, &init).unwrap().kind, InternalRequestKind::WebviewTagInit(None)));
    let no_host = parse("{\"method\":\"webviewTagInit\",\"id\":\"q\"}");
    assert!(decode_internal_request(&regs, &no_host).is_none());
}

#[test]
fn webview_tag_init_params() {
    let p = parse(
        "{\"hostWebviewId\":1,\"windowId\":2,\"renderer\":\"cef\",\"frame\":{\"x\":0,\"y\":1,\"width\":2,\"height\":3},\"url\":\"https://a\",\"html\":\"<p>\",\"navigationRules\":[\"^*\"],\"sandbox\":true}",
    );
    let t = parse_webview_tag_init(&p).unwrap();
    assert_eq!(t.host_webview_id, 1);
    assert_eq!(t.window_id, 2);
    assert_eq!(t.renderer, "cef");
    assert_eq!(t.partition, "persist:default");
    assert_eq!(t.create_url, "");
    assert_eq!(t.preload, "");
    assert_eq!(t.html, Some("<p>"));
    assert!(t.sandbox);
    assert!(!t.transparent);
    assert!(t.navigation_rules.is_some());
    let p2 = parse(
        "{\"hostWebviewId\":1,\"windowId\":2,\"renderer\":\"native\",\"frame\":{\"x\":0,\"y\":1,\"width\":2,\"height\":3},\"url\":\"https://a\",\"html\":null,\"navigationRules\":null,\"partition\":\"p\"}",
    );
    let t2 = parse_webview_tag_init(&p2).unwrap();
    assert_eq!(t2.create_url, "https://a");
    assert_eq!(t2.html, None);
    assert!(t2.navigation_rules.is_none());
    assert_eq!(t2.partition, "p");
    let no_frame = parse("{\"hostWebviewId\":1,\"windowId\":2,\"renderer\":\"native\"}");
    assert!(parse_webview_tag_init(&no_frame).is_none());
    let nul = parse("{\"hostWebviewId\":1,\"windowId\":2,\"renderer\":\"a\\u0000\",\"frame\":{\"x\":0,\"y\":1,\"width\":2,\"height\":3}}");
    assert!(parse_webview_tag_init(&nul).is_none());
    let w = parse("{\"windowId\":\"4\",\"frame\":{\"x\":0,\"y\":1,\"width\":2,\"height\":3},\"passthrough\":true}");
    let g = parse_wgpu_tag_init(&w).unwrap();
    assert_eq!(g.window_id, 4);
    assert!(g.passthrough);
    assert!(parse_wgpu_tag_init(&parse("{\"windowId\":4}")).is_none());
}

#[test]
fn message_actions() {
    let (mut regs, w, v, g) = regs_with_views();
    let payload = parse(&format!("{{\"id\":{v},\"frame\":{{\"x\":1,\"y\":2,\"width\":3,\"height\":4}}}}"));
    match internal_message_action(&regs, "webviewTagResize", Some(&payload)) {
        InternalAction::ResizeWebview { webview, masks, frame } => {
            assert_eq!(webview, 600);
            assert_eq!(masks, "[]");
            assert!(matches!(frame.width, JsonValue::Number(_)));
        }
        _ => panic!(),
    }
    let gp = parse(&format!("{{\"id\":{g},\"frame\":{{\"x\":1,\"y\":2,\"width\":3,\"height\":4}},\"masks\":\"[1]\"}}"));
    assert!(matches!(
        internal_message_action(&regs, "wgpuTagResize", Some(&gp)),
        InternalAction::ResizeWgpuView { wgpu_view: 700, masks: "[1]", .. }
    ));
    let id_only = parse(&format!("{{\"id\":{v}}}"));
    assert!(matches!(
        internal_message_action(&regs, "webviewTagGoBack", Some(&id_only)),
        InternalAction::WebviewCall { webview: 600, call: WebviewCall::GoBack }
    ));
    assert!(matches!(
        internal_message_action(&regs, "webviewTagRemove", Some(&id_only)),
        InternalAction::RemoveWebview { .. }
    ));
    let win = parse(&format!("{{\"id\":{w}}}"));
    assert!(matches!(
        internal_message_action(&regs, "startWindowMove", Some(&win)),
        InternalAction::StartWindowMove { window: 500 }
    ));
    assert!(matches!(internal_message_action(&regs, "stopWindowMove", Some(&parse("{}"))), InternalAction::StopWindowMove));
    // A non-object payload does nothing, even for stopWindowMove.
    assert!(matches!(internal_message_action(&regs, "stopWindowMove", None), InternalAction::Nothing));
    let pass = parse(&format!("{{\"id\":{v},\"enablePassthrough\":true}}"));
    assert!(matches!(
        internal_message_action(&regs, "webviewTagSetPassthrough", Some(&pass)),
        InternalAction::SetWebviewFlag { webview: 600, flag: ViewFlag::Passthrough, value: true }
    ));
    let gh = parse(&format!("{{\"id\":{g},\"hidden\":false}}"));
    assert!(matches!(
        internal_message_action(&regs, "wgpuTagSetHidden", Some(&gh)),
        InternalAction::SetWgpuViewFlag { wgpu_view: 700, flag: ViewFlag::Hidden, value: false }
    ));
    let find = parse(&format!("{{\"id\":{v},\"searchText\":\"abc\",\"forward\":true,\"matchCase\":false}}"));
    assert!(matches!(
        internal_message_action(&regs, "webviewTagFindInPage", Some(&find)),
        InternalAction::FindInPage { webview: 600, search_text: "abc", forward: true, match_case: false }
    ));
    let js = parse(&format!("{{\"id\":{v},\"js\":\"1+1\"}}"));
    assert!(matches!(
        internal_message_action(&regs, "webviewTagExecuteJavascript", Some(&js)),
        InternalAction::ExecuteJavascript { js: "1+1", .. }
    ));
    let rules = parse(&format!("{{\"id\":{v},\"rules\":[\"a\"]}}"));
    assert!(matches!(
        internal_message_action(&regs, "webviewTagSetNavigationRules", Some(&rules)),
        InternalAction::SetNavigationRules { webview: 600, .. }
    ));
    let url_nul = parse(&format!("{{\"id\":{v},\"url\":\"a\\u0000b\"}}"));
    assert!(matches!(internal_message_action(&regs, "webviewTagUpdateSrc", Some(&url_nul)), InternalAction::Nothing));
    let unknown_view = parse("{\"id\":999}");
    assert!(matches!(internal_message_action(&regs, "webviewTagReload", Some(&unknown_view)), InternalAction::Nothing));
    assert!(matches!(internal_message_action(&regs, "noSuchMessage", Some(&id_only)), InternalAction::Nothing));

    // The stored event needs the default handler.
    let ev = parse("{\"id\":4,\"eventName\":\"did-navigate\",\"detail\":\"x\"}");
    assert!(matches!(internal_message_action(&regs, "webviewEvent", Some(&ev)), InternalAction::Nothing));
    regs.remember_default_webview_callbacks(None, Some(5), None);
    assert!(matches!(
        internal_message_action(&regs, "webviewEvent", Some(&ev)),
        InternalAction::WebviewEvent { handler: 5, webview_id: 4, event_name: "did-navigate", detail: "x" }
    ));
}

#[test]
fn request_replies() {
    assert_eq!(
        request_reply("r1", RequestReply::WebviewTag(Some(7))),
        r#"{"id":"r1","payload":7,"success":true,"type":"response"}"#
    );
    assert_eq!(
        request_reply("r1", RequestReply::WebviewTag(None)),
        r#"{"id":"r1","payload":"Failed to create webview tag","success":false,"type":"response"}"#
    );
    assert_eq!(
        request_reply("r2", RequestReply::WgpuTag(Some(3))),
        r#"{"id":"r2","payload":3,"success":true,"type":"response"}"#
    );
    assert_eq!(
        request_reply("r2", RequestReply::WgpuTag(None)),
        r#"{"id":"r2","payload":"Failed to create WGPU view","success":false,"type":"response"}"#
    );
    assert_eq!(
        request_reply("q", RequestReply::Query(false)),
        r#"{"id":"q","payload":false,"success":true,"type":"response"}"#
    );
    assert_eq!(
        request_reply("u", RequestReply::Unknown),
        r#"{"id":"u","payload":"Unknown internal request","success":false,"type":"response"}"#
    );
}

#[test]
fn tag_callbacks_need_event_and_bridge_handlers() {
    let both: DefaultWebviewCallbacks<u8, u8, u8> =
        DefaultWebviewCallbacks { navigation_callback: None, webview_event_handler: Some(1), event_bridge_handler: Some(2) };
    assert!(tag_callbacks_ready(&both));
    let no_bridge: DefaultWebviewCallbacks<u8, u8, u8> =
        DefaultWebviewCallbacks { navigation_callback: Some(0), webview_event_handler: Some(1), event_bridge_handler: None };
    assert!(!tag_callbacks_ready(&no_bridge));
    let no_event: DefaultWebviewCallbacks<u8, u8, u8> =
        DefaultWebviewCallbacks { navigation_callback: Some(0), webview_event_handler: None, event_bridge_handler: Some(2) };
    assert!(!tag_callbacks_ready(&no_event));
}

#[test]
fn response_text_escapes_like_json() {
    assert_eq!(
        internal_bridge_response("q\\\u{8}\t\n\u{c}\r\u{1}\u{1f}é\u{7f}", true, ResponsePayload::Text("x\"y")),
        "{\"id\":\"q\\\\\\b\\t\\n\\f\\r\\u0001\\u001fé\u{7f}\",\"payload\":\"x\\\"y\",\"success\":true,\"type\":\"response\"}"
    );
}

#[test]
fn random_tag_keys_parse_back() {
    let a = electrobun::bridge::random_webview_secret_key_csv().expect("random source");
    let b = electrobun::bridge::random_webview_secret_key_csv().expect("random source");
    let ka = electrobun::secret_key::parse_webview_secret_key(&a).expect("key list parses");
    let kb = electrobun::secret_key::parse_webview_secret_key(&b).expect("key list parses");
    assert_eq!(ka.len(), 32);
    assert_eq!(electrobun::secret_key::format_secret_key_csv(&ka), a);
    assert_ne!(ka, kb);
}
