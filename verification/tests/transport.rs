use electrobun::frame::{decode_client_frame, encode_server_frame, frame_progress, FrameError, FrameProgress};
use electrobun::host_queue::{EnqueueOutcome, HostQueue};
use electrobun::json::{JsonNumber, JsonValue};
use electrobun::registry::{Registries, WebviewState, WindowState};
use electrobun::ffi_types::WebviewRendererKind;
use electrobun::transport::{
    close_and_clear_webview_socket, connection_step, decrypt_host_transport_packet,
    dispatch_host_transport_message, encrypt_host_transport_packet,
    encrypt_host_transport_packet_with_nonce, frame_action, host_transport_packet, http_head_end,
    next_port, plan_server_start, send_via_transport, simple_http_response, websocket_accept_value,
    websocket_handshake_response, ConnectionStep, FrameAction, HostTransportState, ServerStart,
    TransportSend,
};

fn to_json(v: &serde_json::Value) -> JsonValue {
    match v {
        serde_json::Value::Null => JsonValue::Null,
        serde_json::Value::Bool(b) => JsonValue::Bool(*b),
        serde_json::Value::Number(n) => {
            let float_as_u32 = if n.as_i64().is_some() {
                None
            } else {
                match n.as_f64() {
                    Some(f) if f.is_finite() && f.floor() == f && f >= 0.0 && f <= u32::MAX as f64 => {
                        Some(f as u32)
                    }
                    _ => None,
                }
            };
            JsonValue::Number(JsonNumber { as_i64: n.as_i64(), float_as_u32, text: n.to_string() })
        }
        serde_json::Value::String(s) => JsonValue::String(s.clone()),
        serde_json::Value::Array(a) => JsonValue::Array(a.iter().map(to_json).collect()),
        serde_json::Value::Object(m) => {
            JsonValue::Object(m.iter().map(|(k, v)| (k.clone(), to_json(v))).collect())
        }
    }
}

fn parse(text: &str) -> JsonValue {
    to_json(&serde_json::from_str::<serde_json::Value>(text).unwrap())
}

type Regs = Registries<u8, u8, u8, u8>;

fn webview(window_id: u32, key: [u8; 32], socket: Option<i32>, ready: bool) -> WebviewState {
    WebviewState {
        ptr: 0x1000,
        window_id,
        host_webview_id: None,
        renderer: WebviewRendererKind::Native,
        secret_key: key,
        socket_handle: socket,
        transport_ready: ready,
    }
}

#[test]
fn accept_value_matches_rfc6455_example() {
    assert_eq!(websocket_accept_value("dGhlIHNhbXBsZSBub25jZQ=="), "s3pPLMBiTxaQ9kYGzzhZRbK+xOo=");
}

#[test]
fn handshake_response_text() {
    assert_eq!(
        websocket_handshake_response("dGhlIHNhbXBsZSBub25jZQ=="),
        "HTTP/1.1 101 Switching Protocols\r\nUpgrade: websocket\r\nConnection: Upgrade\r\nSec-WebSocket-Accept: s3pPLMBiTxaQ9kYGzzhZRbK+xOo=\r\n\r\n"
    );
}

#[test]
fn simple_response_counts_body_bytes() {
    assert_eq!(
        simple_http_response("400 Bad Request", "Missing webviewId"),
        "HTTP/1.1 400 Bad Request\r\nContent-Type: text/plain\r\nContent-Length: 17\r\nConnection: close\r\n\r\nMissing webviewId"
    );
    // Length is in bytes, not characters.
    assert!(simple_http_response("200 OK", "é").contains("Content-Length: 2\r\n"));
}

#[test]
fn packet_splits_ciphertext_and_tag() {
    let mut sealed = vec![0xAAu8; 3];
    sealed.extend_from_slice(&[0x55u8; 16]);
    let packet = host_transport_packet(&sealed, &[1, 2, 3]);
    assert_eq!(
        packet,
        "{\"encryptedData\":\"qqqq\",\"iv\":\"AQID\",\"tag\":\"VVVVVVVVVVVVVVVVVVVVVQ==\"}"
    );
}

#[test]
fn encrypt_then_decrypt_gives_message_back() {
    let key = [7u8; 32];
    let nonce = [1u8, 2, 3, 4, 5, 6, 7, 8, 9, 10, 11, 12];
    let message = "{\"type\":\"message\",\"payload\":[1,2,3]}";
    let packet = encrypt_host_transport_packet_with_nonce(message, &key, &nonce).unwrap();
    let value = parse(&packet);
    let iv = serde_json::from_str::<serde_json::Value>(&packet).unwrap()["iv"].as_str().unwrap().to_string();
    assert_eq!(iv, "AQIDBAUGBwgJCgsM");
    let plain = decrypt_host_transport_packet(&value, &key).unwrap();
    assert_eq!(plain, message.as_bytes());
    // Another key does not authenticate.
    assert!(decrypt_host_transport_packet(&value, &[8u8; 32]).is_err());
}

#[test]
fn random_nonce_packets_roundtrip_and_differ() {
    let key = [9u8; 32];
    let a = encrypt_host_transport_packet("hello", &key).unwrap();
    let b = encrypt_host_transport_packet("hello", &key).unwrap();
    assert_ne!(a, b);
    assert_eq!(decrypt_host_transport_packet(&parse(&a), &key).unwrap(), b"hello");
    assert_eq!(decrypt_host_transport_packet(&parse(&b), &key).unwrap(), b"hello");
}

#[test]
fn decrypt_refuses_malformed_packets() {
    let key = [7u8; 32];
    let nonce = [0u8; 12];
    let packet = encrypt_host_transport_packet_with_nonce("x", &key, &nonce).unwrap();
    let good: serde_json::Value = serde_json::from_str(&packet).unwrap();

    // Not an object.
    assert!(decrypt_host_transport_packet(&parse("[1]"), &key).is_err());
    // Missing field.
    let mut missing = good.clone();
    missing.as_object_mut().unwrap().remove("tag");
    assert!(decrypt_host_transport_packet(&to_json(&missing), &key).is_err());
    // Field that is not a string.
    let mut number = good.clone();
    number["iv"] = serde_json::Value::from(5);
    assert!(decrypt_host_transport_packet(&to_json(&number), &key).is_err());
    // Nonce of the wrong length.
    let mut short = good.clone();
    short["iv"] = serde_json::Value::String("AQID".to_string());
    assert!(decrypt_host_transport_packet(&to_json(&short), &key).is_err());
    // Not base64.
    let mut bad = good.clone();
    bad["encryptedData"] = serde_json::Value::String("***".to_string());
    assert!(decrypt_host_transport_packet(&to_json(&bad), &key).is_err());
    // Tampered tag.
    let mut tampered = good.clone();
    tampered["tag"] = serde_json::Value::String("AAAAAAAAAAAAAAAAAAAAAA==".to_string());
    assert!(decrypt_host_transport_packet(&to_json(&tampered), &key).is_err());
    // The untouched packet decrypts.
    assert_eq!(decrypt_host_transport_packet(&to_json(&good), &key).unwrap(), b"x");
}

#[test]
fn dispatch_marks_ready_and_queues() {
    let key = [3u8; 32];
    let mut regs: Regs = Registries::new();
    let id = regs.insert_webview_placeholder(webview(1, key, Some(42), false)).unwrap();
    let mut queue = HostQueue::new();
    let packet = encrypt_host_transport_packet_with_nonce("{\"a\":1}", &key, &[5u8; 12]).unwrap();
    let r = dispatch_host_transport_message(&mut regs, &mut queue, id, &parse(&packet));
    assert_eq!(r, Some(EnqueueOutcome::Queued { write_wakeup: true }));
    assert!(regs.webview_state(id).unwrap().transport_ready);
    let m = electrobun::host_queue::pop_next(&mut queue).unwrap();
    assert_eq!(m.webview_id, id);
    assert_eq!(m.message, "{\"a\":1}");
}

#[test]
fn dispatch_ignores_unknown_webview_and_bad_packets() {
    let key = [3u8; 32];
    let mut regs: Regs = Registries::new();
    let id = regs.insert_webview_placeholder(webview(1, key, Some(42), false)).unwrap();
    let mut queue = HostQueue::new();
    let packet = encrypt_host_transport_packet_with_nonce("{}", &key, &[5u8; 12]).unwrap();
    assert_eq!(dispatch_host_transport_message(&mut regs, &mut queue, id + 1, &parse(&packet)), None);
    let other = encrypt_host_transport_packet_with_nonce("{}", &[4u8; 32], &[5u8; 12]).unwrap();
    assert_eq!(dispatch_host_transport_message(&mut regs, &mut queue, id, &parse(&other)), None);
    assert!(!regs.webview_state(id).unwrap().transport_ready);
    assert!(electrobun::host_queue::pop_next(&mut queue).is_none());
}

#[test]
fn send_needs_a_ready_socket() {
    let key = [1u8; 32];
    let mut regs: Regs = Registries::new();
    let id = regs.insert_webview_placeholder(webview(1, key, Some(9), false)).unwrap();
    assert!(matches!(send_via_transport(&regs, id, "{}"), TransportSend::Unavailable));
    assert!(matches!(send_via_transport(&regs, id + 7, "{}"), TransportSend::Unavailable));
    regs.mark_webview_transport_ready(id, 9);
    match send_via_transport(&regs, id, "{\"hi\":true}") {
        TransportSend::Write { handle, frame } => {
            assert_eq!(handle, 9);
            assert_eq!(frame[0], 0x81);
            let len = frame[1] as usize;
            assert!(len <= 125);
            let text = std::str::from_utf8(&frame[2..]).unwrap();
            assert_eq!(text.len(), len);
            let plain = decrypt_host_transport_packet(&parse(text), &key).unwrap();
            assert_eq!(plain, b"{\"hi\":true}");
        }
        _ => panic!("expected a frame to write"),
    }
}

#[test]
fn close_and_clear_returns_socket() {
    let mut regs: Regs = Registries::new();
    let id = regs.insert_webview_placeholder(webview(1, [0; 32], Some(5), false)).unwrap();
    regs.mark_webview_transport_ready(id, 5);
    assert_eq!(close_and_clear_webview_socket(&mut regs, id), Some(5));
    let s = regs.webview_state(id).unwrap();
    assert_eq!(s.socket_handle, None);
    assert!(!s.transport_ready);
    assert_eq!(close_and_clear_webview_socket(&mut regs, id + 1), None);
}

#[test]
fn connection_step_answers() {
    let mut regs: Regs = Registries::new();
    regs.insert_window_placeholder(WindowState { ptr: 1, transparent: false, handlers: 0 });
    let id = regs.insert_webview_placeholder(webview(1, [0; 32], None, false)).unwrap();
    let head = format!(
        "GET /socket?webviewId={id} HTTP/1.1\r\nHost: x\r\nsec-websocket-key:  dGhlIHNhbXBsZSBub25jZQ== \r\n\r\n"
    );
    match connection_step(&regs, &head) {
        ConnectionStep::Upgrade { webview_id, response } => {
            assert_eq!(webview_id, id);
            assert!(response.ends_with("Sec-WebSocket-Accept: s3pPLMBiTxaQ9kYGzzhZRbK+xOo=\r\n\r\n"));
        }
        _ => panic!("expected an upgrade"),
    }
    let no_key = "GET /socket?webviewId=1 HTTP/1.1\r\nHost: x\r\n\r\n";
    match connection_step(&regs, no_key) {
        ConnectionStep::Reject { response } => assert!(response.ends_with("Missing Sec-WebSocket-Key")),
        _ => panic!(),
    }
    let no_id = "GET /other HTTP/1.1\r\nSec-WebSocket-Key: k\r\n\r\n";
    match connection_step(&regs, no_id) {
        ConnectionStep::Reject { response } => {
            assert!(response.starts_with("HTTP/1.1 400 Bad Request\r\n"));
            assert!(response.ends_with("Missing webviewId"));
        }
        _ => panic!(),
    }
    let unknown = "GET /socket?webviewId=77 HTTP/1.1\r\nSec-WebSocket-Key: k\r\n\r\n";
    match connection_step(&regs, unknown) {
        ConnectionStep::Reject { response } => {
            assert!(response.starts_with("HTTP/1.1 404 Not Found\r\n"));
            assert!(response.ends_with("Unknown webviewId"));
        }
        _ => panic!(),
    }
}

#[test]
fn frame_actions() {
    let masked_ping = [0x89u8, 0x82, 1, 2, 3, 4, b'h' ^ 1, b'i' ^ 2];
    let (frame, used) = decode_client_frame(&masked_ping).unwrap();
    assert_eq!(used, 8);
    match frame_action(&frame) {
        FrameAction::Reply { reply } => assert_eq!(reply, vec![0x8A, 2, b'h', b'i']),
        _ => panic!(),
    }
    let close = [0x88u8, 0x80, 0, 0, 0, 0];
    let (frame, _) = decode_client_frame(&close).unwrap();
    match frame_action(&frame) {
        FrameAction::Close { reply } => assert_eq!(reply, vec![0x88, 0]),
        _ => panic!(),
    }
    let text = [0x81u8, 0x80, 0, 0, 0, 0];
    let (frame, _) = decode_client_frame(&text).unwrap();
    assert!(matches!(frame_action(&frame), FrameAction::Dispatch));
    let binary = [0x82u8, 0x80, 0, 0, 0, 0];
    let (frame, _) = decode_client_frame(&binary).unwrap();
    assert!(matches!(frame_action(&frame), FrameAction::Ignore));
}

#[test]
fn server_frames_use_extended_lengths() {
    let small = encode_server_frame(1, &[0u8; 125]);
    assert_eq!(&small[..2], &[0x81, 125]);
    let medium = encode_server_frame(1, &[0u8; 126]);
    assert_eq!(&medium[..4], &[0x81, 126, 0, 126]);
    let large = encode_server_frame(2, &vec![0u8; 70000]);
    assert_eq!(&large[..10], &[0x82, 127, 0, 0, 0, 0, 0, 1, 0x11, 0x70]);
    assert_eq!(large.len(), 70010);
}

#[test]
fn server_start_plans() {
    let stopped = HostTransportState { started: false, port: 0 };
    assert!(matches!(plan_server_start(&stopped, 0), ServerStart::Scan { first: 50000, last: 65535 }));
    assert!(matches!(plan_server_start(&stopped, 8080), ServerStart::Scan { first: 8080, last: 8080 }));
    match plan_server_start(&stopped, 70000) {
        ServerStart::OutOfRange(msg) => assert_eq!(msg, "Requested websocket port is out of range: 70000"),
        _ => panic!(),
    }
    let running = HostTransportState { started: true, port: 50001 };
    assert!(matches!(plan_server_start(&running, 0), ServerStart::Running { port: 50001 }));
    assert_eq!(next_port(50000, 65535), Some(50001));
    assert_eq!(next_port(65535, 65535), None);
}

#[test]
fn http_head_end_cases() {
    assert_eq!(http_head_end(b"GET / HTTP/1.1\r\n\r\nrest"), Ok(Some(18)));
    assert_eq!(http_head_end(b"GET / HTTP/1.1\r\n"), Ok(None));
    assert_eq!(http_head_end(&vec![b'a'; 65537]), Err(()));
    assert_eq!(http_head_end(&vec![b'a'; 65536]), Ok(None));
}

#[test]
fn frame_read_step_by_step() {
    // Masked text frame "Hi" with a 126 (two extended bytes) length code.
    let mask = [1u8, 2, 3, 4];
    let mut bytes = vec![0x81u8, 0x80 | 126, 0, 2];
    bytes.extend_from_slice(&mask);
    bytes.push(b'H' ^ 1);
    bytes.push(b'i' ^ 2);
    assert!(matches!(frame_progress(&[]), FrameProgress::NeedMore(2)));
    assert!(matches!(frame_progress(&bytes[..2]), FrameProgress::NeedMore(2)));
    assert!(matches!(frame_progress(&bytes[..4]), FrameProgress::NeedMore(6)));
    match frame_progress(&bytes) {
        FrameProgress::Complete(frame) => {
            assert_eq!(frame.opcode, 1);
            assert_eq!(frame.payload, b"Hi".to_vec());
        }
        _ => panic!("frame should be complete"),
    }
    // Unmasked frames are refused.
    assert!(matches!(frame_progress(&[0x81, 0x02]), FrameProgress::Failed(FrameError::Invalid)));
    // Lengths above the limit are refused before the payload is read.
    let huge = [0x82u8, 0x80 | 127, 0, 0, 0, 1, 0, 0, 0, 0];
    assert!(matches!(frame_progress(&huge), FrameProgress::Failed(FrameError::TooLarge)));
}
