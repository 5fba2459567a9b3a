//! The encrypted host/webview transport: the HTTP upgrade handshake, the
//! `{encryptedData, iv, tag}` packets (AES-256-GCM with a per-webview key,
//! a 12-byte nonce, a 16-byte tag and no associated data, each field in
//! standard base64), and what the host does with each frame.
//!
//! Sockets, threads and the listener are the host's; this module decides
//! what is written and how the registries and the queue change.
use vstd::prelude::*;
use vstd::utf8::{encode_utf8, valid_utf8, decode_utf8};
use aes_gcm::aead::{Aead, KeyInit, Payload};
use aes_gcm::aead::rand_core::RngCore;
use aes_gcm::{Aes256Gcm, Key, Nonce};
use sha1::{Digest, Sha1};
use crate::base64::{base64_encode, decode_base64, b64_encode_spec, b64_decode_spec, lemma_b64_roundtrip};
use crate::json::{JsonValue, json_get_spec, json_str_spec};
use crate::secret_key::WebviewSecretKey;
use crate::text::{concat, decimal_string, dec_digits, string_from_utf8};
use crate::frame::{encode_server_frame, encode_header_spec, WebSocketFrame};
use crate::host_queue::{HostQueue, EnqueueOutcome, enqueue, enqueued, enqueue_outcome};
use crate::http::{
    parse_request_header_value,
    parse_request_target,
    parse_webview_id_from_target,
    request_header_value_spec,
    request_target_spec,
    webview_id_from_target_spec,
};
use crate::registry::{Registries, WebviewState, with_transport_ready};

verus! {

/// Length of the AES-GCM nonce carried in `iv`.
pub const NONCE_LEN: usize = 12;

/// Length of the AES-GCM tag carried in `tag`.
pub const TAG_LEN: usize = 16;

/// The longest plaintext AES-GCM encrypts: 2^36 bytes.
pub const AES_GCM_MAX_PLAINTEXT: u64 = 68719476736;

/// What `Aes256Gcm::encrypt` returns for a key, a nonce and a plaintext
/// (no associated data): the ciphertext followed by the tag.
pub uninterp spec fn aes256gcm_seal(key: Seq<u8>, nonce: Seq<u8>, plaintext: Seq<u8>) -> Seq<u8>;

/// What `Aes256Gcm::decrypt` returns for a key, a nonce and a ciphertext
/// followed by its tag (no associated data): the plaintext, or nothing when
/// the tag does not authenticate.
pub uninterp spec fn aes256gcm_open(key: Seq<u8>, nonce: Seq<u8>, sealed: Seq<u8>) -> Option<Seq<u8>>;

/// The SHA-1 digest of a byte string.
pub uninterp spec fn sha1_spec(data: Seq<u8>) -> Seq<u8>;

/// `aes_gcm`'s `Aes256Gcm::encrypt` with an empty associated data. The
/// crate refuses plaintexts longer than 2^36 bytes and otherwise returns
/// the ciphertext, as long as the plaintext, followed by the 16-byte tag;
/// decrypting that with the same key and nonce gives the plaintext back.
#[verifier::external_body]
fn aes256gcm_encrypt(key: &WebviewSecretKey, nonce: &[u8; NONCE_LEN], plaintext: &[u8]) -> (r: Option<Vec<u8>>)
    ensures
        r is Some <==> plaintext@.len() <= AES_GCM_MAX_PLAINTEXT,
        r matches Some(c) ==> c@ == aes256gcm_seal(key@, nonce@, plaintext@),
        r matches Some(c) ==> c@.len() == plaintext@.len() + TAG_LEN,
        r matches Some(c) ==> aes256gcm_open(key@, nonce@, c@) == Some(plaintext@),
{
    let cipher = Aes256Gcm::new(Key::<Aes256Gcm>::from_slice(key));
    cipher.encrypt(Nonce::from_slice(nonce), Payload { msg: plaintext, aad: b"" }).ok()
}

/// `aes_gcm`'s `Aes256Gcm::decrypt` with an empty associated data, on a
/// ciphertext followed by its tag. The nonce must be 12 bytes (the crate
/// panics otherwise).
#[verifier::external_body]
fn aes256gcm_decrypt(key: &WebviewSecretKey, nonce: &[u8], sealed: &[u8]) -> (r: Option<Vec<u8>>)
    requires
        nonce@.len() == NONCE_LEN,
    ensures
        match r {
            Some(p) => aes256gcm_open(key@, nonce@, sealed@) == Some(p@),
            None => aes256gcm_open(key@, nonce@, sealed@) is None,
        },
{
    let cipher = Aes256Gcm::new(Key::<Aes256Gcm>::from_slice(key));
    cipher.decrypt(Nonce::from_slice(nonce), Payload { msg: sealed, aad: b"" }).ok()
}

/// `len` bytes from the operating system's random source (`aead`'s
/// `OsRng.try_fill_bytes`), or `None` when the source fails. Nothing is
/// said of the bytes but their number.
#[verifier::external_body]
pub(crate) fn random_bytes(len: usize) -> (r: Option<Vec<u8>>)
    ensures
        r matches Some(v) ==> v@.len() == len,
{
    let mut bytes = vec![0u8; len];
    match aes_gcm::aead::OsRng.try_fill_bytes(&mut bytes) {
        Ok(()) => Some(bytes),
        Err(_) => None,
    }
}

/// A random nonce, or `None` when the random source fails.
fn random_nonce() -> (r: Option<[u8; NONCE_LEN]>) {
    let bytes = match random_bytes(NONCE_LEN) {
        Some(b) => b,
        None => return None,
    };
    let mut nonce = [0u8; NONCE_LEN];
    let mut i: usize = 0;
    while i < NONCE_LEN
        invariant
            bytes@.len() == NONCE_LEN,
            i <= NONCE_LEN,
        decreases NONCE_LEN - i,
    {
        nonce[i] = bytes[i];
        i += 1;
    }
    Some(nonce)
}

/// `sha1`'s `Sha1::digest`: the 20-byte SHA-1 digest of `data`.
#[verifier::external_body]
fn sha1_digest(data: &[u8]) -> (d: Vec<u8>)
    ensures
        d@ == sha1_spec(data@),
        d@.len() == 20,
{
    Sha1::digest(data).to_vec()
}

/// The GUID RFC 6455 appends to the client's key.
pub open spec fn websocket_magic() -> Seq<char> {
    "258EAFA5-E914-47DA-95CA-C5AB0DC85B11"@
}

/// `Sec-WebSocket-Accept` for a client key: base64 of the SHA-1 of the
/// key's bytes followed by the GUID's bytes.
pub open spec fn websocket_accept_spec(key: Seq<char>) -> Seq<char> {
    b64_encode_spec(sha1_spec(encode_utf8(key) + encode_utf8(websocket_magic())))
}

/// The handshake answer to an upgrade request carrying `key`.
pub open spec fn handshake_response_spec(key: Seq<char>) -> Seq<char> {
    "HTTP/1.1 101 Switching Protocols\r\nUpgrade: websocket\r\nConnection: Upgrade\r\nSec-WebSocket-Accept: "@
        + websocket_accept_spec(key) + "\r\n\r\n"@
}

/// A plain-text HTTP answer that closes the connection; the length is the
/// body's length in bytes.
pub open spec fn simple_http_response_spec(status: Seq<char>, body: Seq<char>) -> Seq<char> {
    "HTTP/1.1 "@ + status + "\r\nContent-Type: text/plain\r\nContent-Length: "@ + dec_digits(
        encode_utf8(body).len(),
    ) + "\r\nConnection: close\r\n\r\n"@ + body
}

/// The `Sec-WebSocket-Accept` value for `websocket_key`.
pub fn websocket_accept_value(websocket_key: &str) -> (s: String)
    ensures
        s@ == websocket_accept_spec(websocket_key@),
{
    let magic = "258EAFA5-E914-47DA-95CA-C5AB0DC85B11";
    let mut data = vstd::slice::slice_to_vec(websocket_key.as_bytes());
    data.extend_from_slice(magic.as_bytes());
    proof {
        assert(data@ =~= encode_utf8(websocket_key@) + encode_utf8(websocket_magic()));
    }
    let digest = sha1_digest(data.as_slice());
    base64_encode(digest.as_slice())
}

/// The `101 Switching Protocols` answer for `websocket_key`.
pub fn websocket_handshake_response(websocket_key: &str) -> (s: String)
    ensures
        s@ == handshake_response_spec(websocket_key@),
{
    let head = String::from_str(
        "HTTP/1.1 101 Switching Protocols\r\nUpgrade: websocket\r\nConnection: Upgrade\r\nSec-WebSocket-Accept: ",
    );
    let accept = websocket_accept_value(websocket_key);
    let s = concat(head, accept.as_str());
    concat(s, "\r\n\r\n")
}

/// A plain-text HTTP answer with `status` and `body`.
pub fn simple_http_response(status: &str, body: &str) -> (s: String)
    ensures
        s@ == simple_http_response_spec(status@, body@),
{
    let s = concat(String::from_str("HTTP/1.1 "), status);
    let s = concat(s, "\r\nContent-Type: text/plain\r\nContent-Length: ");
    let len = decimal_string(body.as_bytes().len() as u64);
    let s = concat(s, len.as_str());
    let s = concat(s, "\r\nConnection: close\r\n\r\n");
    concat(s, body)
}

/// The JSON text of a packet with the three base64 fields.
pub open spec fn packet_text(encrypted: Seq<char>, iv: Seq<char>, tag: Seq<char>) -> Seq<char> {
    "{\"encryptedData\":\""@ + encrypted + "\",\"iv\":\""@ + iv + "\",\"tag\":\""@ + tag + "\"}"@
}

/// The base64 fields for a ciphertext-and-tag and its nonce: the
/// ciphertext (all but the last 16 bytes), the nonce, the tag.
pub open spec fn sealed_fields(sealed: Seq<u8>, nonce: Seq<u8>) -> (Seq<char>, Seq<char>, Seq<char>) {
    let n = sealed.len() - TAG_LEN;
    (b64_encode_spec(sealed.take(n)), b64_encode_spec(nonce), b64_encode_spec(sealed.skip(n)))
}

/// The packet text for a ciphertext-and-tag and its nonce.
pub open spec fn sealed_packet_spec(sealed: Seq<u8>, nonce: Seq<u8>) -> Seq<char> {
    let f = sealed_fields(sealed, nonce);
    packet_text(f.0, f.1, f.2)
}

/// What the three base64 fields of a packet decrypt to: each must decode,
/// the nonce must be 12 bytes and the tag 16, and the tag must
/// authenticate the ciphertext under `key`.
pub open spec fn decrypt_fields_spec(
    encrypted: Seq<char>,
    iv: Seq<char>,
    tag: Seq<char>,
    key: Seq<u8>,
) -> Option<Seq<u8>> {
    match (b64_decode_spec(encrypted), b64_decode_spec(iv), b64_decode_spec(tag)) {
        (Some(ct), Some(n), Some(t)) => if n.len() == NONCE_LEN && t.len() == TAG_LEN {
            aes256gcm_open(key, n, ct + t)
        } else {
            None
        },
        _ => None,
    }
}

/// The text of the string member `name` of a packet.
pub open spec fn packet_field(v: JsonValue, name: Seq<char>) -> Option<Seq<char>> {
    match json_get_spec(v, name) {
        Some(f) => json_str_spec(f),
        None => None,
    }
}

/// What a packet decrypts to: it must be an object with string members
/// `encryptedData`, `iv` and `tag` that decrypt as above.
pub open spec fn decrypt_packet_spec(v: JsonValue, key: Seq<u8>) -> Option<Seq<u8>> {
    match (packet_field(v, "encryptedData"@), packet_field(v, "iv"@), packet_field(v, "tag"@)) {
        (Some(e), Some(i), Some(t)) => decrypt_fields_spec(e, i, t, key),
        _ => None,
    }
}

/// The packet text for `sealed` (ciphertext followed by the 16-byte tag)
/// and `nonce`.
pub fn host_transport_packet(sealed: &[u8], nonce: &[u8]) -> (s: String)
    requires
        sealed@.len() >= TAG_LEN,
    ensures
        s@ == sealed_packet_spec(sealed@, nonce@),
{
    let n = sealed.len() - TAG_LEN;
    let (ciphertext, tag) = sealed.split_at(n);
    proof {
        assert(ciphertext@ =~= sealed@.take(n as int));
        assert(tag@ =~= sealed@.skip(n as int));
    }
    let e = base64_encode(ciphertext);
    let i = base64_encode(nonce);
    let t = base64_encode(tag);
    let s = concat(String::from_str("{\"encryptedData\":\""), e.as_str());
    let s = concat(s, "\",\"iv\":\"");
    let s = concat(s, i.as_str());
    let s = concat(s, "\",\"tag\":\"");
    let s = concat(s, t.as_str());
    concat(s, "\"}")
}

/// The fields of a packet built from what AES-GCM sealed decrypt back to
/// the plaintext.
proof fn lemma_sealed_fields_open(key: Seq<u8>, nonce: Seq<u8>, plaintext: Seq<u8>, sealed: Seq<u8>)
    requires
        nonce.len() == NONCE_LEN,
        sealed.len() == plaintext.len() + TAG_LEN,
        aes256gcm_open(key, nonce, sealed) == Some(plaintext),
    ensures
        ({
            let f = sealed_fields(sealed, nonce);
            decrypt_fields_spec(f.0, f.1, f.2, key) == Some(plaintext)
        }),
{
    let n = sealed.len() - TAG_LEN;
    lemma_b64_roundtrip(sealed.take(n));
    lemma_b64_roundtrip(nonce);
    lemma_b64_roundtrip(sealed.skip(n));
    assert(sealed.take(n) + sealed.skip(n) =~= sealed);
}

/// Encrypt `message_json` under `secret_key` with `nonce` and frame it as a
/// packet. Fails, with `AesGcmEncryptFailed`, only for a message over
/// 2^36 bytes. The packet's fields decrypt back to the message.
pub fn encrypt_host_transport_packet_with_nonce(
    message_json: &str,
    secret_key: &WebviewSecretKey,
    nonce: &[u8; NONCE_LEN],
) -> (r: Result<String, String>)
    ensures
        match r {
            Ok(s) => {
                let sealed = aes256gcm_seal(secret_key@, nonce@, encode_utf8(message_json@));
                let f = sealed_fields(sealed, nonce@);
                &&& encode_utf8(message_json@).len() <= AES_GCM_MAX_PLAINTEXT
                &&& s@ == sealed_packet_spec(sealed, nonce@)
                &&& decrypt_fields_spec(f.0, f.1, f.2, secret_key@) == Some(encode_utf8(message_json@))
            },
            Err(e) => encode_utf8(message_json@).len() > AES_GCM_MAX_PLAINTEXT && e@
                == "AesGcmEncryptFailed"@,
        },
{
    let plaintext = message_json.as_bytes();
    let sealed = match aes256gcm_encrypt(secret_key, nonce, plaintext) {
        Some(c) => c,
        None => return Err(String::from_str("AesGcmEncryptFailed")),
    };
    proof {
        lemma_sealed_fields_open(secret_key@, nonce@, plaintext@, sealed@);
    }
    Ok(host_transport_packet(sealed.as_slice(), nonce))
}

/// Encrypt `message_json` under `secret_key` with a fresh random nonce and
/// frame it as a packet. Fails with `RandomFailed` when no random nonce
/// could be had, and with `AesGcmEncryptFailed` for a message over 2^36
/// bytes. The packet's fields decrypt back to the message.
pub fn encrypt_host_transport_packet(message_json: &str, secret_key: &WebviewSecretKey) -> (r: Result<
    String,
    String,
>)
    ensures
        match r {
            Ok(s) => {
                &&& encode_utf8(message_json@).len() <= AES_GCM_MAX_PLAINTEXT
                &&& exists|n: Seq<u8>|
                    #![trigger packet_for(secret_key@, n, message_json@)]
                    n.len() == NONCE_LEN && s@ == packet_for(secret_key@, n, message_json@)
                        && packet_decrypts(secret_key@, n, message_json@)
            },
            Err(e) => e@ == "RandomFailed"@ || (e@ == "AesGcmEncryptFailed"@ && encode_utf8(
                message_json@,
            ).len() > AES_GCM_MAX_PLAINTEXT),
        },
        encode_utf8(message_json@).len() > AES_GCM_MAX_PLAINTEXT ==> r is Err,
{
    let nonce = match random_nonce() {
        Some(n) => n,
        None => return Err(String::from_str("RandomFailed")),
    };
    let r = encrypt_host_transport_packet_with_nonce(message_json, secret_key, &nonce);
    proof {
        let n = nonce@;
        assert(n.len() == NONCE_LEN);
        if r is Ok {
            assert(r->Ok_0@ == packet_for(secret_key@, n, message_json@));
            assert(packet_decrypts(secret_key@, n, message_json@));
        }
    }
    r
}

/// The string member `name` of a packet.
fn packet_str_field<'a>(packet: &'a JsonValue, name: &str) -> (r: Option<&'a str>)
    ensures
        match r {
            Some(t) => packet_field(*packet, name@) == Some(t@),
            None => packet_field(*packet, name@) is None,
        },
{
    match packet.get(name) {
        Some(v) => v.as_str(),
        None => None,
    }
}

/// Decrypt a `{encryptedData, iv, tag}` packet under `secret_key`.
pub fn decrypt_host_transport_packet(packet: &JsonValue, secret_key: &WebviewSecretKey) -> (r: Result<
    Vec<u8>,
    (),
>)
    ensures
        match r {
            Ok(p) => decrypt_packet_spec(*packet, secret_key@) == Some(p@),
            Err(()) => decrypt_packet_spec(*packet, secret_key@) is None,
        },
{
    let encrypted_data = match packet_str_field(packet, "encryptedData") {
        Some(s) => s,
        None => return Err(()),
    };
    let iv = match packet_str_field(packet, "iv") {
        Some(s) => s,
        None => return Err(()),
    };
    let tag = match packet_str_field(packet, "tag") {
        Some(s) => s,
        None => return Err(()),
    };
    let ciphertext = match decode_base64(encrypted_data) {
        Some(d) => d,
        None => return Err(()),
    };
    let nonce_bytes = match decode_base64(iv) {
        Some(d) => d,
        None => return Err(()),
    };
    let tag_bytes = match decode_base64(tag) {
        Some(d) => d,
        None => return Err(()),
    };
    if nonce_bytes.len() != NONCE_LEN || tag_bytes.len() != TAG_LEN {
        return Err(());
    }
    let mut combined = ciphertext;
    combined.extend_from_slice(tag_bytes.as_slice());
    proof {
        assert(combined@ =~= b64_decode_spec(encrypted_data@)->0 + tag_bytes@);
    }
    match aes256gcm_decrypt(secret_key, nonce_bytes.as_slice(), combined.as_slice()) {
        Some(p) => Ok(p),
        None => Err(()),
    }
}

/// The packet for `message` under `key` and nonce `nonce`.
pub open spec fn packet_for(key: Seq<u8>, nonce: Seq<u8>, message: Seq<char>) -> Seq<char> {
    sealed_packet_spec(aes256gcm_seal(key, nonce, encode_utf8(message)), nonce)
}

/// The fields of the packet for `message` decrypt back to its bytes.
pub open spec fn packet_decrypts(key: Seq<u8>, nonce: Seq<u8>, message: Seq<char>) -> bool {
    let f = sealed_fields(aes256gcm_seal(key, nonce, encode_utf8(message)), nonce);
    decrypt_fields_spec(f.0, f.1, f.2, key) == Some(encode_utf8(message))
}

/// What one side encrypts the other decrypts: a packet value whose three
/// string members hold the fields written for `message` (under `key` and
/// `nonce`) decrypts to the message's bytes.
pub proof fn lemma_transport_roundtrip(key: Seq<u8>, nonce: Seq<u8>, message: Seq<char>, packet: JsonValue)
    requires
        packet_decrypts(key, nonce, message),
        ({
            let f = sealed_fields(aes256gcm_seal(key, nonce, encode_utf8(message)), nonce);
            &&& packet_field(packet, "encryptedData"@) == Some(f.0)
            &&& packet_field(packet, "iv"@) == Some(f.1)
            &&& packet_field(packet, "tag"@) == Some(f.2)
        }),
    ensures
        decrypt_packet_spec(packet, key) == Some(encode_utf8(message)),
{
}

/// A server-to-client text frame carrying `text`.
pub open spec fn text_frame_spec(text: Seq<char>) -> Seq<u8> {
    encode_header_spec(0x1, encode_utf8(text).len()) + encode_utf8(text)
}

/// Whether `webview_id` has a socket that is ready for host messages.
pub open spec fn transport_ready_for(m: Map<u32, WebviewState>, webview_id: u32) -> bool {
    m.contains_key(webview_id) && m[webview_id].transport_ready && m[webview_id].socket_handle is Some
}

/// What the host is to do for one host-to-webview message.
pub enum TransportSend {
    /// The webview has no ready socket: nothing is sent.
    Unavailable,
    /// Encrypting failed; the text is the error to record.
    EncryptFailed(String),
    /// Write `frame` to the socket `handle`. If the write fails the socket
    /// is detached with `clear_webview_socket_if_current`.
    Write { handle: i32, frame: Vec<u8> },
}

/// Plan sending `message_json` to `webview_id` over its socket: the
/// webview must be known and its transport ready; the message is
/// encrypted under the webview's key with a fresh nonce and framed as one
/// text frame.
pub fn send_via_transport<H: Copy, N: Copy, E: Copy, P: Copy>(
    registries: &Registries<H, N, E, P>,
    webview_id: u32,
    message_json: &str,
) -> (r: TransportSend)
    ensures
        match r {
            TransportSend::Unavailable => !transport_ready_for(registries.webviews@, webview_id),
            TransportSend::EncryptFailed(msg) => {
                &&& transport_ready_for(registries.webviews@, webview_id)
                &&& (msg@ == "Failed to encrypt host transport packet: "@ + "RandomFailed"@ || (msg@
                    == "Failed to encrypt host transport packet: "@ + "AesGcmEncryptFailed"@
                    && encode_utf8(message_json@).len() > AES_GCM_MAX_PLAINTEXT))
            },
            TransportSend::Write { handle, frame } => {
                let key = registries.webviews@[webview_id].secret_key@;
                &&& transport_ready_for(registries.webviews@, webview_id)
                &&& registries.webviews@[webview_id].socket_handle == Some(handle)
                &&& encode_utf8(message_json@).len() <= AES_GCM_MAX_PLAINTEXT
                &&& exists|n: Seq<u8>|
                    #![trigger packet_for(key, n, message_json@)]
                    n.len() == NONCE_LEN && frame@ == text_frame_spec(packet_for(key, n, message_json@))
                        && packet_decrypts(key, n, message_json@)
            },
        },
{
    let context = match registries.webview_transport_context(webview_id) {
        Some(c) => c,
        None => return TransportSend::Unavailable,
    };
    if !context.transport_ready {
        return TransportSend::Unavailable;
    }
    let handle = match context.socket_handle {
        Some(h) => h,
        None => return TransportSend::Unavailable,
    };
    match encrypt_host_transport_packet(message_json, &context.secret_key) {
        Ok(packet) => {
            let frame = encode_server_frame(0x1, packet.as_str().as_bytes());
            proof {
                let key = context.secret_key@;
                let n = choose|n: Seq<u8>|
                    #![trigger packet_for(key, n, message_json@)]
                    n.len() == NONCE_LEN && packet@ == packet_for(key, n, message_json@)
                        && packet_decrypts(key, n, message_json@);
                assert(frame@ == text_frame_spec(packet_for(key, n, message_json@)));
            }
            TransportSend::Write { handle, frame }
        },
        Err(e) => TransportSend::EncryptFailed(
            concat(String::from_str("Failed to encrypt host transport packet: "), e.as_str()),
        ),
    }
}

/// Detach a webview's socket (clearing its ready mark) and return it for
/// the host to close.
pub fn close_and_clear_webview_socket<H: Copy, N: Copy, E: Copy, P: Copy>(
    registries: &mut Registries<H, N, E, P>,
    webview_id: u32,
) -> (r: Option<i32>)
    requires
        old(registries).wf(),
    ensures
        final(registries).wf(),
        final(registries).windows@ == old(registries).windows@,
        final(registries).wgpu_views@ == old(registries).wgpu_views@,
        if old(registries).webviews@.contains_key(webview_id) {
            &&& r == old(registries).webviews@[webview_id].socket_handle
            &&& final(registries).webviews@ == old(registries).webviews@.insert(
                webview_id,
                WebviewState {
                    socket_handle: None,
                    transport_ready: false,
                    ..old(registries).webviews@[webview_id]
                },
            )
        } else {
            r is None && final(registries).webviews@ == old(registries).webviews@
        },
{
    registries.take_webview_socket(webview_id)
}

/// Hand a decrypted message to the host: mark the webview's transport ready
/// when it arrived on `socket_handle`, then queue the message if it is
/// UTF-8 text.
pub fn deliver_host_transport_plaintext<H: Copy, N: Copy, E: Copy, P: Copy>(
    registries: &mut Registries<H, N, E, P>,
    queue: &mut HostQueue,
    webview_id: u32,
    socket_handle: Option<i32>,
    plaintext: Vec<u8>,
) -> (r: Option<EnqueueOutcome>)
    requires
        old(registries).wf(),
    ensures
        final(registries).wf(),
        final(registries).windows@ == old(registries).windows@,
        final(registries).wgpu_views@ == old(registries).wgpu_views@,
        final(registries).webviews@ == match socket_handle {
            Some(h) => with_transport_ready(old(registries).webviews@, webview_id, h),
            None => old(registries).webviews@,
        },
        final(queue).wakeup == old(queue).wakeup,
        if valid_utf8(plaintext@) {
            &&& r == Some(enqueue_outcome(old(queue).wakeup, decode_utf8(plaintext@)))
            &&& final(queue).model() == enqueued(
                old(queue).model(),
                webview_id,
                decode_utf8(plaintext@),
            )
        } else {
            r is None && final(queue).model() == old(queue).model()
        },
{
    if let Some(handle) = socket_handle {
        registries.mark_webview_transport_ready(webview_id, handle);
    }
    match string_from_utf8(plaintext) {
        Some(message) => Some(enqueue(queue, webview_id, message.as_str())),
        None => None,
    }
}

/// What a packet from `webview_id` decrypts to under the webview's key
/// (nothing for an unknown webview).
pub open spec fn inbound_plaintext(m: Map<u32, WebviewState>, webview_id: u32, packet: JsonValue) -> Option<
    Seq<u8>,
> {
    if m.contains_key(webview_id) {
        decrypt_packet_spec(packet, m[webview_id].secret_key@)
    } else {
        None
    }
}

/// Handle a text frame from `webview_id` holding `packet`: decrypt it under
/// the webview's key; a packet that decrypts marks the transport ready and
/// its text is queued for the host. Anything else is ignored.
pub fn dispatch_host_transport_message<H: Copy, N: Copy, E: Copy, P: Copy>(
    registries: &mut Registries<H, N, E, P>,
    queue: &mut HostQueue,
    webview_id: u32,
    packet: &JsonValue,
) -> (r: Option<EnqueueOutcome>)
    requires
        old(registries).wf(),
    ensures
        final(registries).wf(),
        final(registries).windows@ == old(registries).windows@,
        final(registries).wgpu_views@ == old(registries).wgpu_views@,
        final(queue).wakeup == old(queue).wakeup,
        match inbound_plaintext(old(registries).webviews@, webview_id, *packet) {
            None => {
                &&& r is None
                &&& final(registries).webviews@ == old(registries).webviews@
                &&& final(queue).model() == old(queue).model()
            },
            Some(pt) => {
                let st = old(registries).webviews@[webview_id];
                &&& final(registries).webviews@ == (if st.socket_handle is Some {
                    old(registries).webviews@.insert(
                        webview_id,
                        WebviewState { transport_ready: true, ..st },
                    )
                } else {
                    old(registries).webviews@
                })
                &&& if valid_utf8(pt) {
                    &&& r == Some(enqueue_outcome(old(queue).wakeup, decode_utf8(pt)))
                    &&& final(queue).model() == enqueued(
                        old(queue).model(),
                        webview_id,
                        decode_utf8(pt),
                    )
                } else {
                    r is None && final(queue).model() == old(queue).model()
                }
            },
        },
{
    let context = match registries.webview_transport_context(webview_id) {
        Some(c) => c,
        None => return None,
    };
    let plaintext = match decrypt_host_transport_packet(packet, &context.secret_key) {
        Ok(p) => p,
        Err(()) => return None,
    };
    deliver_host_transport_plaintext(registries, queue, webview_id, context.socket_handle, plaintext)
}

/// What to answer on a new connection, given its request head.
pub enum ConnectionStep {
    /// Write `response` and close the connection.
    Reject { response: String },
    /// Write `response` (the handshake), then attach the socket to
    /// `webview_id` and read frames.
    Upgrade { webview_id: u32, response: String },
}

/// The webview id a request head asks for.
pub open spec fn requested_webview(head: Seq<char>) -> Option<nat> {
    match request_target_spec(head) {
        Some(t) => webview_id_from_target_spec(t),
        None => None,
    }
}

/// Decide how to answer an upgrade request: it needs a `Sec-WebSocket-Key`
/// header, a `/socket?webviewId=<n>` target and a known webview.
pub fn connection_step<H: Copy, N: Copy, E: Copy, P: Copy>(
    registries: &Registries<H, N, E, P>,
    head: &str,
) -> (r: ConnectionStep)
    ensures
        match request_header_value_spec(head@, "Sec-WebSocket-Key"@) {
            None => r matches ConnectionStep::Reject { response } && response@
                == simple_http_response_spec("400 Bad Request"@, "Missing Sec-WebSocket-Key"@),
            Some(key) => match requested_webview(head@) {
                None => r matches ConnectionStep::Reject { response } && response@
                    == simple_http_response_spec("400 Bad Request"@, "Missing webviewId"@),
                Some(id) => if registries.webviews@.contains_key(id as u32) {
                    r matches ConnectionStep::Upgrade { webview_id, response } && webview_id == id
                        && response@ == handshake_response_spec(key)
                } else {
                    r matches ConnectionStep::Reject { response } && response@
                        == simple_http_response_spec("404 Not Found"@, "Unknown webviewId"@)
                },
            },
        },
{
    let key = match parse_request_header_value(head, "Sec-WebSocket-Key") {
        Some(k) => k,
        None => {
            return ConnectionStep::Reject {
                response: simple_http_response("400 Bad Request", "Missing Sec-WebSocket-Key"),
            };
        },
    };
    let webview_id = match parse_request_target(head) {
        Some(t) => match parse_webview_id_from_target(t) {
            Some(id) => id,
            None => {
                return ConnectionStep::Reject {
                    response: simple_http_response("400 Bad Request", "Missing webviewId"),
                };
            },
        },
        None => {
            return ConnectionStep::Reject {
                response: simple_http_response("400 Bad Request", "Missing webviewId"),
            };
        },
    };
    if registries.webview_state(webview_id).is_none() {
        return ConnectionStep::Reject {
            response: simple_http_response("404 Not Found", "Unknown webviewId"),
        };
    }
    ConnectionStep::Upgrade { webview_id, response: websocket_handshake_response(key) }
}

/// What the connection does with a frame it read.
pub enum FrameAction {
    /// A text frame: its payload is a packet for
    /// [`dispatch_host_transport_message`].
    Dispatch,
    /// Write `reply` (a pong carrying the ping's payload) and go on.
    Reply { reply: Vec<u8> },
    /// Write `reply` (an empty close frame) and stop reading.
    Close { reply: Vec<u8> },
    /// Any other opcode is skipped.
    Ignore,
}

/// The action for a frame: text frames are dispatched, a close frame is
/// answered with an empty close frame, a ping with a pong carrying the same
/// payload.
pub fn frame_action(frame: &WebSocketFrame) -> (r: FrameAction)
    ensures
        frame.opcode == 0x1 ==> r is Dispatch,
        frame.opcode == 0x8 ==> (r matches FrameAction::Close { reply } && reply@
            == encode_header_spec(0x8, 0)),
        frame.opcode == 0x9 ==> (r matches FrameAction::Reply { reply } && reply@
            == encode_header_spec(0xA, frame.payload@.len()) + frame.payload@),
        frame.opcode != 0x1 && frame.opcode != 0x8 && frame.opcode != 0x9 ==> r is Ignore,
{
    if frame.opcode == 0x1 {
        FrameAction::Dispatch
    } else if frame.opcode == 0x8 {
        let empty: Vec<u8> = Vec::new();
        let reply = encode_server_frame(0x8, empty.as_slice());
        proof {
            assert(reply@ =~= encode_header_spec(0x8, 0));
        }
        FrameAction::Close { reply }
    } else if frame.opcode == 0x9 {
        FrameAction::Reply { reply: encode_server_frame(0xA, frame.payload.as_slice()) }
    } else {
        FrameAction::Ignore
    }
}

/// First port of the scan when no port is requested.
pub const PORT_RANGE_START: u16 = 50000;

/// Last port of the scan when no port is requested.
pub const PORT_RANGE_END: u16 = 65535;

/// Whether the transport server runs, and on which port.
pub struct HostTransportState {
    pub started: bool,
    pub port: u32,
}

/// How to start the transport server.
pub enum ServerStart {
    /// It already runs on `port`.
    Running { port: u32 },
    /// Try to bind the ports `first..=last` in turn, moving on only while
    /// a port is in use.
    Scan { first: u16, last: u16 },
    /// The requested port is not a TCP port; the text is the error.
    OutOfRange(String),
}

/// Decide how to start the server for `requested_port` (`0` scans
/// 50000..=65535; any other value must fit in 16 bits and is tried alone).
pub fn plan_server_start(state: &HostTransportState, requested_port: u32) -> (r: ServerStart)
    ensures
        state.started ==> r == (ServerStart::Running { port: state.port }),
        !state.started && requested_port == 0 ==> r == (ServerStart::Scan {
            first: PORT_RANGE_START,
            last: PORT_RANGE_END,
        }),
        !state.started && 0 < requested_port <= u16::MAX ==> r == (ServerStart::Scan {
            first: requested_port as u16,
            last: requested_port as u16,
        }),
        !state.started && requested_port > u16::MAX ==> (r matches ServerStart::OutOfRange(msg)
            && msg@ == "Requested websocket port is out of range: "@ + dec_digits(
            requested_port as nat,
        )),
{
    if state.started {
        return ServerStart::Running { port: state.port };
    }
    if requested_port == 0 {
        ServerStart::Scan { first: PORT_RANGE_START, last: PORT_RANGE_END }
    } else if requested_port <= 65535 {
        ServerStart::Scan { first: requested_port as u16, last: requested_port as u16 }
    } else {
        let digits = decimal_string(requested_port as u64);
        ServerStart::OutOfRange(
            concat(String::from_str("Requested websocket port is out of range: "), digits.as_str()),
        )
    }
}

/// The port to try after `current` was found in use, if the scan goes on.
pub fn next_port(current: u16, last: u16) -> (r: Option<u16>)
    ensures
        r == (if current < last {
            Some((current + 1) as u16)
        } else {
            None::<u16>
        }),
{
    if current < last {
        Some(current + 1)
    } else {
        None
    }
}

/// Record that the server listens on `port`.
pub fn record_server_started(state: &mut HostTransportState, port: u16)
    ensures
        final(state).started,
        final(state).port == port as u32,
{
    state.started = true;
    state.port = port as u32;
}

/// Record that the accept loop ended.
pub fn record_server_stopped(state: &mut HostTransportState)
    ensures
        !final(state).started,
        final(state).port == 0,
{
    state.started = false;
    state.port = 0;
}

/// Largest request head the server reads before giving up (64 KiB).
pub const MAX_HTTP_HEAD: usize = 65536;

/// Where the request head ends in what was read so far: `Ok(Some(n))` when
/// the first blank line ends at byte `n`, `Ok(None)` when more must be
/// read, `Err(())` when more than 64 KiB came without a blank line.
pub fn http_head_end(buf: &[u8]) -> (r: Result<Option<usize>, ()>)
    ensures
        match r {
            Ok(Some(n)) => n >= 4 && crate::http::double_crlf_at(buf@, n - 4) && forall|j: int|
                0 <= j < n - 4 ==> !crate::http::double_crlf_at(buf@, j),
            Ok(None) => buf@.len() <= MAX_HTTP_HEAD && forall|j: int|
                0 <= j ==> !crate::http::double_crlf_at(buf@, j),
            Err(()) => buf@.len() > MAX_HTTP_HEAD && forall|j: int|
                0 <= j ==> !crate::http::double_crlf_at(buf@, j),
        },
{
    match crate::http::find_double_crlf(buf) {
        Some(pos) => {
            let len = buf.len();
            proof {
                assert(crate::http::double_crlf_at(buf@, pos as int));
            }
            assert(pos + 4 <= len);
            Ok(Some(pos + 4))
        },
        None => if buf.len() > MAX_HTTP_HEAD {
            Err(())
        } else {
            Ok(None)
        },
    }
}

} // verus!
