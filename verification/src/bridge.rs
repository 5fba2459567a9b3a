//! The internal webview-to-core bridge: what each packet asks for.
//!
//! A packet is a JSON object with a `type`. A `request` carries a `method`,
//! an `id`, the requesting `hostWebviewId` and `params`, and is answered
//! with a `{"id","payload","success","type":"response"}` packet; a
//! `message` carries an `id` naming a native action and a `payload`. This
//! module reads the packets and decides the action, with the native handles
//! it applies to; the host performs it. Values the host reads as floating
//! point numbers (frames) are handed over as the JSON values they are.
use vstd::prelude::*;
use crate::json::{
    JsonValue,
    json_get_spec,
    json_str_spec,
    json_quote,
    json_quote_spec,
    member_str,
    member_u32,
    member_bool,
    get_str,
    get_u32,
    get_bool,
};
use crate::registry::{DefaultWebviewCallbacks, Registries, window_ptr_of, webview_ptr_of, wgpu_view_ptr_of};
use crate::text::{concat, contains_char, decimal_string, dec_digits, str_eq};
use crate::secret_key::{format_secret_key_csv, key_csv, lemma_secret_key_roundtrip, secret_key_spec, SecretKeyError, SECRET_KEY_LEN};
use crate::transport::random_bytes;

verus! {

// ---- rectangles ----

/// The four members of a frame; the host reads each as a number.
pub struct RectFields<'a> {
    pub x: &'a JsonValue,
    pub y: &'a JsonValue,
    pub width: &'a JsonValue,
    pub height: &'a JsonValue,
}

/// The `x`, `y`, `width` and `height` members of a frame object.
pub open spec fn rect_spec(v: JsonValue) -> Option<(JsonValue, JsonValue, JsonValue, JsonValue)> {
    match (
        json_get_spec(v, "x"@),
        json_get_spec(v, "y"@),
        json_get_spec(v, "width"@),
        json_get_spec(v, "height"@),
    ) {
        (Some(x), Some(y), Some(w), Some(h)) => Some((x, y, w, h)),
        _ => None,
    }
}

/// The frame `key` of `v`.
pub open spec fn member_rect(v: JsonValue, key: Seq<char>) -> Option<
    (JsonValue, JsonValue, JsonValue, JsonValue),
> {
    match json_get_spec(v, key) {
        Some(f) => rect_spec(f),
        None => None,
    }
}

impl<'a> RectFields<'a> {
    pub open spec fn model(&self) -> (JsonValue, JsonValue, JsonValue, JsonValue) {
        (*self.x, *self.y, *self.width, *self.height)
    }
}

/// The frame members of `v`, when all four are present.
pub fn rect_fields<'a>(v: &'a JsonValue) -> (r: Option<RectFields<'a>>)
    ensures
        match r {
            Some(f) => rect_spec(*v) == Some(f.model()),
            None => rect_spec(*v) is None,
        },
{
    let x = match v.get("x") {
        Some(m) => m,
        None => return None,
    };
    let y = match v.get("y") {
        Some(m) => m,
        None => return None,
    };
    let width = match v.get("width") {
        Some(m) => m,
        None => return None,
    };
    let height = match v.get("height") {
        Some(m) => m,
        None => return None,
    };
    Some(RectFields { x, y, width, height })
}

/// The frame member `key` of `v`.
pub fn get_rect<'a>(v: &'a JsonValue, key: &str) -> (r: Option<RectFields<'a>>)
    ensures
        match r {
            Some(f) => member_rect(*v, key@) == Some(f.model()),
            None => member_rect(*v, key@) is None,
        },
{
    match v.get(key) {
        Some(f) => rect_fields(f),
        None => None,
    }
}

// ---- responses ----

/// The payload of a response.
pub enum ResponsePayload<'a> {
    /// The id of what was created.
    Id(u32),
    /// An error text.
    Text(&'a str),
    /// A yes/no answer.
    Bool(bool),
}

/// The JSON text of a payload.
pub open spec fn payload_text(p: ResponsePayload) -> Seq<char> {
    match p {
        ResponsePayload::Id(n) => dec_digits(n as nat),
        ResponsePayload::Text(t) => json_quote_spec(t@),
        ResponsePayload::Bool(b) => if b {
            "true"@
        } else {
            "false"@
        },
    }
}

/// The response packet for request `request_id` (members in the order
/// serde_json writes them).
pub open spec fn response_text(request_id: Seq<char>, success: bool, payload: ResponsePayload) -> Seq<
    char,
> {
    "{\"id\":"@ + json_quote_spec(request_id) + ",\"payload\":"@ + payload_text(payload)
        + ",\"success\":"@ + (if success {
        "true"@
    } else {
        "false"@
    }) + ",\"type\":\"response\"}"@
}

/// Build the response packet for a request.
pub fn internal_bridge_response(request_id: &str, success: bool, payload: ResponsePayload) -> (r: String)
    ensures
        r@ == response_text(request_id@, success, payload),
{
    let id = json_quote(request_id);
    let s = concat(String::from_str("{\"id\":"), id.as_str());
    let s = concat(s, ",\"payload\":");
    let s = match payload {
        ResponsePayload::Id(n) => concat(s, decimal_string(n as u64).as_str()),
        ResponsePayload::Text(t) => {
            let q = json_quote(t);
            concat(s, q.as_str())
        },
        ResponsePayload::Bool(b) => if b {
            concat(s, "true")
        } else {
            concat(s, "false")
        },
    };
    let s = concat(s, ",\"success\":");
    let s = if success {
        concat(s, "true")
    } else {
        concat(s, "false")
    };
    concat(s, ",\"type\":\"response\"}")
}

/// How a request is answered.
#[derive(Clone, Copy)]
pub enum RequestReply {
    /// A webview tag was created (`Some` id) or could not be.
    WebviewTag(Option<u32>),
    /// A wgpu view tag was created (`Some` id) or could not be.
    WgpuTag(Option<u32>),
    /// The answer to a navigation query.
    Query(bool),
    /// The method is unknown.
    Unknown,
}

/// The response packet answering request `request_id`.
pub open spec fn reply_text(request_id: Seq<char>, reply: RequestReply) -> Seq<char> {
    match reply {
        RequestReply::WebviewTag(Some(id)) => response_text(request_id, true, ResponsePayload::Id(id)),
        RequestReply::WebviewTag(None) => response_text(
            request_id,
            false,
            ResponsePayload::Text("Failed to create webview tag"),
        ),
        RequestReply::WgpuTag(Some(id)) => response_text(request_id, true, ResponsePayload::Id(id)),
        RequestReply::WgpuTag(None) => response_text(
            request_id,
            false,
            ResponsePayload::Text("Failed to create WGPU view"),
        ),
        RequestReply::Query(b) => response_text(request_id, true, ResponsePayload::Bool(b)),
        RequestReply::Unknown => response_text(
            request_id,
            false,
            ResponsePayload::Text("Unknown internal request"),
        ),
    }
}

/// Build the response packet answering request `request_id`.
pub fn request_reply(request_id: &str, reply: RequestReply) -> (r: String)
    ensures
        r@ == reply_text(request_id@, reply),
{
    match reply {
        RequestReply::WebviewTag(Some(id)) => internal_bridge_response(request_id, true, ResponsePayload::Id(id)),
        RequestReply::WebviewTag(None) => internal_bridge_response(
            request_id,
            false,
            ResponsePayload::Text("Failed to create webview tag"),
        ),
        RequestReply::WgpuTag(Some(id)) => internal_bridge_response(request_id, true, ResponsePayload::Id(id)),
        RequestReply::WgpuTag(None) => internal_bridge_response(
            request_id,
            false,
            ResponsePayload::Text("Failed to create WGPU view"),
        ),
        RequestReply::Query(b) => internal_bridge_response(request_id, true, ResponsePayload::Bool(b)),
        RequestReply::Unknown => internal_bridge_response(
            request_id,
            false,
            ResponsePayload::Text("Unknown internal request"),
        ),
    }
}

// ---- packets ----

/// What a packet is.
pub enum BridgePacket<'a> {
    /// Not an object, no string `type`, or another type: ignored.
    Ignore,
    /// A request (see [`decode_internal_request`]).
    Request(&'a JsonValue),
    /// A message with this id and payload (`None` standing for `null`).
    Message { id: &'a str, payload: Option<&'a JsonValue> },
}

/// Read a packet's kind.
pub fn decode_internal_bridge_packet<'a>(packet: &'a JsonValue) -> (r: BridgePacket<'a>)
    ensures
        match member_str(*packet, "type"@) {
            Some(t) => if t == "request"@ {
                r matches BridgePacket::Request(p) && *p == *packet
            } else if t == "message"@ {
                match member_str(*packet, "id"@) {
                    Some(id) => r matches BridgePacket::Message { id: i, payload } && i@ == id
                        && match payload {
                        Some(p) => json_get_spec(*packet, "payload"@) == Some(*p),
                        None => json_get_spec(*packet, "payload"@) is None,
                    },
                    None => r is Ignore,
                }
            } else {
                r is Ignore
            },
            None => r is Ignore,
        },
{
    let t = match get_str(packet, "type") {
        Some(t) => t,
        None => return BridgePacket::Ignore,
    };
    if str_eq(t, "request") {
        return BridgePacket::Request(packet);
    }
    if str_eq(t, "message") {
        let id = match get_str(packet, "id") {
            Some(i) => i,
            None => return BridgePacket::Ignore,
        };
        return BridgePacket::Message { id, payload: packet.get("payload") };
    }
    BridgePacket::Ignore
}

/// The texts of a batch: a JSON array's string items, in order (other
/// items are skipped); `None` when the value is not an array, in which case
/// it is itself the packet.
pub fn internal_bridge_batch_items<'a>(parsed: &'a JsonValue) -> (r: Option<Vec<&'a str>>)
    ensures
        match *parsed {
            JsonValue::Array(items) => r is Some && r->0@.map_values(|t: &str| t@)
                == batch_texts(items@),
            _ => r is None,
        },
{
    match parsed {
        JsonValue::Array(items) => {
            let mut out: Vec<&'a str> = Vec::new();
            let mut i: usize = 0;
            while i < items.len()
                invariant
                    i <= items@.len(),
                    out@.map_values(|t: &str| t@) == batch_texts(items@.take(i as int)),
                decreases items.len() - i,
            {
                proof {
                    assert(items@.take(i + 1).drop_last() =~= items@.take(i as int));
                    assert(items@.take(i + 1).last() == items@[i as int]);
                }
                match items[i].as_str() {
                    Some(t) => {
                        out.push(t);
                        proof {
                            assert(out@.map_values(|t: &str| t@) =~= batch_texts(
                                items@.take(i as int),
                            ).push(t@));
                        }
                    },
                    None => {},
                }
                i += 1;
            }
            proof {
                assert(items@.take(items@.len() as int) =~= items@);
            }
            Some(out)
        },
        _ => None,
    }
}

/// The string items of `items`, in order.
pub open spec fn batch_texts(items: Seq<JsonValue>) -> Seq<Seq<char>>
    decreases items.len(),
{
    if items.len() == 0 {
        Seq::empty()
    } else {
        let rest = batch_texts(items.drop_last());
        match json_str_spec(items.last()) {
            Some(t) => rest.push(t),
            None => rest,
        }
    }
}

// ---- requests ----

/// What a request asks for.
pub enum InternalRequestKind<'a> {
    /// Create a webview tag from these params (`None` standing for `null`).
    WebviewTagInit(Option<&'a JsonValue>),
    /// Create a wgpu view tag from these params.
    WgpuTagInit(Option<&'a JsonValue>),
    /// Whether `webview` can go back (0: no webview, the answer is `false`).
    CanGoBack { webview: usize },
    /// Whether `webview` can go forward (0: no webview, the answer is
    /// `false`).
    CanGoForward { webview: usize },
    /// Any other method: answered with a failure.
    Unknown,
}

/// A request to answer.
pub struct InternalRequest<'a> {
    pub request_id: &'a str,
    pub host_webview_id: u32,
    pub kind: InternalRequestKind<'a>,
}

/// The member `id` of the request's params, read as a `u32`.
pub open spec fn params_id(request: JsonValue) -> Option<u32> {
    match json_get_spec(request, "params"@) {
        Some(p) => member_u32(p, "id"@),
        None => None,
    }
}

/// Read a request: it needs a string `method`, a string `id` and a
/// `hostWebviewId`; the navigation queries also need a params `id`.
/// `None` means the request is dropped without an answer.
pub fn decode_internal_request<'a, H: Copy, N: Copy, E: Copy, P: Copy>(
    registries: &Registries<H, N, E, P>,
    request: &'a JsonValue,
) -> (r: Option<InternalRequest<'a>>)
    ensures
        match (
            member_str(*request, "method"@),
            member_str(*request, "id"@),
            member_u32(*request, "hostWebviewId"@),
        ) {
            (Some(method), Some(id), Some(host)) => {
                let params = json_get_spec(*request, "params"@);
                if method == "webviewTagCanGoBack"@ || method == "webviewTagCanGoForward"@ {
                    match params_id(*request) {
                        None => r is None,
                        Some(wid) => r matches Some(q) && q.request_id@ == id && q.host_webview_id
                            == host && if method == "webviewTagCanGoBack"@ {
                            q.kind == (InternalRequestKind::CanGoBack {
                                webview: webview_ptr_of(registries.webviews@, wid),
                            })
                        } else {
                            q.kind == (InternalRequestKind::CanGoForward {
                                webview: webview_ptr_of(registries.webviews@, wid),
                            })
                        },
                    }
                } else {
                    r matches Some(q) && q.request_id@ == id && q.host_webview_id == host && if method
                        == "webviewTagInit"@ {
                        q.kind matches InternalRequestKind::WebviewTagInit(p) && match p {
                            Some(pv) => params == Some(*pv),
                            None => params is None,
                        }
                    } else if method == "wgpuTagInit"@ {
                        q.kind matches InternalRequestKind::WgpuTagInit(p) && match p {
                            Some(pv) => params == Some(*pv),
                            None => params is None,
                        }
                    } else {
                        q.kind is Unknown
                    }
                }
            },
            _ => r is None,
        },
{
    let method = match get_str(request, "method") {
        Some(m) => m,
        None => return None,
    };
    let request_id = match get_str(request, "id") {
        Some(i) => i,
        None => return None,
    };
    let host_webview_id = match get_u32(request, "hostWebviewId") {
        Some(h) => h,
        None => return None,
    };
    let params = request.get("params");
    let back = str_eq(method, "webviewTagCanGoBack");
    let forward = str_eq(method, "webviewTagCanGoForward");
    if back || forward {
        let webview_id = match params {
            Some(p) => match get_u32(p, "id") {
                Some(w) => w,
                None => return None,
            },
            None => return None,
        };
        let webview = registries.webview_ptr(webview_id);
        let kind = if back {
            InternalRequestKind::CanGoBack { webview }
        } else {
            InternalRequestKind::CanGoForward { webview }
        };
        return Some(InternalRequest { request_id, host_webview_id, kind });
    }
    let kind = if str_eq(method, "webviewTagInit") {
        InternalRequestKind::WebviewTagInit(params)
    } else if str_eq(method, "wgpuTagInit") {
        InternalRequestKind::WgpuTagInit(params)
    } else {
        InternalRequestKind::Unknown
    };
    Some(InternalRequest { request_id, host_webview_id, kind })
}

/// The partition a webview tag uses when none is given.
pub const DEFAULT_PARTITION: &'static str = "persist:default";

/// A webview tag to create, read from a `webviewTagInit` request.
pub struct WebviewTagInit<'a> {
    pub host_webview_id: u32,
    pub window_id: u32,
    pub renderer: &'a str,
    pub partition: &'a str,
    pub frame: RectFields<'a>,
    pub sandbox: bool,
    pub transparent: bool,
    pub passthrough: bool,
    /// The URL to create the webview with: empty when HTML is given.
    pub create_url: &'a str,
    pub preload: &'a str,
    /// The HTML to load after creation: given, a non-empty string, and
    /// free of NUL characters.
    pub html: Option<&'a str>,
    /// The navigation rules to apply after creation, when given and not
    /// `null`.
    pub navigation_rules: Option<&'a JsonValue>,
}

/// The member `key` of `v` as a string, or `default` when it is missing or
/// not a string.
pub open spec fn str_or(v: JsonValue, key: Seq<char>, default: Seq<char>) -> Seq<char> {
    match member_str(v, key) {
        Some(s) => s,
        None => default,
    }
}

/// The member `key` of `v` as a boolean, or `false`.
pub open spec fn bool_or_false(v: JsonValue, key: Seq<char>) -> bool {
    match member_bool(v, key) {
        Some(b) => b,
        None => false,
    }
}

/// Whether member `key` of `v` is present and not `null`.
pub open spec fn present(v: JsonValue, key: Seq<char>) -> bool {
    match json_get_spec(v, key) {
        Some(m) => !(m is Null),
        None => false,
    }
}

/// The HTML a webview tag loads after creation: the `html` member, when it
/// is a non-empty string free of NUL characters.
pub open spec fn html_to_load(params: JsonValue) -> Option<Seq<char>> {
    match member_str(params, "html"@) {
        Some(h) => if h.len() > 0 && !h.contains('\0') {
            Some(h)
        } else {
            None
        },
        None => None,
    }
}

/// Whether a `webviewTagInit` request with `params` can be attempted: the
/// ids, renderer and frame must be there, and the texts handed to the host
/// as C strings must not hold NUL characters.
pub open spec fn webview_tag_init_ok(params: JsonValue) -> bool {
    &&& member_u32(params, "hostWebviewId"@) is Some
    &&& member_u32(params, "windowId"@) is Some
    &&& member_str(params, "renderer"@) is Some
    &&& member_rect(params, "frame"@) is Some
    &&& !member_str(params, "renderer"@)->0.contains('\0')
    &&& !str_or(params, "partition"@, "persist:default"@).contains('\0')
    &&& !str_or(params, "preload"@, ""@).contains('\0')
    &&& (!present(params, "html"@) ==> !str_or(params, "url"@, ""@).contains('\0'))
}

fn str_member_or<'a>(v: &'a JsonValue, key: &str, default: &'a str) -> (r: &'a str)
    ensures
        r@ == str_or(*v, key@, default@),
{
    match get_str(v, key) {
        Some(s) => s,
        None => default,
    }
}

fn bool_member_or_false(v: &JsonValue, key: &str) -> (r: bool)
    ensures
        r == bool_or_false(*v, key@),
{
    match get_bool(v, key) {
        Some(b) => b,
        None => false,
    }
}

fn member_present<'a>(v: &'a JsonValue, key: &str) -> (r: Option<&'a JsonValue>)
    ensures
        match r {
            Some(m) => present(*v, key@) && json_get_spec(*v, key@) == Some(*m),
            None => !present(*v, key@),
        },
{
    match v.get(key) {
        Some(m) => match m {
            JsonValue::Null => None,
            _ => Some(m),
        },
        None => None,
    }
}

fn html_member<'a>(params: &'a JsonValue) -> (r: Option<&'a str>)
    ensures
        match r {
            Some(h) => html_to_load(*params) == Some(h@),
            None => html_to_load(*params) is None,
        },
{
    match get_str(params, "html") {
        Some(text) => if !text.is_empty() && !contains_char(text, '\0') {
            Some(text)
        } else {
            None
        },
        None => None,
    }
}

/// A fresh random key for a webview made from a page, as the comma-separated
/// decimal list webview creation takes, or `None` when the random source
/// fails. The list parses back to its key.
pub fn random_webview_secret_key_csv() -> (r: Option<String>)
    ensures
        r matches Some(s) ==> exists|k: Seq<u8>|
            #![trigger key_csv(k)]
            k.len() == SECRET_KEY_LEN && s@ == key_csv(k) && secret_key_spec(s@) == Ok::<
                Seq<u8>,
                SecretKeyError,
            >(k),
{
    let bytes = match random_bytes(SECRET_KEY_LEN) {
        Some(b) => b,
        None => return None,
    };
    let csv = format_secret_key_csv(bytes.as_slice());
    proof {
        lemma_secret_key_roundtrip(bytes@);
    }
    Some(csv)
}

/// Whether webview tags can be created: the default webview event handler
/// and event bridge handler must both have been given.
pub fn tag_callbacks_ready<N, E, P>(callbacks: &DefaultWebviewCallbacks<N, E, P>) -> (r: bool)
    ensures
        r == (callbacks.webview_event_handler is Some && callbacks.event_bridge_handler is Some),
{
    callbacks.webview_event_handler.is_some() && callbacks.event_bridge_handler.is_some()
}

/// Read a `webviewTagInit` request's params. With [`tag_callbacks_ready`]
/// holding, the host then draws a fresh key, creates the webview, and loads
/// the HTML and applies the rules given here.
#[verifier::rlimit(40)]
pub fn parse_webview_tag_init<'a>(params: &'a JsonValue) -> (r: Option<WebviewTagInit<'a>>)
    ensures
        match r {
            None => !webview_tag_init_ok(*params),
            Some(t) => {
                &&& webview_tag_init_ok(*params)
                &&& t.host_webview_id == member_u32(*params, "hostWebviewId"@)->0
                &&& t.window_id == member_u32(*params, "windowId"@)->0
                &&& t.renderer@ == member_str(*params, "renderer"@)->0
                &&& t.partition@ == str_or(*params, "partition"@, "persist:default"@)
                &&& Some(t.frame.model()) == member_rect(*params, "frame"@)
                &&& t.sandbox == bool_or_false(*params, "sandbox"@)
                &&& t.transparent == bool_or_false(*params, "transparent"@)
                &&& t.passthrough == bool_or_false(*params, "passthrough"@)
                &&& t.create_url@ == (if present(*params, "html"@) {
                    ""@
                } else {
                    str_or(*params, "url"@, ""@)
                })
                &&& t.preload@ == str_or(*params, "preload"@, ""@)
                &&& match t.html {
                    Some(h) => html_to_load(*params) == Some(h@),
                    None => html_to_load(*params) is None,
                }
                &&& match t.navigation_rules {
                    Some(n) => present(*params, "navigationRules"@) && json_get_spec(
                        *params,
                        "navigationRules"@,
                    ) == Some(*n),
                    None => !present(*params, "navigationRules"@),
                }
            },
        },
{
    let host_webview_id = match get_u32(params, "hostWebviewId") {
        Some(v) => v,
        None => return None,
    };
    let window_id = match get_u32(params, "windowId") {
        Some(v) => v,
        None => return None,
    };
    let renderer = match get_str(params, "renderer") {
        Some(v) => v,
        None => return None,
    };
    let partition = str_member_or(params, "partition", "persist:default");
    let frame = match get_rect(params, "frame") {
        Some(f) => f,
        None => return None,
    };
    let sandbox = bool_member_or_false(params, "sandbox");
    let transparent = bool_member_or_false(params, "transparent");
    let passthrough = bool_member_or_false(params, "passthrough");
    let html_value = member_present(params, "html");
    let url = str_member_or(params, "url", "");
    let preload = str_member_or(params, "preload", "");
    let create_url = if html_value.is_some() {
        ""
    } else {
        url
    };
    proof {
        reveal_strlit("");
        assert(!""@.contains('\0'));
    }
    if contains_char(renderer, '\0') || contains_char(create_url, '\0') || contains_char(
        partition,
        '\0',
    ) || contains_char(preload, '\0') {
        return None;
    }
    let html = html_member(params);
    let navigation_rules = member_present(params, "navigationRules");
    Some(
        WebviewTagInit {
            host_webview_id,
            window_id,
            renderer,
            partition,
            frame,
            sandbox,
            transparent,
            passthrough,
            create_url,
            preload,
            html,
            navigation_rules,
        },
    )
}

/// A wgpu view tag to create, read from a `wgpuTagInit` request.
pub struct WgpuTagInit<'a> {
    pub window_id: u32,
    pub frame: RectFields<'a>,
    pub transparent: bool,
    pub passthrough: bool,
}

/// Read a `wgpuTagInit` request's params: a `windowId` and a frame are
/// needed.
pub fn parse_wgpu_tag_init<'a>(params: &'a JsonValue) -> (r: Option<WgpuTagInit<'a>>)
    ensures
        match r {
            None => member_u32(*params, "windowId"@) is None || member_rect(*params, "frame"@) is None,
            Some(t) => {
                &&& member_u32(*params, "windowId"@) == Some(t.window_id)
                &&& member_rect(*params, "frame"@) == Some(t.frame.model())
                &&& t.transparent == bool_or_false(*params, "transparent"@)
                &&& t.passthrough == bool_or_false(*params, "passthrough"@)
            },
        },
{
    let window_id = match get_u32(params, "windowId") {
        Some(v) => v,
        None => return None,
    };
    let frame = match get_rect(params, "frame") {
        Some(f) => f,
        None => return None,
    };
    let transparent = bool_member_or_false(params, "transparent");
    let passthrough = bool_member_or_false(params, "passthrough");
    Some(WgpuTagInit { window_id, frame, transparent, passthrough })
}

} // verus!
