//! The fire-and-forget `message` packets of the internal bridge: which
//! native action each message id names, and on which native handle it
//! applies. A message whose fields are missing, whose target has no native
//! handle, or whose text holds a NUL character (it could not be handed over
//! as a C string) does nothing.
use vstd::prelude::*;
use crate::bridge::{RectFields, member_rect, str_or, get_rect};
use crate::json::{JsonValue, json_get_spec, member_str, member_u32, member_bool, get_str, get_u32, get_bool};
use crate::registry::{Registries, WindowState, WebviewState, WgpuViewState, window_ptr_of, webview_ptr_of, wgpu_view_ptr_of};
use crate::text::{contains_char, str_eq};

verus! {

/// The message ids the bridge knows.
#[derive(Clone, Copy, PartialEq, Eq, Structural, Debug)]
pub enum MessageKind {
    WebviewEvent,
    WebviewTagResize,
    WgpuTagResize,
    WebviewTagUpdateSrc,
    WebviewTagUpdateHtml,
    WebviewTagUpdatePreload,
    WebviewTagGoBack,
    WebviewTagGoForward,
    WebviewTagReload,
    WebviewTagRemove,
    StartWindowMove,
    StopWindowMove,
    WebviewTagSetTransparent,
    WgpuTagSetTransparent,
    WebviewTagSetPassthrough,
    WgpuTagSetPassthrough,
    WebviewTagSetHidden,
    WgpuTagSetHidden,
    WgpuTagRemove,
    WgpuTagRunTest,
    WebviewTagSetNavigationRules,
    WebviewTagFindInPage,
    WebviewTagStopFind,
    WebviewTagOpenDevTools,
    WebviewTagCloseDevTools,
    WebviewTagToggleDevTools,
    WebviewTagExecuteJavascript,
    Other,
}

/// The kind a message id names.
pub open spec fn message_kind_spec(id: Seq<char>) -> MessageKind {
    if id == "webviewEvent"@ {
        MessageKind::WebviewEvent
    } else if id == "webviewTagResize"@ {
        MessageKind::WebviewTagResize
    } else if id == "wgpuTagResize"@ {
        MessageKind::WgpuTagResize
    } else if id == "webviewTagUpdateSrc"@ {
        MessageKind::WebviewTagUpdateSrc
    } else if id == "webviewTagUpdateHtml"@ {
        MessageKind::WebviewTagUpdateHtml
    } else if id == "webviewTagUpdatePreload"@ {
        MessageKind::WebviewTagUpdatePreload
    } else if id == "webviewTagGoBack"@ {
        MessageKind::WebviewTagGoBack
    } else if id == "webviewTagGoForward"@ {
        MessageKind::WebviewTagGoForward
    } else if id == "webviewTagReload"@ {
        MessageKind::WebviewTagReload
    } else if id == "webviewTagRemove"@ {
        MessageKind::WebviewTagRemove
    } else if id == "startWindowMove"@ {
        MessageKind::StartWindowMove
    } else if id == "stopWindowMove"@ {
        MessageKind::StopWindowMove
    } else if id == "webviewTagSetTransparent"@ {
        MessageKind::WebviewTagSetTransparent
    } else if id == "wgpuTagSetTransparent"@ {
        MessageKind::WgpuTagSetTransparent
    } else if id == "webviewTagSetPassthrough"@ {
        MessageKind::WebviewTagSetPassthrough
    } else if id == "wgpuTagSetPassthrough"@ {
        MessageKind::WgpuTagSetPassthrough
    } else if id == "webviewTagSetHidden"@ {
        MessageKind::WebviewTagSetHidden
    } else if id == "wgpuTagSetHidden"@ {
        MessageKind::WgpuTagSetHidden
    } else if id == "wgpuTagRemove"@ {
        MessageKind::WgpuTagRemove
    } else if id == "wgpuTagRunTest"@ {
        MessageKind::WgpuTagRunTest
    } else if id == "webviewTagSetNavigationRules"@ {
        MessageKind::WebviewTagSetNavigationRules
    } else if id == "webviewTagFindInPage"@ {
        MessageKind::WebviewTagFindInPage
    } else if id == "webviewTagStopFind"@ {
        MessageKind::WebviewTagStopFind
    } else if id == "webviewTagOpenDevTools"@ {
        MessageKind::WebviewTagOpenDevTools
    } else if id == "webviewTagCloseDevTools"@ {
        MessageKind::WebviewTagCloseDevTools
    } else if id == "webviewTagToggleDevTools"@ {
        MessageKind::WebviewTagToggleDevTools
    } else if id == "webviewTagExecuteJavascript"@ {
        MessageKind::WebviewTagExecuteJavascript
    } else {
        MessageKind::Other
    }
}

/// Classify a message id.
pub fn message_kind(id: &str) -> (r: MessageKind)
    ensures
        r == message_kind_spec(id@),
{
    if str_eq(id, "webviewEvent") {
        MessageKind::WebviewEvent
    } else if str_eq(id, "webviewTagResize") {
        MessageKind::WebviewTagResize
    } else if str_eq(id, "wgpuTagResize") {
        MessageKind::WgpuTagResize
    } else if str_eq(id, "webviewTagUpdateSrc") {
        MessageKind::WebviewTagUpdateSrc
    } else if str_eq(id, "webviewTagUpdateHtml") {
        MessageKind::WebviewTagUpdateHtml
    } else if str_eq(id, "webviewTagUpdatePreload") {
        MessageKind::WebviewTagUpdatePreload
    } else if str_eq(id, "webviewTagGoBack") {
        MessageKind::WebviewTagGoBack
    } else if str_eq(id, "webviewTagGoForward") {
        MessageKind::WebviewTagGoForward
    } else if str_eq(id, "webviewTagReload") {
        MessageKind::WebviewTagReload
    } else if str_eq(id, "webviewTagRemove") {
        MessageKind::WebviewTagRemove
    } else if str_eq(id, "startWindowMove") {
        MessageKind::StartWindowMove
    } else if str_eq(id, "stopWindowMove") {
        MessageKind::StopWindowMove
    } else if str_eq(id, "webviewTagSetTransparent") {
        MessageKind::WebviewTagSetTransparent
    } else if str_eq(id, "wgpuTagSetTransparent") {
        MessageKind::WgpuTagSetTransparent
    } else if str_eq(id, "webviewTagSetPassthrough") {
        MessageKind::WebviewTagSetPassthrough
    } else if str_eq(id, "wgpuTagSetPassthrough") {
        MessageKind::WgpuTagSetPassthrough
    } else if str_eq(id, "webviewTagSetHidden") {
        MessageKind::WebviewTagSetHidden
    } else if str_eq(id, "wgpuTagSetHidden") {
        MessageKind::WgpuTagSetHidden
    } else if str_eq(id, "wgpuTagRemove") {
        MessageKind::WgpuTagRemove
    } else if str_eq(id, "wgpuTagRunTest") {
        MessageKind::WgpuTagRunTest
    } else if str_eq(id, "webviewTagSetNavigationRules") {
        MessageKind::WebviewTagSetNavigationRules
    } else if str_eq(id, "webviewTagFindInPage") {
        MessageKind::WebviewTagFindInPage
    } else if str_eq(id, "webviewTagStopFind") {
        MessageKind::WebviewTagStopFind
    } else if str_eq(id, "webviewTagOpenDevTools") {
        MessageKind::WebviewTagOpenDevTools
    } else if str_eq(id, "webviewTagCloseDevTools") {
        MessageKind::WebviewTagCloseDevTools
    } else if str_eq(id, "webviewTagToggleDevTools") {
        MessageKind::WebviewTagToggleDevTools
    } else if str_eq(id, "webviewTagExecuteJavascript") {
        MessageKind::WebviewTagExecuteJavascript
    } else {
        MessageKind::Other
    }
}

/// A webview call without arguments.
#[derive(Clone, Copy, PartialEq, Eq, Structural, Debug)]
pub enum WebviewCall {
    GoBack,
    GoForward,
    Reload,
    StopFind,
    OpenDevTools,
    CloseDevTools,
    ToggleDevTools,
}

/// A view flag a message sets.
#[derive(Clone, Copy, PartialEq, Eq, Structural, Debug)]
pub enum ViewFlag {
    Transparent,
    Passthrough,
    Hidden,
}

/// The native action a message asks for.
pub enum InternalAction<'a, E> {
    Nothing,
    /// Call the host's webview event handler.
    WebviewEvent { handler: E, webview_id: u32, event_name: &'a str, detail: &'a str },
    ResizeWebview { webview: usize, frame: RectFields<'a>, masks: &'a str },
    ResizeWgpuView { wgpu_view: usize, frame: RectFields<'a>, masks: &'a str },
    LoadUrl { webview: usize, url: &'a str },
    /// Load managed HTML (see `ops::load_managed_html`).
    LoadHtml { webview_id: u32, html: &'a str },
    /// Replace the custom preload script (named
    /// [`CUSTOM_PRELOAD_SCRIPT_ID`]).
    UpdatePreload { webview: usize, preload: &'a str },
    WebviewCall { webview: usize, call: WebviewCall },
    /// Remove the webview (see `ops::webview_remove`).
    RemoveWebview { webview_id: u32 },
    StartWindowMove { window: usize },
    StopWindowMove,
    SetWebviewFlag { webview: usize, flag: ViewFlag, value: bool },
    SetWgpuViewFlag { wgpu_view: usize, flag: ViewFlag, value: bool },
    /// Remove the wgpu view (see `ops::remove_wgpu_view`).
    RemoveWgpuView { wgpu_view_id: u32 },
    RunWgpuTest { wgpu_view: usize },
    /// Apply the rules, written as JSON text.
    SetNavigationRules { webview: usize, rules: &'a JsonValue },
    FindInPage { webview: usize, search_text: &'a str, forward: bool, match_case: bool },
    /// Run JavaScript in the webview (see `ops::evaluate_javascript`).
    ExecuteJavascript { webview_id: u32, js: &'a str },
}

/// The name the custom preload script is stored under.
pub const CUSTOM_PRELOAD_SCRIPT_ID: &'static str = "electrobun_custom_preload_script";

/// An action in plain values.
pub enum ActionModel<E> {
    Nothing,
    WebviewEvent(E, u32, Seq<char>, Seq<char>),
    ResizeWebview(usize, (JsonValue, JsonValue, JsonValue, JsonValue), Seq<char>),
    ResizeWgpuView(usize, (JsonValue, JsonValue, JsonValue, JsonValue), Seq<char>),
    LoadUrl(usize, Seq<char>),
    LoadHtml(u32, Seq<char>),
    UpdatePreload(usize, Seq<char>),
    WebviewCall(usize, WebviewCall),
    RemoveWebview(u32),
    StartWindowMove(usize),
    StopWindowMove,
    SetWebviewFlag(usize, ViewFlag, bool),
    SetWgpuViewFlag(usize, ViewFlag, bool),
    RemoveWgpuView(u32),
    RunWgpuTest(usize),
    SetNavigationRules(usize, JsonValue),
    FindInPage(usize, Seq<char>, bool, bool),
    ExecuteJavascript(u32, Seq<char>),
}

impl<'a, E> InternalAction<'a, E> {
    pub open spec fn model(&self) -> ActionModel<E> {
        match *self {
            InternalAction::Nothing => ActionModel::Nothing,
            InternalAction::WebviewEvent { handler, webview_id, event_name, detail } =>
                ActionModel::WebviewEvent(handler, webview_id, event_name@, detail@),
            InternalAction::ResizeWebview { webview, frame, masks } => ActionModel::ResizeWebview(
                webview,
                frame.model(),
                masks@,
            ),
            InternalAction::ResizeWgpuView { wgpu_view, frame, masks } =>
                ActionModel::ResizeWgpuView(wgpu_view, frame.model(), masks@),
            InternalAction::LoadUrl { webview, url } => ActionModel::LoadUrl(webview, url@),
            InternalAction::LoadHtml { webview_id, html } => ActionModel::LoadHtml(webview_id, html@),
            InternalAction::UpdatePreload { webview, preload } => ActionModel::UpdatePreload(
                webview,
                preload@,
            ),
            InternalAction::WebviewCall { webview, call } => ActionModel::WebviewCall(webview, call),
            InternalAction::RemoveWebview { webview_id } => ActionModel::RemoveWebview(webview_id),
            InternalAction::StartWindowMove { window } => ActionModel::StartWindowMove(window),
            InternalAction::StopWindowMove => ActionModel::StopWindowMove,
            InternalAction::SetWebviewFlag { webview, flag, value } => ActionModel::SetWebviewFlag(
                webview,
                flag,
                value,
            ),
            InternalAction::SetWgpuViewFlag { wgpu_view, flag, value } =>
                ActionModel::SetWgpuViewFlag(wgpu_view, flag, value),
            InternalAction::RemoveWgpuView { wgpu_view_id } => ActionModel::RemoveWgpuView(
                wgpu_view_id,
            ),
            InternalAction::RunWgpuTest { wgpu_view } => ActionModel::RunWgpuTest(wgpu_view),
            InternalAction::SetNavigationRules { webview, rules } =>
                ActionModel::SetNavigationRules(webview, *rules),
            InternalAction::FindInPage { webview, search_text, forward, match_case } =>
                ActionModel::FindInPage(webview, search_text@, forward, match_case),
            InternalAction::ExecuteJavascript { webview_id, js } => ActionModel::ExecuteJavascript(
                webview_id,
                js@,
            ),
        }
    }
}

/// The registries' maps and default event handler, as the actions read
/// them.
pub struct Targets<H, E> {
    pub windows: Map<u32, WindowState<H>>,
    pub webviews: Map<u32, WebviewState>,
    pub wgpu_views: Map<u32, WgpuViewState>,
    pub event_handler: Option<E>,
}

/// What the registries offer the actions.
pub open spec fn targets<H: Copy, N: Copy, E: Copy, P: Copy>(r: Registries<H, N, E, P>) -> Targets<H, E> {
    Targets {
        windows: r.windows@,
        webviews: r.webviews@,
        wgpu_views: r.wgpu_views@,
        event_handler: r.default_webview_callbacks.webview_event_handler,
    }
}

/// A stored webview event: the payload's webview `id`, `eventName` and
/// `detail`, for the default event handler.
pub open spec fn webview_event_model<H, E>(t: Targets<H, E>, payload: JsonValue) -> ActionModel<E> {
    match (
        t.event_handler,
        member_u32(payload, "id"@),
        member_str(payload, "eventName"@),
        member_str(payload, "detail"@),
    ) {
        (Some(h), Some(id), Some(name), Some(detail)) => if !name.contains('\0') && !detail.contains(
            '\0',
        ) {
            ActionModel::WebviewEvent(h, id, name, detail)
        } else {
            ActionModel::Nothing
        },
        _ => ActionModel::Nothing,
    }
}

/// A no-argument call on the payload's webview.
pub open spec fn call_model<H, E>(t: Targets<H, E>, o: JsonValue, call: WebviewCall) -> ActionModel<E> {
    match member_u32(o, "id"@) {
        Some(i) => if webview_ptr_of(t.webviews, i) != 0 {
            ActionModel::WebviewCall(webview_ptr_of(t.webviews, i), call)
        } else {
            ActionModel::Nothing
        },
        None => ActionModel::Nothing,
    }
}

/// Setting a flag of the payload's webview from the boolean member `key`.
pub open spec fn webview_flag_model<H, E>(
    t: Targets<H, E>,
    o: JsonValue,
    key: Seq<char>,
    flag: ViewFlag,
) -> ActionModel<E> {
    match (member_u32(o, "id"@), member_bool(o, key)) {
        (Some(i), Some(v)) => if webview_ptr_of(t.webviews, i) != 0 {
            ActionModel::SetWebviewFlag(webview_ptr_of(t.webviews, i), flag, v)
        } else {
            ActionModel::Nothing
        },
        _ => ActionModel::Nothing,
    }
}

/// Setting a flag of the payload's wgpu view from the boolean member `key`.
pub open spec fn wgpu_flag_model<H, E>(
    t: Targets<H, E>,
    o: JsonValue,
    key: Seq<char>,
    flag: ViewFlag,
) -> ActionModel<E> {
    match (member_u32(o, "id"@), member_bool(o, key)) {
        (Some(i), Some(v)) => if wgpu_view_ptr_of(t.wgpu_views, i) != 0 {
            ActionModel::SetWgpuViewFlag(wgpu_view_ptr_of(t.wgpu_views, i), flag, v)
        } else {
            ActionModel::Nothing
        },
        _ => ActionModel::Nothing,
    }
}

/// Resizing the payload's webview or wgpu view (`masks` defaults to
/// `"[]"`).
pub open spec fn resize_model<H, E>(t: Targets<H, E>, o: JsonValue, wgpu: bool) -> ActionModel<E> {
    match (member_u32(o, "id"@), member_rect(o, "frame"@)) {
        (Some(i), Some(f)) => {
            let masks = str_or(o, "masks"@, "[]"@);
            let p = if wgpu {
                wgpu_view_ptr_of(t.wgpu_views, i)
            } else {
                webview_ptr_of(t.webviews, i)
            };
            if masks.contains('\0') || p == 0 {
                ActionModel::Nothing
            } else if wgpu {
                ActionModel::ResizeWgpuView(p, f, masks)
            } else {
                ActionModel::ResizeWebview(p, f, masks)
            }
        },
        _ => ActionModel::Nothing,
    }
}

/// The action for a message of kind `kind` whose payload is the object `o`.
pub open spec fn object_message_model<H, E>(t: Targets<H, E>, kind: MessageKind, o: JsonValue) -> ActionModel<E> {
    let w = member_u32(o, "id"@);
    match kind {
        MessageKind::WebviewTagResize => resize_model(t, o, false),
        MessageKind::WgpuTagResize => resize_model(t, o, true),
        MessageKind::WebviewTagUpdateSrc => match (w, member_str(o, "url"@)) {
            (Some(i), Some(u)) => if !u.contains('\0') && webview_ptr_of(t.webviews, i) != 0 {
                ActionModel::LoadUrl(webview_ptr_of(t.webviews, i), u)
            } else {
                ActionModel::Nothing
            },
            _ => ActionModel::Nothing,
        },
        MessageKind::WebviewTagUpdateHtml => match (w, member_str(o, "html"@)) {
            (Some(i), Some(h)) => if !h.contains('\0') {
                ActionModel::LoadHtml(i, h)
            } else {
                ActionModel::Nothing
            },
            _ => ActionModel::Nothing,
        },
        MessageKind::WebviewTagUpdatePreload => match (w, member_str(o, "preload"@)) {
            (Some(i), Some(p)) => if !p.contains('\0') && webview_ptr_of(t.webviews, i) != 0 {
                ActionModel::UpdatePreload(webview_ptr_of(t.webviews, i), p)
            } else {
                ActionModel::Nothing
            },
            _ => ActionModel::Nothing,
        },
        MessageKind::WebviewTagGoBack => call_model(t, o, WebviewCall::GoBack),
        MessageKind::WebviewTagGoForward => call_model(t, o, WebviewCall::GoForward),
        MessageKind::WebviewTagReload => call_model(t, o, WebviewCall::Reload),
        MessageKind::WebviewTagStopFind => call_model(t, o, WebviewCall::StopFind),
        MessageKind::WebviewTagOpenDevTools => call_model(t, o, WebviewCall::OpenDevTools),
        MessageKind::WebviewTagCloseDevTools => call_model(t, o, WebviewCall::CloseDevTools),
        MessageKind::WebviewTagToggleDevTools => call_model(t, o, WebviewCall::ToggleDevTools),
        MessageKind::WebviewTagRemove => match w {
            Some(i) => ActionModel::RemoveWebview(i),
            None => ActionModel::Nothing,
        },
        MessageKind::StartWindowMove => match w {
            Some(i) => if window_ptr_of(t.windows, i) != 0 {
                ActionModel::StartWindowMove(window_ptr_of(t.windows, i))
            } else {
                ActionModel::Nothing
            },
            None => ActionModel::Nothing,
        },
        MessageKind::StopWindowMove => ActionModel::StopWindowMove,
        MessageKind::WebviewTagSetTransparent => webview_flag_model(
            t,
            o,
            "transparent"@,
            ViewFlag::Transparent,
        ),
        MessageKind::WgpuTagSetTransparent => wgpu_flag_model(
            t,
            o,
            "transparent"@,
            ViewFlag::Transparent,
        ),
        MessageKind::WebviewTagSetPassthrough => webview_flag_model(
            t,
            o,
            "enablePassthrough"@,
            ViewFlag::Passthrough,
        ),
        MessageKind::WgpuTagSetPassthrough => wgpu_flag_model(
            t,
            o,
            "passthrough"@,
            ViewFlag::Passthrough,
        ),
        MessageKind::WebviewTagSetHidden => webview_flag_model(t, o, "hidden"@, ViewFlag::Hidden),
        MessageKind::WgpuTagSetHidden => wgpu_flag_model(t, o, "hidden"@, ViewFlag::Hidden),
        MessageKind::WgpuTagRemove => match w {
            Some(i) => ActionModel::RemoveWgpuView(i),
            None => ActionModel::Nothing,
        },
        MessageKind::WgpuTagRunTest => match w {
            Some(i) => if wgpu_view_ptr_of(t.wgpu_views, i) != 0 {
                ActionModel::RunWgpuTest(wgpu_view_ptr_of(t.wgpu_views, i))
            } else {
                ActionModel::Nothing
            },
            None => ActionModel::Nothing,
        },
        MessageKind::WebviewTagSetNavigationRules => match (w, json_get_spec(o, "rules"@)) {
            (Some(i), Some(rules)) => if webview_ptr_of(t.webviews, i) != 0 {
                ActionModel::SetNavigationRules(webview_ptr_of(t.webviews, i), rules)
            } else {
                ActionModel::Nothing
            },
            _ => ActionModel::Nothing,
        },
        MessageKind::WebviewTagFindInPage => match (
            w,
            member_str(o, "searchText"@),
            member_bool(o, "forward"@),
            member_bool(o, "matchCase"@),
        ) {
            (Some(i), Some(text), Some(fwd), Some(mc)) => if !text.contains('\0') && webview_ptr_of(
                t.webviews,
                i,
            ) != 0 {
                ActionModel::FindInPage(webview_ptr_of(t.webviews, i), text, fwd, mc)
            } else {
                ActionModel::Nothing
            },
            _ => ActionModel::Nothing,
        },
        MessageKind::WebviewTagExecuteJavascript => match (w, member_str(o, "js"@)) {
            (Some(i), Some(js)) => if !js.contains('\0') {
                ActionModel::ExecuteJavascript(i, js)
            } else {
                ActionModel::Nothing
            },
            _ => ActionModel::Nothing,
        },
        _ => ActionModel::Nothing,
    }
}

/// The action for message `id` with `payload` (`None` standing for
/// `null`): `webviewEvent` reads its payload itself; every other message
/// needs an object payload.
pub open spec fn message_model<H, E>(t: Targets<H, E>, id: Seq<char>, payload: Option<JsonValue>) -> ActionModel<E> {
    let kind = message_kind_spec(id);
    match payload {
        Some(p) => if kind == MessageKind::WebviewEvent {
            webview_event_model(t, p)
        } else if p is Object {
            object_message_model(t, kind, p)
        } else {
            ActionModel::Nothing
        },
        None => ActionModel::Nothing,
    }
}

/// Each navigation and devtools message calls its own method on the native
/// handle of the webview its payload's `id` names: `webviewTagGoBack` goes
/// back, `webviewTagGoForward` goes forward, `webviewTagReload` reloads,
/// `webviewTagStopFind` stops a search, and the three devtools messages
/// open, close and toggle the devtools.
pub proof fn lemma_webview_call_messages<H, E>(t: Targets<H, E>, o: JsonValue, id: u32)
    requires
        o is Object,
        member_u32(o, "id"@) == Some(id),
        webview_ptr_of(t.webviews, id) != 0,
    ensures
        message_model(t, "webviewTagGoBack"@, Some(o)) == ActionModel::<E>::WebviewCall(
            webview_ptr_of(t.webviews, id),
            WebviewCall::GoBack,
        ),
        message_model(t, "webviewTagGoForward"@, Some(o)) == ActionModel::<E>::WebviewCall(
            webview_ptr_of(t.webviews, id),
            WebviewCall::GoForward,
        ),
        message_model(t, "webviewTagReload"@, Some(o)) == ActionModel::<E>::WebviewCall(
            webview_ptr_of(t.webviews, id),
            WebviewCall::Reload,
        ),
        message_model(t, "webviewTagStopFind"@, Some(o)) == ActionModel::<E>::WebviewCall(
            webview_ptr_of(t.webviews, id),
            WebviewCall::StopFind,
        ),
        message_model(t, "webviewTagOpenDevTools"@, Some(o)) == ActionModel::<E>::WebviewCall(
            webview_ptr_of(t.webviews, id),
            WebviewCall::OpenDevTools,
        ),
        message_model(t, "webviewTagCloseDevTools"@, Some(o)) == ActionModel::<E>::WebviewCall(
            webview_ptr_of(t.webviews, id),
            WebviewCall::CloseDevTools,
        ),
        message_model(t, "webviewTagToggleDevTools"@, Some(o)) == ActionModel::<E>::WebviewCall(
            webview_ptr_of(t.webviews, id),
            WebviewCall::ToggleDevTools,
        ),
{
    lemma_kind_go_back();
    lemma_kind_go_forward();
    lemma_kind_reload();
    lemma_kind_stop_find();
    lemma_kind_open_dev_tools();
    lemma_kind_close_dev_tools();
    lemma_kind_toggle_dev_tools();
}

/// The flag messages set the named flag of the webview the payload's `id`
/// names, on its native handle, to the payload's boolean: `transparent`,
/// `enablePassthrough` and `hidden` respectively.
pub proof fn lemma_webview_flag_messages<H, E>(t: Targets<H, E>, o: JsonValue, id: u32, v: bool)
    requires
        o is Object,
        member_u32(o, "id"@) == Some(id),
        webview_ptr_of(t.webviews, id) != 0,
    ensures
        member_bool(o, "transparent"@) == Some(v) ==> message_model(t, "webviewTagSetTransparent"@, Some(o))
            == ActionModel::<E>::SetWebviewFlag(webview_ptr_of(t.webviews, id), ViewFlag::Transparent, v),
        member_bool(o, "enablePassthrough"@) == Some(v) ==> message_model(
            t,
            "webviewTagSetPassthrough"@,
            Some(o),
        ) == ActionModel::<E>::SetWebviewFlag(webview_ptr_of(t.webviews, id), ViewFlag::Passthrough, v),
        member_bool(o, "hidden"@) == Some(v) ==> message_model(t, "webviewTagSetHidden"@, Some(o))
            == ActionModel::<E>::SetWebviewFlag(webview_ptr_of(t.webviews, id), ViewFlag::Hidden, v),
{
    lemma_kind_webview_tag_set_transparent();
    lemma_kind_webview_tag_set_passthrough();
    lemma_kind_webview_tag_set_hidden();
}

/// The wgpu view messages act on the wgpu view the payload's `id` names:
/// the flag messages set its flag (from `transparent`, `passthrough` and
/// `hidden`) on its native handle, `wgpuTagRunTest` runs the test on that
/// handle, and `wgpuTagRemove` removes the view by id.
pub proof fn lemma_wgpu_view_messages<H, E>(t: Targets<H, E>, o: JsonValue, id: u32, v: bool)
    requires
        o is Object,
        member_u32(o, "id"@) == Some(id),
        wgpu_view_ptr_of(t.wgpu_views, id) != 0,
    ensures
        member_bool(o, "transparent"@) == Some(v) ==> message_model(t, "wgpuTagSetTransparent"@, Some(o))
            == ActionModel::<E>::SetWgpuViewFlag(wgpu_view_ptr_of(t.wgpu_views, id), ViewFlag::Transparent, v),
        member_bool(o, "passthrough"@) == Some(v) ==> message_model(t, "wgpuTagSetPassthrough"@, Some(o))
            == ActionModel::<E>::SetWgpuViewFlag(wgpu_view_ptr_of(t.wgpu_views, id), ViewFlag::Passthrough, v),
        member_bool(o, "hidden"@) == Some(v) ==> message_model(t, "wgpuTagSetHidden"@, Some(o))
            == ActionModel::<E>::SetWgpuViewFlag(wgpu_view_ptr_of(t.wgpu_views, id), ViewFlag::Hidden, v),
        message_model(t, "wgpuTagRunTest"@, Some(o)) == ActionModel::<E>::RunWgpuTest(
            wgpu_view_ptr_of(t.wgpu_views, id),
        ),
        message_model(t, "wgpuTagRemove"@, Some(o)) == ActionModel::<E>::RemoveWgpuView(id),
{
    lemma_kind_wgpu_tag_set_transparent();
    lemma_kind_wgpu_tag_set_passthrough();
    lemma_kind_wgpu_tag_set_hidden();
    lemma_kind_wgpu_tag_run_test();
    lemma_kind_wgpu_tag_remove();
}

/// The content messages of a webview the payload's `id` names: `url` is
/// loaded by `webviewTagUpdateSrc` and `preload` installed by
/// `webviewTagUpdatePreload` (both on its native handle), `html` is loaded
/// and `js` run by id, the search of `webviewTagFindInPage` uses
/// `searchText`, `forward` and `matchCase`, and `webviewTagRemove` removes
/// the webview by id. Texts holding a NUL character are not passed on.
pub proof fn lemma_webview_content_messages<H, E>(
    t: Targets<H, E>,
    o: JsonValue,
    id: u32,
    text: Seq<char>,
    forward: bool,
    match_case: bool,
)
    requires
        o is Object,
        member_u32(o, "id"@) == Some(id),
        webview_ptr_of(t.webviews, id) != 0,
        !text.contains('\0'),
    ensures
        member_str(o, "url"@) == Some(text) ==> message_model(t, "webviewTagUpdateSrc"@, Some(o))
            == ActionModel::<E>::LoadUrl(webview_ptr_of(t.webviews, id), text),
        member_str(o, "preload"@) == Some(text) ==> message_model(t, "webviewTagUpdatePreload"@, Some(o))
            == ActionModel::<E>::UpdatePreload(webview_ptr_of(t.webviews, id), text),
        member_str(o, "html"@) == Some(text) ==> message_model(t, "webviewTagUpdateHtml"@, Some(o))
            == ActionModel::<E>::LoadHtml(id, text),
        member_str(o, "js"@) == Some(text) ==> message_model(t, "webviewTagExecuteJavascript"@, Some(o))
            == ActionModel::<E>::ExecuteJavascript(id, text),
        member_str(o, "searchText"@) == Some(text) && member_bool(o, "forward"@) == Some(forward) && member_bool(
            o,
            "matchCase"@,
        ) == Some(match_case) ==> message_model(t, "webviewTagFindInPage"@, Some(o))
            == ActionModel::<E>::FindInPage(webview_ptr_of(t.webviews, id), text, forward, match_case),
        message_model(t, "webviewTagRemove"@, Some(o)) == ActionModel::<E>::RemoveWebview(id),
{
    lemma_kind_webview_tag_update_src();
    lemma_kind_webview_tag_update_preload();
    lemma_kind_webview_tag_update_html();
    lemma_kind_webview_tag_execute_javascript();
    lemma_kind_webview_tag_find_in_page();
    lemma_kind_webview_tag_remove();
}

/// `startWindowMove` starts moving the window the payload's `id` names, on
/// its native handle; `stopWindowMove` stops the move whatever the object
/// holds.
pub proof fn lemma_window_move_messages<H, E>(t: Targets<H, E>, o: JsonValue, id: u32)
    requires
        o is Object,
        member_u32(o, "id"@) == Some(id),
        window_ptr_of(t.windows, id) != 0,
    ensures
        message_model(t, "startWindowMove"@, Some(o)) == ActionModel::<E>::StartWindowMove(
            window_ptr_of(t.windows, id),
        ),
        message_model(t, "stopWindowMove"@, Some(o)) == ActionModel::<E>::StopWindowMove,
{
    lemma_kind_start_window_move();
    lemma_kind_stop_window_move();
}

/// A resize message resizes the webview (`webviewTagResize`) or the wgpu
/// view (`wgpuTagResize`) the payload's `id` names, on its native handle,
/// to the payload's `frame` with its `masks` (`"[]"` when absent);
/// `webviewTagSetNavigationRules` hands the payload's `rules` to the
/// webview's handle; `webviewEvent` hands the payload's `id`, `eventName`
/// and `detail` to the default event handler.
pub proof fn lemma_resize_rules_event_messages<H, E>(
    t: Targets<H, E>,
    o: JsonValue,
    id: u32,
    frame: (JsonValue, JsonValue, JsonValue, JsonValue),
    rules: JsonValue,
    handler: E,
    name: Seq<char>,
    detail: Seq<char>,
)
    requires
        o is Object,
        member_u32(o, "id"@) == Some(id),
    ensures
        member_rect(o, "frame"@) == Some(frame) && webview_ptr_of(t.webviews, id) != 0 && !str_or(
            o,
            "masks"@,
            "[]"@,
        ).contains('\0') ==> message_model(t, "webviewTagResize"@, Some(o)) == ActionModel::<E>::ResizeWebview(
            webview_ptr_of(t.webviews, id),
            frame,
            str_or(o, "masks"@, "[]"@),
        ),
        member_rect(o, "frame"@) == Some(frame) && wgpu_view_ptr_of(t.wgpu_views, id) != 0 && !str_or(
            o,
            "masks"@,
            "[]"@,
        ).contains('\0') ==> message_model(t, "wgpuTagResize"@, Some(o)) == ActionModel::<E>::ResizeWgpuView(
            wgpu_view_ptr_of(t.wgpu_views, id),
            frame,
            str_or(o, "masks"@, "[]"@),
        ),
        json_get_spec(o, "rules"@) == Some(rules) && webview_ptr_of(t.webviews, id) != 0 ==> message_model(
            t,
            "webviewTagSetNavigationRules"@,
            Some(o),
        ) == ActionModel::<E>::SetNavigationRules(webview_ptr_of(t.webviews, id), rules),
        t.event_handler == Some(handler) && member_str(o, "eventName"@) == Some(name) && member_str(
            o,
            "detail"@,
        ) == Some(detail) && !name.contains('\0') && !detail.contains('\0') ==> message_model(
            t,
            "webviewEvent"@,
            Some(o),
        ) == ActionModel::<E>::WebviewEvent(handler, id, name, detail),
{
    lemma_kind_webview_tag_resize();
    lemma_kind_wgpu_tag_resize();
    lemma_kind_webview_tag_set_navigation_rules();
    lemma_kind_webview_event();
}

proof fn lemma_kind_go_back()
    ensures
        message_kind_spec("webviewTagGoBack"@) == MessageKind::WebviewTagGoBack,
{
    reveal_strlit("webviewTagGoBack");
    reveal_strlit("webviewEvent");
    assert("webviewTagGoBack"@.len() != "webviewEvent"@.len());
    assert("webviewTagGoBack"@ != "webviewEvent"@);
    reveal_strlit("webviewTagResize");
    assert("webviewTagGoBack"@[10] != "webviewTagResize"@[10]);
    assert("webviewTagGoBack"@ != "webviewTagResize"@);
    reveal_strlit("wgpuTagResize");
    assert("webviewTagGoBack"@.len() != "wgpuTagResize"@.len());
    assert("webviewTagGoBack"@ != "wgpuTagResize"@);
    reveal_strlit("webviewTagUpdateSrc");
    assert("webviewTagGoBack"@.len() != "webviewTagUpdateSrc"@.len());
    assert("webviewTagGoBack"@ != "webviewTagUpdateSrc"@);
    reveal_strlit("webviewTagUpdateHtml");
    assert("webviewTagGoBack"@.len() != "webviewTagUpdateHtml"@.len());
    assert("webviewTagGoBack"@ != "webviewTagUpdateHtml"@);
    reveal_strlit("webviewTagUpdatePreload");
    assert("webviewTagGoBack"@.len() != "webviewTagUpdatePreload"@.len());
    assert("webviewTagGoBack"@ != "webviewTagUpdatePreload"@);
}

proof fn lemma_kind_go_forward()
    ensures
        message_kind_spec("webviewTagGoForward"@) == MessageKind::WebviewTagGoForward,
{
    reveal_strlit("webviewTagGoForward");
    reveal_strlit("webviewEvent");
    assert("webviewTagGoForward"@.len() != "webviewEvent"@.len());
    assert("webviewTagGoForward"@ != "webviewEvent"@);
    reveal_strlit("webviewTagResize");
    assert("webviewTagGoForward"@.len() != "webviewTagResize"@.len());
    assert("webviewTagGoForward"@ != "webviewTagResize"@);
    reveal_strlit("wgpuTagResize");
    assert("webviewTagGoForward"@.len() != "wgpuTagResize"@.len());
    assert("webviewTagGoForward"@ != "wgpuTagResize"@);
    reveal_strlit("webviewTagUpdateSrc");
    assert("webviewTagGoForward"@[10] != "webviewTagUpdateSrc"@[10]);
    assert("webviewTagGoForward"@ != "webviewTagUpdateSrc"@);
    reveal_strlit("webviewTagUpdateHtml");
    assert("webviewTagGoForward"@.len() != "webviewTagUpdateHtml"@.len());
    assert("webviewTagGoForward"@ != "webviewTagUpdateHtml"@);
    reveal_strlit("webviewTagUpdatePreload");
    assert("webviewTagGoForward"@.len() != "webviewTagUpdatePreload"@.len());
    assert("webviewTagGoForward"@ != "webviewTagUpdatePreload"@);
    reveal_strlit("webviewTagGoBack");
    assert("webviewTagGoForward"@.len() != "webviewTagGoBack"@.len());
    assert("webviewTagGoForward"@ != "webviewTagGoBack"@);
}

proof fn lemma_kind_reload()
    ensures
        message_kind_spec("webviewTagReload"@) == MessageKind::WebviewTagReload,
{
    reveal_strlit("webviewTagReload");
    reveal_strlit("webviewEvent");
    assert("webviewTagReload"@.len() != "webviewEvent"@.len());
    assert("webviewTagReload"@ != "webviewEvent"@);
    reveal_strlit("webviewTagResize");
    assert("webviewTagReload"@[12] != "webviewTagResize"@[12]);
    assert("webviewTagReload"@ != "webviewTagResize"@);
    reveal_strlit("wgpuTagResize");
    assert("webviewTagReload"@.len() != "wgpuTagResize"@.len());
    assert("webviewTagReload"@ != "wgpuTagResize"@);
    reveal_strlit("webviewTagUpdateSrc");
    assert("webviewTagReload"@.len() != "webviewTagUpdateSrc"@.len());
    assert("webviewTagReload"@ != "webviewTagUpdateSrc"@);
    reveal_strlit("webviewTagUpdateHtml");
    assert("webviewTagReload"@.len() != "webviewTagUpdateHtml"@.len());
    assert("webviewTagReload"@ != "webviewTagUpdateHtml"@);
    reveal_strlit("webviewTagUpdatePreload");
    assert("webviewTagReload"@.len() != "webviewTagUpdatePreload"@.len());
    assert("webviewTagReload"@ != "webviewTagUpdatePreload"@);
    reveal_strlit("webviewTagGoBack");
    assert("webviewTagReload"@[10] != "webviewTagGoBack"@[10]);
    assert("webviewTagReload"@ != "webviewTagGoBack"@);
    reveal_strlit("webviewTagGoForward");
    assert("webviewTagReload"@.len() != "webviewTagGoForward"@.len());
    assert("webviewTagReload"@ != "webviewTagGoForward"@);
}

proof fn lemma_kind_stop_find()
    ensures
        message_kind_spec("webviewTagStopFind"@) == MessageKind::WebviewTagStopFind,
{
    reveal_strlit("webviewTagStopFind");
    reveal_strlit("webviewEvent");
    assert("webviewTagStopFind"@.len() != "webviewEvent"@.len());
    assert("webviewTagStopFind"@ != "webviewEvent"@);
    reveal_strlit("webviewTagResize");
    assert("webviewTagStopFind"@.len() != "webviewTagResize"@.len());
    assert("webviewTagStopFind"@ != "webviewTagResize"@);
    reveal_strlit("wgpuTagResize");
    assert("webviewTagStopFind"@.len() != "wgpuTagResize"@.len());
    assert("webviewTagStopFind"@ != "wgpuTagResize"@);
    reveal_strlit("webviewTagUpdateSrc");
    assert("webviewTagStopFind"@.len() != "webviewTagUpdateSrc"@.len());
    assert("webviewTagStopFind"@ != "webviewTagUpdateSrc"@);
    reveal_strlit("webviewTagUpdateHtml");
    assert("webviewTagStopFind"@.len() != "webviewTagUpdateHtml"@.len());
    assert("webviewTagStopFind"@ != "webviewTagUpdateHtml"@);
    reveal_strlit("webviewTagUpdatePreload");
    assert("webviewTagStopFind"@.len() != "webviewTagUpdatePreload"@.len());
    assert("webviewTagStopFind"@ != "webviewTagUpdatePreload"@);
    reveal_strlit("webviewTagGoBack");
    assert("webviewTagStopFind"@.len() != "webviewTagGoBack"@.len());
    assert("webviewTagStopFind"@ != "webviewTagGoBack"@);
    reveal_strlit("webviewTagGoForward");
    assert("webviewTagStopFind"@.len() != "webviewTagGoForward"@.len());
    assert("webviewTagStopFind"@ != "webviewTagGoForward"@);
    reveal_strlit("webviewTagReload");
    assert("webviewTagStopFind"@.len() != "webviewTagReload"@.len());
    assert("webviewTagStopFind"@ != "webviewTagReload"@);
    reveal_strlit("webviewTagRemove");
    assert("webviewTagStopFind"@.len() != "webviewTagRemove"@.len());
    assert("webviewTagStopFind"@ != "webviewTagRemove"@);
    reveal_strlit("startWindowMove");
    assert("webviewTagStopFind"@.len() != "startWindowMove"@.len());
    assert("webviewTagStopFind"@ != "startWindowMove"@);
    reveal_strlit("stopWindowMove");
    assert("webviewTagStopFind"@.len() != "stopWindowMove"@.len());
    assert("webviewTagStopFind"@ != "stopWindowMove"@);
    reveal_strlit("webviewTagSetTransparent");
    assert("webviewTagStopFind"@.len() != "webviewTagSetTransparent"@.len());
    assert("webviewTagStopFind"@ != "webviewTagSetTransparent"@);
    reveal_strlit("wgpuTagSetTransparent");
    assert("webviewTagStopFind"@.len() != "wgpuTagSetTransparent"@.len());
    assert("webviewTagStopFind"@ != "wgpuTagSetTransparent"@);
    reveal_strlit("webviewTagSetPassthrough");
    assert("webviewTagStopFind"@.len() != "webviewTagSetPassthrough"@.len());
    assert("webviewTagStopFind"@ != "webviewTagSetPassthrough"@);
    reveal_strlit("wgpuTagSetPassthrough");
    assert("webviewTagStopFind"@.len() != "wgpuTagSetPassthrough"@.len());
    assert("webviewTagStopFind"@ != "wgpuTagSetPassthrough"@);
    reveal_strlit("webviewTagSetHidden");
    assert("webviewTagStopFind"@.len() != "webviewTagSetHidden"@.len());
    assert("webviewTagStopFind"@ != "webviewTagSetHidden"@);
    reveal_strlit("wgpuTagSetHidden");
    assert("webviewTagStopFind"@.len() != "wgpuTagSetHidden"@.len());
    assert("webviewTagStopFind"@ != "wgpuTagSetHidden"@);
    reveal_strlit("wgpuTagRemove");
    assert("webviewTagStopFind"@.len() != "wgpuTagRemove"@.len());
    assert("webviewTagStopFind"@ != "wgpuTagRemove"@);
    reveal_strlit("wgpuTagRunTest");
    assert("webviewTagStopFind"@.len() != "wgpuTagRunTest"@.len());
    assert("webviewTagStopFind"@ != "wgpuTagRunTest"@);
    reveal_strlit("webviewTagSetNavigationRules");
    assert("webviewTagStopFind"@.len() != "webviewTagSetNavigationRules"@.len());
    assert("webviewTagStopFind"@ != "webviewTagSetNavigationRules"@);
    reveal_strlit("webviewTagFindInPage");
    assert("webviewTagStopFind"@.len() != "webviewTagFindInPage"@.len());
    assert("webviewTagStopFind"@ != "webviewTagFindInPage"@);
}

proof fn lemma_kind_open_dev_tools()
    ensures
        message_kind_spec("webviewTagOpenDevTools"@) == MessageKind::WebviewTagOpenDevTools,
{
    reveal_strlit("webviewTagOpenDevTools");
    reveal_strlit("webviewEvent");
    assert("webviewTagOpenDevTools"@.len() != "webviewEvent"@.len());
    assert("webviewTagOpenDevTools"@ != "webviewEvent"@);
    reveal_strlit("webviewTagResize");
    assert("webviewTagOpenDevTools"@.len() != "webviewTagResize"@.len());
    assert("webviewTagOpenDevTools"@ != "webviewTagResize"@);
    reveal_strlit("wgpuTagResize");
    assert("webviewTagOpenDevTools"@.len() != "wgpuTagResize"@.len());
    assert("webviewTagOpenDevTools"@ != "wgpuTagResize"@);
    reveal_strlit("webviewTagUpdateSrc");
    assert("webviewTagOpenDevTools"@.len() != "webviewTagUpdateSrc"@.len());
    assert("webviewTagOpenDevTools"@ != "webviewTagUpdateSrc"@);
    reveal_strlit("webviewTagUpdateHtml");
    assert("webviewTagOpenDevTools"@.len() != "webviewTagUpdateHtml"@.len());
    assert("webviewTagOpenDevTools"@ != "webviewTagUpdateHtml"@);
    reveal_strlit("webviewTagUpdatePreload");
    assert("webviewTagOpenDevTools"@.len() != "webviewTagUpdatePreload"@.len());
    assert("webviewTagOpenDevTools"@ != "webviewTagUpdatePreload"@);
    reveal_strlit("webviewTagGoBack");
    assert("webviewTagOpenDevTools"@.len() != "webviewTagGoBack"@.len());
    assert("webviewTagOpenDevTools"@ != "webviewTagGoBack"@);
    reveal_strlit("webviewTagGoForward");
    assert("webviewTagOpenDevTools"@.len() != "webviewTagGoForward"@.len());
    assert("webviewTagOpenDevTools"@ != "webviewTagGoForward"@);
    reveal_strlit("webviewTagReload");
    assert("webviewTagOpenDevTools"@.len() != "webviewTagReload"@.len());
    assert("webviewTagOpenDevTools"@ != "webviewTagReload"@);
    reveal_strlit("webviewTagRemove");
    assert("webviewTagOpenDevTools"@.len() != "webviewTagRemove"@.len());
    assert("webviewTagOpenDevTools"@ != "webviewTagRemove"@);
    reveal_strlit("startWindowMove");
    assert("webviewTagOpenDevTools"@.len() != "startWindowMove"@.len());
    assert("webviewTagOpenDevTools"@ != "startWindowMove"@);
    reveal_strlit("stopWindowMove");
    assert("webviewTagOpenDevTools"@.len() != "stopWindowMove"@.len());
    assert("webviewTagOpenDevTools"@ != "stopWindowMove"@);
    reveal_strlit("webviewTagSetTransparent");
    assert("webviewTagOpenDevTools"@.len() != "webviewTagSetTransparent"@.len());
    assert("webviewTagOpenDevTools"@ != "webviewTagSetTransparent"@);
    reveal_strlit("wgpuTagSetTransparent");
    assert("webviewTagOpenDevTools"@.len() != "wgpuTagSetTransparent"@.len());
    assert("webviewTagOpenDevTools"@ != "wgpuTagSetTransparent"@);
    reveal_strlit("webviewTagSetPassthrough");
    assert("webviewTagOpenDevTools"@.len() != "webviewTagSetPassthrough"@.len());
    assert("webviewTagOpenDevTools"@ != "webviewTagSetPassthrough"@);
    reveal_strlit("wgpuTagSetPassthrough");
    assert("webviewTagOpenDevTools"@.len() != "wgpuTagSetPassthrough"@.len());
    assert("webviewTagOpenDevTools"@ != "wgpuTagSetPassthrough"@);
    reveal_strlit("webviewTagSetHidden");
    assert("webviewTagOpenDevTools"@.len() != "webviewTagSetHidden"@.len());
    assert("webviewTagOpenDevTools"@ != "webviewTagSetHidden"@);
    reveal_strlit("wgpuTagSetHidden");
    assert("webviewTagOpenDevTools"@.len() != "wgpuTagSetHidden"@.len());
    assert("webviewTagOpenDevTools"@ != "wgpuTagSetHidden"@);
    reveal_strlit("wgpuTagRemove");
    assert("webviewTagOpenDevTools"@.len() != "wgpuTagRemove"@.len());
    assert("webviewTagOpenDevTools"@ != "wgpuTagRemove"@);
    reveal_strlit("wgpuTagRunTest");
    assert("webviewTagOpenDevTools"@.len() != "wgpuTagRunTest"@.len());
    assert("webviewTagOpenDevTools"@ != "wgpuTagRunTest"@);
    reveal_strlit("webviewTagSetNavigationRules");
    assert("webviewTagOpenDevTools"@.len() != "webviewTagSetNavigationRules"@.len());
    assert("webviewTagOpenDevTools"@ != "webviewTagSetNavigationRules"@);
    reveal_strlit("webviewTagFindInPage");
    assert("webviewTagOpenDevTools"@.len() != "webviewTagFindInPage"@.len());
    assert("webviewTagOpenDevTools"@ != "webviewTagFindInPage"@);
    reveal_strlit("webviewTagStopFind");
    assert("webviewTagOpenDevTools"@.len() != "webviewTagStopFind"@.len());
    assert("webviewTagOpenDevTools"@ != "webviewTagStopFind"@);
}

proof fn lemma_kind_close_dev_tools()
    ensures
        message_kind_spec("webviewTagCloseDevTools"@) == MessageKind::WebviewTagCloseDevTools,
{
    reveal_strlit("webviewTagCloseDevTools");
    reveal_strlit("webviewEvent");
    assert("webviewTagCloseDevTools"@.len() != "webviewEvent"@.len());
    assert("webviewTagCloseDevTools"@ != "webviewEvent"@);
    reveal_strlit("webviewTagResize");
    assert("webviewTagCloseDevTools"@.len() != "webviewTagResize"@.len());
    assert("webviewTagCloseDevTools"@ != "webviewTagResize"@);
    reveal_strlit("wgpuTagResize");
    assert("webviewTagCloseDevTools"@.len() != "wgpuTagResize"@.len());
    assert("webviewTagCloseDevTools"@ != "wgpuTagResize"@);
    reveal_strlit("webviewTagUpdateSrc");
    assert("webviewTagCloseDevTools"@.len() != "webviewTagUpdateSrc"@.len());
    assert("webviewTagCloseDevTools"@ != "webviewTagUpdateSrc"@);
    reveal_strlit("webviewTagUpdateHtml");
    assert("webviewTagCloseDevTools"@.len() != "webviewTagUpdateHtml"@.len());
    assert("webviewTagCloseDevTools"@ != "webviewTagUpdateHtml"@);
    reveal_strlit("webviewTagUpdatePreload");
    assert("webviewTagCloseDevTools"@[10] != "webviewTagUpdatePreload"@[10]);
    assert("webviewTagCloseDevTools"@ != "webviewTagUpdatePreload"@);
    reveal_strlit("webviewTagGoBack");
    assert("webviewTagCloseDevTools"@.len() != "webviewTagGoBack"@.len());
    assert("webviewTagCloseDevTools"@ != "webviewTagGoBack"@);
    reveal_strlit("webviewTagGoForward");
    assert("webviewTagCloseDevTools"@.len() != "webviewTagGoForward"@.len());
    assert("webviewTagCloseDevTools"@ != "webviewTagGoForward"@);
    reveal_strlit("webviewTagReload");
    assert("webviewTagCloseDevTools"@.len() != "webviewTagReload"@.len());
    assert("webviewTagCloseDevTools"@ != "webviewTagReload"@);
    reveal_strlit("webviewTagRemove");
    assert("webviewTagCloseDevTools"@.len() != "webviewTagRemove"@.len());
    assert("webviewTagCloseDevTools"@ != "webviewTagRemove"@);
    reveal_strlit("startWindowMove");
    assert("webviewTagCloseDevTools"@.len() != "startWindowMove"@.len());
    assert("webviewTagCloseDevTools"@ != "startWindowMove"@);
    reveal_strlit("stopWindowMove");
    assert("webviewTagCloseDevTools"@.len() != "stopWindowMove"@.len());
    assert("webviewTagCloseDevTools"@ != "stopWindowMove"@);
    reveal_strlit("webviewTagSetTransparent");
    assert("webviewTagCloseDevTools"@.len() != "webviewTagSetTransparent"@.len());
    assert("webviewTagCloseDevTools"@ != "webviewTagSetTransparent"@);
    reveal_strlit("wgpuTagSetTransparent");
    assert("webviewTagCloseDevTools"@.len() != "wgpuTagSetTransparent"@.len());
    assert("webviewTagCloseDevTools"@ != "wgpuTagSetTransparent"@);
    reveal_strlit("webviewTagSetPassthrough");
    assert("webviewTagCloseDevTools"@.len() != "webviewTagSetPassthrough"@.len());
    assert("webviewTagCloseDevTools"@ != "webviewTagSetPassthrough"@);
    reveal_strlit("wgpuTagSetPassthrough");
    assert("webviewTagCloseDevTools"@.len() != "wgpuTagSetPassthrough"@.len());
    assert("webviewTagCloseDevTools"@ != "wgpuTagSetPassthrough"@);
    reveal_strlit("webviewTagSetHidden");
    assert("webviewTagCloseDevTools"@.len() != "webviewTagSetHidden"@.len());
    assert("webviewTagCloseDevTools"@ != "webviewTagSetHidden"@);
    reveal_strlit("wgpuTagSetHidden");
    assert("webviewTagCloseDevTools"@.len() != "wgpuTagSetHidden"@.len());
    assert("webviewTagCloseDevTools"@ != "wgpuTagSetHidden"@);
    reveal_strlit("wgpuTagRemove");
    assert("webviewTagCloseDevTools"@.len() != "wgpuTagRemove"@.len());
    assert("webviewTagCloseDevTools"@ != "wgpuTagRemove"@);
    reveal_strlit("wgpuTagRunTest");
    assert("webviewTagCloseDevTools"@.len() != "wgpuTagRunTest"@.len());
    assert("webviewTagCloseDevTools"@ != "wgpuTagRunTest"@);
    reveal_strlit("webviewTagSetNavigationRules");
    assert("webviewTagCloseDevTools"@.len() != "webviewTagSetNavigationRules"@.len());
    assert("webviewTagCloseDevTools"@ != "webviewTagSetNavigationRules"@);
    reveal_strlit("webviewTagFindInPage");
    assert("webviewTagCloseDevTools"@.len() != "webviewTagFindInPage"@.len());
    assert("webviewTagCloseDevTools"@ != "webviewTagFindInPage"@);
    reveal_strlit("webviewTagStopFind");
    assert("webviewTagCloseDevTools"@.len() != "webviewTagStopFind"@.len());
    assert("webviewTagCloseDevTools"@ != "webviewTagStopFind"@);
    reveal_strlit("webviewTagOpenDevTools");
    assert("webviewTagCloseDevTools"@.len() != "webviewTagOpenDevTools"@.len());
    assert("webviewTagCloseDevTools"@ != "webviewTagOpenDevTools"@);
}

proof fn lemma_kind_toggle_dev_tools()
    ensures
        message_kind_spec("webviewTagToggleDevTools"@) == MessageKind::WebviewTagToggleDevTools,
{
    reveal_strlit("webviewTagToggleDevTools");
    reveal_strlit("webviewEvent");
    assert("webviewTagToggleDevTools"@.len() != "webviewEvent"@.len());
    assert("webviewTagToggleDevTools"@ != "webviewEvent"@);
    reveal_strlit("webviewTagResize");
    assert("webviewTagToggleDevTools"@.len() != "webviewTagResize"@.len());
    assert("webviewTagToggleDevTools"@ != "webviewTagResize"@);
    reveal_strlit("wgpuTagResize");
    assert("webviewTagToggleDevTools"@.len() != "wgpuTagResize"@.len());
    assert("webviewTagToggleDevTools"@ != "wgpuTagResize"@);
    reveal_strlit("webviewTagUpdateSrc");
    assert("webviewTagToggleDevTools"@.len() != "webviewTagUpdateSrc"@.len());
    assert("webviewTagToggleDevTools"@ != "webviewTagUpdateSrc"@);
    reveal_strlit("webviewTagUpdateHtml");
    assert("webviewTagToggleDevTools"@.len() != "webviewTagUpdateHtml"@.len());
    assert("webviewTagToggleDevTools"@ != "webviewTagUpdateHtml"@);
    reveal_strlit("webviewTagUpdatePreload");
    assert("webviewTagToggleDevTools"@.len() != "webviewTagUpdatePreload"@.len());
    assert("webviewTagToggleDevTools"@ != "webviewTagUpdatePreload"@);
    reveal_strlit("webviewTagGoBack");
    assert("webviewTagToggleDevTools"@.len() != "webviewTagGoBack"@.len());
    assert("webviewTagToggleDevTools"@ != "webviewTagGoBack"@);
    reveal_strlit("webviewTagGoForward");
    assert("webviewTagToggleDevTools"@.len() != "webviewTagGoForward"@.len());
    assert("webviewTagToggleDevTools"@ != "webviewTagGoForward"@);
    reveal_strlit("webviewTagReload");
    assert("webviewTagToggleDevTools"@.len() != "webviewTagReload"@.len());
    assert("webviewTagToggleDevTools"@ != "webviewTagReload"@);
    reveal_strlit("webviewTagRemove");
    assert("webviewTagToggleDevTools"@.len() != "webviewTagRemove"@.len());
    assert("webviewTagToggleDevTools"@ != "webviewTagRemove"@);
    reveal_strlit("startWindowMove");
    assert("webviewTagToggleDevTools"@.len() != "startWindowMove"@.len());
    assert("webviewTagToggleDevTools"@ != "startWindowMove"@);
    reveal_strlit("stopWindowMove");
    assert("webviewTagToggleDevTools"@.len() != "stopWindowMove"@.len());
    assert("webviewTagToggleDevTools"@ != "stopWindowMove"@);
    reveal_strlit("webviewTagSetTransparent");
    assert("webviewTagToggleDevTools"@[10] != "webviewTagSetTransparent"@[10]);
    assert("webviewTagToggleDevTools"@ != "webviewTagSetTransparent"@);
    reveal_strlit("wgpuTagSetTransparent");
    assert("webviewTagToggleDevTools"@.len() != "wgpuTagSetTransparent"@.len());
    assert("webviewTagToggleDevTools"@ != "wgpuTagSetTransparent"@);
    reveal_strlit("webviewTagSetPassthrough");
    assert("webviewTagToggleDevTools"@[10] != "webviewTagSetPassthrough"@[10]);
    assert("webviewTagToggleDevTools"@ != "webviewTagSetPassthrough"@);
    reveal_strlit("wgpuTagSetPassthrough");
    assert("webviewTagToggleDevTools"@.len() != "wgpuTagSetPassthrough"@.len());
    assert("webviewTagToggleDevTools"@ != "wgpuTagSetPassthrough"@);
    reveal_strlit("webviewTagSetHidden");
    assert("webviewTagToggleDevTools"@.len() != "webviewTagSetHidden"@.len());
    assert("webviewTagToggleDevTools"@ != "webviewTagSetHidden"@);
    reveal_strlit("wgpuTagSetHidden");
    assert("webviewTagToggleDevTools"@.len() != "wgpuTagSetHidden"@.len());
    assert("webviewTagToggleDevTools"@ != "wgpuTagSetHidden"@);
    reveal_strlit("wgpuTagRemove");
    assert("webviewTagToggleDevTools"@.len() != "wgpuTagRemove"@.len());
    assert("webviewTagToggleDevTools"@ != "wgpuTagRemove"@);
    reveal_strlit("wgpuTagRunTest");
    assert("webviewTagToggleDevTools"@.len() != "wgpuTagRunTest"@.len());
    assert("webviewTagToggleDevTools"@ != "wgpuTagRunTest"@);
    reveal_strlit("webviewTagSetNavigationRules");
    assert("webviewTagToggleDevTools"@.len() != "webviewTagSetNavigationRules"@.len());
    assert("webviewTagToggleDevTools"@ != "webviewTagSetNavigationRules"@);
    reveal_strlit("webviewTagFindInPage");
    assert("webviewTagToggleDevTools"@.len() != "webviewTagFindInPage"@.len());
    assert("webviewTagToggleDevTools"@ != "webviewTagFindInPage"@);
    reveal_strlit("webviewTagStopFind");
    assert("webviewTagToggleDevTools"@.len() != "webviewTagStopFind"@.len());
    assert("webviewTagToggleDevTools"@ != "webviewTagStopFind"@);
    reveal_strlit("webviewTagOpenDevTools");
    assert("webviewTagToggleDevTools"@.len() != "webviewTagOpenDevTools"@.len());
    assert("webviewTagToggleDevTools"@ != "webviewTagOpenDevTools"@);
    reveal_strlit("webviewTagCloseDevTools");
    assert("webviewTagToggleDevTools"@.len() != "webviewTagCloseDevTools"@.len());
    assert("webviewTagToggleDevTools"@ != "webviewTagCloseDevTools"@);
}

proof fn lemma_kind_webview_event()
    ensures
        message_kind_spec("webviewEvent"@) == MessageKind::WebviewEvent,
{
    reveal_strlit("webviewEvent");
}

proof fn lemma_kind_webview_tag_resize()
    ensures
        message_kind_spec("webviewTagResize"@) == MessageKind::WebviewTagResize,
{
    reveal_strlit("webviewTagResize");
    reveal_strlit("webviewEvent");
    assert("webviewTagResize"@.len() != "webviewEvent"@.len());
    assert("webviewTagResize"@ != "webviewEvent"@);
}

proof fn lemma_kind_wgpu_tag_resize()
    ensures
        message_kind_spec("wgpuTagResize"@) == MessageKind::WgpuTagResize,
{
    reveal_strlit("wgpuTagResize");
    reveal_strlit("webviewEvent");
    assert("wgpuTagResize"@.len() != "webviewEvent"@.len());
    assert("wgpuTagResize"@ != "webviewEvent"@);
    reveal_strlit("webviewTagResize");
    assert("wgpuTagResize"@.len() != "webviewTagResize"@.len());
    assert("wgpuTagResize"@ != "webviewTagResize"@);
}

proof fn lemma_kind_webview_tag_update_src()
    ensures
        message_kind_spec("webviewTagUpdateSrc"@) == MessageKind::WebviewTagUpdateSrc,
{
    reveal_strlit("webviewTagUpdateSrc");
    reveal_strlit("webviewEvent");
    assert("webviewTagUpdateSrc"@.len() != "webviewEvent"@.len());
    assert("webviewTagUpdateSrc"@ != "webviewEvent"@);
    reveal_strlit("webviewTagResize");
    assert("webviewTagUpdateSrc"@.len() != "webviewTagResize"@.len());
    assert("webviewTagUpdateSrc"@ != "webviewTagResize"@);
    reveal_strlit("wgpuTagResize");
    assert("webviewTagUpdateSrc"@.len() != "wgpuTagResize"@.len());
    assert("webviewTagUpdateSrc"@ != "wgpuTagResize"@);
}

proof fn lemma_kind_webview_tag_update_html()
    ensures
        message_kind_spec("webviewTagUpdateHtml"@) == MessageKind::WebviewTagUpdateHtml,
{
    reveal_strlit("webviewTagUpdateHtml");
    reveal_strlit("webviewEvent");
    assert("webviewTagUpdateHtml"@.len() != "webviewEvent"@.len());
    assert("webviewTagUpdateHtml"@ != "webviewEvent"@);
    reveal_strlit("webviewTagResize");
    assert("webviewTagUpdateHtml"@.len() != "webviewTagResize"@.len());
    assert("webviewTagUpdateHtml"@ != "webviewTagResize"@);
    reveal_strlit("wgpuTagResize");
    assert("webviewTagUpdateHtml"@.len() != "wgpuTagResize"@.len());
    assert("webviewTagUpdateHtml"@ != "wgpuTagResize"@);
    reveal_strlit("webviewTagUpdateSrc");
    assert("webviewTagUpdateHtml"@.len() != "webviewTagUpdateSrc"@.len());
    assert("webviewTagUpdateHtml"@ != "webviewTagUpdateSrc"@);
}

proof fn lemma_kind_webview_tag_update_preload()
    ensures
        message_kind_spec("webviewTagUpdatePreload"@) == MessageKind::WebviewTagUpdatePreload,
{
    reveal_strlit("webviewTagUpdatePreload");
    reveal_strlit("webviewEvent");
    assert("webviewTagUpdatePreload"@.len() != "webviewEvent"@.len());
    assert("webviewTagUpdatePreload"@ != "webviewEvent"@);
    reveal_strlit("webviewTagResize");
    assert("webviewTagUpdatePreload"@.len() != "webviewTagResize"@.len());
    assert("webviewTagUpdatePreload"@ != "webviewTagResize"@);
    reveal_strlit("wgpuTagResize");
    assert("webviewTagUpdatePreload"@.len() != "wgpuTagResize"@.len());
    assert("webviewTagUpdatePreload"@ != "wgpuTagResize"@);
    reveal_strlit("webviewTagUpdateSrc");
    assert("webviewTagUpdatePreload"@.len() != "webviewTagUpdateSrc"@.len());
    assert("webviewTagUpdatePreload"@ != "webviewTagUpdateSrc"@);
    reveal_strlit("webviewTagUpdateHtml");
    assert("webviewTagUpdatePreload"@.len() != "webviewTagUpdateHtml"@.len());
    assert("webviewTagUpdatePreload"@ != "webviewTagUpdateHtml"@);
}

proof fn lemma_kind_webview_tag_remove()
    ensures
        message_kind_spec("webviewTagRemove"@) == MessageKind::WebviewTagRemove,
{
    reveal_strlit("webviewTagRemove");
    reveal_strlit("webviewEvent");
    assert("webviewTagRemove"@.len() != "webviewEvent"@.len());
    assert("webviewTagRemove"@ != "webviewEvent"@);
    reveal_strlit("webviewTagResize");
    assert("webviewTagRemove"@[12] != "webviewTagResize"@[12]);
    assert("webviewTagRemove"@ != "webviewTagResize"@);
    reveal_strlit("wgpuTagResize");
    assert("webviewTagRemove"@.len() != "wgpuTagResize"@.len());
    assert("webviewTagRemove"@ != "wgpuTagResize"@);
    reveal_strlit("webviewTagUpdateSrc");
    assert("webviewTagRemove"@.len() != "webviewTagUpdateSrc"@.len());
    assert("webviewTagRemove"@ != "webviewTagUpdateSrc"@);
    reveal_strlit("webviewTagUpdateHtml");
    assert("webviewTagRemove"@.len() != "webviewTagUpdateHtml"@.len());
    assert("webviewTagRemove"@ != "webviewTagUpdateHtml"@);
    reveal_strlit("webviewTagUpdatePreload");
    assert("webviewTagRemove"@.len() != "webviewTagUpdatePreload"@.len());
    assert("webviewTagRemove"@ != "webviewTagUpdatePreload"@);
    reveal_strlit("webviewTagGoBack");
    assert("webviewTagRemove"@[10] != "webviewTagGoBack"@[10]);
    assert("webviewTagRemove"@ != "webviewTagGoBack"@);
    reveal_strlit("webviewTagGoForward");
    assert("webviewTagRemove"@.len() != "webviewTagGoForward"@.len());
    assert("webviewTagRemove"@ != "webviewTagGoForward"@);
    reveal_strlit("webviewTagReload");
    assert("webviewTagRemove"@[12] != "webviewTagReload"@[12]);
    assert("webviewTagRemove"@ != "webviewTagReload"@);
}

proof fn lemma_kind_start_window_move()
    ensures
        message_kind_spec("startWindowMove"@) == MessageKind::StartWindowMove,
{
    reveal_strlit("startWindowMove");
    reveal_strlit("webviewEvent");
    assert("startWindowMove"@.len() != "webviewEvent"@.len());
    assert("startWindowMove"@ != "webviewEvent"@);
    reveal_strlit("webviewTagResize");
    assert("startWindowMove"@.len() != "webviewTagResize"@.len());
    assert("startWindowMove"@ != "webviewTagResize"@);
    reveal_strlit("wgpuTagResize");
    assert("startWindowMove"@.len() != "wgpuTagResize"@.len());
    assert("startWindowMove"@ != "wgpuTagResize"@);
    reveal_strlit("webviewTagUpdateSrc");
    assert("startWindowMove"@.len() != "webviewTagUpdateSrc"@.len());
    assert("startWindowMove"@ != "webviewTagUpdateSrc"@);
    reveal_strlit("webviewTagUpdateHtml");
    assert("startWindowMove"@.len() != "webviewTagUpdateHtml"@.len());
    assert("startWindowMove"@ != "webviewTagUpdateHtml"@);
    reveal_strlit("webviewTagUpdatePreload");
    assert("startWindowMove"@.len() != "webviewTagUpdatePreload"@.len());
    assert("startWindowMove"@ != "webviewTagUpdatePreload"@);
    reveal_strlit("webviewTagGoBack");
    assert("startWindowMove"@.len() != "webviewTagGoBack"@.len());
    assert("startWindowMove"@ != "webviewTagGoBack"@);
    reveal_strlit("webviewTagGoForward");
    assert("startWindowMove"@.len() != "webviewTagGoForward"@.len());
    assert("startWindowMove"@ != "webviewTagGoForward"@);
    reveal_strlit("webviewTagReload");
    assert("startWindowMove"@.len() != "webviewTagReload"@.len());
    assert("startWindowMove"@ != "webviewTagReload"@);
    reveal_strlit("webviewTagRemove");
    assert("startWindowMove"@.len() != "webviewTagRemove"@.len());
    assert("startWindowMove"@ != "webviewTagRemove"@);
}

proof fn lemma_kind_stop_window_move()
    ensures
        message_kind_spec("stopWindowMove"@) == MessageKind::StopWindowMove,
{
    reveal_strlit("stopWindowMove");
    reveal_strlit("webviewEvent");
    assert("stopWindowMove"@.len() != "webviewEvent"@.len());
    assert("stopWindowMove"@ != "webviewEvent"@);
    reveal_strlit("webviewTagResize");
    assert("stopWindowMove"@.len() != "webviewTagResize"@.len());
    assert("stopWindowMove"@ != "webviewTagResize"@);
    reveal_strlit("wgpuTagResize");
    assert("stopWindowMove"@.len() != "wgpuTagResize"@.len());
    assert("stopWindowMove"@ != "wgpuTagResize"@);
    reveal_strlit("webviewTagUpdateSrc");
    assert("stopWindowMove"@.len() != "webviewTagUpdateSrc"@.len());
    assert("stopWindowMove"@ != "webviewTagUpdateSrc"@);
    reveal_strlit("webviewTagUpdateHtml");
    assert("stopWindowMove"@.len() != "webviewTagUpdateHtml"@.len());
    assert("stopWindowMove"@ != "webviewTagUpdateHtml"@);
    reveal_strlit("webviewTagUpdatePreload");
    assert("stopWindowMove"@.len() != "webviewTagUpdatePreload"@.len());
    assert("stopWindowMove"@ != "webviewTagUpdatePreload"@);
    reveal_strlit("webviewTagGoBack");
    assert("stopWindowMove"@.len() != "webviewTagGoBack"@.len());
    assert("stopWindowMove"@ != "webviewTagGoBack"@);
    reveal_strlit("webviewTagGoForward");
    assert("stopWindowMove"@.len() != "webviewTagGoForward"@.len());
    assert("stopWindowMove"@ != "webviewTagGoForward"@);
    reveal_strlit("webviewTagReload");
    assert("stopWindowMove"@.len() != "webviewTagReload"@.len());
    assert("stopWindowMove"@ != "webviewTagReload"@);
    reveal_strlit("webviewTagRemove");
    assert("stopWindowMove"@.len() != "webviewTagRemove"@.len());
    assert("stopWindowMove"@ != "webviewTagRemove"@);
    reveal_strlit("startWindowMove");
    assert("stopWindowMove"@.len() != "startWindowMove"@.len());
    assert("stopWindowMove"@ != "startWindowMove"@);
}

proof fn lemma_kind_webview_tag_set_transparent()
    ensures
        message_kind_spec("webviewTagSetTransparent"@) == MessageKind::WebviewTagSetTransparent,
{
    reveal_strlit("webviewTagSetTransparent");
    reveal_strlit("webviewEvent");
    assert("webviewTagSetTransparent"@.len() != "webviewEvent"@.len());
    assert("webviewTagSetTransparent"@ != "webviewEvent"@);
    reveal_strlit("webviewTagResize");
    assert("webviewTagSetTransparent"@.len() != "webviewTagResize"@.len());
    assert("webviewTagSetTransparent"@ != "webviewTagResize"@);
    reveal_strlit("wgpuTagResize");
    assert("webviewTagSetTransparent"@.len() != "wgpuTagResize"@.len());
    assert("webviewTagSetTransparent"@ != "wgpuTagResize"@);
    reveal_strlit("webviewTagUpdateSrc");
    assert("webviewTagSetTransparent"@.len() != "webviewTagUpdateSrc"@.len());
    assert("webviewTagSetTransparent"@ != "webviewTagUpdateSrc"@);
    reveal_strlit("webviewTagUpdateHtml");
    assert("webviewTagSetTransparent"@.len() != "webviewTagUpdateHtml"@.len());
    assert("webviewTagSetTransparent"@ != "webviewTagUpdateHtml"@);
    reveal_strlit("webviewTagUpdatePreload");
    assert("webviewTagSetTransparent"@.len() != "webviewTagUpdatePreload"@.len());
    assert("webviewTagSetTransparent"@ != "webviewTagUpdatePreload"@);
    reveal_strlit("webviewTagGoBack");
    assert("webviewTagSetTransparent"@.len() != "webviewTagGoBack"@.len());
    assert("webviewTagSetTransparent"@ != "webviewTagGoBack"@);
    reveal_strlit("webviewTagGoForward");
    assert("webviewTagSetTransparent"@.len() != "webviewTagGoForward"@.len());
    assert("webviewTagSetTransparent"@ != "webviewTagGoForward"@);
    reveal_strlit("webviewTagReload");
    assert("webviewTagSetTransparent"@.len() != "webviewTagReload"@.len());
    assert("webviewTagSetTransparent"@ != "webviewTagReload"@);
    reveal_strlit("webviewTagRemove");
    assert("webviewTagSetTransparent"@.len() != "webviewTagRemove"@.len());
    assert("webviewTagSetTransparent"@ != "webviewTagRemove"@);
    reveal_strlit("startWindowMove");
    assert("webviewTagSetTransparent"@.len() != "startWindowMove"@.len());
    assert("webviewTagSetTransparent"@ != "startWindowMove"@);
    reveal_strlit("stopWindowMove");
    assert("webviewTagSetTransparent"@.len() != "stopWindowMove"@.len());
    assert("webviewTagSetTransparent"@ != "stopWindowMove"@);
}

proof fn lemma_kind_wgpu_tag_set_transparent()
    ensures
        message_kind_spec("wgpuTagSetTransparent"@) == MessageKind::WgpuTagSetTransparent,
{
    reveal_strlit("wgpuTagSetTransparent");
    reveal_strlit("webviewEvent");
    assert("wgpuTagSetTransparent"@.len() != "webviewEvent"@.len());
    assert("wgpuTagSetTransparent"@ != "webviewEvent"@);
    reveal_strlit("webviewTagResize");
    assert("wgpuTagSetTransparent"@.len() != "webviewTagResize"@.len());
    assert("wgpuTagSetTransparent"@ != "webviewTagResize"@);
    reveal_strlit("wgpuTagResize");
    assert("wgpuTagSetTransparent"@.len() != "wgpuTagResize"@.len());
    assert("wgpuTagSetTransparent"@ != "wgpuTagResize"@);
    reveal_strlit("webviewTagUpdateSrc");
    assert("wgpuTagSetTransparent"@.len() != "webviewTagUpdateSrc"@.len());
    assert("wgpuTagSetTransparent"@ != "webviewTagUpdateSrc"@);
    reveal_strlit("webviewTagUpdateHtml");
    assert("wgpuTagSetTransparent"@.len() != "webviewTagUpdateHtml"@.len());
    assert("wgpuTagSetTransparent"@ != "webviewTagUpdateHtml"@);
    reveal_strlit("webviewTagUpdatePreload");
    assert("wgpuTagSetTransparent"@.len() != "webviewTagUpdatePreload"@.len());
    assert("wgpuTagSetTransparent"@ != "webviewTagUpdatePreload"@);
    reveal_strlit("webviewTagGoBack");
    assert("wgpuTagSetTransparent"@.len() != "webviewTagGoBack"@.len());
    assert("wgpuTagSetTransparent"@ != "webviewTagGoBack"@);
    reveal_strlit("webviewTagGoForward");
    assert("wgpuTagSetTransparent"@.len() != "webviewTagGoForward"@.len());
    assert("wgpuTagSetTransparent"@ != "webviewTagGoForward"@);
    reveal_strlit("webviewTagReload");
    assert("wgpuTagSetTransparent"@.len() != "webviewTagReload"@.len());
    assert("wgpuTagSetTransparent"@ != "webviewTagReload"@);
    reveal_strlit("webviewTagRemove");
    assert("wgpuTagSetTransparent"@.len() != "webviewTagRemove"@.len());
    assert("wgpuTagSetTransparent"@ != "webviewTagRemove"@);
    reveal_strlit("startWindowMove");
    assert("wgpuTagSetTransparent"@.len() != "startWindowMove"@.len());
    assert("wgpuTagSetTransparent"@ != "startWindowMove"@);
    reveal_strlit("stopWindowMove");
    assert("wgpuTagSetTransparent"@.len() != "stopWindowMove"@.len());
    assert("wgpuTagSetTransparent"@ != "stopWindowMove"@);
    reveal_strlit("webviewTagSetTransparent");
    assert("wgpuTagSetTransparent"@.len() != "webviewTagSetTransparent"@.len());
    assert("wgpuTagSetTransparent"@ != "webviewTagSetTransparent"@);
}

proof fn lemma_kind_webview_tag_set_passthrough()
    ensures
        message_kind_spec("webviewTagSetPassthrough"@) == MessageKind::WebviewTagSetPassthrough,
{
    reveal_strlit("webviewTagSetPassthrough");
    reveal_strlit("webviewEvent");
    assert("webviewTagSetPassthrough"@.len() != "webviewEvent"@.len());
    assert("webviewTagSetPassthrough"@ != "webviewEvent"@);
    reveal_strlit("webviewTagResize");
    assert("webviewTagSetPassthrough"@.len() != "webviewTagResize"@.len());
    assert("webviewTagSetPassthrough"@ != "webviewTagResize"@);
    reveal_strlit("wgpuTagResize");
    assert("webviewTagSetPassthrough"@.len() != "wgpuTagResize"@.len());
    assert("webviewTagSetPassthrough"@ != "wgpuTagResize"@);
    reveal_strlit("webviewTagUpdateSrc");
    assert("webviewTagSetPassthrough"@.len() != "webviewTagUpdateSrc"@.len());
    assert("webviewTagSetPassthrough"@ != "webviewTagUpdateSrc"@);
    reveal_strlit("webviewTagUpdateHtml");
    assert("webviewTagSetPassthrough"@.len() != "webviewTagUpdateHtml"@.len());
    assert("webviewTagSetPassthrough"@ != "webviewTagUpdateHtml"@);
    reveal_strlit("webviewTagUpdatePreload");
    assert("webviewTagSetPassthrough"@.len() != "webviewTagUpdatePreload"@.len());
    assert("webviewTagSetPassthrough"@ != "webviewTagUpdatePreload"@);
    reveal_strlit("webviewTagGoBack");
    assert("webviewTagSetPassthrough"@.len() != "webviewTagGoBack"@.len());
    assert("webviewTagSetPassthrough"@ != "webviewTagGoBack"@);
    reveal_strlit("webviewTagGoForward");
    assert("webviewTagSetPassthrough"@.len() != "webviewTagGoForward"@.len());
    assert("webviewTagSetPassthrough"@ != "webviewTagGoForward"@);
    reveal_strlit("webviewTagReload");
    assert("webviewTagSetPassthrough"@.len() != "webviewTagReload"@.len());
    assert("webviewTagSetPassthrough"@ != "webviewTagReload"@);
    reveal_strlit("webviewTagRemove");
    assert("webviewTagSetPassthrough"@.len() != "webviewTagRemove"@.len());
    assert("webviewTagSetPassthrough"@ != "webviewTagRemove"@);
    reveal_strlit("startWindowMove");
    assert("webviewTagSetPassthrough"@.len() != "startWindowMove"@.len());
    assert("webviewTagSetPassthrough"@ != "startWindowMove"@);
    reveal_strlit("stopWindowMove");
    assert("webviewTagSetPassthrough"@.len() != "stopWindowMove"@.len());
    assert("webviewTagSetPassthrough"@ != "stopWindowMove"@);
    reveal_strlit("webviewTagSetTransparent");
    assert("webviewTagSetPassthrough"@[13] != "webviewTagSetTransparent"@[13]);
    assert("webviewTagSetPassthrough"@ != "webviewTagSetTransparent"@);
    reveal_strlit("wgpuTagSetTransparent");
    assert("webviewTagSetPassthrough"@.len() != "wgpuTagSetTransparent"@.len());
    assert("webviewTagSetPassthrough"@ != "wgpuTagSetTransparent"@);
}

proof fn lemma_kind_wgpu_tag_set_passthrough()
    ensures
        message_kind_spec("wgpuTagSetPassthrough"@) == MessageKind::WgpuTagSetPassthrough,
{
    reveal_strlit("wgpuTagSetPassthrough");
    reveal_strlit("webviewEvent");
    assert("wgpuTagSetPassthrough"@.len() != "webviewEvent"@.len());
    assert("wgpuTagSetPassthrough"@ != "webviewEvent"@);
    reveal_strlit("webviewTagResize");
    assert("wgpuTagSetPassthrough"@.len() != "webviewTagResize"@.len());
    assert("wgpuTagSetPassthrough"@ != "webviewTagResize"@);
    reveal_strlit("wgpuTagResize");
    assert("wgpuTagSetPassthrough"@.len() != "wgpuTagResize"@.len());
    assert("wgpuTagSetPassthrough"@ != "wgpuTagResize"@);
    reveal_strlit("webviewTagUpdateSrc");
    assert("wgpuTagSetPassthrough"@.len() != "webviewTagUpdateSrc"@.len());
    assert("wgpuTagSetPassthrough"@ != "webviewTagUpdateSrc"@);
    reveal_strlit("webviewTagUpdateHtml");
    assert("wgpuTagSetPassthrough"@.len() != "webviewTagUpdateHtml"@.len());
    assert("wgpuTagSetPassthrough"@ != "webviewTagUpdateHtml"@);
    reveal_strlit("webviewTagUpdatePreload");
    assert("wgpuTagSetPassthrough"@.len() != "webviewTagUpdatePreload"@.len());
    assert("wgpuTagSetPassthrough"@ != "webviewTagUpdatePreload"@);
    reveal_strlit("webviewTagGoBack");
    assert("wgpuTagSetPassthrough"@.len() != "webviewTagGoBack"@.len());
    assert("wgpuTagSetPassthrough"@ != "webviewTagGoBack"@);
    reveal_strlit("webviewTagGoForward");
    assert("wgpuTagSetPassthrough"@.len() != "webviewTagGoForward"@.len());
    assert("wgpuTagSetPassthrough"@ != "webviewTagGoForward"@);
    reveal_strlit("webviewTagReload");
    assert("wgpuTagSetPassthrough"@.len() != "webviewTagReload"@.len());
    assert("wgpuTagSetPassthrough"@ != "webviewTagReload"@);
    reveal_strlit("webviewTagRemove");
    assert("wgpuTagSetPassthrough"@.len() != "webviewTagRemove"@.len());
    assert("wgpuTagSetPassthrough"@ != "webviewTagRemove"@);
    reveal_strlit("startWindowMove");
    assert("wgpuTagSetPassthrough"@.len() != "startWindowMove"@.len());
    assert("wgpuTagSetPassthrough"@ != "startWindowMove"@);
    reveal_strlit("stopWindowMove");
    assert("wgpuTagSetPassthrough"@.len() != "stopWindowMove"@.len());
    assert("wgpuTagSetPassthrough"@ != "stopWindowMove"@);
    reveal_strlit("webviewTagSetTransparent");
    assert("wgpuTagSetPassthrough"@.len() != "webviewTagSetTransparent"@.len());
    assert("wgpuTagSetPassthrough"@ != "webviewTagSetTransparent"@);
    reveal_strlit("wgpuTagSetTransparent");
    assert("wgpuTagSetPassthrough"@[10] != "wgpuTagSetTransparent"@[10]);
    assert("wgpuTagSetPassthrough"@ != "wgpuTagSetTransparent"@);
    reveal_strlit("webviewTagSetPassthrough");
    assert("wgpuTagSetPassthrough"@.len() != "webviewTagSetPassthrough"@.len());
    assert("wgpuTagSetPassthrough"@ != "webviewTagSetPassthrough"@);
}

proof fn lemma_kind_webview_tag_set_hidden()
    ensures
        message_kind_spec("webviewTagSetHidden"@) == MessageKind::WebviewTagSetHidden,
{
    reveal_strlit("webviewTagSetHidden");
    reveal_strlit("webviewEvent");
    assert("webviewTagSetHidden"@.len() != "webviewEvent"@.len());
    assert("webviewTagSetHidden"@ != "webviewEvent"@);
    reveal_strlit("webviewTagResize");
    assert("webviewTagSetHidden"@.len() != "webviewTagResize"@.len());
    assert("webviewTagSetHidden"@ != "webviewTagResize"@);
    reveal_strlit("wgpuTagResize");
    assert("webviewTagSetHidden"@.len() != "wgpuTagResize"@.len());
    assert("webviewTagSetHidden"@ != "wgpuTagResize"@);
    reveal_strlit("webviewTagUpdateSrc");
    assert("webviewTagSetHidden"@[10] != "webviewTagUpdateSrc"@[10]);
    assert("webviewTagSetHidden"@ != "webviewTagUpdateSrc"@);
    reveal_strlit("webviewTagUpdateHtml");
    assert("webviewTagSetHidden"@.len() != "webviewTagUpdateHtml"@.len());
    assert("webviewTagSetHidden"@ != "webviewTagUpdateHtml"@);
    reveal_strlit("webviewTagUpdatePreload");
    assert("webviewTagSetHidden"@.len() != "webviewTagUpdatePreload"@.len());
    assert("webviewTagSetHidden"@ != "webviewTagUpdatePreload"@);
    reveal_strlit("webviewTagGoBack");
    assert("webviewTagSetHidden"@.len() != "webviewTagGoBack"@.len());
    assert("webviewTagSetHidden"@ != "webviewTagGoBack"@);
    reveal_strlit("webviewTagGoForward");
    assert("webviewTagSetHidden"@[10] != "webviewTagGoForward"@[10]);
    assert("webviewTagSetHidden"@ != "webviewTagGoForward"@);
    reveal_strlit("webviewTagReload");
    assert("webviewTagSetHidden"@.len() != "webviewTagReload"@.len());
    assert("webviewTagSetHidden"@ != "webviewTagReload"@);
    reveal_strlit("webviewTagRemove");
    assert("webviewTagSetHidden"@.len() != "webviewTagRemove"@.len());
    assert("webviewTagSetHidden"@ != "webviewTagRemove"@);
    reveal_strlit("startWindowMove");
    assert("webviewTagSetHidden"@.len() != "startWindowMove"@.len());
    assert("webviewTagSetHidden"@ != "startWindowMove"@);
    reveal_strlit("stopWindowMove");
    assert("webviewTagSetHidden"@.len() != "stopWindowMove"@.len());
    assert("webviewTagSetHidden"@ != "stopWindowMove"@);
    reveal_strlit("webviewTagSetTransparent");
    assert("webviewTagSetHidden"@.len() != "webviewTagSetTransparent"@.len());
    assert("webviewTagSetHidden"@ != "webviewTagSetTransparent"@);
    reveal_strlit("wgpuTagSetTransparent");
    assert("webviewTagSetHidden"@.len() != "wgpuTagSetTransparent"@.len());
    assert("webviewTagSetHidden"@ != "wgpuTagSetTransparent"@);
    reveal_strlit("webviewTagSetPassthrough");
    assert("webviewTagSetHidden"@.len() != "webviewTagSetPassthrough"@.len());
    assert("webviewTagSetHidden"@ != "webviewTagSetPassthrough"@);
    reveal_strlit("wgpuTagSetPassthrough");
    assert("webviewTagSetHidden"@.len() != "wgpuTagSetPassthrough"@.len());
    assert("webviewTagSetHidden"@ != "wgpuTagSetPassthrough"@);
}

proof fn lemma_kind_wgpu_tag_set_hidden()
    ensures
        message_kind_spec("wgpuTagSetHidden"@) == MessageKind::WgpuTagSetHidden,
{
    reveal_strlit("wgpuTagSetHidden");
    reveal_strlit("webviewEvent");
    assert("wgpuTagSetHidden"@.len() != "webviewEvent"@.len());
    assert("wgpuTagSetHidden"@ != "webviewEvent"@);
    reveal_strlit("webviewTagResize");
    assert("wgpuTagSetHidden"@[1] != "webviewTagResize"@[1]);
    assert("wgpuTagSetHidden"@ != "webviewTagResize"@);
    reveal_strlit("wgpuTagResize");
    assert("wgpuTagSetHidden"@.len() != "wgpuTagResize"@.len());
    assert("wgpuTagSetHidden"@ != "wgpuTagResize"@);
    reveal_strlit("webviewTagUpdateSrc");
    assert("wgpuTagSetHidden"@.len() != "webviewTagUpdateSrc"@.len());
    assert("wgpuTagSetHidden"@ != "webviewTagUpdateSrc"@);
    reveal_strlit("webviewTagUpdateHtml");
    assert("wgpuTagSetHidden"@.len() != "webviewTagUpdateHtml"@.len());
    assert("wgpuTagSetHidden"@ != "webviewTagUpdateHtml"@);
    reveal_strlit("webviewTagUpdatePreload");
    assert("wgpuTagSetHidden"@.len() != "webviewTagUpdatePreload"@.len());
    assert("wgpuTagSetHidden"@ != "webviewTagUpdatePreload"@);
    reveal_strlit("webviewTagGoBack");
    assert("wgpuTagSetHidden"@[1] != "webviewTagGoBack"@[1]);
    assert("wgpuTagSetHidden"@ != "webviewTagGoBack"@);
    reveal_strlit("webviewTagGoForward");
    assert("wgpuTagSetHidden"@.len() != "webviewTagGoForward"@.len());
    assert("wgpuTagSetHidden"@ != "webviewTagGoForward"@);
    reveal_strlit("webviewTagReload");
    assert("wgpuTagSetHidden"@[1] != "webviewTagReload"@[1]);
    assert("wgpuTagSetHidden"@ != "webviewTagReload"@);
    reveal_strlit("webviewTagRemove");
    assert("wgpuTagSetHidden"@[1] != "webviewTagRemove"@[1]);
    assert("wgpuTagSetHidden"@ != "webviewTagRemove"@);
    reveal_strlit("startWindowMove");
    assert("wgpuTagSetHidden"@.len() != "startWindowMove"@.len());
    assert("wgpuTagSetHidden"@ != "startWindowMove"@);
    reveal_strlit("stopWindowMove");
    assert("wgpuTagSetHidden"@.len() != "stopWindowMove"@.len());
    assert("wgpuTagSetHidden"@ != "stopWindowMove"@);
    reveal_strlit("webviewTagSetTransparent");
    assert("wgpuTagSetHidden"@.len() != "webviewTagSetTransparent"@.len());
    assert("wgpuTagSetHidden"@ != "webviewTagSetTransparent"@);
    reveal_strlit("wgpuTagSetTransparent");
    assert("wgpuTagSetHidden"@.len() != "wgpuTagSetTransparent"@.len());
    assert("wgpuTagSetHidden"@ != "wgpuTagSetTransparent"@);
    reveal_strlit("webviewTagSetPassthrough");
    assert("wgpuTagSetHidden"@.len() != "webviewTagSetPassthrough"@.len());
    assert("wgpuTagSetHidden"@ != "webviewTagSetPassthrough"@);
    reveal_strlit("wgpuTagSetPassthrough");
    assert("wgpuTagSetHidden"@.len() != "wgpuTagSetPassthrough"@.len());
    assert("wgpuTagSetHidden"@ != "wgpuTagSetPassthrough"@);
    reveal_strlit("webviewTagSetHidden");
    assert("wgpuTagSetHidden"@.len() != "webviewTagSetHidden"@.len());
    assert("wgpuTagSetHidden"@ != "webviewTagSetHidden"@);
}

proof fn lemma_kind_wgpu_tag_remove()
    ensures
        message_kind_spec("wgpuTagRemove"@) == MessageKind::WgpuTagRemove,
{
    reveal_strlit("wgpuTagRemove");
    reveal_strlit("webviewEvent");
    assert("wgpuTagRemove"@.len() != "webviewEvent"@.len());
    assert("wgpuTagRemove"@ != "webviewEvent"@);
    reveal_strlit("webviewTagResize");
    assert("wgpuTagRemove"@.len() != "webviewTagResize"@.len());
    assert("wgpuTagRemove"@ != "webviewTagResize"@);
    reveal_strlit("wgpuTagResize");
    assert("wgpuTagRemove"@[9] != "wgpuTagResize"@[9]);
    assert("wgpuTagRemove"@ != "wgpuTagResize"@);
    reveal_strlit("webviewTagUpdateSrc");
    assert("wgpuTagRemove"@.len() != "webviewTagUpdateSrc"@.len());
    assert("wgpuTagRemove"@ != "webviewTagUpdateSrc"@);
    reveal_strlit("webviewTagUpdateHtml");
    assert("wgpuTagRemove"@.len() != "webviewTagUpdateHtml"@.len());
    assert("wgpuTagRemove"@ != "webviewTagUpdateHtml"@);
    reveal_strlit("webviewTagUpdatePreload");
    assert("wgpuTagRemove"@.len() != "webviewTagUpdatePreload"@.len());
    assert("wgpuTagRemove"@ != "webviewTagUpdatePreload"@);
    reveal_strlit("webviewTagGoBack");
    assert("wgpuTagRemove"@.len() != "webviewTagGoBack"@.len());
    assert("wgpuTagRemove"@ != "webviewTagGoBack"@);
    reveal_strlit("webviewTagGoForward");
    assert("wgpuTagRemove"@.len() != "webviewTagGoForward"@.len());
    assert("wgpuTagRemove"@ != "webviewTagGoForward"@);
    reveal_strlit("webviewTagReload");
    assert("wgpuTagRemove"@.len() != "webviewTagReload"@.len());
    assert("wgpuTagRemove"@ != "webviewTagReload"@);
    reveal_strlit("webviewTagRemove");
    assert("wgpuTagRemove"@.len() != "webviewTagRemove"@.len());
    assert("wgpuTagRemove"@ != "webviewTagRemove"@);
    reveal_strlit("startWindowMove");
    assert("wgpuTagRemove"@.len() != "startWindowMove"@.len());
    assert("wgpuTagRemove"@ != "startWindowMove"@);
    reveal_strlit("stopWindowMove");
    assert("wgpuTagRemove"@.len() != "stopWindowMove"@.len());
    assert("wgpuTagRemove"@ != "stopWindowMove"@);
    reveal_strlit("webviewTagSetTransparent");
    assert("wgpuTagRemove"@.len() != "webviewTagSetTransparent"@.len());
    assert("wgpuTagRemove"@ != "webviewTagSetTransparent"@);
    reveal_strlit("wgpuTagSetTransparent");
    assert("wgpuTagRemove"@.len() != "wgpuTagSetTransparent"@.len());
    assert("wgpuTagRemove"@ != "wgpuTagSetTransparent"@);
    reveal_strlit("webviewTagSetPassthrough");
    assert("wgpuTagRemove"@.len() != "webviewTagSetPassthrough"@.len());
    assert("wgpuTagRemove"@ != "webviewTagSetPassthrough"@);
    reveal_strlit("wgpuTagSetPassthrough");
    assert("wgpuTagRemove"@.len() != "wgpuTagSetPassthrough"@.len());
    assert("wgpuTagRemove"@ != "wgpuTagSetPassthrough"@);
    reveal_strlit("webviewTagSetHidden");
    assert("wgpuTagRemove"@.len() != "webviewTagSetHidden"@.len());
    assert("wgpuTagRemove"@ != "webviewTagSetHidden"@);
    reveal_strlit("wgpuTagSetHidden");
    assert("wgpuTagRemove"@.len() != "wgpuTagSetHidden"@.len());
    assert("wgpuTagRemove"@ != "wgpuTagSetHidden"@);
}

proof fn lemma_kind_wgpu_tag_run_test()
    ensures
        message_kind_spec("wgpuTagRunTest"@) == MessageKind::WgpuTagRunTest,
{
    reveal_strlit("wgpuTagRunTest");
    reveal_strlit("webviewEvent");
    assert("wgpuTagRunTest"@.len() != "webviewEvent"@.len());
    assert("wgpuTagRunTest"@ != "webviewEvent"@);
    reveal_strlit("webviewTagResize");
    assert("wgpuTagRunTest"@.len() != "webviewTagResize"@.len());
    assert("wgpuTagRunTest"@ != "webviewTagResize"@);
    reveal_strlit("wgpuTagResize");
    assert("wgpuTagRunTest"@.len() != "wgpuTagResize"@.len());
    assert("wgpuTagRunTest"@ != "wgpuTagResize"@);
    reveal_strlit("webviewTagUpdateSrc");
    assert("wgpuTagRunTest"@.len() != "webviewTagUpdateSrc"@.len());
    assert("wgpuTagRunTest"@ != "webviewTagUpdateSrc"@);
    reveal_strlit("webviewTagUpdateHtml");
    assert("wgpuTagRunTest"@.len() != "webviewTagUpdateHtml"@.len());
    assert("wgpuTagRunTest"@ != "webviewTagUpdateHtml"@);
    reveal_strlit("webviewTagUpdatePreload");
    assert("wgpuTagRunTest"@.len() != "webviewTagUpdatePreload"@.len());
    assert("wgpuTagRunTest"@ != "webviewTagUpdatePreload"@);
    reveal_strlit("webviewTagGoBack");
    assert("wgpuTagRunTest"@.len() != "webviewTagGoBack"@.len());
    assert("wgpuTagRunTest"@ != "webviewTagGoBack"@);
    reveal_strlit("webviewTagGoForward");
    assert("wgpuTagRunTest"@.len() != "webviewTagGoForward"@.len());
    assert("wgpuTagRunTest"@ != "webviewTagGoForward"@);
    reveal_strlit("webviewTagReload");
    assert("wgpuTagRunTest"@.len() != "webviewTagReload"@.len());
    assert("wgpuTagRunTest"@ != "webviewTagReload"@);
    reveal_strlit("webviewTagRemove");
    assert("wgpuTagRunTest"@.len() != "webviewTagRemove"@.len());
    assert("wgpuTagRunTest"@ != "webviewTagRemove"@);
    reveal_strlit("startWindowMove");
    assert("wgpuTagRunTest"@.len() != "startWindowMove"@.len());
    assert("wgpuTagRunTest"@ != "startWindowMove"@);
    reveal_strlit("stopWindowMove");
    assert("wgpuTagRunTest"@[0] != "stopWindowMove"@[0]);
    assert("wgpuTagRunTest"@ != "stopWindowMove"@);
    reveal_strlit("webviewTagSetTransparent");
    assert("wgpuTagRunTest"@.len() != "webviewTagSetTransparent"@.len());
    assert("wgpuTagRunTest"@ != "webviewTagSetTransparent"@);
    reveal_strlit("wgpuTagSetTransparent");
    assert("wgpuTagRunTest"@.len() != "wgpuTagSetTransparent"@.len());
    assert("wgpuTagRunTest"@ != "wgpuTagSetTransparent"@);
    reveal_strlit("webviewTagSetPassthrough");
    assert("wgpuTagRunTest"@.len() != "webviewTagSetPassthrough"@.len());
    assert("wgpuTagRunTest"@ != "webviewTagSetPassthrough"@);
    reveal_strlit("wgpuTagSetPassthrough");
    assert("wgpuTagRunTest"@.len() != "wgpuTagSetPassthrough"@.len());
    assert("wgpuTagRunTest"@ != "wgpuTagSetPassthrough"@);
    reveal_strlit("webviewTagSetHidden");
    assert("wgpuTagRunTest"@.len() != "webviewTagSetHidden"@.len());
    assert("wgpuTagRunTest"@ != "webviewTagSetHidden"@);
    reveal_strlit("wgpuTagSetHidden");
    assert("wgpuTagRunTest"@.len() != "wgpuTagSetHidden"@.len());
    assert("wgpuTagRunTest"@ != "wgpuTagSetHidden"@);
    reveal_strlit("wgpuTagRemove");
    assert("wgpuTagRunTest"@.len() != "wgpuTagRemove"@.len());
    assert("wgpuTagRunTest"@ != "wgpuTagRemove"@);
}

proof fn lemma_kind_webview_tag_set_navigation_rules()
    ensures
        message_kind_spec("webviewTagSetNavigationRules"@) == MessageKind::WebviewTagSetNavigationRules,
{
    reveal_strlit("webviewTagSetNavigationRules");
    reveal_strlit("webviewEvent");
    assert("webviewTagSetNavigationRules"@.len() != "webviewEvent"@.len());
    assert("webviewTagSetNavigationRules"@ != "webviewEvent"@);
    reveal_strlit("webviewTagResize");
    assert("webviewTagSetNavigationRules"@.len() != "webviewTagResize"@.len());
    assert("webviewTagSetNavigationRules"@ != "webviewTagResize"@);
    reveal_strlit("wgpuTagResize");
    assert("webviewTagSetNavigationRules"@.len() != "wgpuTagResize"@.len());
    assert("webviewTagSetNavigationRules"@ != "wgpuTagResize"@);
    reveal_strlit("webviewTagUpdateSrc");
    assert("webviewTagSetNavigationRules"@.len() != "webviewTagUpdateSrc"@.len());
    assert("webviewTagSetNavigationRules"@ != "webviewTagUpdateSrc"@);
    reveal_strlit("webviewTagUpdateHtml");
    assert("webviewTagSetNavigationRules"@.len() != "webviewTagUpdateHtml"@.len());
    assert("webviewTagSetNavigationRules"@ != "webviewTagUpdateHtml"@);
    reveal_strlit("webviewTagUpdatePreload");
    assert("webviewTagSetNavigationRules"@.len() != "webviewTagUpdatePreload"@.len());
    assert("webviewTagSetNavigationRules"@ != "webviewTagUpdatePreload"@);
    reveal_strlit("webviewTagGoBack");
    assert("webviewTagSetNavigationRules"@.len() != "webviewTagGoBack"@.len());
    assert("webviewTagSetNavigationRules"@ != "webviewTagGoBack"@);
    reveal_strlit("webviewTagGoForward");
    assert("webviewTagSetNavigationRules"@.len() != "webviewTagGoForward"@.len());
    assert("webviewTagSetNavigationRules"@ != "webviewTagGoForward"@);
    reveal_strlit("webviewTagReload");
    assert("webviewTagSetNavigationRules"@.len() != "webviewTagReload"@.len());
    assert("webviewTagSetNavigationRules"@ != "webviewTagReload"@);
    reveal_strlit("webviewTagRemove");
    assert("webviewTagSetNavigationRules"@.len() != "webviewTagRemove"@.len());
    assert("webviewTagSetNavigationRules"@ != "webviewTagRemove"@);
    reveal_strlit("startWindowMove");
    assert("webviewTagSetNavigationRules"@.len() != "startWindowMove"@.len());
    assert("webviewTagSetNavigationRules"@ != "startWindowMove"@);
    reveal_strlit("stopWindowMove");
    assert("webviewTagSetNavigationRules"@.len() != "stopWindowMove"@.len());
    assert("webviewTagSetNavigationRules"@ != "stopWindowMove"@);
    reveal_strlit("webviewTagSetTransparent");
    assert("webviewTagSetNavigationRules"@.len() != "webviewTagSetTransparent"@.len());
    assert("webviewTagSetNavigationRules"@ != "webviewTagSetTransparent"@);
    reveal_strlit("wgpuTagSetTransparent");
    assert("webviewTagSetNavigationRules"@.len() != "wgpuTagSetTransparent"@.len());
    assert("webviewTagSetNavigationRules"@ != "wgpuTagSetTransparent"@);
    reveal_strlit("webviewTagSetPassthrough");
    assert("webviewTagSetNavigationRules"@.len() != "webviewTagSetPassthrough"@.len());
    assert("webviewTagSetNavigationRules"@ != "webviewTagSetPassthrough"@);
    reveal_strlit("wgpuTagSetPassthrough");
    assert("webviewTagSetNavigationRules"@.len() != "wgpuTagSetPassthrough"@.len());
    assert("webviewTagSetNavigationRules"@ != "wgpuTagSetPassthrough"@);
    reveal_strlit("webviewTagSetHidden");
    assert("webviewTagSetNavigationRules"@.len() != "webviewTagSetHidden"@.len());
    assert("webviewTagSetNavigationRules"@ != "webviewTagSetHidden"@);
    reveal_strlit("wgpuTagSetHidden");
    assert("webviewTagSetNavigationRules"@.len() != "wgpuTagSetHidden"@.len());
    assert("webviewTagSetNavigationRules"@ != "wgpuTagSetHidden"@);
    reveal_strlit("wgpuTagRemove");
    assert("webviewTagSetNavigationRules"@.len() != "wgpuTagRemove"@.len());
    assert("webviewTagSetNavigationRules"@ != "wgpuTagRemove"@);
    reveal_strlit("wgpuTagRunTest");
    assert("webviewTagSetNavigationRules"@.len() != "wgpuTagRunTest"@.len());
    assert("webviewTagSetNavigationRules"@ != "wgpuTagRunTest"@);
}

proof fn lemma_kind_webview_tag_find_in_page()
    ensures
        message_kind_spec("webviewTagFindInPage"@) == MessageKind::WebviewTagFindInPage,
{
    reveal_strlit("webviewTagFindInPage");
    reveal_strlit("webviewEvent");
    assert("webviewTagFindInPage"@.len() != "webviewEvent"@.len());
    assert("webviewTagFindInPage"@ != "webviewEvent"@);
    reveal_strlit("webviewTagResize");
    assert("webviewTagFindInPage"@.len() != "webviewTagResize"@.len());
    assert("webviewTagFindInPage"@ != "webviewTagResize"@);
    reveal_strlit("wgpuTagResize");
    assert("webviewTagFindInPage"@.len() != "wgpuTagResize"@.len());
    assert("webviewTagFindInPage"@ != "wgpuTagResize"@);
    reveal_strlit("webviewTagUpdateSrc");
    assert("webviewTagFindInPage"@.len() != "webviewTagUpdateSrc"@.len());
    assert("webviewTagFindInPage"@ != "webviewTagUpdateSrc"@);
    reveal_strlit("webviewTagUpdateHtml");
    assert("webviewTagFindInPage"@[10] != "webviewTagUpdateHtml"@[10]);
    assert("webviewTagFindInPage"@ != "webviewTagUpdateHtml"@);
    reveal_strlit("webviewTagUpdatePreload");
    assert("webviewTagFindInPage"@.len() != "webviewTagUpdatePreload"@.len());
    assert("webviewTagFindInPage"@ != "webviewTagUpdatePreload"@);
    reveal_strlit("webviewTagGoBack");
    assert("webviewTagFindInPage"@.len() != "webviewTagGoBack"@.len());
    assert("webviewTagFindInPage"@ != "webviewTagGoBack"@);
    reveal_strlit("webviewTagGoForward");
    assert("webviewTagFindInPage"@.len() != "webviewTagGoForward"@.len());
    assert("webviewTagFindInPage"@ != "webviewTagGoForward"@);
    reveal_strlit("webviewTagReload");
    assert("webviewTagFindInPage"@.len() != "webviewTagReload"@.len());
    assert("webviewTagFindInPage"@ != "webviewTagReload"@);
    reveal_strlit("webviewTagRemove");
    assert("webviewTagFindInPage"@.len() != "webviewTagRemove"@.len());
    assert("webviewTagFindInPage"@ != "webviewTagRemove"@);
    reveal_strlit("startWindowMove");
    assert("webviewTagFindInPage"@.len() != "startWindowMove"@.len());
    assert("webviewTagFindInPage"@ != "startWindowMove"@);
    reveal_strlit("stopWindowMove");
    assert("webviewTagFindInPage"@.len() != "stopWindowMove"@.len());
    assert("webviewTagFindInPage"@ != "stopWindowMove"@);
    reveal_strlit("webviewTagSetTransparent");
    assert("webviewTagFindInPage"@.len() != "webviewTagSetTransparent"@.len());
    assert("webviewTagFindInPage"@ != "webviewTagSetTransparent"@);
    reveal_strlit("wgpuTagSetTransparent");
    assert("webviewTagFindInPage"@.len() != "wgpuTagSetTransparent"@.len());
    assert("webviewTagFindInPage"@ != "wgpuTagSetTransparent"@);
    reveal_strlit("webviewTagSetPassthrough");
    assert("webviewTagFindInPage"@.len() != "webviewTagSetPassthrough"@.len());
    assert("webviewTagFindInPage"@ != "webviewTagSetPassthrough"@);
    reveal_strlit("wgpuTagSetPassthrough");
    assert("webviewTagFindInPage"@.len() != "wgpuTagSetPassthrough"@.len());
    assert("webviewTagFindInPage"@ != "wgpuTagSetPassthrough"@);
    reveal_strlit("webviewTagSetHidden");
    assert("webviewTagFindInPage"@.len() != "webviewTagSetHidden"@.len());
    assert("webviewTagFindInPage"@ != "webviewTagSetHidden"@);
    reveal_strlit("wgpuTagSetHidden");
    assert("webviewTagFindInPage"@.len() != "wgpuTagSetHidden"@.len());
    assert("webviewTagFindInPage"@ != "wgpuTagSetHidden"@);
    reveal_strlit("wgpuTagRemove");
    assert("webviewTagFindInPage"@.len() != "wgpuTagRemove"@.len());
    assert("webviewTagFindInPage"@ != "wgpuTagRemove"@);
    reveal_strlit("wgpuTagRunTest");
    assert("webviewTagFindInPage"@.len() != "wgpuTagRunTest"@.len());
    assert("webviewTagFindInPage"@ != "wgpuTagRunTest"@);
    reveal_strlit("webviewTagSetNavigationRules");
    assert("webviewTagFindInPage"@.len() != "webviewTagSetNavigationRules"@.len());
    assert("webviewTagFindInPage"@ != "webviewTagSetNavigationRules"@);
}

proof fn lemma_kind_webview_tag_execute_javascript()
    ensures
        message_kind_spec("webviewTagExecuteJavascript"@) == MessageKind::WebviewTagExecuteJavascript,
{
    reveal_strlit("webviewTagExecuteJavascript");
    reveal_strlit("webviewEvent");
    assert("webviewTagExecuteJavascript"@.len() != "webviewEvent"@.len());
    assert("webviewTagExecuteJavascript"@ != "webviewEvent"@);
    reveal_strlit("webviewTagResize");
    assert("webviewTagExecuteJavascript"@.len() != "webviewTagResize"@.len());
    assert("webviewTagExecuteJavascript"@ != "webviewTagResize"@);
    reveal_strlit("wgpuTagResize");
    assert("webviewTagExecuteJavascript"@.len() != "wgpuTagResize"@.len());
    assert("webviewTagExecuteJavascript"@ != "wgpuTagResize"@);
    reveal_strlit("webviewTagUpdateSrc");
    assert("webviewTagExecuteJavascript"@.len() != "webviewTagUpdateSrc"@.len());
    assert("webviewTagExecuteJavascript"@ != "webviewTagUpdateSrc"@);
    reveal_strlit("webviewTagUpdateHtml");
    assert("webviewTagExecuteJavascript"@.len() != "webviewTagUpdateHtml"@.len());
    assert("webviewTagExecuteJavascript"@ != "webviewTagUpdateHtml"@);
    reveal_strlit("webviewTagUpdatePreload");
    assert("webviewTagExecuteJavascript"@.len() != "webviewTagUpdatePreload"@.len());
    assert("webviewTagExecuteJavascript"@ != "webviewTagUpdatePreload"@);
    reveal_strlit("webviewTagGoBack");
    assert("webviewTagExecuteJavascript"@.len() != "webviewTagGoBack"@.len());
    assert("webviewTagExecuteJavascript"@ != "webviewTagGoBack"@);
    reveal_strlit("webviewTagGoForward");
    assert("webviewTagExecuteJavascript"@.len() != "webviewTagGoForward"@.len());
    assert("webviewTagExecuteJavascript"@ != "webviewTagGoForward"@);
    reveal_strlit("webviewTagReload");
    assert("webviewTagExecuteJavascript"@.len() != "webviewTagReload"@.len());
    assert("webviewTagExecuteJavascript"@ != "webviewTagReload"@);
    reveal_strlit("webviewTagRemove");
    assert("webviewTagExecuteJavascript"@.len() != "webviewTagRemove"@.len());
    assert("webviewTagExecuteJavascript"@ != "webviewTagRemove"@);
    reveal_strlit("startWindowMove");
    assert("webviewTagExecuteJavascript"@.len() != "startWindowMove"@.len());
    assert("webviewTagExecuteJavascript"@ != "startWindowMove"@);
    reveal_strlit("stopWindowMove");
    assert("webviewTagExecuteJavascript"@.len() != "stopWindowMove"@.len());
    assert("webviewTagExecuteJavascript"@ != "stopWindowMove"@);
    reveal_strlit("webviewTagSetTransparent");
    assert("webviewTagExecuteJavascript"@.len() != "webviewTagSetTransparent"@.len());
    assert("webviewTagExecuteJavascript"@ != "webviewTagSetTransparent"@);
    reveal_strlit("wgpuTagSetTransparent");
    assert("webviewTagExecuteJavascript"@.len() != "wgpuTagSetTransparent"@.len());
    assert("webviewTagExecuteJavascript"@ != "wgpuTagSetTransparent"@);
    reveal_strlit("webviewTagSetPassthrough");
    assert("webviewTagExecuteJavascript"@.len() != "webviewTagSetPassthrough"@.len());
    assert("webviewTagExecuteJavascript"@ != "webviewTagSetPassthrough"@);
    reveal_strlit("wgpuTagSetPassthrough");
    assert("webviewTagExecuteJavascript"@.len() != "wgpuTagSetPassthrough"@.len());
    assert("webviewTagExecuteJavascript"@ != "wgpuTagSetPassthrough"@);
    reveal_strlit("webviewTagSetHidden");
    assert("webviewTagExecuteJavascript"@.len() != "webviewTagSetHidden"@.len());
    assert("webviewTagExecuteJavascript"@ != "webviewTagSetHidden"@);
    reveal_strlit("wgpuTagSetHidden");
    assert("webviewTagExecuteJavascript"@.len() != "wgpuTagSetHidden"@.len());
    assert("webviewTagExecuteJavascript"@ != "wgpuTagSetHidden"@);
    reveal_strlit("wgpuTagRemove");
    assert("webviewTagExecuteJavascript"@.len() != "wgpuTagRemove"@.len());
    assert("webviewTagExecuteJavascript"@ != "wgpuTagRemove"@);
    reveal_strlit("wgpuTagRunTest");
    assert("webviewTagExecuteJavascript"@.len() != "wgpuTagRunTest"@.len());
    assert("webviewTagExecuteJavascript"@ != "wgpuTagRunTest"@);
    reveal_strlit("webviewTagSetNavigationRules");
    assert("webviewTagExecuteJavascript"@.len() != "webviewTagSetNavigationRules"@.len());
    assert("webviewTagExecuteJavascript"@ != "webviewTagSetNavigationRules"@);
    reveal_strlit("webviewTagFindInPage");
    assert("webviewTagExecuteJavascript"@.len() != "webviewTagFindInPage"@.len());
    assert("webviewTagExecuteJavascript"@ != "webviewTagFindInPage"@);
    reveal_strlit("webviewTagStopFind");
    assert("webviewTagExecuteJavascript"@.len() != "webviewTagStopFind"@.len());
    assert("webviewTagExecuteJavascript"@ != "webviewTagStopFind"@);
    reveal_strlit("webviewTagOpenDevTools");
    assert("webviewTagExecuteJavascript"@.len() != "webviewTagOpenDevTools"@.len());
    assert("webviewTagExecuteJavascript"@ != "webviewTagOpenDevTools"@);
    reveal_strlit("webviewTagCloseDevTools");
    assert("webviewTagExecuteJavascript"@.len() != "webviewTagCloseDevTools"@.len());
    assert("webviewTagExecuteJavascript"@ != "webviewTagCloseDevTools"@);
    reveal_strlit("webviewTagToggleDevTools");
    assert("webviewTagExecuteJavascript"@.len() != "webviewTagToggleDevTools"@.len());
    assert("webviewTagExecuteJavascript"@ != "webviewTagToggleDevTools"@);
}

fn webview_event_action<'a, H: Copy, N: Copy, E: Copy, P: Copy>(
    registries: &Registries<H, N, E, P>,
    payload: &'a JsonValue,
) -> (r: InternalAction<'a, E>)
    ensures
        r.model() == webview_event_model(targets(*registries), *payload),
{
    let handler = match registries.default_webview_callbacks().webview_event_handler {
        Some(h) => h,
        None => return InternalAction::Nothing,
    };
    let webview_id = match get_u32(payload, "id") {
        Some(i) => i,
        None => return InternalAction::Nothing,
    };
    let event_name = match get_str(payload, "eventName") {
        Some(s) => s,
        None => return InternalAction::Nothing,
    };
    let detail = match get_str(payload, "detail") {
        Some(s) => s,
        None => return InternalAction::Nothing,
    };
    if contains_char(event_name, '\0') || contains_char(detail, '\0') {
        return InternalAction::Nothing;
    }
    InternalAction::WebviewEvent { handler, webview_id, event_name, detail }
}

fn call_action<'a, H: Copy, N: Copy, E: Copy, P: Copy>(
    registries: &Registries<H, N, E, P>,
    o: &'a JsonValue,
    call: WebviewCall,
) -> (r: InternalAction<'a, E>)
    ensures
        r.model() == call_model(targets(*registries), *o, call),
{
    match get_u32(o, "id") {
        Some(i) => {
            let webview = registries.webview_ptr(i);
            if webview != 0 {
                InternalAction::WebviewCall { webview, call }
            } else {
                InternalAction::Nothing
            }
        },
        None => InternalAction::Nothing,
    }
}

fn webview_flag_action<'a, H: Copy, N: Copy, E: Copy, P: Copy>(
    registries: &Registries<H, N, E, P>,
    o: &'a JsonValue,
    key: &str,
    flag: ViewFlag,
) -> (r: InternalAction<'a, E>)
    ensures
        r.model() == webview_flag_model(targets(*registries), *o, key@, flag),
{
    match (get_u32(o, "id"), get_bool(o, key)) {
        (Some(i), Some(value)) => {
            let webview = registries.webview_ptr(i);
            if webview != 0 {
                InternalAction::SetWebviewFlag { webview, flag, value }
            } else {
                InternalAction::Nothing
            }
        },
        _ => InternalAction::Nothing,
    }
}

fn wgpu_flag_action<'a, H: Copy, N: Copy, E: Copy, P: Copy>(
    registries: &Registries<H, N, E, P>,
    o: &'a JsonValue,
    key: &str,
    flag: ViewFlag,
) -> (r: InternalAction<'a, E>)
    ensures
        r.model() == wgpu_flag_model(targets(*registries), *o, key@, flag),
{
    match (get_u32(o, "id"), get_bool(o, key)) {
        (Some(i), Some(value)) => {
            let wgpu_view = registries.wgpu_view_ptr(i);
            if wgpu_view != 0 {
                InternalAction::SetWgpuViewFlag { wgpu_view, flag, value }
            } else {
                InternalAction::Nothing
            }
        },
        _ => InternalAction::Nothing,
    }
}

fn resize_action<'a, H: Copy, N: Copy, E: Copy, P: Copy>(
    registries: &Registries<H, N, E, P>,
    o: &'a JsonValue,
    wgpu: bool,
) -> (r: InternalAction<'a, E>)
    ensures
        r.model() == resize_model(targets(*registries), *o, wgpu),
{
    let i = match get_u32(o, "id") {
        Some(i) => i,
        None => return InternalAction::Nothing,
    };
    let frame = match get_rect(o, "frame") {
        Some(f) => f,
        None => return InternalAction::Nothing,
    };
    let masks = match get_str(o, "masks") {
        Some(m) => m,
        None => "[]",
    };
    let p = if wgpu {
        registries.wgpu_view_ptr(i)
    } else {
        registries.webview_ptr(i)
    };
    if contains_char(masks, '\0') || p == 0 {
        return InternalAction::Nothing;
    }
    if wgpu {
        InternalAction::ResizeWgpuView { wgpu_view: p, frame, masks }
    } else {
        InternalAction::ResizeWebview { webview: p, frame, masks }
    }
}

#[verifier::rlimit(50)]
fn object_message_action<'a, H: Copy, N: Copy, E: Copy, P: Copy>(
    registries: &Registries<H, N, E, P>,
    kind: MessageKind,
    o: &'a JsonValue,
) -> (r: InternalAction<'a, E>)
    ensures
        r.model() == object_message_model(targets(*registries), kind, *o),
{
    match kind {
        MessageKind::WebviewTagResize => resize_action(registries, o, false),
        MessageKind::WgpuTagResize => resize_action(registries, o, true),
        MessageKind::WebviewTagUpdateSrc => match (get_u32(o, "id"), get_str(o, "url")) {
            (Some(i), Some(url)) => {
                let webview = registries.webview_ptr(i);
                if !contains_char(url, '\0') && webview != 0 {
                    InternalAction::LoadUrl { webview, url }
                } else {
                    InternalAction::Nothing
                }
            },
            _ => InternalAction::Nothing,
        },
        MessageKind::WebviewTagUpdateHtml => match (get_u32(o, "id"), get_str(o, "html")) {
            (Some(i), Some(html)) => if !contains_char(html, '\0') {
                InternalAction::LoadHtml { webview_id: i, html }
            } else {
                InternalAction::Nothing
            },
            _ => InternalAction::Nothing,
        },
        MessageKind::WebviewTagUpdatePreload => match (get_u32(o, "id"), get_str(o, "preload")) {
            (Some(i), Some(preload)) => {
                let webview = registries.webview_ptr(i);
                if !contains_char(preload, '\0') && webview != 0 {
                    InternalAction::UpdatePreload { webview, preload }
                } else {
                    InternalAction::Nothing
                }
            },
            _ => InternalAction::Nothing,
        },
        MessageKind::WebviewTagGoBack => call_action(registries, o, WebviewCall::GoBack),
        MessageKind::WebviewTagGoForward => call_action(registries, o, WebviewCall::GoForward),
        MessageKind::WebviewTagReload => call_action(registries, o, WebviewCall::Reload),
        MessageKind::WebviewTagStopFind => call_action(registries, o, WebviewCall::StopFind),
        MessageKind::WebviewTagOpenDevTools => call_action(registries, o, WebviewCall::OpenDevTools),
        MessageKind::WebviewTagCloseDevTools => call_action(
            registries,
            o,
            WebviewCall::CloseDevTools,
        ),
        MessageKind::WebviewTagToggleDevTools => call_action(
            registries,
            o,
            WebviewCall::ToggleDevTools,
        ),
        MessageKind::WebviewTagRemove => match get_u32(o, "id") {
            Some(i) => InternalAction::RemoveWebview { webview_id: i },
            None => InternalAction::Nothing,
        },
        MessageKind::StartWindowMove => match get_u32(o, "id") {
            Some(i) => {
                let window = registries.window_ptr(i);
                if window != 0 {
                    InternalAction::StartWindowMove { window }
                } else {
                    InternalAction::Nothing
                }
            },
            None => InternalAction::Nothing,
        },
        MessageKind::StopWindowMove => InternalAction::StopWindowMove,
        MessageKind::WebviewTagSetTransparent => webview_flag_action(
            registries,
            o,
            "transparent",
            ViewFlag::Transparent,
        ),
        MessageKind::WgpuTagSetTransparent => wgpu_flag_action(
            registries,
            o,
            "transparent",
            ViewFlag::Transparent,
        ),
        MessageKind::WebviewTagSetPassthrough => webview_flag_action(
            registries,
            o,
            "enablePassthrough",
            ViewFlag::Passthrough,
        ),
        MessageKind::WgpuTagSetPassthrough => wgpu_flag_action(
            registries,
            o,
            "passthrough",
            ViewFlag::Passthrough,
        ),
        MessageKind::WebviewTagSetHidden => webview_flag_action(
            registries,
            o,
            "hidden",
            ViewFlag::Hidden,
        ),
        MessageKind::WgpuTagSetHidden => wgpu_flag_action(registries, o, "hidden", ViewFlag::Hidden),
        MessageKind::WgpuTagRemove => match get_u32(o, "id") {
            Some(i) => InternalAction::RemoveWgpuView { wgpu_view_id: i },
            None => InternalAction::Nothing,
        },
        MessageKind::WgpuTagRunTest => match get_u32(o, "id") {
            Some(i) => {
                let wgpu_view = registries.wgpu_view_ptr(i);
                if wgpu_view != 0 {
                    InternalAction::RunWgpuTest { wgpu_view }
                } else {
                    InternalAction::Nothing
                }
            },
            None => InternalAction::Nothing,
        },
        MessageKind::WebviewTagSetNavigationRules => match (get_u32(o, "id"), o.get("rules")) {
            (Some(i), Some(rules)) => {
                let webview = registries.webview_ptr(i);
                if webview != 0 {
                    InternalAction::SetNavigationRules { webview, rules }
                } else {
                    InternalAction::Nothing
                }
            },
            _ => InternalAction::Nothing,
        },
        MessageKind::WebviewTagFindInPage => match (
            get_u32(o, "id"),
            get_str(o, "searchText"),
            get_bool(o, "forward"),
            get_bool(o, "matchCase"),
        ) {
            (Some(i), Some(search_text), Some(forward), Some(match_case)) => {
                let webview = registries.webview_ptr(i);
                if !contains_char(search_text, '\0') && webview != 0 {
                    InternalAction::FindInPage { webview, search_text, forward, match_case }
                } else {
                    InternalAction::Nothing
                }
            },
            _ => InternalAction::Nothing,
        },
        MessageKind::WebviewTagExecuteJavascript => match (get_u32(o, "id"), get_str(o, "js")) {
            (Some(i), Some(js)) => if !contains_char(js, '\0') {
                InternalAction::ExecuteJavascript { webview_id: i, js }
            } else {
                InternalAction::Nothing
            },
            _ => InternalAction::Nothing,
        },
        _ => InternalAction::Nothing,
    }
}

/// Decide the native action for message `message_id` with `payload`
/// (`None` standing for `null`).
pub fn internal_message_action<'a, H: Copy, N: Copy, E: Copy, P: Copy>(
    registries: &Registries<H, N, E, P>,
    message_id: &str,
    payload: Option<&'a JsonValue>,
) -> (r: InternalAction<'a, E>)
    ensures
        r.model() == message_model(
            targets(*registries),
            message_id@,
            match payload {
                Some(p) => Some(*p),
                None => None,
            },
        ),
{
    let kind = message_kind(message_id);
    let p = match payload {
        Some(p) => p,
        None => return InternalAction::Nothing,
    };
    if kind == MessageKind::WebviewEvent {
        return webview_event_action(registries, p);
    }
    match p {
        JsonValue::Object(_) => object_message_action(registries, kind, p),
        _ => InternalAction::Nothing,
    }
}

} // verus!
