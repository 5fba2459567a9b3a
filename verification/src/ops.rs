//! The registry side of creating, finding and removing windows, webviews
//! and wgpu views, and the JavaScript the host runs in webviews. Each
//! create flow reserves an id first, lets the host create the native object,
//! then records its handle; a failed step undoes the reservation and gives
//! the error to record.
use vstd::prelude::*;
use crate::ffi_types::WebviewRendererKind;
use crate::json::{json_quote, json_quote_spec};
use crate::lifecycle::Lifecycle;
use crate::registry::{
    Registries,
    all_ids_used,
    first_free_from,
    next_id,
    WebviewState,
    WgpuViewState,
    WindowState,
    window_ptr_of,
    webview_ptr_of,
    wgpu_view_ptr_of,
    webview_wf,
};
use crate::runtime::{WebviewRuntime, build_preload, build_preload_spec};
use crate::secret_key::{parse_webview_secret_key, secret_key_spec, secret_key_error_message};
use crate::text::{concat, contains_char, decimal_string, dec_digits, str_eq};

verus! {

/// `prefix`, the decimal id, then `suffix`.
pub open spec fn id_message(prefix: Seq<char>, id: u32, suffix: Seq<char>) -> Seq<char> {
    prefix + dec_digits(id as nat) + suffix
}

fn format_id_message(prefix: &str, id: u32, suffix: &str) -> (s: String)
    ensures
        s@ == id_message(prefix@, id, suffix@),
{
    let s = concat(String::from_str(prefix), decimal_string(id as u64).as_str());
    concat(s, suffix)
}

// ---- windows ----

/// Reserve an id for a window whose native object is about to be created.
pub fn create_window_begin<H: Copy, N: Copy, E: Copy, P: Copy>(
    registries: &mut Registries<H, N, E, P>,
    placeholder: WindowState<H>,
) -> (r: Result<u32, String>)
    requires
        old(registries).wf(),
    ensures
        final(registries).wf(),
        final(registries).webviews@ == old(registries).webviews@,
        final(registries).wgpu_views@ == old(registries).wgpu_views@,
        match r {
            Ok(id) => id != 0 && !old(registries).windows@.contains_key(id)
                && final(registries).windows@ == old(registries).windows@.insert(id, placeholder)
                && first_free_from(old(registries).next_window_id, old(registries).windows@, id)
                && final(registries).next_window_id == next_id(id),
            Err(e) => e@ == "Failed to allocate window id"@ && final(registries).windows@
                == old(registries).windows@,
        },
        r is Err <==> all_ids_used(old(registries).windows@),
{
    match registries.insert_window_placeholder(placeholder) {
        Some(id) => Ok(id),
        None => Err(String::from_str("Failed to allocate window id")),
    }
}

/// Record the native handle the host created for `window_id` (0 when the
/// creation failed, which drops the reservation).
pub fn create_window_complete<H: Copy, N: Copy, E: Copy, P: Copy>(
    registries: &mut Registries<H, N, E, P>,
    window_id: u32,
    ptr: usize,
) -> (r: Result<u32, String>)
    requires
        old(registries).wf(),
    ensures
        final(registries).wf(),
        final(registries).webviews@ == old(registries).webviews@,
        final(registries).wgpu_views@ == old(registries).wgpu_views@,
        ptr == 0 ==> r is Err && r->Err_0@ == "Failed to create window"@
            && final(registries).windows@ == old(registries).windows@.remove(window_id),
        ptr != 0 && old(registries).windows@.contains_key(window_id) ==> r == Ok::<u32, String>(
            window_id,
        ) && final(registries).windows@ == old(registries).windows@.insert(
            window_id,
            WindowState { ptr, ..old(registries).windows@[window_id] },
        ),
        ptr != 0 && !old(registries).windows@.contains_key(window_id) ==> r is Err && r->Err_0@
            == id_message("Window "@, window_id, " disappeared during creation"@)
            && final(registries).windows@ == old(registries).windows@,
{
    if ptr == 0 {
        registries.remove_window(window_id);
        return Err(String::from_str("Failed to create window"));
    }
    if !registries.set_window_ptr(window_id, ptr) {
        return Err(format_id_message("Window ", window_id, " disappeared during creation"));
    }
    Ok(window_id)
}

// ---- webviews ----

/// The first step of creating a webview: remember the callbacks it was
/// given, then find its window, which must exist and have a native handle.
/// Gives the window's handle and whether it is transparent.
pub fn create_webview_window<H: Copy, N: Copy, E: Copy, P: Copy>(
    registries: &mut Registries<H, N, E, P>,
    window_id: u32,
    navigation_callback: Option<N>,
    webview_event_handler: Option<E>,
    event_bridge_handler: Option<P>,
) -> (r: Result<(usize, bool), String>)
    requires
        old(registries).wf(),
    ensures
        final(registries).wf(),
        final(registries).windows@ == old(registries).windows@,
        final(registries).webviews@ == old(registries).webviews@,
        final(registries).wgpu_views@ == old(registries).wgpu_views@,
        final(registries).default_webview_callbacks.navigation_callback == (if navigation_callback is Some {
            navigation_callback
        } else {
            old(registries).default_webview_callbacks.navigation_callback
        }),
        final(registries).default_webview_callbacks.webview_event_handler == (if webview_event_handler is Some {
            webview_event_handler
        } else {
            old(registries).default_webview_callbacks.webview_event_handler
        }),
        final(registries).default_webview_callbacks.event_bridge_handler == (if event_bridge_handler is Some {
            event_bridge_handler
        } else {
            old(registries).default_webview_callbacks.event_bridge_handler
        }),
        match r {
            Ok((ptr, transparent)) => {
                &&& old(registries).windows@.contains_key(window_id)
                &&& ptr == old(registries).windows@[window_id].ptr
                &&& ptr != 0
                &&& transparent == old(registries).windows@[window_id].transparent
            },
            Err(e) => window_ptr_of(old(registries).windows@, window_id) == 0 && e@ == id_message(
                "Window "@,
                window_id,
                " not found"@,
            ),
        },
{
    registries.remember_default_webview_callbacks(
        navigation_callback,
        webview_event_handler,
        event_bridge_handler,
    );
    match registries.window_state(window_id) {
        Some(w) => if w.ptr == 0 {
            Err(format_id_message("Window ", window_id, " not found"))
        } else {
            Ok((w.ptr, w.transparent))
        },
        None => Err(format_id_message("Window ", window_id, " not found")),
    }
}

/// `st` is the webview a create request reserves: no handle yet, the given
/// window and host (0 meaning none), the renderer named by `renderer`, the
/// key `key`, and no socket.
pub open spec fn is_webview_placeholder(
    st: WebviewState,
    window_id: u32,
    host_webview_id: u32,
    renderer: Seq<char>,
    key: Seq<u8>,
) -> bool {
    &&& st.ptr == 0
    &&& st.window_id == window_id
    &&& st.host_webview_id == (if host_webview_id == 0 {
        None
    } else {
        Some(host_webview_id)
    })
    &&& st.renderer == (if renderer == "cef"@ {
        WebviewRendererKind::Cef
    } else {
        WebviewRendererKind::Native
    })
    &&& st.secret_key@ == key
    &&& st.socket_handle is None
    &&& !st.transport_ready
}

/// The preload a reserved webview `id` gets, or the error: the built
/// preload must not hold a NUL character.
pub open spec fn reserve_outcome(
    runtime: WebviewRuntime,
    id: u32,
    window_id: u32,
    secret_key_csv: Seq<char>,
    sandbox: bool,
) -> Result<Seq<char>, Seq<char>> {
    match build_preload_spec(runtime, id, window_id, secret_key_csv, sandbox) {
        Err(e) => Err(e),
        Ok(p) => if p.contains('\0') {
            Err("Failed to build preload script"@)
        } else {
            Ok(p)
        },
    }
}

/// The second step of creating a webview: parse its key, reserve an id,
/// and build its preload script. Gives the id and the preload; on failure
/// nothing stays reserved and the error to record is given.
pub fn create_webview_reserve<H: Copy, N: Copy, E: Copy, P: Copy>(
    registries: &mut Registries<H, N, E, P>,
    runtime: &WebviewRuntime,
    window_id: u32,
    host_webview_id: u32,
    renderer: &str,
    secret_key_csv: &str,
    sandbox: bool,
) -> (r: Result<(u32, String), String>)
    requires
        old(registries).wf(),
    ensures
        final(registries).wf(),
        final(registries).windows@ == old(registries).windows@,
        final(registries).wgpu_views@ == old(registries).wgpu_views@,
        match secret_key_spec(secret_key_csv@) {
            Err(k) => {
                &&& r is Err
                &&& r->Err_0@ == secret_key_error_message(k)
                &&& final(registries).webviews@ == old(registries).webviews@
                &&& final(registries).next_webview_id == old(registries).next_webview_id
            },
            Ok(key) => if all_ids_used(old(registries).webviews@) {
                &&& r is Err
                &&& r->Err_0@ == "Failed to allocate webview id"@
                &&& final(registries).webviews@ == old(registries).webviews@
                &&& final(registries).next_webview_id == old(registries).next_webview_id
            } else {
                exists|id: u32|
                    {
                        &&& #[trigger] first_free_from(
                            old(registries).next_webview_id,
                            old(registries).webviews@,
                            id,
                        )
                        &&& final(registries).next_webview_id == next_id(id)
                        &&& match reserve_outcome(*runtime, id, window_id, secret_key_csv@, sandbox) {
                            Ok(p) => {
                                &&& r matches Ok((rid, rp)) && rid == id && rp@ == p
                                &&& final(registries).webviews@ == old(registries).webviews@.insert(
                                    id,
                                    final(registries).webviews@[id],
                                )
                                &&& is_webview_placeholder(
                                    final(registries).webviews@[id],
                                    window_id,
                                    host_webview_id,
                                    renderer@,
                                    key,
                                )
                            },
                            Err(e) => {
                                &&& r is Err
                                &&& r->Err_0@ == e
                                &&& final(registries).webviews@ == old(registries).webviews@
                            },
                        }
                    }
            },
        },
{
    let key = match parse_webview_secret_key(secret_key_csv) {
        Ok(k) => k,
        Err(e) => return Err(e.message()),
    };
    let placeholder = WebviewState {
        ptr: 0,
        window_id,
        host_webview_id: if host_webview_id == 0 {
            None
        } else {
            Some(host_webview_id)
        },
        renderer: WebviewRendererKind::parse(renderer),
        secret_key: key,
        socket_handle: None,
        transport_ready: false,
    };
    proof {
        let k = secret_key_spec(secret_key_csv@)->Ok_0;
        assert(is_webview_placeholder(placeholder, window_id, host_webview_id, renderer@, k));
        assert(webview_wf(placeholder));
    }
    let id = match registries.insert_webview_placeholder(placeholder) {
        Some(id) => id,
        None => return Err(String::from_str("Failed to allocate webview id")),
    };
    let preload = match build_preload(runtime, id, window_id, secret_key_csv, sandbox) {
        Ok(p) => p,
        Err(e) => {
            registries.remove_webview(id);
            proof {
                assert(final(registries).webviews@ =~= old(registries).webviews@);
            }
            return Err(e);
        },
    };
    if contains_char(preload.as_str(), '\0') {
        registries.remove_webview(id);
        proof {
            assert(registries.webviews@ =~= old(registries).webviews@);
        }
        return Err(String::from_str("Failed to build preload script"));
    }
    Ok((id, preload))
}

/// Record the native handle the host created for `webview_id` (0 when the
/// creation failed, which drops the reservation).
pub fn create_webview_complete<H: Copy, N: Copy, E: Copy, P: Copy>(
    registries: &mut Registries<H, N, E, P>,
    webview_id: u32,
    ptr: usize,
) -> (r: Result<u32, String>)
    requires
        old(registries).wf(),
    ensures
        final(registries).wf(),
        final(registries).windows@ == old(registries).windows@,
        final(registries).wgpu_views@ == old(registries).wgpu_views@,
        ptr == 0 ==> r is Err && r->Err_0@ == "Failed to create webview"@ && final(registries).webviews@ == old(registries).webviews@.remove(webview_id),
        ptr != 0 && old(registries).webviews@.contains_key(webview_id) ==> r == Ok::<u32, String>(
            webview_id,
        ) && final(registries).webviews@ == old(registries).webviews@.insert(
            webview_id,
            WebviewState { ptr, ..old(registries).webviews@[webview_id] },
        ),
        ptr != 0 && !old(registries).webviews@.contains_key(webview_id) ==> r is Err && r->Err_0@
            == id_message("Webview "@, webview_id, " disappeared during creation"@)
            && final(registries).webviews@ == old(registries).webviews@,
{
    if ptr == 0 {
        registries.remove_webview(webview_id);
        return Err(String::from_str("Failed to create webview"));
    }
    if !registries.set_webview_ptr(webview_id, ptr) {
        return Err(format_id_message("Webview ", webview_id, " disappeared during creation"));
    }
    Ok(webview_id)
}

// ---- handles ----

/// The native handle of `window_id`, or the error to record when it has
/// none.
pub fn require_window_ptr<H: Copy, N: Copy, E: Copy, P: Copy>(
    registries: &Registries<H, N, E, P>,
    window_id: u32,
) -> (r: Result<usize, String>)
    ensures
        match r {
            Ok(ptr) => ptr != 0 && ptr == window_ptr_of(registries.windows@, window_id),
            Err(e) => window_ptr_of(registries.windows@, window_id) == 0 && e@ == id_message(
                "Window "@,
                window_id,
                " not found"@,
            ),
        },
{
    let window = registries.window_ptr(window_id);
    if window == 0 {
        return Err(format_id_message("Window ", window_id, " not found"));
    }
    Ok(window)
}

/// The native handle of `webview_id`, or the error to record when it has
/// none.
pub fn require_webview_ptr<H: Copy, N: Copy, E: Copy, P: Copy>(
    registries: &Registries<H, N, E, P>,
    webview_id: u32,
) -> (r: Result<usize, String>)
    ensures
        match r {
            Ok(ptr) => ptr != 0 && ptr == webview_ptr_of(registries.webviews@, webview_id),
            Err(e) => webview_ptr_of(registries.webviews@, webview_id) == 0 && e@ == id_message(
                "Webview "@,
                webview_id,
                " not found"@,
            ),
        },
{
    let webview = registries.webview_ptr(webview_id);
    if webview == 0 {
        return Err(format_id_message("Webview ", webview_id, " not found"));
    }
    Ok(webview)
}

/// The native handle of `wgpu_view_id`, or the error to record when it has
/// none.
pub fn require_wgpu_view_ptr<H: Copy, N: Copy, E: Copy, P: Copy>(
    registries: &Registries<H, N, E, P>,
    wgpu_view_id: u32,
) -> (r: Result<usize, String>)
    ensures
        match r {
            Ok(ptr) => ptr != 0 && ptr == wgpu_view_ptr_of(registries.wgpu_views@, wgpu_view_id),
            Err(e) => wgpu_view_ptr_of(registries.wgpu_views@, wgpu_view_id) == 0 && e@ == id_message(
                "WGPUView "@,
                wgpu_view_id,
                " not found"@,
            ),
        },
{
    let view = registries.wgpu_view_ptr(wgpu_view_id);
    if view == 0 {
        return Err(format_id_message("WGPUView ", wgpu_view_id, " not found"));
    }
    Ok(view)
}

// ---- wgpu views ----

/// The window a new wgpu view goes into: it must have a native handle.
pub fn create_wgpu_view_window<H: Copy, N: Copy, E: Copy, P: Copy>(
    registries: &Registries<H, N, E, P>,
    window_id: u32,
) -> (r: Result<usize, String>)
    ensures
        match r {
            Ok(ptr) => ptr != 0 && ptr == window_ptr_of(registries.windows@, window_id),
            Err(e) => window_ptr_of(registries.windows@, window_id) == 0 && e@ == id_message(
                "Window "@,
                window_id,
                " not found"@,
            ),
        },
{
    let window = registries.window_ptr(window_id);
    if window == 0 {
        return Err(format_id_message("Window ", window_id, " not found"));
    }
    Ok(window)
}

/// Reserve an id for a wgpu view in `window_id`.
pub fn create_wgpu_view_begin<H: Copy, N: Copy, E: Copy, P: Copy>(
    registries: &mut Registries<H, N, E, P>,
    window_id: u32,
) -> (r: Result<u32, String>)
    requires
        old(registries).wf(),
    ensures
        final(registries).wf(),
        final(registries).windows@ == old(registries).windows@,
        final(registries).webviews@ == old(registries).webviews@,
        match r {
            Ok(id) => id != 0 && !old(registries).wgpu_views@.contains_key(id)
                && final(registries).wgpu_views@ == old(registries).wgpu_views@.insert(
                id,
                WgpuViewState { ptr: 0, window_id },
            ) && first_free_from(old(registries).next_wgpu_view_id, old(registries).wgpu_views@, id)
                && final(registries).next_wgpu_view_id == next_id(id),
            Err(e) => e@ == "Failed to allocate WGPUView id"@ && final(registries).wgpu_views@
                == old(registries).wgpu_views@,
        },
        r is Err <==> all_ids_used(old(registries).wgpu_views@),
{
    match registries.insert_wgpu_view_placeholder(WgpuViewState { ptr: 0, window_id }) {
        Some(id) => Ok(id),
        None => Err(String::from_str("Failed to allocate WGPUView id")),
    }
}

/// Record the native handle the host created for `wgpu_view_id` (0 when
/// the creation failed, which drops the reservation).
pub fn create_wgpu_view_complete<H: Copy, N: Copy, E: Copy, P: Copy>(
    registries: &mut Registries<H, N, E, P>,
    wgpu_view_id: u32,
    ptr: usize,
) -> (r: Result<u32, String>)
    requires
        old(registries).wf(),
    ensures
        final(registries).wf(),
        final(registries).windows@ == old(registries).windows@,
        final(registries).webviews@ == old(registries).webviews@,
        ptr == 0 ==> r is Err && r->Err_0@ == "Failed to create WGPUView"@ && final(registries).wgpu_views@ == old(registries).wgpu_views@.remove(wgpu_view_id),
        ptr != 0 && old(registries).wgpu_views@.contains_key(wgpu_view_id) ==> r == Ok::<
            u32,
            String,
        >(wgpu_view_id) && final(registries).wgpu_views@ == old(registries).wgpu_views@.insert(
            wgpu_view_id,
            WgpuViewState { ptr, ..old(registries).wgpu_views@[wgpu_view_id] },
        ),
        ptr != 0 && !old(registries).wgpu_views@.contains_key(wgpu_view_id) ==> r is Err
            && r->Err_0@ == id_message("WGPUView "@, wgpu_view_id, " disappeared during creation"@)
            && final(registries).wgpu_views@ == old(registries).wgpu_views@,
{
    if ptr == 0 {
        registries.remove_wgpu_view(wgpu_view_id);
        return Err(String::from_str("Failed to create WGPUView"));
    }
    if !registries.set_wgpu_view_ptr(wgpu_view_id, ptr) {
        return Err(format_id_message("WGPUView ", wgpu_view_id, " disappeared during creation"));
    }
    Ok(wgpu_view_id)
}

// ---- removal and lookup ----

/// Remove a webview: gives its native handle (0 when unknown, so there is
/// nothing to remove natively) and its socket, which the host closes.
pub fn webview_remove<H: Copy, N: Copy, E: Copy, P: Copy>(
    registries: &mut Registries<H, N, E, P>,
    webview_id: u32,
) -> (r: (usize, Option<i32>))
    requires
        old(registries).wf(),
    ensures
        final(registries).wf(),
        final(registries).windows@ == old(registries).windows@,
        final(registries).wgpu_views@ == old(registries).wgpu_views@,
        final(registries).webviews@ == old(registries).webviews@.remove(webview_id),
        r.0 == webview_ptr_of(old(registries).webviews@, webview_id),
        r.1 == (if old(registries).webviews@.contains_key(webview_id) {
            old(registries).webviews@[webview_id].socket_handle
        } else {
            None
        }),
{
    match registries.remove_webview(webview_id) {
        Some(state) => (state.ptr, state.socket_handle),
        None => (0, None),
    }
}

/// Remove a wgpu view: gives its native handle (0 when unknown).
pub fn remove_wgpu_view<H: Copy, N: Copy, E: Copy, P: Copy>(
    registries: &mut Registries<H, N, E, P>,
    wgpu_view_id: u32,
) -> (r: usize)
    requires
        old(registries).wf(),
    ensures
        final(registries).wf(),
        final(registries).windows@ == old(registries).windows@,
        final(registries).webviews@ == old(registries).webviews@,
        final(registries).wgpu_views@ == old(registries).wgpu_views@.remove(wgpu_view_id),
        r == wgpu_view_ptr_of(old(registries).wgpu_views@, wgpu_view_id),
{
    match registries.remove_wgpu_view(wgpu_view_id) {
        Some(state) => state.ptr,
        None => 0,
    }
}

/// The webview to run JavaScript in: its native handle, or the error to
/// record when it has none.
pub fn evaluate_javascript<H: Copy, N: Copy, E: Copy, P: Copy>(
    registries: &Registries<H, N, E, P>,
    webview_id: u32,
) -> (r: Result<usize, String>)
    ensures
        match r {
            Ok(ptr) => ptr != 0 && ptr == webview_ptr_of(registries.webviews@, webview_id),
            Err(e) => webview_ptr_of(registries.webviews@, webview_id) == 0 && e@ == id_message(
                "Webview "@,
                webview_id,
                " not found"@,
            ),
        },
{
    let webview = registries.webview_ptr(webview_id);
    if webview == 0 {
        return Err(format_id_message("Webview ", webview_id, " not found"));
    }
    Ok(webview)
}

/// The URL a CEF webview loads after its HTML was stored.
pub const MANAGED_HTML_URL: &'static str = "views://internal/index.html";

/// How to load managed HTML into a webview.
pub enum ManagedHtmlLoad {
    /// The webview is unknown: nothing happens.
    Skip,
    /// A CEF webview: store the HTML for the webview's id, then load
    /// [`MANAGED_HTML_URL`] into `webview` unless it is 0.
    Cef { webview: usize },
    /// A native webview: load the HTML into `webview`.
    Native { webview: usize },
    /// A native webview without a handle: the error to record.
    Missing(String),
}

/// Decide how to load managed HTML into `webview_id`.
pub fn load_managed_html<H: Copy, N: Copy, E: Copy, P: Copy>(
    registries: &Registries<H, N, E, P>,
    webview_id: u32,
) -> (r: ManagedHtmlLoad)
    ensures
        !registries.webviews@.contains_key(webview_id) ==> r is Skip,
        registries.webviews@.contains_key(webview_id) && registries.webviews@[webview_id].renderer
            == WebviewRendererKind::Cef ==> r == (ManagedHtmlLoad::Cef {
            webview: registries.webviews@[webview_id].ptr,
        }),
        registries.webviews@.contains_key(webview_id) && registries.webviews@[webview_id].renderer
            == WebviewRendererKind::Native ==> if registries.webviews@[webview_id].ptr == 0 {
            r matches ManagedHtmlLoad::Missing(e) && e@ == id_message(
                "Webview "@,
                webview_id,
                " not found"@,
            )
        } else {
            r == (ManagedHtmlLoad::Native { webview: registries.webviews@[webview_id].ptr })
        },
{
    let state = match registries.webview_state(webview_id) {
        Some(s) => s,
        None => return ManagedHtmlLoad::Skip,
    };
    match state.renderer {
        WebviewRendererKind::Cef => ManagedHtmlLoad::Cef { webview: state.ptr },
        WebviewRendererKind::Native => if state.ptr == 0 {
            ManagedHtmlLoad::Missing(format_id_message("Webview ", webview_id, " not found"))
        } else {
            ManagedHtmlLoad::Native { webview: state.ptr }
        },
    }
}

// ---- JavaScript for webviews ----

/// Events whose detail is already JSON and is passed through as is.
pub open spec fn raw_detail_event(event_name: Seq<char>) -> bool {
    event_name == "new-window-open"@ || event_name == "host-message"@
}

/// The JavaScript that raises `event_name` with `detail` on the element of
/// webview `webview_id` in its host page.
pub open spec fn host_webview_event_js(webview_id: u32, event_name: Seq<char>, detail: Seq<char>) -> Seq<
    char,
> {
    "document.querySelector('#electrobun-webview-"@ + dec_digits(webview_id as nat) + "').emit("@
        + json_quote_spec(event_name) + ", "@ + (if raw_detail_event(event_name) {
        detail
    } else {
        json_quote_spec(detail)
    }) + ");"@
}

/// What to do for a host-webview event.
pub enum HostWebviewEvent {
    /// The webview has no host webview: nothing is sent.
    NoHost,
    /// The script could not be handed over (it holds a NUL): the error to
    /// record.
    BadScript(String),
    /// Run `js` in `host_webview_id` (see [`evaluate_javascript`]).
    Run { host_webview_id: u32, js: String },
}

/// Build the event script for `webview_id` and pick the webview to run it
/// in.
pub fn dispatch_host_webview_event<H: Copy, N: Copy, E: Copy, P: Copy>(
    registries: &Registries<H, N, E, P>,
    webview_id: u32,
    event_name: &str,
    detail: &str,
) -> (r: HostWebviewEvent)
    ensures
        match (if registries.webviews@.contains_key(webview_id) {
            registries.webviews@[webview_id].host_webview_id
        } else {
            None
        }) {
            None => r is NoHost,
            Some(host) => {
                let js = host_webview_event_js(webview_id, event_name@, detail@);
                if js.contains('\0') {
                    r matches HostWebviewEvent::BadScript(e) && e@
                        == "Failed to allocate javascript string"@
                } else {
                    r matches HostWebviewEvent::Run { host_webview_id, js: s } && host_webview_id
                        == host && s@ == js
                }
            },
        },
{
    let host = match registries.webview_host_id(webview_id) {
        Some(h) => h,
        None => return HostWebviewEvent::NoHost,
    };
    let name = json_quote(event_name);
    let raw = {
        let a = str_eq(event_name, "new-window-open");
        let b = str_eq(event_name, "host-message");
        a || b
    };
    let s = concat(
        String::from_str("document.querySelector('#electrobun-webview-"),
        decimal_string(webview_id as u64).as_str(),
    );
    let s = concat(s, "').emit(");
    let s = concat(s, name.as_str());
    let s = concat(s, ", ");
    let s = if raw {
        concat(s, detail)
    } else {
        let quoted = json_quote(detail);
        concat(s, quoted.as_str())
    };
    let js = concat(s, ");");
    if contains_char(js.as_str(), '\0') {
        return HostWebviewEvent::BadScript(String::from_str("Failed to allocate javascript string"));
    }
    HostWebviewEvent::Run { host_webview_id: host, js }
}

/// The JavaScript that hands `message_json` to a webview's internal
/// message receiver.
pub open spec fn internal_message_js(message_json: Seq<char>) -> Seq<char> {
    "window.__electrobun.receiveInternalMessageFromHost("@ + message_json + ");"@
}

/// The script delivering `message_json` to a webview, or the error to
/// record when it holds a NUL.
pub fn send_internal_message_to_webview(message_json: &str) -> (r: Result<String, String>)
    ensures
        match r {
            Ok(js) => js@ == internal_message_js(message_json@) && !js@.contains('\0'),
            Err(e) => internal_message_js(message_json@).contains('\0') && e@
                == "Failed to allocate javascript string"@,
        },
{
    let s = concat(String::from_str("window.__electrobun.receiveInternalMessageFromHost("), message_json);
    let js = concat(s, ");");
    if contains_char(js.as_str(), '\0') {
        return Err(String::from_str("Failed to allocate javascript string"));
    }
    Ok(js)
}

// ---- closing a window ----

proof fn lemma_push_contains(s: Seq<u32>, a: u32, x: u32)
    ensures
        s.push(a).contains(x) <==> (s.contains(x) || x == a),
{
    if s.push(a).contains(x) {
        let k = choose|k: int| 0 <= k < s.push(a).len() && s.push(a)[k] == x;
        if k < s.len() {
            assert(s[k] == x);
        }
    }
    if s.contains(x) {
        let k = choose|k: int| 0 <= k < s.len() && s[k] == x;
        assert(s.push(a)[k] == x);
    }
    if x == a {
        assert(s.push(a)[s.len() as int] == x);
    }
}

/// The ids of removed webview entries.
pub open spec fn removed_webview_ids(s: Seq<(u32, usize, Option<i32>)>) -> Seq<u32> {
    s.map_values(|e: (u32, usize, Option<i32>)| e.0)
}

/// The ids of removed wgpu view entries.
pub open spec fn removed_wgpu_view_ids(s: Seq<(u32, usize)>) -> Seq<u32> {
    s.map_values(|e: (u32, usize)| e.0)
}

/// What closing a window removed and what the host still has to do.
pub struct WindowClosed<H, Q> {
    /// The handlers of the removed window (its close handler is called).
    pub handlers: Option<H>,
    /// The removed webviews: id, native handle (0: none) and socket, which
    /// the host removes and closes.
    pub webviews: Vec<(u32, usize, Option<i32>)>,
    /// The removed wgpu views: id and native handle (0: none).
    pub wgpu_views: Vec<(u32, usize)>,
    /// The quit-requested handler to call: set when quitting on
    /// last-window-close is on and no window is left.
    pub request_quit: Option<Q>,
}

/// Close `window_id`: remove it, every webview and wgpu view in it, and
/// decide whether the app is asked to quit.
pub fn close_window<H: Copy, N: Copy, E: Copy, P: Copy, Q: Copy>(
    registries: &mut Registries<H, N, E, P>,
    lifecycle: &Lifecycle<Q>,
    window_id: u32,
) -> (r: WindowClosed<H, Q>)
    requires
        old(registries).wf(),
    ensures
        final(registries).wf(),
        final(registries).windows@ == old(registries).windows@.remove(window_id),
        r.handlers == (if old(registries).windows@.contains_key(window_id) {
            Some(old(registries).windows@[window_id].handlers)
        } else {
            None
        }),
        forall|id: u32|
            #[trigger] final(registries).webviews@.contains_key(id) <==> (old(registries).webviews@.contains_key(id) && old(registries).webviews@[id].window_id != window_id),
        forall|id: u32| #[trigger]
            final(registries).webviews@.contains_key(id) ==> final(registries).webviews@[id] == old(registries).webviews@[id],
        removed_webview_ids(r.webviews@).no_duplicates(),
        forall|id: u32|
            #[trigger] removed_webview_ids(r.webviews@).contains(id) <==> (old(registries).webviews@.contains_key(id) && old(registries).webviews@[id].window_id == window_id),
        forall|k: int|
            0 <= k < r.webviews@.len() ==> (#[trigger] r.webviews@[k]).1 == old(registries).webviews@[r.webviews@[k].0].ptr && r.webviews@[k].2 == old(registries).webviews@[r.webviews@[k].0].socket_handle,
        forall|id: u32|
            #[trigger] final(registries).wgpu_views@.contains_key(id) <==> (old(registries).wgpu_views@.contains_key(id) && old(registries).wgpu_views@[id].window_id != window_id),
        forall|id: u32| #[trigger]
            final(registries).wgpu_views@.contains_key(id) ==> final(registries).wgpu_views@[id]
                == old(registries).wgpu_views@[id],
        removed_wgpu_view_ids(r.wgpu_views@).no_duplicates(),
        forall|id: u32|
            #[trigger] removed_wgpu_view_ids(r.wgpu_views@).contains(id) <==> (old(registries).wgpu_views@.contains_key(id) && old(registries).wgpu_views@[id].window_id == window_id),
        forall|k: int|
            0 <= k < r.wgpu_views@.len() ==> (#[trigger] r.wgpu_views@[k]).1 == old(registries).wgpu_views@[r.wgpu_views@[k].0].ptr,
        r.request_quit == (if lifecycle.exit_on_last_window_closed && final(registries).windows@.dom().len() == 0 {
            lifecycle.quit_requested_handler
        } else {
            None
        }),
{
    let removed = registries.remove_window(window_id);
    let handlers = match removed {
        Some(state) => Some(state.handlers),
        None => None,
    };
    let ghost w0 = registries.webviews@;
    let ids = registries.webview_ids_for_window(window_id);
    let mut webviews: Vec<(u32, usize, Option<i32>)> = Vec::new();
    let mut i: usize = 0;
    while i < ids.len()
        invariant
            registries.wf(),
            registries.windows@ == old(registries).windows@.remove(window_id),
            registries.wgpu_views@ == old(registries).wgpu_views@,
            w0 == old(registries).webviews@,
            i <= ids@.len(),
            ids@.no_duplicates(),
            forall|id: u32|
                ids@.contains(id) <==> (w0.contains_key(id) && w0[id].window_id == window_id),
            webviews@.len() == i,
            forall|k: int| 0 <= k < i ==> (#[trigger] webviews@[k]).0 == ids@[k],
            forall|k: int|
                0 <= k < i ==> (#[trigger] webviews@[k]).1 == w0[ids@[k]].ptr && webviews@[k].2
                    == w0[ids@[k]].socket_handle,
            forall|id: u32|
                #[trigger] registries.webviews@.contains_key(id) <==> (w0.contains_key(id)
                    && !ids@.take(i as int).contains(id)),
            forall|id: u32| #[trigger]
                registries.webviews@.contains_key(id) ==> registries.webviews@[id] == w0[id],
        decreases ids.len() - i,
    {
        let id = ids[i];
        proof {
            assert(ids@.contains(id));
            assert(!ids@.take(i as int).contains(id)) by {
                if ids@.take(i as int).contains(id) {
                    let k = choose|k: int| 0 <= k < i && ids@.take(i as int)[k] == id;
                    assert(ids@[k] == ids@[i as int]);
                }
            }
        }
        let ghost prev = registries.webviews@;
        let (ptr, socket) = webview_remove(registries, id);
        webviews.push((id, ptr, socket));
        proof {
            assert(ids@.take(i + 1) =~= ids@.take(i as int).push(id));
            assert forall|x: u32| #[trigger]
                registries.webviews@.contains_key(x) <==> (w0.contains_key(x) && !ids@.take(
                    i + 1,
                ).contains(x)) by {
                assert(registries.webviews@.contains_key(x) <==> (prev.contains_key(x) && x != id));
                assert(prev.contains_key(x) <==> (w0.contains_key(x) && !ids@.take(i as int).contains(x)));
                lemma_push_contains(ids@.take(i as int), id, x);
            }
        }
        i += 1;
    }
    proof {
        assert(ids@.take(ids@.len() as int) =~= ids@);
        assert(removed_webview_ids(webviews@) =~= ids@);
    }
    let ghost g0 = registries.wgpu_views@;
    let gids = registries.wgpu_view_ids_for_window(window_id);
    let mut wgpu_views: Vec<(u32, usize)> = Vec::new();
    let mut j: usize = 0;
    while j < gids.len()
        invariant
            registries.wf(),
            registries.windows@ == old(registries).windows@.remove(window_id),
            g0 == old(registries).wgpu_views@,
            forall|id: u32|
                #[trigger] registries.webviews@.contains_key(id) <==> (old(registries).webviews@.contains_key(id) && old(registries).webviews@[id].window_id
                    != window_id),
            forall|id: u32| #[trigger]
                registries.webviews@.contains_key(id) ==> registries.webviews@[id] == old(registries).webviews@[id],
            j <= gids@.len(),
            gids@.no_duplicates(),
            forall|id: u32|
                gids@.contains(id) <==> (g0.contains_key(id) && g0[id].window_id == window_id),
            wgpu_views@.len() == j,
            forall|k: int| 0 <= k < j ==> (#[trigger] wgpu_views@[k]).0 == gids@[k],
            forall|k: int| 0 <= k < j ==> (#[trigger] wgpu_views@[k]).1 == g0[gids@[k]].ptr,
            forall|id: u32|
                #[trigger] registries.wgpu_views@.contains_key(id) <==> (g0.contains_key(id)
                    && !gids@.take(j as int).contains(id)),
            forall|id: u32| #[trigger]
                registries.wgpu_views@.contains_key(id) ==> registries.wgpu_views@[id] == g0[id],
        decreases gids.len() - j,
    {
        let id = gids[j];
        proof {
            assert(gids@.contains(id));
            assert(!gids@.take(j as int).contains(id)) by {
                if gids@.take(j as int).contains(id) {
                    let k = choose|k: int| 0 <= k < j && gids@.take(j as int)[k] == id;
                    assert(gids@[k] == gids@[j as int]);
                }
            }
        }
        let ghost prev = registries.wgpu_views@;
        let ptr = remove_wgpu_view(registries, id);
        wgpu_views.push((id, ptr));
        proof {
            assert(gids@.take(j + 1) =~= gids@.take(j as int).push(id));
            assert forall|x: u32| #[trigger]
                registries.wgpu_views@.contains_key(x) <==> (g0.contains_key(x) && !gids@.take(
                    j + 1,
                ).contains(x)) by {
                assert(registries.wgpu_views@.contains_key(x) <==> (prev.contains_key(x) && x != id));
                assert(prev.contains_key(x) <==> (g0.contains_key(x) && !gids@.take(j as int).contains(x)));
                lemma_push_contains(gids@.take(j as int), id, x);
            }
        }
        j += 1;
    }
    proof {
        assert(gids@.take(gids@.len() as int) =~= gids@);
        assert(removed_wgpu_view_ids(wgpu_views@) =~= gids@);
    }
    let request_quit = if lifecycle.exit_on_last_window_closed && !registries.has_open_windows() {
        lifecycle.quit_requested_handler
    } else {
        None
    };
    WindowClosed { handlers, webviews, wgpu_views, request_quit }
}

} // verus!
