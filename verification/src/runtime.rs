//! The webview runtime configuration and the per-webview preload script:
//! the `window.__electrobun*` globals (ids, ports, the transport key bytes
//! and the bridge lookups) put in front of the configured script.
use vstd::prelude::*;
use crate::text::{concat, decimal_string, dec_digits};

verus! {

/// The configured preload scripts and the transport port.
pub struct WebviewRuntime {
    pub rpc_port: u32,
    pub preload_script: Option<String>,
    pub preload_script_sandboxed: Option<String>,
    pub configured: bool,
}

impl WebviewRuntime {
    /// Nothing configured, port 0.
    pub fn new() -> (r: WebviewRuntime)
        ensures
            r.rpc_port == 0,
            r.preload_script is None,
            r.preload_script_sandboxed is None,
            !r.configured,
    {
        WebviewRuntime {
            rpc_port: 0,
            preload_script: None,
            preload_script_sandboxed: None,
            configured: false,
        }
    }
}

/// Record the port the transport listens on.
pub fn set_rpc_port(runtime: &mut WebviewRuntime, port: u32)
    ensures
        final(runtime).rpc_port == port,
        final(runtime).preload_script == old(runtime).preload_script,
        final(runtime).preload_script_sandboxed == old(runtime).preload_script_sandboxed,
        final(runtime).configured == old(runtime).configured,
{
    runtime.rpc_port = port;
}

/// Store both preload scripts and the initial port.
pub fn configure(
    runtime: &mut WebviewRuntime,
    rpc_port: u32,
    preload_script: String,
    preload_script_sandboxed: String,
)
    ensures
        final(runtime).rpc_port == rpc_port,
        final(runtime).preload_script == Some(preload_script),
        final(runtime).preload_script_sandboxed == Some(preload_script_sandboxed),
        final(runtime).configured == old(runtime).configured,
{
    runtime.rpc_port = rpc_port;
    runtime.preload_script = Some(preload_script);
    runtime.preload_script_sandboxed = Some(preload_script_sandboxed);
}

/// Mark the runtime configured (done once the transport server runs).
pub fn mark_configured(runtime: &mut WebviewRuntime)
    ensures
        final(runtime).configured,
        final(runtime).rpc_port == old(runtime).rpc_port,
        final(runtime).preload_script == old(runtime).preload_script,
        final(runtime).preload_script_sandboxed == old(runtime).preload_script_sandboxed,
{
    runtime.configured = true;
}

/// The lines every preload starts with: the webview's and window's ids.
pub open spec fn ids_prelude(webview_id: u32, window_id: u32) -> Seq<char> {
    "window.__electrobunWebviewId = "@ + dec_digits(webview_id as nat) + ";\nwindow.__electrobunWindowId = "@
        + dec_digits(window_id as nat) + ";\n"@
}

/// The event and internal bridge lookups.
pub open spec fn bridges_prelude() -> Seq<char> {
    "window.__electrobunEventBridge = window.__electrobunEventBridge || window.webkit?.messageHandlers?.eventBridge || window.eventBridge || window.chrome?.webview?.hostObjects?.eventBridge;\nwindow.__electrobunInternalBridge = window.__electrobunInternalBridge || window.webkit?.messageHandlers?.internalBridge || window.internalBridge || window.chrome?.webview?.hostObjects?.internalBridge;\n"@
}

/// The host and bun bridge lookups (for unsandboxed webviews).
pub open spec fn host_bridges_prelude() -> Seq<char> {
    "window.__electrobunHostBridge = window.__electrobunHostBridge || window.__electrobunBunBridge || window.webkit?.messageHandlers?.hostBridge || window.webkit?.messageHandlers?.bunBridge || window.hostBridge || window.bunBridge || window.chrome?.webview?.hostObjects?.hostBridge || window.chrome?.webview?.hostObjects?.bunBridge;\nwindow.__electrobunBunBridge = window.__electrobunBunBridge || window.webkit?.messageHandlers?.bunBridge || window.bunBridge || window.chrome?.webview?.hostObjects?.bunBridge;\n"@
}

/// The preload of a sandboxed webview.
pub open spec fn sandboxed_preload_spec(webview_id: u32, window_id: u32, script: Seq<char>) -> Seq<char> {
    ids_prelude(webview_id, window_id) + bridges_prelude() + script
}

/// The preload of an unsandboxed webview: it also learns the transport
/// port (as both socket ports) and its key bytes.
pub open spec fn full_preload_spec(
    webview_id: u32,
    window_id: u32,
    rpc_port: u32,
    secret_key_csv: Seq<char>,
    script: Seq<char>,
) -> Seq<char> {
    ids_prelude(webview_id, window_id) + "window.__electrobunHostSocketPort = "@ + dec_digits(
        rpc_port as nat,
    ) + ";\nwindow.__electrobunRpcSocketPort = "@ + dec_digits(rpc_port as nat)
        + ";\nwindow.__electrobunSecretKeyBytes = ["@ + secret_key_csv + "];\n"@ + bridges_prelude()
        + host_bridges_prelude() + script
}

/// What building a preload gives for a runtime state.
pub open spec fn build_preload_spec(
    runtime: WebviewRuntime,
    webview_id: u32,
    window_id: u32,
    secret_key_csv: Seq<char>,
    sandbox: bool,
) -> Result<Seq<char>, Seq<char>> {
    if !runtime.configured {
        Err("Webview runtime is not configured"@)
    } else {
        match (runtime.preload_script, runtime.preload_script_sandboxed) {
            (Some(p), Some(s)) => if sandbox {
                Ok(sandboxed_preload_spec(webview_id, window_id, s@))
            } else {
                Ok(full_preload_spec(webview_id, window_id, runtime.rpc_port, secret_key_csv, p@))
            },
            _ => Err("Webview runtime preload scripts are not configured"@),
        }
    }
}

fn push_ids_prelude(webview_id: u32, window_id: u32) -> (s: String)
    ensures
        s@ == ids_prelude(webview_id, window_id),
{
    let s = String::from_str("window.__electrobunWebviewId = ");
    let s = concat(s, decimal_string(webview_id as u64).as_str());
    let s = concat(s, ";\nwindow.__electrobunWindowId = ");
    let s = concat(s, decimal_string(window_id as u64).as_str());
    concat(s, ";\n")
}

/// Build the preload for a new webview, or the error to record when the
/// runtime is not configured with both scripts.
pub fn build_preload(
    runtime: &WebviewRuntime,
    webview_id: u32,
    window_id: u32,
    secret_key_csv: &str,
    sandbox: bool,
) -> (r: Result<String, String>)
    ensures
        match r {
            Ok(s) => build_preload_spec(*runtime, webview_id, window_id, secret_key_csv@, sandbox)
                == Ok::<Seq<char>, Seq<char>>(s@),
            Err(e) => build_preload_spec(*runtime, webview_id, window_id, secret_key_csv@, sandbox)
                == Err::<Seq<char>, Seq<char>>(e@),
        },
{
    if !runtime.configured {
        return Err(String::from_str("Webview runtime is not configured"));
    }
    let (preload, sandboxed) = match (&runtime.preload_script, &runtime.preload_script_sandboxed) {
        (Some(p), Some(s)) => (p, s),
        _ => return Err(String::from_str("Webview runtime preload scripts are not configured")),
    };
    let bridges = "window.__electrobunEventBridge = window.__electrobunEventBridge || window.webkit?.messageHandlers?.eventBridge || window.eventBridge || window.chrome?.webview?.hostObjects?.eventBridge;\nwindow.__electrobunInternalBridge = window.__electrobunInternalBridge || window.webkit?.messageHandlers?.internalBridge || window.internalBridge || window.chrome?.webview?.hostObjects?.internalBridge;\n";
    let s = push_ids_prelude(webview_id, window_id);
    if sandbox {
        let s = concat(s, bridges);
        return Ok(concat(s, sandboxed.as_str()));
    }
    let port = decimal_string(runtime.rpc_port as u64);
    let s = concat(s, "window.__electrobunHostSocketPort = ");
    let s = concat(s, port.as_str());
    let s = concat(s, ";\nwindow.__electrobunRpcSocketPort = ");
    let s = concat(s, port.as_str());
    let s = concat(s, ";\nwindow.__electrobunSecretKeyBytes = [");
    let s = concat(s, secret_key_csv);
    let s = concat(s, "];\n");
    let s = concat(s, bridges);
    let s = concat(
        s,
        "window.__electrobunHostBridge = window.__electrobunHostBridge || window.__electrobunBunBridge || window.webkit?.messageHandlers?.hostBridge || window.webkit?.messageHandlers?.bunBridge || window.hostBridge || window.bunBridge || window.chrome?.webview?.hostObjects?.hostBridge || window.chrome?.webview?.hostObjects?.bunBridge;\nwindow.__electrobunBunBridge = window.__electrobunBunBridge || window.webkit?.messageHandlers?.bunBridge || window.bunBridge || window.chrome?.webview?.hostObjects?.bunBridge;\n",
    );
    Ok(concat(s, preload.as_str()))
}

} // verus!
