# electrobun

The runtime pieces of Electrobun: the core library behind the native window
and webview API, the launcher that starts an app's main process, the
self-extracting installer, and the SDK's path and option types.

- `src/` is the library, written in Verus. Every decision the programs make
  is here with its contract: the window, webview and wgpu-view registries,
  the host message queue and its wakeup flag, the encrypted WebSocket
  transport (handshake, framing, AES-256-GCM packets), the internal bridge
  packets and the actions they ask for, trays, preload scripts, installer
  payload location and tar-member vetting, the launcher's plan and signal
  relay, and the SDK's directory resolution. Calls into `aes-gcm`, `sha1`,
  `base64`, `memchr`, `serde_json` and `dirs` go through small trusted
  wrappers whose contracts say what those crates promise.
- `app/` is ordinary Rust around the library: the C ABI exports, loading the
  native wrapper, sockets and threads, files, processes and signals. It
  hands the library plain values and performs what the library decides.
- `tests/` runs the library on concrete values.
