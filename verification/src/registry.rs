//! Id-keyed registries of windows, webviews and wgpu views.
//!
//! A native handle is carried as its address (`0` is null); the handler
//! slots are generic so that the host can store its callback pointers.
use vstd::prelude::*;
use std::collections::HashMap;
use crate::ffi_types::WebviewRendererKind;
use crate::secret_key::WebviewSecretKey;

verus! {

broadcast use vstd::std_specs::hash::group_hash_axioms;

/// Number of non-zero `u32` ids.
pub open spec fn id_space() -> nat {
    0xFFFF_FFFFnat
}

/// The id `k` steps after `start` in the cycle `1, 2, ..., u32::MAX, 1, ...`.
pub open spec fn cyclic_id(start: u32, k: nat) -> u32 {
    ((((start as int) - 1 + k) % (id_space() as int)) + 1) as u32
}

/// The id after `id` in that cycle.
pub open spec fn next_id(id: u32) -> u32 {
    if id == 0xFFFF_FFFFu32 {
        1
    } else {
        (id + 1) as u32
    }
}

/// Every non-zero id is a key of `used`.
pub open spec fn all_ids_used<V>(used: Map<u32, V>) -> bool {
    forall|id: u32| id != 0 ==> #[trigger] used.contains_key(id)
}

/// `id` is the first id, scanning from `start` in cyclic order, that is not
/// a key of `used`.
pub open spec fn first_free_from<V>(start: u32, used: Map<u32, V>, id: u32) -> bool {
    &&& !used.contains_key(id)
    &&& exists|k: nat|
        k < id_space() && id == cyclic_id(start, k) && forall|j: nat|
            j < k ==> used.contains_key(#[trigger] cyclic_id(start, j))
}

/// Allocate the first id not present in `used`, scanning from `*counter`
/// through the non-zero ids in cyclic order; the counter then points just
/// past the allocated id. Returns `None`, leaving the counter unchanged,
/// when every non-zero id is in use.
pub fn allocate_id<V>(counter: &mut u32, used: &HashMap<u32, V>) -> (r: Option<u32>)
    requires
        *old(counter) != 0,
    ensures
        match r {
            Some(id) => id != 0 && !used@.contains_key(id) && *final(counter) == next_id(id)
                && exists|k: nat|
                k < id_space() && id == cyclic_id(*old(counter), k) && forall|j: nat|
                    j < k ==> used@.contains_key(#[trigger] cyclic_id(*old(counter), j)),
            None => *final(counter) == *old(counter) && forall|k: nat|
                k < id_space() ==> used@.contains_key(#[trigger] cyclic_id(*old(counter), k)),
        },
        r is None <==> all_ids_used(used@),
{
    let start = *counter;
    let mut id = start;
    let ghost mut k: nat = 0;
    proof {
        assert(cyclic_id(start, 0) == start) by (nonlinear_arith)
            requires
                1 <= start <= 0xFFFF_FFFFu32,
        ;
    }
    while used.contains_key(&id)
        invariant
            start == *old(counter),
            start != 0,
            *counter == start,
            k < id_space(),
            id == cyclic_id(start, k),
            id != 0,
            forall|j: nat| j < k ==> used@.contains_key(#[trigger] cyclic_id(start, j)),
        decreases id_space() - k,
    {
        let ghost k0 = k;
        proof {
            lemma_cyclic_step(start, k0);
        }
        if id == 0xFFFF_FFFF {
            id = 1;
        } else {
            id = id + 1;
        }
        proof {
            k = k0 + 1;
        }
        if id == start {
            proof {
                lemma_cyclic_wraps(start, k);
                assert forall|j: nat| j < id_space() implies used@.contains_key(
                    #[trigger] cyclic_id(start, j),
                ) by {
                    if j >= k0 {
                        assert(j == k0);
                    }
                }
                assert forall|x: u32| x != 0 implies #[trigger] used@.contains_key(x) by {
                    let kx = lemma_cyclic_index(start, x);
                    assert(used@.contains_key(cyclic_id(start, kx)));
                }
            }
            return None;
        }
        proof {
            lemma_cyclic_no_early_wrap(start, k);
        }
    }
    *counter = if id == 0xFFFF_FFFF {
        1
    } else {
        id + 1
    };
    Some(id)
}

/// Every non-zero id is reached from `start` within one cycle.
proof fn lemma_cyclic_index(start: u32, id: u32) -> (k: nat)
    requires
        start != 0,
        id != 0,
    ensures
        k < id_space(),
        cyclic_id(start, k) == id,
{
    let m = id_space() as int;
    if id >= start {
        let k = (id - start) as nat;
        let a = (start as int) - 1 + k;
        assert(a == id - 1);
        assert(a % m == a);
        k
    } else {
        let k = (m + id - start) as nat;
        let a = (start as int) - 1 + k;
        assert(a == m + id - 1);
        assert(a % m == id - 1);
        k
    }
}

proof fn lemma_cyclic_step(start: u32, k: nat)
    requires
        start != 0,
        k < id_space(),
    ensures
        cyclic_id(start, k + 1) == next_id(cyclic_id(start, k)),
{
    let m = id_space() as int;
    let a = (start as int) - 1 + k;
    assert(0 <= a);
    let r = a % m;
    assert(0 <= r < m) by (nonlinear_arith)
        requires
            m > 0,
            r == a % m,
    ;
    if r + 1 == m {
        assert((a + 1) % m == 0) by (nonlinear_arith)
            requires
                r == a % m,
                r + 1 == m,
                m > 0,
                a >= 0,
        ;
    } else {
        assert((a + 1) % m == r + 1) by (nonlinear_arith)
            requires
                r == a % m,
                r + 1 < m,
                0 <= r,
                m > 0,
                a >= 0,
        ;
    }
}

proof fn lemma_cyclic_wraps(start: u32, k: nat)
    requires
        start != 0,
        0 < k <= id_space(),
        cyclic_id(start, k) == start,
    ensures
        k == id_space(),
{
    let m = id_space() as int;
    let a = (start as int) - 1;
    assert(0 <= a < m);
    assert(((a + k) % m) == a);
    assert(k == m) by (nonlinear_arith)
        requires
            0 <= a < m,
            0 < k <= m,
            (a + k) % m == a,
    ;
}

proof fn lemma_cyclic_no_early_wrap(start: u32, k: nat)
    requires
        start != 0,
        0 < k <= id_space(),
        cyclic_id(start, k) != start,
    ensures
        k < id_space(),
{
    if k == id_space() {
        let m = id_space() as int;
        let a = (start as int) - 1;
        assert((a + m) % m == a) by (nonlinear_arith)
            requires
                0 <= a < m,
        ;
    }
}

/// A window's registry entry. `handlers` holds the host's callbacks.
#[derive(Clone, Copy)]
pub struct WindowState<H> {
    pub ptr: usize,
    pub transparent: bool,
    pub handlers: H,
}

/// A webview's registry entry.
#[derive(Clone, Copy)]
pub struct WebviewState {
    pub ptr: usize,
    pub window_id: u32,
    pub host_webview_id: Option<u32>,
    pub renderer: WebviewRendererKind,
    pub secret_key: WebviewSecretKey,
    /// The live transport socket, if any.
    pub socket_handle: Option<i32>,
    pub transport_ready: bool,
}

/// A wgpu view's registry entry.
#[derive(Clone, Copy)]
pub struct WgpuViewState {
    pub ptr: usize,
    pub window_id: u32,
}

/// A webview's transport fields, copied out of the registry.
#[derive(Clone, Copy)]
pub struct WebviewTransportContext {
    pub secret_key: WebviewSecretKey,
    pub socket_handle: Option<i32>,
    pub transport_ready: bool,
}

/// Callbacks remembered from webview creation, reused for webviews created
/// from inside a page.
#[derive(Clone, Copy)]
pub struct DefaultWebviewCallbacks<N, E, P> {
    pub navigation_callback: Option<N>,
    pub webview_event_handler: Option<E>,
    pub event_bridge_handler: Option<P>,
}

/// The registries and their id counters.
pub struct Registries<H, N, E, P> {
    pub windows: HashMap<u32, WindowState<H>>,
    pub webviews: HashMap<u32, WebviewState>,
    pub wgpu_views: HashMap<u32, WgpuViewState>,
    pub next_window_id: u32,
    pub next_webview_id: u32,
    pub next_wgpu_view_id: u32,
    pub default_webview_callbacks: DefaultWebviewCallbacks<N, E, P>,
}

/// The webviews after marking `webview_id` ready, which happens only while
/// `handle` is its socket.
pub open spec fn with_transport_ready(m: Map<u32, WebviewState>, webview_id: u32, handle: i32) -> Map<
    u32,
    WebviewState,
> {
    if m.contains_key(webview_id) && m[webview_id].socket_handle == Some(handle) {
        m.insert(webview_id, WebviewState { transport_ready: true, ..m[webview_id] })
    } else {
        m
    }
}

/// The native handle of window `id`, or 0 when unknown.
pub open spec fn window_ptr_of<H>(m: Map<u32, WindowState<H>>, id: u32) -> usize {
    if m.contains_key(id) {
        m[id].ptr
    } else {
        0
    }
}

/// The native handle of webview `id`, or 0 when unknown.
pub open spec fn webview_ptr_of(m: Map<u32, WebviewState>, id: u32) -> usize {
    if m.contains_key(id) {
        m[id].ptr
    } else {
        0
    }
}

/// The native handle of wgpu view `id`, or 0 when unknown.
pub open spec fn wgpu_view_ptr_of(m: Map<u32, WgpuViewState>, id: u32) -> usize {
    if m.contains_key(id) {
        m[id].ptr
    } else {
        0
    }
}

/// A webview is only marked ready while it has a socket.
pub open spec fn webview_wf(s: WebviewState) -> bool {
    s.transport_ready ==> s.socket_handle is Some
}

impl<H: Copy, N: Copy, E: Copy, P: Copy> Registries<H, N, E, P> {
    /// Counters never reach 0 and every ready webview has a socket.
    pub open spec fn wf(&self) -> bool {
        &&& self.next_window_id != 0
        &&& self.next_webview_id != 0
        &&& self.next_wgpu_view_id != 0
        &&& forall|id: u32| #[trigger]
            self.webviews@.contains_key(id) ==> webview_wf(self.webviews@[id])
    }

    /// Empty registries whose counters start at 1.
    pub fn new() -> (r: Self)
        ensures
            r.wf(),
            r.windows@ == Map::<u32, WindowState<H>>::empty(),
            r.webviews@ == Map::<u32, WebviewState>::empty(),
            r.wgpu_views@ == Map::<u32, WgpuViewState>::empty(),
            r.next_window_id == 1,
            r.next_webview_id == 1,
            r.next_wgpu_view_id == 1,
            r.default_webview_callbacks.navigation_callback is None,
            r.default_webview_callbacks.webview_event_handler is None,
            r.default_webview_callbacks.event_bridge_handler is None,
    {
        Registries {
            windows: HashMap::new(),
            webviews: HashMap::new(),
            wgpu_views: HashMap::new(),
            next_window_id: 1,
            next_webview_id: 1,
            next_wgpu_view_id: 1,
            default_webview_callbacks: DefaultWebviewCallbacks {
                navigation_callback: None,
                webview_event_handler: None,
                event_bridge_handler: None,
            },
        }
    }

    // ---- windows ----
    /// Reserve an id and store `state` under it.
    pub fn insert_window_placeholder(&mut self, state: WindowState<H>) -> (r: Option<u32>)
        requires
            old(self).wf(),
        ensures
            final(self).wf(),
            final(self).webviews@ == old(self).webviews@,
            final(self).wgpu_views@ == old(self).wgpu_views@,
            match r {
                Some(id) => id != 0 && !old(self).windows@.contains_key(id) && final(self).windows@
                    == old(self).windows@.insert(id, state),
                None => final(self).windows@ == old(self).windows@,
            },
            match r {
                Some(id) => first_free_from(old(self).next_window_id, old(self).windows@, id)
                    && final(self).next_window_id == next_id(id),
                None => final(self).next_window_id == old(self).next_window_id,
            },
            r is None <==> all_ids_used(old(self).windows@),
    {
        let id = allocate_id(&mut self.next_window_id, &self.windows);
        match id {
            Some(id) => {
                self.windows.insert(id, state);
                Some(id)
            },
            None => None,
        }
    }

    /// Fill in the native handle of a window; false if the id is unknown.
    pub fn set_window_ptr(&mut self, window_id: u32, ptr: usize) -> (r: bool)
        requires
            old(self).wf(),
        ensures
            final(self).wf(),
            final(self).webviews@ == old(self).webviews@,
            final(self).wgpu_views@ == old(self).wgpu_views@,
            r == old(self).windows@.contains_key(window_id),
            r ==> final(self).windows@ == old(self).windows@.insert(
                window_id,
                WindowState { ptr, ..old(self).windows@[window_id] },
            ),
            !r ==> final(self).windows@ == old(self).windows@,
    {
        match self.windows.get(&window_id) {
            Some(s) => {
                let updated = WindowState { ptr, transparent: s.transparent, handlers: s.handlers };
                self.windows.insert(window_id, updated);
                true
            },
            None => false,
        }
    }

    pub fn remove_window(&mut self, window_id: u32) -> (r: Option<WindowState<H>>)
        requires
            old(self).wf(),
        ensures
            final(self).wf(),
            final(self).webviews@ == old(self).webviews@,
            final(self).wgpu_views@ == old(self).wgpu_views@,
            final(self).windows@ == old(self).windows@.remove(window_id),
            r == (if old(self).windows@.contains_key(window_id) {
                Some(old(self).windows@[window_id])
            } else {
                None
            }),
    {
        self.windows.remove(&window_id)
    }

    pub fn window_state(&self, window_id: u32) -> (r: Option<WindowState<H>>)
        ensures
            r == (if self.windows@.contains_key(window_id) {
                Some(self.windows@[window_id])
            } else {
                None
            }),
    {
        match self.windows.get(&window_id) {
            Some(s) => Some(*s),
            None => None,
        }
    }

    /// The native handle of a window, or 0 when unknown.
    pub fn window_ptr(&self, window_id: u32) -> (r: usize)
        ensures
            r == (if self.windows@.contains_key(window_id) {
                self.windows@[window_id].ptr
            } else {
                0
            }),
    {
        match self.windows.get(&window_id) {
            Some(s) => s.ptr,
            None => 0,
        }
    }

    pub fn has_open_windows(&self) -> (r: bool)
        ensures
            r == (self.windows@.dom().len() > 0),
    {
        !self.windows.is_empty()
    }

    // ---- webviews ----
    /// Reserve an id and store `state` under it.
    pub fn insert_webview_placeholder(&mut self, state: WebviewState) -> (r: Option<u32>)
        requires
            old(self).wf(),
            webview_wf(state),
        ensures
            final(self).wf(),
            final(self).windows@ == old(self).windows@,
            final(self).wgpu_views@ == old(self).wgpu_views@,
            match r {
                Some(id) => id != 0 && !old(self).webviews@.contains_key(id) && final(self).webviews@
                    == old(self).webviews@.insert(id, state),
                None => final(self).webviews@ == old(self).webviews@,
            },
            match r {
                Some(id) => first_free_from(old(self).next_webview_id, old(self).webviews@, id)
                    && final(self).next_webview_id == next_id(id),
                None => final(self).next_webview_id == old(self).next_webview_id,
            },
            r is None <==> all_ids_used(old(self).webviews@),
    {
        let id = allocate_id(&mut self.next_webview_id, &self.webviews);
        match id {
            Some(id) => {
                self.webviews.insert(id, state);
                Some(id)
            },
            None => None,
        }
    }

    /// Store a webview entry back (private: keeps the invariant).
    fn put_webview(&mut self, webview_id: u32, state: WebviewState)
        requires
            old(self).wf(),
            webview_wf(state),
        ensures
            final(self).wf(),
            final(self).windows@ == old(self).windows@,
            final(self).wgpu_views@ == old(self).wgpu_views@,
            final(self).webviews@ == old(self).webviews@.insert(webview_id, state),
    {
        self.webviews.insert(webview_id, state);
    }

    /// Fill in the native handle of a webview; false if the id is unknown.
    pub fn set_webview_ptr(&mut self, webview_id: u32, ptr: usize) -> (r: bool)
        requires
            old(self).wf(),
        ensures
            final(self).wf(),
            final(self).windows@ == old(self).windows@,
            final(self).wgpu_views@ == old(self).wgpu_views@,
            r == old(self).webviews@.contains_key(webview_id),
            r ==> final(self).webviews@ == old(self).webviews@.insert(
                webview_id,
                WebviewState { ptr, ..old(self).webviews@[webview_id] },
            ),
            !r ==> final(self).webviews@ == old(self).webviews@,
    {
        match self.webviews.get(&webview_id) {
            Some(s) => {
                let updated = WebviewState { ptr, ..*s };
                self.put_webview(webview_id, updated);
                true
            },
            None => false,
        }
    }

    pub fn remove_webview(&mut self, webview_id: u32) -> (r: Option<WebviewState>)
        requires
            old(self).wf(),
        ensures
            final(self).wf(),
            final(self).windows@ == old(self).windows@,
            final(self).wgpu_views@ == old(self).wgpu_views@,
            final(self).webviews@ == old(self).webviews@.remove(webview_id),
            final(self).next_webview_id == old(self).next_webview_id,
            r == (if old(self).webviews@.contains_key(webview_id) {
                Some(old(self).webviews@[webview_id])
            } else {
                None
            }),
    {
        self.webviews.remove(&webview_id)
    }

    pub fn webview_state(&self, webview_id: u32) -> (r: Option<WebviewState>)
        ensures
            r == (if self.webviews@.contains_key(webview_id) {
                Some(self.webviews@[webview_id])
            } else {
                None
            }),
    {
        match self.webviews.get(&webview_id) {
            Some(s) => Some(*s),
            None => None,
        }
    }

    /// The native handle of a webview, or 0 when unknown.
    pub fn webview_ptr(&self, webview_id: u32) -> (r: usize)
        ensures
            r == (if self.webviews@.contains_key(webview_id) {
                self.webviews@[webview_id].ptr
            } else {
                0
            }),
    {
        match self.webviews.get(&webview_id) {
            Some(s) => s.ptr,
            None => 0,
        }
    }

    /// The host webview of a nested webview.
    pub fn webview_host_id(&self, webview_id: u32) -> (r: Option<u32>)
        ensures
            r == (if self.webviews@.contains_key(webview_id) {
                self.webviews@[webview_id].host_webview_id
            } else {
                None
            }),
    {
        match self.webviews.get(&webview_id) {
            Some(s) => s.host_webview_id,
            None => None,
        }
    }

    pub fn webview_transport_context(&self, webview_id: u32) -> (r: Option<WebviewTransportContext>)
        ensures
            match r {
                Some(c) => self.webviews@.contains_key(webview_id) && c.secret_key
                    == self.webviews@[webview_id].secret_key && c.socket_handle
                    == self.webviews@[webview_id].socket_handle && c.transport_ready
                    == self.webviews@[webview_id].transport_ready,
                None => !self.webviews@.contains_key(webview_id),
            },
    {
        match self.webviews.get(&webview_id) {
            Some(s) => Some(
                WebviewTransportContext {
                    secret_key: s.secret_key,
                    socket_handle: s.socket_handle,
                    transport_ready: s.transport_ready,
                },
            ),
            None => None,
        }
    }

    /// Attach a new socket to a webview, un-marking it ready. Returns the
    /// previous socket when it differs (for the caller to close), or
    /// `Err(())` for an unknown webview.
    pub fn attach_webview_socket(&mut self, webview_id: u32, handle: i32) -> (r: Result<Option<i32>, ()>)
        requires
            old(self).wf(),
        ensures
            final(self).wf(),
            final(self).windows@ == old(self).windows@,
            final(self).wgpu_views@ == old(self).wgpu_views@,
            match r {
                Err(()) => !old(self).webviews@.contains_key(webview_id) && final(self).webviews@
                    == old(self).webviews@,
                Ok(prev) => old(self).webviews@.contains_key(webview_id) && final(self).webviews@
                    == old(self).webviews@.insert(
                    webview_id,
                    WebviewState {
                        socket_handle: Some(handle),
                        transport_ready: false,
                        ..old(self).webviews@[webview_id]
                    },
                ) && prev == (match old(self).webviews@[webview_id].socket_handle {
                    Some(p) => if p != handle {
                        Some(p)
                    } else {
                        None
                    },
                    None => None,
                }),
            },
    {
        let s = match self.webviews.get(&webview_id) {
            Some(s) => *s,
            None => return Err(()),
        };
        let previous = match s.socket_handle {
            Some(p) => if p != handle {
                Some(p)
            } else {
                None
            },
            None => None,
        };
        self.put_webview(
            webview_id,
            WebviewState { socket_handle: Some(handle), transport_ready: false, ..s },
        );
        Ok(previous)
    }

    /// Detach `handle` from a webview if it is still the current socket.
    pub fn clear_webview_socket_if_current(&mut self, webview_id: u32, handle: i32)
        requires
            old(self).wf(),
        ensures
            final(self).wf(),
            final(self).windows@ == old(self).windows@,
            final(self).wgpu_views@ == old(self).wgpu_views@,
            if old(self).webviews@.contains_key(webview_id)
                && old(self).webviews@[webview_id].socket_handle == Some(handle) {
                final(self).webviews@ == old(self).webviews@.insert(
                    webview_id,
                    WebviewState {
                        socket_handle: None,
                        transport_ready: false,
                        ..old(self).webviews@[webview_id]
                    },
                )
            } else {
                final(self).webviews@ == old(self).webviews@
            },
    {
        if let Some(s) = self.webviews.get(&webview_id) {
            let s = *s;
            if s.socket_handle == Some(handle) {
                self.put_webview(
                    webview_id,
                    WebviewState { socket_handle: None, transport_ready: false, ..s },
                );
            }
        }
    }

    /// Detach and return a webview's socket, un-marking it ready.
    pub fn take_webview_socket(&mut self, webview_id: u32) -> (r: Option<i32>)
        requires
            old(self).wf(),
        ensures
            final(self).wf(),
            final(self).windows@ == old(self).windows@,
            final(self).wgpu_views@ == old(self).wgpu_views@,
            if old(self).webviews@.contains_key(webview_id) {
                &&& r == old(self).webviews@[webview_id].socket_handle
                &&& final(self).webviews@ == old(self).webviews@.insert(
                    webview_id,
                    WebviewState {
                        socket_handle: None,
                        transport_ready: false,
                        ..old(self).webviews@[webview_id]
                    },
                )
            } else {
                r is None && final(self).webviews@ == old(self).webviews@
            },
    {
        let s = match self.webviews.get(&webview_id) {
            Some(s) => *s,
            None => return None,
        };
        self.put_webview(webview_id, WebviewState { socket_handle: None, transport_ready: false, ..s });
        s.socket_handle
    }

    /// Mark a webview's transport ready, if `handle` is still its socket.
    pub fn mark_webview_transport_ready(&mut self, webview_id: u32, handle: i32)
        requires
            old(self).wf(),
        ensures
            final(self).wf(),
            final(self).windows@ == old(self).windows@,
            final(self).wgpu_views@ == old(self).wgpu_views@,
            if old(self).webviews@.contains_key(webview_id)
                && old(self).webviews@[webview_id].socket_handle == Some(handle) {
                final(self).webviews@ == old(self).webviews@.insert(
                    webview_id,
                    WebviewState { transport_ready: true, ..old(self).webviews@[webview_id] },
                )
            } else {
                final(self).webviews@ == old(self).webviews@
            },
    {
        if let Some(s) = self.webviews.get(&webview_id) {
            let s = *s;
            if s.socket_handle == Some(handle) {
                self.put_webview(webview_id, WebviewState { transport_ready: true, ..s });
            }
        }
    }

    /// Ids of the webviews that belong to `window_id`, each once, in no
    /// particular order.
    pub fn webview_ids_for_window(&self, window_id: u32) -> (r: Vec<u32>)
        ensures
            r@.no_duplicates(),
            forall|id: u32|
                r@.contains(id) <==> (self.webviews@.contains_key(id)
                    && self.webviews@[id].window_id == window_id),
    {
        let mut out: Vec<u32> = Vec::new();
        for entry in it: self.webviews.iter()
            invariant
                it.seq().no_duplicates(),
                forall|i: int|
                    0 <= i < it.seq().len() ==> self.webviews@.contains_key(*(#[trigger] it.seq()[i]).0)
                        && self.webviews@[*it.seq()[i].0] == *it.seq()[i].1,
                forall|id: u32| #[trigger]
                    self.webviews@.contains_key(id) ==> it.seq().contains(
                        (&id, &self.webviews@[id]),
                    ),
                out@.no_duplicates(),
                forall|id: u32|
                    out@.contains(id) <==> exists|i: int|
                        0 <= i < it.index() && *(#[trigger] it.seq()[i]).0 == id && it.seq()[i].1.window_id
                            == window_id,
        {
            let (id, state) = entry;
            let ghost k = it.index();
            proof {
                assert(it.seq()[k] == entry);
                assert forall|j: int| 0 <= j < k implies *(#[trigger] it.seq()[j]).0 != *id by {
                    if *it.seq()[j].0 == *id {
                        assert(*it.seq()[j].1 == *state);
                        assert(it.seq()[j] == it.seq()[k]);
                    }
                }
            }
            let ghost old_out = out@;
            proof {
                assert(!old_out.contains(*id));
            }
            if state.window_id == window_id {
                out.push(*id);
            }
            proof {
                assert forall|x: u32|
                    out@.contains(x) <==> exists|i: int|
                        0 <= i < k + 1 && *(#[trigger] it.seq()[i]).0 == x && it.seq()[i].1.window_id
                            == window_id by {
                    if x == *id && state.window_id == window_id {
                        assert(*it.seq()[k].0 == x);
                        assert(out@[out@.len() - 1] == x);
                    }
                    if out@.contains(x) && x != *id {
                        assert(old_out.contains(x));
                    }
                    if exists|i: int|
                        0 <= i < k + 1 && *(#[trigger] it.seq()[i]).0 == x && it.seq()[i].1.window_id
                            == window_id {
                        let i = choose|i: int|
                            0 <= i < k + 1 && *(#[trigger] it.seq()[i]).0 == x && it.seq()[i].1.window_id
                                == window_id;
                        if i < k {
                            assert(old_out.contains(x));
                            let m = choose|m: int| 0 <= m < old_out.len() && old_out[m] == x;
                            assert(out@[m] == x);
                        }
                    }
                }
            }
        }
        out
    }

    /// Ids of the wgpu views that belong to `window_id`, each once, in no
    /// particular order.
    pub fn wgpu_view_ids_for_window(&self, window_id: u32) -> (r: Vec<u32>)
        ensures
            r@.no_duplicates(),
            forall|id: u32|
                r@.contains(id) <==> (self.wgpu_views@.contains_key(id)
                    && self.wgpu_views@[id].window_id == window_id),
    {
        let mut out: Vec<u32> = Vec::new();
        for entry in it: self.wgpu_views.iter()
            invariant
                it.seq().no_duplicates(),
                forall|i: int|
                    0 <= i < it.seq().len() ==> self.wgpu_views@.contains_key(*(#[trigger] it.seq()[i]).0)
                        && self.wgpu_views@[*it.seq()[i].0] == *it.seq()[i].1,
                forall|id: u32| #[trigger]
                    self.wgpu_views@.contains_key(id) ==> it.seq().contains(
                        (&id, &self.wgpu_views@[id]),
                    ),
                out@.no_duplicates(),
                forall|id: u32|
                    out@.contains(id) <==> exists|i: int|
                        0 <= i < it.index() && *(#[trigger] it.seq()[i]).0 == id && it.seq()[i].1.window_id
                            == window_id,
        {
            let (id, state) = entry;
            let ghost k = it.index();
            proof {
                assert(it.seq()[k] == entry);
                assert forall|j: int| 0 <= j < k implies *(#[trigger] it.seq()[j]).0 != *id by {
                    if *it.seq()[j].0 == *id {
                        assert(*it.seq()[j].1 == *state);
                        assert(it.seq()[j] == it.seq()[k]);
                    }
                }
            }
            let ghost old_out = out@;
            proof {
                assert(!old_out.contains(*id));
            }
            if state.window_id == window_id {
                out.push(*id);
            }
            proof {
                assert forall|x: u32|
                    out@.contains(x) <==> exists|i: int|
                        0 <= i < k + 1 && *(#[trigger] it.seq()[i]).0 == x && it.seq()[i].1.window_id
                            == window_id by {
                    if x == *id && state.window_id == window_id {
                        assert(*it.seq()[k].0 == x);
                        assert(out@[out@.len() - 1] == x);
                    }
                    if out@.contains(x) && x != *id {
                        assert(old_out.contains(x));
                    }
                    if exists|i: int|
                        0 <= i < k + 1 && *(#[trigger] it.seq()[i]).0 == x && it.seq()[i].1.window_id
                            == window_id {
                        let i = choose|i: int|
                            0 <= i < k + 1 && *(#[trigger] it.seq()[i]).0 == x && it.seq()[i].1.window_id
                                == window_id;
                        if i < k {
                            assert(old_out.contains(x));
                            let m = choose|m: int| 0 <= m < old_out.len() && old_out[m] == x;
                            assert(out@[m] == x);
                        }
                    }
                }
            }
        }
        out
    }

    // ---- wgpu views ----
    /// Reserve an id and store `state` under it.
    pub fn insert_wgpu_view_placeholder(&mut self, state: WgpuViewState) -> (r: Option<u32>)
        requires
            old(self).wf(),
        ensures
            final(self).wf(),
            final(self).windows@ == old(self).windows@,
            final(self).webviews@ == old(self).webviews@,
            match r {
                Some(id) => id != 0 && !old(self).wgpu_views@.contains_key(id)
                    && final(self).wgpu_views@ == old(self).wgpu_views@.insert(id, state),
                None => final(self).wgpu_views@ == old(self).wgpu_views@,
            },
            match r {
                Some(id) => first_free_from(old(self).next_wgpu_view_id, old(self).wgpu_views@, id)
                    && final(self).next_wgpu_view_id == next_id(id),
                None => final(self).next_wgpu_view_id == old(self).next_wgpu_view_id,
            },
            r is None <==> all_ids_used(old(self).wgpu_views@),
    {
        let id = allocate_id(&mut self.next_wgpu_view_id, &self.wgpu_views);
        match id {
            Some(id) => {
                self.wgpu_views.insert(id, state);
                Some(id)
            },
            None => None,
        }
    }

    pub fn set_wgpu_view_ptr(&mut self, wgpu_view_id: u32, ptr: usize) -> (r: bool)
        requires
            old(self).wf(),
        ensures
            final(self).wf(),
            final(self).windows@ == old(self).windows@,
            final(self).webviews@ == old(self).webviews@,
            r == old(self).wgpu_views@.contains_key(wgpu_view_id),
            r ==> final(self).wgpu_views@ == old(self).wgpu_views@.insert(
                wgpu_view_id,
                WgpuViewState { ptr, window_id: old(self).wgpu_views@[wgpu_view_id].window_id },
            ),
            !r ==> final(self).wgpu_views@ == old(self).wgpu_views@,
    {
        match self.wgpu_views.get(&wgpu_view_id) {
            Some(s) => {
                let updated = WgpuViewState { ptr, window_id: s.window_id };
                self.wgpu_views.insert(wgpu_view_id, updated);
                true
            },
            None => false,
        }
    }

    pub fn remove_wgpu_view(&mut self, wgpu_view_id: u32) -> (r: Option<WgpuViewState>)
        requires
            old(self).wf(),
        ensures
            final(self).wf(),
            final(self).windows@ == old(self).windows@,
            final(self).webviews@ == old(self).webviews@,
            final(self).wgpu_views@ == old(self).wgpu_views@.remove(wgpu_view_id),
            r == (if old(self).wgpu_views@.contains_key(wgpu_view_id) {
                Some(old(self).wgpu_views@[wgpu_view_id])
            } else {
                None
            }),
    {
        self.wgpu_views.remove(&wgpu_view_id)
    }

    /// The native handle of a wgpu view, or 0 when unknown.
    pub fn wgpu_view_ptr(&self, wgpu_view_id: u32) -> (r: usize)
        ensures
            r == (if self.wgpu_views@.contains_key(wgpu_view_id) {
                self.wgpu_views@[wgpu_view_id].ptr
            } else {
                0
            }),
    {
        match self.wgpu_views.get(&wgpu_view_id) {
            Some(s) => s.ptr,
            None => 0,
        }
    }

    // ---- default webview callbacks ----
    /// Remember each callback that is given; absent ones keep their value.
    pub fn remember_default_webview_callbacks(
        &mut self,
        navigation_callback: Option<N>,
        webview_event_handler: Option<E>,
        event_bridge_handler: Option<P>,
    )
        requires
            old(self).wf(),
        ensures
            final(self).wf(),
            final(self).windows@ == old(self).windows@,
            final(self).webviews@ == old(self).webviews@,
            final(self).wgpu_views@ == old(self).wgpu_views@,
            final(self).default_webview_callbacks.navigation_callback == (if navigation_callback is Some {
                navigation_callback
            } else {
                old(self).default_webview_callbacks.navigation_callback
            }),
            final(self).default_webview_callbacks.webview_event_handler == (if webview_event_handler is Some {
                webview_event_handler
            } else {
                old(self).default_webview_callbacks.webview_event_handler
            }),
            final(self).default_webview_callbacks.event_bridge_handler == (if event_bridge_handler is Some {
                event_bridge_handler
            } else {
                old(self).default_webview_callbacks.event_bridge_handler
            }),
    {
        if navigation_callback.is_some() {
            self.default_webview_callbacks.navigation_callback = navigation_callback;
        }
        if webview_event_handler.is_some() {
            self.default_webview_callbacks.webview_event_handler = webview_event_handler;
        }
        if event_bridge_handler.is_some() {
            self.default_webview_callbacks.event_bridge_handler = event_bridge_handler;
        }
    }

    pub fn default_webview_callbacks(&self) -> (r: DefaultWebviewCallbacks<N, E, P>)
        ensures
            r == self.default_webview_callbacks,
    {
        self.default_webview_callbacks
    }
}

} // verus!
