use std::collections::HashMap;

use electrobun::ffi_types::WebviewRendererKind;
use electrobun::lifecycle::{
    exit_on_last_window_closed, managed_quit_requested_handler, set_exit_on_last_window_closed,
    set_managed_quit_requested_handler, Lifecycle,
};
use electrobun::ops::{close_window, remove_wgpu_view, webview_remove};
use electrobun::registry::{allocate_id, Registries, WebviewState, WgpuViewState, WindowState};

type Regs = Registries<u8, u8, u8, u8>;

fn webview(window_id: u32, ptr: usize, socket: Option<i32>) -> WebviewState {
    WebviewState {
        ptr,
        window_id,
        host_webview_id: None,
        renderer: WebviewRendererKind::Native,
        secret_key: [0; 32],
        socket_handle: socket,
        transport_ready: false,
    }
}

#[test]
fn allocate_id_skips_used_and_zero_and_wraps() {
    let mut used: HashMap<u32, ()> = HashMap::new();
    let mut counter = 1u32;
    assert_eq!(allocate_id(&mut counter, &used), Some(1));
    assert_eq!(counter, 2);
    used.insert(2, ());
    used.insert(3, ());
    assert_eq!(allocate_id(&mut counter, &used), Some(4));
    assert_eq!(counter, 5);
    let mut top = u32::MAX;
    assert_eq!(allocate_id(&mut top, &used), Some(u32::MAX));
    assert_eq!(top, 1);
    let mut at_max = u32::MAX;
    used.insert(u32::MAX, ());
    assert_eq!(allocate_id(&mut at_max, &used), Some(1));
}

#[test]
fn allocate_id_moves_past_a_used_counter() {
    let mut used: HashMap<u32, ()> = HashMap::new();
    used.insert(5, ());
    let mut counter = 5u32;
    assert_eq!(allocate_id(&mut counter, &used), Some(6));
}

#[test]
fn window_lifecycle_in_registry() {
    let mut regs: Regs = Registries::new();
    let id = regs.insert_window_placeholder(WindowState { ptr: 0, transparent: true, handlers: 7 }).unwrap();
    assert_eq!(id, 1);
    assert_eq!(regs.window_ptr(id), 0);
    assert!(regs.set_window_ptr(id, 0xABC));
    assert_eq!(regs.window_ptr(id), 0xABC);
    assert!(!regs.set_window_ptr(99, 1));
    assert!(regs.has_open_windows());
    let removed = regs.remove_window(id).unwrap();
    assert_eq!(removed.handlers, 7);
    assert!(!regs.has_open_windows());
    // Ids keep counting after removal.
    let next = regs.insert_window_placeholder(WindowState { ptr: 0, transparent: false, handlers: 0 }).unwrap();
    assert_eq!(next, 2);
}

#[test]
fn sockets_attach_clear_and_take() {
    let mut regs: Regs = Registries::new();
    let id = regs.insert_webview_placeholder(webview(1, 5, None)).unwrap();
    assert_eq!(regs.attach_webview_socket(id, 10), Ok(None));
    regs.mark_webview_transport_ready(id, 10);
    assert!(regs.webview_transport_context(id).unwrap().transport_ready);
    // A new socket replaces the old one and clears the ready mark.
    assert_eq!(regs.attach_webview_socket(id, 11), Ok(Some(10)));
    assert!(!regs.webview_transport_context(id).unwrap().transport_ready);
    // Marking with a stale socket does nothing.
    regs.mark_webview_transport_ready(id, 10);
    assert!(!regs.webview_transport_context(id).unwrap().transport_ready);
    // Clearing a stale socket does nothing; the current one is cleared.
    regs.clear_webview_socket_if_current(id, 10);
    assert_eq!(regs.webview_transport_context(id).unwrap().socket_handle, Some(11));
    regs.clear_webview_socket_if_current(id, 11);
    assert_eq!(regs.webview_transport_context(id).unwrap().socket_handle, None);
    assert_eq!(regs.attach_webview_socket(id + 1, 3), Err(()));
    assert_eq!(regs.attach_webview_socket(id, 12), Ok(None));
    assert_eq!(regs.take_webview_socket(id), Some(12));
    assert_eq!(regs.take_webview_socket(id), None);
}

#[test]
fn ids_for_window_and_close_window() {
    let mut regs: Regs = Registries::new();
    let w1 = regs.insert_window_placeholder(WindowState { ptr: 100, transparent: false, handlers: 1 }).unwrap();
    let w2 = regs.insert_window_placeholder(WindowState { ptr: 200, transparent: false, handlers: 2 }).unwrap();
    let a = regs.insert_webview_placeholder(webview(w1, 11, Some(4))).unwrap();
    let b = regs.insert_webview_placeholder(webview(w2, 22, None)).unwrap();
    let c = regs.insert_webview_placeholder(webview(w1, 33, None)).unwrap();
    let g = regs.insert_wgpu_view_placeholder(WgpuViewState { ptr: 44, window_id: w1 }).unwrap();
    let mut ids = regs.webview_ids_for_window(w1);
    ids.sort();
    assert_eq!(ids, vec![a, c]);
    assert_eq!(regs.wgpu_view_ids_for_window(w1), vec![g]);

    let mut life: Lifecycle<u8> = Lifecycle::new();
    set_managed_quit_requested_handler(&mut life, Some(9));
    let closed = close_window(&mut regs, &life, w1);
    assert_eq!(closed.handlers, Some(1));
    let mut removed = closed.webviews.clone();
    removed.sort();
    assert_eq!(removed, vec![(a, 11, Some(4)), (c, 33, None)]);
    assert_eq!(closed.wgpu_views, vec![(g, 44)]);
    // Another window is still open: no quit.
    assert_eq!(closed.request_quit, None);
    assert!(regs.webview_state(b).is_some());
    assert!(regs.webview_state(a).is_none());

    let closed = close_window(&mut regs, &life, w2);
    assert_eq!(closed.request_quit, Some(9));
    set_exit_on_last_window_closed(&mut life, false);
    assert!(!exit_on_last_window_closed(&life));
    let closed = close_window(&mut regs, &life, w2);
    assert_eq!(closed.handlers, None);
    assert_eq!(closed.request_quit, None);
    assert_eq!(managed_quit_requested_handler(&life), Some(9));
}

#[test]
fn removal_gives_handles() {
    let mut regs: Regs = Registries::new();
    let a = regs.insert_webview_placeholder(webview(1, 11, Some(4))).unwrap();
    assert_eq!(webview_remove(&mut regs, a), (11, Some(4)));
    assert_eq!(webview_remove(&mut regs, a), (0, None));
    let g = regs.insert_wgpu_view_placeholder(WgpuViewState { ptr: 44, window_id: 1 }).unwrap();
    assert_eq!(remove_wgpu_view(&mut regs, g), 44);
    assert_eq!(remove_wgpu_view(&mut regs, g), 0);
}

#[test]
fn default_callbacks_keep_earlier_values() {
    let mut regs: Regs = Registries::new();
    regs.remember_default_webview_callbacks(Some(1), None, Some(3));
    regs.remember_default_webview_callbacks(None, Some(2), None);
    let cb = regs.default_webview_callbacks();
    assert_eq!(cb.navigation_callback, Some(1));
    assert_eq!(cb.webview_event_handler, Some(2));
    assert_eq!(cb.event_bridge_handler, Some(3));
}
