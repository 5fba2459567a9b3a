//! App-lifecycle state: whether closing the last window asks the app to
//! quit, and the quit-requested handler the host registered.
use vstd::prelude::*;

verus! {

/// The lifecycle flags, generic over the host's handler type.
pub struct Lifecycle<Q> {
    pub exit_on_last_window_closed: bool,
    pub quit_requested_handler: Option<Q>,
}

impl<Q> Lifecycle<Q> {
    /// Quitting on last-window-close is on; no handler.
    pub fn new() -> (r: Lifecycle<Q>)
        ensures
            r.exit_on_last_window_closed,
            r.quit_requested_handler is None,
    {
        Lifecycle { exit_on_last_window_closed: true, quit_requested_handler: None }
    }
}

/// Turn quitting on last-window-close on or off.
pub fn set_exit_on_last_window_closed<Q>(state: &mut Lifecycle<Q>, enabled: bool)
    ensures
        final(state).exit_on_last_window_closed == enabled,
        final(state).quit_requested_handler == old(state).quit_requested_handler,
{
    state.exit_on_last_window_closed = enabled;
}

/// Whether closing the last window asks the app to quit.
pub fn exit_on_last_window_closed<Q>(state: &Lifecycle<Q>) -> (r: bool)
    ensures
        r == state.exit_on_last_window_closed,
{
    state.exit_on_last_window_closed
}

/// Replace the quit-requested handler (`None` removes it).
pub fn set_managed_quit_requested_handler<Q>(state: &mut Lifecycle<Q>, handler: Option<Q>)
    ensures
        final(state).quit_requested_handler == handler,
        final(state).exit_on_last_window_closed == old(state).exit_on_last_window_closed,
{
    state.quit_requested_handler = handler;
}

/// The handler to call when a quit is requested, if one is set.
pub fn managed_quit_requested_handler<Q: Copy>(state: &Lifecycle<Q>) -> (r: Option<Q>)
    ensures
        r == state.quit_requested_handler,
{
    state.quit_requested_handler
}

} // verus!
