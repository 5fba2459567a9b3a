//! The webview-to-host message queue and its wakeup flag.
//!
//! Messages wait in a FIFO until the host drains them. A single wakeup byte
//! is written to the host's pipe when the queue goes from "nothing pending"
//! to "something pending"; the flag that records it is cleared when the
//! queue is fully drained, so at most one wakeup byte is ever outstanding.
use vstd::prelude::*;
use std::collections::VecDeque;
use crate::text::{chars_of, find_char};

verus! {

/// A message waiting for the host, with the webview it came from.
pub struct PendingHostMessage {
    pub webview_id: u32,
    pub message: String,
}

/// The wakeup pipe and whether a wakeup byte is outstanding.
pub struct WakeupState {
    pub initialized: bool,
    pub read_fd: i32,
    pub write_fd: i32,
    pub signaled: bool,
}

/// The queue together with its wakeup state.
pub struct HostQueue {
    pub queue: VecDeque<PendingHostMessage>,
    pub wakeup: WakeupState,
}

/// The queue's contents as (webview id, message) pairs, oldest first.
pub open spec fn queue_model(q: Seq<PendingHostMessage>) -> Seq<(u32, Seq<char>)> {
    Seq::new(q.len(), |i: int| (q[i].webview_id, q[i].message@))
}

/// What enqueueing did.
#[derive(Debug, Clone, Copy, PartialEq, Eq, Structural)]
pub enum EnqueueOutcome {
    /// The message held a NUL character and was dropped.
    Dropped,
    /// The message was queued; when `write_wakeup` holds no wakeup byte is
    /// outstanding and the host must be sent one: the pipe is created if
    /// there is none yet, the byte written, and [`wakeup_written`] called
    /// once it was sent.
    Queued { write_wakeup: bool },
}

/// The queue after enqueueing `message` from `webview_id`: unchanged when
/// the message holds a NUL character.
pub open spec fn enqueued(model: Seq<(u32, Seq<char>)>, webview_id: u32, message: Seq<char>) -> Seq<
    (u32, Seq<char>),
> {
    if message.contains('\0') {
        model
    } else {
        model.push((webview_id, message))
    }
}

/// What enqueueing `message` reports, given the wakeup state before.
pub open spec fn enqueue_outcome(wakeup: WakeupState, message: Seq<char>) -> EnqueueOutcome {
    if message.contains('\0') {
        EnqueueOutcome::Dropped
    } else {
        EnqueueOutcome::Queued { write_wakeup: !wakeup.signaled }
    }
}

impl HostQueue {
    pub open spec fn model(&self) -> Seq<(u32, Seq<char>)> {
        queue_model(self.queue@)
    }

    /// An empty queue with no pipe yet.
    pub fn new() -> (r: HostQueue)
        ensures
            r.model() == Seq::<(u32, Seq<char>)>::empty(),
            !r.wakeup.initialized,
            !r.wakeup.signaled,
            r.wakeup.read_fd == -1,
            r.wakeup.write_fd == -1,
    {
        let r = HostQueue {
            queue: VecDeque::new(),
            wakeup: WakeupState { initialized: false, read_fd: -1, write_fd: -1, signaled: false },
        };
        proof {
            assert(r.model() =~= Seq::<(u32, Seq<char>)>::empty());
        }
        r
    }
}

/// Record the wakeup pipe the host created. A pipe that is already in place
/// is kept.
pub fn install_wakeup_pipe(state: &mut WakeupState, read_fd: i32, write_fd: i32)
    ensures
        if old(state).initialized {
            *final(state) == *old(state)
        } else {
            final(state).initialized && final(state).read_fd == read_fd && final(state).write_fd
                == write_fd && !final(state).signaled
        },
{
    if state.initialized {
        return;
    }
    state.read_fd = read_fd;
    state.write_fd = write_fd;
    state.initialized = true;
    state.signaled = false;
}

/// The read end of the wakeup pipe, or `-1` when there is none.
pub fn wakeup_read_fd(state: &WakeupState) -> (r: i32)
    ensures
        r == (if state.initialized {
            state.read_fd
        } else {
            -1i32
        }),
{
    if !state.initialized {
        return -1;
    }
    state.read_fd
}

/// Queue a message from `webview_id`. A message that holds a NUL character
/// cannot be handed to the host as a C string and is dropped. A wakeup
/// byte is due when the pipe exists and none is outstanding.
pub fn enqueue(q: &mut HostQueue, webview_id: u32, message: &str) -> (r: EnqueueOutcome)
    ensures
        final(q).wakeup == old(q).wakeup,
        if message@.contains('\0') {
            r == EnqueueOutcome::Dropped && final(q).model() == old(q).model()
        } else {
            &&& r == EnqueueOutcome::Queued {
                write_wakeup: !old(q).wakeup.signaled,
            }
            &&& final(q).model() == old(q).model().push((webview_id, message@))
        },
        r == enqueue_outcome(old(q).wakeup, message@),
        final(q).model() == enqueued(old(q).model(), webview_id, message@),
{
    let v = chars_of(message);
    let nul = find_char(v.as_slice(), '\0', 0, v.len());
    proof {
        assert(v@.subrange(0, v@.len() as int) =~= v@);
        crate::text::lemma_find_char_from(v@, '\0', 0);
        if message@.contains('\0') {
            let i = choose|i: int| 0 <= i < message@.len() && message@[i] == '\0';
            lemma_find_none(v@, '\0', 0, i);
        }
    }
    if nul.is_some() {
        return EnqueueOutcome::Dropped;
    }
    let owned = String::from_str(message);
    q.queue.push_back(PendingHostMessage { webview_id, message: owned });
    proof {
        assert(q.model() =~= old(q).model().push((webview_id, message@)));
    }
    EnqueueOutcome::Queued { write_wakeup: !q.wakeup.signaled }
}

/// A search that finds nothing passes over every index.
proof fn lemma_find_none(s: Seq<char>, c: char, from: int, i: int)
    requires
        0 <= from <= i < s.len(),
        s[i] == c,
    ensures
        crate::text::find_char_from(s, c, from) is Some,
    decreases i - from,
{
    if s[from] != c {
        lemma_find_none(s, c, from + 1, i);
    }
}

/// The host wrote the wakeup byte: record that one is outstanding.
pub fn wakeup_written(state: &mut WakeupState)
    ensures
        final(state).signaled,
        final(state).initialized == old(state).initialized,
        final(state).read_fd == old(state).read_fd,
        final(state).write_fd == old(state).write_fd,
{
    state.signaled = true;
}

/// Take the oldest message. When this empties the queue the wakeup flag is
/// cleared, so the next message wakes the host again.
pub fn pop_next(q: &mut HostQueue) -> (r: Option<PendingHostMessage>)
    ensures
        match r {
            Some(m) => {
                &&& old(q).model().len() > 0
                &&& (m.webview_id, m.message@) == old(q).model()[0]
                &&& final(q).model() == old(q).model().drop_first()
                &&& final(q).wakeup.signaled == (old(q).wakeup.signaled && final(q).model().len() > 0)
            },
            None => old(q).model().len() == 0 && final(q).model() == old(q).model()
                && final(q).wakeup.signaled == old(q).wakeup.signaled,
        },
        final(q).wakeup.initialized == old(q).wakeup.initialized,
        final(q).wakeup.read_fd == old(q).wakeup.read_fd,
        final(q).wakeup.write_fd == old(q).wakeup.write_fd,
{
    let entry = q.queue.pop_front();
    match entry {
        Some(m) => {
            proof {
                assert(q.model() =~= old(q).model().drop_first());
            }
            if q.queue.len() == 0 {
                q.wakeup.signaled = false;
            }
            Some(m)
        },
        None => None,
    }
}

/// While a wakeup byte is outstanding, queueing a message never asks for
/// another one: at most one wakeup byte is ever pending.
pub proof fn lemma_one_wakeup_outstanding(wakeup: WakeupState, message: Seq<char>)
    requires
        wakeup.signaled,
    ensures
        enqueue_outcome(wakeup, message) != (EnqueueOutcome::Queued { write_wakeup: true }),
{
}

/// Queueing keeps the waiting messages, in order, and puts the new one
/// last (unless it holds a NUL character): messages leave in the order
/// they came.
pub proof fn lemma_queue_order(model: Seq<(u32, Seq<char>)>, webview_id: u32, message: Seq<char>)
    requires
        !message.contains('\0'),
    ensures
        enqueued(model, webview_id, message).len() == model.len() + 1,
        enqueued(model, webview_id, message).take(model.len() as int) == model,
        enqueued(model, webview_id, message).last() == (webview_id, message),
{
    assert(enqueued(model, webview_id, message).take(model.len() as int) =~= model);
}

} // verus!
