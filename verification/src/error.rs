//! The last-error slot the host reads after a failing call.
use vstd::prelude::*;
use crate::text::{chars_of, find_char, find_char_from, lemma_find_char_from, string_from_chars};

verus! {

/// The pending error message, if any.
pub struct LastError {
    pub message: Option<String>,
}

/// A message as stored: cut at its first NUL character (a C string ends
/// there).
pub open spec fn stored_message(s: Seq<char>) -> Seq<char> {
    match find_char_from(s, '\0', 0) {
        Some(i) => s.take(i),
        None => s,
    }
}

impl LastError {
    /// No pending error.
    pub fn new() -> (r: LastError)
        ensures
            r.message is None,
    {
        LastError { message: None }
    }
}

/// Clear the pending error.
pub fn clear_last_error(slot: &mut LastError)
    ensures
        final(slot).message is None,
{
    slot.message = None;
}

/// Record `message` as the pending error, cut at its first NUL.
pub fn set_last_error(slot: &mut LastError, message: &str)
    ensures
        final(slot).message is Some,
        final(slot).message->0@ == stored_message(message@),
{
    let v = chars_of(message);
    let end = match find_char(v.as_slice(), '\0', 0, v.len()) {
        Some(i) => i,
        None => v.len(),
    };
    proof {
        assert(v@.subrange(0, v@.len() as int) =~= v@);
        lemma_find_char_from(v@, '\0', 0);
        assert(v@.subrange(0, end as int) =~= stored_message(message@));
    }
    slot.message = Some(string_from_chars(v.as_slice(), 0, end));
}

/// The pending error, or the empty string when there is none.
pub fn last_error_text(slot: &LastError) -> (r: String)
    ensures
        r@ == match slot.message {
            Some(m) => m@,
            None => Seq::<char>::empty(),
        },
{
    match &slot.message {
        Some(m) => String::from_str(m.as_str()),
        None => String::new(),
    }
}

/// A message without a NUL character is read back exactly as it was
/// recorded.
pub proof fn lemma_stored_message_plain(message: Seq<char>)
    requires
        !message.contains('\0'),
    ensures
        stored_message(message) == message,
{
    lemma_find_char_from(message, '\0', 0);
}

} // verus!
