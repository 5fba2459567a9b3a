//! Paths as text, joined the way `PathBuf::push` joins a relative part:
//! a separator is added unless the base is empty or already ends with one,
//! and a part that starts with a separator replaces the base.
use vstd::prelude::*;
use crate::text::{chars_of, concat, push_char};

verus! {

/// `c` separates path components (`'/'`, or the platform's separator).
pub open spec fn is_sep(c: char, sep: char) -> bool {
    c == '/' || c == sep
}

/// `base` joined with `part` using separator `sep`.
pub open spec fn path_join(base: Seq<char>, part: Seq<char>, sep: char) -> Seq<char> {
    if part.len() > 0 && is_sep(part[0], sep) {
        part
    } else if base.len() == 0 || is_sep(base.last(), sep) {
        base + part
    } else {
        base.push(sep) + part
    }
}

/// Join `part` onto `base` with separator `sep`.
pub fn join_path(base: &str, part: &str, sep: char) -> (r: String)
    ensures
        r@ == path_join(base@, part@, sep),
{
    let p = chars_of(part);
    if p.len() > 0 && (p[0] == '/' || p[0] == sep) {
        return String::from_str(part);
    }
    let b = chars_of(base);
    if b.len() == 0 || b[b.len() - 1] == '/' || b[b.len() - 1] == sep {
        return concat(String::from_str(base), part);
    }
    let mut s = String::from_str(base);
    push_char(&mut s, sep);
    concat(s, part)
}

} // verus!
