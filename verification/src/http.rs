//! The HTTP upgrade request that opens a transport connection: locating the
//! end of the request head, reading a header value, and reading the webview
//! id from the request target.
use vstd::prelude::*;
use crate::text::{
    lemma_find_char_from, lemma_find_from_sub,
    chars_of, eq_ignore_ascii_case_range, eq_ignore_ascii_case_spec, eq_range, find_char,
    find_char_from, first_index_of, parse_unsigned, parse_unsigned_spec, trim_bounds, trim_spec,
    TrimSet,
};

verus! {

/// `s[i..i + 4]` is `"\r\n\r\n"`.
pub open spec fn double_crlf_at(s: Seq<u8>, i: int) -> bool {
    0 <= i && i + 4 <= s.len() && s[i] == 13 && s[i + 1] == 10 && s[i + 2] == 13 && s[i + 3]
        == 10
}

/// Index of the first `"\r\n\r\n"` in `buf` (the end of an HTTP request
/// head).
pub fn find_double_crlf(buf: &[u8]) -> (r: Option<usize>)
    ensures
        match r {
            Some(i) => double_crlf_at(buf@, i as int) && forall|j: int|
                0 <= j < i ==> !double_crlf_at(buf@, j),
            None => forall|j: int| !double_crlf_at(buf@, j),
        },
{
    if buf.len() < 4 {
        return None;
    }
    let mut i: usize = 0;
    while i <= buf.len() - 4
        invariant
            buf.len() >= 4,
            i + 3 <= buf.len(),
            forall|j: int| 0 <= j < i ==> !double_crlf_at(buf@, j),
        decreases buf.len() - i,
    {
        if buf[i] == 13 && buf[i + 1] == 10 && buf[i + 2] == 13 && buf[i + 3] == 10 {
            return Some(i);
        }
        i += 1;
    }
    None
}

/// `s[i..i + 2]` is `"\r\n"`.
pub open spec fn is_crlf_at(s: Seq<char>, i: int) -> bool {
    0 <= i && i + 1 < s.len() && s[i] == '\r' && s[i + 1] == '\n'
}

/// Least `i >= from` where `"\r\n"` starts.
pub open spec fn crlf_from(s: Seq<char>, from: int) -> Option<int>
    decreases s.len() - from,
{
    if from < 0 || from + 1 >= s.len() {
        None
    } else if is_crlf_at(s, from) {
        Some(from)
    } else {
        crlf_from(s, from + 1)
    }
}

pub proof fn lemma_crlf_from(s: Seq<char>, from: int)
    ensures
        crlf_from(s, from) matches Some(i) ==> from <= i && is_crlf_at(s, i),
    decreases s.len() - from,
{
    if !(from < 0 || from + 1 >= s.len()) && !is_crlf_at(s, from) {
        lemma_crlf_from(s, from + 1);
    }
}

/// End of the line that starts at `pos` (the next `"\r\n"`, or the end).
pub open spec fn line_end(s: Seq<char>, pos: int) -> int {
    match crlf_from(s, pos) {
        Some(i) => i,
        None => s.len() as int,
    }
}

/// Value of header `name` in the header lines starting at `pos`: lines are
/// read up to the first empty one; a line `key:value` whose key equals
/// `name` up to ASCII case gives `value` with spaces and tabs trimmed; lines
/// without `':'` are skipped.
pub open spec fn header_value_from(s: Seq<char>, name: Seq<char>, pos: int) -> Option<Seq<char>>
    decreases s.len() - pos,
{
    if pos < 0 || pos > s.len() {
        None
    } else {
        let end = line_end(s, pos);
        if end <= pos {
            None
        } else {
            let line = s.subrange(pos, end);
            let found = match first_index_of(line, ':') {
                Some(sep) => if eq_ignore_ascii_case_spec(line.take(sep), name) {
                    Some(trim_spec(line.skip(sep + 1), TrimSet::SpaceTab))
                } else {
                    None
                },
                None => None,
            };
            if found is Some {
                found
            } else {
                match crlf_from(s, pos) {
                    Some(i) => {
                        proof {
                            lemma_crlf_from(s, pos);
                        }
                        header_value_from(s, name, i + 2)
                    },
                    None => None,
                }
            }
        }
    }
}

/// Value of header `name` in a request head: the request line is skipped.
pub open spec fn request_header_value_spec(headers: Seq<char>, name: Seq<char>) -> Option<
    Seq<char>,
> {
    match crlf_from(headers, 0) {
        Some(i) => header_value_from(headers, name, i + 2),
        None => None,
    }
}

/// Index of the first `"\r\n"` at or after `from`.
pub fn find_crlf(v: &[char], from: usize) -> (r: Option<usize>)
    ensures
        match r {
            Some(i) => crlf_from(v@, from as int) == Some(i as int),
            None => crlf_from(v@, from as int) is None,
        },
{
    let mut i = from;
    while i < v.len() && i + 1 < v.len()
        invariant
            from <= i,
            crlf_from(v@, from as int) == crlf_from(v@, i as int),
        decreases v.len() - i,
    {
        if v[i] == '\r' && v[i + 1] == '\n' {
            return Some(i);
        }
        i += 1;
    }
    None
}

/// The value of header `header_name` (matched up to ASCII case) in the
/// request head `headers`, with spaces and tabs trimmed.
pub fn parse_request_header_value<'a>(headers: &'a str, header_name: &str) -> (r: Option<&'a str>)
    ensures
        match r {
            Some(v) => request_header_value_spec(headers@, header_name@) == Some(v@),
            None => request_header_value_spec(headers@, header_name@) is None,
        },
{
    let v = chars_of(headers);
    let name = chars_of(header_name);
    let first = match find_crlf(v.as_slice(), 0) {
        Some(i) => i,
        None => return None,
    };
    proof {
        lemma_crlf_from(v@, 0);
    }
    let mut pos = first + 2;
    while pos <= v.len()
        invariant
            v@ == headers@,
            name@ == header_name@,
            pos <= v.len() + 1,
            request_header_value_spec(headers@, header_name@) == header_value_from(
                v@,
                name@,
                pos as int,
            ),
        decreases v.len() + 1 - pos,
    {
        let next = find_crlf(v.as_slice(), pos);
        proof {
            lemma_crlf_from(v@, pos as int);
        }
        let end = match next {
            Some(i) => i,
            None => v.len(),
        };
        if end <= pos {
            return None;
        }
        let found = match find_char(v.as_slice(), ':', pos, end) {
            Some(sep) => {
                if eq_ignore_ascii_case_range(v.as_slice(), pos, sep, name.as_slice()) {
                    let (a, b) = trim_bounds(v.as_slice(), sep + 1, end, TrimSet::SpaceTab);
                    proof {
                        let line = v@.subrange(pos as int, end as int);
                        assert(line.take(sep - pos) =~= v@.subrange(pos as int, sep as int));
                        assert(line.skip(sep - pos + 1) =~= v@.subrange(sep + 1, end as int));
                    }
                    Some(headers.substring_char(a, b))
                } else {
                    proof {
                        let line = v@.subrange(pos as int, end as int);
                        assert(line.take(sep - pos) =~= v@.subrange(pos as int, sep as int));
                    }
                    None
                }
            },
            None => None,
        };
        if found.is_some() {
            return found;
        }
        match next {
            Some(i) => {
                pos = i + 2;
            },
            None => {
                return None;
            },
        }
    }
    None
}

/// The request target: the second space-separated field of the request
/// line.
pub open spec fn request_target_spec(headers: Seq<char>) -> Option<Seq<char>> {
    let line = headers.take(line_end(headers, 0));
    match first_index_of(line, ' ') {
        None => None,
        Some(i) => {
            let rest = line.skip(i + 1);
            let j = match first_index_of(rest, ' ') {
                Some(j) => j,
                None => rest.len() as int,
            };
            Some(rest.take(j))
        },
    }
}

/// The request target of a request head (`GET <target> HTTP/1.1`).
pub fn parse_request_target<'a>(headers: &'a str) -> (r: Option<&'a str>)
    ensures
        match r {
            Some(t) => request_target_spec(headers@) == Some(t@),
            None => request_target_spec(headers@) is None,
        },
{
    let v = chars_of(headers);
    let end = match find_crlf(v.as_slice(), 0) {
        Some(i) => i,
        None => v.len(),
    };
    proof {
        lemma_crlf_from(v@, 0);
        assert(v@.take(end as int) =~= v@.subrange(0, end as int));
    }
    let i = match find_char(v.as_slice(), ' ', 0, end) {
        Some(i) => i,
        None => return None,
    };
    let j = match find_char(v.as_slice(), ' ', i + 1, end) {
        Some(j) => j,
        None => end,
    };
    proof {
        let line = v@.take(end as int);
        assert(line.skip(i + 1) =~= v@.subrange(i + 1, end as int));
        assert(line.skip(i + 1).take(j - (i + 1)) =~= v@.subrange(i + 1, j as int));
    }
    Some(headers.substring_char(i + 1, j))
}

/// The `webviewId` value found in the `&`-separated query pairs starting at
/// `pos`: the first pair `webviewId=<v>` decides, by parsing `<v>` as a
/// `u32`; pairs without `'='` and other keys are skipped.
pub open spec fn webview_id_in_query(q: Seq<char>, pos: int) -> Option<nat>
    decreases q.len() - pos,
{
    if pos < 0 || pos > q.len() {
        None
    } else {
        let end = match find_char_from(q, '&', pos) {
            Some(a) => a,
            None => q.len() as int,
        };
        let pair = q.subrange(pos, end);
        let decided = match first_index_of(pair, '=') {
            Some(sep) => pair.take(sep) == "webviewId"@,
            None => false,
        };
        if decided {
            parse_unsigned_spec(pair.skip(first_index_of(pair, '=')->0 + 1), u32::MAX as nat)
        } else {
            match find_char_from(q, '&', pos) {
                Some(a) => {
                    proof {
                        lemma_find_char_from(q, '&', pos);
                    }
                    webview_id_in_query(q, a + 1)
                },
                None => None,
            }
        }
    }
}

/// The webview id carried by a `/socket?webviewId=<n>` request target.
pub open spec fn webview_id_from_target_spec(t: Seq<char>) -> Option<nat> {
    match first_index_of(t, '?') {
        None => None,
        Some(q) => if t.take(q) != "/socket"@ {
            None
        } else {
            webview_id_in_query(t.skip(q + 1), 0)
        },
    }
}

/// The webview id of a `/socket?webviewId=<n>` request target.
pub fn parse_webview_id_from_target(target: &str) -> (r: Option<u32>)
    ensures
        match r {
            Some(n) => webview_id_from_target_spec(target@) == Some(n as nat),
            None => webview_id_from_target_spec(target@) is None,
        },
{
    let v = chars_of(target);
    let q = match find_char(v.as_slice(), '?', 0, v.len()) {
        Some(q) => q,
        None => {
            proof {
                assert(v@.subrange(0, v@.len() as int) =~= v@);
            }
            return None;
        },
    };
    proof {
        assert(v@.subrange(0, v@.len() as int) =~= v@);
        assert(v@.take(q as int) =~= v@.subrange(0, q as int));
    }
    let socket = chars_of("/socket");
    if !eq_range(v.as_slice(), 0, q, socket.as_slice()) {
        return None;
    }
    let key = chars_of("webviewId");
    let ghost query = v@.skip(q + 1);
    let base = q + 1;
    let mut pos = base;
    while pos <= v.len()
        invariant
            v@ == target@,
            key@ == "webviewId"@,
            base == q + 1,
            q < v.len(),
            query == v@.skip(base as int),
            base <= pos <= v.len() + 1,
            webview_id_from_target_spec(target@) == webview_id_in_query(query, pos - base),
        decreases v.len() + 1 - pos,
    {
        let amp = find_char(v.as_slice(), '&', pos, v.len());
        let end = match amp {
            Some(a) => a,
            None => v.len(),
        };
        proof {
            lemma_find_from_sub(v@, '&', pos as int, pos as int);
            lemma_find_from_sub(v@, '&', base as int, pos as int);
            assert(v@.skip(base as int) =~= v@.subrange(base as int, v@.len() as int));
            lemma_find_char_from(v@, '&', pos as int);
        }
        let eq_at = find_char(v.as_slice(), '=', pos, end);
        proof {
            let pair = query.subrange(pos - base, end - base);
            assert(pair =~= v@.subrange(pos as int, end as int));
        }
        match eq_at {
            Some(sep) => {
                if eq_range(v.as_slice(), pos, sep, key.as_slice()) {
                    let parsed = parse_unsigned(v.as_slice(), sep + 1, end, 0xFFFF_FFFF);
                    proof {
                        let pair = v@.subrange(pos as int, end as int);
                        assert(pair.take(sep - pos) =~= v@.subrange(pos as int, sep as int));
                        assert(pair.skip(sep - pos + 1) =~= v@.subrange(sep + 1, end as int));
                    }
                    return match parsed {
                        Ok(n) => Some(n as u32),
                        Err(_) => None,
                    };
                }
                proof {
                    let pair = v@.subrange(pos as int, end as int);
                    assert(pair.take(sep - pos) =~= v@.subrange(pos as int, sep as int));
                }
            },
            None => {},
        }
        match amp {
            Some(a) => {
                pos = a + 1;
            },
            None => {
                return None;
            },
        }
    }
    None
}

} // verus!
