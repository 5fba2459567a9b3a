//! Finding the payload a self-extracting installer carries after its own
//! code: the metadata JSON follows the *second* metadata marker (the first
//! is the marker's copy among the program's constants) and ends where the
//! archive marker begins.
use vstd::prelude::*;
use vstd::utf8::encode_utf8;
use crate::frame::slice_range;

verus! {

/// Marks the start of the metadata JSON (ASCII; the payload holds its
/// bytes).
pub const METADATA_MARKER: &'static str = "ELECTROBUN_METADATA_V1";

/// Marks the start of the compressed archive (ASCII; the payload holds its
/// bytes).
pub const ARCHIVE_MARKER: &'static str = "ELECTROBUN_ARCHIVE_V1";

/// The bytes of the metadata marker.
pub open spec fn metadata_marker_bytes() -> Seq<u8> {
    encode_utf8(METADATA_MARKER@)
}

/// The bytes of the archive marker.
pub open spec fn archive_marker_bytes() -> Seq<u8> {
    encode_utf8(ARCHIVE_MARKER@)
}

/// `needle` occurs in `haystack` at `i`.
pub open spec fn occurs_at(haystack: Seq<u8>, needle: Seq<u8>, i: int) -> bool {
    0 <= i && i + needle.len() <= haystack.len() && haystack.subrange(i, i + needle.len()) == needle
}

/// The first occurrence of `needle` in `haystack` at or after `from`.
pub open spec fn find_from(haystack: Seq<u8>, needle: Seq<u8>, from: int) -> Option<int>
    decreases haystack.len() + 1 - from,
{
    if from < 0 || from + needle.len() > haystack.len() {
        None
    } else if occurs_at(haystack, needle, from) {
        Some(from)
    } else {
        find_from(haystack, needle, from + 1)
    }
}

/// `memchr`'s `memmem::find`: the index of the first occurrence of `needle`
/// in `haystack`.
#[verifier::external_body]
fn memmem_find(haystack: &[u8], needle: &[u8]) -> (r: Option<usize>)
    ensures
        match r {
            Some(i) => occurs_at(haystack@, needle@, i as int) && forall|j: int|
                0 <= j < i ==> !occurs_at(haystack@, needle@, j),
            None => forall|j: int| !occurs_at(haystack@, needle@, j),
        },
{
    memchr::memmem::find(haystack, needle)
}

/// An occurrence with none before it from `from` on is what `find_from`
/// finds.
proof fn lemma_find_from_first(h: Seq<u8>, n: Seq<u8>, from: int, i: int)
    requires
        0 <= from <= i,
        occurs_at(h, n, i),
        forall|j: int| from <= j < i ==> !occurs_at(h, n, j),
    ensures
        find_from(h, n, from) == Some(i),
    decreases i - from,
{
    if from < i {
        lemma_find_from_first(h, n, from + 1, i);
    }
}

/// With no occurrence from `from` on, `find_from` finds nothing.
proof fn lemma_find_from_none(h: Seq<u8>, n: Seq<u8>, from: int)
    requires
        forall|j: int| from <= j ==> !occurs_at(h, n, j),
    ensures
        find_from(h, n, from) is None,
    decreases h.len() + 1 - from,
{
    if !(from < 0 || from + n.len() > h.len()) {
        lemma_find_from_none(h, n, from + 1);
    }
}

/// The first occurrence of `needle` in `haystack` at or after `from`.
pub fn find_bytes_from(haystack: &[u8], needle: &[u8], from: usize) -> (r: Option<usize>)
    requires
        from <= haystack@.len(),
    ensures
        match r {
            Some(i) => find_from(haystack@, needle@, from as int) == Some(i as int),
            None => find_from(haystack@, needle@, from as int) is None,
        },
{
    let rest = slice_range(haystack, from, haystack.len());
    let found = memmem_find(rest, needle);
    proof {
        let h = haystack@;
        let n = needle@;
        assert forall|j: int| 0 <= j implies occurs_at(rest@, n, j) == occurs_at(h, n, j + from) by {
            if j + n.len() <= rest@.len() {
                assert(rest@.subrange(j, j + n.len()) =~= h.subrange(j + from, j + from + n.len()));
            }
        }
        match found {
            Some(i) => {
                assert(occurs_at(h, n, i + from));
                assert forall|j: int| from <= j < i + from implies !occurs_at(h, n, j) by {
                    assert(!occurs_at(rest@, n, j - from));
                }
                lemma_find_from_first(h, n, from as int, i + from);
            },
            None => {
                assert forall|j: int| from <= j implies !occurs_at(h, n, j) by {
                    assert(!occurs_at(rest@, n, j - from));
                }
                lemma_find_from_none(h, n, from as int);
            },
        }
    }
    match found {
        Some(i) => Some(from + i),
        None => None,
    }
}

/// Where the payload lies in `buf`: just after the second metadata marker
/// (counting occurrences that do not overlap) starts the metadata, and it
/// ends at the first archive marker after that.
pub open spec fn locate_payload_spec(buf: Seq<u8>, meta: Seq<u8>, archive: Seq<u8>) -> Option<(int, int)> {
    match find_from(buf, meta, 0) {
        None => None,
        Some(first) => match find_from(buf, meta, first + meta.len()) {
            None => None,
            Some(second) => {
                let metadata_start = second + meta.len();
                match find_from(buf, archive, metadata_start) {
                    None => None,
                    Some(archive_pos) => Some((metadata_start, archive_pos)),
                }
            },
        },
    }
}

/// Find `(metadata_start, archive_marker_pos)` in the installer's bytes, or
/// `None` when the payload markers are absent.
pub fn locate_payload(buf: &[u8]) -> (r: Option<(usize, usize)>)
    ensures
        match r {
            Some((m, a)) => locate_payload_spec(buf@, metadata_marker_bytes(), archive_marker_bytes()) == Some(
                (m as int, a as int),
            ),
            None => locate_payload_spec(buf@, metadata_marker_bytes(), archive_marker_bytes()) is None,
        },
{
    let meta = METADATA_MARKER.as_bytes();
    let archive = ARCHIVE_MARKER.as_bytes();
    let first = match find_bytes_from(buf, meta, 0) {
        Some(i) => i,
        None => return None,
    };
    let len = buf.len();
    assert(occurs_at(buf@, meta@, first as int)) by {
        lemma_find_from_occurs(buf@, meta@, 0);
    }
    let second = match find_bytes_from(buf, meta, first + meta.len()) {
        Some(i) => i,
        None => return None,
    };
    assert(occurs_at(buf@, meta@, second as int)) by {
        lemma_find_from_occurs(buf@, meta@, first + meta@.len());
    }
    let metadata_start = second + meta.len();
    let archive_pos = match find_bytes_from(buf, archive, metadata_start) {
        Some(i) => i,
        None => return None,
    };
    Some((metadata_start, archive_pos))
}

/// What `find_from` finds is an occurrence.
pub proof fn lemma_find_from_occurs(h: Seq<u8>, n: Seq<u8>, from: int)
    ensures
        find_from(h, n, from) matches Some(i) ==> occurs_at(h, n, i) && from <= i,
    decreases h.len() + 1 - from,
{
    if !(from < 0 || from + n.len() > h.len()) && !occurs_at(h, n, from) {
        lemma_find_from_occurs(h, n, from + 1);
    }
}

/// Nothing occurs between where a search starts and what it finds.
pub proof fn lemma_find_from_is_first(h: Seq<u8>, n: Seq<u8>, from: int)
    ensures
        find_from(h, n, from) matches Some(i) ==> forall|j: int| from <= j < i ==> !occurs_at(h, n, j),
    decreases h.len() + 1 - from,
{
    if !(from < 0 || from + n.len() > h.len()) && !occurs_at(h, n, from) {
        lemma_find_from_is_first(h, n, from + 1);
    }
}

/// Where the payload is, in terms of the marker occurrences: the metadata
/// starts right after the second occurrence of the metadata marker (the
/// first one, and no other before the second, lies earlier and does not
/// overlap it), and ends where the archive marker first occurs at or after
/// the metadata's start.
pub proof fn lemma_payload_location(buf: Seq<u8>, meta: Seq<u8>, archive: Seq<u8>)
    ensures
        locate_payload_spec(buf, meta, archive) matches Some((m, a)) ==> {
            let second = m - meta.len();
            &&& meta.len() <= m <= a
            &&& occurs_at(buf, meta, second)
            &&& occurs_at(buf, archive, a)
            &&& forall|j: int| m <= j < a ==> !occurs_at(buf, archive, j)
            &&& exists|first: int|
                {
                    &&& 0 <= first
                    &&& first + meta.len() <= second
                    &&& #[trigger] occurs_at(buf, meta, first)
                    &&& forall|j: int| 0 <= j < first ==> !occurs_at(buf, meta, j)
                    &&& forall|j: int| first + meta.len() <= j < second ==> !occurs_at(buf, meta, j)
                }
        },
{
    if let Some(first) = find_from(buf, meta, 0) {
        lemma_find_from_occurs(buf, meta, 0);
        lemma_find_from_is_first(buf, meta, 0);
        if let Some(second) = find_from(buf, meta, first + meta.len()) {
            lemma_find_from_occurs(buf, meta, first + meta.len());
            lemma_find_from_is_first(buf, meta, first + meta.len());
            let m = second + meta.len();
            lemma_find_from_occurs(buf, archive, m);
            lemma_find_from_is_first(buf, archive, m);
            assert(occurs_at(buf, meta, first));
        }
    }
}

/// The longest metadata blob an installer may carry.
pub const MAX_METADATA_LEN: usize = 4096;

/// What an installer's bytes carry after its code.
pub enum EmbeddedPayload {
    /// No payload markers: not a self-extracting installer.
    Absent,
    /// The metadata between the markers is longer than
    /// [`MAX_METADATA_LEN`].
    MetadataTooLarge,
    /// The metadata is `buf[metadata_start..metadata_end]`; the compressed
    /// archive starts at `archive_start`, just after the archive marker.
    Found { metadata_start: usize, metadata_end: usize, archive_start: usize },
}

/// Read the payload layout of an installer's bytes: the metadata span,
/// refused when too long, and where the archive begins.
pub fn embedded_payload(buf: &[u8]) -> (r: EmbeddedPayload)
    ensures
        match locate_payload_spec(buf@, metadata_marker_bytes(), archive_marker_bytes()) {
            None => r is Absent,
            Some((m, a)) => if a - m > MAX_METADATA_LEN {
                r is MetadataTooLarge
            } else {
                r matches EmbeddedPayload::Found { metadata_start, metadata_end, archive_start }
                    && metadata_start == m && metadata_end == a && archive_start == a
                    + archive_marker_bytes().len() && archive_start <= buf@.len()
            },
        },
{
    let (m, a) = match locate_payload(buf) {
        Some(p) => p,
        None => return EmbeddedPayload::Absent,
    };
    let archive = ARCHIVE_MARKER.as_bytes();
    let total = buf.len();
    proof {
        let meta = metadata_marker_bytes();
        let first = find_from(buf@, meta, 0)->0;
        let second = find_from(buf@, meta, first + meta.len())->0;
        assert(second + meta.len() == m);
        assert(find_from(buf@, archive_marker_bytes(), m as int) == Some(a as int));
        lemma_find_from_occurs(buf@, archive_marker_bytes(), m as int);
        assert(archive@ == archive_marker_bytes());
        assert(a + archive@.len() <= total);
    }
    if a - m > MAX_METADATA_LEN {
        return EmbeddedPayload::MetadataTooLarge;
    }
    EmbeddedPayload::Found { metadata_start: m, metadata_end: a, archive_start: a + archive.len() }
}

} // verus!
