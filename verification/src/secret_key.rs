//! The per-webview AES key as it crosses the host boundary: a
//! comma-separated list of decimal bytes.
use vstd::prelude::*;
use crate::text::{
    chars_of, concat, dec_digits, find_char, find_char_from, first_index_of, int_error_kind_spec,
    lemma_find_from_sub, parse_unsigned, parse_unsigned_spec, push_decimal, string_from_chars,
    trim_bounds, trim_spec, IntErrorKind, TrimSet,
};

verus! {

/// AES-256-GCM key length.
pub const SECRET_KEY_LEN: usize = 32;

/// A webview's transport key.
pub type WebviewSecretKey = [u8; SECRET_KEY_LEN];

/// Why a secret key string was refused.
#[derive(Debug, Clone, Copy, PartialEq, Eq, Structural)]
pub enum SecretKeyError {
    /// The list did not hold exactly [`SECRET_KEY_LEN`] bytes.
    WrongLength,
    /// A list element is not a decimal byte.
    InvalidByte(IntErrorKind),
}

/// What reading the key list from the element starting at `pos` gives, with
/// `acc` the bytes read so far: elements are separated by `','` and trimmed;
/// empty elements are skipped; every other element must be a decimal byte;
/// a byte beyond the key length, or a final count other than the key
/// length, is refused.
pub open spec fn key_scan(t: Seq<char>, pos: int, acc: Seq<u8>) -> Result<Seq<u8>, SecretKeyError>
    decreases t.len() - pos,
{
    if pos < 0 || pos > t.len() {
        Err(SecretKeyError::WrongLength)
    } else {
        let comma = find_char_from(t, ',', pos);
        let end = match comma {
            Some(c) => c,
            None => t.len() as int,
        };
        let part = trim_spec(t.subrange(pos, end), TrimSet::SpaceTabCrLf);
        let step: Result<Seq<u8>, SecretKeyError> = if part.len() == 0 {
            Ok(acc)
        } else if acc.len() >= SECRET_KEY_LEN {
            Err(SecretKeyError::WrongLength)
        } else {
            match parse_unsigned_spec(part, 255) {
                Some(b) => Ok(acc.push(b as u8)),
                None => Err(SecretKeyError::InvalidByte(int_error_kind_spec(part, 255))),
            }
        };
        match step {
            Err(e) => Err(e),
            Ok(acc2) => match comma {
                Some(c) => {
                    proof {
                        crate::text::lemma_find_char_from(t, ',', pos);
                    }
                    key_scan(t, c + 1, acc2)
                },
                None => if acc2.len() != SECRET_KEY_LEN {
                    Err(SecretKeyError::WrongLength)
                } else {
                    Ok(acc2)
                },
            },
        }
    }
}

/// The key a secret-key string denotes: the whole string is trimmed, then
/// read element by element.
pub open spec fn secret_key_spec(s: Seq<char>) -> Result<Seq<u8>, SecretKeyError> {
    key_scan(trim_spec(s, TrimSet::SpaceTabCrLf), 0, Seq::empty())
}

/// Parse a comma-separated list of decimal bytes into a key. Whitespace
/// around the list and around each element is ignored, and empty elements
/// are skipped.
pub fn parse_webview_secret_key(secret_key: &str) -> (r: Result<WebviewSecretKey, SecretKeyError>)
    ensures
        match r {
            Ok(k) => secret_key_spec(secret_key@) == Ok::<Seq<u8>, SecretKeyError>(k@),
            Err(e) => secret_key_spec(secret_key@) == Err::<Seq<u8>, SecretKeyError>(e),
        },
{
    let v = chars_of(secret_key);
    let (ta, tb) = trim_bounds(v.as_slice(), 0, v.len(), TrimSet::SpaceTabCrLf);
    proof {
        assert(v@.subrange(0, v@.len() as int) =~= v@);
    }
    let ghost t = v@.subrange(ta as int, tb as int);
    let mut parsed: [u8; SECRET_KEY_LEN] = [0u8; SECRET_KEY_LEN];
    let mut index: usize = 0;
    let mut pos = ta;
    proof {
        assert(parsed@.take(0) =~= Seq::<u8>::empty());
    }
    loop
        invariant
            ta <= pos <= tb <= v.len(),
            t == v@.subrange(ta as int, tb as int),
            v@ == secret_key@,
            secret_key_spec(secret_key@) == key_scan(t, 0, Seq::empty()),
            index <= SECRET_KEY_LEN,
            parsed@.len() == SECRET_KEY_LEN,
            key_scan(t, 0, Seq::empty()) == key_scan(t, pos - ta, parsed@.take(index as int)),
        decreases tb - pos,
    {
        let comma = find_char(v.as_slice(), ',', pos, tb);
        proof {
            lemma_find_from_sub(t, ',', pos - ta, pos - ta);
            assert(t.subrange(pos - ta, t.len() as int) =~= v@.subrange(pos as int, tb as int));
        }
        let end = match comma {
            Some(c) => c,
            None => tb,
        };
        proof {
            assert(t.subrange(pos - ta, end - ta) =~= v@.subrange(pos as int, end as int));
        }
        let (a, b) = trim_bounds(v.as_slice(), pos, end, TrimSet::SpaceTabCrLf);
        if a < b {
            if index >= SECRET_KEY_LEN {
                return Err(SecretKeyError::WrongLength);
            }
            match parse_unsigned(v.as_slice(), a, b, 255) {
                Ok(byte) => {
                    proof {
                        assert(parsed@.take(index as int).push(byte as u8) =~= parsed@.update(
                            index as int,
                            byte as u8,
                        ).take(index + 1));
                    }
                    parsed[index] = byte as u8;
                    index += 1;
                },
                Err(kind) => {
                    return Err(SecretKeyError::InvalidByte(kind));
                },
            }
        }
        match comma {
            Some(c) => {
                pos = c + 1;
            },
            None => {
                if index != SECRET_KEY_LEN {
                    return Err(SecretKeyError::WrongLength);
                }
                proof {
                    assert(parsed@.take(index as int) =~= parsed@);
                }
                return Ok(parsed);
            },
        }
    }
}

/// The comma-separated decimal rendering of `bytes` (what joining each
/// byte's `to_string()` with `","` gives).
pub open spec fn key_csv(bytes: Seq<u8>) -> Seq<char>
    decreases bytes.len(),
{
    if bytes.len() == 0 {
        Seq::empty()
    } else if bytes.len() == 1 {
        dec_digits(bytes[0] as nat)
    } else {
        dec_digits(bytes[0] as nat) + seq![','] + key_csv(bytes.drop_first())
    }
}

proof fn lemma_key_csv_push(s: Seq<u8>, b: u8)
    requires
        s.len() > 0,
    ensures
        key_csv(s.push(b)) == key_csv(s) + seq![','] + dec_digits(b as nat),
    decreases s.len(),
{
    let sb = s.push(b);
    assert(sb[0] == s[0]);
    if s.len() == 1 {
        assert(sb.drop_first() =~= seq![b]);
        assert(key_csv(seq![b]) == dec_digits(b as nat));
        assert(key_csv(s) == dec_digits(s[0] as nat));
    } else {
        lemma_key_csv_push(s.drop_first(), b);
        assert(sb.drop_first() =~= s.drop_first().push(b));
        assert(key_csv(sb) == dec_digits(s[0] as nat) + seq![','] + key_csv(sb.drop_first()));
        assert(key_csv(s) == dec_digits(s[0] as nat) + seq![','] + key_csv(s.drop_first()));
        assert(key_csv(sb) =~= key_csv(s) + seq![','] + dec_digits(b as nat));
    }
}

/// The key as a comma-separated list of decimal bytes, the form
/// [`parse_webview_secret_key`] reads.
pub fn format_secret_key_csv(key: &[u8]) -> (s: String)
    ensures
        s@ == key_csv(key@),
{
    let mut out: Vec<char> = Vec::new();
    let mut i: usize = 0;
    while i < key.len()
        invariant
            i <= key.len(),
            out@ == key_csv(key@.take(i as int)),
        decreases key.len() - i,
    {
        if i > 0 {
            out.push(',');
        }
        push_decimal(&mut out, key[i] as u64);
        proof {
            if i > 0 {
                lemma_key_csv_push(key@.take(i as int), key[i as int]);
            } else {
                assert(key@.take(1) =~= seq![key[0]]);
            }
            assert(key@.take(i + 1) =~= key@.take(i as int).push(key[i as int]));
        }
        i += 1;
    }
    proof {
        assert(key@.take(key.len() as int) =~= key@);
    }
    string_from_chars(out.as_slice(), 0, out.len())
}

proof fn lemma_find_past(t: Seq<char>, c: char, p: int, q: int)
    requires
        0 <= p <= q <= t.len(),
        forall|i: int| p <= i < q ==> t[i] != c,
    ensures
        find_char_from(t, c, p) == find_char_from(t, c, q),
    decreases q - p,
{
    if p < q {
        lemma_find_past(t, c, p + 1, q);
    }
}

proof fn lemma_trim_digits(s: Seq<char>)
    requires
        s.len() > 0,
        crate::text::all_digits(s),
    ensures
        trim_spec(s, TrimSet::SpaceTabCrLf) == s,
{
    assert(crate::text::lead(s, TrimSet::SpaceTabCrLf) == 0);
    assert(s.skip(0) =~= s);
    assert(crate::text::trail(s, TrimSet::SpaceTabCrLf) == 0);
    assert(s.take(s.len() as int) =~= s);
}

proof fn lemma_key_csv_shape(k: Seq<u8>)
    requires
        k.len() > 0,
    ensures
        key_csv(k).len() > 0,
        crate::text::is_digit(key_csv(k)[0]),
        crate::text::is_digit(key_csv(k).last()),
    decreases k.len(),
{
    crate::text::lemma_dec_digits_facts(k[0] as nat);
    if k.len() > 1 {
        lemma_key_csv_shape(k.drop_first());
    }
}

proof fn lemma_scan_csv(t: Seq<char>, p: int, acc: Seq<u8>, k: Seq<u8>)
    requires
        k.len() >= 1,
        acc.len() + k.len() == SECRET_KEY_LEN,
        0 <= p <= t.len(),
        t.subrange(p, t.len() as int) == key_csv(k),
    ensures
        key_scan(t, p, acc) == Ok::<Seq<u8>, SecretKeyError>(acc + k),
    decreases k.len(),
{
    let d = dec_digits(k[0] as nat);
    crate::text::lemma_dec_digits_facts(k[0] as nat);
    let n = d.len() as int;
    let tail = t.subrange(p, t.len() as int);
    if k.len() == 1 {
        assert(key_csv(k) == d);
    } else {
        assert(key_csv(k) == d + seq![','] + key_csv(k.drop_first()));
    }
    assert(tail.len() >= n);
    assert(t.subrange(p, p + n) =~= d) by {
        assert forall|i: int| 0 <= i < n implies t.subrange(p, p + n)[i] == d[i] by {
            assert(tail[i] == key_csv(k)[i]);
            assert(t.subrange(p, p + n)[i] == tail[i]);
        }
    }
    assert forall|i: int| p <= i < p + n implies t[i] != ',' by {
        assert(t.subrange(p, p + n)[i - p] == t[i]);
        assert(crate::text::is_digit(d[i - p]));
    }
    lemma_find_past(t, ',', p, p + n);
    crate::text::lemma_decimal_roundtrip(k[0] as nat, 255);
    lemma_trim_digits(d);
    if k.len() == 1 {
        assert(p + n == t.len());
        assert(find_char_from(t, ',', p + n) is None);
        assert(acc.push(k[0]) =~= acc + k);
    } else {
        let rest = k.drop_first();
        assert(t[p + n] == ',') by {
            assert(tail[n] == key_csv(k)[n]);
            assert(tail[n] == t[p + n]);
            assert((d + seq![',']).len() == n + 1);
            assert(key_csv(k)[n] == (d + seq![',']+ key_csv(rest))[n]);
        }
        assert(find_char_from(t, ',', p + n) == Some(p + n));
        assert(t.subrange(p + n + 1, t.len() as int) =~= key_csv(rest)) by {
            assert forall|i: int| 0 <= i < key_csv(rest).len() implies t.subrange(
                p + n + 1,
                t.len() as int,
            )[i] == key_csv(rest)[i] by {
                assert(tail[n + 1 + i] == key_csv(k)[n + 1 + i]);
                assert(tail[n + 1 + i] == t[p + n + 1 + i]);
                assert(key_csv(k)[n + 1 + i] == (d + seq![','] + key_csv(rest))[n + 1 + i]);
            }
        }
        lemma_scan_csv(t, p + n + 1, acc.push(k[0]), rest);
        assert(acc.push(k[0]) + rest =~= acc + k);
    }
}

/// Key roundtrip: the comma-separated rendering of a key parses back to the
/// same key.
pub proof fn lemma_secret_key_roundtrip(key: Seq<u8>)
    requires
        key.len() == SECRET_KEY_LEN,
    ensures
        secret_key_spec(key_csv(key)) == Ok::<Seq<u8>, SecretKeyError>(key),
{
    let t = key_csv(key);
    lemma_key_csv_shape(key);
    assert(crate::text::lead(t, TrimSet::SpaceTabCrLf) == 0);
    assert(t.skip(0) =~= t);
    assert(crate::text::trail(t, TrimSet::SpaceTabCrLf) == 0);
    assert(t.take(t.len() as int) =~= t);
    assert(t.subrange(0, t.len() as int) =~= t);
    lemma_scan_csv(t, 0, Seq::empty(), key);
    assert(Seq::<u8>::empty() + key =~= key);
}

impl SecretKeyError {
    /// The error text recorded for the host.
    pub fn message(&self) -> (s: String)
        ensures
            s@ == secret_key_error_message(*self),
    {
        match self {
            SecretKeyError::WrongLength => String::from_str(
                "Webview secret key must contain exactly 32 bytes",
            ),
            SecretKeyError::InvalidByte(kind) => {
                let head = String::from_str("Failed to parse webview secret key byte: ");
                match kind {
                    IntErrorKind::Empty => concat(head, "cannot parse integer from empty string"),
                    IntErrorKind::InvalidDigit => concat(head, "invalid digit found in string"),
                    IntErrorKind::PosOverflow => concat(
                        head,
                        "number too large to fit in target type",
                    ),
                }
            },
        }
    }
}

/// The error text for each refusal (the second part is what std's
/// `ParseIntError` displays).
pub open spec fn secret_key_error_message(e: SecretKeyError) -> Seq<char> {
    match e {
        SecretKeyError::WrongLength => "Webview secret key must contain exactly 32 bytes"@,
        SecretKeyError::InvalidByte(kind) => "Failed to parse webview secret key byte: "@ + match kind {
            IntErrorKind::Empty => "cannot parse integer from empty string"@,
            IntErrorKind::InvalidDigit => "invalid digit found in string"@,
            IntErrorKind::PosOverflow => "number too large to fit in target type"@,
        },
    }
}

} // verus!
