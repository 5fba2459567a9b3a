//! Standard base64 (RFC 4648 alphabet, `=` padding), as the transport
//! carries binary fields inside JSON text. The coding itself is the
//! `base64` crate's standard engine.
use vstd::prelude::*;
use base64::Engine;

verus! {

/// The alphabet character for a sextet value.
pub open spec fn b64_char(v: u8) -> char {
    if v < 26 {
        ((65 + v) as u32) as char
    } else if v < 52 {
        ((97 + v - 26) as u32) as char
    } else if v < 62 {
        ((48 + v - 52) as u32) as char
    } else if v == 62 {
        '+'
    } else {
        '/'
    }
}

/// The four characters for one group of up to three bytes.
pub open spec fn b64_group(d: Seq<u8>) -> Seq<char> {
    if d.len() == 1 {
        seq![b64_char(d[0] >> 2u8), b64_char((d[0] & 3u8) << 4u8), '=', '=']
    } else if d.len() == 2 {
        seq![
            b64_char(d[0] >> 2u8),
            b64_char(((d[0] & 3u8) << 4u8) | (d[1] >> 4u8)),
            b64_char((d[1] & 15u8) << 2u8),
            '=',
        ]
    } else {
        seq![
            b64_char(d[0] >> 2u8),
            b64_char(((d[0] & 3u8) << 4u8) | (d[1] >> 4u8)),
            b64_char(((d[1] & 15u8) << 2u8) | (d[2] >> 6u8)),
            b64_char(d[2] & 63u8),
        ]
    }
}

/// Standard base64 with padding: each group of three bytes becomes four
/// alphabet characters; a final group of one or two bytes is padded with
/// `=` to four characters.
pub open spec fn b64_encode_spec(d: Seq<u8>) -> Seq<char>
    decreases d.len(),
{
    if d.len() == 0 {
        Seq::empty()
    } else if d.len() <= 3 {
        b64_group(d)
    } else {
        b64_group(d.take(3)) + b64_encode_spec(d.skip(3))
    }
}

/// The bytes whose encoding is `s`, if there are any.
pub open spec fn b64_decode_spec(s: Seq<char>) -> Option<Seq<u8>> {
    if exists|d: Seq<u8>| b64_encode_spec(d) == s {
        Some(choose|d: Seq<u8>| b64_encode_spec(d) == s)
    } else {
        None
    }
}

/// Standard-alphabet base64 of `data`, padded (the `base64` crate's
/// `STANDARD.encode`).
#[verifier::external_body]
pub(crate) fn base64_encode(data: &[u8]) -> (s: String)
    ensures
        s@ == b64_encode_spec(data@),
{
    base64::engine::general_purpose::STANDARD.encode(data)
}

/// Decode standard padded base64 (the `base64` crate's `STANDARD.decode`).
/// That engine requires canonical padding and no trailing bits, so it
/// accepts exactly the encodings of byte strings.
#[verifier::external_body]
pub(crate) fn base64_decode(text: &str) -> (r: Option<Vec<u8>>)
    ensures
        match r {
            Some(d) => b64_encode_spec(d@) == text@,
            None => forall|d: Seq<u8>| b64_encode_spec(d) != text@,
        },
{
    base64::engine::general_purpose::STANDARD.decode(text).ok()
}

/// Decode standard padded base64, stated over [`b64_decode_spec`].
pub fn decode_base64(text: &str) -> (r: Option<Vec<u8>>)
    ensures
        match r {
            Some(d) => b64_decode_spec(text@) == Some(d@),
            None => b64_decode_spec(text@) is None,
        },
{
    let r = base64_decode(text);
    proof {
        if r is Some {
            lemma_b64_roundtrip(r->0@);
        }
    }
    r
}

proof fn lemma_b64_char(v: u8, w: u8)
    requires
        v < 64,
        w < 64,
    ensures
        b64_char(v) != '=',
        b64_char(v) == b64_char(w) ==> v == w,
{
}

proof fn lemma_group_bytes(a0: u8, a1: u8, a2: u8, b0: u8, b1: u8, b2: u8)
    ensures
        a0 >> 2u8 < 64,
        (a0 & 3u8) << 4u8 < 64,
        ((a0 & 3u8) << 4u8) | (a1 >> 4u8) < 64,
        (a1 & 15u8) << 2u8 < 64,
        ((a1 & 15u8) << 2u8) | (a2 >> 6u8) < 64,
        a2 & 63u8 < 64,
        (a0 >> 2u8 == b0 >> 2u8 && (a0 & 3u8) << 4u8 == (b0 & 3u8) << 4u8) ==> a0 == b0,
        (a0 >> 2u8 == b0 >> 2u8 && ((a0 & 3u8) << 4u8) | (a1 >> 4u8) == ((b0 & 3u8) << 4u8) | (b1
            >> 4u8) && (a1 & 15u8) << 2u8 == (b1 & 15u8) << 2u8) ==> a0 == b0 && a1 == b1,
        (a0 >> 2u8 == b0 >> 2u8 && ((a0 & 3u8) << 4u8) | (a1 >> 4u8) == ((b0 & 3u8) << 4u8) | (b1
            >> 4u8) && ((a1 & 15u8) << 2u8) | (a2 >> 6u8) == ((b1 & 15u8) << 2u8) | (b2 >> 6u8) && a2
            & 63u8 == b2 & 63u8) ==> a0 == b0 && a1 == b1 && a2 == b2,
{
    assert(a0 >> 2u8 < 64) by (bit_vector);
    assert((a0 & 3u8) << 4u8 < 64) by (bit_vector);
    assert(((a0 & 3u8) << 4u8) | (a1 >> 4u8) < 64) by (bit_vector);
    assert((a1 & 15u8) << 2u8 < 64) by (bit_vector);
    assert(((a1 & 15u8) << 2u8) | (a2 >> 6u8) < 64) by (bit_vector);
    assert(a2 & 63u8 < 64) by (bit_vector);
    assert((a0 >> 2u8 == b0 >> 2u8 && (a0 & 3u8) << 4u8 == (b0 & 3u8) << 4u8) ==> a0 == b0)
        by (bit_vector);
    assert((a0 >> 2u8 == b0 >> 2u8 && ((a0 & 3u8) << 4u8) | (a1 >> 4u8) == ((b0 & 3u8) << 4u8) | (
    b1 >> 4u8) && (a1 & 15u8) << 2u8 == (b1 & 15u8) << 2u8) ==> a0 == b0 && a1 == b1)
        by (bit_vector);
    assert((a0 >> 2u8 == b0 >> 2u8 && ((a0 & 3u8) << 4u8) | (a1 >> 4u8) == ((b0 & 3u8) << 4u8) | (
    b1 >> 4u8) && ((a1 & 15u8) << 2u8) | (a2 >> 6u8) == ((b1 & 15u8) << 2u8) | (b2 >> 6u8) && a2
        & 63u8 == b2 & 63u8) ==> a0 == b0 && a1 == b1 && a2 == b2) by (bit_vector);
}

/// Facts about the group of a non-empty byte string: its length is four,
/// and its third and fourth characters are `=` exactly when the bytes run
/// out.
proof fn lemma_group_shape(d: Seq<u8>)
    requires
        1 <= d.len(),
    ensures
        b64_encode_spec(d).len() >= 4,
        b64_encode_spec(d).subrange(0, 4) == b64_group(d.take(if d.len() < 3 {
            d.len() as int
        } else {
            3
        })),
        (b64_encode_spec(d)[2] == '=') == (d.len() == 1),
        (b64_encode_spec(d)[3] == '=') == (d.len() <= 2),
{
    let a0 = d[0];
    let a1 = if d.len() > 1 {
        d[1]
    } else {
        0
    };
    let a2 = if d.len() > 2 {
        d[2]
    } else {
        0
    };
    lemma_group_bytes(a0, a1, a2, a0, a1, a2);
    lemma_b64_char((a1 & 15u8) << 2u8, 0);
    lemma_b64_char(((a1 & 15u8) << 2u8) | (a2 >> 6u8), 0);
    lemma_b64_char(a2 & 63u8, 0);
    if d.len() <= 3 {
        assert(d.take(d.len() as int) =~= d);
        assert(b64_encode_spec(d).subrange(0, 4) =~= b64_group(d));
    } else {
        let g = b64_group(d.take(3));
        assert(b64_encode_spec(d) == g + b64_encode_spec(d.skip(3)));
        assert(b64_encode_spec(d).subrange(0, 4) =~= g);
    }
}

/// Encoding is injective: two byte strings with the same encoding are equal.
pub proof fn lemma_b64_injective(a: Seq<u8>, b: Seq<u8>)
    requires
        b64_encode_spec(a) == b64_encode_spec(b),
    ensures
        a == b,
    decreases a.len(),
{
    if a.len() == 0 || b.len() == 0 {
        if a.len() != 0 {
            lemma_group_shape(a);
        }
        if b.len() != 0 {
            lemma_group_shape(b);
        }
        assert(a =~= b);
        return;
    }
    lemma_group_shape(a);
    lemma_group_shape(b);
    let ea = b64_encode_spec(a);
    let eb = b64_encode_spec(b);
    assert(ea[2] == eb[2] && ea[3] == eb[3]);
    let (a0, a1, a2) = (a[0], if a.len() > 1 {
        a[1]
    } else {
        0u8
    }, if a.len() > 2 {
        a[2]
    } else {
        0u8
    });
    let (b0, b1, b2) = (b[0], if b.len() > 1 {
        b[1]
    } else {
        0u8
    }, if b.len() > 2 {
        b[2]
    } else {
        0u8
    });
    lemma_group_bytes(a0, a1, a2, b0, b1, b2);
    lemma_group_bytes(b0, b1, b2, a0, a1, a2);
    assert(ea.subrange(0, 4) == eb.subrange(0, 4));
    assert(ea[0] == ea.subrange(0, 4)[0]);
    assert(eb[0] == eb.subrange(0, 4)[0]);
    assert(ea[1] == ea.subrange(0, 4)[1]);
    assert(eb[1] == eb.subrange(0, 4)[1]);
    lemma_b64_char(a0 >> 2u8, b0 >> 2u8);
    if a.len() == 1 {
        lemma_b64_char((a0 & 3u8) << 4u8, (b0 & 3u8) << 4u8);
        assert(a =~= b);
    } else if a.len() == 2 {
        lemma_b64_char(((a0 & 3u8) << 4u8) | (a1 >> 4u8), ((b0 & 3u8) << 4u8) | (b1 >> 4u8));
        lemma_b64_char((a1 & 15u8) << 2u8, (b1 & 15u8) << 2u8);
        assert(ea[2] == ea.subrange(0, 4)[2]);
        assert(eb[2] == eb.subrange(0, 4)[2]);
        assert(a =~= b);
    } else {
        lemma_b64_char(((a0 & 3u8) << 4u8) | (a1 >> 4u8), ((b0 & 3u8) << 4u8) | (b1 >> 4u8));
        lemma_b64_char(((a1 & 15u8) << 2u8) | (a2 >> 6u8), ((b1 & 15u8) << 2u8) | (b2 >> 6u8));
        lemma_b64_char(a2 & 63u8, b2 & 63u8);
        assert(ea[2] == ea.subrange(0, 4)[2]);
        assert(eb[2] == eb.subrange(0, 4)[2]);
        assert(ea[3] == ea.subrange(0, 4)[3]);
        assert(eb[3] == eb.subrange(0, 4)[3]);
        if a.len() == 3 && b.len() == 3 {
            assert(a =~= b);
        } else {
            if a.len() == 3 || b.len() == 3 {
                // one side ends after this group, the other goes on
                assert(ea.len() != eb.len() || a.len() == b.len()) by {
                    if a.len() == 3 {
                        assert(ea == b64_group(a));
                        assert(eb == b64_group(b.take(3)) + b64_encode_spec(b.skip(3)));
                        lemma_group_shape(b.skip(3));
                    } else {
                        assert(eb == b64_group(b));
                        assert(ea == b64_group(a.take(3)) + b64_encode_spec(a.skip(3)));
                        lemma_group_shape(a.skip(3));
                    }
                }
            } else {
                assert(ea == b64_group(a.take(3)) + b64_encode_spec(a.skip(3)));
                assert(eb == b64_group(b.take(3)) + b64_encode_spec(b.skip(3)));
                assert(b64_encode_spec(a.skip(3)) =~= ea.skip(4));
                assert(b64_encode_spec(b.skip(3)) =~= eb.skip(4));
                lemma_b64_injective(a.skip(3), b.skip(3));
                assert(a =~= a.take(3) + a.skip(3));
                assert(b =~= b.take(3) + b.skip(3));
                assert(a.take(3) =~= b.take(3));
            }
        }
    }
}

/// Decoding an encoding gives the bytes back.
pub proof fn lemma_b64_roundtrip(d: Seq<u8>)
    ensures
        b64_decode_spec(b64_encode_spec(d)) == Some(d),
{
    let s = b64_encode_spec(d);
    assert(exists|x: Seq<u8>| b64_encode_spec(x) == s);
    let c = choose|x: Seq<u8>| b64_encode_spec(x) == s;
    lemma_b64_injective(c, d);
}

} // verus!
