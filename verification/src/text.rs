//! Character-level helpers shared by the parsers: trimming, searching,
//! ASCII case folding, and decimal numbers in and out.
use vstd::prelude::*;

verus! {

/// The character sets that the parsers trim.
#[derive(Clone, Copy, PartialEq, Eq, Structural)]
pub enum TrimSet {
    /// `' '` and `'\t'`.
    SpaceTab,
    /// `' '`, `'\t'` and `'\r'`.
    SpaceTabCr,
    /// `' '`, `'\t'`, `'\r'` and `'\n'`.
    SpaceTabCrLf,
}

pub open spec fn in_set(set: TrimSet, c: char) -> bool {
    match set {
        TrimSet::SpaceTab => c == ' ' || c == '\t',
        TrimSet::SpaceTabCr => c == ' ' || c == '\t' || c == '\r',
        TrimSet::SpaceTabCrLf => c == ' ' || c == '\t' || c == '\r' || c == '\n',
    }
}

/// Number of leading characters of `s` in `set`.
pub open spec fn lead(s: Seq<char>, set: TrimSet) -> nat
    decreases s.len(),
{
    if s.len() > 0 && in_set(set, s[0]) {
        1 + lead(s.drop_first(), set)
    } else {
        0
    }
}

/// Number of trailing characters of `s` in `set`.
pub open spec fn trail(s: Seq<char>, set: TrimSet) -> nat
    decreases s.len(),
{
    if s.len() > 0 && in_set(set, s.last()) {
        1 + trail(s.drop_last(), set)
    } else {
        0
    }
}

/// `s` with the characters of `set` removed from both ends (what
/// `str::trim_matches` gives).
pub open spec fn trim_spec(s: Seq<char>, set: TrimSet) -> Seq<char> {
    let r = s.skip(lead(s, set) as int);
    r.take(r.len() - trail(r, set))
}

/// Least index `i >= from` with `s[i] == c`.
pub open spec fn find_char_from(s: Seq<char>, c: char, from: int) -> Option<int>
    decreases s.len() - from,
{
    if from < 0 || from >= s.len() {
        None
    } else if s[from] == c {
        Some(from)
    } else {
        find_char_from(s, c, from + 1)
    }
}

/// Least index of `c` in `s`.
pub open spec fn first_index_of(s: Seq<char>, c: char) -> Option<int> {
    find_char_from(s, c, 0)
}

/// ASCII lower case of `c`; other characters unchanged.
pub open spec fn ascii_lower(c: char) -> char {
    if 'A' <= c && c <= 'Z' {
        ((c as u32) + 32) as char
    } else {
        c
    }
}

/// `a` and `b` are equal up to ASCII case (what `str::eq_ignore_ascii_case`
/// decides).
pub open spec fn eq_ignore_ascii_case_spec(a: Seq<char>, b: Seq<char>) -> bool {
    a.len() == b.len() && forall|i: int| 0 <= i < a.len() ==> ascii_lower(a[i]) == ascii_lower(b[i])
}

pub open spec fn is_digit(c: char) -> bool {
    '0' <= c && c <= '9'
}

pub open spec fn all_digits(s: Seq<char>) -> bool {
    forall|i: int| 0 <= i < s.len() ==> is_digit(s[i])
}

pub open spec fn digit_value(c: char) -> nat {
    ((c as u32) - ('0' as u32)) as nat
}

/// Decimal value of a digit sequence.
pub open spec fn digits_value(s: Seq<char>) -> nat
    decreases s.len(),
{
    if s.len() == 0 {
        0
    } else {
        digits_value(s.drop_last()) * 10 + digit_value(s.last())
    }
}

/// What `str::parse` of an unsigned integer type whose largest value is
/// `max` gives: an optional `'+'`, then one or more ASCII digits, with a
/// value of at most `max`.
pub open spec fn parse_unsigned_spec(s: Seq<char>, max: nat) -> Option<nat> {
    let d = unsigned_digits(s);
    if d.len() == 0 || !all_digits(d) || digits_value(d) > max {
        None
    } else {
        Some(digits_value(d))
    }
}

/// Why `str::parse` refused an unsigned integer.
#[derive(Debug, Clone, Copy, PartialEq, Eq, Structural)]
pub enum IntErrorKind {
    /// The text was empty.
    Empty,
    /// A character that is not a digit came before any overflow.
    InvalidDigit,
    /// The value grew past the type's largest value before any invalid
    /// character.
    PosOverflow,
}

/// First index `k` of the digit part at which reading left to right fails:
/// a non-digit, or a prefix whose value exceeds `max`.
pub open spec fn first_bad(d: Seq<char>, max: nat, k: int) -> Option<int>
    decreases d.len() - k,
{
    if k < 0 || k >= d.len() {
        None
    } else if !is_digit(d[k]) || digits_value(d.take(k + 1)) > max {
        Some(k)
    } else {
        first_bad(d, max, k + 1)
    }
}

/// The error `str::parse` reports for text it refuses.
pub open spec fn int_error_kind_spec(s: Seq<char>, max: nat) -> IntErrorKind {
    if s.len() == 0 {
        IntErrorKind::Empty
    } else {
        let d = unsigned_digits(s);
        match first_bad(d, max, 0) {
            Some(k) => if is_digit(d[k]) {
                IntErrorKind::PosOverflow
            } else {
                IntErrorKind::InvalidDigit
            },
            None => IntErrorKind::InvalidDigit,
        }
    }
}

/// `s` without one leading `'+'`.
pub open spec fn unsigned_digits(s: Seq<char>) -> Seq<char> {
    if s.len() > 0 && s[0] == '+' {
        s.drop_first()
    } else {
        s
    }
}

pub open spec fn digit_char(n: nat) -> char {
    (('0' as u32) + n) as char
}

/// Decimal rendering of `n`, without sign or leading zeros.
pub open spec fn dec_digits(n: nat) -> Seq<char>
    decreases n,
{
    if n < 10 {
        seq![digit_char(n)]
    } else {
        dec_digits(n / 10).push(digit_char(n % 10))
    }
}

pub proof fn lemma_find_char_from(s: Seq<char>, c: char, from: int)
    ensures
        find_char_from(s, c, from) matches Some(i) ==> from <= i < s.len() && s[i] == c,
    decreases s.len() - from,
{
    if !(from < 0 || from >= s.len()) && s[from] != c {
        lemma_find_char_from(s, c, from + 1);
    }
}

/// Searching `s[pos..]` from offset `k - pos` is searching `s` from `k`.
pub proof fn lemma_find_from_sub(s: Seq<char>, c: char, pos: int, k: int)
    requires
        0 <= pos <= k <= s.len(),
    ensures
        find_char_from(s.subrange(pos, s.len() as int), c, k - pos) == (match find_char_from(
            s,
            c,
            k,
        ) {
            Some(i) => Some(i - pos),
            None => None::<int>,
        }),
    decreases s.len() - k,
{
    if k < s.len() && s[k] != c {
        lemma_find_from_sub(s, c, pos, k + 1);
    }
}

/// The characters of `s`, in order.
pub fn chars_of(s: &str) -> (v: Vec<char>)
    ensures
        v@ == s@,
{
    let mut v: Vec<char> = Vec::new();
    for c in it: s.chars()
        invariant
            v@ == it.seq().take(it.index() as int),
            it.seq() == s@,
    {
        v.push(c);
    }
    v
}

/// Appends `c` to `s` (std's `String::push`, which adds the character at the
/// end of the string).
#[verifier::external_body]
pub(crate) fn push_char(s: &mut String, c: char)
    ensures
        final(s)@ == old(s)@.push(c),
{
    s.push(c);
}

/// A string holding the characters `v[from..to]`.
pub fn string_from_chars(v: &[char], from: usize, to: usize) -> (s: String)
    requires
        from <= to <= v.len(),
    ensures
        s@ == v@.subrange(from as int, to as int),
{
    let mut s = String::new();
    let mut i = from;
    while i < to
        invariant
            from <= i <= to <= v.len(),
            s@ == v@.subrange(from as int, i as int),
        decreases to - i,
    {
        push_char(&mut s, v[i]);
        i += 1;
        proof {
            assert(s@ =~= v@.subrange(from as int, i as int));
        }
    }
    s
}

/// The text of `bytes` when they are valid UTF-8 (std's
/// `String::from_utf8`, which checks exactly that).
#[verifier::external_body]
pub(crate) fn string_from_utf8(bytes: Vec<u8>) -> (r: Option<String>)
    ensures
        match r {
            Some(s) => vstd::utf8::valid_utf8(bytes@) && s@ == vstd::utf8::decode_utf8(bytes@),
            None => !vstd::utf8::valid_utf8(bytes@),
        },
{
    String::from_utf8(bytes).ok()
}

/// Whether two strings are equal.
pub fn str_eq(a: &str, b: &str) -> (r: bool)
    ensures
        r == (a@ == b@),
{
    let v = chars_of(a);
    let w = chars_of(b);
    proof {
        assert(v@.subrange(0, v@.len() as int) =~= v@);
    }
    eq_range(v.as_slice(), 0, v.len(), w.as_slice())
}

/// Whether `c` occurs in `s`.
pub fn contains_char(s: &str, c: char) -> (r: bool)
    ensures
        r == s@.contains(c),
{
    let v = chars_of(s);
    let mut i: usize = 0;
    while i < v.len()
        invariant
            v@ == s@,
            i <= v@.len(),
            forall|j: int| 0 <= j < i ==> v@[j] != c,
        decreases v.len() - i,
    {
        if v[i] == c {
            proof {
                assert(s@[i as int] == c);
            }
            return true;
        }
        i += 1;
    }
    false
}

/// `a` followed by `b`.
pub fn concat(a: String, b: &str) -> (s: String)
    ensures
        s@ == a@ + b@,
{
    let mut s = a;
    s.append(b);
    s
}

pub fn in_trim_set(set: TrimSet, c: char) -> (b: bool)
    ensures
        b == in_set(set, c),
{
    match set {
        TrimSet::SpaceTab => c == ' ' || c == '\t',
        TrimSet::SpaceTabCr => c == ' ' || c == '\t' || c == '\r',
        TrimSet::SpaceTabCrLf => c == ' ' || c == '\t' || c == '\r' || c == '\n',
    }
}

proof fn lemma_lead_step(s: Seq<char>, a: int, to: int, set: TrimSet)
    requires
        0 <= a < to <= s.len(),
        in_set(set, s[a]),
    ensures
        lead(s.subrange(a, to), set) == 1 + lead(s.subrange(a + 1, to), set),
{
    assert(s.subrange(a, to).drop_first() =~= s.subrange(a + 1, to));
}

proof fn lemma_trail_step(s: Seq<char>, from: int, b: int, set: TrimSet)
    requires
        0 <= from < b <= s.len(),
        in_set(set, s[b - 1]),
    ensures
        trail(s.subrange(from, b), set) == 1 + trail(s.subrange(from, b - 1), set),
{
    assert(s.subrange(from, b).drop_last() =~= s.subrange(from, b - 1));
}

/// Bounds of `v[from..to]` with the characters of `set` trimmed from both
/// ends.
pub fn trim_bounds(v: &[char], from: usize, to: usize, set: TrimSet) -> (r: (usize, usize))
    requires
        from <= to <= v.len(),
    ensures
        from <= r.0 <= r.1 <= to,
        v@.subrange(r.0 as int, r.1 as int) == trim_spec(v@.subrange(from as int, to as int), set),
{
    let ghost s = v@.subrange(from as int, to as int);
    let mut a = from;
    while a < to && in_trim_set(set, v[a])
        invariant
            from <= a <= to <= v.len(),
            lead(s, set) == (a - from) + lead(v@.subrange(a as int, to as int), set),
        decreases to - a,
    {
        proof {
            lemma_lead_step(v@, a as int, to as int, set);
        }
        a += 1;
    }
    proof {
        assert(lead(v@.subrange(a as int, to as int), set) == 0);
        assert(s.skip(lead(s, set) as int) =~= v@.subrange(a as int, to as int));
    }
    let ghost r = v@.subrange(a as int, to as int);
    let mut b = to;
    while b > a && in_trim_set(set, v[b - 1])
        invariant
            from <= a <= b <= to <= v.len(),
            r == v@.subrange(a as int, to as int),
            trail(r, set) == (to - b) + trail(v@.subrange(a as int, b as int), set),
        decreases b - a,
    {
        proof {
            lemma_trail_step(v@, a as int, b as int, set);
        }
        b -= 1;
    }
    proof {
        assert(trail(v@.subrange(a as int, b as int), set) == 0);
        assert(r.take(r.len() - trail(r, set)) =~= v@.subrange(a as int, b as int));
    }
    (a, b)
}

/// Least index `i` in `from..to` with `v[i] == c`, relative to the whole of
/// `v`.
pub fn find_char(v: &[char], c: char, from: usize, to: usize) -> (r: Option<usize>)
    requires
        from <= to <= v.len(),
    ensures
        match r {
            Some(i) => from <= i < to && v@[i as int] == c && first_index_of(
                v@.subrange(from as int, to as int),
                c,
            ) == Some(i - from),
            None => first_index_of(v@.subrange(from as int, to as int), c) is None,
        },
{
    let ghost s = v@.subrange(from as int, to as int);
    let mut i = from;
    while i < to
        invariant
            from <= i <= to <= v.len(),
            s == v@.subrange(from as int, to as int),
            find_char_from(s, c, 0) == find_char_from(s, c, i - from),
        decreases to - i,
    {
        if v[i] == c {
            return Some(i);
        }
        i += 1;
    }
    None
}

pub fn ascii_lower_exec(c: char) -> (r: char)
    ensures
        r == ascii_lower(c),
{
    if 'A' <= c && c <= 'Z' {
        ((c as u32) + 32) as u8 as char
    } else {
        c
    }
}

/// Whether `v[from..to]` equals `w` up to ASCII case.
pub fn eq_ignore_ascii_case_range(v: &[char], from: usize, to: usize, w: &[char]) -> (r: bool)
    requires
        from <= to <= v.len(),
    ensures
        r == eq_ignore_ascii_case_spec(v@.subrange(from as int, to as int), w@),
{
    if to - from != w.len() {
        return false;
    }
    let mut i: usize = 0;
    while i < w.len()
        invariant
            from <= to <= v.len(),
            to - from == w.len(),
            i <= w.len(),
            forall|j: int|
                0 <= j < i ==> ascii_lower(#[trigger] v@[from + j]) == ascii_lower(w@[j]),
        decreases w.len() - i,
    {
        if ascii_lower_exec(v[from + i]) != ascii_lower_exec(w[i]) {
            proof {
                assert(v@.subrange(from as int, to as int)[i as int] == v@[from + i]);
            }
            return false;
        }
        i += 1;
    }
    proof {
        assert forall|j: int| 0 <= j < w@.len() implies ascii_lower(
            v@.subrange(from as int, to as int)[j],
        ) == ascii_lower(w@[j]) by {
            assert(v@.subrange(from as int, to as int)[j] == v@[from + j]);
        }
    }
    true
}

/// Whether `v[from..to]` equals `w`.
pub fn eq_range(v: &[char], from: usize, to: usize, w: &[char]) -> (r: bool)
    requires
        from <= to <= v.len(),
    ensures
        r == (v@.subrange(from as int, to as int) == w@),
{
    if to - from != w.len() {
        return false;
    }
    let mut i: usize = 0;
    while i < w.len()
        invariant
            from <= to <= v.len(),
            to - from == w.len(),
            i <= w.len(),
            forall|j: int| 0 <= j < i ==> #[trigger] v@[from + j] == w@[j],
        decreases w.len() - i,
    {
        if v[from + i] != w[i] {
            proof {
                assert(v@.subrange(from as int, to as int)[i as int] == v@[from + i]);
            }
            return false;
        }
        i += 1;
    }
    proof {
        assert forall|j: int| 0 <= j < w@.len() implies v@.subrange(from as int, to as int)[j]
            == w@[j] by {
            assert(v@.subrange(from as int, to as int)[j] == v@[from + j]);
        }
        assert(v@.subrange(from as int, to as int) =~= w@);
    }
    true
}

pub proof fn lemma_digits_value_monotone(s: Seq<char>, i: int)
    requires
        all_digits(s),
        0 <= i <= s.len(),
    ensures
        digits_value(s.take(i)) <= digits_value(s),
    decreases s.len() - i,
{
    if i < s.len() {
        lemma_digits_value_monotone(s, i + 1);
        assert(s.take(i + 1).drop_last() =~= s.take(i));
    } else {
        assert(s.take(i) =~= s);
    }
}

proof fn lemma_digit_prefix_step(d: Seq<char>, k: int, acc: nat)
    requires
        0 <= k < d.len(),
        all_digits(d.take(k)),
        acc == digits_value(d.take(k)),
        is_digit(d[k]),
    ensures
        all_digits(d.take(k + 1)),
        digits_value(d.take(k + 1)) == acc * 10 + digit_value(d[k]),
{
    assert(d.take(k + 1).drop_last() =~= d.take(k));
    assert forall|j: int| 0 <= j < k + 1 implies is_digit(#[trigger] d.take(k + 1)[j]) by {
        if j < k {
            assert(d.take(k + 1)[j] == d.take(k)[j]);
        }
    }
}

/// Parse `v[from..to]` as an unsigned decimal no larger than `max`, as
/// `str::parse` does for an unsigned type whose largest value is `max`.
pub fn parse_unsigned(v: &[char], from: usize, to: usize, max: u64) -> (r: Result<u64, IntErrorKind>)
    requires
        from <= to <= v.len(),
    ensures
        match r {
            Ok(n) => parse_unsigned_spec(v@.subrange(from as int, to as int), max as nat) == Some(
                n as nat,
            ),
            Err(k) => parse_unsigned_spec(v@.subrange(from as int, to as int), max as nat) is None
                && k == int_error_kind_spec(v@.subrange(from as int, to as int), max as nat),
        },
{
    let ghost s = v@.subrange(from as int, to as int);
    if from == to {
        return Err(IntErrorKind::Empty);
    }
    let mut start = from;
    if v[from] == '+' {
        start = from + 1;
    }
    let ghost d = v@.subrange(start as int, to as int);
    proof {
        if v[from as int] == '+' {
            assert(s.drop_first() =~= d);
        } else {
            assert(s =~= d);
        }
    }
    if start == to {
        return Err(IntErrorKind::InvalidDigit);
    }
    let mut acc: u64 = 0;
    let mut i = start;
    while i < to
        invariant
            from <= start <= i <= to <= v.len(),
            s == v@.subrange(from as int, to as int),
            s.len() > 0,
            d == v@.subrange(start as int, to as int),
            d == unsigned_digits(s),
            d.len() > 0,
            all_digits(d.take(i - start)),
            acc as nat == digits_value(d.take(i - start)),
            acc <= max,
            first_bad(d, max as nat, 0) == first_bad(d, max as nat, i - start),
        decreases to - i,
    {
        let c = v[i];
        assert(d[i - start] == c);
        if !('0' <= c && c <= '9') {
            proof {
                assert(!all_digits(d));
                assert(parse_unsigned_spec(s, max as nat) is None);
            }
            return Err(IntErrorKind::InvalidDigit);
        }
        let dv = (c as u32 - '0' as u32) as u64;
        proof {
            lemma_digit_prefix_step(d, i - start, acc as nat);
        }
        if dv > max || acc > (max - dv) / 10 {
            proof {
                assert(acc * 10 + dv > max) by (nonlinear_arith)
                    requires
                        dv > max || acc > (max - dv) / 10,
                ;
                if all_digits(d) {
                    lemma_digits_value_monotone(d, i - start + 1);
                    assert(digits_value(d) > max);
                }
                assert(parse_unsigned_spec(s, max as nat) is None);
            }
            return Err(IntErrorKind::PosOverflow);
        }
        assert(acc * 10 + dv <= max) by (nonlinear_arith)
            requires
                dv <= max,
                acc <= (max - dv) / 10,
        ;
        acc = acc * 10 + dv;
        i += 1;
    }
    proof {
        assert(d.take(to - start) =~= d);
    }
    Ok(acc)
}

fn digit_char_exec(n: u64) -> (c: char)
    requires
        n < 10,
    ensures
        c == digit_char(n as nat),
{
    ((48u64 + n) as u8) as char
}

/// Appends the decimal rendering of `n` to `out`.
pub fn push_decimal(out: &mut Vec<char>, n: u64)
    ensures
        final(out)@ == old(out)@ + dec_digits(n as nat),
    decreases n,
{
    if n >= 10 {
        push_decimal(out, n / 10);
    }
    out.push(digit_char_exec(n % 10));
    proof {
        if n >= 10 {
            assert(dec_digits(n as nat) == dec_digits((n / 10) as nat).push(digit_char((n % 10) as nat)));
        }
    }
}

/// Decimal rendering of `n` (what `n.to_string()` gives for an unsigned
/// integer).
pub fn decimal_string(n: u64) -> (s: String)
    ensures
        s@ == dec_digits(n as nat),
{
    let mut v: Vec<char> = Vec::new();
    push_decimal(&mut v, n);
    proof {
        assert(v@ =~= dec_digits(n as nat));
    }
    string_from_chars(v.as_slice(), 0, v.len())
}

proof fn lemma_digit_char_value(k: nat)
    requires
        k < 10,
    ensures
        digit_value(digit_char(k)) == k,
        is_digit(digit_char(k)),
{
    assert((((48 + k) as u32) as char) as u32 == 48 + k);
}

pub proof fn lemma_dec_digits_facts(n: nat)
    ensures
        dec_digits(n).len() > 0,
        all_digits(dec_digits(n)),
        digits_value(dec_digits(n)) == n,
        dec_digits(n)[0] != '+',
    decreases n,
{
    if n >= 10 {
        lemma_dec_digits_facts(n / 10);
        let d = dec_digits(n);
        assert(d.drop_last() =~= dec_digits(n / 10));
        assert((n / 10) * 10 + n % 10 == n) by (nonlinear_arith);
        lemma_digit_char_value(n % 10);
        assert(d.last() == digit_char(n % 10));
        assert(digits_value(d) == digits_value(d.drop_last()) * 10 + digit_value(d.last()));
        assert forall|i: int| 0 <= i < d.len() implies is_digit(#[trigger] d[i]) by {
            if i < d.len() - 1 {
                assert(d[i] == dec_digits(n / 10)[i]);
            }
        }
    } else {
        let d = dec_digits(n);
        assert(d.drop_last() =~= Seq::<char>::empty());
        lemma_digit_char_value(n);
        assert(digits_value(d.drop_last()) == 0);
        assert(digits_value(d) == digits_value(d.drop_last()) * 10 + digit_value(d.last()));
    }
}

/// Decimal roundtrip: parsing the decimal rendering of `n` gives `n` back,
/// for every bound `max >= n`.
pub proof fn lemma_decimal_roundtrip(n: nat, max: nat)
    requires
        n <= max,
    ensures
        parse_unsigned_spec(dec_digits(n), max) == Some(n),
{
    lemma_dec_digits_facts(n);
}

} // verus!
