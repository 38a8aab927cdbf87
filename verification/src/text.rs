//! Verified byte-sequence helpers: searching, slicing, trimming, and
//! decimal conversion, shared by the wire codec and the router.
use vstd::prelude::*;

verus! {

/// ASCII whitespace as the wire codec trims it: space, tab, CR, LF.
pub open spec fn is_ws(b: u8) -> bool {
    b == 32 || b == 9 || b == 13 || b == 10
}

/// ASCII decimal digit.
pub open spec fn is_digit(b: u8) -> bool {
    48 <= b <= 57
}

/// Index of the first occurrence of `b` in `s` at or after `i`, if any.
pub open spec fn find_byte_from(s: Seq<u8>, i: int, b: u8) -> Option<int>
    decreases s.len() - i,
        when 0 <= i <= s.len()
{
    if i >= s.len() {
        None
    } else if s[i] == b {
        Some(i)
    } else {
        find_byte_from(s, i + 1, b)
    }
}

/// `find_byte_from` returns the first occurrence, and `None` only when
/// there is none.
pub proof fn lemma_find_byte_from(s: Seq<u8>, i: int, b: u8)
    requires
        0 <= i <= s.len(),
    ensures
        match find_byte_from(s, i, b) {
            Some(j) => i <= j < s.len() && s[j] == b && forall|k: int| i <= k < j ==> s[k] != b,
            None => forall|k: int| i <= k < s.len() ==> s[k] != b,
        },
    decreases s.len() - i,
{
    if i < s.len() && s[i] != b {
        lemma_find_byte_from(s, i + 1, b);
    }
}

/// First occurrence of `b` in `data` at or after `from`.
pub fn find_byte(data: &Vec<u8>, from: usize, b: u8) -> (r: Option<usize>)
    requires
        from <= data@.len(),
    ensures
        match r {
            Some(j) => find_byte_from(data@, from as int, b) == Some(j as int),
            None => find_byte_from(data@, from as int, b) is None,
        },
{
    let mut i: usize = from;
    while i < data.len()
        invariant
            from <= i <= data@.len(),
            forall|k: int| from <= k < i ==> data@[k] != b,
        decreases data@.len() - i,
    {
        if data[i] == b {
            proof {
                lemma_find_byte_from(data@, from as int, b);
                assert(data@[i as int] == b);
                assert(find_byte_from(data@, from as int, b) == Some(i as int));
            }
            return Some(i);
        }
        i = i + 1;
    }
    proof {
        lemma_find_byte_from(data@, from as int, b);
    }
    None
}

/// Is a CRLF pair at index `i` of `s`?
pub open spec fn crlf_at(s: Seq<u8>, i: int) -> bool {
    0 <= i && i + 2 <= s.len() && s[i] == 13 && s[i + 1] == 10
}

/// Index of the first CRLF pair in `s` at or after `i`, if any.
pub open spec fn find_crlf_from(s: Seq<u8>, i: int) -> Option<int>
    decreases s.len() - i,
        when 0 <= i <= s.len()
{
    if i + 2 > s.len() {
        None
    } else if crlf_at(s, i) {
        Some(i)
    } else {
        find_crlf_from(s, i + 1)
    }
}

/// `find_crlf_from` returns the first CRLF, and `None` only when there
/// is none.
pub proof fn lemma_find_crlf_from(s: Seq<u8>, i: int)
    requires
        0 <= i <= s.len(),
    ensures
        match find_crlf_from(s, i) {
            Some(j) => i <= j && crlf_at(s, j) && forall|k: int| i <= k < j ==> !crlf_at(s, k),
            None => forall|k: int| i <= k ==> !crlf_at(s, k),
        },
    decreases s.len() - i,
{
    if i + 2 <= s.len() && !crlf_at(s, i) {
        lemma_find_crlf_from(s, i + 1);
    }
}

/// First CRLF pair in `data` at or after `from`.
pub fn find_crlf(data: &Vec<u8>, from: usize) -> (r: Option<usize>)
    requires
        from <= data@.len(),
    ensures
        match r {
            Some(j) => find_crlf_from(data@, from as int) == Some(j as int),
            None => find_crlf_from(data@, from as int) is None,
        },
{
    let mut i: usize = from;
    while i < data.len() && i + 1 < data.len()
        invariant
            from <= i <= data@.len(),
            forall|k: int| from <= k < i ==> !crlf_at(data@, k),
        decreases data@.len() - i,
    {
        if data[i] == 13 && data[i + 1] == 10 {
            proof {
                lemma_find_crlf_from(data@, from as int);
                assert(crlf_at(data@, i as int));
                assert(find_crlf_from(data@, from as int) == Some(i as int));
            }
            return Some(i);
        }
        i = i + 1;
    }
    proof {
        lemma_find_crlf_from(data@, from as int);
        assert(forall|k: int| from <= k ==> !crlf_at(data@, k));
    }
    None
}

/// A fresh copy of `data[a..b]`.
pub fn copy_range(data: &Vec<u8>, a: usize, b: usize) -> (r: Vec<u8>)
    requires
        a <= b <= data@.len(),
    ensures
        r@ == data@.subrange(a as int, b as int),
{
    let mut r: Vec<u8> = Vec::new();
    let mut i: usize = a;
    while i < b
        invariant
            a <= i <= b <= data@.len(),
            r@ == data@.subrange(a as int, i as int),
        decreases b - i,
    {
        r.push(data[i]);
        proof {
            assert(r@ =~= data@.subrange(a as int, i + 1));
        }
        i = i + 1;
    }
    r
}

/// A fresh copy of a whole byte vector.
pub fn copy_all(v: &Vec<u8>) -> (r: Vec<u8>)
    ensures
        r@ == v@,
{
    let n = v.len();
    let r = copy_range(v, 0, n);
    proof {
        assert(v@.subrange(0, n as int) =~= v@);
    }
    r
}

/// Byte-for-byte equality of two byte vectors.
pub fn bytes_eq(a: &Vec<u8>, b: &Vec<u8>) -> (r: bool)
    ensures
        r <==> a@ == b@,
{
    if a.len() != b.len() {
        return false;
    }
    let mut i: usize = 0;
    while i < a.len()
        invariant
            i <= a@.len(),
            a@.len() == b@.len(),
            forall|k: int| 0 <= k < i ==> a@[k] == b@[k],
        decreases a@.len() - i,
    {
        if a[i] != b[i] {
            return false;
        }
        i = i + 1;
    }
    proof {
        assert(a@ =~= b@);
    }
    true
}

/// Does `data` begin with `prefix`?
pub fn starts_with(data: &Vec<u8>, prefix: &Vec<u8>) -> (r: bool)
    ensures
        r <==> prefix@.len() <= data@.len() && data@.take(prefix@.len() as int) == prefix@,
{
    if prefix.len() > data.len() {
        return false;
    }
    let mut i: usize = 0;
    while i < prefix.len()
        invariant
            i <= prefix@.len() <= data@.len(),
            forall|k: int| 0 <= k < i ==> data@[k] == prefix@[k],
        decreases prefix@.len() - i,
    {
        if data[i] != prefix[i] {
            assert(data@.take(prefix@.len() as int)[i as int] != prefix@[i as int]);
            return false;
        }
        i = i + 1;
    }
    proof {
        assert(data@.take(prefix@.len() as int) =~= prefix@);
    }
    true
}

/// Index of the first non-whitespace byte of `s` at or after `i`
/// (`s.len()` when all of the rest is whitespace).
pub open spec fn skip_ws_from(s: Seq<u8>, i: int) -> int
    decreases s.len() - i,
        when 0 <= i <= s.len()
{
    if i < s.len() && is_ws(s[i]) {
        skip_ws_from(s, i + 1)
    } else {
        i
    }
}

/// Bounds and meaning of `skip_ws_from`.
pub proof fn lemma_skip_ws_from(s: Seq<u8>, i: int)
    requires
        0 <= i <= s.len(),
    ensures
        i <= skip_ws_from(s, i) <= s.len(),
        forall|k: int| i <= k < skip_ws_from(s, i) ==> is_ws(s[k]),
        skip_ws_from(s, i) < s.len() ==> !is_ws(s[skip_ws_from(s, i)]),
    decreases s.len() - i,
{
    if i < s.len() && is_ws(s[i]) {
        lemma_skip_ws_from(s, i + 1);
    }
}

/// Exclusive end of `s` once trailing whitespace before index `i` is
/// dropped (`0` when all of `s[..i]` is whitespace).
pub open spec fn skip_ws_back(s: Seq<u8>, i: int) -> int
    decreases i,
        when 0 <= i <= s.len()
{
    if i > 0 && is_ws(s[i - 1]) {
        skip_ws_back(s, i - 1)
    } else {
        i
    }
}

/// Bounds and meaning of `skip_ws_back`.
pub proof fn lemma_skip_ws_back(s: Seq<u8>, i: int)
    requires
        0 <= i <= s.len(),
    ensures
        0 <= skip_ws_back(s, i) <= i,
        forall|k: int| skip_ws_back(s, i) <= k < i ==> is_ws(s[k]),
        skip_ws_back(s, i) > 0 ==> !is_ws(s[skip_ws_back(s, i) - 1]),
    decreases i,
{
    if i > 0 && is_ws(s[i - 1]) {
        lemma_skip_ws_back(s, i - 1);
    }
}

/// `s` with leading and trailing ASCII whitespace removed.
pub open spec fn spec_trim(s: Seq<u8>) -> Seq<u8> {
    let a = skip_ws_from(s, 0);
    s.subrange(a, if skip_ws_back(s, s.len() as int) < a {
        a
    } else {
        skip_ws_back(s, s.len() as int)
    })
}

/// Runtime test of `is_ws`.
fn is_ws_byte(c: u8) -> (r: bool)
    ensures
        r == is_ws(c),
{
    c == 32 || c == 9 || c == 13 || c == 10
}

/// A fresh copy of `s` with leading and trailing whitespace removed.
pub fn trim(s: &Vec<u8>) -> (r: Vec<u8>)
    ensures
        r@ == spec_trim(s@),
{
    proof {
        lemma_skip_ws_from(s@, 0);
        lemma_skip_ws_back(s@, s@.len() as int);
    }
    let mut a: usize = 0;
    while a < s.len() && is_ws_byte(s[a])
        invariant
            a <= s@.len(),
            forall|k: int| 0 <= k < a ==> is_ws(s@[k]),
        decreases s@.len() - a,
    {
        a = a + 1;
    }
    let mut b: usize = s.len();
    while b > a && is_ws_byte(s[b - 1])
        invariant
            a <= b <= s@.len(),
            forall|k: int| b <= k < s@.len() ==> is_ws(s@[k]),
        decreases b,
    {
        b = b - 1;
    }
    proof {
        lemma_skip_ws_from_converges(s@, 0, a as int);
        if b > a {
            lemma_skip_ws_back_converges(s@, s@.len() as int, b as int);
            assert(skip_ws_back(s@, s@.len() as int) == b as int);
        } else {
            assert(skip_ws_from(s@, 0) == a as int);
            assert(b == a);
            if skip_ws_back(s@, s@.len() as int) >= a as int {
                lemma_skip_ws_back(s@, s@.len() as int);
                assert(forall|k: int| a <= k < s@.len() ==> is_ws(s@[k]));
                lemma_skip_ws_back_converges(s@, s@.len() as int, a as int);
            }
        }
    }
    copy_range(s, a, b)
}

/// If everything in `[i, a)` is whitespace and `a` is a stopping point,
/// the whitespace skip from `i` lands exactly on `a`.
proof fn lemma_skip_ws_from_converges(s: Seq<u8>, i: int, a: int)
    requires
        0 <= i <= a <= s.len(),
        forall|k: int| i <= k < a ==> is_ws(s[k]),
        a < s.len() ==> !is_ws(s[a]),
    ensures
        skip_ws_from(s, i) == a,
    decreases a - i,
{
    if i < a {
        lemma_skip_ws_from_converges(s, i + 1, a);
    }
}

/// If everything in `[b, i)` is whitespace and `b` is a stopping point,
/// the backwards whitespace skip from `i` lands exactly on `b`.
proof fn lemma_skip_ws_back_converges(s: Seq<u8>, i: int, b: int)
    requires
        0 <= b <= i <= s.len(),
        forall|k: int| b <= k < i ==> is_ws(s[k]),
        b > 0 ==> !is_ws(s[b - 1]),
    ensures
        skip_ws_back(s, i) == b,
    decreases i,
{
    if b < i {
        lemma_skip_ws_back_converges(s, i - 1, b);
    }
}

/// Are all bytes of `s` ASCII digits?
pub open spec fn all_digits(s: Seq<u8>) -> bool {
    forall|k: int| 0 <= k < s.len() ==> is_digit(s[k])
}

/// The value of a digit string read as decimal.
pub open spec fn dec_value(s: Seq<u8>) -> nat
    decreases s.len(),
{
    if s.len() == 0 {
        0
    } else {
        (dec_value(s.drop_last()) * 10 + (s.last() - 48)) as nat
    }
}

/// Reading a longer prefix of a digit string never shrinks the value.
pub proof fn lemma_dec_value_prefix(s: Seq<u8>, i: int)
    requires
        0 <= i <= s.len(),
        all_digits(s),
    ensures
        dec_value(s.take(i)) <= dec_value(s),
    decreases s.len(),
{
    if i < s.len() {
        assert(s.drop_last().take(i) =~= s.take(i));
        assert(all_digits(s.drop_last()));
        lemma_dec_value_prefix(s.drop_last(), i);
        assert(dec_value(s) == dec_value(s.drop_last()) * 10 + (s.last() - 48));
    } else {
        assert(s.take(i) =~= s);
    }
}

/// The numeric reading of a digit string: `Some` exactly when `s` is
/// nonempty, all digits, and its value fits in a `u64`.
pub open spec fn spec_parse_u64(s: Seq<u8>) -> Option<u64> {
    if s.len() > 0 && all_digits(s) && dec_value(s) <= u64::MAX {
        Some(dec_value(s) as u64)
    } else {
        None
    }
}

/// Parse an ASCII decimal `u64`, rejecting anything but a plain digit
/// string whose value fits.
pub fn parse_u64(s: &Vec<u8>) -> (r: Option<u64>)
    ensures
        r == spec_parse_u64(s@),
{
    if s.len() == 0 {
        return None;
    }
    let mut acc: u64 = 0;
    let mut i: usize = 0;
    while i < s.len()
        invariant
            i <= s@.len(),
            s@.len() > 0,
            all_digits(s@.take(i as int)),
            acc as nat == dec_value(s@.take(i as int)),
        decreases s@.len() - i,
    {
        let c = s[i];
        if c < 48 || c > 57 {
            assert(!all_digits(s@));
            return None;
        }
        let d: u64 = (c - 48) as u64;
        let wide: u128 = acc as u128 * 10 + d as u128;
        proof {
            assert(s@.take(i + 1).drop_last() =~= s@.take(i as int));
            assert(s@.take(i + 1).last() == s@[i as int]);
            assert(all_digits(s@.take(i + 1)));
            assert(dec_value(s@.take(i + 1)) == dec_value(s@.take(i as int)) * 10 + (s@[i as int]
                - 48));
        }
        if wide > u64::MAX as u128 {
            proof {
                if all_digits(s@) {
                    lemma_dec_value_prefix(s@, i + 1);
                    assert(dec_value(s@) >= dec_value(s@.take(i + 1)));
                    assert(dec_value(s@) > u64::MAX);
                }
            }
            return None;
        }
        acc = wide as u64;
        i = i + 1;
    }
    proof {
        assert(s@.take(s@.len() as int) =~= s@);
    }
    Some(acc)
}

/// The decimal digit string of `n`, most significant digit first.
pub open spec fn spec_dec_u64(n: nat) -> Seq<u8>
    decreases n,
{
    if n < 10 {
        seq![(48 + n) as u8]
    } else {
        spec_dec_u64(n / 10).push((48 + n % 10) as u8)
    }
}

/// Render `n` as its ASCII decimal digit string.
pub fn dec_u64(n: u64) -> (r: Vec<u8>)
    ensures
        r@ == spec_dec_u64(n as nat),
    decreases n,
{
    if n < 10 {
        let r: Vec<u8> = vec![48 + n as u8];
        assert(r@ =~= spec_dec_u64(n as nat));
        r
    } else {
        let mut r = dec_u64(n / 10);
        r.push(48 + (n % 10) as u8);
        r
    }
}

} // verus!
