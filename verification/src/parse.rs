//! Verified parsing of the numeric literals the debugger accepts: optional
//! `0x`/`0X`, `0o`/`0O`, `0b`/`0B` radix prefixes, otherwise decimal, with
//! surrounding ASCII whitespace trimmed and an optional leading plus sign, as
//! the integer parser of the standard library reads them.

use vstd::prelude::*;
use vstd::string::StringSliceAdditionalSpecFns;
use vstd::slice::slice_subrange;

use crate::error::{DrbugError, DrbugResult};
use crate::reg_value::RegisterValue;

verus! {

broadcast use vstd::std_specs::vec::group_vec_axioms;

/// ASCII whitespace.
pub open spec fn is_space(b: u8) -> bool {
    b == 32 || b == 9 || b == 10 || b == 11 || b == 12 || b == 13
}

/// `s` with leading ASCII whitespace removed.
pub open spec fn trim_start_spec(s: Seq<u8>) -> Seq<u8>
    decreases s.len(),
{
    if s.len() > 0 && is_space(s[0]) {
        trim_start_spec(s.drop_first())
    } else {
        s
    }
}

/// `s` with trailing ASCII whitespace removed.
pub open spec fn trim_end_spec(s: Seq<u8>) -> Seq<u8>
    decreases s.len(),
{
    if s.len() > 0 && is_space(s.last()) {
        trim_end_spec(s.drop_last())
    } else {
        s
    }
}

/// `s` with surrounding ASCII whitespace removed.
pub open spec fn trim_spec(s: Seq<u8>) -> Seq<u8> {
    trim_end_spec(trim_start_spec(s))
}

proof fn lemma_trim_start(s: Seq<u8>, k: int)
    requires
        0 <= k <= s.len(),
        forall|j: int| 0 <= j < k ==> is_space(#[trigger] s[j]),
        k < s.len() ==> !is_space(s[k]),
    ensures
        trim_start_spec(s) == s.skip(k),
    decreases k,
{
    if k == 0 {
        assert(s.skip(0) =~= s);
    } else {
        assert(is_space(s[0]));
        let t = s.drop_first();
        assert(forall|j: int| 0 <= j < k - 1 ==> is_space(#[trigger] t[j]));
        lemma_trim_start(t, k - 1);
        assert(t.skip(k - 1) =~= s.skip(k));
    }
}

proof fn lemma_trim_end(s: Seq<u8>, k: int)
    requires
        0 <= k <= s.len(),
        forall|j: int| k <= j < s.len() ==> is_space(#[trigger] s[j]),
        k > 0 ==> !is_space(s[k - 1]),
    ensures
        trim_end_spec(s) == s.take(k),
    decreases s.len() - k,
{
    if k == s.len() {
        assert(s.take(k) =~= s);
        if s.len() > 0 && is_space(s.last()) {
            let t = s.drop_last();
            lemma_trim_end(t, k - 1);
            assert(t.take(k - 1) =~= s.take(k - 1));
        }
    } else {
        assert(is_space(s.last()));
        let t = s.drop_last();
        assert(forall|j: int| k <= j < t.len() ==> is_space(#[trigger] t[j]));
        lemma_trim_end(t, k);
        assert(t.take(k) =~= s.take(k));
    }
}

/// The bounds of `s` without its surrounding ASCII whitespace.
fn trim_bounds(s: &[u8]) -> (r: (usize, usize))
    ensures
        0 <= r.0 <= r.1 <= s@.len(),
        s@.subrange(r.0 as int, r.1 as int) == trim_spec(s@),
{
    let n = s.len();
    let mut lo: usize = 0;
    while lo < n && (s[lo] == 32 || s[lo] == 9 || s[lo] == 10 || s[lo] == 11 || s[lo] == 12
        || s[lo] == 13)
        invariant
            n == s@.len(),
            lo <= n,
            forall|j: int| 0 <= j < lo ==> is_space(#[trigger] s@[j]),
        decreases n - lo,
    {
        lo = lo + 1;
    }
    let mut hi: usize = n;
    while hi > lo && (s[hi - 1] == 32 || s[hi - 1] == 9 || s[hi - 1] == 10 || s[hi - 1] == 11 || s[
        hi - 1] == 12 || s[hi - 1] == 13)
        invariant
            n == s@.len(),
            lo <= hi <= n,
            forall|j: int| 0 <= j < lo ==> is_space(#[trigger] s@[j]),
            forall|j: int| hi <= j < n ==> is_space(#[trigger] s@[j]),
        decreases hi,
    {
        hi = hi - 1;
    }
    proof {
        lemma_trim_start(s@, lo as int);
        let t = s@.skip(lo as int);
        assert(forall|j: int| hi - lo <= j < t.len() ==> is_space(#[trigger] t[j]));
        lemma_trim_end(t, hi - lo);
        assert(t.take(hi - lo) =~= s@.subrange(lo as int, hi as int));
    }
    (lo, hi)
}

/// The numeric value a byte denotes as a digit: `0`-`9`, then lowercase and
/// uppercase letters from ten up; anything else is -1.
pub open spec fn digit_val(b: u8) -> int {
    if 48 <= b <= 57 {
        b - 48
    } else if 97 <= b <= 122 {
        b - 87
    } else if 65 <= b <= 90 {
        b - 55
    } else {
        -1
    }
}

/// Every byte of `s` is a digit of the radix.
pub open spec fn all_digits(s: Seq<u8>, radix: int) -> bool {
    forall|i: int| 0 <= i < s.len() ==> 0 <= digit_val(#[trigger] s[i]) < radix
}

/// The value of the digit string `s` in the radix.
pub open spec fn radix_val(s: Seq<u8>, radix: int) -> int
    decreases s.len(),
{
    if s.len() == 0 {
        0
    } else {
        radix_val(s.drop_last(), radix) * radix + digit_val(s.last())
    }
}

proof fn lemma_radix_val_nonneg(s: Seq<u8>, radix: int)
    requires
        radix >= 2,
        all_digits(s, radix),
    ensures
        radix_val(s, radix) >= 0,
    decreases s.len(),
{
    if s.len() > 0 {
        let t = s.drop_last();
        assert(forall|i: int| 0 <= i < t.len() ==> 0 <= digit_val(#[trigger] t[i]) < radix);
        lemma_radix_val_nonneg(t, radix);
        assert(radix_val(t, radix) * radix >= 0) by (nonlinear_arith)
            requires
                radix_val(t, radix) >= 0 && radix >= 2,
        ;
    }
}

proof fn lemma_radix_val_prefix(s: Seq<u8>, radix: int, k: int)
    requires
        radix >= 2,
        all_digits(s, radix),
        0 <= k <= s.len(),
    ensures
        radix_val(s.take(k), radix) <= radix_val(s, radix),
    decreases s.len() - k,
{
    if k == s.len() {
        assert(s.take(k) =~= s);
    } else {
        let a = s.take(k);
        let b = s.take(k + 1);
        assert(b.drop_last() =~= a);
        assert(forall|i: int| 0 <= i < b.len() ==> 0 <= digit_val(#[trigger] b[i]) < radix);
        assert(forall|i: int| 0 <= i < a.len() ==> 0 <= digit_val(#[trigger] a[i]) < radix);
        lemma_radix_val_nonneg(a, radix);
        assert(radix_val(b, radix) == radix_val(a, radix) * radix + digit_val(b.last()));
        assert(radix_val(a, radix) * radix >= radix_val(a, radix)) by (nonlinear_arith)
            requires
                radix_val(a, radix) >= 0 && radix >= 2,
        ;
        lemma_radix_val_prefix(s, radix, k + 1);
    }
}

/// `s` with one leading plus sign removed.
pub open spec fn strip_plus(s: Seq<u8>) -> Seq<u8> {
    if s.len() >= 1 && s[0] == 43 {
        s.drop_first()
    } else {
        s
    }
}

/// The radix the trimmed literal's prefix selects.
pub open spec fn prefix_radix(t: Seq<u8>) -> int {
    if t.len() >= 2 && t[0] == 48 && (t[1] == 120 || t[1] == 88) {
        16
    } else if t.len() >= 2 && t[0] == 48 && (t[1] == 111 || t[1] == 79) {
        8
    } else if t.len() >= 2 && t[0] == 48 && (t[1] == 98 || t[1] == 66) {
        2
    } else {
        10
    }
}

/// The trimmed literal with its radix prefix removed.
pub open spec fn prefix_rest(t: Seq<u8>) -> Seq<u8> {
    if prefix_radix(t) == 10 {
        t
    } else {
        t.skip(2)
    }
}

/// The digit string of a literal: trim, strip the radix prefix, trim again,
/// strip one plus sign.
pub open spec fn parsed_digits(s: Seq<u8>) -> Seq<u8> {
    strip_plus(trim_spec(prefix_rest(trim_spec(s))))
}

/// The radix of a literal.
pub open spec fn parsed_radix(s: Seq<u8>) -> int {
    prefix_radix(trim_spec(s))
}

/// Whether the literal is a valid unsigned integer no greater than `max`.
pub open spec fn parse_ok(s: Seq<u8>, max: int) -> bool {
    &&& parsed_digits(s).len() > 0
    &&& all_digits(parsed_digits(s), parsed_radix(s))
    &&& radix_val(parsed_digits(s), parsed_radix(s)) <= max
}

/// The value of a valid literal.
pub open spec fn parsed_val(s: Seq<u8>) -> int {
    radix_val(parsed_digits(s), parsed_radix(s))
}

/// The numeric value of one digit byte, where it is a digit at all.
fn digit_of(b: u8) -> (r: Option<u8>)
    ensures
        r is Some <==> digit_val(b) >= 0,
        r is Some ==> r->0 == digit_val(b),
{
    if 48 <= b && b <= 57 {
        Some(b - 48)
    } else if 97 <= b && b <= 122 {
        Some(b - 87)
    } else if 65 <= b && b <= 90 {
        Some(b - 55)
    } else {
        None
    }
}

/// Accumulate a digit string of the radix into a value of at most `max`:
/// succeeds exactly on a nonempty all-digit string whose value fits.
pub(crate) fn accumulate_digits(digits: &[u8], radix: u64, max: u64) -> (r: Result<u64, ()>)
    requires
        radix == 2 || radix == 8 || radix == 10 || radix == 16,
    ensures
        r is Ok <==> digits@.len() > 0 && all_digits(digits@, radix as int) && radix_val(
            digits@,
            radix as int,
        ) <= max as int,
        r is Ok ==> r->Ok_0 == radix_val(digits@, radix as int),
{
    let n = digits.len();
    if n == 0 {
        return Err(());
    }
    let mut v: u64 = 0;
    let mut i: usize = 0;
    while i < n
        invariant
            radix == 2 || radix == 8 || radix == 10 || radix == 16,
            n == digits@.len(),
            n >= 1,
            i <= n,
            all_digits(digits@.take(i as int), radix as int),
            v == radix_val(digits@.take(i as int), radix as int),
            v <= max,
        decreases n - i,
    {
        let d = match digit_of(digits[i]) {
            Some(d) => d,
            None => {
                proof {
                    assert(digit_val(digits@[i as int]) < 0);
                    assert(!all_digits(digits@, radix as int));
                }
                return Err(());
            },
        };
        if d as u64 >= radix {
            proof {
                assert(!all_digits(digits@, radix as int));
            }
            return Err(());
        }
        if v > max / radix {
            proof {
                vstd::arithmetic::div_mod::lemma_fundamental_div_mod(max as int, radix as int);
                assert((v as int) * (radix as int) > max as int) by (nonlinear_arith)
                    requires
                        v as int >= max as int / radix as int + 1,
                        max as int == radix as int * (max as int / radix as int) + (max as int
                            % radix as int),
                        0 <= (max as int % radix as int) && (max as int % radix as int) < radix as int,
                        radix as int >= 2,
                ;
                if all_digits(digits@, radix as int) {
                    let b = digits@.take(i + 1);
                    assert(b.drop_last() =~= digits@.take(i as int));
                    assert(radix_val(b, radix as int) == (v as int) * (radix as int) + digit_val(
                        digits@[i as int],
                    ));
                    lemma_radix_val_prefix(digits@, radix as int, i + 1);
                    assert(radix_val(digits@, radix as int) > max as int);
                }
            }
            return Err(());
        }
        proof {
            vstd::arithmetic::div_mod::lemma_fundamental_div_mod(max as int, radix as int);
            assert((v as int) * (radix as int) <= max as int) by (nonlinear_arith)
                requires
                    0 <= v as int <= max as int / radix as int,
                    max as int == radix as int * (max as int / radix as int) + (max as int
                        % radix as int),
                    0 <= (max as int % radix as int),
                    radix as int >= 2,
            ;
        }
        let w = v * radix;
        if d as u64 > max - w {
            proof {
                if all_digits(digits@, radix as int) {
                    let b = digits@.take(i + 1);
                    assert(b.drop_last() =~= digits@.take(i as int));
                    assert(radix_val(b, radix as int) == (w as int) + digit_val(
                        digits@[i as int],
                    ));
                    lemma_radix_val_prefix(digits@, radix as int, i + 1);
                    assert(radix_val(digits@, radix as int) > max as int);
                }
            }
            return Err(());
        }
        v = w + d as u64;
        proof {
            let b = digits@.take(i + 1);
            assert(b.drop_last() =~= digits@.take(i as int));
            assert(b.last() == digits@[i as int]);
            assert(v == radix_val(b, radix as int));
            assert(forall|j: int|
                0 <= j < i + 1 ==> 0 <= digit_val(#[trigger] digits@.take(i + 1)[j])
                    < radix as int);
        }
        i = i + 1;
    }
    proof {
        assert(digits@.take(n as int) =~= digits@);
    }
    Ok(v)
}

/// Parse an unsigned integer literal out of raw bytes: succeeds exactly on a
/// trimmed, optionally prefixed, nonempty digit string whose value is at most
/// `max`, and then yields that value.
pub fn parse_uint_bytes(s: &[u8], max: u64) -> (r: Result<u64, ()>)
    ensures
        r is Ok <==> parse_ok(s@, max as int),
        r is Ok ==> r->Ok_0 == parsed_val(s@),
{
    let (lo, hi) = trim_bounds(s);
    let t = slice_subrange(s, lo, hi);
    let (radix, di): (u64, usize) = if t.len() >= 2 && t[0] == 48 && (t[1] == 120 || t[1] == 88) {
        (16, 2)
    } else if t.len() >= 2 && t[0] == 48 && (t[1] == 111 || t[1] == 79) {
        (8, 2)
    } else if t.len() >= 2 && t[0] == 48 && (t[1] == 98 || t[1] == 66) {
        (2, 2)
    } else {
        (10, 0)
    };
    proof {
        assert(radix == prefix_radix(t@));
    }
    let rest = slice_subrange(t, di, t.len());
    proof {
        assert(rest@ =~= prefix_rest(t@));
    }
    let (lo2, hi2) = trim_bounds(rest);
    let t2 = slice_subrange(rest, lo2, hi2);
    let digits = if t2.len() >= 1 && t2[0] == 43 {
        slice_subrange(t2, 1, t2.len())
    } else {
        t2
    };
    proof {
        assert(t2@.skip(1) =~= t2@.drop_first());
        assert(digits@ == parsed_digits(s@));
    }
    accumulate_digits(digits, radix, max)
}

/// Parse a register-sized unsigned value: the literal must fit the register's
/// width of 1, 2, 4 or 8 bytes, and the result is the matching variant.
pub fn parse_uint(input: &str, size: usize) -> (r: DrbugResult<RegisterValue>)
    ensures
        !(size == 1 || size == 2 || size == 4 || size == 8) ==> r == Err::<
            RegisterValue,
            DrbugError,
        >(DrbugError::InvalidRegisterSize(size)),
        size == 1 ==> (r is Ok <==> parse_ok(input.spec_bytes(), 0xff)) && (r is Ok ==> r->Ok_0
            == RegisterValue::U8(parsed_val(input.spec_bytes()) as u8)),
        size == 2 ==> (r is Ok <==> parse_ok(input.spec_bytes(), 0xffff)) && (r is Ok ==> r->Ok_0
            == RegisterValue::U16(parsed_val(input.spec_bytes()) as u16)),
        size == 4 ==> (r is Ok <==> parse_ok(input.spec_bytes(), 0xffff_ffff)) && (r is Ok
            ==> r->Ok_0 == RegisterValue::U32(parsed_val(input.spec_bytes()) as u32)),
        size == 8 ==> (r is Ok <==> parse_ok(input.spec_bytes(), u64::MAX as int)) && (r is Ok
            ==> r->Ok_0 == RegisterValue::U64(parsed_val(input.spec_bytes()) as u64)),
        (size == 1 || size == 2 || size == 4 || size == 8) && r is Err ==> r->Err_0 is Parse,
    {
    let b = input.as_bytes();
    if size == 1 {
        match parse_uint_bytes(b, 0xff) {
            Ok(v) => Ok(RegisterValue::U8(v as u8)),
            Err(_) => Err(DrbugError::Parse(input.to_owned())),
        }
    } else if size == 2 {
        match parse_uint_bytes(b, 0xffff) {
            Ok(v) => Ok(RegisterValue::U16(v as u16)),
            Err(_) => Err(DrbugError::Parse(input.to_owned())),
        }
    } else if size == 4 {
        match parse_uint_bytes(b, 0xffff_ffff) {
            Ok(v) => Ok(RegisterValue::U32(v as u32)),
            Err(_) => Err(DrbugError::Parse(input.to_owned())),
        }
    } else if size == 8 {
        match parse_uint_bytes(b, u64::MAX) {
            Ok(v) => Ok(RegisterValue::U64(v)),
            Err(_) => Err(DrbugError::Parse(input.to_owned())),
        }
    } else {
        Err(DrbugError::InvalidRegisterSize(size))
    }
}


/// The comma-separated segments of `s`, in order; an empty string is one
/// empty segment.
pub open spec fn split_commas(s: Seq<u8>) -> Seq<Seq<u8>>
    decreases s.len(),
{
    if s.len() == 0 {
        seq![s]
    } else if s[0] == 44 {
        seq![Seq::<u8>::empty()] + split_commas(s.drop_first())
    } else {
        let rest = split_commas(s.drop_first());
        seq![seq![s[0]] + rest[0]] + rest.drop_first()
    }
}

proof fn lemma_split_nonempty(s: Seq<u8>)
    ensures
        split_commas(s).len() >= 1,
    decreases s.len(),
{
    if s.len() > 0 {
        lemma_split_nonempty(s.drop_first());
    }
}

proof fn lemma_split_no_comma(s: Seq<u8>)
    requires
        forall|j: int| 0 <= j < s.len() ==> s[j] != 44,
    ensures
        split_commas(s) == seq![s],
    decreases s.len(),
{
    if s.len() > 0 {
        let t = s.drop_first();
        lemma_split_no_comma(t);
        assert(split_commas(s) == seq![seq![s[0]] + t] + split_commas(t).drop_first());
        assert(seq![s[0]] + t =~= s);
        assert(split_commas(t).drop_first() =~= Seq::<Seq<u8>>::empty());
        assert(split_commas(s) =~= seq![s]);
    }
}

proof fn lemma_split_at_comma(s: Seq<u8>, k: int)
    requires
        0 <= k < s.len(),
        s[k] == 44,
        forall|j: int| 0 <= j < k ==> s[j] != 44,
    ensures
        split_commas(s) == seq![s.take(k)] + split_commas(s.skip(k + 1)),
    decreases k,
{
    if k == 0 {
        assert(s.take(0) =~= Seq::<u8>::empty());
        assert(s.skip(1) =~= s.drop_first());
        assert(split_commas(s) =~= seq![s.take(0)] + split_commas(s.skip(1)));
    } else {
        let t = s.drop_first();
        assert(forall|j: int| 0 <= j < k - 1 ==> t[j] != 44);
        assert(t[k - 1] == 44);
        lemma_split_at_comma(t, k - 1);
        lemma_split_nonempty(t.skip(k));
        assert(t.take(k - 1) =~= s.take(k).drop_first());
        assert(t.skip(k) =~= s.skip(k + 1));
        let rest = split_commas(t);
        assert(rest == seq![t.take(k - 1)] + split_commas(t.skip(k)));
        assert(rest[0] == t.take(k - 1));
        assert(seq![s[0]] + rest[0] =~= s.take(k));
        assert(rest.drop_first() =~= split_commas(t.skip(k)));
        assert(split_commas(s) =~= seq![s.take(k)] + split_commas(s.skip(k + 1)));
    }
}

/// The views of a list of byte vectors.
pub open spec fn views_of(v: Seq<Vec<u8>>) -> Seq<Seq<u8>> {
    v.map_values(|x: Vec<u8>| x@)
}

/// Split a byte string at its commas.
fn split_segments(s: &[u8]) -> (r: Vec<Vec<u8>>)
    ensures
        views_of(r@) == split_commas(s@),
{
    let n = s.len();
    let mut segs: Vec<Vec<u8>> = Vec::new();
    let mut start: usize = 0;
    let mut i: usize = 0;
    proof {
        assert(views_of(segs@) =~= Seq::<Seq<u8>>::empty());
        assert(s@.skip(0) =~= s@);
        assert(views_of(segs@) + split_commas(s@) =~= split_commas(s@));
    }
    while i < n
        invariant
            n == s@.len(),
            start <= i <= n,
            split_commas(s@) == views_of(segs@) + split_commas(s@.skip(start as int)),
            forall|j: int| start <= j < i ==> s@[j] != 44,
        decreases n - i,
    {
        if s[i] == 44 {
            let seg = vstd::slice::slice_to_vec(slice_subrange(s, start, i));
            let ghost pre = segs@;
            segs.push(seg);
            proof {
                let tail = s@.skip(start as int);
                assert(forall|j: int| 0 <= j < i - start ==> tail[j] != 44);
                assert(tail[i - start] == 44);
                lemma_split_at_comma(tail, i - start);
                assert(tail.take(i - start) =~= s@.subrange(start as int, i as int));
                assert(tail.skip(i - start + 1) =~= s@.skip(i + 1));
                assert(views_of(segs@) =~= views_of(pre).push(seg@));
                assert(views_of(segs@) + split_commas(s@.skip(i + 1)) =~= views_of(pre) + (seq![
                    seg@,
                ] + split_commas(s@.skip(i + 1))));
            }
            start = i + 1;
        }
        i = i + 1;
    }
    let seg = vstd::slice::slice_to_vec(slice_subrange(s, start, n));
    let ghost pre = segs@;
    segs.push(seg);
    proof {
        let tail = s@.skip(start as int);
        assert(forall|j: int| 0 <= j < tail.len() ==> tail[j] != 44);
        lemma_split_no_comma(tail);
        assert(tail =~= s@.subrange(start as int, n as int));
        assert(views_of(segs@) =~= views_of(pre).push(seg@));
        assert(views_of(segs@) =~= views_of(pre) + seq![seg@]);
    }
    segs
}

/// Whether a vector literal is well formed for `count` elements: brackets
/// around comma-separated byte literals, `count` of them.
pub open spec fn vector_literal_ok(s: Seq<u8>, count: int) -> bool {
    let t = trim_spec(s);
    &&& t.len() >= 2
    &&& t[0] == 91
    &&& t.last() == 93
    &&& split_commas(t.subrange(1, t.len() - 1)).len() == count
    &&& forall|i: int|
        0 <= i < count ==> parse_ok(#[trigger] split_commas(t.subrange(1, t.len() - 1))[i], 0xff)
}

/// The bytes a well-formed vector literal denotes.
pub open spec fn vector_literal_bytes(s: Seq<u8>, count: int) -> Seq<u8> {
    let t = trim_spec(s);
    Seq::new(
        count as nat,
        |i: int| parsed_val(split_commas(t.subrange(1, t.len() - 1))[i]) as u8,
    )
}

/// Parse the byte elements of a bracketed vector literal; fails unless every
/// element is a byte literal.
fn parse_vector_elems(inner: &[u8]) -> (r: Result<Vec<u8>, ()>)
    ensures
        r is Ok <==> forall|i: int|
            0 <= i < split_commas(inner@).len() ==> parse_ok(
                #[trigger] split_commas(inner@)[i],
                0xff,
            ),
        r is Ok ==> r->Ok_0@.len() == split_commas(inner@).len() && forall|i: int|
            0 <= i < split_commas(inner@).len() ==> r->Ok_0@[i] == parsed_val(
                #[trigger] split_commas(inner@)[i],
            ) as u8,
{
    let segs = split_segments(inner);
    let mut out: Vec<u8> = Vec::new();
    let n = segs.len();
    let mut i: usize = 0;
    while i < n
        invariant
            views_of(segs@) == split_commas(inner@),
            n == segs@.len(),
            i <= n,
            out@.len() == i,
            forall|j: int| 0 <= j < i ==> parse_ok(#[trigger] split_commas(inner@)[j], 0xff),
            forall|j: int|
                0 <= j < i ==> out@[j] == parsed_val(#[trigger] split_commas(inner@)[j]) as u8,
        decreases n - i,
    {
        proof {
            assert(segs@[i as int]@ == split_commas(inner@)[i as int]);
        }
        match parse_uint_bytes(segs[i].as_slice(), 0xff) {
            Ok(v) => {
                out.push(v as u8);
            },
            Err(_) => {
                return Err(());
            },
        }
        i = i + 1;
    }
    Ok(out)
}

/// Parse a vector literal `[b0, b1, ...]` for a vector register of 8 or 16
/// bytes; each element follows the integer rule, and the element count must
/// match the register's width.
pub fn parse_vector(input: &str, size: usize) -> (r: DrbugResult<RegisterValue>)
    ensures
        r is Ok <==> (size == 8 || size == 16) && vector_literal_ok(
            input.spec_bytes(),
            size as int,
        ),
        size == 8 && r is Ok ==> (r->Ok_0 matches RegisterValue::B64(a) && a@
            == vector_literal_bytes(input.spec_bytes(), 8)),
        size == 16 && r is Ok ==> (r->Ok_0 matches RegisterValue::B128(a) && a@
            == vector_literal_bytes(input.spec_bytes(), 16)),
{
    let b = input.as_bytes();
    let (lo, hi) = trim_bounds(b);
    let t = slice_subrange(b, lo, hi);
    if t.len() < 2 || t[0] != 91 || t[t.len() - 1] != 93 {
        return Err(DrbugError::Parse(input.to_owned()));
    }
    let inner = slice_subrange(t, 1, t.len() - 1);
    proof {
        assert(inner@ =~= trim_spec(b@).subrange(1, trim_spec(b@).len() - 1));
    }
    let vals = match parse_vector_elems(inner) {
        Ok(v) => v,
        Err(_) => {
            return Err(DrbugError::Parse(input.to_owned()));
        },
    };
    if size == 8 {
        if vals.len() != 8 {
            return Err(DrbugError::Parse(input.to_owned()));
        }
        let a: [u8; 8] = [vals[0], vals[1], vals[2], vals[3], vals[4], vals[5], vals[6], vals[7]];
        proof {
            assert(a@ =~= vector_literal_bytes(input.spec_bytes(), 8));
        }
        Ok(RegisterValue::B64(a))
    } else if size == 16 {
        if vals.len() != 16 {
            return Err(DrbugError::Parse(input.to_owned()));
        }
        let a: [u8; 16] = [
            vals[0],
            vals[1],
            vals[2],
            vals[3],
            vals[4],
            vals[5],
            vals[6],
            vals[7],
            vals[8],
            vals[9],
            vals[10],
            vals[11],
            vals[12],
            vals[13],
            vals[14],
            vals[15],
        ];
        proof {
            assert(a@ =~= vector_literal_bytes(input.spec_bytes(), 16));
        }
        Ok(RegisterValue::B128(a))
    } else {
        Err(DrbugError::InvalidRegisterSize(size))
    }
}

/// Parse a bare comma-separated list of byte literals, as the shell's memory
/// write takes its data.
pub fn parse_bytes(input: &str) -> (r: DrbugResult<Vec<u8>>)
    ensures
        r is Ok <==> forall|i: int|
            0 <= i < split_commas(input.spec_bytes()).len() ==> parse_ok(
                #[trigger] split_commas(input.spec_bytes())[i],
                0xff,
            ),
        r is Ok ==> r->Ok_0@.len() == split_commas(input.spec_bytes()).len() && forall|i: int|
            0 <= i < split_commas(input.spec_bytes()).len() ==> r->Ok_0@[i] == parsed_val(
                #[trigger] split_commas(input.spec_bytes())[i],
            ) as u8,
{
    match parse_vector_elems(input.as_bytes()) {
        Ok(v) => Ok(v),
        Err(_) => Err(DrbugError::Parse(input.to_owned())),
    }
}

/// Whether two strings hold the same characters.
pub fn str_eq(a: &str, b: &str) -> (r: bool)
    ensures
        r == (a@ == b@),
{
    broadcast use vstd::utf8::encode_utf8_decode_utf8;

    let ab = a.as_bytes();
    let bb = b.as_bytes();
    if ab.len() != bb.len() {
        proof {
            assert(a.spec_bytes() != b.spec_bytes());
            assert(a@ != b@);
        }
        return false;
    }
    let n = ab.len();
    let mut i: usize = 0;
    while i < n
        invariant
            n == ab@.len() == bb@.len(),
            ab@ == a.spec_bytes(),
            bb@ == b.spec_bytes(),
            i <= n,
            forall|j: int| 0 <= j < i ==> ab@[j] == bb@[j],
        decreases n - i,
    {
        if ab[i] != bb[i] {
            proof {
                assert(a.spec_bytes() != b.spec_bytes());
                assert(a@ != b@);
            }
            return false;
        }
        i = i + 1;
    }
    proof {
        assert(a.spec_bytes() =~= b.spec_bytes());
        assert(vstd::utf8::decode_utf8(vstd::utf8::encode_utf8(a@)) == a@);
        assert(vstd::utf8::decode_utf8(vstd::utf8::encode_utf8(b@)) == b@);
        assert(a@ == b@);
    }
    true
}

} // verus!
