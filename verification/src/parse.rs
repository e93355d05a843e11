//! Byte-level parsers for the configuration surface.
//!
//! The hypervisor reads a handful of textual inputs: decimal numbers (CPU
//! counts, debug ports), dotted-quad IPv4 addresses for the network
//! configuration, and the kernel's transparent-hugepage state file.  Each
//! parser here is total over arbitrary bytes and proved equal to a spec-level
//! grammar, so callers know exactly which inputs are accepted and what value
//! they denote.

use vstd::prelude::*;

verus! {

/// ASCII digit.
pub open spec fn is_digit(c: u8) -> bool {
    48 <= c <= 57
}

/// Every byte of `s` is an ASCII digit.
pub open spec fn all_digits(s: Seq<u8>) -> bool {
    forall|i: int| 0 <= i < s.len() ==> is_digit(#[trigger] s[i])
}

/// The number a string of digits denotes, most significant first.
pub open spec fn dec_value(s: Seq<u8>) -> int
    decreases s.len(),
{
    if s.len() == 0 {
        0
    } else {
        dec_value(s.drop_last()) * 10 + (s.last() - 48)
    }
}

/// A digit string denotes a non-negative number.
pub proof fn lemma_dec_value_nonneg(s: Seq<u8>)
    requires
        all_digits(s),
    ensures
        dec_value(s) >= 0,
    decreases s.len(),
{
    if s.len() > 0 {
        assert(all_digits(s.drop_last()));
        lemma_dec_value_nonneg(s.drop_last());
    }
}

/// Extending a digit string never shrinks its value.
pub proof fn lemma_dec_value_prefix_le(s: Seq<u8>, i: int, j: int)
    requires
        all_digits(s),
        0 <= i <= j <= s.len(),
    ensures
        dec_value(s.take(i)) <= dec_value(s.take(j)),
    decreases j - i,
{
    if i < j {
        lemma_dec_value_prefix_le(s, i, j - 1);
        let t = s.take(j);
        assert(t.drop_last() =~= s.take(j - 1));
        assert(all_digits(s.take(j - 1)));
        lemma_dec_value_nonneg(s.take(j - 1));
    }
}

/// Parse the decimal number in `s[start..end]`.
///
/// Returns the denoted value exactly when the range is a non-empty digit
/// string whose value fits in a `u64`.
pub fn parse_dec_range(s: &Vec<u8>, start: usize, end: usize) -> (r: Option<u64>)
    requires
        start <= end <= s@.len(),
    ensures
        r is Some <==> (start < end && all_digits(s@.subrange(start as int, end as int))
            && dec_value(s@.subrange(start as int, end as int)) <= u64::MAX),
        r matches Some(v) ==> v == dec_value(s@.subrange(start as int, end as int)),
{
    let ghost seg = s@.subrange(start as int, end as int);
    if start == end {
        return None;
    }
    let mut acc: u64 = 0;
    let mut i: usize = start;
    while i < end
        invariant
            start <= i <= end <= s@.len(),
            seg == s@.subrange(start as int, end as int),
            all_digits(seg.take(i - start)),
            acc == dec_value(seg.take(i - start)),
        decreases end - i,
    {
        let c = s[i];
        proof {
            assert(seg[i - start] == c);
        }
        if c < 48 || c > 57 {
            proof {
                assert(!is_digit(seg[i - start]));
            }
            return None;
        }
        let d = (c - 48) as u64;
        proof {
            assert(seg.take(i - start + 1).drop_last() =~= seg.take(i - start));
        }
        let shifted = match acc.checked_mul(10) {
            Some(m) => m,
            None => {
                proof {
                    if all_digits(seg) {
                        assert(dec_value(seg.take(i - start + 1)) == acc * 10 + (c - 48));
                        lemma_dec_value_prefix_le(seg, i - start + 1, seg.len() as int);
                        assert(seg.take(seg.len() as int) =~= seg);
                    }
                }
                return None;
            },
        };
        acc = match shifted.checked_add(d) {
            Some(v) => v,
            None => {
                proof {
                    if all_digits(seg) {
                        assert(dec_value(seg.take(i - start + 1)) == acc * 10 + (c - 48));
                        lemma_dec_value_prefix_le(seg, i - start + 1, seg.len() as int);
                        assert(seg.take(seg.len() as int) =~= seg);
                    }
                }
                return None;
            },
        };
        i = i + 1;
    }
    proof {
        assert(seg.take(seg.len() as int) =~= seg);
    }
    Some(acc)
}

/// Parse a whole byte string as a decimal `u64`.
pub fn parse_dec_u64(s: &Vec<u8>) -> (r: Option<u64>)
    ensures
        r is Some <==> (s@.len() > 0 && all_digits(s@) && dec_value(s@) <= u64::MAX),
        r matches Some(v) ==> v == dec_value(s@),
{
    let r = parse_dec_range(s, 0, s.len());
    proof {
        assert(s@.subrange(0, s@.len() as int) =~= s@);
    }
    r
}

/// Parse a whole byte string as a decimal `u16`, as the debug-port option
/// takes one.
pub fn parse_dec_u16(s: &Vec<u8>) -> (r: Option<u16>)
    ensures
        r is Some <==> (s@.len() > 0 && all_digits(s@) && dec_value(s@) <= u16::MAX),
        r matches Some(v) ==> v == dec_value(s@),
{
    match parse_dec_u64(s) {
        Some(v) => {
            if v <= u16::MAX as u64 {
                Some(v as u16)
            } else {
                None
            }
        },
        None => None,
    }
}

/// Index of the first occurrence of `c` in `s`, or `s.len()` when absent.
pub open spec fn first_index_of(s: Seq<u8>, c: u8) -> int
    decreases s.len(),
{
    if s.len() == 0 {
        0
    } else if s[0] == c {
        0
    } else {
        1 + first_index_of(s.skip(1), c)
    }
}

/// `first_index_of` is pinned down by what a scan observes: no hit before
/// `k`, and a hit at `k` unless the string ends there.
pub proof fn lemma_first_index_of(s: Seq<u8>, c: u8, k: int)
    requires
        0 <= k <= s.len(),
        forall|j: int| 0 <= j < k ==> s[j] != c,
        k < s.len() ==> s[k] == c,
    ensures
        first_index_of(s, c) == k,
    decreases k,
{
    if s.len() == 0 {
    } else if k == 0 {
    } else {
        assert(s[0] != c);
        lemma_first_index_of(s.skip(1), c, k - 1);
    }
}

/// Scan `s[start..end]` for the first `c`; returns its index, or `end`.
pub fn find_byte(s: &Vec<u8>, start: usize, end: usize, c: u8) -> (r: usize)
    requires
        start <= end <= s@.len(),
    ensures
        start <= r <= end,
        r - start == first_index_of(s@.subrange(start as int, end as int), c),
        r < end ==> s@[r as int] == c,
        forall|j: int| start <= j < r ==> s@[j] != c,
{
    let ghost seg = s@.subrange(start as int, end as int);
    let mut i: usize = start;
    while i < end
        invariant
            start <= i <= end <= s@.len(),
            seg == s@.subrange(start as int, end as int),
            forall|j: int| start <= j < i ==> s@[j] != c,
        decreases end - i,
    {
        if s[i] == c {
            proof {
                assert(forall|j: int| 0 <= j < i - start ==> seg[j] == s@[start + j] && s@[start
                    + j] != c);
                lemma_first_index_of(seg, c, i - start);
            }
            return i;
        }
        i = i + 1;
    }
    proof {
        assert(forall|j: int| 0 <= j < end - start ==> seg[j] == s@[start + j] && s@[start + j]
            != c);
        lemma_first_index_of(seg, c, (end - start) as int);
    }
    end
}

/// An IPv4 address as four plain octets, the shape the `NETINFO` hypercall
/// hands to the guest.
#[derive(Clone, Copy, Debug, PartialEq, Eq, Structural)]
pub struct Ipv4 {
    pub a: u8,
    pub b: u8,
    pub c: u8,
    pub d: u8,
}

/// A well-formed dotted-quad octet: one to three digits, value at most 255,
/// and no leading zero (so no octal ambiguity).
pub open spec fn valid_octet(s: Seq<u8>) -> bool {
    &&& 1 <= s.len() <= 3
    &&& all_digits(s)
    &&& dec_value(s) <= 255
    &&& (s.len() > 1 ==> s[0] != 48)
}

/// The dotted-quad grammar: four valid octets joined by exactly three dots.
pub open spec fn spec_parse_ipv4(s: Seq<u8>) -> Option<Ipv4> {
    let i = first_index_of(s, 46);
    if i >= s.len() {
        None
    } else {
        let s1 = s.skip(i + 1);
        let j = first_index_of(s1, 46);
        if j >= s1.len() {
            None
        } else {
            let s2 = s1.skip(j + 1);
            let k = first_index_of(s2, 46);
            if k >= s2.len() {
                None
            } else {
                let s3 = s2.skip(k + 1);
                if first_index_of(s3, 46) < s3.len() {
                    None
                } else if valid_octet(s.take(i)) && valid_octet(s1.take(j)) && valid_octet(
                    s2.take(k),
                ) && valid_octet(s3) {
                    Some(
                        Ipv4 {
                            a: dec_value(s.take(i)) as u8,
                            b: dec_value(s1.take(j)) as u8,
                            c: dec_value(s2.take(k)) as u8,
                            d: dec_value(s3) as u8,
                        },
                    )
                } else {
                    None
                }
            }
        }
    }
}

/// Parse the octet in `s[start..end]`.
fn parse_octet(s: &Vec<u8>, start: usize, end: usize) -> (r: Option<u8>)
    requires
        start <= end <= s@.len(),
    ensures
        r is Some <==> valid_octet(s@.subrange(start as int, end as int)),
        r matches Some(v) ==> v == dec_value(s@.subrange(start as int, end as int)),
{
    let ghost seg = s@.subrange(start as int, end as int);
    if end - start < 1 || end - start > 3 {
        return None;
    }
    if end - start > 1 && s[start] == 48 {
        proof {
            assert(seg[0] == 48);
        }
        return None;
    }
    match parse_dec_range(s, start, end) {
        Some(v) => {
            proof {
                if all_digits(seg) {
                    lemma_dec_value_nonneg(seg);
                }
            }
            if v <= 255 {
                Some(v as u8)
            } else {
                None
            }
        },
        None => {
            proof {
                if all_digits(seg) {
                    lemma_dec_value_nonneg(seg);
                    assert(seg.len() <= 3);
                    assert(dec_value(seg) <= u64::MAX) by {
                        lemma_dec_value_small(seg);
                    }
                }
            }
            None
        },
    }
}

/// Ten to the `n`.
spec fn pow10(n: nat) -> int
    decreases n,
{
    if n == 0 {
        1
    } else {
        10 * pow10((n - 1) as nat)
    }
}

/// A digit string of `n` digits denotes less than ten to the `n`.
proof fn lemma_dec_value_bound(s: Seq<u8>)
    requires
        all_digits(s),
    ensures
        dec_value(s) < pow10(s.len()),
    decreases s.len(),
{
    if s.len() > 0 {
        assert(all_digits(s.drop_last()));
        lemma_dec_value_bound(s.drop_last());
        lemma_dec_value_nonneg(s.drop_last());
    }
}

/// A digit string of at most three digits denotes at most 999.
proof fn lemma_dec_value_small(s: Seq<u8>)
    requires
        all_digits(s),
        s.len() <= 3,
    ensures
        dec_value(s) <= 999,
{
    lemma_dec_value_bound(s);
    assert(pow10(0) == 1);
    assert(pow10(1) == 10);
    assert(pow10(2) == 100);
    assert(pow10(3) == 1000);
}

/// Parse a dotted-quad IPv4 address, accepting exactly the strings of
/// [`spec_parse_ipv4`].
pub fn parse_ipv4(s: &Vec<u8>) -> (r: Option<Ipv4>)
    ensures
        r == spec_parse_ipv4(s@),
{
    let len = s.len();
    let ghost whole = s@;
    proof {
        assert(whole.subrange(0, len as int) =~= whole);
    }
    let i = find_byte(s, 0, len, 46);
    if i == len {
        return None;
    }
    let ghost s1 = whole.skip(i + 1);
    proof {
        assert(s1 =~= whole.subrange(i + 1, len as int));
    }
    let j = find_byte(s, i + 1, len, 46);
    proof {
        assert(j - (i + 1) == first_index_of(s1, 46));
    }
    if j == len {
        return None;
    }
    let ghost s2 = s1.skip(j - i);
    proof {
        assert(s2 =~= whole.subrange(j + 1, len as int));
    }
    let k = find_byte(s, j + 1, len, 46);
    proof {
        assert(k - (j + 1) == first_index_of(s2, 46));
    }
    if k == len {
        return None;
    }
    let ghost s3 = s2.skip(k - j);
    proof {
        assert(s3 =~= whole.subrange(k + 1, len as int));
    }
    let extra = find_byte(s, k + 1, len, 46);
    if extra < len {
        return None;
    }
    proof {
        assert(first_index_of(s3, 46) >= s3.len());
        assert(whole.take(i as int) =~= whole.subrange(0, i as int));
        assert(s1.take(j - (i + 1)) =~= whole.subrange(i + 1, j as int));
        assert(s2.take(k - (j + 1)) =~= whole.subrange(j + 1, k as int));
    }
    let oa = parse_octet(s, 0, i);
    let ob = parse_octet(s, i + 1, j);
    let oc = parse_octet(s, j + 1, k);
    let od = parse_octet(s, k + 1, len);
    match (oa, ob, oc, od) {
        (Some(a), Some(b), Some(c), Some(d)) => Some(Ipv4 { a, b, c, d }),
        _ => None,
    }
}

/// The bytes of the word "never".
pub open spec fn never_bytes() -> Seq<u8> {
    seq![110u8, 101u8, 118u8, 101u8, 114u8]
}

/// The transparent-hugepage state the kernel reports: the bracketed word in
/// the state file.  Hugepages are available unless that word is "never".
pub open spec fn spec_thp_enabled(s: Seq<u8>) -> Option<bool> {
    let i = first_index_of(s, 91);
    if i >= s.len() {
        None
    } else {
        let rest = s.skip(i + 1);
        let j = first_index_of(rest, 93);
        if j >= rest.len() {
            None
        } else {
            Some(rest.take(j) != never_bytes())
        }
    }
}

/// Decide transparent-hugepage availability from the state-file contents,
/// accepting exactly what [`spec_thp_enabled`] accepts.
pub fn parse_thp_enabled(s: &Vec<u8>) -> (r: Option<bool>)
    ensures
        r == spec_thp_enabled(s@),
{
    let len = s.len();
    let ghost whole = s@;
    proof {
        assert(whole.subrange(0, len as int) =~= whole);
    }
    let i = find_byte(s, 0, len, 91);
    if i == len {
        return None;
    }
    let ghost rest = whole.skip(i + 1);
    proof {
        assert(rest =~= whole.subrange(i + 1, len as int));
    }
    let j = find_byte(s, i + 1, len, 93);
    proof {
        assert(j - (i + 1) == first_index_of(rest, 93));
    }
    if j == len {
        return None;
    }
    let ghost sel = rest.take(j - (i + 1));
    proof {
        assert(never_bytes().len() == 5);
        assert(sel.len() == j - (i + 1));
    }
    if j - (i + 1) != 5 {
        proof {
            assert(sel != never_bytes());
        }
        return Some(true);
    }
    let mut matches_never = true;
    if s[i + 1] != 110 {
        matches_never = false;
    }
    if s[i + 2] != 101 {
        matches_never = false;
    }
    if s[i + 3] != 118 {
        matches_never = false;
    }
    if s[i + 4] != 101 {
        matches_never = false;
    }
    if s[i + 5] != 114 {
        matches_never = false;
    }
    proof {
        assert(sel.len() == 5);
        assert(sel[0] == whole[i + 1]);
        assert(sel[1] == whole[i + 2]);
        assert(sel[2] == whole[i + 3]);
        assert(sel[3] == whole[i + 4]);
        assert(sel[4] == whole[i + 5]);
        if whole[i + 1] == 110 && whole[i + 2] == 101 && whole[i + 3] == 118 && whole[i + 4] == 101
            && whole[i + 5] == 114 {
            assert(sel =~= never_bytes());
        }
    }
    Some(!matches_never)
}

} // verus!
