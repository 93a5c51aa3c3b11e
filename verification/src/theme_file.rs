//! Theme files in the iTerm2 color-list form: property-list text in
//! which each color entry is a dictionary with red, green and blue
//! components written as decimal fractions of one. The parser
//! extracts each known color slot into a `#rrggbb` hex string.
//!
//! Component values are evaluated in exact integer arithmetic: the
//! written decimal is clamped to `[0, 1]`, scaled to `0..=255`, and
//! rounded half away from zero; only the first twelve fraction digits
//! take part. Plain decimal forms are recognized; anything else (for
//! example scientific notation) leaves the color unset. Malformed
//! documents are never an error: whatever cannot be read is skipped.

use vstd::prelude::*;
use crate::text::{hex_digits, push_char, push_u8_hex};
use vstd::string::StringSliceAdditionalSpecFns;

verus! {

/// The number of fraction digits that take part in a component value.
pub const FRAC_DIGITS_MAX: usize = 12;

/// The first index at or after `from` where `nd` occurs in `h`.
pub open spec fn find_from(h: Seq<char>, nd: Seq<char>, from: int) -> Option<int>
    decreases h.len() - from,
{
    if from + nd.len() > h.len() {
        None
    } else if h.subrange(from, from + nd.len()) == nd {
        Some(from)
    } else if from >= h.len() {
        None
    } else {
        find_from(h, nd, from + 1)
    }
}

/// A decimal digit.
pub open spec fn is_digit(c: char) -> bool {
    '0' <= c && c <= '9'
}

/// Nothing but decimal digits.
pub open spec fn all_digits(s: Seq<char>) -> bool {
    forall|i: int| 0 <= i < s.len() ==> is_digit(#[trigger] s[i])
}

/// The number the digit string `s` writes.
pub open spec fn digits_val(s: Seq<char>) -> int
    decreases s.len(),
{
    if s.len() == 0 {
        0
    } else {
        digits_val(s.drop_last()) * 10 + (s.last() as int - '0' as int)
    }
}

/// Ten to the `k`.
pub open spec fn pow10(k: nat) -> int
    decreases k,
{
    if k == 0 {
        1
    } else {
        10 * pow10((k - 1) as nat)
    }
}

/// The byte a fraction `f / 10^k` of one selects on the 0..=255
/// scale, rounding half away from zero.
pub open spec fn round_fraction(f: int, k: nat) -> u8 {
    (((510 * f + pow10(k)) / (2 * pow10(k))) as u8)
}

/// The byte a whole number selects once clamped to `[0, 1]`.
pub open spec fn whole_byte(v: int) -> u8 {
    if v >= 1 {
        255
    } else {
        0
    }
}

/// The byte a nonnegative decimal (digits, with an optional point and
/// digits, at least one digit in all) selects; `None` for any other
/// form.
pub open spec fn decimal_byte_nonneg(s: Seq<char>) -> Option<u8> {
    match find_from(s, seq!['.'], 0) {
        None => if s.len() > 0 && all_digits(s) {
            Some(whole_byte(digits_val(s)))
        } else {
            None
        },
        Some(d) => {
            let ip = s.subrange(0, d);
            let fp = s.subrange(d + 1, s.len() as int);
            if (ip.len() > 0 || fp.len() > 0) && all_digits(ip) && all_digits(fp) {
                if digits_val(ip) >= 1 {
                    Some(255)
                } else {
                    let k = if fp.len() <= FRAC_DIGITS_MAX {
                        fp.len()
                    } else {
                        FRAC_DIGITS_MAX as nat
                    };
                    Some(round_fraction(digits_val(fp.take(k as int)), k))
                }
            } else {
                None
            }
        },
    }
}

/// The byte a decimal component selects: an optional minus (anything
/// valid below zero clamps to zero), then as in
/// [`decimal_byte_nonneg`].
pub open spec fn decimal_byte(s: Seq<char>) -> Option<u8> {
    if s.len() == 0 {
        None
    } else if s[0] == '-' {
        match decimal_byte_nonneg(s.drop_first()) {
            Some(_) => Some(0),
            None => None,
        }
    } else {
        decimal_byte_nonneg(s)
    }
}

/// The component byte for `pat` (say, the red component's key) inside
/// one color dictionary: from the key's first occurrence on, the text
/// between the first real tags — or, failing those, the first integer
/// tags — read as a decimal. Integer values go through the same
/// decimal reader.
pub open spec fn component_byte(dict: Seq<char>, pat: Seq<char>) -> Option<u8> {
    match find_from(dict, pat, 0) {
        None => None,
        Some(pos) => {
            let after = dict.skip(pos);
            match find_from(after, "<real>"@, 0) {
                Some(rs) => match find_from(after, "</real>"@, 0) {
                    Some(re) => if rs + "<real>"@.len() <= re {
                        decimal_byte(after.subrange(rs + "<real>"@.len(), re))
                    } else {
                        None
                    },
                    None => None,
                },
                None => match find_from(after, "<integer>"@, 0) {
                    Some(is_) => match find_from(after, "</integer>"@, 0) {
                        Some(ie) => if is_ + "<integer>"@.len() <= ie {
                            decimal_byte(after.subrange(is_ + "<integer>"@.len(), ie))
                        } else {
                            None
                        },
                        None => None,
                    },
                    None => None,
                },
            }
        },
    }
}

/// The hex text for color `key`: from the key entry's first
/// occurrence on, the first dictionary's red, green and blue
/// components as `#rrggbb`; `None` when the key, the dictionary or
/// any component is missing or unreadable.
pub open spec fn color_hex(content: Seq<char>, key: Seq<char>) -> Option<Seq<char>> {
    let pat = "<key>"@ + key + "</key>"@;
    match find_from(content, pat, 0) {
        None => None,
        Some(kp) => {
            let after = content.skip(kp);
            match find_from(after, "<dict>"@, 0) {
                None => None,
                Some(ds) => match find_from(after, "</dict>"@, 0) {
                    None => None,
                    Some(de) => if ds <= de + "</dict>"@.len() {
                        let dict = after.subrange(ds, de + "</dict>"@.len());
                        match (
                            component_byte(dict, "<key>Red Component</key>"@),
                            component_byte(dict, "<key>Green Component</key>"@),
                            component_byte(dict, "<key>Blue Component</key>"@),
                        ) {
                            (Some(r), Some(g), Some(b)) => Some(
                                seq!['#'] + hex_digits(r) + hex_digits(g) + hex_digits(b),
                            ),
                            _ => None,
                        }
                    } else {
                        None
                    },
                },
            }
        },
    }
}

/// Whether an extracted slot holds exactly the expected text.
pub open spec fn slot_matches(slot: Option<String>, expected: Option<Seq<char>>) -> bool {
    match (slot, expected) {
        (Some(s), Some(t)) => s@ == t,
        (None, None) => true,
        _ => false,
    }
}

/// A digit string writes zero exactly when all its digits are zero.
proof fn lemma_digits_zero(s: Seq<char>)
    requires
        all_digits(s),
    ensures
        digits_val(s) >= 0,
        (digits_val(s) == 0) <==> (forall|i: int| 0 <= i < s.len() ==> s[i] == '0'),
    decreases s.len(),
{
    if s.len() > 0 {
        assert(forall|i: int| 0 <= i < s.len() - 1 ==> #[trigger] s.drop_last()[i] == s[i]);
        assert(all_digits(s.drop_last()));
        lemma_digits_zero(s.drop_last());
        let d = s.last() as int - '0' as int;
        assert(0 <= d <= 9);
        if digits_val(s) == 0 {
            assert(digits_val(s.drop_last()) == 0 && d == 0);
            assert forall|i: int| 0 <= i < s.len() implies s[i] == '0' by {
                if i < s.len() - 1 {
                    assert(s[i] == s.drop_last()[i]);
                } else {
                    assert(s[i] == s.last());
                }
            }
        }
        if forall|i: int| 0 <= i < s.len() ==> s[i] == '0' {
            assert(forall|i: int| 0 <= i < s.len() - 1 ==> #[trigger] s.drop_last()[i] == '0');
            assert(digits_val(s.drop_last()) == 0);
            assert(s[s.len() - 1] == '0');
        }
    }
}

/// A digit string of length `n` writes less than ten to the `n`.
proof fn lemma_digits_bound(s: Seq<char>)
    requires
        all_digits(s),
    ensures
        0 <= digits_val(s) < pow10(s.len()),
    decreases s.len(),
{
    if s.len() > 0 {
        assert(forall|i: int| 0 <= i < s.len() - 1 ==> #[trigger] s.drop_last()[i] == s[i]);
        assert(all_digits(s.drop_last()));
        lemma_digits_bound(s.drop_last());
    }
}

/// The characters of `s`, in order.
fn str_chars(s: &str) -> (v: Vec<char>)
    ensures
        v@ == s@,
{
    let mut v: Vec<char> = Vec::new();
    let n = s.unicode_len();
    let mut i: usize = 0;
    while i < n
        invariant
            i <= n,
            n == s@.len(),
            v@ =~= s@.subrange(0, i as int),
        decreases n - i,
    {
        v.push(s.get_char(i));
        proof {
            assert(v@ =~= s@.subrange(0, i as int + 1));
        }
        i += 1;
    }
    proof {
        assert(v@ =~= s@);
    }
    v
}

/// Whether `nd` occurs in `h` at exactly `at`.
fn matches_at(h: &Vec<char>, nd: &Vec<char>, at: usize) -> (r: bool)
    requires
        at + nd@.len() <= h@.len(),
    ensures
        r == (h@.subrange(at as int, at as int + nd@.len() as int) == nd@),
{
    let hn = h.len();
    let m = nd.len();
    let mut j: usize = 0;
    while j < m
        invariant
            j <= m,
            m == nd@.len(),
            hn == h@.len(),
            at + m <= hn,
            forall|x: int| 0 <= x < j ==> h@[at + x] == nd@[x],
        decreases m - j,
    {
        if h[at + j] != nd[j] {
            proof {
                assert(h@.subrange(at as int, at as int + nd@.len() as int)[j as int] == h@[at
                    + j]);
            }
            return false;
        }
        j += 1;
    }
    proof {
        assert(h@.subrange(at as int, at as int + nd@.len() as int) =~= nd@);
    }
    true
}

/// The first occurrence of `nd` in `h` at or after `from`.
fn find_chars(h: &Vec<char>, nd: &Vec<char>, from: usize) -> (r: Option<usize>)
    ensures
        (match r {
            Some(i) => find_from(h@, nd@, from as int) == Some(i as int),
            None => find_from(h@, nd@, from as int) is None,
        }),
{
    let n = h.len();
    let m = nd.len();
    if from > n || m > n - from {
        return None;
    }
    if m == 0 {
        proof {
            assert(h@.subrange(from as int, from as int) =~= nd@);
        }
        return Some(from);
    }
    let mut i = from;
    while i <= n - m
        invariant
            from <= i,
            i <= n - m + 1,
            m >= 1,
            m <= n,
            n == h@.len(),
            m == nd@.len(),
            find_from(h@, nd@, from as int) == find_from(h@, nd@, i as int),
        decreases n - i,
    {
        if matches_at(h, nd, i) {
            return Some(i);
        }
        i += 1;
    }
    None
}

/// A successful find lies within bounds and matches there.
proof fn lemma_find_bounds(h: Seq<char>, nd: Seq<char>, from: int, i: int)
    requires
        find_from(h, nd, from) == Some(i),
    ensures
        from <= i,
        i + nd.len() <= h.len(),
        h.subrange(i, i + nd.len()) == nd,
    decreases h.len() - from,
{
    if from + nd.len() > h.len() {
    } else if h.subrange(from, from + nd.len()) == nd {
    } else if from >= h.len() {
    } else {
        lemma_find_bounds(h, nd, from + 1, i);
    }
}

/// Ten to the `k` is at least one.
proof fn lemma_pow10_pos(k: nat)
    ensures
        pow10(k) >= 1,
    decreases k,
{
    if k > 0 {
        lemma_pow10_pos((k - 1) as nat);
    }
}

/// Ten to the `k` never shrinks.
proof fn lemma_pow10_mono(j: nat, k: nat)
    requires
        j <= k,
    ensures
        1 <= pow10(j) <= pow10(k),
    decreases k,
{
    lemma_pow10_pos(j);
    if j < k {
        lemma_pow10_mono(j, (k - 1) as nat);
    }
}

/// Ten to the `k`, for `k` up to the kept fraction digits.
fn pow10_u64(k: usize) -> (p: u64)
    requires
        k <= FRAC_DIGITS_MAX,
    ensures
        p as int == pow10(k as nat),
        p >= 1,
{
    proof {
        reveal_with_fuel(pow10, 14);
    }
    if k == 0 {
        1
    } else if k == 1 {
        10
    } else if k == 2 {
        100
    } else if k == 3 {
        1000
    } else if k == 4 {
        10000
    } else if k == 5 {
        100000
    } else if k == 6 {
        1000000
    } else if k == 7 {
        10000000
    } else if k == 8 {
        100000000
    } else if k == 9 {
        1000000000
    } else if k == 10 {
        10000000000
    } else if k == 11 {
        100000000000
    } else {
        1000000000000
    }
}

/// Whether `v[a..b]` is all decimal digits.
fn check_all_digits(v: &Vec<char>, a: usize, b: usize) -> (r: bool)
    requires
        a <= b <= v@.len(),
    ensures
        r == all_digits(v@.subrange(a as int, b as int)),
{
    let mut i = a;
    while i < b
        invariant
            a <= i <= b <= v@.len(),
            forall|x: int| 0 <= x < i - a ==> is_digit(#[trigger] v@.subrange(a as int, b as int)[x]),
        decreases b - i,
    {
        let c = v[i];
        if c < '0' || c > '9' {
            proof {
                assert(v@.subrange(a as int, b as int)[i - a] == v@[i as int]);
            }
            return false;
        }
        proof {
            assert(v@.subrange(a as int, b as int)[i - a] == v@[i as int]);
        }
        i += 1;
    }
    true
}

/// Whether the digit string `v[a..b]` writes a number of one or more.
#[verifier::loop_isolation(false)]
fn digits_nonzero(v: &Vec<char>, a: usize, b: usize) -> (r: bool)
    requires
        a <= b <= v@.len(),
        all_digits(v@.subrange(a as int, b as int)),
    ensures
        r == (digits_val(v@.subrange(a as int, b as int)) >= 1),
{
    proof {
        lemma_digits_zero(v@.subrange(a as int, b as int));
    }
    let mut i = a;
    while i < b
        invariant
            a <= i <= b <= v@.len(),
            forall|x: int| 0 <= x < i - a ==> v@.subrange(a as int, b as int)[x] == '0',
        decreases b - i,
    {
        let c = v[i];
        proof {
            assert(v@.subrange(a as int, b as int)[i - a] == v@[i as int]);
        }
        if c != '0' {
            proof {
                if digits_val(v@.subrange(a as int, b as int)) == 0 {
                    assert(v@.subrange(a as int, b as int)[i - a] == '0');
                }
            }
            return true;
        }
        i += 1;
    }
    false
}

/// The number the digit string `v[a..b]` writes, for up to twelve
/// digits.
fn digits_value(v: &Vec<char>, a: usize, b: usize) -> (r: u64)
    requires
        a <= b <= v@.len(),
        b - a <= FRAC_DIGITS_MAX,
        all_digits(v@.subrange(a as int, b as int)),
    ensures
        r as int == digits_val(v@.subrange(a as int, b as int)),
{
    let mut r: u64 = 0;
    let mut i = a;
    while i < b
        invariant
            a <= i <= b <= v@.len(),
            b - a <= FRAC_DIGITS_MAX,
            all_digits(v@.subrange(a as int, b as int)),
            r as int == digits_val(v@.subrange(a as int, i as int)),
            (r as int) < pow10((i - a) as nat),
        decreases b - i,
    {
        let c = v[i];
        proof {
            assert(v@.subrange(a as int, b as int)[i - a] == v@[i as int]);
            lemma_pow10_mono((i - a) as nat, 12);
            reveal_with_fuel(pow10, 14);
            assert(r < 1000000000000);
            assert(v@.subrange(a as int, i as int + 1).drop_last() =~= v@.subrange(
                a as int,
                i as int,
            ));
            assert(forall|x: int|
                0 <= x < i + 1 - a ==> v@.subrange(a as int, i as int + 1)[x] == v@.subrange(
                    a as int,
                    b as int,
                )[x]);
        }
        let d = (c as u8) - 48;
        r = r * 10 + (d as u64);
        i += 1;
    }
    proof {
        assert(v@.subrange(a as int, b as int) =~= v@.subrange(a as int, i as int));
    }
    r
}

/// The byte a nonnegative decimal selects; see [`decimal_byte_nonneg`].
fn decimal_nonneg_of(t: &Vec<char>) -> (r: Option<u8>)
    ensures
        r == decimal_byte_nonneg(t@),
{
    let n = t.len();
    let mut dot: Vec<char> = Vec::new();
    dot.push('.');
    proof {
        assert(dot@ =~= seq!['.']);
    }
    match find_chars(t, &dot, 0) {
        None => {
            if n > 0 && check_all_digits(t, 0, n) {
                proof {
                    assert(t@.subrange(0, n as int) =~= t@);
                }
                if digits_nonzero(t, 0, n) {
                    Some(255)
                } else {
                    Some(0)
                }
            } else {
                proof {
                    assert(t@.subrange(0, n as int) =~= t@);
                }
                None
            }
        },
        Some(d) => {
            proof {
                lemma_find_bounds(t@, seq!['.'], 0, d as int);
            }
            let ip_ok = check_all_digits(t, 0, d);
            let fp_ok = check_all_digits(t, d + 1, n);
            if (d > 0 || d + 1 < n) && ip_ok && fp_ok {
                if d > 0 && digits_nonzero(t, 0, d) {
                    Some(255)
                } else {
                    proof {
                        if d == 0 {
                            assert(t@.subrange(0, 0).len() == 0);
                        }
                        lemma_digits_zero(t@.subrange(0, d as int));
                    }
                    let flen = n - (d + 1);
                    let k = if flen <= 12 {
                        flen
                    } else {
                        12
                    };
                    proof {
                        assert(t@.subrange(d as int + 1, d as int + 1 + k as int) =~= t@.subrange(
                            d as int + 1,
                            n as int,
                        ).take(k as int));
                        assert(forall|x: int|
                            0 <= x < k ==> #[trigger] t@.subrange(
                                d as int + 1,
                                d as int + 1 + k as int,
                            )[x] == t@.subrange(d as int + 1, n as int)[x]);
                    }
                    let f = digits_value(t, d + 1, d + 1 + k);
                    let p = pow10_u64(k);
                    proof {
                        lemma_digits_bound(t@.subrange(d as int + 1, d as int + 1 + k as int));
                        assert((510 * (f as int) + p as int) / (2 * (p as int)) < 256)
                            by (nonlinear_arith)
                            requires
                                0 <= (f as int) < (p as int),
                                (p as int) >= 1,
                        ;
                        assert((510 * (f as int) + p as int) / (2 * (p as int)) >= 0)
                            by (nonlinear_arith)
                            requires
                                0 <= (f as int),
                                (p as int) >= 1,
                        ;
                        reveal_with_fuel(pow10, 14);
                    }
                    let num: u64 = 510 * f + p;
                    let den: u64 = 2 * p;
                    Some((num / den) as u8)
                }
            } else {
                None
            }
        },
    }
}

/// The byte a decimal component selects; see [`decimal_byte`].
fn decimal_byte_of(t: &Vec<char>) -> (r: Option<u8>)
    ensures
        r == decimal_byte(t@),
{
    let n = t.len();
    if n == 0 {
        return None;
    }
    if t[0] == '-' {
        let rest = subvec(t, 1, n);
        proof {
            assert(rest@ =~= t@.drop_first());
        }
        match decimal_nonneg_of(&rest) {
            Some(_) => Some(0),
            None => None,
        }
    } else {
        decimal_nonneg_of(t)
    }
}

/// A copy of `v[a..b]`.
fn subvec(v: &Vec<char>, a: usize, b: usize) -> (r: Vec<char>)
    requires
        a <= b <= v@.len(),
    ensures
        r@ == v@.subrange(a as int, b as int),
{
    let mut r: Vec<char> = Vec::new();
    let mut i = a;
    while i < b
        invariant
            a <= i <= b <= v@.len(),
            r@ =~= v@.subrange(a as int, i as int),
        decreases b - i,
    {
        r.push(v[i]);
        proof {
            assert(r@ =~= v@.subrange(a as int, i as int + 1));
        }
        i += 1;
    }
    proof {
        assert(r@ =~= v@.subrange(a as int, b as int));
    }
    r
}

/// Append a copy of `src` to `dst`.
fn append_copy(dst: &mut Vec<char>, src: &Vec<char>)
    ensures
        final(dst)@ == old(dst)@ + src@,
{
    let n = src.len();
    let mut i: usize = 0;
    while i < n
        invariant
            i <= n,
            n == src@.len(),
            dst@ =~= old(dst)@ + src@.subrange(0, i as int),
        decreases n - i,
    {
        dst.push(src[i]);
        proof {
            assert(dst@ =~= old(dst)@ + src@.subrange(0, i as int + 1));
        }
        i += 1;
    }
    proof {
        assert(dst@ =~= old(dst)@ + src@);
    }
}

/// The component byte for `pat` in `dict`; see [`component_byte`].
fn component_byte_of(dict: &Vec<char>, pat: &Vec<char>) -> (r: Option<u8>)
    ensures
        r == component_byte(dict@, pat@),
{
    let dn = dict.len();
    match find_chars(dict, pat, 0) {
        None => None,
        Some(pos) => {
            proof {
                lemma_find_bounds(dict@, pat@, 0, pos as int);
            }
            let after = subvec(dict, pos, dn);
            proof {
                assert(after@ =~= dict@.skip(pos as int));
            }
            let an = after.len();
            let rtag = str_chars("<real>");
            let retag = str_chars("</real>");
            match find_chars(&after, &rtag, 0) {
                Some(rs) => match find_chars(&after, &retag, 0) {
                    Some(re) => {
                        proof {
                            lemma_find_bounds(after@, rtag@, 0, rs as int);
                            lemma_find_bounds(after@, retag@, 0, re as int);
                        }
                        if rs + rtag.len() <= re {
                            let val = subvec(&after, rs + rtag.len(), re);
                            decimal_byte_of(&val)
                        } else {
                            None
                        }
                    },
                    None => None,
                },
                None => {
                    let itag = str_chars("<integer>");
                    let ietag = str_chars("</integer>");
                    match find_chars(&after, &itag, 0) {
                        Some(is_) => match find_chars(&after, &ietag, 0) {
                            Some(ie) => {
                                proof {
                                    lemma_find_bounds(after@, itag@, 0, is_ as int);
                                    lemma_find_bounds(after@, ietag@, 0, ie as int);
                                }
                                if is_ + itag.len() <= ie {
                                    let val = subvec(&after, is_ + itag.len(), ie);
                                    decimal_byte_of(&val)
                                } else {
                                    None
                                }
                            },
                            None => None,
                        },
                        None => None,
                    }
                },
            }
        },
    }
}

/// The hex text for color `key` in `content`; see [`color_hex`].
fn color_hex_of(content: &Vec<char>, key: &Vec<char>) -> (r: Option<String>)
    ensures
        (match r {
            Some(s) => color_hex(content@, key@) == Some(s@),
            None => color_hex(content@, key@) is None,
        }),
{
    let mut pat = str_chars("<key>");
    append_copy(&mut pat, key);
    let suffix = str_chars("</key>");
    append_copy(&mut pat, &suffix);
    proof {
        assert(pat@ =~= "<key>"@ + key@ + "</key>"@);
    }
    let cn = content.len();
    match find_chars(content, &pat, 0) {
        None => None,
        Some(kp) => {
            proof {
                lemma_find_bounds(content@, pat@, 0, kp as int);
            }
            let after = subvec(content, kp, cn);
            proof {
                assert(after@ =~= content@.skip(kp as int));
            }
            let an = after.len();
            let dtag = str_chars("<dict>");
            let detag = str_chars("</dict>");
            match find_chars(&after, &dtag, 0) {
                None => None,
                Some(ds) => match find_chars(&after, &detag, 0) {
                    None => None,
                    Some(de) => {
                        proof {
                            lemma_find_bounds(after@, dtag@, 0, ds as int);
                            lemma_find_bounds(after@, detag@, 0, de as int);
                        }
                        if ds <= de + detag.len() {
                            let dict = subvec(&after, ds, de + detag.len());
                            let rpat = str_chars("<key>Red Component</key>");
                            let gpat = str_chars("<key>Green Component</key>");
                            let bpat = str_chars("<key>Blue Component</key>");
                            let rb = component_byte_of(&dict, &rpat);
                            let gb = component_byte_of(&dict, &gpat);
                            let bb = component_byte_of(&dict, &bpat);
                            match (rb, gb, bb) {
                                (Some(r), Some(g), Some(b)) => {
                                    let mut out = String::new();
                                    push_char(&mut out, '#');
                                    push_u8_hex(&mut out, r);
                                    push_u8_hex(&mut out, g);
                                    push_u8_hex(&mut out, b);
                                    proof {
                                        assert(out@ =~= seq!['#'] + hex_digits(r) + hex_digits(g)
                                            + hex_digits(b));
                                    }
                                    Some(out)
                                },
                                _ => None,
                            }
                        } else {
                            None
                        }
                    },
                },
            }
        },
    }
}

/// A color scheme read from a theme file: every slot optional, each a
/// `#rrggbb` hex string.
#[derive(Clone, Debug)]
pub struct ColorScheme {
    pub background: Option<String>,
    pub foreground: Option<String>,
    pub cursor: Option<String>,
    pub cursor_accent: Option<String>,
    pub selection_background: Option<String>,
    pub selection_foreground: Option<String>,
    pub black: Option<String>,
    pub red: Option<String>,
    pub green: Option<String>,
    pub yellow: Option<String>,
    pub blue: Option<String>,
    pub magenta: Option<String>,
    pub cyan: Option<String>,
    pub white: Option<String>,
    pub bright_black: Option<String>,
    pub bright_red: Option<String>,
    pub bright_green: Option<String>,
    pub bright_yellow: Option<String>,
    pub bright_blue: Option<String>,
    pub bright_magenta: Option<String>,
    pub bright_cyan: Option<String>,
    pub bright_white: Option<String>,
}

impl Default for ColorScheme {
    /// An empty scheme: every slot unset.
    fn default() -> (s: ColorScheme)
        ensures
            s.background is None,
            s.foreground is None,
            s.cursor is None,
            s.cursor_accent is None,
            s.selection_background is None,
            s.selection_foreground is None,
            s.black is None,
            s.red is None,
            s.green is None,
            s.yellow is None,
            s.blue is None,
            s.magenta is None,
            s.cyan is None,
            s.white is None,
            s.bright_black is None,
            s.bright_red is None,
            s.bright_green is None,
            s.bright_yellow is None,
            s.bright_blue is None,
            s.bright_magenta is None,
            s.bright_cyan is None,
            s.bright_white is None,
    {
        ColorScheme {
            background: None,
            foreground: None,
            cursor: None,
            cursor_accent: None,
            selection_background: None,
            selection_foreground: None,
            black: None,
            red: None,
            green: None,
            yellow: None,
            blue: None,
            magenta: None,
            cyan: None,
            white: None,
            bright_black: None,
            bright_red: None,
            bright_green: None,
            bright_yellow: None,
            bright_blue: None,
            bright_magenta: None,
            bright_cyan: None,
            bright_white: None,
        }
    }
}

/// Read an iTerm2 color-list document: each known color entry that
/// can be read fills its slot as a `#rrggbb` string; everything else
/// stays unset. No document is an error.
pub fn parse_iterm2_plist(content: &str) -> (r: Result<ColorScheme, String>)
    ensures
        r is Ok,
        (match r {
            Ok(s) => {
                &&& slot_matches(s.background, color_hex(content@, "Background Color"@))
                &&& slot_matches(s.foreground, color_hex(content@, "Foreground Color"@))
                &&& slot_matches(s.cursor, color_hex(content@, "Cursor Color"@))
                &&& slot_matches(s.cursor_accent, color_hex(content@, "Cursor Text Color"@))
                &&& slot_matches(
                    s.selection_background,
                    color_hex(content@, "Selection Color"@),
                )
                &&& slot_matches(
                    s.selection_foreground,
                    color_hex(content@, "Selected Text Color"@),
                )
                &&& slot_matches(s.black, color_hex(content@, "Ansi 0 Color"@))
                &&& slot_matches(s.red, color_hex(content@, "Ansi 1 Color"@))
                &&& slot_matches(s.green, color_hex(content@, "Ansi 2 Color"@))
                &&& slot_matches(s.yellow, color_hex(content@, "Ansi 3 Color"@))
                &&& slot_matches(s.blue, color_hex(content@, "Ansi 4 Color"@))
                &&& slot_matches(s.magenta, color_hex(content@, "Ansi 5 Color"@))
                &&& slot_matches(s.cyan, color_hex(content@, "Ansi 6 Color"@))
                &&& slot_matches(s.white, color_hex(content@, "Ansi 7 Color"@))
                &&& slot_matches(s.bright_black, color_hex(content@, "Ansi 8 Color"@))
                &&& slot_matches(s.bright_red, color_hex(content@, "Ansi 9 Color"@))
                &&& slot_matches(s.bright_green, color_hex(content@, "Ansi 10 Color"@))
                &&& slot_matches(s.bright_yellow, color_hex(content@, "Ansi 11 Color"@))
                &&& slot_matches(s.bright_blue, color_hex(content@, "Ansi 12 Color"@))
                &&& slot_matches(s.bright_magenta, color_hex(content@, "Ansi 13 Color"@))
                &&& slot_matches(s.bright_cyan, color_hex(content@, "Ansi 14 Color"@))
                &&& slot_matches(s.bright_white, color_hex(content@, "Ansi 15 Color"@))
            },
            Err(_) => false,
        }),
{
    let text = str_chars(content);
    let scheme = ColorScheme {
        background: color_hex_of(&text, &str_chars("Background Color")),
        foreground: color_hex_of(&text, &str_chars("Foreground Color")),
        cursor: color_hex_of(&text, &str_chars("Cursor Color")),
        cursor_accent: color_hex_of(&text, &str_chars("Cursor Text Color")),
        selection_background: color_hex_of(&text, &str_chars("Selection Color")),
        selection_foreground: color_hex_of(&text, &str_chars("Selected Text Color")),
        black: color_hex_of(&text, &str_chars("Ansi 0 Color")),
        red: color_hex_of(&text, &str_chars("Ansi 1 Color")),
        green: color_hex_of(&text, &str_chars("Ansi 2 Color")),
        yellow: color_hex_of(&text, &str_chars("Ansi 3 Color")),
        blue: color_hex_of(&text, &str_chars("Ansi 4 Color")),
        magenta: color_hex_of(&text, &str_chars("Ansi 5 Color")),
        cyan: color_hex_of(&text, &str_chars("Ansi 6 Color")),
        white: color_hex_of(&text, &str_chars("Ansi 7 Color")),
        bright_black: color_hex_of(&text, &str_chars("Ansi 8 Color")),
        bright_red: color_hex_of(&text, &str_chars("Ansi 9 Color")),
        bright_green: color_hex_of(&text, &str_chars("Ansi 10 Color")),
        bright_yellow: color_hex_of(&text, &str_chars("Ansi 11 Color")),
        bright_blue: color_hex_of(&text, &str_chars("Ansi 12 Color")),
        bright_magenta: color_hex_of(&text, &str_chars("Ansi 13 Color")),
        bright_cyan: color_hex_of(&text, &str_chars("Ansi 14 Color")),
        bright_white: color_hex_of(&text, &str_chars("Ansi 15 Color")),
    };
    Ok(scheme)
}

} // verus!
