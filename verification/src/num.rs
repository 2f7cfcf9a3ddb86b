//! Exact decimal values and the textual number grammar of the data source.
//!
//! Every numeric field of the API arrives as a JSON string: plain digits,
//! optionally signed, optionally with one fractional part, and (for most
//! fields) with `,` as a thousands separator.  This module defines that
//! grammar as spec functions and parses tokens of it into [`Decimal`] and
//! unsigned integer values.

use vstd::prelude::*;

verus! {

/// A signed decimal number held exactly: the value is
/// `(-1)^negative * digits / 10^scale`.
///
/// The token `"1,234.56"` decodes to `digits == 123456`, `scale == 2`; the
/// representation keeps the digit string as written (no normalisation of
/// trailing fractional zeros), which is all the tabulation layer needs.
#[derive(Debug, Clone, Copy, PartialEq, Eq, Structural)]
pub struct Decimal {
    /// True when the token carried a leading `-`.
    pub negative: bool,
    /// All digits of the token, integral and fractional, as one number.
    pub digits: u128,
    /// How many of `digits`' trailing decimal digits are fractional.
    pub scale: usize,
}

impl Decimal {
    /// Builds the decimal `(-1)^negative * digits / 10^scale`.
    pub fn from_parts(negative: bool, digits: u128, scale: usize) -> (d: Decimal)
        ensures
            d == (Decimal { negative, digits, scale }),
    {
        Decimal { negative, digits, scale }
    }
}

/// An ASCII decimal digit.
pub open spec fn is_digit_char(c: char) -> bool {
    '0' <= c && c <= '9'
}

/// The numeric value of one ASCII digit.
pub open spec fn digit_val(c: char) -> int {
    c as int - 48
}

/// Every character of `s` is an ASCII digit.
pub open spec fn all_digits(s: Seq<char>) -> bool {
    forall|i: int| 0 <= i < s.len() ==> is_digit_char(#[trigger] s[i])
}

/// The number written by the digit string `s`, most significant digit first.
pub open spec fn digits_val(s: Seq<char>) -> int
    decreases s.len(),
{
    if s.len() == 0 {
        0
    } else {
        digits_val(s.drop_last()) * 10 + digit_val(s.last())
    }
}

/// `s` with every `,` removed, other characters kept in order.
pub open spec fn strip_commas(s: Seq<char>) -> Seq<char>
    decreases s.len(),
{
    if s.len() == 0 {
        Seq::empty()
    } else if s.last() == ',' {
        strip_commas(s.drop_last())
    } else {
        strip_commas(s.drop_last()).push(s.last())
    }
}

/// The two null sentinels of the data source: the empty string and `"-"`.
pub open spec fn is_sentinel(s: Seq<char>) -> bool {
    s == Seq::<char>::empty() || s == seq!['-']
}

/// Splits an optional leading sign off `t`: (negative, rest).
pub open spec fn split_sign(t: Seq<char>) -> (bool, Seq<char>) {
    if t.len() > 0 && t[0] == '-' {
        (true, t.skip(1))
    } else if t.len() > 0 && t[0] == '+' {
        (false, t.skip(1))
    } else {
        (false, t)
    }
}

/// Index of the first `.` in `u`, or -1 if there is none.
pub open spec fn first_dot(u: Seq<char>) -> int
    decreases u.len(),
{
    if u.len() == 0 {
        -1
    } else if u[0] == '.' {
        0
    } else if first_dot(u.skip(1)) < 0 {
        -1
    } else {
        first_dot(u.skip(1)) + 1
    }
}

/// An unsigned decimal body: one or more digits, optionally followed by `.`
/// and one or more digits.
pub open spec fn dec_body_ok(u: Seq<char>) -> bool {
    let p = first_dot(u);
    if p < 0 {
        u.len() >= 1 && all_digits(u)
    } else {
        &&& p >= 1
        &&& all_digits(u.subrange(0, p))
        &&& u.len() - p - 1 >= 1
        &&& all_digits(u.subrange(p + 1, u.len() as int))
    }
}

/// All digits of a decimal body, the dot dropped.
pub open spec fn dec_body_digits(u: Seq<char>) -> Seq<char> {
    let p = first_dot(u);
    if p < 0 {
        u
    } else {
        u.subrange(0, p) + u.subrange(p + 1, u.len() as int)
    }
}

/// How many digits of a decimal body are fractional.
pub open spec fn dec_body_scale(u: Seq<char>) -> int {
    let p = first_dot(u);
    if p < 0 {
        0
    } else {
        u.len() - p - 1
    }
}

/// A full signed decimal token.
pub open spec fn dec_token_ok(t: Seq<char>) -> bool {
    dec_body_ok(split_sign(t).1)
}

pub open spec fn dec_token_neg(t: Seq<char>) -> bool {
    split_sign(t).0
}

pub open spec fn dec_token_digits_val(t: Seq<char>) -> int {
    digits_val(dec_body_digits(split_sign(t).1))
}

pub open spec fn dec_token_scale(t: Seq<char>) -> int {
    dec_body_scale(split_sign(t).1)
}

/// An unsigned integer token: an optional `+`, then one or more digits.
/// A leading `-` is never accepted.
pub open spec fn uint_token_ok(t: Seq<char>) -> bool {
    !(t.len() > 0 && t[0] == '-') && {
        let u = split_sign(t).1;
        u.len() >= 1 && all_digits(u)
    }
}

pub open spec fn uint_token_val(t: Seq<char>) -> int {
    digits_val(split_sign(t).1)
}

/// A digit string's value is never negative.
pub proof fn lemma_digits_val_nonneg(s: Seq<char>)
    requires
        all_digits(s),
    ensures
        digits_val(s) >= 0,
    decreases s.len(),
{
    if s.len() > 0 {
        lemma_digits_val_nonneg(s.drop_last());
    }
}

/// A prefix of a digit string is worth no more than the whole string.
pub proof fn lemma_digits_val_prefix_le(s: Seq<char>, i: int)
    requires
        all_digits(s),
        0 <= i <= s.len(),
    ensures
        digits_val(s.subrange(0, i)) <= digits_val(s),
    decreases s.len() - i,
{
    if i == s.len() {
        assert(s.subrange(0, i) =~= s);
    } else {
        lemma_digits_val_prefix_le(s, i + 1);
        let a = s.subrange(0, i);
        let b = s.subrange(0, i + 1);
        assert(b.drop_last() =~= a);
        assert(forall|j: int| 0 <= j < a.len() ==> is_digit_char(#[trigger] a[j]));
        lemma_digits_val_nonneg(a);
        assert(digits_val(b) == digits_val(a) * 10 + digit_val(b.last()));
    }
}

/// `first_dot` finds nothing in a dot-free string.
pub proof fn lemma_first_dot_none(u: Seq<char>)
    requires
        forall|k: int| 0 <= k < u.len() ==> #[trigger] u[k] != '.',
    ensures
        first_dot(u) == -1,
    decreases u.len(),
{
    if u.len() > 0 {
        let v = u.skip(1);
        assert(forall|k: int| 0 <= k < v.len() ==> #[trigger] v[k] == u[k + 1]);
        lemma_first_dot_none(v);
    }
}

/// `first_dot` finds the first dot.
pub proof fn lemma_first_dot_at(u: Seq<char>, p: int)
    requires
        0 <= p < u.len(),
        u[p] == '.',
        forall|k: int| 0 <= k < p ==> #[trigger] u[k] != '.',
    ensures
        first_dot(u) == p,
    decreases u.len(),
{
    if p > 0 {
        let v = u.skip(1);
        assert(forall|k: int| 0 <= k < v.len() ==> #[trigger] v[k] == u[k + 1]);
        lemma_first_dot_at(v, p - 1);
    }
}

/// What `first_dot`'s result means, unconditionally.
pub proof fn lemma_first_dot_inv(u: Seq<char>)
    ensures
        first_dot(u) == -1 ==> forall|k: int| 0 <= k < u.len() ==> #[trigger] u[k] != '.',
        first_dot(u) != -1 ==> {
            &&& 0 <= first_dot(u) < u.len()
            &&& u[first_dot(u)] == '.'
            &&& forall|k: int| 0 <= k < first_dot(u) ==> #[trigger] u[k] != '.'
        },
    decreases u.len(),
{
    if u.len() > 0 && u[0] != '.' {
        let v = u.skip(1);
        assert(forall|k: int| 0 <= k < v.len() ==> #[trigger] v[k] == u[k + 1]);
        lemma_first_dot_inv(v);
        if first_dot(v) == -1 {
            assert forall|k: int| 0 <= k < u.len() implies #[trigger] u[k] != '.' by {
                if k > 0 {
                    assert(v[k - 1] == u[k]);
                    assert(v[k - 1] != '.');
                }
            }
        } else {
            let p = first_dot(v);
            assert(u[p + 1] == v[p]);
            assert forall|k: int| 0 <= k < p + 1 implies #[trigger] u[k] != '.' by {
                if k > 0 {
                    assert(v[k - 1] == u[k]);
                    assert(v[k - 1] != '.');
                }
            }
        }
    }
}

/// Converts a digit string to a `u128`, reporting overflow as `None`.
fn digits_to_u128(ds: &Vec<char>) -> (r: Option<u128>)
    requires
        all_digits(ds@),
    ensures
        r is Some <==> digits_val(ds@) <= u128::MAX,
        r matches Some(v) ==> v == digits_val(ds@),
{
    let mut acc: u128 = 0;
    let mut i: usize = 0;
    while i < ds.len()
        invariant
            all_digits(ds@),
            0 <= i <= ds.len(),
            acc == digits_val(ds@.subrange(0, i as int)),
        decreases ds.len() - i,
    {
        let c = ds[i];
        let d: u128 = (c as u32 as u128) - 48;
        proof {
            assert(is_digit_char(ds@[i as int]));
            assert(d == digit_val(ds@[i as int]));
        }
        if acc > (u128::MAX - d) / 10 {
            proof {
                let pre = ds@.subrange(0, i as int);
                let step = ds@.subrange(0, i as int + 1);
                assert(step.drop_last() =~= pre);
                assert(digits_val(step) == digits_val(pre) * 10 + digit_val(ds@[i as int]));
                assert(digits_val(step) > u128::MAX);
                lemma_digits_val_prefix_le(ds@, i as int + 1);
            }
            return None;
        }
        proof {
            let pre = ds@.subrange(0, i as int);
            let step = ds@.subrange(0, i as int + 1);
            assert(step.drop_last() =~= pre);
        }
        acc = acc * 10 + d;
        i += 1;
    }
    proof {
        assert(ds@.subrange(0, ds@.len() as int) =~= ds@);
    }
    Some(acc)
}

/// Converts a digit string to a `u64`, reporting overflow as `None`.
fn digits_to_u64(ds: &Vec<char>) -> (r: Option<u64>)
    requires
        all_digits(ds@),
    ensures
        r is Some <==> digits_val(ds@) <= u64::MAX,
        r matches Some(v) ==> v == digits_val(ds@),
{
    let mut acc: u64 = 0;
    let mut i: usize = 0;
    while i < ds.len()
        invariant
            all_digits(ds@),
            0 <= i <= ds.len(),
            acc == digits_val(ds@.subrange(0, i as int)),
        decreases ds.len() - i,
    {
        let c = ds[i];
        let d: u64 = (c as u32 as u64) - 48;
        proof {
            assert(is_digit_char(ds@[i as int]));
            assert(d == digit_val(ds@[i as int]));
        }
        if acc > (u64::MAX - d) / 10 {
            proof {
                let pre = ds@.subrange(0, i as int);
                let step = ds@.subrange(0, i as int + 1);
                assert(step.drop_last() =~= pre);
                assert(digits_val(step) == digits_val(pre) * 10 + digit_val(ds@[i as int]));
                assert(digits_val(step) > u64::MAX);
                lemma_digits_val_prefix_le(ds@, i as int + 1);
            }
            return None;
        }
        proof {
            let pre = ds@.subrange(0, i as int);
            let step = ds@.subrange(0, i as int + 1);
            assert(step.drop_last() =~= pre);
        }
        acc = acc * 10 + d;
        i += 1;
    }
    proof {
        assert(ds@.subrange(0, ds@.len() as int) =~= ds@);
    }
    Some(acc)
}

/// Whether `c` is an ASCII digit, decided executably.
fn is_digit_exec(c: char) -> (b: bool)
    ensures
        b == is_digit_char(c),
{
    '0' <= c && c <= '9'
}

/// The characters of `s`, in order, as a vector.
pub(crate) fn chars_of(s: &str) -> (v: Vec<char>)
    ensures
        v@ == s@,
{
    let n = s.unicode_len();
    let mut v: Vec<char> = Vec::new();
    let mut i: usize = 0;
    while i < n
        invariant
            n == s@.len(),
            0 <= i <= n,
            v@ == s@.subrange(0, i as int),
        decreases n - i,
    {
        v.push(s.get_char(i));
        proof {
            assert(v@ =~= s@.subrange(0, i as int + 1));
        }
        i += 1;
    }
    proof {
        assert(s@.subrange(0, s@.len() as int) =~= s@);
    }
    v
}

/// `v` with every `,` removed.
pub(crate) fn strip_commas_vec(v: &Vec<char>) -> (out: Vec<char>)
    ensures
        out@ == strip_commas(v@),
{
    let mut out: Vec<char> = Vec::new();
    let mut i: usize = 0;
    while i < v.len()
        invariant
            0 <= i <= v.len(),
            out@ == strip_commas(v@.subrange(0, i as int)),
        decreases v.len() - i,
    {
        let c = v[i];
        proof {
            let pre = v@.subrange(0, i as int);
            let step = v@.subrange(0, i as int + 1);
            assert(step.drop_last() =~= pre);
            assert(step.last() == v@[i as int]);
        }
        if c != ',' {
            proof {
                assert(v@[i as int] != ',');
            }
            out.push(c);
        } else {
            proof {
                assert(v@[i as int] == ',');
            }
        }
        i += 1;
    }
    proof {
        assert(v@.subrange(0, v@.len() as int) =~= v@);
    }
    out
}

/// Whether `s` is a null sentinel of the data source.
pub(crate) fn is_sentinel_str(s: &str) -> (b: bool)
    ensures
        b == is_sentinel(s@),
{
    let n = s.unicode_len();
    if n == 0 {
        proof {
            assert(s@ =~= Seq::<char>::empty());
        }
        true
    } else if n == 1 {
        let c = s.get_char(0);
        if c == '-' {
            proof {
                assert(s@ =~= seq!['-']);
            }
            true
        } else {
            proof {
                assert(s@[0] != '-');
                assert(s@ != seq!['-']);
            }
            false
        }
    } else {
        proof {
            assert(s@.len() != seq!['-'].len());
        }
        false
    }
}

/// Parses one signed decimal token from `t`: an optional sign, digits, and at
/// most one fractional part.  `None` exactly when the token breaks the
/// grammar or its digits overflow `u128`.
pub(crate) fn parse_dec_token(t: &Vec<char>) -> (r: Option<Decimal>)
    ensures
        r is Some <==> dec_token_ok(t@) && dec_token_digits_val(t@) <= u128::MAX,
        r matches Some(d) ==> {
            &&& d.negative == dec_token_neg(t@)
            &&& d.digits == dec_token_digits_val(t@)
            &&& d.scale == dec_token_scale(t@)
        },
{
    let n = t.len();
    let mut i: usize = 0;
    let mut neg = false;
    if n > 0 && t[0] == '-' {
        neg = true;
        i = 1;
    } else if n > 0 && t[0] == '+' {
        i = 1;
    }
    let ghost base = i as int;
    let ghost u = t@.skip(base);
    proof {
        assert(split_sign(t@).0 == neg);
        assert(split_sign(t@).1 =~= u);
        assert(forall|k: int| 0 <= k < u.len() ==> #[trigger] u[k] == t@[base + k]);
    }
    let mut digits: Vec<char> = Vec::new();
    // integral part
    while i < n && t[i] != '.'
        invariant
            n == t@.len(),
            0 <= base <= i as int <= n,
            u == t@.skip(base),
            split_sign(t@) == (neg, u),
            forall|k: int| 0 <= k < u.len() ==> #[trigger] u[k] == t@[base + k],
            digits@ == u.subrange(0, i - base),
            all_digits(digits@),
            forall|k: int| 0 <= k < i - base ==> #[trigger] u[k] != '.',
        decreases n - i,
    {
        let c = t[i];
        if !is_digit_exec(c) {
            proof {
                lemma_first_dot_inv(u);
                assert(u[i - base] == t@[i as int]);
                if first_dot(u) < 0 {
                    assert(!all_digits(u));
                } else {
                    let p = first_dot(u);
                    // the dot cannot sit at or before this non-digit, non-dot char
                    if p < i - base {
                        assert(u[p] == '.');
                        assert(false);
                    } else if p == i - base {
                        assert(u[p] != '.');
                        assert(false);
                    } else {
                        let ip = u.subrange(0, p);
                        assert(ip[i - base] == u[i - base]);
                        assert(!all_digits(ip));
                    }
                }
                assert(!dec_token_ok(t@));
            }
            return None;
        }
        digits.push(c);
        proof {
            assert(digits@ =~= u.subrange(0, i + 1 - base));
        }
        i += 1;
    }
    if i == n {
        // no fractional part
        proof {
            assert(u.len() == n - base);
            assert(digits@ =~= u);
            lemma_first_dot_none(u);
        }
        if digits.len() == 0 {
            proof {
                assert(!dec_body_ok(u));
            }
            return None;
        }
        match digits_to_u128(&digits) {
            Some(v) => Some(Decimal { negative: neg, digits: v, scale: 0 }),
            None => None,
        }
    } else {
        // t[i] is the dot
        let ghost p = i as int - base;
        proof {
            assert(u[p] == '.');
            lemma_first_dot_at(u, p);
        }
        if i == (if neg { 1 } else { if n > 0 && t[0] == '+' { 1 } else { 0 } }) {
            // no integral digits before the dot
            proof {
                assert(p == 0);
                assert(!dec_body_ok(u));
            }
            return None;
        }
        proof {
            assert(p >= 1);
        }
        i += 1;
        let frac_start = i;
        while i < n
            invariant
                n == t@.len(),
                0 <= base,
                base + 1 <= frac_start as int <= i as int <= n,
                u == t@.skip(base),
                split_sign(t@) == (neg, u),
                forall|k: int| 0 <= k < u.len() ==> #[trigger] u[k] == t@[base + k],
                p == frac_start - base - 1,
                first_dot(u) == p,
                0 <= p < u.len(),
                digits@ == u.subrange(0, p) + u.subrange(p + 1, i - base),
                all_digits(digits@),
            decreases n - i,
        {
            let c = t[i];
            if !is_digit_exec(c) {
                proof {
                    let frac = u.subrange(p + 1, u.len() as int);
                    assert(frac[i - base - p - 1] == u[i - base]);
                    assert(!all_digits(frac));
                    assert(!dec_body_ok(u));
                }
                return None;
            }
            digits.push(c);
            proof {
                assert(digits@ =~= u.subrange(0, p) + u.subrange(p + 1, i + 1 - base));
            }
            i += 1;
        }
        if i == frac_start {
            // the dot was the last character
            proof {
                assert(u.len() as int - p - 1 == 0);
                assert(!dec_body_ok(u));
            }
            return None;
        }
        proof {
            assert(u.subrange(p + 1, i - base) =~= u.subrange(p + 1, u.len() as int));
            let ipart = u.subrange(0, p);
            let fpart = u.subrange(p + 1, u.len() as int);
            assert(digits@ == ipart + fpart);
            assert forall|k: int| 0 <= k < ipart.len() implies is_digit_char(#[trigger] ipart[k]) by {
                assert(ipart[k] == digits@[k]);
                assert(is_digit_char(digits@[k]));
            }
            assert forall|k: int| 0 <= k < fpart.len() implies is_digit_char(#[trigger] fpart[k]) by {
                assert(fpart[k] == digits@[p + k]);
                assert(is_digit_char(digits@[p + k]));
            }
            assert(dec_body_ok(u));
            assert(digits@ =~= dec_body_digits(u));
            assert(dec_body_scale(u) == n - frac_start);
        }
        let scale = n - frac_start;
        match digits_to_u128(&digits) {
            Some(v) => Some(Decimal { negative: neg, digits: v, scale }),
            None => None,
        }
    }
}

/// Parses one unsigned integer token from `t`: an optional `+`, then digits.
/// `None` exactly when the token breaks the grammar or overflows `u64`.
pub(crate) fn parse_uint_token(t: &Vec<char>) -> (r: Option<u64>)
    ensures
        r is Some <==> uint_token_ok(t@) && uint_token_val(t@) <= u64::MAX,
        r matches Some(v) ==> v == uint_token_val(t@),
{
    let n = t.len();
    let mut i: usize = 0;
    if n > 0 && t[0] == '-' {
        return None;
    }
    if n > 0 && t[0] == '+' {
        i = 1;
    }
    let ghost base = i as int;
    let ghost u = t@.skip(base);
    proof {
        assert(split_sign(t@).1 =~= u);
        assert(forall|k: int| 0 <= k < u.len() ==> #[trigger] u[k] == t@[base + k]);
    }
    let mut digits: Vec<char> = Vec::new();
    while i < n
        invariant
            n == t@.len(),
            0 <= base <= i as int <= n,
            u == t@.skip(base),
            split_sign(t@).1 == u,
            !(t@.len() > 0 && t@[0] == '-'),
            forall|k: int| 0 <= k < u.len() ==> #[trigger] u[k] == t@[base + k],
            digits@ == u.subrange(0, i - base),
            all_digits(digits@),
        decreases n - i,
    {
        let c = t[i];
        if !is_digit_exec(c) {
            proof {
                assert(u[i - base] == t@[i as int]);
                assert(!all_digits(u));
            }
            return None;
        }
        digits.push(c);
        proof {
            assert(digits@ =~= u.subrange(0, i + 1 - base));
        }
        i += 1;
    }
    proof {
        assert(digits@ =~= u);
    }
    if digits.len() == 0 {
        return None;
    }
    digits_to_u64(&digits)
}

} // verus!
