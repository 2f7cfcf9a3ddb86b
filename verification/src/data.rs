//! The response envelope and the field coercion layer.
//!
//! Every response of the API is one JSON object `{"OutBlock_1": [...]}` whose
//! array holds flat records of string-valued fields.  This module decodes
//! that envelope into raw field lists and coerces single field texts into
//! typed values: calendar dates, exact decimals, and unsigned integers, with
//! `""` and `"-"` as the two null sentinels.

pub mod bond;
pub mod derivative;
pub mod esg;
pub mod etp;
pub mod general;
pub mod index;
pub mod stock;

use vstd::prelude::*;
use crate::date::{Date, date_result, opt_date_result, parse_ymd_chars};
use crate::error::Error;
use crate::num::{
    Decimal, chars_of, dec_token_digits_val, dec_token_neg, dec_token_ok, dec_token_scale,
    is_sentinel, is_sentinel_str, lemma_first_dot_inv, parse_dec_token, parse_uint_token,
    strip_commas, strip_commas_vec, uint_token_ok, uint_token_val,
};

verus! {

/// The one-field response envelope: the record list of a reply, already
/// decoded into typed records.  An empty list is a valid reply, not an error.
#[derive(Debug)]
pub struct ApiResponse<T> {
    pub data: Vec<T>,
}

/// What coercing an optional comma-grouped decimal field yields:
/// `None` for a decode failure, `Some(None)` for a sentinel.
pub open spec fn opt_dec_result(s: Seq<char>) -> Option<Option<Decimal>> {
    if is_sentinel(s) {
        Some(None)
    } else {
        let t = strip_commas(s);
        if dec_token_ok(t) && dec_token_digits_val(t) <= u128::MAX && dec_token_scale(t)
            <= usize::MAX {
            Some(
                Some(
                    Decimal {
                        negative: dec_token_neg(t),
                        digits: dec_token_digits_val(t) as u128,
                        scale: dec_token_scale(t) as usize,
                    },
                ),
            )
        } else {
            None
        }
    }
}

/// As `opt_dec_result`, but commas are not stripped: percentage fields of the
/// data source are never comma-grouped, and the layer preserves that
/// asymmetry literally.
pub open spec fn opt_pct_result(s: Seq<char>) -> Option<Option<Decimal>> {
    if is_sentinel(s) {
        Some(None)
    } else {
        if dec_token_ok(s) && dec_token_digits_val(s) <= u128::MAX && dec_token_scale(s)
            <= usize::MAX {
            Some(
                Some(
                    Decimal {
                        negative: dec_token_neg(s),
                        digits: dec_token_digits_val(s) as u128,
                        scale: dec_token_scale(s) as usize,
                    },
                ),
            )
        } else {
            None
        }
    }
}

/// What coercing an optional comma-grouped unsigned integer field yields.
pub open spec fn opt_u64_result(s: Seq<char>) -> Option<Option<u64>> {
    if is_sentinel(s) {
        Some(None)
    } else {
        let t = strip_commas(s);
        if uint_token_ok(t) && uint_token_val(t) <= u64::MAX {
            Some(Some(uint_token_val(t) as u64))
        } else {
            None
        }
    }
}

/// What coercing a required decimal field yields: sentinels are failures.
pub open spec fn req_dec_result(s: Seq<char>) -> Option<Decimal> {
    let t = strip_commas(s);
    if dec_token_ok(t) && dec_token_digits_val(t) <= u128::MAX && dec_token_scale(t)
        <= usize::MAX {
        Some(
            Decimal {
                negative: dec_token_neg(t),
                digits: dec_token_digits_val(t) as u128,
                scale: dec_token_scale(t) as usize,
            },
        )
    } else {
        None
    }
}

/// What coercing a required unsigned integer field yields.
pub open spec fn req_u64_result(s: Seq<char>) -> Option<u64> {
    let t = strip_commas(s);
    if uint_token_ok(t) && uint_token_val(t) <= u64::MAX {
        Some(uint_token_val(t) as u64)
    } else {
        None
    }
}

/// Sentinel round trip: the two null sentinels `""` and `"-"` decode to an
/// absent value, never to zero and never to a failure, and they do so
/// identically under every optional coercion — comma-grouped decimals,
/// comma-free percentages, unsigned integers, and dates alike.
pub proof fn lemma_sentinels_decode_absent(s: Seq<char>)
    requires
        is_sentinel(s),
    ensures
        opt_dec_result(s) == Some(None::<Decimal>),
        opt_pct_result(s) == Some(None::<Decimal>),
        opt_u64_result(s) == Some(None::<u64>),
        opt_date_result(s) == Some(None::<Date>),
{
}

/// Removing a final character commutes with comma stripping.
proof fn lemma_strip_push(x: Seq<char>, c: char)
    ensures
        strip_commas(x.push(c)) == if c == ',' {
            strip_commas(x)
        } else {
            strip_commas(x).push(c)
        },
{
    assert(x.push(c).drop_last() =~= x);
    assert(x.push(c).last() == c);
}

/// Stripping commas twice is stripping them once.
proof fn lemma_strip_idempotent(s: Seq<char>)
    ensures
        strip_commas(strip_commas(s)) == strip_commas(s),
    decreases s.len(),
{
    if s.len() > 0 {
        lemma_strip_idempotent(s.drop_last());
        if s.last() != ',' {
            lemma_strip_push(strip_commas(s.drop_last()), s.last());
        }
    }
}

/// Comma stripping: a comma-grouped numeric token and its comma-free form
/// decode to the identical value, for the optional decimal and the optional
/// unsigned integer coercions, whenever neither form is a null sentinel
/// (`"1,234,567"` and `"1234567"`, `"1,234.56"` and `"1234.56"`).
pub proof fn lemma_comma_insensitive(s: Seq<char>)
    requires
        !is_sentinel(s),
        !is_sentinel(strip_commas(s)),
    ensures
        opt_dec_result(s) == opt_dec_result(strip_commas(s)),
        opt_u64_result(s) == opt_u64_result(strip_commas(s)),
{
    lemma_strip_idempotent(s);
}

/// The scale of a well-formed token never exceeds the token's length.
proof fn lemma_scale_le_len(t: Seq<char>)
    ensures
        dec_token_scale(t) <= t.len(),
{
    let u = crate::num::split_sign(t).1;
    lemma_first_dot_inv(u);
}

/// Decodes a `YYYYMMDD` date field; any other shape or an impossible
/// calendar day is a decode failure.
pub fn deserialize_krx_date(s: &str) -> (r: Result<Date, String>)
    ensures
        r is Ok <==> date_result(s@) is Some,
        r matches Ok(d) ==> Some(d) == date_result(s@),
{
    let cs = chars_of(s);
    match parse_ymd_chars(&cs) {
        Some(d) => Ok(d),
        None => Err(String::from_str("invalid date: expected YYYYMMDD")),
    }
}

/// Decodes an optional `YYYYMMDD` date field; `""` and `"-"` yield an absent
/// value rather than a failure.
pub fn deserialize_optional_krx_date(s: &str) -> (r: Result<Option<Date>, String>)
    ensures
        r is Ok <==> opt_date_result(s@) is Some,
        r matches Ok(v) ==> Some(v) == opt_date_result(s@),
{
    if is_sentinel_str(s) {
        return Ok(None);
    }
    let cs = chars_of(s);
    match parse_ymd_chars(&cs) {
        Some(d) => Ok(Some(d)),
        None => Err(String::from_str("invalid date: expected YYYYMMDD")),
    }
}

/// Decodes an optional decimal field: sentinels become absent, commas are
/// stripped, and the rest must be one signed decimal number.
pub fn deserialize_optional_f64(s: &str) -> (r: Result<Option<Decimal>, String>)
    ensures
        r is Ok <==> opt_dec_result(s@) is Some,
        r matches Ok(v) ==> Some(v) == opt_dec_result(s@),
{
    if is_sentinel_str(s) {
        return Ok(None);
    }
    let cs = chars_of(s);
    let t = strip_commas_vec(&cs);
    proof {
        lemma_scale_le_len(t@);
    }
    match parse_dec_token(&t) {
        Some(d) => Ok(Some(d)),
        None => Err(String::from_str("invalid numeric value")),
    }
}

/// Decodes an optional unsigned integer field: sentinels become absent,
/// commas are stripped, and negative text is a decode failure.
pub fn deserialize_optional_u64(s: &str) -> (r: Result<Option<u64>, String>)
    ensures
        r is Ok <==> opt_u64_result(s@) is Some,
        r matches Ok(v) ==> Some(v) == opt_u64_result(s@),
{
    if is_sentinel_str(s) {
        return Ok(None);
    }
    let cs = chars_of(s);
    let t = strip_commas_vec(&cs);
    match parse_uint_token(&t) {
        Some(v) => Ok(Some(v)),
        None => Err(String::from_str("invalid integer value")),
    }
}

/// Decodes an optional percentage field: as a plain decimal, with no comma
/// stripping and no scaling.
pub fn deserialize_optional_percentage(s: &str) -> (r: Result<Option<Decimal>, String>)
    ensures
        r is Ok <==> opt_pct_result(s@) is Some,
        r matches Ok(v) ==> Some(v) == opt_pct_result(s@),
{
    if is_sentinel_str(s) {
        return Ok(None);
    }
    let t = chars_of(s);
    proof {
        lemma_scale_le_len(t@);
    }
    match parse_dec_token(&t) {
        Some(d) => Ok(Some(d)),
        None => Err(String::from_str("invalid percentage value")),
    }
}

/// Decodes a required decimal field; here even the sentinels fail.
pub fn deserialize_f64(s: &str) -> (r: Result<Decimal, String>)
    ensures
        r is Ok <==> req_dec_result(s@) is Some,
        r matches Ok(v) ==> Some(v) == req_dec_result(s@),
{
    let cs = chars_of(s);
    let t = strip_commas_vec(&cs);
    proof {
        lemma_scale_le_len(t@);
    }
    match parse_dec_token(&t) {
        Some(d) => Ok(d),
        None => Err(String::from_str("invalid numeric value")),
    }
}

/// Character-wise string equality.
pub(crate) fn str_eq(a: &str, b: &str) -> (r: bool)
    ensures
        r == (a@ == b@),
{
    let na = a.unicode_len();
    let nb = b.unicode_len();
    if na != nb {
        proof {
            assert(a@.len() != b@.len());
        }
        return false;
    }
    let mut i: usize = 0;
    while i < na
        invariant
            na == a@.len(),
            na == b@.len(),
            0 <= i <= na,
            forall|k: int| 0 <= k < i ==> a@[k] == b@[k],
        decreases na - i,
    {
        if a.get_char(i) != b.get_char(i) {
            proof {
                assert(a@[i as int] != b@[i as int]);
            }
            return false;
        }
        i += 1;
    }
    proof {
        assert(a@ =~= b@);
    }
    true
}

/// What the JSON body decodes to under the envelope shape
/// `{ name: [ { field: "text", ... }, ... ], ... }`: each named block as its
/// list of records, each record as its (field, value) pairs in key order, or
/// nothing when the body is not exactly of that shape.
pub uninterp spec fn json_envelope_blocks(body: Seq<char>) -> Option<
    Seq<(Seq<char>, Seq<Seq<(Seq<char>, Seq<char>)>>)>,
>;

/// Relies on serde_json::from_str targeting a map of string-record arrays:
/// it accepts exactly the bodies of the envelope shape and its result depends
/// on the body text alone.
#[verifier::external_body]
fn json_decode_envelope(body: &str) -> (r: Result<
    Vec<(String, Vec<Vec<(String, String)>>)>,
    String,
>)
    ensures
        r is Ok <==> json_envelope_blocks(body@) is Some,
        r matches Ok(v) ==> Some(v.deep_view()) == json_envelope_blocks(body@),
{
    match serde_json::from_str::<
        std::collections::BTreeMap<String, Vec<std::collections::BTreeMap<String, String>>>,
    >(body) {
        Ok(m) => Ok(
            m.into_iter().map(
                |(k, recs)| (k, recs.into_iter().map(|r| r.into_iter().collect()).collect()),
            ).collect(),
        ),
        Err(e) => Err(e.to_string()),
    }
}

/// The record list of the first block named `name`, if any.
pub open spec fn block_lookup(
    bs: Seq<(Seq<char>, Seq<Seq<(Seq<char>, Seq<char>)>>)>,
    name: Seq<char>,
) -> Option<Seq<Seq<(Seq<char>, Seq<char>)>>>
    decreases bs.len(),
{
    if bs.len() == 0 {
        None
    } else if bs[0].0 == name {
        Some(bs[0].1)
    } else {
        block_lookup(bs.skip(1), name)
    }
}

/// `block_lookup` returns the first match.
proof fn lemma_block_lookup_at(
    bs: Seq<(Seq<char>, Seq<Seq<(Seq<char>, Seq<char>)>>)>,
    name: Seq<char>,
    i: int,
)
    requires
        0 <= i < bs.len(),
        bs[i].0 == name,
        forall|k: int| 0 <= k < i ==> (#[trigger] bs[k]).0 != name,
    ensures
        block_lookup(bs, name) == Some(bs[i].1),
    decreases bs.len(),
{
    if i > 0 {
        let v = bs.skip(1);
        assert(forall|k: int| 0 <= k < v.len() ==> #[trigger] v[k] == bs[k + 1]);
        lemma_block_lookup_at(v, name, i - 1);
    }
}

/// `block_lookup` finds nothing when nothing matches.
proof fn lemma_block_lookup_none(
    bs: Seq<(Seq<char>, Seq<Seq<(Seq<char>, Seq<char>)>>)>,
    name: Seq<char>,
)
    requires
        forall|k: int| 0 <= k < bs.len() ==> (#[trigger] bs[k]).0 != name,
    ensures
        block_lookup(bs, name) is None,
    decreases bs.len(),
{
    if bs.len() > 0 {
        let v = bs.skip(1);
        assert(forall|k: int| 0 <= k < v.len() ==> #[trigger] v[k] == bs[k + 1]);
        lemma_block_lookup_none(v, name);
    }
}

/// The record lists a response body decodes to: the envelope shape must hold
/// and a block named `OutBlock_1` must be present.
pub open spec fn envelope_result(body: Seq<char>) -> Option<Seq<Seq<(Seq<char>, Seq<char>)>>> {
    match json_envelope_blocks(body) {
        Some(bs) => block_lookup(bs, "OutBlock_1"@),
        None => None,
    }
}

/// Decodes a response body into the raw records of its `OutBlock_1` block.
/// Any failure is a `Parsing` error that carries the whole body.
pub fn parse_envelope(body: &str) -> (r: Result<Vec<Vec<(String, String)>>, Error>)
    ensures
        r is Ok <==> envelope_result(body@) is Some,
        r matches Ok(v) ==> Some(v.deep_view()) == envelope_result(body@),
        r matches Err(e) ==> e matches Error::Parsing {
            details: _,
            source: _,
            response_body,
        } && response_body@ == body@,
{
    let mut blocks = match json_decode_envelope(body) {
        Ok(bs) => bs,
        Err(msg) => {
            return Err(
                Error::Parsing {
                    details: String::from_str("failed to decode the response envelope"),
                    source: msg,
                    response_body: String::from_str(body),
                },
            );
        },
    };
    let ghost bv = blocks.deep_view();
    let mut i: usize = 0;
    while i < blocks.len()
        invariant
            Some(bv) == json_envelope_blocks(body@),
            bv == blocks.deep_view(),
            bv.len() == blocks@.len(),
            forall|k: int| 0 <= k < bv.len() ==> #[trigger] bv[k] == (
                blocks@[k].0@,
                blocks@[k].1.deep_view(),
            ),
            0 <= i <= blocks.len(),
            forall|k: int| 0 <= k < i ==> (#[trigger] bv[k]).0 != "OutBlock_1"@,
        decreases blocks.len() - i,
    {
        if str_eq(blocks[i].0.as_str(), "OutBlock_1") {
            proof {
                assert(bv[i as int].0 == "OutBlock_1"@);
                lemma_block_lookup_at(bv, "OutBlock_1"@, i as int);
            }
            let pair = blocks.remove(i);
            proof {
                assert(pair.1.deep_view() == bv[i as int].1);
            }
            return Ok(pair.1);
        }
        i += 1;
    }
    proof {
        lemma_block_lookup_none(bv, "OutBlock_1"@);
    }
    Err(
        Error::Parsing {
            details: String::from_str("the response envelope has no OutBlock_1 block"),
            source: String::from_str("missing field OutBlock_1"),
            response_body: String::from_str(body),
        },
    )
}

/// The value of the first field named `name` of a raw record, if any.
pub open spec fn field_lookup(fs: Seq<(Seq<char>, Seq<char>)>, name: Seq<char>) -> Option<
    Seq<char>,
>
    decreases fs.len(),
{
    if fs.len() == 0 {
        None
    } else if fs[0].0 == name {
        Some(fs[0].1)
    } else {
        field_lookup(fs.skip(1), name)
    }
}

/// `field_lookup` returns the first match.
proof fn lemma_field_lookup_at(fs: Seq<(Seq<char>, Seq<char>)>, name: Seq<char>, i: int)
    requires
        0 <= i < fs.len(),
        fs[i].0 == name,
        forall|k: int| 0 <= k < i ==> (#[trigger] fs[k]).0 != name,
    ensures
        field_lookup(fs, name) == Some(fs[i].1),
    decreases fs.len(),
{
    if i > 0 {
        let v = fs.skip(1);
        assert(forall|k: int| 0 <= k < v.len() ==> #[trigger] v[k] == fs[k + 1]);
        lemma_field_lookup_at(v, name, i - 1);
    }
}

/// `field_lookup` finds nothing when nothing matches.
proof fn lemma_field_lookup_none(fs: Seq<(Seq<char>, Seq<char>)>, name: Seq<char>)
    requires
        forall|k: int| 0 <= k < fs.len() ==> (#[trigger] fs[k]).0 != name,
    ensures
        field_lookup(fs, name) is None,
    decreases fs.len(),
{
    if fs.len() > 0 {
        let v = fs.skip(1);
        assert(forall|k: int| 0 <= k < v.len() ==> #[trigger] v[k] == fs[k + 1]);
        lemma_field_lookup_none(v, name);
    }
}

/// Finds the value of field `name` in a raw record.
pub fn get_field<'a>(fields: &'a Vec<(String, String)>, name: &str) -> (r: Option<&'a String>)
    ensures
        r is Some <==> field_lookup(fields.deep_view(), name@) is Some,
        r matches Some(v) ==> Some(v@) == field_lookup(fields.deep_view(), name@),
{
    let ghost fv = fields.deep_view();
    let mut i: usize = 0;
    while i < fields.len()
        invariant
            fv == fields.deep_view(),
            fv.len() == fields@.len(),
            forall|k: int| 0 <= k < fv.len() ==> #[trigger] fv[k] == (
                fields@[k].0@,
                fields@[k].1@,
            ),
            0 <= i <= fields.len(),
            forall|k: int| 0 <= k < i ==> (#[trigger] fv[k]).0 != name@,
        decreases fields.len() - i,
    {
        if str_eq(fields[i].0.as_str(), name) {
            proof {
                lemma_field_lookup_at(fv, name@, i as int);
            }
            return Some(&fields[i].1);
        }
        i += 1;
    }
    proof {
        lemma_field_lookup_none(fv, name@);
    }
    None
}

/// Decodes a required unsigned integer field.
pub fn deserialize_u64(s: &str) -> (r: Result<u64, String>)
    ensures
        r is Ok <==> req_u64_result(s@) is Some,
        r matches Ok(v) ==> Some(v) == req_u64_result(s@),
{
    let cs = chars_of(s);
    let t = strip_commas_vec(&cs);
    match parse_uint_token(&t) {
        Some(v) => Ok(v),
        None => Err(String::from_str("invalid integer value")),
    }
}

} // verus!
