//! Records and tables of the general commodity endpoints: oil, gold, and
//! emission permits.

use vstd::prelude::*;
use crate::data::{
    ApiResponse,
    deserialize_krx_date,
    deserialize_optional_f64,
    deserialize_optional_percentage,
    deserialize_optional_u64,
    envelope_result,
    field_lookup,
    get_field,
    opt_dec_result,
    opt_pct_result,
    opt_u64_result,
    parse_envelope,
};
use crate::date::{Date, date_result, iso_of};
use crate::error::Error;
use crate::num::Decimal;
use crate::table::{Column, ColumnData, Table, col_dec, col_text, col_uint};

verus! {

/// One row of the oil daily-trade endpoint.
#[derive(Debug)]
pub struct OilDailyRecord {
    pub base_date: Date,
    pub oil_name: String,
    pub weighted_average_price: Option<Decimal>,
    pub weighted_discount_average_price: Option<Decimal>,
    pub trading_volume: Option<u64>,
    pub trading_value: Option<u64>,
}

/// Every field of the record is present and coercible.
pub open spec fn oil_daily_fields_ok(fv: Seq<(Seq<char>, Seq<char>)>) -> bool {
    &&& field_lookup(fv, "BAS_DD"@) matches Some(s) && date_result(s) is Some
    &&& field_lookup(fv, "OIL_NM"@) is Some
    &&& field_lookup(fv, "WT_AVG_PRC"@) matches Some(s) && opt_dec_result(s) is Some
    &&& field_lookup(fv, "WT_DIS_AVG_PRC"@) matches Some(s) && opt_dec_result(s) is Some
    &&& field_lookup(fv, "ACC_TRDVOL"@) matches Some(s) && opt_u64_result(s) is Some
    &&& field_lookup(fv, "ACC_TRDVAL"@) matches Some(s) && opt_u64_result(s) is Some
}

/// `rec` holds exactly the coerced fields of the raw record `fv`.
pub open spec fn oil_daily_matches(rec: OilDailyRecord, fv: Seq<(Seq<char>, Seq<char>)>) -> bool {
    &&& Some(rec.base_date) == date_result(field_lookup(fv, "BAS_DD"@)->Some_0)
    &&& Some(rec.oil_name@) == field_lookup(fv, "OIL_NM"@)
    &&& Some(rec.weighted_average_price) == opt_dec_result(field_lookup(fv, "WT_AVG_PRC"@)->Some_0)
    &&& Some(rec.weighted_discount_average_price) == opt_dec_result(field_lookup(fv, "WT_DIS_AVG_PRC"@)->Some_0)
    &&& Some(rec.trading_volume) == opt_u64_result(field_lookup(fv, "ACC_TRDVOL"@)->Some_0)
    &&& Some(rec.trading_value) == opt_u64_result(field_lookup(fv, "ACC_TRDVAL"@)->Some_0)
}

/// Decodes one raw record of the endpoint.
pub fn decode_oil_daily(fields: &Vec<(String, String)>) -> (r: Result<OilDailyRecord, String>)
    ensures
        r is Ok <==> oil_daily_fields_ok(fields.deep_view()),
        r matches Ok(rec) ==> oil_daily_matches(rec, fields.deep_view()),
{
    let base_date = match get_field(fields, "BAS_DD") {
        Some(s) => match deserialize_krx_date(s.as_str()) {
            Ok(v) => v,
            Err(e) => {
                return Err(e);
            },
        },
        None => {
            return Err(String::from_str("missing field BAS_DD"));
        },
    };
    let oil_name = match get_field(fields, "OIL_NM") {
        Some(s) => s.clone(),
        None => {
            return Err(String::from_str("missing field OIL_NM"));
        },
    };
    let weighted_average_price = match get_field(fields, "WT_AVG_PRC") {
        Some(s) => match deserialize_optional_f64(s.as_str()) {
            Ok(v) => v,
            Err(e) => {
                return Err(e);
            },
        },
        None => {
            return Err(String::from_str("missing field WT_AVG_PRC"));
        },
    };
    let weighted_discount_average_price = match get_field(fields, "WT_DIS_AVG_PRC") {
        Some(s) => match deserialize_optional_f64(s.as_str()) {
            Ok(v) => v,
            Err(e) => {
                return Err(e);
            },
        },
        None => {
            return Err(String::from_str("missing field WT_DIS_AVG_PRC"));
        },
    };
    let trading_volume = match get_field(fields, "ACC_TRDVOL") {
        Some(s) => match deserialize_optional_u64(s.as_str()) {
            Ok(v) => v,
            Err(e) => {
                return Err(e);
            },
        },
        None => {
            return Err(String::from_str("missing field ACC_TRDVOL"));
        },
    };
    let trading_value = match get_field(fields, "ACC_TRDVAL") {
        Some(s) => match deserialize_optional_u64(s.as_str()) {
            Ok(v) => v,
            Err(e) => {
                return Err(e);
            },
        },
        None => {
            return Err(String::from_str("missing field ACC_TRDVAL"));
        },
    };
    Ok(
        OilDailyRecord {
            base_date,
            oil_name,
            weighted_average_price,
            weighted_discount_average_price,
            trading_volume,
            trading_value,
        },
    )
}

/// Every raw record of the reply decodes.
pub open spec fn oil_daily_records_ok(rv: Seq<Seq<(Seq<char>, Seq<char>)>>) -> bool {
    forall|i: int| 0 <= i < rv.len() ==> oil_daily_fields_ok(#[trigger] rv[i])
}

/// Decodes every raw record of a reply, in order, failing on the first
/// record that does not decode.
pub fn decode_oil_daily_response(raw: &Vec<Vec<(String, String)>>) -> (r: Result<
    ApiResponse<OilDailyRecord>,
    String,
>)
    ensures
        r is Ok <==> oil_daily_records_ok(raw.deep_view()),
        r matches Ok(resp) ==> resp.data@.len() == raw@.len() && (forall|i: int|
            0 <= i < resp.data@.len() ==> oil_daily_matches(
                #[trigger] resp.data@[i],
                raw.deep_view()[i],
            )),
{
    let ghost rv = raw.deep_view();
    let mut data: Vec<OilDailyRecord> = Vec::new();
    let mut i: usize = 0;
    while i < raw.len()
        invariant
            rv == raw.deep_view(),
            rv.len() == raw@.len(),
            forall|k: int| 0 <= k < rv.len() ==> #[trigger] rv[k] == raw@[k].deep_view(),
            0 <= i <= raw@.len(),
            data@.len() == i,
            forall|k: int| 0 <= k < i ==> oil_daily_fields_ok(#[trigger] rv[k]),
            forall|k: int| 0 <= k < i ==> oil_daily_matches(#[trigger] data@[k], rv[k]),
        decreases raw@.len() - i,
    {
        match decode_oil_daily(&raw[i]) {
            Ok(rec) => {
                data.push(rec);
            },
            Err(e) => {
                proof {
                    assert(!oil_daily_fields_ok(rv[i as int]));
                }
                return Err(e);
            },
        }
        i += 1;
    }
    Ok(ApiResponse { data })
}

/// `t` is exactly the table of the records `rs`: 6 fixed columns, one
/// value per record in input order, and the empty table for no records.
pub open spec fn oil_daily_table_matches(t: Table, rs: Seq<OilDailyRecord>) -> bool {
    &&& rs.len() == 0 ==> t.columns@.len() == 0
    &&& rs.len() > 0 ==> {
        &&& t.columns@.len() == 6
        &&& col_text(
            t.columns@[0],
            "날짜"@,
            Seq::new(rs.len(), |i: int| iso_of(rs[i].base_date)),
        )
        &&& col_text(
            t.columns@[1],
            "유종명"@,
            Seq::new(rs.len(), |i: int| rs[i].oil_name@),
        )
        &&& col_dec(
            t.columns@[2],
            "가중평균가격"@,
            Seq::new(rs.len(), |i: int| rs[i].weighted_average_price),
        )
        &&& col_dec(
            t.columns@[3],
            "가중할인평균가격"@,
            Seq::new(rs.len(), |i: int| rs[i].weighted_discount_average_price),
        )
        &&& col_uint(
            t.columns@[4],
            "거래량"@,
            Seq::new(rs.len(), |i: int| rs[i].trading_volume),
        )
        &&& col_uint(
            t.columns@[5],
            "거래대금"@,
            Seq::new(rs.len(), |i: int| rs[i].trading_value),
        )
    }
}

/// Flattens the typed records into their table; zero records give the
/// empty table of zero columns and zero rows.
pub fn parse_oil_daily(response: ApiResponse<OilDailyRecord>) -> (r: Result<Table, Error>)
    ensures
        r is Ok,
        r matches Ok(t) ==> oil_daily_table_matches(t, response.data@),
{
    let records = response.data;
    if records.len() == 0 {
        return Ok(Table::empty());
    }
    let n = records.len();
    let mut c0: Vec<String> = Vec::new();
    let mut c1: Vec<String> = Vec::new();
    let mut c2: Vec<Option<Decimal>> = Vec::new();
    let mut c3: Vec<Option<Decimal>> = Vec::new();
    let mut c4: Vec<Option<u64>> = Vec::new();
    let mut c5: Vec<Option<u64>> = Vec::new();
    let mut i: usize = 0;
    while i < n
        invariant
            n == records@.len(),
            0 <= i <= n,
            c0@.len() == i && forall|k: int|
                0 <= k < i ==> (#[trigger] c0@[k])@ == iso_of(records@[k].base_date),
            c1@.len() == i && forall|k: int|
                0 <= k < i ==> (#[trigger] c1@[k])@ == records@[k].oil_name@,
            c2@.len() == i && forall|k: int|
                0 <= k < i ==> #[trigger] c2@[k] == records@[k].weighted_average_price,
            c3@.len() == i && forall|k: int|
                0 <= k < i ==> #[trigger] c3@[k] == records@[k].weighted_discount_average_price,
            c4@.len() == i && forall|k: int|
                0 <= k < i ==> #[trigger] c4@[k] == records@[k].trading_volume,
            c5@.len() == i && forall|k: int|
                0 <= k < i ==> #[trigger] c5@[k] == records@[k].trading_value,
        decreases n - i,
    {
        let rec = &records[i];
        c0.push(rec.base_date.to_iso_string());
        c1.push(rec.oil_name.clone());
        c2.push(rec.weighted_average_price);
        c3.push(rec.weighted_discount_average_price);
        c4.push(rec.trading_volume);
        c5.push(rec.trading_value);
        i += 1;
    }
    proof {
        let rs = records@;
        assert(c0.deep_view() =~= Seq::new(rs.len(), |i: int| iso_of(rs[i].base_date)));
        assert(c1.deep_view() =~= Seq::new(rs.len(), |i: int| rs[i].oil_name@));
        assert(c2@ =~= Seq::new(rs.len(), |i: int| rs[i].weighted_average_price));
        assert(c3@ =~= Seq::new(rs.len(), |i: int| rs[i].weighted_discount_average_price));
        assert(c4@ =~= Seq::new(rs.len(), |i: int| rs[i].trading_volume));
        assert(c5@ =~= Seq::new(rs.len(), |i: int| rs[i].trading_value));
    }
    let mut columns: Vec<Column> = Vec::new();
    columns.push(
        Column { name: String::from_str("날짜"), data: ColumnData::Text(c0) },
    );
    columns.push(
        Column { name: String::from_str("유종명"), data: ColumnData::Text(c1) },
    );
    columns.push(
        Column { name: String::from_str("가중평균가격"), data: ColumnData::Dec(c2) },
    );
    columns.push(
        Column { name: String::from_str("가중할인평균가격"), data: ColumnData::Dec(c3) },
    );
    columns.push(
        Column { name: String::from_str("거래량"), data: ColumnData::UInt(c4) },
    );
    columns.push(
        Column { name: String::from_str("거래대금"), data: ColumnData::UInt(c5) },
    );
    Ok(Table { columns })
}

/// `t` is the table some decoded record sequence of `body` flattens to.
pub open spec fn oil_daily_body_table(body: Seq<char>, t: Table) -> bool {
    exists|recs: Seq<OilDailyRecord>|
        #![trigger oil_daily_table_matches(t, recs)]
        {
            &&& envelope_result(body) matches Some(rv)
            &&& recs.len() == rv.len()
            &&& (forall|i: int| 0 <= i < recs.len() ==> oil_daily_matches(#[trigger] recs[i], rv[i]))
            &&& oil_daily_table_matches(t, recs)
        }
}

/// The whole decode pipeline of a 2xx body for this endpoint: envelope,
/// records, table.  Every failure is a `Parsing` error carrying the body.
pub fn oil_daily_table_from_body(body: &str) -> (r: Result<Table, Error>)
    ensures
        r is Ok <==> (envelope_result(body@) matches Some(rv) && oil_daily_records_ok(rv)),
        r matches Ok(t) ==> oil_daily_body_table(body@, t),
        r matches Err(e) ==> (e matches Error::Parsing {
            details: _,
            source: _,
            response_body,
        } && response_body@ == body@),
{
    let raw = match parse_envelope(body) {
        Ok(v) => v,
        Err(e) => {
            return Err(e);
        },
    };
    let resp = match decode_oil_daily_response(&raw) {
        Ok(v) => v,
        Err(msg) => {
            return Err(
                Error::Parsing {
                    details: String::from_str("failed to decode a record of the reply"),
                    source: msg,
                    response_body: String::from_str(body),
                },
            );
        },
    };
    let ghost recs = resp.data@;
    match parse_oil_daily(resp) {
        Ok(t) => {
            proof {
                assert(oil_daily_table_matches(t, recs));
            }
            Ok(t)
        },
        Err(_) => vstd::pervasive::unreached(),
    }
}

/// One row of the gold daily-trade endpoint.
#[derive(Debug)]
pub struct GoldDailyRecord {
    pub base_date: Date,
    pub issue_code: String,
    pub issue_name: String,
    pub close_price: Option<Decimal>,
    pub open_price: Option<Decimal>,
    pub high_price: Option<Decimal>,
    pub low_price: Option<Decimal>,
    pub price_change: Option<Decimal>,
    pub fluctuation_rate: Option<Decimal>,
    pub trading_volume: Option<u64>,
    pub trading_value: Option<u64>,
}

/// Every field of the record is present and coercible.
pub open spec fn gold_daily_fields_ok(fv: Seq<(Seq<char>, Seq<char>)>) -> bool {
    &&& field_lookup(fv, "BAS_DD"@) matches Some(s) && date_result(s) is Some
    &&& field_lookup(fv, "ISU_CD"@) is Some
    &&& field_lookup(fv, "ISU_NM"@) is Some
    &&& field_lookup(fv, "TDD_CLSPRC"@) matches Some(s) && opt_dec_result(s) is Some
    &&& field_lookup(fv, "TDD_OPNPRC"@) matches Some(s) && opt_dec_result(s) is Some
    &&& field_lookup(fv, "TDD_HGPRC"@) matches Some(s) && opt_dec_result(s) is Some
    &&& field_lookup(fv, "TDD_LWPRC"@) matches Some(s) && opt_dec_result(s) is Some
    &&& field_lookup(fv, "CMPPREVDD_PRC"@) matches Some(s) && opt_dec_result(s) is Some
    &&& field_lookup(fv, "FLUC_RT"@) matches Some(s) && opt_pct_result(s) is Some
    &&& field_lookup(fv, "ACC_TRDVOL"@) matches Some(s) && opt_u64_result(s) is Some
    &&& field_lookup(fv, "ACC_TRDVAL"@) matches Some(s) && opt_u64_result(s) is Some
}

/// `rec` holds exactly the coerced fields of the raw record `fv`.
pub open spec fn gold_daily_matches(rec: GoldDailyRecord, fv: Seq<(Seq<char>, Seq<char>)>) -> bool {
    &&& Some(rec.base_date) == date_result(field_lookup(fv, "BAS_DD"@)->Some_0)
    &&& Some(rec.issue_code@) == field_lookup(fv, "ISU_CD"@)
    &&& Some(rec.issue_name@) == field_lookup(fv, "ISU_NM"@)
    &&& Some(rec.close_price) == opt_dec_result(field_lookup(fv, "TDD_CLSPRC"@)->Some_0)
    &&& Some(rec.open_price) == opt_dec_result(field_lookup(fv, "TDD_OPNPRC"@)->Some_0)
    &&& Some(rec.high_price) == opt_dec_result(field_lookup(fv, "TDD_HGPRC"@)->Some_0)
    &&& Some(rec.low_price) == opt_dec_result(field_lookup(fv, "TDD_LWPRC"@)->Some_0)
    &&& Some(rec.price_change) == opt_dec_result(field_lookup(fv, "CMPPREVDD_PRC"@)->Some_0)
    &&& Some(rec.fluctuation_rate) == opt_pct_result(field_lookup(fv, "FLUC_RT"@)->Some_0)
    &&& Some(rec.trading_volume) == opt_u64_result(field_lookup(fv, "ACC_TRDVOL"@)->Some_0)
    &&& Some(rec.trading_value) == opt_u64_result(field_lookup(fv, "ACC_TRDVAL"@)->Some_0)
}

/// Decodes one raw record of the endpoint.
pub fn decode_gold_daily(fields: &Vec<(String, String)>) -> (r: Result<GoldDailyRecord, String>)
    ensures
        r is Ok <==> gold_daily_fields_ok(fields.deep_view()),
        r matches Ok(rec) ==> gold_daily_matches(rec, fields.deep_view()),
{
    let base_date = match get_field(fields, "BAS_DD") {
        Some(s) => match deserialize_krx_date(s.as_str()) {
            Ok(v) => v,
            Err(e) => {
                return Err(e);
            },
        },
        None => {
            return Err(String::from_str("missing field BAS_DD"));
        },
    };
    let issue_code = match get_field(fields, "ISU_CD") {
        Some(s) => s.clone(),
        None => {
            return Err(String::from_str("missing field ISU_CD"));
        },
    };
    let issue_name = match get_field(fields, "ISU_NM") {
        Some(s) => s.clone(),
        None => {
            return Err(String::from_str("missing field ISU_NM"));
        },
    };
    let close_price = match get_field(fields, "TDD_CLSPRC") {
        Some(s) => match deserialize_optional_f64(s.as_str()) {
            Ok(v) => v,
            Err(e) => {
                return Err(e);
            },
        },
        None => {
            return Err(String::from_str("missing field TDD_CLSPRC"));
        },
    };
    let open_price = match get_field(fields, "TDD_OPNPRC") {
        Some(s) => match deserialize_optional_f64(s.as_str()) {
            Ok(v) => v,
            Err(e) => {
                return Err(e);
            },
        },
        None => {
            return Err(String::from_str("missing field TDD_OPNPRC"));
        },
    };
    let high_price = match get_field(fields, "TDD_HGPRC") {
        Some(s) => match deserialize_optional_f64(s.as_str()) {
            Ok(v) => v,
            Err(e) => {
                return Err(e);
            },
        },
        None => {
            return Err(String::from_str("missing field TDD_HGPRC"));
        },
    };
    let low_price = match get_field(fields, "TDD_LWPRC") {
        Some(s) => match deserialize_optional_f64(s.as_str()) {
            Ok(v) => v,
            Err(e) => {
                return Err(e);
            },
        },
        None => {
            return Err(String::from_str("missing field TDD_LWPRC"));
        },
    };
    let price_change = match get_field(fields, "CMPPREVDD_PRC") {
        Some(s) => match deserialize_optional_f64(s.as_str()) {
            Ok(v) => v,
            Err(e) => {
                return Err(e);
            },
        },
        None => {
            return Err(String::from_str("missing field CMPPREVDD_PRC"));
        },
    };
    let fluctuation_rate = match get_field(fields, "FLUC_RT") {
        Some(s) => match deserialize_optional_percentage(s.as_str()) {
            Ok(v) => v,
            Err(e) => {
                return Err(e);
            },
        },
        None => {
            return Err(String::from_str("missing field FLUC_RT"));
        },
    };
    let trading_volume = match get_field(fields, "ACC_TRDVOL") {
        Some(s) => match deserialize_optional_u64(s.as_str()) {
            Ok(v) => v,
            Err(e) => {
                return Err(e);
            },
        },
        None => {
            return Err(String::from_str("missing field ACC_TRDVOL"));
        },
    };
    let trading_value = match get_field(fields, "ACC_TRDVAL") {
        Some(s) => match deserialize_optional_u64(s.as_str()) {
            Ok(v) => v,
            Err(e) => {
                return Err(e);
            },
        },
        None => {
            return Err(String::from_str("missing field ACC_TRDVAL"));
        },
    };
    Ok(
        GoldDailyRecord {
            base_date,
            issue_code,
            issue_name,
            close_price,
            open_price,
            high_price,
            low_price,
            price_change,
            fluctuation_rate,
            trading_volume,
            trading_value,
        },
    )
}

/// Every raw record of the reply decodes.
pub open spec fn gold_daily_records_ok(rv: Seq<Seq<(Seq<char>, Seq<char>)>>) -> bool {
    forall|i: int| 0 <= i < rv.len() ==> gold_daily_fields_ok(#[trigger] rv[i])
}

/// Decodes every raw record of a reply, in order, failing on the first
/// record that does not decode.
pub fn decode_gold_daily_response(raw: &Vec<Vec<(String, String)>>) -> (r: Result<
    ApiResponse<GoldDailyRecord>,
    String,
>)
    ensures
        r is Ok <==> gold_daily_records_ok(raw.deep_view()),
        r matches Ok(resp) ==> resp.data@.len() == raw@.len() && (forall|i: int|
            0 <= i < resp.data@.len() ==> gold_daily_matches(
                #[trigger] resp.data@[i],
                raw.deep_view()[i],
            )),
{
    let ghost rv = raw.deep_view();
    let mut data: Vec<GoldDailyRecord> = Vec::new();
    let mut i: usize = 0;
    while i < raw.len()
        invariant
            rv == raw.deep_view(),
            rv.len() == raw@.len(),
            forall|k: int| 0 <= k < rv.len() ==> #[trigger] rv[k] == raw@[k].deep_view(),
            0 <= i <= raw@.len(),
            data@.len() == i,
            forall|k: int| 0 <= k < i ==> gold_daily_fields_ok(#[trigger] rv[k]),
            forall|k: int| 0 <= k < i ==> gold_daily_matches(#[trigger] data@[k], rv[k]),
        decreases raw@.len() - i,
    {
        match decode_gold_daily(&raw[i]) {
            Ok(rec) => {
                data.push(rec);
            },
            Err(e) => {
                proof {
                    assert(!gold_daily_fields_ok(rv[i as int]));
                }
                return Err(e);
            },
        }
        i += 1;
    }
    Ok(ApiResponse { data })
}

/// `t` is exactly the table of the records `rs`: 11 fixed columns, one
/// value per record in input order, and the empty table for no records.
pub open spec fn gold_daily_table_matches(t: Table, rs: Seq<GoldDailyRecord>) -> bool {
    &&& rs.len() == 0 ==> t.columns@.len() == 0
    &&& rs.len() > 0 ==> {
        &&& t.columns@.len() == 11
        &&& col_text(
            t.columns@[0],
            "날짜"@,
            Seq::new(rs.len(), |i: int| iso_of(rs[i].base_date)),
        )
        &&& col_text(
            t.columns@[1],
            "종목코드"@,
            Seq::new(rs.len(), |i: int| rs[i].issue_code@),
        )
        &&& col_text(
            t.columns@[2],
            "종목명"@,
            Seq::new(rs.len(), |i: int| rs[i].issue_name@),
        )
        &&& col_dec(
            t.columns@[3],
            "종가"@,
            Seq::new(rs.len(), |i: int| rs[i].close_price),
        )
        &&& col_dec(
            t.columns@[4],
            "시가"@,
            Seq::new(rs.len(), |i: int| rs[i].open_price),
        )
        &&& col_dec(
            t.columns@[5],
            "고가"@,
            Seq::new(rs.len(), |i: int| rs[i].high_price),
        )
        &&& col_dec(
            t.columns@[6],
            "저가"@,
            Seq::new(rs.len(), |i: int| rs[i].low_price),
        )
        &&& col_dec(
            t.columns@[7],
            "대비"@,
            Seq::new(rs.len(), |i: int| rs[i].price_change),
        )
        &&& col_dec(
            t.columns@[8],
            "등락률"@,
            Seq::new(rs.len(), |i: int| rs[i].fluctuation_rate),
        )
        &&& col_uint(
            t.columns@[9],
            "거래량"@,
            Seq::new(rs.len(), |i: int| rs[i].trading_volume),
        )
        &&& col_uint(
            t.columns@[10],
            "거래대금"@,
            Seq::new(rs.len(), |i: int| rs[i].trading_value),
        )
    }
}

/// Flattens the typed records into their table; zero records give the
/// empty table of zero columns and zero rows.
pub fn parse_gold_daily(response: ApiResponse<GoldDailyRecord>) -> (r: Result<Table, Error>)
    ensures
        r is Ok,
        r matches Ok(t) ==> gold_daily_table_matches(t, response.data@),
{
    let records = response.data;
    if records.len() == 0 {
        return Ok(Table::empty());
    }
    let n = records.len();
    let mut c0: Vec<String> = Vec::new();
    let mut c1: Vec<String> = Vec::new();
    let mut c2: Vec<String> = Vec::new();
    let mut c3: Vec<Option<Decimal>> = Vec::new();
    let mut c4: Vec<Option<Decimal>> = Vec::new();
    let mut c5: Vec<Option<Decimal>> = Vec::new();
    let mut c6: Vec<Option<Decimal>> = Vec::new();
    let mut c7: Vec<Option<Decimal>> = Vec::new();
    let mut c8: Vec<Option<Decimal>> = Vec::new();
    let mut c9: Vec<Option<u64>> = Vec::new();
    let mut c10: Vec<Option<u64>> = Vec::new();
    let mut i: usize = 0;
    while i < n
        invariant
            n == records@.len(),
            0 <= i <= n,
            c0@.len() == i && forall|k: int|
                0 <= k < i ==> (#[trigger] c0@[k])@ == iso_of(records@[k].base_date),
            c1@.len() == i && forall|k: int|
                0 <= k < i ==> (#[trigger] c1@[k])@ == records@[k].issue_code@,
            c2@.len() == i && forall|k: int|
                0 <= k < i ==> (#[trigger] c2@[k])@ == records@[k].issue_name@,
            c3@.len() == i && forall|k: int|
                0 <= k < i ==> #[trigger] c3@[k] == records@[k].close_price,
            c4@.len() == i && forall|k: int|
                0 <= k < i ==> #[trigger] c4@[k] == records@[k].open_price,
            c5@.len() == i && forall|k: int|
                0 <= k < i ==> #[trigger] c5@[k] == records@[k].high_price,
            c6@.len() == i && forall|k: int|
                0 <= k < i ==> #[trigger] c6@[k] == records@[k].low_price,
            c7@.len() == i && forall|k: int|
                0 <= k < i ==> #[trigger] c7@[k] == records@[k].price_change,
            c8@.len() == i && forall|k: int|
                0 <= k < i ==> #[trigger] c8@[k] == records@[k].fluctuation_rate,
            c9@.len() == i && forall|k: int|
                0 <= k < i ==> #[trigger] c9@[k] == records@[k].trading_volume,
            c10@.len() == i && forall|k: int|
                0 <= k < i ==> #[trigger] c10@[k] == records@[k].trading_value,
        decreases n - i,
    {
        let rec = &records[i];
        c0.push(rec.base_date.to_iso_string());
        c1.push(rec.issue_code.clone());
        c2.push(rec.issue_name.clone());
        c3.push(rec.close_price);
        c4.push(rec.open_price);
        c5.push(rec.high_price);
        c6.push(rec.low_price);
        c7.push(rec.price_change);
        c8.push(rec.fluctuation_rate);
        c9.push(rec.trading_volume);
        c10.push(rec.trading_value);
        i += 1;
    }
    proof {
        let rs = records@;
        assert(c0.deep_view() =~= Seq::new(rs.len(), |i: int| iso_of(rs[i].base_date)));
        assert(c1.deep_view() =~= Seq::new(rs.len(), |i: int| rs[i].issue_code@));
        assert(c2.deep_view() =~= Seq::new(rs.len(), |i: int| rs[i].issue_name@));
        assert(c3@ =~= Seq::new(rs.len(), |i: int| rs[i].close_price));
        assert(c4@ =~= Seq::new(rs.len(), |i: int| rs[i].open_price));
        assert(c5@ =~= Seq::new(rs.len(), |i: int| rs[i].high_price));
        assert(c6@ =~= Seq::new(rs.len(), |i: int| rs[i].low_price));
        assert(c7@ =~= Seq::new(rs.len(), |i: int| rs[i].price_change));
        assert(c8@ =~= Seq::new(rs.len(), |i: int| rs[i].fluctuation_rate));
        assert(c9@ =~= Seq::new(rs.len(), |i: int| rs[i].trading_volume));
        assert(c10@ =~= Seq::new(rs.len(), |i: int| rs[i].trading_value));
    }
    let mut columns: Vec<Column> = Vec::new();
    columns.push(
        Column { name: String::from_str("날짜"), data: ColumnData::Text(c0) },
    );
    columns.push(
        Column { name: String::from_str("종목코드"), data: ColumnData::Text(c1) },
    );
    columns.push(
        Column { name: String::from_str("종목명"), data: ColumnData::Text(c2) },
    );
    columns.push(
        Column { name: String::from_str("종가"), data: ColumnData::Dec(c3) },
    );
    columns.push(
        Column { name: String::from_str("시가"), data: ColumnData::Dec(c4) },
    );
    columns.push(
        Column { name: String::from_str("고가"), data: ColumnData::Dec(c5) },
    );
    columns.push(
        Column { name: String::from_str("저가"), data: ColumnData::Dec(c6) },
    );
    columns.push(
        Column { name: String::from_str("대비"), data: ColumnData::Dec(c7) },
    );
    columns.push(
        Column { name: String::from_str("등락률"), data: ColumnData::Dec(c8) },
    );
    columns.push(
        Column { name: String::from_str("거래량"), data: ColumnData::UInt(c9) },
    );
    columns.push(
        Column { name: String::from_str("거래대금"), data: ColumnData::UInt(c10) },
    );
    Ok(Table { columns })
}

/// `t` is the table some decoded record sequence of `body` flattens to.
pub open spec fn gold_daily_body_table(body: Seq<char>, t: Table) -> bool {
    exists|recs: Seq<GoldDailyRecord>|
        #![trigger gold_daily_table_matches(t, recs)]
        {
            &&& envelope_result(body) matches Some(rv)
            &&& recs.len() == rv.len()
            &&& (forall|i: int| 0 <= i < recs.len() ==> gold_daily_matches(#[trigger] recs[i], rv[i]))
            &&& gold_daily_table_matches(t, recs)
        }
}

/// The whole decode pipeline of a 2xx body for this endpoint: envelope,
/// records, table.  Every failure is a `Parsing` error carrying the body.
pub fn gold_daily_table_from_body(body: &str) -> (r: Result<Table, Error>)
    ensures
        r is Ok <==> (envelope_result(body@) matches Some(rv) && gold_daily_records_ok(rv)),
        r matches Ok(t) ==> gold_daily_body_table(body@, t),
        r matches Err(e) ==> (e matches Error::Parsing {
            details: _,
            source: _,
            response_body,
        } && response_body@ == body@),
{
    let raw = match parse_envelope(body) {
        Ok(v) => v,
        Err(e) => {
            return Err(e);
        },
    };
    let resp = match decode_gold_daily_response(&raw) {
        Ok(v) => v,
        Err(msg) => {
            return Err(
                Error::Parsing {
                    details: String::from_str("failed to decode a record of the reply"),
                    source: msg,
                    response_body: String::from_str(body),
                },
            );
        },
    };
    let ghost recs = resp.data@;
    match parse_gold_daily(resp) {
        Ok(t) => {
            proof {
                assert(gold_daily_table_matches(t, recs));
            }
            Ok(t)
        },
        Err(_) => vstd::pervasive::unreached(),
    }
}

/// One row of the emission permit daily-trade endpoint.
#[derive(Debug)]
pub struct EmissionsDailyRecord {
    pub base_date: Date,
    pub issue_code: String,
    pub issue_name: String,
    pub close_price: Option<Decimal>,
    pub open_price: Option<Decimal>,
    pub high_price: Option<Decimal>,
    pub low_price: Option<Decimal>,
    pub price_change: Option<Decimal>,
    pub fluctuation_rate: Option<Decimal>,
    pub trading_volume: Option<u64>,
    pub trading_value: Option<u64>,
}

/// Every field of the record is present and coercible.
pub open spec fn emissions_daily_fields_ok(fv: Seq<(Seq<char>, Seq<char>)>) -> bool {
    &&& field_lookup(fv, "BAS_DD"@) matches Some(s) && date_result(s) is Some
    &&& field_lookup(fv, "ISU_CD"@) is Some
    &&& field_lookup(fv, "ISU_NM"@) is Some
    &&& field_lookup(fv, "TDD_CLSPRC"@) matches Some(s) && opt_dec_result(s) is Some
    &&& field_lookup(fv, "TDD_OPNPRC"@) matches Some(s) && opt_dec_result(s) is Some
    &&& field_lookup(fv, "TDD_HGPRC"@) matches Some(s) && opt_dec_result(s) is Some
    &&& field_lookup(fv, "TDD_LWPRC"@) matches Some(s) && opt_dec_result(s) is Some
    &&& field_lookup(fv, "CMPPREVDD_PRC"@) matches Some(s) && opt_dec_result(s) is Some
    &&& field_lookup(fv, "FLUC_RT"@) matches Some(s) && opt_pct_result(s) is Some
    &&& field_lookup(fv, "ACC_TRDVOL"@) matches Some(s) && opt_u64_result(s) is Some
    &&& field_lookup(fv, "ACC_TRDVAL"@) matches Some(s) && opt_u64_result(s) is Some
}

/// `rec` holds exactly the coerced fields of the raw record `fv`.
pub open spec fn emissions_daily_matches(rec: EmissionsDailyRecord, fv: Seq<(Seq<char>, Seq<char>)>) -> bool {
    &&& Some(rec.base_date) == date_result(field_lookup(fv, "BAS_DD"@)->Some_0)
    &&& Some(rec.issue_code@) == field_lookup(fv, "ISU_CD"@)
    &&& Some(rec.issue_name@) == field_lookup(fv, "ISU_NM"@)
    &&& Some(rec.close_price) == opt_dec_result(field_lookup(fv, "TDD_CLSPRC"@)->Some_0)
    &&& Some(rec.open_price) == opt_dec_result(field_lookup(fv, "TDD_OPNPRC"@)->Some_0)
    &&& Some(rec.high_price) == opt_dec_result(field_lookup(fv, "TDD_HGPRC"@)->Some_0)
    &&& Some(rec.low_price) == opt_dec_result(field_lookup(fv, "TDD_LWPRC"@)->Some_0)
    &&& Some(rec.price_change) == opt_dec_result(field_lookup(fv, "CMPPREVDD_PRC"@)->Some_0)
    &&& Some(rec.fluctuation_rate) == opt_pct_result(field_lookup(fv, "FLUC_RT"@)->Some_0)
    &&& Some(rec.trading_volume) == opt_u64_result(field_lookup(fv, "ACC_TRDVOL"@)->Some_0)
    &&& Some(rec.trading_value) == opt_u64_result(field_lookup(fv, "ACC_TRDVAL"@)->Some_0)
}

/// Decodes one raw record of the endpoint.
pub fn decode_emissions_daily(fields: &Vec<(String, String)>) -> (r: Result<EmissionsDailyRecord, String>)
    ensures
        r is Ok <==> emissions_daily_fields_ok(fields.deep_view()),
        r matches Ok(rec) ==> emissions_daily_matches(rec, fields.deep_view()),
{
    let base_date = match get_field(fields, "BAS_DD") {
        Some(s) => match deserialize_krx_date(s.as_str()) {
            Ok(v) => v,
            Err(e) => {
                return Err(e);
            },
        },
        None => {
            return Err(String::from_str("missing field BAS_DD"));
        },
    };
    let issue_code = match get_field(fields, "ISU_CD") {
        Some(s) => s.clone(),
        None => {
            return Err(String::from_str("missing field ISU_CD"));
        },
    };
    let issue_name = match get_field(fields, "ISU_NM") {
        Some(s) => s.clone(),
        None => {
            return Err(String::from_str("missing field ISU_NM"));
        },
    };
    let close_price = match get_field(fields, "TDD_CLSPRC") {
        Some(s) => match deserialize_optional_f64(s.as_str()) {
            Ok(v) => v,
            Err(e) => {
                return Err(e);
            },
        },
        None => {
            return Err(String::from_str("missing field TDD_CLSPRC"));
        },
    };
    let open_price = match get_field(fields, "TDD_OPNPRC") {
        Some(s) => match deserialize_optional_f64(s.as_str()) {
            Ok(v) => v,
            Err(e) => {
                return Err(e);
            },
        },
        None => {
            return Err(String::from_str("missing field TDD_OPNPRC"));
        },
    };
    let high_price = match get_field(fields, "TDD_HGPRC") {
        Some(s) => match deserialize_optional_f64(s.as_str()) {
            Ok(v) => v,
            Err(e) => {
                return Err(e);
            },
        },
        None => {
            return Err(String::from_str("missing field TDD_HGPRC"));
        },
    };
    let low_price = match get_field(fields, "TDD_LWPRC") {
        Some(s) => match deserialize_optional_f64(s.as_str()) {
            Ok(v) => v,
            Err(e) => {
                return Err(e);
            },
        },
        None => {
            return Err(String::from_str("missing field TDD_LWPRC"));
        },
    };
    let price_change = match get_field(fields, "CMPPREVDD_PRC") {
        Some(s) => match deserialize_optional_f64(s.as_str()) {
            Ok(v) => v,
            Err(e) => {
                return Err(e);
            },
        },
        None => {
            return Err(String::from_str("missing field CMPPREVDD_PRC"));
        },
    };
    let fluctuation_rate = match get_field(fields, "FLUC_RT") {
        Some(s) => match deserialize_optional_percentage(s.as_str()) {
            Ok(v) => v,
            Err(e) => {
                return Err(e);
            },
        },
        None => {
            return Err(String::from_str("missing field FLUC_RT"));
        },
    };
    let trading_volume = match get_field(fields, "ACC_TRDVOL") {
        Some(s) => match deserialize_optional_u64(s.as_str()) {
            Ok(v) => v,
            Err(e) => {
                return Err(e);
            },
        },
        None => {
            return Err(String::from_str("missing field ACC_TRDVOL"));
        },
    };
    let trading_value = match get_field(fields, "ACC_TRDVAL") {
        Some(s) => match deserialize_optional_u64(s.as_str()) {
            Ok(v) => v,
            Err(e) => {
                return Err(e);
            },
        },
        None => {
            return Err(String::from_str("missing field ACC_TRDVAL"));
        },
    };
    Ok(
        EmissionsDailyRecord {
            base_date,
            issue_code,
            issue_name,
            close_price,
            open_price,
            high_price,
            low_price,
            price_change,
            fluctuation_rate,
            trading_volume,
            trading_value,
        },
    )
}

/// Every raw record of the reply decodes.
pub open spec fn emissions_daily_records_ok(rv: Seq<Seq<(Seq<char>, Seq<char>)>>) -> bool {
    forall|i: int| 0 <= i < rv.len() ==> emissions_daily_fields_ok(#[trigger] rv[i])
}

/// Decodes every raw record of a reply, in order, failing on the first
/// record that does not decode.
pub fn decode_emissions_daily_response(raw: &Vec<Vec<(String, String)>>) -> (r: Result<
    ApiResponse<EmissionsDailyRecord>,
    String,
>)
    ensures
        r is Ok <==> emissions_daily_records_ok(raw.deep_view()),
        r matches Ok(resp) ==> resp.data@.len() == raw@.len() && (forall|i: int|
            0 <= i < resp.data@.len() ==> emissions_daily_matches(
                #[trigger] resp.data@[i],
                raw.deep_view()[i],
            )),
{
    let ghost rv = raw.deep_view();
    let mut data: Vec<EmissionsDailyRecord> = Vec::new();
    let mut i: usize = 0;
    while i < raw.len()
        invariant
            rv == raw.deep_view(),
            rv.len() == raw@.len(),
            forall|k: int| 0 <= k < rv.len() ==> #[trigger] rv[k] == raw@[k].deep_view(),
            0 <= i <= raw@.len(),
            data@.len() == i,
            forall|k: int| 0 <= k < i ==> emissions_daily_fields_ok(#[trigger] rv[k]),
            forall|k: int| 0 <= k < i ==> emissions_daily_matches(#[trigger] data@[k], rv[k]),
        decreases raw@.len() - i,
    {
        match decode_emissions_daily(&raw[i]) {
            Ok(rec) => {
                data.push(rec);
            },
            Err(e) => {
                proof {
                    assert(!emissions_daily_fields_ok(rv[i as int]));
                }
                return Err(e);
            },
        }
        i += 1;
    }
    Ok(ApiResponse { data })
}

/// `t` is exactly the table of the records `rs`: 11 fixed columns, one
/// value per record in input order, and the empty table for no records.
pub open spec fn emissions_daily_table_matches(t: Table, rs: Seq<EmissionsDailyRecord>) -> bool {
    &&& rs.len() == 0 ==> t.columns@.len() == 0
    &&& rs.len() > 0 ==> {
        &&& t.columns@.len() == 11
        &&& col_text(
            t.columns@[0],
            "날짜"@,
            Seq::new(rs.len(), |i: int| iso_of(rs[i].base_date)),
        )
        &&& col_text(
            t.columns@[1],
            "종목코드"@,
            Seq::new(rs.len(), |i: int| rs[i].issue_code@),
        )
        &&& col_text(
            t.columns@[2],
            "종목명"@,
            Seq::new(rs.len(), |i: int| rs[i].issue_name@),
        )
        &&& col_dec(
            t.columns@[3],
            "종가"@,
            Seq::new(rs.len(), |i: int| rs[i].close_price),
        )
        &&& col_dec(
            t.columns@[4],
            "시가"@,
            Seq::new(rs.len(), |i: int| rs[i].open_price),
        )
        &&& col_dec(
            t.columns@[5],
            "고가"@,
            Seq::new(rs.len(), |i: int| rs[i].high_price),
        )
        &&& col_dec(
            t.columns@[6],
            "저가"@,
            Seq::new(rs.len(), |i: int| rs[i].low_price),
        )
        &&& col_dec(
            t.columns@[7],
            "대비"@,
            Seq::new(rs.len(), |i: int| rs[i].price_change),
        )
        &&& col_dec(
            t.columns@[8],
            "등락률"@,
            Seq::new(rs.len(), |i: int| rs[i].fluctuation_rate),
        )
        &&& col_uint(
            t.columns@[9],
            "거래량"@,
            Seq::new(rs.len(), |i: int| rs[i].trading_volume),
        )
        &&& col_uint(
            t.columns@[10],
            "거래대금"@,
            Seq::new(rs.len(), |i: int| rs[i].trading_value),
        )
    }
}

/// Flattens the typed records into their table; zero records give the
/// empty table of zero columns and zero rows.
pub fn parse_emissions_daily(response: ApiResponse<EmissionsDailyRecord>) -> (r: Result<Table, Error>)
    ensures
        r is Ok,
        r matches Ok(t) ==> emissions_daily_table_matches(t, response.data@),
{
    let records = response.data;
    if records.len() == 0 {
        return Ok(Table::empty());
    }
    let n = records.len();
    let mut c0: Vec<String> = Vec::new();
    let mut c1: Vec<String> = Vec::new();
    let mut c2: Vec<String> = Vec::new();
    let mut c3: Vec<Option<Decimal>> = Vec::new();
    let mut c4: Vec<Option<Decimal>> = Vec::new();
    let mut c5: Vec<Option<Decimal>> = Vec::new();
    let mut c6: Vec<Option<Decimal>> = Vec::new();
    let mut c7: Vec<Option<Decimal>> = Vec::new();
    let mut c8: Vec<Option<Decimal>> = Vec::new();
    let mut c9: Vec<Option<u64>> = Vec::new();
    let mut c10: Vec<Option<u64>> = Vec::new();
    let mut i: usize = 0;
    while i < n
        invariant
            n == records@.len(),
            0 <= i <= n,
            c0@.len() == i && forall|k: int|
                0 <= k < i ==> (#[trigger] c0@[k])@ == iso_of(records@[k].base_date),
            c1@.len() == i && forall|k: int|
                0 <= k < i ==> (#[trigger] c1@[k])@ == records@[k].issue_code@,
            c2@.len() == i && forall|k: int|
                0 <= k < i ==> (#[trigger] c2@[k])@ == records@[k].issue_name@,
            c3@.len() == i && forall|k: int|
                0 <= k < i ==> #[trigger] c3@[k] == records@[k].close_price,
            c4@.len() == i && forall|k: int|
                0 <= k < i ==> #[trigger] c4@[k] == records@[k].open_price,
            c5@.len() == i && forall|k: int|
                0 <= k < i ==> #[trigger] c5@[k] == records@[k].high_price,
            c6@.len() == i && forall|k: int|
                0 <= k < i ==> #[trigger] c6@[k] == records@[k].low_price,
            c7@.len() == i && forall|k: int|
                0 <= k < i ==> #[trigger] c7@[k] == records@[k].price_change,
            c8@.len() == i && forall|k: int|
                0 <= k < i ==> #[trigger] c8@[k] == records@[k].fluctuation_rate,
            c9@.len() == i && forall|k: int|
                0 <= k < i ==> #[trigger] c9@[k] == records@[k].trading_volume,
            c10@.len() == i && forall|k: int|
                0 <= k < i ==> #[trigger] c10@[k] == records@[k].trading_value,
        decreases n - i,
    {
        let rec = &records[i];
        c0.push(rec.base_date.to_iso_string());
        c1.push(rec.issue_code.clone());
        c2.push(rec.issue_name.clone());
        c3.push(rec.close_price);
        c4.push(rec.open_price);
        c5.push(rec.high_price);
        c6.push(rec.low_price);
        c7.push(rec.price_change);
        c8.push(rec.fluctuation_rate);
        c9.push(rec.trading_volume);
        c10.push(rec.trading_value);
        i += 1;
    }
    proof {
        let rs = records@;
        assert(c0.deep_view() =~= Seq::new(rs.len(), |i: int| iso_of(rs[i].base_date)));
        assert(c1.deep_view() =~= Seq::new(rs.len(), |i: int| rs[i].issue_code@));
        assert(c2.deep_view() =~= Seq::new(rs.len(), |i: int| rs[i].issue_name@));
        assert(c3@ =~= Seq::new(rs.len(), |i: int| rs[i].close_price));
        assert(c4@ =~= Seq::new(rs.len(), |i: int| rs[i].open_price));
        assert(c5@ =~= Seq::new(rs.len(), |i: int| rs[i].high_price));
        assert(c6@ =~= Seq::new(rs.len(), |i: int| rs[i].low_price));
        assert(c7@ =~= Seq::new(rs.len(), |i: int| rs[i].price_change));
        assert(c8@ =~= Seq::new(rs.len(), |i: int| rs[i].fluctuation_rate));
        assert(c9@ =~= Seq::new(rs.len(), |i: int| rs[i].trading_volume));
        assert(c10@ =~= Seq::new(rs.len(), |i: int| rs[i].trading_value));
    }
    let mut columns: Vec<Column> = Vec::new();
    columns.push(
        Column { name: String::from_str("날짜"), data: ColumnData::Text(c0) },
    );
    columns.push(
        Column { name: String::from_str("종목코드"), data: ColumnData::Text(c1) },
    );
    columns.push(
        Column { name: String::from_str("종목명"), data: ColumnData::Text(c2) },
    );
    columns.push(
        Column { name: String::from_str("종가"), data: ColumnData::Dec(c3) },
    );
    columns.push(
        Column { name: String::from_str("시가"), data: ColumnData::Dec(c4) },
    );
    columns.push(
        Column { name: String::from_str("고가"), data: ColumnData::Dec(c5) },
    );
    columns.push(
        Column { name: String::from_str("저가"), data: ColumnData::Dec(c6) },
    );
    columns.push(
        Column { name: String::from_str("대비"), data: ColumnData::Dec(c7) },
    );
    columns.push(
        Column { name: String::from_str("등락률"), data: ColumnData::Dec(c8) },
    );
    columns.push(
        Column { name: String::from_str("거래량"), data: ColumnData::UInt(c9) },
    );
    columns.push(
        Column { name: String::from_str("거래대금"), data: ColumnData::UInt(c10) },
    );
    Ok(Table { columns })
}

/// `t` is the table some decoded record sequence of `body` flattens to.
pub open spec fn emissions_daily_body_table(body: Seq<char>, t: Table) -> bool {
    exists|recs: Seq<EmissionsDailyRecord>|
        #![trigger emissions_daily_table_matches(t, recs)]
        {
            &&& envelope_result(body) matches Some(rv)
            &&& recs.len() == rv.len()
            &&& (forall|i: int| 0 <= i < recs.len() ==> emissions_daily_matches(#[trigger] recs[i], rv[i]))
            &&& emissions_daily_table_matches(t, recs)
        }
}

/// The whole decode pipeline of a 2xx body for this endpoint: envelope,
/// records, table.  Every failure is a `Parsing` error carrying the body.
pub fn emissions_daily_table_from_body(body: &str) -> (r: Result<Table, Error>)
    ensures
        r is Ok <==> (envelope_result(body@) matches Some(rv) && emissions_daily_records_ok(rv)),
        r matches Ok(t) ==> emissions_daily_body_table(body@, t),
        r matches Err(e) ==> (e matches Error::Parsing {
            details: _,
            source: _,
            response_body,
        } && response_body@ == body@),
{
    let raw = match parse_envelope(body) {
        Ok(v) => v,
        Err(e) => {
            return Err(e);
        },
    };
    let resp = match decode_emissions_daily_response(&raw) {
        Ok(v) => v,
        Err(msg) => {
            return Err(
                Error::Parsing {
                    details: String::from_str("failed to decode a record of the reply"),
                    source: msg,
                    response_body: String::from_str(body),
                },
            );
        },
    };
    let ghost recs = resp.data@;
    match parse_emissions_daily(resp) {
        Ok(t) => {
            proof {
                assert(emissions_daily_table_matches(t, recs));
            }
            Ok(t)
        },
        Err(_) => vstd::pervasive::unreached(),
    }
}

} // verus!
