//! Records and tables of the bond endpoints: the treasury market, the
//! general bond market, and the small-lot bond market.

use vstd::prelude::*;
use crate::data::{
    ApiResponse,
    deserialize_krx_date,
    deserialize_optional_f64,
    deserialize_optional_u64,
    envelope_result,
    field_lookup,
    get_field,
    opt_dec_result,
    opt_u64_result,
    parse_envelope,
};
use crate::date::{Date, date_result, iso_of};
use crate::error::Error;
use crate::num::Decimal;
use crate::table::{Column, ColumnData, Table, col_dec, col_text, col_uint};

verus! {

/// One row of the general bond daily-trade endpoint; the small-lot bond
/// endpoint shares this shape.  Its price-change field arrives as opaque
/// text and stays text.
#[derive(Debug)]
pub struct BondDailyRecord {
    pub base_date: Date,
    pub issue_code: String,
    pub issue_name: String,
    pub market_name: String,
    pub close_price: Option<Decimal>,
    pub close_price_yield: Option<Decimal>,
    pub open_price: Option<Decimal>,
    pub open_price_yield: Option<Decimal>,
    pub high_price: Option<Decimal>,
    pub high_price_yield: Option<Decimal>,
    pub low_price: Option<Decimal>,
    pub low_price_yield: Option<Decimal>,
    pub price_change: String,
    pub trading_volume: Option<u64>,
    pub trading_value: Option<u64>,
}

/// The `small_bond_daily` endpoints reuse this record shape.
pub type SmallBondDailyRecord = BondDailyRecord;

/// Every field of the record is present and coercible.
pub open spec fn bond_daily_fields_ok(fv: Seq<(Seq<char>, Seq<char>)>) -> bool {
    &&& field_lookup(fv, "BAS_DD"@) matches Some(s) && date_result(s) is Some
    &&& field_lookup(fv, "ISU_CD"@) is Some
    &&& field_lookup(fv, "ISU_NM"@) is Some
    &&& field_lookup(fv, "MKT_NM"@) is Some
    &&& field_lookup(fv, "CLSPRC"@) matches Some(s) && opt_dec_result(s) is Some
    &&& field_lookup(fv, "CLSPRC_YD"@) matches Some(s) && opt_dec_result(s) is Some
    &&& field_lookup(fv, "OPNPRC"@) matches Some(s) && opt_dec_result(s) is Some
    &&& field_lookup(fv, "OPNPRC_YD"@) matches Some(s) && opt_dec_result(s) is Some
    &&& field_lookup(fv, "HGPRC"@) matches Some(s) && opt_dec_result(s) is Some
    &&& field_lookup(fv, "HGPRC_YD"@) matches Some(s) && opt_dec_result(s) is Some
    &&& field_lookup(fv, "LWPRC"@) matches Some(s) && opt_dec_result(s) is Some
    &&& field_lookup(fv, "LWPRC_YD"@) matches Some(s) && opt_dec_result(s) is Some
    &&& field_lookup(fv, "CMPPREVDD_PRC"@) is Some
    &&& field_lookup(fv, "ACC_TRDVOL"@) matches Some(s) && opt_u64_result(s) is Some
    &&& field_lookup(fv, "ACC_TRDVAL"@) matches Some(s) && opt_u64_result(s) is Some
}

/// `rec` holds exactly the coerced fields of the raw record `fv`.
pub open spec fn bond_daily_matches(rec: BondDailyRecord, fv: Seq<(Seq<char>, Seq<char>)>) -> bool {
    &&& Some(rec.base_date) == date_result(field_lookup(fv, "BAS_DD"@)->Some_0)
    &&& Some(rec.issue_code@) == field_lookup(fv, "ISU_CD"@)
    &&& Some(rec.issue_name@) == field_lookup(fv, "ISU_NM"@)
    &&& Some(rec.market_name@) == field_lookup(fv, "MKT_NM"@)
    &&& Some(rec.close_price) == opt_dec_result(field_lookup(fv, "CLSPRC"@)->Some_0)
    &&& Some(rec.close_price_yield) == opt_dec_result(field_lookup(fv, "CLSPRC_YD"@)->Some_0)
    &&& Some(rec.open_price) == opt_dec_result(field_lookup(fv, "OPNPRC"@)->Some_0)
    &&& Some(rec.open_price_yield) == opt_dec_result(field_lookup(fv, "OPNPRC_YD"@)->Some_0)
    &&& Some(rec.high_price) == opt_dec_result(field_lookup(fv, "HGPRC"@)->Some_0)
    &&& Some(rec.high_price_yield) == opt_dec_result(field_lookup(fv, "HGPRC_YD"@)->Some_0)
    &&& Some(rec.low_price) == opt_dec_result(field_lookup(fv, "LWPRC"@)->Some_0)
    &&& Some(rec.low_price_yield) == opt_dec_result(field_lookup(fv, "LWPRC_YD"@)->Some_0)
    &&& Some(rec.price_change@) == field_lookup(fv, "CMPPREVDD_PRC"@)
    &&& Some(rec.trading_volume) == opt_u64_result(field_lookup(fv, "ACC_TRDVOL"@)->Some_0)
    &&& Some(rec.trading_value) == opt_u64_result(field_lookup(fv, "ACC_TRDVAL"@)->Some_0)
}

/// Decodes one raw record of the endpoint.
pub fn decode_bond_daily(fields: &Vec<(String, String)>) -> (r: Result<BondDailyRecord, String>)
    ensures
        r is Ok <==> bond_daily_fields_ok(fields.deep_view()),
        r matches Ok(rec) ==> bond_daily_matches(rec, fields.deep_view()),
{
    let base_date = match get_field(fields, "BAS_DD") {
        Some(s) => match deserialize_krx_date(s.as_str()) {
            Ok(v) => v,
            Err(e) => {
                return Err(e);
            },
        },
        None => {
            return Err(String::from_str("missing field BAS_DD"));
        },
    };
    let issue_code = match get_field(fields, "ISU_CD") {
        Some(s) => s.clone(),
        None => {
            return Err(String::from_str("missing field ISU_CD"));
        },
    };
    let issue_name = match get_field(fields, "ISU_NM") {
        Some(s) => s.clone(),
        None => {
            return Err(String::from_str("missing field ISU_NM"));
        },
    };
    let market_name = match get_field(fields, "MKT_NM") {
        Some(s) => s.clone(),
        None => {
            return Err(String::from_str("missing field MKT_NM"));
        },
    };
    let close_price = match get_field(fields, "CLSPRC") {
        Some(s) => match deserialize_optional_f64(s.as_str()) {
            Ok(v) => v,
            Err(e) => {
                return Err(e);
            },
        },
        None => {
            return Err(String::from_str("missing field CLSPRC"));
        },
    };
    let close_price_yield = match get_field(fields, "CLSPRC_YD") {
        Some(s) => match deserialize_optional_f64(s.as_str()) {
            Ok(v) => v,
            Err(e) => {
                return Err(e);
            },
        },
        None => {
            return Err(String::from_str("missing field CLSPRC_YD"));
        },
    };
    let open_price = match get_field(fields, "OPNPRC") {
        Some(s) => match deserialize_optional_f64(s.as_str()) {
            Ok(v) => v,
            Err(e) => {
                return Err(e);
            },
        },
        None => {
            return Err(String::from_str("missing field OPNPRC"));
        },
    };
    let open_price_yield = match get_field(fields, "OPNPRC_YD") {
        Some(s) => match deserialize_optional_f64(s.as_str()) {
            Ok(v) => v,
            Err(e) => {
                return Err(e);
            },
        },
        None => {
            return Err(String::from_str("missing field OPNPRC_YD"));
        },
    };
    let high_price = match get_field(fields, "HGPRC") {
        Some(s) => match deserialize_optional_f64(s.as_str()) {
            Ok(v) => v,
            Err(e) => {
                return Err(e);
            },
        },
        None => {
            return Err(String::from_str("missing field HGPRC"));
        },
    };
    let high_price_yield = match get_field(fields, "HGPRC_YD") {
        Some(s) => match deserialize_optional_f64(s.as_str()) {
            Ok(v) => v,
            Err(e) => {
                return Err(e);
            },
        },
        None => {
            return Err(String::from_str("missing field HGPRC_YD"));
        },
    };
    let low_price = match get_field(fields, "LWPRC") {
        Some(s) => match deserialize_optional_f64(s.as_str()) {
            Ok(v) => v,
            Err(e) => {
                return Err(e);
            },
        },
        None => {
            return Err(String::from_str("missing field LWPRC"));
        },
    };
    let low_price_yield = match get_field(fields, "LWPRC_YD") {
        Some(s) => match deserialize_optional_f64(s.as_str()) {
            Ok(v) => v,
            Err(e) => {
                return Err(e);
            },
        },
        None => {
            return Err(String::from_str("missing field LWPRC_YD"));
        },
    };
    let price_change = match get_field(fields, "CMPPREVDD_PRC") {
        Some(s) => s.clone(),
        None => {
            return Err(String::from_str("missing field CMPPREVDD_PRC"));
        },
    };
    let trading_volume = match get_field(fields, "ACC_TRDVOL") {
        Some(s) => match deserialize_optional_u64(s.as_str()) {
            Ok(v) => v,
            Err(e) => {
                return Err(e);
            },
        },
        None => {
            return Err(String::from_str("missing field ACC_TRDVOL"));
        },
    };
    let trading_value = match get_field(fields, "ACC_TRDVAL") {
        Some(s) => match deserialize_optional_u64(s.as_str()) {
            Ok(v) => v,
            Err(e) => {
                return Err(e);
            },
        },
        None => {
            return Err(String::from_str("missing field ACC_TRDVAL"));
        },
    };
    Ok(
        BondDailyRecord {
            base_date,
            issue_code,
            issue_name,
            market_name,
            close_price,
            close_price_yield,
            open_price,
            open_price_yield,
            high_price,
            high_price_yield,
            low_price,
            low_price_yield,
            price_change,
            trading_volume,
            trading_value,
        },
    )
}

/// Every raw record of the reply decodes.
pub open spec fn bond_daily_records_ok(rv: Seq<Seq<(Seq<char>, Seq<char>)>>) -> bool {
    forall|i: int| 0 <= i < rv.len() ==> bond_daily_fields_ok(#[trigger] rv[i])
}

/// Decodes every raw record of a reply, in order, failing on the first
/// record that does not decode.
pub fn decode_bond_daily_response(raw: &Vec<Vec<(String, String)>>) -> (r: Result<
    ApiResponse<BondDailyRecord>,
    String,
>)
    ensures
        r is Ok <==> bond_daily_records_ok(raw.deep_view()),
        r matches Ok(resp) ==> resp.data@.len() == raw@.len() && (forall|i: int|
            0 <= i < resp.data@.len() ==> bond_daily_matches(
                #[trigger] resp.data@[i],
                raw.deep_view()[i],
            )),
{
    let ghost rv = raw.deep_view();
    let mut data: Vec<BondDailyRecord> = Vec::new();
    let mut i: usize = 0;
    while i < raw.len()
        invariant
            rv == raw.deep_view(),
            rv.len() == raw@.len(),
            forall|k: int| 0 <= k < rv.len() ==> #[trigger] rv[k] == raw@[k].deep_view(),
            0 <= i <= raw@.len(),
            data@.len() == i,
            forall|k: int| 0 <= k < i ==> bond_daily_fields_ok(#[trigger] rv[k]),
            forall|k: int| 0 <= k < i ==> bond_daily_matches(#[trigger] data@[k], rv[k]),
        decreases raw@.len() - i,
    {
        match decode_bond_daily(&raw[i]) {
            Ok(rec) => {
                data.push(rec);
            },
            Err(e) => {
                proof {
                    assert(!bond_daily_fields_ok(rv[i as int]));
                }
                return Err(e);
            },
        }
        i += 1;
    }
    Ok(ApiResponse { data })
}

/// `t` is exactly the table of the records `rs`: 15 fixed columns, one
/// value per record in input order, and the empty table for no records.
pub open spec fn bond_daily_table_matches(t: Table, rs: Seq<BondDailyRecord>) -> bool {
    &&& rs.len() == 0 ==> t.columns@.len() == 0
    &&& rs.len() > 0 ==> {
        &&& t.columns@.len() == 15
        &&& col_text(
            t.columns@[0],
            "날짜"@,
            Seq::new(rs.len(), |i: int| iso_of(rs[i].base_date)),
        )
        &&& col_text(
            t.columns@[1],
            "종목코드"@,
            Seq::new(rs.len(), |i: int| rs[i].issue_code@),
        )
        &&& col_text(
            t.columns@[2],
            "종목명"@,
            Seq::new(rs.len(), |i: int| rs[i].issue_name@),
        )
        &&& col_text(
            t.columns@[3],
            "시장구분"@,
            Seq::new(rs.len(), |i: int| rs[i].market_name@),
        )
        &&& col_dec(
            t.columns@[4],
            "종가"@,
            Seq::new(rs.len(), |i: int| rs[i].close_price),
        )
        &&& col_dec(
            t.columns@[5],
            "종가수익률"@,
            Seq::new(rs.len(), |i: int| rs[i].close_price_yield),
        )
        &&& col_dec(
            t.columns@[6],
            "시가"@,
            Seq::new(rs.len(), |i: int| rs[i].open_price),
        )
        &&& col_dec(
            t.columns@[7],
            "시가수익률"@,
            Seq::new(rs.len(), |i: int| rs[i].open_price_yield),
        )
        &&& col_dec(
            t.columns@[8],
            "고가"@,
            Seq::new(rs.len(), |i: int| rs[i].high_price),
        )
        &&& col_dec(
            t.columns@[9],
            "고가수익률"@,
            Seq::new(rs.len(), |i: int| rs[i].high_price_yield),
        )
        &&& col_dec(
            t.columns@[10],
            "저가"@,
            Seq::new(rs.len(), |i: int| rs[i].low_price),
        )
        &&& col_dec(
            t.columns@[11],
            "저가수익률"@,
            Seq::new(rs.len(), |i: int| rs[i].low_price_yield),
        )
        &&& col_text(
            t.columns@[12],
            "대비"@,
            Seq::new(rs.len(), |i: int| rs[i].price_change@),
        )
        &&& col_uint(
            t.columns@[13],
            "거래량"@,
            Seq::new(rs.len(), |i: int| rs[i].trading_volume),
        )
        &&& col_uint(
            t.columns@[14],
            "거래대금"@,
            Seq::new(rs.len(), |i: int| rs[i].trading_value),
        )
    }
}

/// Flattens the typed records into their table; zero records give the
/// empty table of zero columns and zero rows.
pub fn parse_bond_daily(response: ApiResponse<BondDailyRecord>) -> (r: Result<Table, Error>)
    ensures
        r is Ok,
        r matches Ok(t) ==> bond_daily_table_matches(t, response.data@),
{
    let records = response.data;
    if records.len() == 0 {
        return Ok(Table::empty());
    }
    let n = records.len();
    let mut c0: Vec<String> = Vec::new();
    let mut c1: Vec<String> = Vec::new();
    let mut c2: Vec<String> = Vec::new();
    let mut c3: Vec<String> = Vec::new();
    let mut c4: Vec<Option<Decimal>> = Vec::new();
    let mut c5: Vec<Option<Decimal>> = Vec::new();
    let mut c6: Vec<Option<Decimal>> = Vec::new();
    let mut c7: Vec<Option<Decimal>> = Vec::new();
    let mut c8: Vec<Option<Decimal>> = Vec::new();
    let mut c9: Vec<Option<Decimal>> = Vec::new();
    let mut c10: Vec<Option<Decimal>> = Vec::new();
    let mut c11: Vec<Option<Decimal>> = Vec::new();
    let mut c12: Vec<String> = Vec::new();
    let mut c13: Vec<Option<u64>> = Vec::new();
    let mut c14: Vec<Option<u64>> = Vec::new();
    let mut i: usize = 0;
    while i < n
        invariant
            n == records@.len(),
            0 <= i <= n,
            c0@.len() == i && forall|k: int|
                0 <= k < i ==> (#[trigger] c0@[k])@ == iso_of(records@[k].base_date),
            c1@.len() == i && forall|k: int|
                0 <= k < i ==> (#[trigger] c1@[k])@ == records@[k].issue_code@,
            c2@.len() == i && forall|k: int|
                0 <= k < i ==> (#[trigger] c2@[k])@ == records@[k].issue_name@,
            c3@.len() == i && forall|k: int|
                0 <= k < i ==> (#[trigger] c3@[k])@ == records@[k].market_name@,
            c4@.len() == i && forall|k: int|
                0 <= k < i ==> #[trigger] c4@[k] == records@[k].close_price,
            c5@.len() == i && forall|k: int|
                0 <= k < i ==> #[trigger] c5@[k] == records@[k].close_price_yield,
            c6@.len() == i && forall|k: int|
                0 <= k < i ==> #[trigger] c6@[k] == records@[k].open_price,
            c7@.len() == i && forall|k: int|
                0 <= k < i ==> #[trigger] c7@[k] == records@[k].open_price_yield,
            c8@.len() == i && forall|k: int|
                0 <= k < i ==> #[trigger] c8@[k] == records@[k].high_price,
            c9@.len() == i && forall|k: int|
                0 <= k < i ==> #[trigger] c9@[k] == records@[k].high_price_yield,
            c10@.len() == i && forall|k: int|
                0 <= k < i ==> #[trigger] c10@[k] == records@[k].low_price,
            c11@.len() == i && forall|k: int|
                0 <= k < i ==> #[trigger] c11@[k] == records@[k].low_price_yield,
            c12@.len() == i && forall|k: int|
                0 <= k < i ==> (#[trigger] c12@[k])@ == records@[k].price_change@,
            c13@.len() == i && forall|k: int|
                0 <= k < i ==> #[trigger] c13@[k] == records@[k].trading_volume,
            c14@.len() == i && forall|k: int|
                0 <= k < i ==> #[trigger] c14@[k] == records@[k].trading_value,
        decreases n - i,
    {
        let rec = &records[i];
        c0.push(rec.base_date.to_iso_string());
        c1.push(rec.issue_code.clone());
        c2.push(rec.issue_name.clone());
        c3.push(rec.market_name.clone());
        c4.push(rec.close_price);
        c5.push(rec.close_price_yield);
        c6.push(rec.open_price);
        c7.push(rec.open_price_yield);
        c8.push(rec.high_price);
        c9.push(rec.high_price_yield);
        c10.push(rec.low_price);
        c11.push(rec.low_price_yield);
        c12.push(rec.price_change.clone());
        c13.push(rec.trading_volume);
        c14.push(rec.trading_value);
        i += 1;
    }
    proof {
        let rs = records@;
        assert(c0.deep_view() =~= Seq::new(rs.len(), |i: int| iso_of(rs[i].base_date)));
        assert(c1.deep_view() =~= Seq::new(rs.len(), |i: int| rs[i].issue_code@));
        assert(c2.deep_view() =~= Seq::new(rs.len(), |i: int| rs[i].issue_name@));
        assert(c3.deep_view() =~= Seq::new(rs.len(), |i: int| rs[i].market_name@));
        assert(c4@ =~= Seq::new(rs.len(), |i: int| rs[i].close_price));
        assert(c5@ =~= Seq::new(rs.len(), |i: int| rs[i].close_price_yield));
        assert(c6@ =~= Seq::new(rs.len(), |i: int| rs[i].open_price));
        assert(c7@ =~= Seq::new(rs.len(), |i: int| rs[i].open_price_yield));
        assert(c8@ =~= Seq::new(rs.len(), |i: int| rs[i].high_price));
        assert(c9@ =~= Seq::new(rs.len(), |i: int| rs[i].high_price_yield));
        assert(c10@ =~= Seq::new(rs.len(), |i: int| rs[i].low_price));
        assert(c11@ =~= Seq::new(rs.len(), |i: int| rs[i].low_price_yield));
        assert(c12.deep_view() =~= Seq::new(rs.len(), |i: int| rs[i].price_change@));
        assert(c13@ =~= Seq::new(rs.len(), |i: int| rs[i].trading_volume));
        assert(c14@ =~= Seq::new(rs.len(), |i: int| rs[i].trading_value));
    }
    let mut columns: Vec<Column> = Vec::new();
    columns.push(
        Column { name: String::from_str("날짜"), data: ColumnData::Text(c0) },
    );
    columns.push(
        Column { name: String::from_str("종목코드"), data: ColumnData::Text(c1) },
    );
    columns.push(
        Column { name: String::from_str("종목명"), data: ColumnData::Text(c2) },
    );
    columns.push(
        Column { name: String::from_str("시장구분"), data: ColumnData::Text(c3) },
    );
    columns.push(
        Column { name: String::from_str("종가"), data: ColumnData::Dec(c4) },
    );
    columns.push(
        Column { name: String::from_str("종가수익률"), data: ColumnData::Dec(c5) },
    );
    columns.push(
        Column { name: String::from_str("시가"), data: ColumnData::Dec(c6) },
    );
    columns.push(
        Column { name: String::from_str("시가수익률"), data: ColumnData::Dec(c7) },
    );
    columns.push(
        Column { name: String::from_str("고가"), data: ColumnData::Dec(c8) },
    );
    columns.push(
        Column { name: String::from_str("고가수익률"), data: ColumnData::Dec(c9) },
    );
    columns.push(
        Column { name: String::from_str("저가"), data: ColumnData::Dec(c10) },
    );
    columns.push(
        Column { name: String::from_str("저가수익률"), data: ColumnData::Dec(c11) },
    );
    columns.push(
        Column { name: String::from_str("대비"), data: ColumnData::Text(c12) },
    );
    columns.push(
        Column { name: String::from_str("거래량"), data: ColumnData::UInt(c13) },
    );
    columns.push(
        Column { name: String::from_str("거래대금"), data: ColumnData::UInt(c14) },
    );
    Ok(Table { columns })
}

/// As `parse_bond_daily`: the `small_bond_daily` endpoint shares its record shape
/// and its table, byte for byte.
pub fn parse_small_bond_daily(response: ApiResponse<SmallBondDailyRecord>) -> (r: Result<Table, Error>)
    ensures
        r is Ok,
        r matches Ok(t) ==> bond_daily_table_matches(t, response.data@),
{
    parse_bond_daily(response)
}

/// `t` is the table some decoded record sequence of `body` flattens to.
pub open spec fn bond_daily_body_table(body: Seq<char>, t: Table) -> bool {
    exists|recs: Seq<BondDailyRecord>|
        #![trigger bond_daily_table_matches(t, recs)]
        {
            &&& envelope_result(body) matches Some(rv)
            &&& recs.len() == rv.len()
            &&& (forall|i: int| 0 <= i < recs.len() ==> bond_daily_matches(#[trigger] recs[i], rv[i]))
            &&& bond_daily_table_matches(t, recs)
        }
}

/// The whole decode pipeline of a 2xx body for this endpoint: envelope,
/// records, table.  Every failure is a `Parsing` error carrying the body.
pub fn bond_daily_table_from_body(body: &str) -> (r: Result<Table, Error>)
    ensures
        r is Ok <==> (envelope_result(body@) matches Some(rv) && bond_daily_records_ok(rv)),
        r matches Ok(t) ==> bond_daily_body_table(body@, t),
        r matches Err(e) ==> (e matches Error::Parsing {
            details: _,
            source: _,
            response_body,
        } && response_body@ == body@),
{
    let raw = match parse_envelope(body) {
        Ok(v) => v,
        Err(e) => {
            return Err(e);
        },
    };
    let resp = match decode_bond_daily_response(&raw) {
        Ok(v) => v,
        Err(msg) => {
            return Err(
                Error::Parsing {
                    details: String::from_str("failed to decode a record of the reply"),
                    source: msg,
                    response_body: String::from_str(body),
                },
            );
        },
    };
    let ghost recs = resp.data@;
    match parse_bond_daily(resp) {
        Ok(t) => {
            proof {
                assert(bond_daily_table_matches(t, recs));
            }
            Ok(t)
        },
        Err(_) => vstd::pervasive::unreached(),
    }
}

/// One row of the treasury bond market daily-trade endpoint.
#[derive(Debug)]
pub struct KtsDailyRecord {
    pub base_date: Date,
    pub issue_code: String,
    pub issue_name: String,
    pub market_name: String,
    pub government_bond_issue_type: String,
    pub bond_expiry_type: String,
    pub close_price: Option<Decimal>,
    pub close_price_yield: Option<Decimal>,
    pub open_price: Option<Decimal>,
    pub open_price_yield: Option<Decimal>,
    pub high_price: Option<Decimal>,
    pub high_price_yield: Option<Decimal>,
    pub low_price: Option<Decimal>,
    pub low_price_yield: Option<Decimal>,
    pub price_change: Option<Decimal>,
    pub trading_volume: Option<u64>,
    pub trading_value: Option<u64>,
}

/// Every field of the record is present and coercible.
pub open spec fn kts_daily_fields_ok(fv: Seq<(Seq<char>, Seq<char>)>) -> bool {
    &&& field_lookup(fv, "BAS_DD"@) matches Some(s) && date_result(s) is Some
    &&& field_lookup(fv, "ISU_CD"@) is Some
    &&& field_lookup(fv, "ISU_NM"@) is Some
    &&& field_lookup(fv, "MKT_NM"@) is Some
    &&& field_lookup(fv, "GOVBND_ISU_TP_NM"@) is Some
    &&& field_lookup(fv, "BND_EXP_TP_NM"@) is Some
    &&& field_lookup(fv, "CLSPRC"@) matches Some(s) && opt_dec_result(s) is Some
    &&& field_lookup(fv, "CLSPRC_YD"@) matches Some(s) && opt_dec_result(s) is Some
    &&& field_lookup(fv, "OPNPRC"@) matches Some(s) && opt_dec_result(s) is Some
    &&& field_lookup(fv, "OPNPRC_YD"@) matches Some(s) && opt_dec_result(s) is Some
    &&& field_lookup(fv, "HGPRC"@) matches Some(s) && opt_dec_result(s) is Some
    &&& field_lookup(fv, "HGPRC_YD"@) matches Some(s) && opt_dec_result(s) is Some
    &&& field_lookup(fv, "LWPRC"@) matches Some(s) && opt_dec_result(s) is Some
    &&& field_lookup(fv, "LWPRC_YD"@) matches Some(s) && opt_dec_result(s) is Some
    &&& field_lookup(fv, "CMPPREVDD_PRC"@) matches Some(s) && opt_dec_result(s) is Some
    &&& field_lookup(fv, "ACC_TRDVOL"@) matches Some(s) && opt_u64_result(s) is Some
    &&& field_lookup(fv, "ACC_TRDVAL"@) matches Some(s) && opt_u64_result(s) is Some
}

/// `rec` holds exactly the coerced fields of the raw record `fv`.
pub open spec fn kts_daily_matches(rec: KtsDailyRecord, fv: Seq<(Seq<char>, Seq<char>)>) -> bool {
    &&& Some(rec.base_date) == date_result(field_lookup(fv, "BAS_DD"@)->Some_0)
    &&& Some(rec.issue_code@) == field_lookup(fv, "ISU_CD"@)
    &&& Some(rec.issue_name@) == field_lookup(fv, "ISU_NM"@)
    &&& Some(rec.market_name@) == field_lookup(fv, "MKT_NM"@)
    &&& Some(rec.government_bond_issue_type@) == field_lookup(fv, "GOVBND_ISU_TP_NM"@)
    &&& Some(rec.bond_expiry_type@) == field_lookup(fv, "BND_EXP_TP_NM"@)
    &&& Some(rec.close_price) == opt_dec_result(field_lookup(fv, "CLSPRC"@)->Some_0)
    &&& Some(rec.close_price_yield) == opt_dec_result(field_lookup(fv, "CLSPRC_YD"@)->Some_0)
    &&& Some(rec.open_price) == opt_dec_result(field_lookup(fv, "OPNPRC"@)->Some_0)
    &&& Some(rec.open_price_yield) == opt_dec_result(field_lookup(fv, "OPNPRC_YD"@)->Some_0)
    &&& Some(rec.high_price) == opt_dec_result(field_lookup(fv, "HGPRC"@)->Some_0)
    &&& Some(rec.high_price_yield) == opt_dec_result(field_lookup(fv, "HGPRC_YD"@)->Some_0)
    &&& Some(rec.low_price) == opt_dec_result(field_lookup(fv, "LWPRC"@)->Some_0)
    &&& Some(rec.low_price_yield) == opt_dec_result(field_lookup(fv, "LWPRC_YD"@)->Some_0)
    &&& Some(rec.price_change) == opt_dec_result(field_lookup(fv, "CMPPREVDD_PRC"@)->Some_0)
    &&& Some(rec.trading_volume) == opt_u64_result(field_lookup(fv, "ACC_TRDVOL"@)->Some_0)
    &&& Some(rec.trading_value) == opt_u64_result(field_lookup(fv, "ACC_TRDVAL"@)->Some_0)
}

/// Decodes one raw record of the endpoint.
pub fn decode_kts_daily(fields: &Vec<(String, String)>) -> (r: Result<KtsDailyRecord, String>)
    ensures
        r is Ok <==> kts_daily_fields_ok(fields.deep_view()),
        r matches Ok(rec) ==> kts_daily_matches(rec, fields.deep_view()),
{
    let base_date = match get_field(fields, "BAS_DD") {
        Some(s) => match deserialize_krx_date(s.as_str()) {
            Ok(v) => v,
            Err(e) => {
                return Err(e);
            },
        },
        None => {
            return Err(String::from_str("missing field BAS_DD"));
        },
    };
    let issue_code = match get_field(fields, "ISU_CD") {
        Some(s) => s.clone(),
        None => {
            return Err(String::from_str("missing field ISU_CD"));
        },
    };
    let issue_name = match get_field(fields, "ISU_NM") {
        Some(s) => s.clone(),
        None => {
            return Err(String::from_str("missing field ISU_NM"));
        },
    };
    let market_name = match get_field(fields, "MKT_NM") {
        Some(s) => s.clone(),
        None => {
            return Err(String::from_str("missing field MKT_NM"));
        },
    };
    let government_bond_issue_type = match get_field(fields, "GOVBND_ISU_TP_NM") {
        Some(s) => s.clone(),
        None => {
            return Err(String::from_str("missing field GOVBND_ISU_TP_NM"));
        },
    };
    let bond_expiry_type = match get_field(fields, "BND_EXP_TP_NM") {
        Some(s) => s.clone(),
        None => {
            return Err(String::from_str("missing field BND_EXP_TP_NM"));
        },
    };
    let close_price = match get_field(fields, "CLSPRC") {
        Some(s) => match deserialize_optional_f64(s.as_str()) {
            Ok(v) => v,
            Err(e) => {
                return Err(e);
            },
        },
        None => {
            return Err(String::from_str("missing field CLSPRC"));
        },
    };
    let close_price_yield = match get_field(fields, "CLSPRC_YD") {
        Some(s) => match deserialize_optional_f64(s.as_str()) {
            Ok(v) => v,
            Err(e) => {
                return Err(e);
            },
        },
        None => {
            return Err(String::from_str("missing field CLSPRC_YD"));
        },
    };
    let open_price = match get_field(fields, "OPNPRC") {
        Some(s) => match deserialize_optional_f64(s.as_str()) {
            Ok(v) => v,
            Err(e) => {
                return Err(e);
            },
        },
        None => {
            return Err(String::from_str("missing field OPNPRC"));
        },
    };
    let open_price_yield = match get_field(fields, "OPNPRC_YD") {
        Some(s) => match deserialize_optional_f64(s.as_str()) {
            Ok(v) => v,
            Err(e) => {
                return Err(e);
            },
        },
        None => {
            return Err(String::from_str("missing field OPNPRC_YD"));
        },
    };
    let high_price = match get_field(fields, "HGPRC") {
        Some(s) => match deserialize_optional_f64(s.as_str()) {
            Ok(v) => v,
            Err(e) => {
                return Err(e);
            },
        },
        None => {
            return Err(String::from_str("missing field HGPRC"));
        },
    };
    let high_price_yield = match get_field(fields, "HGPRC_YD") {
        Some(s) => match deserialize_optional_f64(s.as_str()) {
            Ok(v) => v,
            Err(e) => {
                return Err(e);
            },
        },
        None => {
            return Err(String::from_str("missing field HGPRC_YD"));
        },
    };
    let low_price = match get_field(fields, "LWPRC") {
        Some(s) => match deserialize_optional_f64(s.as_str()) {
            Ok(v) => v,
            Err(e) => {
                return Err(e);
            },
        },
        None => {
            return Err(String::from_str("missing field LWPRC"));
        },
    };
    let low_price_yield = match get_field(fields, "LWPRC_YD") {
        Some(s) => match deserialize_optional_f64(s.as_str()) {
            Ok(v) => v,
            Err(e) => {
                return Err(e);
            },
        },
        None => {
            return Err(String::from_str("missing field LWPRC_YD"));
        },
    };
    let price_change = match get_field(fields, "CMPPREVDD_PRC") {
        Some(s) => match deserialize_optional_f64(s.as_str()) {
            Ok(v) => v,
            Err(e) => {
                return Err(e);
            },
        },
        None => {
            return Err(String::from_str("missing field CMPPREVDD_PRC"));
        },
    };
    let trading_volume = match get_field(fields, "ACC_TRDVOL") {
        Some(s) => match deserialize_optional_u64(s.as_str()) {
            Ok(v) => v,
            Err(e) => {
                return Err(e);
            },
        },
        None => {
            return Err(String::from_str("missing field ACC_TRDVOL"));
        },
    };
    let trading_value = match get_field(fields, "ACC_TRDVAL") {
        Some(s) => match deserialize_optional_u64(s.as_str()) {
            Ok(v) => v,
            Err(e) => {
                return Err(e);
            },
        },
        None => {
            return Err(String::from_str("missing field ACC_TRDVAL"));
        },
    };
    Ok(
        KtsDailyRecord {
            base_date,
            issue_code,
            issue_name,
            market_name,
            government_bond_issue_type,
            bond_expiry_type,
            close_price,
            close_price_yield,
            open_price,
            open_price_yield,
            high_price,
            high_price_yield,
            low_price,
            low_price_yield,
            price_change,
            trading_volume,
            trading_value,
        },
    )
}

/// Every raw record of the reply decodes.
pub open spec fn kts_daily_records_ok(rv: Seq<Seq<(Seq<char>, Seq<char>)>>) -> bool {
    forall|i: int| 0 <= i < rv.len() ==> kts_daily_fields_ok(#[trigger] rv[i])
}

/// Decodes every raw record of a reply, in order, failing on the first
/// record that does not decode.
pub fn decode_kts_daily_response(raw: &Vec<Vec<(String, String)>>) -> (r: Result<
    ApiResponse<KtsDailyRecord>,
    String,
>)
    ensures
        r is Ok <==> kts_daily_records_ok(raw.deep_view()),
        r matches Ok(resp) ==> resp.data@.len() == raw@.len() && (forall|i: int|
            0 <= i < resp.data@.len() ==> kts_daily_matches(
                #[trigger] resp.data@[i],
                raw.deep_view()[i],
            )),
{
    let ghost rv = raw.deep_view();
    let mut data: Vec<KtsDailyRecord> = Vec::new();
    let mut i: usize = 0;
    while i < raw.len()
        invariant
            rv == raw.deep_view(),
            rv.len() == raw@.len(),
            forall|k: int| 0 <= k < rv.len() ==> #[trigger] rv[k] == raw@[k].deep_view(),
            0 <= i <= raw@.len(),
            data@.len() == i,
            forall|k: int| 0 <= k < i ==> kts_daily_fields_ok(#[trigger] rv[k]),
            forall|k: int| 0 <= k < i ==> kts_daily_matches(#[trigger] data@[k], rv[k]),
        decreases raw@.len() - i,
    {
        match decode_kts_daily(&raw[i]) {
            Ok(rec) => {
                data.push(rec);
            },
            Err(e) => {
                proof {
                    assert(!kts_daily_fields_ok(rv[i as int]));
                }
                return Err(e);
            },
        }
        i += 1;
    }
    Ok(ApiResponse { data })
}

/// `t` is exactly the table of the records `rs`: 17 fixed columns, one
/// value per record in input order, and the empty table for no records.
pub open spec fn kts_daily_table_matches(t: Table, rs: Seq<KtsDailyRecord>) -> bool {
    &&& rs.len() == 0 ==> t.columns@.len() == 0
    &&& rs.len() > 0 ==> {
        &&& t.columns@.len() == 17
        &&& col_text(
            t.columns@[0],
            "날짜"@,
            Seq::new(rs.len(), |i: int| iso_of(rs[i].base_date)),
        )
        &&& col_text(
            t.columns@[1],
            "종목코드"@,
            Seq::new(rs.len(), |i: int| rs[i].issue_code@),
        )
        &&& col_text(
            t.columns@[2],
            "종목명"@,
            Seq::new(rs.len(), |i: int| rs[i].issue_name@),
        )
        &&& col_text(
            t.columns@[3],
            "시장구분"@,
            Seq::new(rs.len(), |i: int| rs[i].market_name@),
        )
        &&& col_text(
            t.columns@[4],
            "국채발행유형"@,
            Seq::new(rs.len(), |i: int| rs[i].government_bond_issue_type@),
        )
        &&& col_text(
            t.columns@[5],
            "채권만기유형"@,
            Seq::new(rs.len(), |i: int| rs[i].bond_expiry_type@),
        )
        &&& col_dec(
            t.columns@[6],
            "종가"@,
            Seq::new(rs.len(), |i: int| rs[i].close_price),
        )
        &&& col_dec(
            t.columns@[7],
            "종가수익률"@,
            Seq::new(rs.len(), |i: int| rs[i].close_price_yield),
        )
        &&& col_dec(
            t.columns@[8],
            "시가"@,
            Seq::new(rs.len(), |i: int| rs[i].open_price),
        )
        &&& col_dec(
            t.columns@[9],
            "시가수익률"@,
            Seq::new(rs.len(), |i: int| rs[i].open_price_yield),
        )
        &&& col_dec(
            t.columns@[10],
            "고가"@,
            Seq::new(rs.len(), |i: int| rs[i].high_price),
        )
        &&& col_dec(
            t.columns@[11],
            "고가수익률"@,
            Seq::new(rs.len(), |i: int| rs[i].high_price_yield),
        )
        &&& col_dec(
            t.columns@[12],
            "저가"@,
            Seq::new(rs.len(), |i: int| rs[i].low_price),
        )
        &&& col_dec(
            t.columns@[13],
            "저가수익률"@,
            Seq::new(rs.len(), |i: int| rs[i].low_price_yield),
        )
        &&& col_dec(
            t.columns@[14],
            "대비"@,
            Seq::new(rs.len(), |i: int| rs[i].price_change),
        )
        &&& col_uint(
            t.columns@[15],
            "거래량"@,
            Seq::new(rs.len(), |i: int| rs[i].trading_volume),
        )
        &&& col_uint(
            t.columns@[16],
            "거래대금"@,
            Seq::new(rs.len(), |i: int| rs[i].trading_value),
        )
    }
}

/// Flattens the typed records into their table; zero records give the
/// empty table of zero columns and zero rows.
pub fn parse_kts_daily(response: ApiResponse<KtsDailyRecord>) -> (r: Result<Table, Error>)
    ensures
        r is Ok,
        r matches Ok(t) ==> kts_daily_table_matches(t, response.data@),
{
    let records = response.data;
    if records.len() == 0 {
        return Ok(Table::empty());
    }
    let n = records.len();
    let mut c0: Vec<String> = Vec::new();
    let mut c1: Vec<String> = Vec::new();
    let mut c2: Vec<String> = Vec::new();
    let mut c3: Vec<String> = Vec::new();
    let mut c4: Vec<String> = Vec::new();
    let mut c5: Vec<String> = Vec::new();
    let mut c6: Vec<Option<Decimal>> = Vec::new();
    let mut c7: Vec<Option<Decimal>> = Vec::new();
    let mut c8: Vec<Option<Decimal>> = Vec::new();
    let mut c9: Vec<Option<Decimal>> = Vec::new();
    let mut c10: Vec<Option<Decimal>> = Vec::new();
    let mut c11: Vec<Option<Decimal>> = Vec::new();
    let mut c12: Vec<Option<Decimal>> = Vec::new();
    let mut c13: Vec<Option<Decimal>> = Vec::new();
    let mut c14: Vec<Option<Decimal>> = Vec::new();
    let mut c15: Vec<Option<u64>> = Vec::new();
    let mut c16: Vec<Option<u64>> = Vec::new();
    let mut i: usize = 0;
    while i < n
        invariant
            n == records@.len(),
            0 <= i <= n,
            c0@.len() == i && forall|k: int|
                0 <= k < i ==> (#[trigger] c0@[k])@ == iso_of(records@[k].base_date),
            c1@.len() == i && forall|k: int|
                0 <= k < i ==> (#[trigger] c1@[k])@ == records@[k].issue_code@,
            c2@.len() == i && forall|k: int|
                0 <= k < i ==> (#[trigger] c2@[k])@ == records@[k].issue_name@,
            c3@.len() == i && forall|k: int|
                0 <= k < i ==> (#[trigger] c3@[k])@ == records@[k].market_name@,
            c4@.len() == i && forall|k: int|
                0 <= k < i ==> (#[trigger] c4@[k])@ == records@[k].government_bond_issue_type@,
            c5@.len() == i && forall|k: int|
                0 <= k < i ==> (#[trigger] c5@[k])@ == records@[k].bond_expiry_type@,
            c6@.len() == i && forall|k: int|
                0 <= k < i ==> #[trigger] c6@[k] == records@[k].close_price,
            c7@.len() == i && forall|k: int|
                0 <= k < i ==> #[trigger] c7@[k] == records@[k].close_price_yield,
            c8@.len() == i && forall|k: int|
                0 <= k < i ==> #[trigger] c8@[k] == records@[k].open_price,
            c9@.len() == i && forall|k: int|
                0 <= k < i ==> #[trigger] c9@[k] == records@[k].open_price_yield,
            c10@.len() == i && forall|k: int|
                0 <= k < i ==> #[trigger] c10@[k] == records@[k].high_price,
            c11@.len() == i && forall|k: int|
                0 <= k < i ==> #[trigger] c11@[k] == records@[k].high_price_yield,
            c12@.len() == i && forall|k: int|
                0 <= k < i ==> #[trigger] c12@[k] == records@[k].low_price,
            c13@.len() == i && forall|k: int|
                0 <= k < i ==> #[trigger] c13@[k] == records@[k].low_price_yield,
            c14@.len() == i && forall|k: int|
                0 <= k < i ==> #[trigger] c14@[k] == records@[k].price_change,
            c15@.len() == i && forall|k: int|
                0 <= k < i ==> #[trigger] c15@[k] == records@[k].trading_volume,
            c16@.len() == i && forall|k: int|
                0 <= k < i ==> #[trigger] c16@[k] == records@[k].trading_value,
        decreases n - i,
    {
        let rec = &records[i];
        c0.push(rec.base_date.to_iso_string());
        c1.push(rec.issue_code.clone());
        c2.push(rec.issue_name.clone());
        c3.push(rec.market_name.clone());
        c4.push(rec.government_bond_issue_type.clone());
        c5.push(rec.bond_expiry_type.clone());
        c6.push(rec.close_price);
        c7.push(rec.close_price_yield);
        c8.push(rec.open_price);
        c9.push(rec.open_price_yield);
        c10.push(rec.high_price);
        c11.push(rec.high_price_yield);
        c12.push(rec.low_price);
        c13.push(rec.low_price_yield);
        c14.push(rec.price_change);
        c15.push(rec.trading_volume);
        c16.push(rec.trading_value);
        i += 1;
    }
    proof {
        let rs = records@;
        assert(c0.deep_view() =~= Seq::new(rs.len(), |i: int| iso_of(rs[i].base_date)));
        assert(c1.deep_view() =~= Seq::new(rs.len(), |i: int| rs[i].issue_code@));
        assert(c2.deep_view() =~= Seq::new(rs.len(), |i: int| rs[i].issue_name@));
        assert(c3.deep_view() =~= Seq::new(rs.len(), |i: int| rs[i].market_name@));
        assert(c4.deep_view() =~= Seq::new(rs.len(), |i: int| rs[i].government_bond_issue_type@));
        assert(c5.deep_view() =~= Seq::new(rs.len(), |i: int| rs[i].bond_expiry_type@));
        assert(c6@ =~= Seq::new(rs.len(), |i: int| rs[i].close_price));
        assert(c7@ =~= Seq::new(rs.len(), |i: int| rs[i].close_price_yield));
        assert(c8@ =~= Seq::new(rs.len(), |i: int| rs[i].open_price));
        assert(c9@ =~= Seq::new(rs.len(), |i: int| rs[i].open_price_yield));
        assert(c10@ =~= Seq::new(rs.len(), |i: int| rs[i].high_price));
        assert(c11@ =~= Seq::new(rs.len(), |i: int| rs[i].high_price_yield));
        assert(c12@ =~= Seq::new(rs.len(), |i: int| rs[i].low_price));
        assert(c13@ =~= Seq::new(rs.len(), |i: int| rs[i].low_price_yield));
        assert(c14@ =~= Seq::new(rs.len(), |i: int| rs[i].price_change));
        assert(c15@ =~= Seq::new(rs.len(), |i: int| rs[i].trading_volume));
        assert(c16@ =~= Seq::new(rs.len(), |i: int| rs[i].trading_value));
    }
    let mut columns: Vec<Column> = Vec::new();
    columns.push(
        Column { name: String::from_str("날짜"), data: ColumnData::Text(c0) },
    );
    columns.push(
        Column { name: String::from_str("종목코드"), data: ColumnData::Text(c1) },
    );
    columns.push(
        Column { name: String::from_str("종목명"), data: ColumnData::Text(c2) },
    );
    columns.push(
        Column { name: String::from_str("시장구분"), data: ColumnData::Text(c3) },
    );
    columns.push(
        Column { name: String::from_str("국채발행유형"), data: ColumnData::Text(c4) },
    );
    columns.push(
        Column { name: String::from_str("채권만기유형"), data: ColumnData::Text(c5) },
    );
    columns.push(
        Column { name: String::from_str("종가"), data: ColumnData::Dec(c6) },
    );
    columns.push(
        Column { name: String::from_str("종가수익률"), data: ColumnData::Dec(c7) },
    );
    columns.push(
        Column { name: String::from_str("시가"), data: ColumnData::Dec(c8) },
    );
    columns.push(
        Column { name: String::from_str("시가수익률"), data: ColumnData::Dec(c9) },
    );
    columns.push(
        Column { name: String::from_str("고가"), data: ColumnData::Dec(c10) },
    );
    columns.push(
        Column { name: String::from_str("고가수익률"), data: ColumnData::Dec(c11) },
    );
    columns.push(
        Column { name: String::from_str("저가"), data: ColumnData::Dec(c12) },
    );
    columns.push(
        Column { name: String::from_str("저가수익률"), data: ColumnData::Dec(c13) },
    );
    columns.push(
        Column { name: String::from_str("대비"), data: ColumnData::Dec(c14) },
    );
    columns.push(
        Column { name: String::from_str("거래량"), data: ColumnData::UInt(c15) },
    );
    columns.push(
        Column { name: String::from_str("거래대금"), data: ColumnData::UInt(c16) },
    );
    Ok(Table { columns })
}

/// `t` is the table some decoded record sequence of `body` flattens to.
pub open spec fn kts_daily_body_table(body: Seq<char>, t: Table) -> bool {
    exists|recs: Seq<KtsDailyRecord>|
        #![trigger kts_daily_table_matches(t, recs)]
        {
            &&& envelope_result(body) matches Some(rv)
            &&& recs.len() == rv.len()
            &&& (forall|i: int| 0 <= i < recs.len() ==> kts_daily_matches(#[trigger] recs[i], rv[i]))
            &&& kts_daily_table_matches(t, recs)
        }
}

/// The whole decode pipeline of a 2xx body for this endpoint: envelope,
/// records, table.  Every failure is a `Parsing` error carrying the body.
pub fn kts_daily_table_from_body(body: &str) -> (r: Result<Table, Error>)
    ensures
        r is Ok <==> (envelope_result(body@) matches Some(rv) && kts_daily_records_ok(rv)),
        r matches Ok(t) ==> kts_daily_body_table(body@, t),
        r matches Err(e) ==> (e matches Error::Parsing {
            details: _,
            source: _,
            response_body,
        } && response_body@ == body@),
{
    let raw = match parse_envelope(body) {
        Ok(v) => v,
        Err(e) => {
            return Err(e);
        },
    };
    let resp = match decode_kts_daily_response(&raw) {
        Ok(v) => v,
        Err(msg) => {
            return Err(
                Error::Parsing {
                    details: String::from_str("failed to decode a record of the reply"),
                    source: msg,
                    response_body: String::from_str(body),
                },
            );
        },
    };
    let ghost recs = resp.data@;
    match parse_kts_daily(resp) {
        Ok(t) => {
            proof {
                assert(kts_daily_table_matches(t, recs));
            }
            Ok(t)
        },
        Err(_) => vstd::pervasive::unreached(),
    }
}

} // verus!
