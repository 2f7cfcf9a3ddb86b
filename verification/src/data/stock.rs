//! Records and tables of the stock endpoints: daily quotes of the
//! three boards, warrants, subscription rights, and issue base info.

use vstd::prelude::*;
use crate::data::{
    ApiResponse,
    deserialize_krx_date,
    deserialize_optional_f64,
    deserialize_optional_percentage,
    deserialize_optional_u64,
    envelope_result,
    field_lookup,
    get_field,
    opt_dec_result,
    opt_pct_result,
    opt_u64_result,
    parse_envelope,
};
use crate::date::{Date, date_result, iso_of};
use crate::error::Error;
use crate::num::Decimal;
use crate::table::{Column, ColumnData, Table, col_dec, col_text, col_uint};

verus! {

/// One row of the KOSPI daily-trade endpoint; the KOSDAQ and KONEX
/// endpoints share this shape.
#[derive(Debug)]
pub struct KospiDailyRecord {
    pub base_date: Date,
    pub issue_code: String,
    pub issue_name: String,
    pub market_name: String,
    pub sector_type: String,
    pub close_price: Option<Decimal>,
    pub price_change: Option<Decimal>,
    pub fluctuation_rate: Option<Decimal>,
    pub open_price: Option<Decimal>,
    pub high_price: Option<Decimal>,
    pub low_price: Option<Decimal>,
    pub trading_volume: Option<u64>,
    pub trading_value: Option<u64>,
    pub market_cap: Option<u64>,
    pub listed_shares: Option<u64>,
}

/// The `kosdaq_daily` endpoints reuse this record shape.
pub type KosdaqDailyRecord = KospiDailyRecord;

/// The `konex_daily` endpoints reuse this record shape.
pub type KonexDailyRecord = KospiDailyRecord;

/// Every field of the record is present and coercible.
pub open spec fn kospi_daily_fields_ok(fv: Seq<(Seq<char>, Seq<char>)>) -> bool {
    &&& field_lookup(fv, "BAS_DD"@) matches Some(s) && date_result(s) is Some
    &&& field_lookup(fv, "ISU_CD"@) is Some
    &&& field_lookup(fv, "ISU_NM"@) is Some
    &&& field_lookup(fv, "MKT_NM"@) is Some
    &&& field_lookup(fv, "SECT_TP_NM"@) is Some
    &&& field_lookup(fv, "TDD_CLSPRC"@) matches Some(s) && opt_dec_result(s) is Some
    &&& field_lookup(fv, "CMPPREVDD_PRC"@) matches Some(s) && opt_dec_result(s) is Some
    &&& field_lookup(fv, "FLUC_RT"@) matches Some(s) && opt_pct_result(s) is Some
    &&& field_lookup(fv, "TDD_OPNPRC"@) matches Some(s) && opt_dec_result(s) is Some
    &&& field_lookup(fv, "TDD_HGPRC"@) matches Some(s) && opt_dec_result(s) is Some
    &&& field_lookup(fv, "TDD_LWPRC"@) matches Some(s) && opt_dec_result(s) is Some
    &&& field_lookup(fv, "ACC_TRDVOL"@) matches Some(s) && opt_u64_result(s) is Some
    &&& field_lookup(fv, "ACC_TRDVAL"@) matches Some(s) && opt_u64_result(s) is Some
    &&& field_lookup(fv, "MKTCAP"@) matches Some(s) && opt_u64_result(s) is Some
    &&& field_lookup(fv, "LIST_SHRS"@) matches Some(s) && opt_u64_result(s) is Some
}

/// `rec` holds exactly the coerced fields of the raw record `fv`.
pub open spec fn kospi_daily_matches(rec: KospiDailyRecord, fv: Seq<(Seq<char>, Seq<char>)>) -> bool {
    &&& Some(rec.base_date) == date_result(field_lookup(fv, "BAS_DD"@)->Some_0)
    &&& Some(rec.issue_code@) == field_lookup(fv, "ISU_CD"@)
    &&& Some(rec.issue_name@) == field_lookup(fv, "ISU_NM"@)
    &&& Some(rec.market_name@) == field_lookup(fv, "MKT_NM"@)
    &&& Some(rec.sector_type@) == field_lookup(fv, "SECT_TP_NM"@)
    &&& Some(rec.close_price) == opt_dec_result(field_lookup(fv, "TDD_CLSPRC"@)->Some_0)
    &&& Some(rec.price_change) == opt_dec_result(field_lookup(fv, "CMPPREVDD_PRC"@)->Some_0)
    &&& Some(rec.fluctuation_rate) == opt_pct_result(field_lookup(fv, "FLUC_RT"@)->Some_0)
    &&& Some(rec.open_price) == opt_dec_result(field_lookup(fv, "TDD_OPNPRC"@)->Some_0)
    &&& Some(rec.high_price) == opt_dec_result(field_lookup(fv, "TDD_HGPRC"@)->Some_0)
    &&& Some(rec.low_price) == opt_dec_result(field_lookup(fv, "TDD_LWPRC"@)->Some_0)
    &&& Some(rec.trading_volume) == opt_u64_result(field_lookup(fv, "ACC_TRDVOL"@)->Some_0)
    &&& Some(rec.trading_value) == opt_u64_result(field_lookup(fv, "ACC_TRDVAL"@)->Some_0)
    &&& Some(rec.market_cap) == opt_u64_result(field_lookup(fv, "MKTCAP"@)->Some_0)
    &&& Some(rec.listed_shares) == opt_u64_result(field_lookup(fv, "LIST_SHRS"@)->Some_0)
}

/// Decodes one raw record of the endpoint.
pub fn decode_kospi_daily(fields: &Vec<(String, String)>) -> (r: Result<KospiDailyRecord, String>)
    ensures
        r is Ok <==> kospi_daily_fields_ok(fields.deep_view()),
        r matches Ok(rec) ==> kospi_daily_matches(rec, fields.deep_view()),
{
    let base_date = match get_field(fields, "BAS_DD") {
        Some(s) => match deserialize_krx_date(s.as_str()) {
            Ok(v) => v,
            Err(e) => {
                return Err(e);
            },
        },
        None => {
            return Err(String::from_str("missing field BAS_DD"));
        },
    };
    let issue_code = match get_field(fields, "ISU_CD") {
        Some(s) => s.clone(),
        None => {
            return Err(String::from_str("missing field ISU_CD"));
        },
    };
    let issue_name = match get_field(fields, "ISU_NM") {
        Some(s) => s.clone(),
        None => {
            return Err(String::from_str("missing field ISU_NM"));
        },
    };
    let market_name = match get_field(fields, "MKT_NM") {
        Some(s) => s.clone(),
        None => {
            return Err(String::from_str("missing field MKT_NM"));
        },
    };
    let sector_type = match get_field(fields, "SECT_TP_NM") {
        Some(s) => s.clone(),
        None => {
            return Err(String::from_str("missing field SECT_TP_NM"));
        },
    };
    let close_price = match get_field(fields, "TDD_CLSPRC") {
        Some(s) => match deserialize_optional_f64(s.as_str()) {
            Ok(v) => v,
            Err(e) => {
                return Err(e);
            },
        },
        None => {
            return Err(String::from_str("missing field TDD_CLSPRC"));
        },
    };
    let price_change = match get_field(fields, "CMPPREVDD_PRC") {
        Some(s) => match deserialize_optional_f64(s.as_str()) {
            Ok(v) => v,
            Err(e) => {
                return Err(e);
            },
        },
        None => {
            return Err(String::from_str("missing field CMPPREVDD_PRC"));
        },
    };
    let fluctuation_rate = match get_field(fields, "FLUC_RT") {
        Some(s) => match deserialize_optional_percentage(s.as_str()) {
            Ok(v) => v,
            Err(e) => {
                return Err(e);
            },
        },
        None => {
            return Err(String::from_str("missing field FLUC_RT"));
        },
    };
    let open_price = match get_field(fields, "TDD_OPNPRC") {
        Some(s) => match deserialize_optional_f64(s.as_str()) {
            Ok(v) => v,
            Err(e) => {
                return Err(e);
            },
        },
        None => {
            return Err(String::from_str("missing field TDD_OPNPRC"));
        },
    };
    let high_price = match get_field(fields, "TDD_HGPRC") {
        Some(s) => match deserialize_optional_f64(s.as_str()) {
            Ok(v) => v,
            Err(e) => {
                return Err(e);
            },
        },
        None => {
            return Err(String::from_str("missing field TDD_HGPRC"));
        },
    };
    let low_price = match get_field(fields, "TDD_LWPRC") {
        Some(s) => match deserialize_optional_f64(s.as_str()) {
            Ok(v) => v,
            Err(e) => {
                return Err(e);
            },
        },
        None => {
            return Err(String::from_str("missing field TDD_LWPRC"));
        },
    };
    let trading_volume = match get_field(fields, "ACC_TRDVOL") {
        Some(s) => match deserialize_optional_u64(s.as_str()) {
            Ok(v) => v,
            Err(e) => {
                return Err(e);
            },
        },
        None => {
            return Err(String::from_str("missing field ACC_TRDVOL"));
        },
    };
    let trading_value = match get_field(fields, "ACC_TRDVAL") {
        Some(s) => match deserialize_optional_u64(s.as_str()) {
            Ok(v) => v,
            Err(e) => {
                return Err(e);
            },
        },
        None => {
            return Err(String::from_str("missing field ACC_TRDVAL"));
        },
    };
    let market_cap = match get_field(fields, "MKTCAP") {
        Some(s) => match deserialize_optional_u64(s.as_str()) {
            Ok(v) => v,
            Err(e) => {
                return Err(e);
            },
        },
        None => {
            return Err(String::from_str("missing field MKTCAP"));
        },
    };
    let listed_shares = match get_field(fields, "LIST_SHRS") {
        Some(s) => match deserialize_optional_u64(s.as_str()) {
            Ok(v) => v,
            Err(e) => {
                return Err(e);
            },
        },
        None => {
            return Err(String::from_str("missing field LIST_SHRS"));
        },
    };
    Ok(
        KospiDailyRecord {
            base_date,
            issue_code,
            issue_name,
            market_name,
            sector_type,
            close_price,
            price_change,
            fluctuation_rate,
            open_price,
            high_price,
            low_price,
            trading_volume,
            trading_value,
            market_cap,
            listed_shares,
        },
    )
}

/// Every raw record of the reply decodes.
pub open spec fn kospi_daily_records_ok(rv: Seq<Seq<(Seq<char>, Seq<char>)>>) -> bool {
    forall|i: int| 0 <= i < rv.len() ==> kospi_daily_fields_ok(#[trigger] rv[i])
}

/// Decodes every raw record of a reply, in order, failing on the first
/// record that does not decode.
pub fn decode_kospi_daily_response(raw: &Vec<Vec<(String, String)>>) -> (r: Result<
    ApiResponse<KospiDailyRecord>,
    String,
>)
    ensures
        r is Ok <==> kospi_daily_records_ok(raw.deep_view()),
        r matches Ok(resp) ==> resp.data@.len() == raw@.len() && (forall|i: int|
            0 <= i < resp.data@.len() ==> kospi_daily_matches(
                #[trigger] resp.data@[i],
                raw.deep_view()[i],
            )),
{
    let ghost rv = raw.deep_view();
    let mut data: Vec<KospiDailyRecord> = Vec::new();
    let mut i: usize = 0;
    while i < raw.len()
        invariant
            rv == raw.deep_view(),
            rv.len() == raw@.len(),
            forall|k: int| 0 <= k < rv.len() ==> #[trigger] rv[k] == raw@[k].deep_view(),
            0 <= i <= raw@.len(),
            data@.len() == i,
            forall|k: int| 0 <= k < i ==> kospi_daily_fields_ok(#[trigger] rv[k]),
            forall|k: int| 0 <= k < i ==> kospi_daily_matches(#[trigger] data@[k], rv[k]),
        decreases raw@.len() - i,
    {
        match decode_kospi_daily(&raw[i]) {
            Ok(rec) => {
                data.push(rec);
            },
            Err(e) => {
                proof {
                    assert(!kospi_daily_fields_ok(rv[i as int]));
                }
                return Err(e);
            },
        }
        i += 1;
    }
    Ok(ApiResponse { data })
}

/// `t` is exactly the table of the records `rs`: 15 fixed columns, one
/// value per record in input order, and the empty table for no records.
pub open spec fn kospi_daily_table_matches(t: Table, rs: Seq<KospiDailyRecord>) -> bool {
    &&& rs.len() == 0 ==> t.columns@.len() == 0
    &&& rs.len() > 0 ==> {
        &&& t.columns@.len() == 15
        &&& col_text(
            t.columns@[0],
            "날짜"@,
            Seq::new(rs.len(), |i: int| iso_of(rs[i].base_date)),
        )
        &&& col_text(
            t.columns@[1],
            "종목코드"@,
            Seq::new(rs.len(), |i: int| rs[i].issue_code@),
        )
        &&& col_text(
            t.columns@[2],
            "종목명"@,
            Seq::new(rs.len(), |i: int| rs[i].issue_name@),
        )
        &&& col_text(
            t.columns@[3],
            "시장구분"@,
            Seq::new(rs.len(), |i: int| rs[i].market_name@),
        )
        &&& col_text(
            t.columns@[4],
            "소속부"@,
            Seq::new(rs.len(), |i: int| rs[i].sector_type@),
        )
        &&& col_dec(
            t.columns@[5],
            "종가"@,
            Seq::new(rs.len(), |i: int| rs[i].close_price),
        )
        &&& col_dec(
            t.columns@[6],
            "대비"@,
            Seq::new(rs.len(), |i: int| rs[i].price_change),
        )
        &&& col_dec(
            t.columns@[7],
            "등락률"@,
            Seq::new(rs.len(), |i: int| rs[i].fluctuation_rate),
        )
        &&& col_dec(
            t.columns@[8],
            "시가"@,
            Seq::new(rs.len(), |i: int| rs[i].open_price),
        )
        &&& col_dec(
            t.columns@[9],
            "고가"@,
            Seq::new(rs.len(), |i: int| rs[i].high_price),
        )
        &&& col_dec(
            t.columns@[10],
            "저가"@,
            Seq::new(rs.len(), |i: int| rs[i].low_price),
        )
        &&& col_uint(
            t.columns@[11],
            "거래량"@,
            Seq::new(rs.len(), |i: int| rs[i].trading_volume),
        )
        &&& col_uint(
            t.columns@[12],
            "거래대금"@,
            Seq::new(rs.len(), |i: int| rs[i].trading_value),
        )
        &&& col_uint(
            t.columns@[13],
            "시가총액"@,
            Seq::new(rs.len(), |i: int| rs[i].market_cap),
        )
        &&& col_uint(
            t.columns@[14],
            "상장주식수"@,
            Seq::new(rs.len(), |i: int| rs[i].listed_shares),
        )
    }
}

/// Flattens the typed records into their table; zero records give the
/// empty table of zero columns and zero rows.
pub fn parse_kospi_daily(response: ApiResponse<KospiDailyRecord>) -> (r: Result<Table, Error>)
    ensures
        r is Ok,
        r matches Ok(t) ==> kospi_daily_table_matches(t, response.data@),
{
    let records = response.data;
    if records.len() == 0 {
        return Ok(Table::empty());
    }
    let n = records.len();
    let mut c0: Vec<String> = Vec::new();
    let mut c1: Vec<String> = Vec::new();
    let mut c2: Vec<String> = Vec::new();
    let mut c3: Vec<String> = Vec::new();
    let mut c4: Vec<String> = Vec::new();
    let mut c5: Vec<Option<Decimal>> = Vec::new();
    let mut c6: Vec<Option<Decimal>> = Vec::new();
    let mut c7: Vec<Option<Decimal>> = Vec::new();
    let mut c8: Vec<Option<Decimal>> = Vec::new();
    let mut c9: Vec<Option<Decimal>> = Vec::new();
    let mut c10: Vec<Option<Decimal>> = Vec::new();
    let mut c11: Vec<Option<u64>> = Vec::new();
    let mut c12: Vec<Option<u64>> = Vec::new();
    let mut c13: Vec<Option<u64>> = Vec::new();
    let mut c14: Vec<Option<u64>> = Vec::new();
    let mut i: usize = 0;
    while i < n
        invariant
            n == records@.len(),
            0 <= i <= n,
            c0@.len() == i && forall|k: int|
                0 <= k < i ==> (#[trigger] c0@[k])@ == iso_of(records@[k].base_date),
            c1@.len() == i && forall|k: int|
                0 <= k < i ==> (#[trigger] c1@[k])@ == records@[k].issue_code@,
            c2@.len() == i && forall|k: int|
                0 <= k < i ==> (#[trigger] c2@[k])@ == records@[k].issue_name@,
            c3@.len() == i && forall|k: int|
                0 <= k < i ==> (#[trigger] c3@[k])@ == records@[k].market_name@,
            c4@.len() == i && forall|k: int|
                0 <= k < i ==> (#[trigger] c4@[k])@ == records@[k].sector_type@,
            c5@.len() == i && forall|k: int|
                0 <= k < i ==> #[trigger] c5@[k] == records@[k].close_price,
            c6@.len() == i && forall|k: int|
                0 <= k < i ==> #[trigger] c6@[k] == records@[k].price_change,
            c7@.len() == i && forall|k: int|
                0 <= k < i ==> #[trigger] c7@[k] == records@[k].fluctuation_rate,
            c8@.len() == i && forall|k: int|
                0 <= k < i ==> #[trigger] c8@[k] == records@[k].open_price,
            c9@.len() == i && forall|k: int|
                0 <= k < i ==> #[trigger] c9@[k] == records@[k].high_price,
            c10@.len() == i && forall|k: int|
                0 <= k < i ==> #[trigger] c10@[k] == records@[k].low_price,
            c11@.len() == i && forall|k: int|
                0 <= k < i ==> #[trigger] c11@[k] == records@[k].trading_volume,
            c12@.len() == i && forall|k: int|
                0 <= k < i ==> #[trigger] c12@[k] == records@[k].trading_value,
            c13@.len() == i && forall|k: int|
                0 <= k < i ==> #[trigger] c13@[k] == records@[k].market_cap,
            c14@.len() == i && forall|k: int|
                0 <= k < i ==> #[trigger] c14@[k] == records@[k].listed_shares,
        decreases n - i,
    {
        let rec = &records[i];
        c0.push(rec.base_date.to_iso_string());
        c1.push(rec.issue_code.clone());
        c2.push(rec.issue_name.clone());
        c3.push(rec.market_name.clone());
        c4.push(rec.sector_type.clone());
        c5.push(rec.close_price);
        c6.push(rec.price_change);
        c7.push(rec.fluctuation_rate);
        c8.push(rec.open_price);
        c9.push(rec.high_price);
        c10.push(rec.low_price);
        c11.push(rec.trading_volume);
        c12.push(rec.trading_value);
        c13.push(rec.market_cap);
        c14.push(rec.listed_shares);
        i += 1;
    }
    proof {
        let rs = records@;
        assert(c0.deep_view() =~= Seq::new(rs.len(), |i: int| iso_of(rs[i].base_date)));
        assert(c1.deep_view() =~= Seq::new(rs.len(), |i: int| rs[i].issue_code@));
        assert(c2.deep_view() =~= Seq::new(rs.len(), |i: int| rs[i].issue_name@));
        assert(c3.deep_view() =~= Seq::new(rs.len(), |i: int| rs[i].market_name@));
        assert(c4.deep_view() =~= Seq::new(rs.len(), |i: int| rs[i].sector_type@));
        assert(c5@ =~= Seq::new(rs.len(), |i: int| rs[i].close_price));
        assert(c6@ =~= Seq::new(rs.len(), |i: int| rs[i].price_change));
        assert(c7@ =~= Seq::new(rs.len(), |i: int| rs[i].fluctuation_rate));
        assert(c8@ =~= Seq::new(rs.len(), |i: int| rs[i].open_price));
        assert(c9@ =~= Seq::new(rs.len(), |i: int| rs[i].high_price));
        assert(c10@ =~= Seq::new(rs.len(), |i: int| rs[i].low_price));
        assert(c11@ =~= Seq::new(rs.len(), |i: int| rs[i].trading_volume));
        assert(c12@ =~= Seq::new(rs.len(), |i: int| rs[i].trading_value));
        assert(c13@ =~= Seq::new(rs.len(), |i: int| rs[i].market_cap));
        assert(c14@ =~= Seq::new(rs.len(), |i: int| rs[i].listed_shares));
    }
    let mut columns: Vec<Column> = Vec::new();
    columns.push(
        Column { name: String::from_str("날짜"), data: ColumnData::Text(c0) },
    );
    columns.push(
        Column { name: String::from_str("종목코드"), data: ColumnData::Text(c1) },
    );
    columns.push(
        Column { name: String::from_str("종목명"), data: ColumnData::Text(c2) },
    );
    columns.push(
        Column { name: String::from_str("시장구분"), data: ColumnData::Text(c3) },
    );
    columns.push(
        Column { name: String::from_str("소속부"), data: ColumnData::Text(c4) },
    );
    columns.push(
        Column { name: String::from_str("종가"), data: ColumnData::Dec(c5) },
    );
    columns.push(
        Column { name: String::from_str("대비"), data: ColumnData::Dec(c6) },
    );
    columns.push(
        Column { name: String::from_str("등락률"), data: ColumnData::Dec(c7) },
    );
    columns.push(
        Column { name: String::from_str("시가"), data: ColumnData::Dec(c8) },
    );
    columns.push(
        Column { name: String::from_str("고가"), data: ColumnData::Dec(c9) },
    );
    columns.push(
        Column { name: String::from_str("저가"), data: ColumnData::Dec(c10) },
    );
    columns.push(
        Column { name: String::from_str("거래량"), data: ColumnData::UInt(c11) },
    );
    columns.push(
        Column { name: String::from_str("거래대금"), data: ColumnData::UInt(c12) },
    );
    columns.push(
        Column { name: String::from_str("시가총액"), data: ColumnData::UInt(c13) },
    );
    columns.push(
        Column { name: String::from_str("상장주식수"), data: ColumnData::UInt(c14) },
    );
    Ok(Table { columns })
}

/// As `parse_kospi_daily`: the `kosdaq_daily` endpoint shares its record shape
/// and its table, byte for byte.
pub fn parse_kosdaq_daily(response: ApiResponse<KosdaqDailyRecord>) -> (r: Result<Table, Error>)
    ensures
        r is Ok,
        r matches Ok(t) ==> kospi_daily_table_matches(t, response.data@),
{
    parse_kospi_daily(response)
}

/// As `parse_kospi_daily`: the `konex_daily` endpoint shares its record shape
/// and its table, byte for byte.
pub fn parse_konex_daily(response: ApiResponse<KonexDailyRecord>) -> (r: Result<Table, Error>)
    ensures
        r is Ok,
        r matches Ok(t) ==> kospi_daily_table_matches(t, response.data@),
{
    parse_kospi_daily(response)
}

/// `t` is the table some decoded record sequence of `body` flattens to.
pub open spec fn kospi_daily_body_table(body: Seq<char>, t: Table) -> bool {
    exists|recs: Seq<KospiDailyRecord>|
        #![trigger kospi_daily_table_matches(t, recs)]
        {
            &&& envelope_result(body) matches Some(rv)
            &&& recs.len() == rv.len()
            &&& (forall|i: int| 0 <= i < recs.len() ==> kospi_daily_matches(#[trigger] recs[i], rv[i]))
            &&& kospi_daily_table_matches(t, recs)
        }
}

/// The whole decode pipeline of a 2xx body for this endpoint: envelope,
/// records, table.  Every failure is a `Parsing` error carrying the body.
pub fn kospi_daily_table_from_body(body: &str) -> (r: Result<Table, Error>)
    ensures
        r is Ok <==> (envelope_result(body@) matches Some(rv) && kospi_daily_records_ok(rv)),
        r matches Ok(t) ==> kospi_daily_body_table(body@, t),
        r matches Err(e) ==> (e matches Error::Parsing {
            details: _,
            source: _,
            response_body,
        } && response_body@ == body@),
{
    let raw = match parse_envelope(body) {
        Ok(v) => v,
        Err(e) => {
            return Err(e);
        },
    };
    let resp = match decode_kospi_daily_response(&raw) {
        Ok(v) => v,
        Err(msg) => {
            return Err(
                Error::Parsing {
                    details: String::from_str("failed to decode a record of the reply"),
                    source: msg,
                    response_body: String::from_str(body),
                },
            );
        },
    };
    let ghost recs = resp.data@;
    match parse_kospi_daily(resp) {
        Ok(t) => {
            proof {
                assert(kospi_daily_table_matches(t, recs));
            }
            Ok(t)
        },
        Err(_) => vstd::pervasive::unreached(),
    }
}

/// One row of the equity-warrant daily-trade endpoint.
#[derive(Debug)]
pub struct StockWarrantDailyRecord {
    pub base_date: Date,
    pub market_name: String,
    pub issue_code: String,
    pub issue_name: String,
    pub close_price: Option<Decimal>,
    pub price_change: Option<Decimal>,
    pub fluctuation_rate: Option<Decimal>,
    pub open_price: Option<Decimal>,
    pub high_price: Option<Decimal>,
    pub low_price: Option<Decimal>,
    pub trading_volume: Option<u64>,
    pub trading_value: Option<u64>,
    pub market_cap: Option<u64>,
    pub listed_shares: Option<u64>,
    pub exercise_price: Option<Decimal>,
    pub existence_start_date: String,
    pub existence_end_date: String,
    pub target_stock_code: String,
    pub target_stock_name: String,
    pub target_stock_price: Option<Decimal>,
}

/// Every field of the record is present and coercible.
pub open spec fn stock_warrant_daily_fields_ok(fv: Seq<(Seq<char>, Seq<char>)>) -> bool {
    &&& field_lookup(fv, "BAS_DD"@) matches Some(s) && date_result(s) is Some
    &&& field_lookup(fv, "MKT_NM"@) is Some
    &&& field_lookup(fv, "ISU_CD"@) is Some
    &&& field_lookup(fv, "ISU_NM"@) is Some
    &&& field_lookup(fv, "TDD_CLSPRC"@) matches Some(s) && opt_dec_result(s) is Some
    &&& field_lookup(fv, "CMPPREVDD_PRC"@) matches Some(s) && opt_dec_result(s) is Some
    &&& field_lookup(fv, "FLUC_RT"@) matches Some(s) && opt_pct_result(s) is Some
    &&& field_lookup(fv, "TDD_OPNPRC"@) matches Some(s) && opt_dec_result(s) is Some
    &&& field_lookup(fv, "TDD_HGPRC"@) matches Some(s) && opt_dec_result(s) is Some
    &&& field_lookup(fv, "TDD_LWPRC"@) matches Some(s) && opt_dec_result(s) is Some
    &&& field_lookup(fv, "ACC_TRDVOL"@) matches Some(s) && opt_u64_result(s) is Some
    &&& field_lookup(fv, "ACC_TRDVAL"@) matches Some(s) && opt_u64_result(s) is Some
    &&& field_lookup(fv, "MKTCAP"@) matches Some(s) && opt_u64_result(s) is Some
    &&& field_lookup(fv, "LIST_SHRS"@) matches Some(s) && opt_u64_result(s) is Some
    &&& field_lookup(fv, "EXER_PRC"@) matches Some(s) && opt_dec_result(s) is Some
    &&& field_lookup(fv, "EXST_STRT_DD"@) is Some
    &&& field_lookup(fv, "EXST_END_DD"@) is Some
    &&& field_lookup(fv, "TARSTK_ISU_SRT_CD"@) is Some
    &&& field_lookup(fv, "TARSTK_ISU_NM"@) is Some
    &&& field_lookup(fv, "TARSTK_ISU_PRSNT_PRC"@) matches Some(s) && opt_dec_result(s) is Some
}

/// `rec` holds exactly the coerced fields of the raw record `fv`.
pub open spec fn stock_warrant_daily_matches(rec: StockWarrantDailyRecord, fv: Seq<(Seq<char>, Seq<char>)>) -> bool {
    &&& Some(rec.base_date) == date_result(field_lookup(fv, "BAS_DD"@)->Some_0)
    &&& Some(rec.market_name@) == field_lookup(fv, "MKT_NM"@)
    &&& Some(rec.issue_code@) == field_lookup(fv, "ISU_CD"@)
    &&& Some(rec.issue_name@) == field_lookup(fv, "ISU_NM"@)
    &&& Some(rec.close_price) == opt_dec_result(field_lookup(fv, "TDD_CLSPRC"@)->Some_0)
    &&& Some(rec.price_change) == opt_dec_result(field_lookup(fv, "CMPPREVDD_PRC"@)->Some_0)
    &&& Some(rec.fluctuation_rate) == opt_pct_result(field_lookup(fv, "FLUC_RT"@)->Some_0)
    &&& Some(rec.open_price) == opt_dec_result(field_lookup(fv, "TDD_OPNPRC"@)->Some_0)
    &&& Some(rec.high_price) == opt_dec_result(field_lookup(fv, "TDD_HGPRC"@)->Some_0)
    &&& Some(rec.low_price) == opt_dec_result(field_lookup(fv, "TDD_LWPRC"@)->Some_0)
    &&& Some(rec.trading_volume) == opt_u64_result(field_lookup(fv, "ACC_TRDVOL"@)->Some_0)
    &&& Some(rec.trading_value) == opt_u64_result(field_lookup(fv, "ACC_TRDVAL"@)->Some_0)
    &&& Some(rec.market_cap) == opt_u64_result(field_lookup(fv, "MKTCAP"@)->Some_0)
    &&& Some(rec.listed_shares) == opt_u64_result(field_lookup(fv, "LIST_SHRS"@)->Some_0)
    &&& Some(rec.exercise_price) == opt_dec_result(field_lookup(fv, "EXER_PRC"@)->Some_0)
    &&& Some(rec.existence_start_date@) == field_lookup(fv, "EXST_STRT_DD"@)
    &&& Some(rec.existence_end_date@) == field_lookup(fv, "EXST_END_DD"@)
    &&& Some(rec.target_stock_code@) == field_lookup(fv, "TARSTK_ISU_SRT_CD"@)
    &&& Some(rec.target_stock_name@) == field_lookup(fv, "TARSTK_ISU_NM"@)
    &&& Some(rec.target_stock_price) == opt_dec_result(field_lookup(fv, "TARSTK_ISU_PRSNT_PRC"@)->Some_0)
}

/// Decodes one raw record of the endpoint.
pub fn decode_stock_warrant_daily(fields: &Vec<(String, String)>) -> (r: Result<StockWarrantDailyRecord, String>)
    ensures
        r is Ok <==> stock_warrant_daily_fields_ok(fields.deep_view()),
        r matches Ok(rec) ==> stock_warrant_daily_matches(rec, fields.deep_view()),
{
    let base_date = match get_field(fields, "BAS_DD") {
        Some(s) => match deserialize_krx_date(s.as_str()) {
            Ok(v) => v,
            Err(e) => {
                return Err(e);
            },
        },
        None => {
            return Err(String::from_str("missing field BAS_DD"));
        },
    };
    let market_name = match get_field(fields, "MKT_NM") {
        Some(s) => s.clone(),
        None => {
            return Err(String::from_str("missing field MKT_NM"));
        },
    };
    let issue_code = match get_field(fields, "ISU_CD") {
        Some(s) => s.clone(),
        None => {
            return Err(String::from_str("missing field ISU_CD"));
        },
    };
    let issue_name = match get_field(fields, "ISU_NM") {
        Some(s) => s.clone(),
        None => {
            return Err(String::from_str("missing field ISU_NM"));
        },
    };
    let close_price = match get_field(fields, "TDD_CLSPRC") {
        Some(s) => match deserialize_optional_f64(s.as_str()) {
            Ok(v) => v,
            Err(e) => {
                return Err(e);
            },
        },
        None => {
            return Err(String::from_str("missing field TDD_CLSPRC"));
        },
    };
    let price_change = match get_field(fields, "CMPPREVDD_PRC") {
        Some(s) => match deserialize_optional_f64(s.as_str()) {
            Ok(v) => v,
            Err(e) => {
                return Err(e);
            },
        },
        None => {
            return Err(String::from_str("missing field CMPPREVDD_PRC"));
        },
    };
    let fluctuation_rate = match get_field(fields, "FLUC_RT") {
        Some(s) => match deserialize_optional_percentage(s.as_str()) {
            Ok(v) => v,
            Err(e) => {
                return Err(e);
            },
        },
        None => {
            return Err(String::from_str("missing field FLUC_RT"));
        },
    };
    let open_price = match get_field(fields, "TDD_OPNPRC") {
        Some(s) => match deserialize_optional_f64(s.as_str()) {
            Ok(v) => v,
            Err(e) => {
                return Err(e);
            },
        },
        None => {
            return Err(String::from_str("missing field TDD_OPNPRC"));
        },
    };
    let high_price = match get_field(fields, "TDD_HGPRC") {
        Some(s) => match deserialize_optional_f64(s.as_str()) {
            Ok(v) => v,
            Err(e) => {
                return Err(e);
            },
        },
        None => {
            return Err(String::from_str("missing field TDD_HGPRC"));
        },
    };
    let low_price = match get_field(fields, "TDD_LWPRC") {
        Some(s) => match deserialize_optional_f64(s.as_str()) {
            Ok(v) => v,
            Err(e) => {
                return Err(e);
            },
        },
        None => {
            return Err(String::from_str("missing field TDD_LWPRC"));
        },
    };
    let trading_volume = match get_field(fields, "ACC_TRDVOL") {
        Some(s) => match deserialize_optional_u64(s.as_str()) {
            Ok(v) => v,
            Err(e) => {
                return Err(e);
            },
        },
        None => {
            return Err(String::from_str("missing field ACC_TRDVOL"));
        },
    };
    let trading_value = match get_field(fields, "ACC_TRDVAL") {
        Some(s) => match deserialize_optional_u64(s.as_str()) {
            Ok(v) => v,
            Err(e) => {
                return Err(e);
            },
        },
        None => {
            return Err(String::from_str("missing field ACC_TRDVAL"));
        },
    };
    let market_cap = match get_field(fields, "MKTCAP") {
        Some(s) => match deserialize_optional_u64(s.as_str()) {
            Ok(v) => v,
            Err(e) => {
                return Err(e);
            },
        },
        None => {
            return Err(String::from_str("missing field MKTCAP"));
        },
    };
    let listed_shares = match get_field(fields, "LIST_SHRS") {
        Some(s) => match deserialize_optional_u64(s.as_str()) {
            Ok(v) => v,
            Err(e) => {
                return Err(e);
            },
        },
        None => {
            return Err(String::from_str("missing field LIST_SHRS"));
        },
    };
    let exercise_price = match get_field(fields, "EXER_PRC") {
        Some(s) => match deserialize_optional_f64(s.as_str()) {
            Ok(v) => v,
            Err(e) => {
                return Err(e);
            },
        },
        None => {
            return Err(String::from_str("missing field EXER_PRC"));
        },
    };
    let existence_start_date = match get_field(fields, "EXST_STRT_DD") {
        Some(s) => s.clone(),
        None => {
            return Err(String::from_str("missing field EXST_STRT_DD"));
        },
    };
    let existence_end_date = match get_field(fields, "EXST_END_DD") {
        Some(s) => s.clone(),
        None => {
            return Err(String::from_str("missing field EXST_END_DD"));
        },
    };
    let target_stock_code = match get_field(fields, "TARSTK_ISU_SRT_CD") {
        Some(s) => s.clone(),
        None => {
            return Err(String::from_str("missing field TARSTK_ISU_SRT_CD"));
        },
    };
    let target_stock_name = match get_field(fields, "TARSTK_ISU_NM") {
        Some(s) => s.clone(),
        None => {
            return Err(String::from_str("missing field TARSTK_ISU_NM"));
        },
    };
    let target_stock_price = match get_field(fields, "TARSTK_ISU_PRSNT_PRC") {
        Some(s) => match deserialize_optional_f64(s.as_str()) {
            Ok(v) => v,
            Err(e) => {
                return Err(e);
            },
        },
        None => {
            return Err(String::from_str("missing field TARSTK_ISU_PRSNT_PRC"));
        },
    };
    Ok(
        StockWarrantDailyRecord {
            base_date,
            market_name,
            issue_code,
            issue_name,
            close_price,
            price_change,
            fluctuation_rate,
            open_price,
            high_price,
            low_price,
            trading_volume,
            trading_value,
            market_cap,
            listed_shares,
            exercise_price,
            existence_start_date,
            existence_end_date,
            target_stock_code,
            target_stock_name,
            target_stock_price,
        },
    )
}

/// Every raw record of the reply decodes.
pub open spec fn stock_warrant_daily_records_ok(rv: Seq<Seq<(Seq<char>, Seq<char>)>>) -> bool {
    forall|i: int| 0 <= i < rv.len() ==> stock_warrant_daily_fields_ok(#[trigger] rv[i])
}

/// Decodes every raw record of a reply, in order, failing on the first
/// record that does not decode.
pub fn decode_stock_warrant_daily_response(raw: &Vec<Vec<(String, String)>>) -> (r: Result<
    ApiResponse<StockWarrantDailyRecord>,
    String,
>)
    ensures
        r is Ok <==> stock_warrant_daily_records_ok(raw.deep_view()),
        r matches Ok(resp) ==> resp.data@.len() == raw@.len() && (forall|i: int|
            0 <= i < resp.data@.len() ==> stock_warrant_daily_matches(
                #[trigger] resp.data@[i],
                raw.deep_view()[i],
            )),
{
    let ghost rv = raw.deep_view();
    let mut data: Vec<StockWarrantDailyRecord> = Vec::new();
    let mut i: usize = 0;
    while i < raw.len()
        invariant
            rv == raw.deep_view(),
            rv.len() == raw@.len(),
            forall|k: int| 0 <= k < rv.len() ==> #[trigger] rv[k] == raw@[k].deep_view(),
            0 <= i <= raw@.len(),
            data@.len() == i,
            forall|k: int| 0 <= k < i ==> stock_warrant_daily_fields_ok(#[trigger] rv[k]),
            forall|k: int| 0 <= k < i ==> stock_warrant_daily_matches(#[trigger] data@[k], rv[k]),
        decreases raw@.len() - i,
    {
        match decode_stock_warrant_daily(&raw[i]) {
            Ok(rec) => {
                data.push(rec);
            },
            Err(e) => {
                proof {
                    assert(!stock_warrant_daily_fields_ok(rv[i as int]));
                }
                return Err(e);
            },
        }
        i += 1;
    }
    Ok(ApiResponse { data })
}

/// `t` is exactly the table of the records `rs`: 8 fixed columns, one
/// value per record in input order, and the empty table for no records.
pub open spec fn stock_warrant_daily_table_matches(t: Table, rs: Seq<StockWarrantDailyRecord>) -> bool {
    &&& rs.len() == 0 ==> t.columns@.len() == 0
    &&& rs.len() > 0 ==> {
        &&& t.columns@.len() == 8
        &&& col_text(
            t.columns@[0],
            "날짜"@,
            Seq::new(rs.len(), |i: int| iso_of(rs[i].base_date)),
        )
        &&& col_text(
            t.columns@[1],
            "시장구분"@,
            Seq::new(rs.len(), |i: int| rs[i].market_name@),
        )
        &&& col_text(
            t.columns@[2],
            "종목코드"@,
            Seq::new(rs.len(), |i: int| rs[i].issue_code@),
        )
        &&& col_text(
            t.columns@[3],
            "종목명"@,
            Seq::new(rs.len(), |i: int| rs[i].issue_name@),
        )
        &&& col_dec(
            t.columns@[4],
            "종가"@,
            Seq::new(rs.len(), |i: int| rs[i].close_price),
        )
        &&& col_dec(
            t.columns@[5],
            "행사가격"@,
            Seq::new(rs.len(), |i: int| rs[i].exercise_price),
        )
        &&& col_text(
            t.columns@[6],
            "목적주권명"@,
            Seq::new(rs.len(), |i: int| rs[i].target_stock_name@),
        )
        &&& col_dec(
            t.columns@[7],
            "목적주권가격"@,
            Seq::new(rs.len(), |i: int| rs[i].target_stock_price),
        )
    }
}

/// Flattens the typed records into their table; zero records give the
/// empty table of zero columns and zero rows.
pub fn parse_stock_warrant_daily(response: ApiResponse<StockWarrantDailyRecord>) -> (r: Result<Table, Error>)
    ensures
        r is Ok,
        r matches Ok(t) ==> stock_warrant_daily_table_matches(t, response.data@),
{
    let records = response.data;
    if records.len() == 0 {
        return Ok(Table::empty());
    }
    let n = records.len();
    let mut c0: Vec<String> = Vec::new();
    let mut c1: Vec<String> = Vec::new();
    let mut c2: Vec<String> = Vec::new();
    let mut c3: Vec<String> = Vec::new();
    let mut c4: Vec<Option<Decimal>> = Vec::new();
    let mut c5: Vec<Option<Decimal>> = Vec::new();
    let mut c6: Vec<String> = Vec::new();
    let mut c7: Vec<Option<Decimal>> = Vec::new();
    let mut i: usize = 0;
    while i < n
        invariant
            n == records@.len(),
            0 <= i <= n,
            c0@.len() == i && forall|k: int|
                0 <= k < i ==> (#[trigger] c0@[k])@ == iso_of(records@[k].base_date),
            c1@.len() == i && forall|k: int|
                0 <= k < i ==> (#[trigger] c1@[k])@ == records@[k].market_name@,
            c2@.len() == i && forall|k: int|
                0 <= k < i ==> (#[trigger] c2@[k])@ == records@[k].issue_code@,
            c3@.len() == i && forall|k: int|
                0 <= k < i ==> (#[trigger] c3@[k])@ == records@[k].issue_name@,
            c4@.len() == i && forall|k: int|
                0 <= k < i ==> #[trigger] c4@[k] == records@[k].close_price,
            c5@.len() == i && forall|k: int|
                0 <= k < i ==> #[trigger] c5@[k] == records@[k].exercise_price,
            c6@.len() == i && forall|k: int|
                0 <= k < i ==> (#[trigger] c6@[k])@ == records@[k].target_stock_name@,
            c7@.len() == i && forall|k: int|
                0 <= k < i ==> #[trigger] c7@[k] == records@[k].target_stock_price,
        decreases n - i,
    {
        let rec = &records[i];
        c0.push(rec.base_date.to_iso_string());
        c1.push(rec.market_name.clone());
        c2.push(rec.issue_code.clone());
        c3.push(rec.issue_name.clone());
        c4.push(rec.close_price);
        c5.push(rec.exercise_price);
        c6.push(rec.target_stock_name.clone());
        c7.push(rec.target_stock_price);
        i += 1;
    }
    proof {
        let rs = records@;
        assert(c0.deep_view() =~= Seq::new(rs.len(), |i: int| iso_of(rs[i].base_date)));
        assert(c1.deep_view() =~= Seq::new(rs.len(), |i: int| rs[i].market_name@));
        assert(c2.deep_view() =~= Seq::new(rs.len(), |i: int| rs[i].issue_code@));
        assert(c3.deep_view() =~= Seq::new(rs.len(), |i: int| rs[i].issue_name@));
        assert(c4@ =~= Seq::new(rs.len(), |i: int| rs[i].close_price));
        assert(c5@ =~= Seq::new(rs.len(), |i: int| rs[i].exercise_price));
        assert(c6.deep_view() =~= Seq::new(rs.len(), |i: int| rs[i].target_stock_name@));
        assert(c7@ =~= Seq::new(rs.len(), |i: int| rs[i].target_stock_price));
    }
    let mut columns: Vec<Column> = Vec::new();
    columns.push(
        Column { name: String::from_str("날짜"), data: ColumnData::Text(c0) },
    );
    columns.push(
        Column { name: String::from_str("시장구분"), data: ColumnData::Text(c1) },
    );
    columns.push(
        Column { name: String::from_str("종목코드"), data: ColumnData::Text(c2) },
    );
    columns.push(
        Column { name: String::from_str("종목명"), data: ColumnData::Text(c3) },
    );
    columns.push(
        Column { name: String::from_str("종가"), data: ColumnData::Dec(c4) },
    );
    columns.push(
        Column { name: String::from_str("행사가격"), data: ColumnData::Dec(c5) },
    );
    columns.push(
        Column { name: String::from_str("목적주권명"), data: ColumnData::Text(c6) },
    );
    columns.push(
        Column { name: String::from_str("목적주권가격"), data: ColumnData::Dec(c7) },
    );
    Ok(Table { columns })
}

/// `t` is the table some decoded record sequence of `body` flattens to.
pub open spec fn stock_warrant_daily_body_table(body: Seq<char>, t: Table) -> bool {
    exists|recs: Seq<StockWarrantDailyRecord>|
        #![trigger stock_warrant_daily_table_matches(t, recs)]
        {
            &&& envelope_result(body) matches Some(rv)
            &&& recs.len() == rv.len()
            &&& (forall|i: int| 0 <= i < recs.len() ==> stock_warrant_daily_matches(#[trigger] recs[i], rv[i]))
            &&& stock_warrant_daily_table_matches(t, recs)
        }
}

/// The whole decode pipeline of a 2xx body for this endpoint: envelope,
/// records, table.  Every failure is a `Parsing` error carrying the body.
pub fn stock_warrant_daily_table_from_body(body: &str) -> (r: Result<Table, Error>)
    ensures
        r is Ok <==> (envelope_result(body@) matches Some(rv) && stock_warrant_daily_records_ok(rv)),
        r matches Ok(t) ==> stock_warrant_daily_body_table(body@, t),
        r matches Err(e) ==> (e matches Error::Parsing {
            details: _,
            source: _,
            response_body,
        } && response_body@ == body@),
{
    let raw = match parse_envelope(body) {
        Ok(v) => v,
        Err(e) => {
            return Err(e);
        },
    };
    let resp = match decode_stock_warrant_daily_response(&raw) {
        Ok(v) => v,
        Err(msg) => {
            return Err(
                Error::Parsing {
                    details: String::from_str("failed to decode a record of the reply"),
                    source: msg,
                    response_body: String::from_str(body),
                },
            );
        },
    };
    let ghost recs = resp.data@;
    match parse_stock_warrant_daily(resp) {
        Ok(t) => {
            proof {
                assert(stock_warrant_daily_table_matches(t, recs));
            }
            Ok(t)
        },
        Err(_) => vstd::pervasive::unreached(),
    }
}

/// One row of the subscription-right daily-trade endpoint.
#[derive(Debug)]
pub struct StockRightDailyRecord {
    pub base_date: Date,
    pub market_name: String,
    pub issue_code: String,
    pub issue_name: String,
    pub close_price: Option<Decimal>,
    pub price_change: Option<Decimal>,
    pub fluctuation_rate: Option<Decimal>,
    pub open_price: Option<Decimal>,
    pub high_price: Option<Decimal>,
    pub low_price: Option<Decimal>,
    pub trading_volume: Option<u64>,
    pub trading_value: Option<u64>,
    pub market_cap: Option<u64>,
    pub listed_shares: Option<u64>,
    pub issue_price: Option<Decimal>,
    pub delisting_date: String,
    pub target_stock_code: String,
    pub target_stock_name: String,
    pub target_stock_price: Option<Decimal>,
}

/// Every field of the record is present and coercible.
pub open spec fn stock_right_daily_fields_ok(fv: Seq<(Seq<char>, Seq<char>)>) -> bool {
    &&& field_lookup(fv, "BAS_DD"@) matches Some(s) && date_result(s) is Some
    &&& field_lookup(fv, "MKT_NM"@) is Some
    &&& field_lookup(fv, "ISU_CD"@) is Some
    &&& field_lookup(fv, "ISU_NM"@) is Some
    &&& field_lookup(fv, "TDD_CLSPRC"@) matches Some(s) && opt_dec_result(s) is Some
    &&& field_lookup(fv, "CMPPREVDD_PRC"@) matches Some(s) && opt_dec_result(s) is Some
    &&& field_lookup(fv, "FLUC_RT"@) matches Some(s) && opt_pct_result(s) is Some
    &&& field_lookup(fv, "TDD_OPNPRC"@) matches Some(s) && opt_dec_result(s) is Some
    &&& field_lookup(fv, "TDD_HGPRC"@) matches Some(s) && opt_dec_result(s) is Some
    &&& field_lookup(fv, "TDD_LWPRC"@) matches Some(s) && opt_dec_result(s) is Some
    &&& field_lookup(fv, "ACC_TRDVOL"@) matches Some(s) && opt_u64_result(s) is Some
    &&& field_lookup(fv, "ACC_TRDVAL"@) matches Some(s) && opt_u64_result(s) is Some
    &&& field_lookup(fv, "MKTCAP"@) matches Some(s) && opt_u64_result(s) is Some
    &&& field_lookup(fv, "LIST_SHRS"@) matches Some(s) && opt_u64_result(s) is Some
    &&& field_lookup(fv, "ISU_PRC"@) matches Some(s) && opt_dec_result(s) is Some
    &&& field_lookup(fv, "DELIST_DD"@) is Some
    &&& field_lookup(fv, "TARSTK_ISU_SRT_CD"@) is Some
    &&& field_lookup(fv, "TARSTK_ISU_NM"@) is Some
    &&& field_lookup(fv, "TARSTK_ISU_PRSNT_PRC"@) matches Some(s) && opt_dec_result(s) is Some
}

/// `rec` holds exactly the coerced fields of the raw record `fv`.
pub open spec fn stock_right_daily_matches(rec: StockRightDailyRecord, fv: Seq<(Seq<char>, Seq<char>)>) -> bool {
    &&& Some(rec.base_date) == date_result(field_lookup(fv, "BAS_DD"@)->Some_0)
    &&& Some(rec.market_name@) == field_lookup(fv, "MKT_NM"@)
    &&& Some(rec.issue_code@) == field_lookup(fv, "ISU_CD"@)
    &&& Some(rec.issue_name@) == field_lookup(fv, "ISU_NM"@)
    &&& Some(rec.close_price) == opt_dec_result(field_lookup(fv, "TDD_CLSPRC"@)->Some_0)
    &&& Some(rec.price_change) == opt_dec_result(field_lookup(fv, "CMPPREVDD_PRC"@)->Some_0)
    &&& Some(rec.fluctuation_rate) == opt_pct_result(field_lookup(fv, "FLUC_RT"@)->Some_0)
    &&& Some(rec.open_price) == opt_dec_result(field_lookup(fv, "TDD_OPNPRC"@)->Some_0)
    &&& Some(rec.high_price) == opt_dec_result(field_lookup(fv, "TDD_HGPRC"@)->Some_0)
    &&& Some(rec.low_price) == opt_dec_result(field_lookup(fv, "TDD_LWPRC"@)->Some_0)
    &&& Some(rec.trading_volume) == opt_u64_result(field_lookup(fv, "ACC_TRDVOL"@)->Some_0)
    &&& Some(rec.trading_value) == opt_u64_result(field_lookup(fv, "ACC_TRDVAL"@)->Some_0)
    &&& Some(rec.market_cap) == opt_u64_result(field_lookup(fv, "MKTCAP"@)->Some_0)
    &&& Some(rec.listed_shares) == opt_u64_result(field_lookup(fv, "LIST_SHRS"@)->Some_0)
    &&& Some(rec.issue_price) == opt_dec_result(field_lookup(fv, "ISU_PRC"@)->Some_0)
    &&& Some(rec.delisting_date@) == field_lookup(fv, "DELIST_DD"@)
    &&& Some(rec.target_stock_code@) == field_lookup(fv, "TARSTK_ISU_SRT_CD"@)
    &&& Some(rec.target_stock_name@) == field_lookup(fv, "TARSTK_ISU_NM"@)
    &&& Some(rec.target_stock_price) == opt_dec_result(field_lookup(fv, "TARSTK_ISU_PRSNT_PRC"@)->Some_0)
}

/// Decodes one raw record of the endpoint.
pub fn decode_stock_right_daily(fields: &Vec<(String, String)>) -> (r: Result<StockRightDailyRecord, String>)
    ensures
        r is Ok <==> stock_right_daily_fields_ok(fields.deep_view()),
        r matches Ok(rec) ==> stock_right_daily_matches(rec, fields.deep_view()),
{
    let base_date = match get_field(fields, "BAS_DD") {
        Some(s) => match deserialize_krx_date(s.as_str()) {
            Ok(v) => v,
            Err(e) => {
                return Err(e);
            },
        },
        None => {
            return Err(String::from_str("missing field BAS_DD"));
        },
    };
    let market_name = match get_field(fields, "MKT_NM") {
        Some(s) => s.clone(),
        None => {
            return Err(String::from_str("missing field MKT_NM"));
        },
    };
    let issue_code = match get_field(fields, "ISU_CD") {
        Some(s) => s.clone(),
        None => {
            return Err(String::from_str("missing field ISU_CD"));
        },
    };
    let issue_name = match get_field(fields, "ISU_NM") {
        Some(s) => s.clone(),
        None => {
            return Err(String::from_str("missing field ISU_NM"));
        },
    };
    let close_price = match get_field(fields, "TDD_CLSPRC") {
        Some(s) => match deserialize_optional_f64(s.as_str()) {
            Ok(v) => v,
            Err(e) => {
                return Err(e);
            },
        },
        None => {
            return Err(String::from_str("missing field TDD_CLSPRC"));
        },
    };
    let price_change = match get_field(fields, "CMPPREVDD_PRC") {
        Some(s) => match deserialize_optional_f64(s.as_str()) {
            Ok(v) => v,
            Err(e) => {
                return Err(e);
            },
        },
        None => {
            return Err(String::from_str("missing field CMPPREVDD_PRC"));
        },
    };
    let fluctuation_rate = match get_field(fields, "FLUC_RT") {
        Some(s) => match deserialize_optional_percentage(s.as_str()) {
            Ok(v) => v,
            Err(e) => {
                return Err(e);
            },
        },
        None => {
            return Err(String::from_str("missing field FLUC_RT"));
        },
    };
    let open_price = match get_field(fields, "TDD_OPNPRC") {
        Some(s) => match deserialize_optional_f64(s.as_str()) {
            Ok(v) => v,
            Err(e) => {
                return Err(e);
            },
        },
        None => {
            return Err(String::from_str("missing field TDD_OPNPRC"));
        },
    };
    let high_price = match get_field(fields, "TDD_HGPRC") {
        Some(s) => match deserialize_optional_f64(s.as_str()) {
            Ok(v) => v,
            Err(e) => {
                return Err(e);
            },
        },
        None => {
            return Err(String::from_str("missing field TDD_HGPRC"));
        },
    };
    let low_price = match get_field(fields, "TDD_LWPRC") {
        Some(s) => match deserialize_optional_f64(s.as_str()) {
            Ok(v) => v,
            Err(e) => {
                return Err(e);
            },
        },
        None => {
            return Err(String::from_str("missing field TDD_LWPRC"));
        },
    };
    let trading_volume = match get_field(fields, "ACC_TRDVOL") {
        Some(s) => match deserialize_optional_u64(s.as_str()) {
            Ok(v) => v,
            Err(e) => {
                return Err(e);
            },
        },
        None => {
            return Err(String::from_str("missing field ACC_TRDVOL"));
        },
    };
    let trading_value = match get_field(fields, "ACC_TRDVAL") {
        Some(s) => match deserialize_optional_u64(s.as_str()) {
            Ok(v) => v,
            Err(e) => {
                return Err(e);
            },
        },
        None => {
            return Err(String::from_str("missing field ACC_TRDVAL"));
        },
    };
    let market_cap = match get_field(fields, "MKTCAP") {
        Some(s) => match deserialize_optional_u64(s.as_str()) {
            Ok(v) => v,
            Err(e) => {
                return Err(e);
            },
        },
        None => {
            return Err(String::from_str("missing field MKTCAP"));
        },
    };
    let listed_shares = match get_field(fields, "LIST_SHRS") {
        Some(s) => match deserialize_optional_u64(s.as_str()) {
            Ok(v) => v,
            Err(e) => {
                return Err(e);
            },
        },
        None => {
            return Err(String::from_str("missing field LIST_SHRS"));
        },
    };
    let issue_price = match get_field(fields, "ISU_PRC") {
        Some(s) => match deserialize_optional_f64(s.as_str()) {
            Ok(v) => v,
            Err(e) => {
                return Err(e);
            },
        },
        None => {
            return Err(String::from_str("missing field ISU_PRC"));
        },
    };
    let delisting_date = match get_field(fields, "DELIST_DD") {
        Some(s) => s.clone(),
        None => {
            return Err(String::from_str("missing field DELIST_DD"));
        },
    };
    let target_stock_code = match get_field(fields, "TARSTK_ISU_SRT_CD") {
        Some(s) => s.clone(),
        None => {
            return Err(String::from_str("missing field TARSTK_ISU_SRT_CD"));
        },
    };
    let target_stock_name = match get_field(fields, "TARSTK_ISU_NM") {
        Some(s) => s.clone(),
        None => {
            return Err(String::from_str("missing field TARSTK_ISU_NM"));
        },
    };
    let target_stock_price = match get_field(fields, "TARSTK_ISU_PRSNT_PRC") {
        Some(s) => match deserialize_optional_f64(s.as_str()) {
            Ok(v) => v,
            Err(e) => {
                return Err(e);
            },
        },
        None => {
            return Err(String::from_str("missing field TARSTK_ISU_PRSNT_PRC"));
        },
    };
    Ok(
        StockRightDailyRecord {
            base_date,
            market_name,
            issue_code,
            issue_name,
            close_price,
            price_change,
            fluctuation_rate,
            open_price,
            high_price,
            low_price,
            trading_volume,
            trading_value,
            market_cap,
            listed_shares,
            issue_price,
            delisting_date,
            target_stock_code,
            target_stock_name,
            target_stock_price,
        },
    )
}

/// Every raw record of the reply decodes.
pub open spec fn stock_right_daily_records_ok(rv: Seq<Seq<(Seq<char>, Seq<char>)>>) -> bool {
    forall|i: int| 0 <= i < rv.len() ==> stock_right_daily_fields_ok(#[trigger] rv[i])
}

/// Decodes every raw record of a reply, in order, failing on the first
/// record that does not decode.
pub fn decode_stock_right_daily_response(raw: &Vec<Vec<(String, String)>>) -> (r: Result<
    ApiResponse<StockRightDailyRecord>,
    String,
>)
    ensures
        r is Ok <==> stock_right_daily_records_ok(raw.deep_view()),
        r matches Ok(resp) ==> resp.data@.len() == raw@.len() && (forall|i: int|
            0 <= i < resp.data@.len() ==> stock_right_daily_matches(
                #[trigger] resp.data@[i],
                raw.deep_view()[i],
            )),
{
    let ghost rv = raw.deep_view();
    let mut data: Vec<StockRightDailyRecord> = Vec::new();
    let mut i: usize = 0;
    while i < raw.len()
        invariant
            rv == raw.deep_view(),
            rv.len() == raw@.len(),
            forall|k: int| 0 <= k < rv.len() ==> #[trigger] rv[k] == raw@[k].deep_view(),
            0 <= i <= raw@.len(),
            data@.len() == i,
            forall|k: int| 0 <= k < i ==> stock_right_daily_fields_ok(#[trigger] rv[k]),
            forall|k: int| 0 <= k < i ==> stock_right_daily_matches(#[trigger] data@[k], rv[k]),
        decreases raw@.len() - i,
    {
        match decode_stock_right_daily(&raw[i]) {
            Ok(rec) => {
                data.push(rec);
            },
            Err(e) => {
                proof {
                    assert(!stock_right_daily_fields_ok(rv[i as int]));
                }
                return Err(e);
            },
        }
        i += 1;
    }
    Ok(ApiResponse { data })
}

/// `t` is exactly the table of the records `rs`: 8 fixed columns, one
/// value per record in input order, and the empty table for no records.
pub open spec fn stock_right_daily_table_matches(t: Table, rs: Seq<StockRightDailyRecord>) -> bool {
    &&& rs.len() == 0 ==> t.columns@.len() == 0
    &&& rs.len() > 0 ==> {
        &&& t.columns@.len() == 8
        &&& col_text(
            t.columns@[0],
            "날짜"@,
            Seq::new(rs.len(), |i: int| iso_of(rs[i].base_date)),
        )
        &&& col_text(
            t.columns@[1],
            "시장구분"@,
            Seq::new(rs.len(), |i: int| rs[i].market_name@),
        )
        &&& col_text(
            t.columns@[2],
            "종목코드"@,
            Seq::new(rs.len(), |i: int| rs[i].issue_code@),
        )
        &&& col_text(
            t.columns@[3],
            "종목명"@,
            Seq::new(rs.len(), |i: int| rs[i].issue_name@),
        )
        &&& col_dec(
            t.columns@[4],
            "종가"@,
            Seq::new(rs.len(), |i: int| rs[i].close_price),
        )
        &&& col_dec(
            t.columns@[5],
            "신주발행가"@,
            Seq::new(rs.len(), |i: int| rs[i].issue_price),
        )
        &&& col_text(
            t.columns@[6],
            "목적주권명"@,
            Seq::new(rs.len(), |i: int| rs[i].target_stock_name@),
        )
        &&& col_dec(
            t.columns@[7],
            "목적주권가격"@,
            Seq::new(rs.len(), |i: int| rs[i].target_stock_price),
        )
    }
}

/// Flattens the typed records into their table; zero records give the
/// empty table of zero columns and zero rows.
pub fn parse_stock_right_daily(response: ApiResponse<StockRightDailyRecord>) -> (r: Result<Table, Error>)
    ensures
        r is Ok,
        r matches Ok(t) ==> stock_right_daily_table_matches(t, response.data@),
{
    let records = response.data;
    if records.len() == 0 {
        return Ok(Table::empty());
    }
    let n = records.len();
    let mut c0: Vec<String> = Vec::new();
    let mut c1: Vec<String> = Vec::new();
    let mut c2: Vec<String> = Vec::new();
    let mut c3: Vec<String> = Vec::new();
    let mut c4: Vec<Option<Decimal>> = Vec::new();
    let mut c5: Vec<Option<Decimal>> = Vec::new();
    let mut c6: Vec<String> = Vec::new();
    let mut c7: Vec<Option<Decimal>> = Vec::new();
    let mut i: usize = 0;
    while i < n
        invariant
            n == records@.len(),
            0 <= i <= n,
            c0@.len() == i && forall|k: int|
                0 <= k < i ==> (#[trigger] c0@[k])@ == iso_of(records@[k].base_date),
            c1@.len() == i && forall|k: int|
                0 <= k < i ==> (#[trigger] c1@[k])@ == records@[k].market_name@,
            c2@.len() == i && forall|k: int|
                0 <= k < i ==> (#[trigger] c2@[k])@ == records@[k].issue_code@,
            c3@.len() == i && forall|k: int|
                0 <= k < i ==> (#[trigger] c3@[k])@ == records@[k].issue_name@,
            c4@.len() == i && forall|k: int|
                0 <= k < i ==> #[trigger] c4@[k] == records@[k].close_price,
            c5@.len() == i && forall|k: int|
                0 <= k < i ==> #[trigger] c5@[k] == records@[k].issue_price,
            c6@.len() == i && forall|k: int|
                0 <= k < i ==> (#[trigger] c6@[k])@ == records@[k].target_stock_name@,
            c7@.len() == i && forall|k: int|
                0 <= k < i ==> #[trigger] c7@[k] == records@[k].target_stock_price,
        decreases n - i,
    {
        let rec = &records[i];
        c0.push(rec.base_date.to_iso_string());
        c1.push(rec.market_name.clone());
        c2.push(rec.issue_code.clone());
        c3.push(rec.issue_name.clone());
        c4.push(rec.close_price);
        c5.push(rec.issue_price);
        c6.push(rec.target_stock_name.clone());
        c7.push(rec.target_stock_price);
        i += 1;
    }
    proof {
        let rs = records@;
        assert(c0.deep_view() =~= Seq::new(rs.len(), |i: int| iso_of(rs[i].base_date)));
        assert(c1.deep_view() =~= Seq::new(rs.len(), |i: int| rs[i].market_name@));
        assert(c2.deep_view() =~= Seq::new(rs.len(), |i: int| rs[i].issue_code@));
        assert(c3.deep_view() =~= Seq::new(rs.len(), |i: int| rs[i].issue_name@));
        assert(c4@ =~= Seq::new(rs.len(), |i: int| rs[i].close_price));
        assert(c5@ =~= Seq::new(rs.len(), |i: int| rs[i].issue_price));
        assert(c6.deep_view() =~= Seq::new(rs.len(), |i: int| rs[i].target_stock_name@));
        assert(c7@ =~= Seq::new(rs.len(), |i: int| rs[i].target_stock_price));
    }
    let mut columns: Vec<Column> = Vec::new();
    columns.push(
        Column { name: String::from_str("날짜"), data: ColumnData::Text(c0) },
    );
    columns.push(
        Column { name: String::from_str("시장구분"), data: ColumnData::Text(c1) },
    );
    columns.push(
        Column { name: String::from_str("종목코드"), data: ColumnData::Text(c2) },
    );
    columns.push(
        Column { name: String::from_str("종목명"), data: ColumnData::Text(c3) },
    );
    columns.push(
        Column { name: String::from_str("종가"), data: ColumnData::Dec(c4) },
    );
    columns.push(
        Column { name: String::from_str("신주발행가"), data: ColumnData::Dec(c5) },
    );
    columns.push(
        Column { name: String::from_str("목적주권명"), data: ColumnData::Text(c6) },
    );
    columns.push(
        Column { name: String::from_str("목적주권가격"), data: ColumnData::Dec(c7) },
    );
    Ok(Table { columns })
}

/// `t` is the table some decoded record sequence of `body` flattens to.
pub open spec fn stock_right_daily_body_table(body: Seq<char>, t: Table) -> bool {
    exists|recs: Seq<StockRightDailyRecord>|
        #![trigger stock_right_daily_table_matches(t, recs)]
        {
            &&& envelope_result(body) matches Some(rv)
            &&& recs.len() == rv.len()
            &&& (forall|i: int| 0 <= i < recs.len() ==> stock_right_daily_matches(#[trigger] recs[i], rv[i]))
            &&& stock_right_daily_table_matches(t, recs)
        }
}

/// The whole decode pipeline of a 2xx body for this endpoint: envelope,
/// records, table.  Every failure is a `Parsing` error carrying the body.
pub fn stock_right_daily_table_from_body(body: &str) -> (r: Result<Table, Error>)
    ensures
        r is Ok <==> (envelope_result(body@) matches Some(rv) && stock_right_daily_records_ok(rv)),
        r matches Ok(t) ==> stock_right_daily_body_table(body@, t),
        r matches Err(e) ==> (e matches Error::Parsing {
            details: _,
            source: _,
            response_body,
        } && response_body@ == body@),
{
    let raw = match parse_envelope(body) {
        Ok(v) => v,
        Err(e) => {
            return Err(e);
        },
    };
    let resp = match decode_stock_right_daily_response(&raw) {
        Ok(v) => v,
        Err(msg) => {
            return Err(
                Error::Parsing {
                    details: String::from_str("failed to decode a record of the reply"),
                    source: msg,
                    response_body: String::from_str(body),
                },
            );
        },
    };
    let ghost recs = resp.data@;
    match parse_stock_right_daily(resp) {
        Ok(t) => {
            proof {
                assert(stock_right_daily_table_matches(t, recs));
            }
            Ok(t)
        },
        Err(_) => vstd::pervasive::unreached(),
    }
}

/// One row of the issue base-info endpoints, shared by the three boards.
#[derive(Debug)]
pub struct StockBaseInfoRecord {
    pub issue_code: String,
    pub issue_short_code: String,
    pub issue_name: String,
    pub issue_abbreviation: String,
    pub issue_english_name: String,
    pub listing_date: String,
    pub market_type: String,
    pub security_group: String,
    pub sector_type: String,
    pub stock_type: String,
    pub par_value: Option<Decimal>,
    pub listed_shares: Option<u64>,
}

/// Every field of the record is present and coercible.
pub open spec fn stock_base_info_fields_ok(fv: Seq<(Seq<char>, Seq<char>)>) -> bool {
    &&& field_lookup(fv, "ISU_CD"@) is Some
    &&& field_lookup(fv, "ISU_SRT_CD"@) is Some
    &&& field_lookup(fv, "ISU_NM"@) is Some
    &&& field_lookup(fv, "ISU_ABBRV"@) is Some
    &&& field_lookup(fv, "ISU_ENG_NM"@) is Some
    &&& field_lookup(fv, "LIST_DD"@) is Some
    &&& field_lookup(fv, "MKT_TP_NM"@) is Some
    &&& field_lookup(fv, "SECUGRP_NM"@) is Some
    &&& field_lookup(fv, "SECT_TP_NM"@) is Some
    &&& field_lookup(fv, "KIND_STKCERT_TP_NM"@) is Some
    &&& field_lookup(fv, "PARVAL"@) matches Some(s) && opt_dec_result(s) is Some
    &&& field_lookup(fv, "LIST_SHRS"@) matches Some(s) && opt_u64_result(s) is Some
}

/// `rec` holds exactly the coerced fields of the raw record `fv`.
pub open spec fn stock_base_info_matches(rec: StockBaseInfoRecord, fv: Seq<(Seq<char>, Seq<char>)>) -> bool {
    &&& Some(rec.issue_code@) == field_lookup(fv, "ISU_CD"@)
    &&& Some(rec.issue_short_code@) == field_lookup(fv, "ISU_SRT_CD"@)
    &&& Some(rec.issue_name@) == field_lookup(fv, "ISU_NM"@)
    &&& Some(rec.issue_abbreviation@) == field_lookup(fv, "ISU_ABBRV"@)
    &&& Some(rec.issue_english_name@) == field_lookup(fv, "ISU_ENG_NM"@)
    &&& Some(rec.listing_date@) == field_lookup(fv, "LIST_DD"@)
    &&& Some(rec.market_type@) == field_lookup(fv, "MKT_TP_NM"@)
    &&& Some(rec.security_group@) == field_lookup(fv, "SECUGRP_NM"@)
    &&& Some(rec.sector_type@) == field_lookup(fv, "SECT_TP_NM"@)
    &&& Some(rec.stock_type@) == field_lookup(fv, "KIND_STKCERT_TP_NM"@)
    &&& Some(rec.par_value) == opt_dec_result(field_lookup(fv, "PARVAL"@)->Some_0)
    &&& Some(rec.listed_shares) == opt_u64_result(field_lookup(fv, "LIST_SHRS"@)->Some_0)
}

/// Decodes one raw record of the endpoint.
pub fn decode_stock_base_info(fields: &Vec<(String, String)>) -> (r: Result<StockBaseInfoRecord, String>)
    ensures
        r is Ok <==> stock_base_info_fields_ok(fields.deep_view()),
        r matches Ok(rec) ==> stock_base_info_matches(rec, fields.deep_view()),
{
    let issue_code = match get_field(fields, "ISU_CD") {
        Some(s) => s.clone(),
        None => {
            return Err(String::from_str("missing field ISU_CD"));
        },
    };
    let issue_short_code = match get_field(fields, "ISU_SRT_CD") {
        Some(s) => s.clone(),
        None => {
            return Err(String::from_str("missing field ISU_SRT_CD"));
        },
    };
    let issue_name = match get_field(fields, "ISU_NM") {
        Some(s) => s.clone(),
        None => {
            return Err(String::from_str("missing field ISU_NM"));
        },
    };
    let issue_abbreviation = match get_field(fields, "ISU_ABBRV") {
        Some(s) => s.clone(),
        None => {
            return Err(String::from_str("missing field ISU_ABBRV"));
        },
    };
    let issue_english_name = match get_field(fields, "ISU_ENG_NM") {
        Some(s) => s.clone(),
        None => {
            return Err(String::from_str("missing field ISU_ENG_NM"));
        },
    };
    let listing_date = match get_field(fields, "LIST_DD") {
        Some(s) => s.clone(),
        None => {
            return Err(String::from_str("missing field LIST_DD"));
        },
    };
    let market_type = match get_field(fields, "MKT_TP_NM") {
        Some(s) => s.clone(),
        None => {
            return Err(String::from_str("missing field MKT_TP_NM"));
        },
    };
    let security_group = match get_field(fields, "SECUGRP_NM") {
        Some(s) => s.clone(),
        None => {
            return Err(String::from_str("missing field SECUGRP_NM"));
        },
    };
    let sector_type = match get_field(fields, "SECT_TP_NM") {
        Some(s) => s.clone(),
        None => {
            return Err(String::from_str("missing field SECT_TP_NM"));
        },
    };
    let stock_type = match get_field(fields, "KIND_STKCERT_TP_NM") {
        Some(s) => s.clone(),
        None => {
            return Err(String::from_str("missing field KIND_STKCERT_TP_NM"));
        },
    };
    let par_value = match get_field(fields, "PARVAL") {
        Some(s) => match deserialize_optional_f64(s.as_str()) {
            Ok(v) => v,
            Err(e) => {
                return Err(e);
            },
        },
        None => {
            return Err(String::from_str("missing field PARVAL"));
        },
    };
    let listed_shares = match get_field(fields, "LIST_SHRS") {
        Some(s) => match deserialize_optional_u64(s.as_str()) {
            Ok(v) => v,
            Err(e) => {
                return Err(e);
            },
        },
        None => {
            return Err(String::from_str("missing field LIST_SHRS"));
        },
    };
    Ok(
        StockBaseInfoRecord {
            issue_code,
            issue_short_code,
            issue_name,
            issue_abbreviation,
            issue_english_name,
            listing_date,
            market_type,
            security_group,
            sector_type,
            stock_type,
            par_value,
            listed_shares,
        },
    )
}

/// Every raw record of the reply decodes.
pub open spec fn stock_base_info_records_ok(rv: Seq<Seq<(Seq<char>, Seq<char>)>>) -> bool {
    forall|i: int| 0 <= i < rv.len() ==> stock_base_info_fields_ok(#[trigger] rv[i])
}

/// Decodes every raw record of a reply, in order, failing on the first
/// record that does not decode.
pub fn decode_stock_base_info_response(raw: &Vec<Vec<(String, String)>>) -> (r: Result<
    ApiResponse<StockBaseInfoRecord>,
    String,
>)
    ensures
        r is Ok <==> stock_base_info_records_ok(raw.deep_view()),
        r matches Ok(resp) ==> resp.data@.len() == raw@.len() && (forall|i: int|
            0 <= i < resp.data@.len() ==> stock_base_info_matches(
                #[trigger] resp.data@[i],
                raw.deep_view()[i],
            )),
{
    let ghost rv = raw.deep_view();
    let mut data: Vec<StockBaseInfoRecord> = Vec::new();
    let mut i: usize = 0;
    while i < raw.len()
        invariant
            rv == raw.deep_view(),
            rv.len() == raw@.len(),
            forall|k: int| 0 <= k < rv.len() ==> #[trigger] rv[k] == raw@[k].deep_view(),
            0 <= i <= raw@.len(),
            data@.len() == i,
            forall|k: int| 0 <= k < i ==> stock_base_info_fields_ok(#[trigger] rv[k]),
            forall|k: int| 0 <= k < i ==> stock_base_info_matches(#[trigger] data@[k], rv[k]),
        decreases raw@.len() - i,
    {
        match decode_stock_base_info(&raw[i]) {
            Ok(rec) => {
                data.push(rec);
            },
            Err(e) => {
                proof {
                    assert(!stock_base_info_fields_ok(rv[i as int]));
                }
                return Err(e);
            },
        }
        i += 1;
    }
    Ok(ApiResponse { data })
}

/// `t` is exactly the table of the records `rs`: 12 fixed columns, one
/// value per record in input order, and the empty table for no records.
pub open spec fn stock_base_info_table_matches(t: Table, rs: Seq<StockBaseInfoRecord>) -> bool {
    &&& rs.len() == 0 ==> t.columns@.len() == 0
    &&& rs.len() > 0 ==> {
        &&& t.columns@.len() == 12
        &&& col_text(
            t.columns@[0],
            "표준코드"@,
            Seq::new(rs.len(), |i: int| rs[i].issue_code@),
        )
        &&& col_text(
            t.columns@[1],
            "단축코드"@,
            Seq::new(rs.len(), |i: int| rs[i].issue_short_code@),
        )
        &&& col_text(
            t.columns@[2],
            "종목명"@,
            Seq::new(rs.len(), |i: int| rs[i].issue_name@),
        )
        &&& col_text(
            t.columns@[3],
            "종목약명"@,
            Seq::new(rs.len(), |i: int| rs[i].issue_abbreviation@),
        )
        &&& col_text(
            t.columns@[4],
            "영문명"@,
            Seq::new(rs.len(), |i: int| rs[i].issue_english_name@),
        )
        &&& col_text(
            t.columns@[5],
            "상장일"@,
            Seq::new(rs.len(), |i: int| rs[i].listing_date@),
        )
        &&& col_text(
            t.columns@[6],
            "시장구분"@,
            Seq::new(rs.len(), |i: int| rs[i].market_type@),
        )
        &&& col_text(
            t.columns@[7],
            "증권구분"@,
            Seq::new(rs.len(), |i: int| rs[i].security_group@),
        )
        &&& col_text(
            t.columns@[8],
            "소속부"@,
            Seq::new(rs.len(), |i: int| rs[i].sector_type@),
        )
        &&& col_text(
            t.columns@[9],
            "주식종류"@,
            Seq::new(rs.len(), |i: int| rs[i].stock_type@),
        )
        &&& col_dec(
            t.columns@[10],
            "액면가"@,
            Seq::new(rs.len(), |i: int| rs[i].par_value),
        )
        &&& col_uint(
            t.columns@[11],
            "상장주식수"@,
            Seq::new(rs.len(), |i: int| rs[i].listed_shares),
        )
    }
}

/// Flattens the typed records into their table; zero records give the
/// empty table of zero columns and zero rows.
pub fn parse_stock_base_info(response: ApiResponse<StockBaseInfoRecord>) -> (r: Result<Table, Error>)
    ensures
        r is Ok,
        r matches Ok(t) ==> stock_base_info_table_matches(t, response.data@),
{
    let records = response.data;
    if records.len() == 0 {
        return Ok(Table::empty());
    }
    let n = records.len();
    let mut c0: Vec<String> = Vec::new();
    let mut c1: Vec<String> = Vec::new();
    let mut c2: Vec<String> = Vec::new();
    let mut c3: Vec<String> = Vec::new();
    let mut c4: Vec<String> = Vec::new();
    let mut c5: Vec<String> = Vec::new();
    let mut c6: Vec<String> = Vec::new();
    let mut c7: Vec<String> = Vec::new();
    let mut c8: Vec<String> = Vec::new();
    let mut c9: Vec<String> = Vec::new();
    let mut c10: Vec<Option<Decimal>> = Vec::new();
    let mut c11: Vec<Option<u64>> = Vec::new();
    let mut i: usize = 0;
    while i < n
        invariant
            n == records@.len(),
            0 <= i <= n,
            c0@.len() == i && forall|k: int|
                0 <= k < i ==> (#[trigger] c0@[k])@ == records@[k].issue_code@,
            c1@.len() == i && forall|k: int|
                0 <= k < i ==> (#[trigger] c1@[k])@ == records@[k].issue_short_code@,
            c2@.len() == i && forall|k: int|
                0 <= k < i ==> (#[trigger] c2@[k])@ == records@[k].issue_name@,
            c3@.len() == i && forall|k: int|
                0 <= k < i ==> (#[trigger] c3@[k])@ == records@[k].issue_abbreviation@,
            c4@.len() == i && forall|k: int|
                0 <= k < i ==> (#[trigger] c4@[k])@ == records@[k].issue_english_name@,
            c5@.len() == i && forall|k: int|
                0 <= k < i ==> (#[trigger] c5@[k])@ == records@[k].listing_date@,
            c6@.len() == i && forall|k: int|
                0 <= k < i ==> (#[trigger] c6@[k])@ == records@[k].market_type@,
            c7@.len() == i && forall|k: int|
                0 <= k < i ==> (#[trigger] c7@[k])@ == records@[k].security_group@,
            c8@.len() == i && forall|k: int|
                0 <= k < i ==> (#[trigger] c8@[k])@ == records@[k].sector_type@,
            c9@.len() == i && forall|k: int|
                0 <= k < i ==> (#[trigger] c9@[k])@ == records@[k].stock_type@,
            c10@.len() == i && forall|k: int|
                0 <= k < i ==> #[trigger] c10@[k] == records@[k].par_value,
            c11@.len() == i && forall|k: int|
                0 <= k < i ==> #[trigger] c11@[k] == records@[k].listed_shares,
        decreases n - i,
    {
        let rec = &records[i];
        c0.push(rec.issue_code.clone());
        c1.push(rec.issue_short_code.clone());
        c2.push(rec.issue_name.clone());
        c3.push(rec.issue_abbreviation.clone());
        c4.push(rec.issue_english_name.clone());
        c5.push(rec.listing_date.clone());
        c6.push(rec.market_type.clone());
        c7.push(rec.security_group.clone());
        c8.push(rec.sector_type.clone());
        c9.push(rec.stock_type.clone());
        c10.push(rec.par_value);
        c11.push(rec.listed_shares);
        i += 1;
    }
    proof {
        let rs = records@;
        assert(c0.deep_view() =~= Seq::new(rs.len(), |i: int| rs[i].issue_code@));
        assert(c1.deep_view() =~= Seq::new(rs.len(), |i: int| rs[i].issue_short_code@));
        assert(c2.deep_view() =~= Seq::new(rs.len(), |i: int| rs[i].issue_name@));
        assert(c3.deep_view() =~= Seq::new(rs.len(), |i: int| rs[i].issue_abbreviation@));
        assert(c4.deep_view() =~= Seq::new(rs.len(), |i: int| rs[i].issue_english_name@));
        assert(c5.deep_view() =~= Seq::new(rs.len(), |i: int| rs[i].listing_date@));
        assert(c6.deep_view() =~= Seq::new(rs.len(), |i: int| rs[i].market_type@));
        assert(c7.deep_view() =~= Seq::new(rs.len(), |i: int| rs[i].security_group@));
        assert(c8.deep_view() =~= Seq::new(rs.len(), |i: int| rs[i].sector_type@));
        assert(c9.deep_view() =~= Seq::new(rs.len(), |i: int| rs[i].stock_type@));
        assert(c10@ =~= Seq::new(rs.len(), |i: int| rs[i].par_value));
        assert(c11@ =~= Seq::new(rs.len(), |i: int| rs[i].listed_shares));
    }
    let mut columns: Vec<Column> = Vec::new();
    columns.push(
        Column { name: String::from_str("표준코드"), data: ColumnData::Text(c0) },
    );
    columns.push(
        Column { name: String::from_str("단축코드"), data: ColumnData::Text(c1) },
    );
    columns.push(
        Column { name: String::from_str("종목명"), data: ColumnData::Text(c2) },
    );
    columns.push(
        Column { name: String::from_str("종목약명"), data: ColumnData::Text(c3) },
    );
    columns.push(
        Column { name: String::from_str("영문명"), data: ColumnData::Text(c4) },
    );
    columns.push(
        Column { name: String::from_str("상장일"), data: ColumnData::Text(c5) },
    );
    columns.push(
        Column { name: String::from_str("시장구분"), data: ColumnData::Text(c6) },
    );
    columns.push(
        Column { name: String::from_str("증권구분"), data: ColumnData::Text(c7) },
    );
    columns.push(
        Column { name: String::from_str("소속부"), data: ColumnData::Text(c8) },
    );
    columns.push(
        Column { name: String::from_str("주식종류"), data: ColumnData::Text(c9) },
    );
    columns.push(
        Column { name: String::from_str("액면가"), data: ColumnData::Dec(c10) },
    );
    columns.push(
        Column { name: String::from_str("상장주식수"), data: ColumnData::UInt(c11) },
    );
    Ok(Table { columns })
}

/// `t` is the table some decoded record sequence of `body` flattens to.
pub open spec fn stock_base_info_body_table(body: Seq<char>, t: Table) -> bool {
    exists|recs: Seq<StockBaseInfoRecord>|
        #![trigger stock_base_info_table_matches(t, recs)]
        {
            &&& envelope_result(body) matches Some(rv)
            &&& recs.len() == rv.len()
            &&& (forall|i: int| 0 <= i < recs.len() ==> stock_base_info_matches(#[trigger] recs[i], rv[i]))
            &&& stock_base_info_table_matches(t, recs)
        }
}

/// The whole decode pipeline of a 2xx body for this endpoint: envelope,
/// records, table.  Every failure is a `Parsing` error carrying the body.
pub fn stock_base_info_table_from_body(body: &str) -> (r: Result<Table, Error>)
    ensures
        r is Ok <==> (envelope_result(body@) matches Some(rv) && stock_base_info_records_ok(rv)),
        r matches Ok(t) ==> stock_base_info_body_table(body@, t),
        r matches Err(e) ==> (e matches Error::Parsing {
            details: _,
            source: _,
            response_body,
        } && response_body@ == body@),
{
    let raw = match parse_envelope(body) {
        Ok(v) => v,
        Err(e) => {
            return Err(e);
        },
    };
    let resp = match decode_stock_base_info_response(&raw) {
        Ok(v) => v,
        Err(msg) => {
            return Err(
                Error::Parsing {
                    details: String::from_str("failed to decode a record of the reply"),
                    source: msg,
                    response_body: String::from_str(body),
                },
            );
        },
    };
    let ghost recs = resp.data@;
    match parse_stock_base_info(resp) {
        Ok(t) => {
            proof {
                assert(stock_base_info_table_matches(t, recs));
            }
            Ok(t)
        },
        Err(_) => vstd::pervasive::unreached(),
    }
}

} // verus!
