//! Records and tables of the derivative endpoints: futures and options,
//! exchange-wide and per equity board.

use vstd::prelude::*;
use crate::data::{
    ApiResponse,
    deserialize_krx_date,
    deserialize_optional_f64,
    deserialize_optional_u64,
    envelope_result,
    field_lookup,
    get_field,
    opt_dec_result,
    opt_u64_result,
    parse_envelope,
};
use crate::date::{Date, date_result, iso_of};
use crate::error::Error;
use crate::num::Decimal;
use crate::table::{Column, ColumnData, Table, col_dec, col_text, col_uint};

verus! {

/// One row of the exchange-wide futures daily-trade endpoint.  Its open
/// interest arrives as opaque text and stays text.
#[derive(Debug)]
pub struct FuturesDailyRecord {
    pub base_date: Date,
    pub issue_code: String,
    pub issue_name: String,
    pub product_name: String,
    pub market_name: String,
    pub close_price: Option<Decimal>,
    pub open_price: Option<Decimal>,
    pub high_price: Option<Decimal>,
    pub low_price: Option<Decimal>,
    pub settlement_price: Option<Decimal>,
    pub spot_price: Option<Decimal>,
    pub price_change: Option<Decimal>,
    pub trading_volume: Option<u64>,
    pub trading_value: Option<u64>,
    pub open_interest_quantity: String,
}

/// Every field of the record is present and coercible.
pub open spec fn futures_daily_fields_ok(fv: Seq<(Seq<char>, Seq<char>)>) -> bool {
    &&& field_lookup(fv, "BAS_DD"@) matches Some(s) && date_result(s) is Some
    &&& field_lookup(fv, "ISU_CD"@) is Some
    &&& field_lookup(fv, "ISU_NM"@) is Some
    &&& field_lookup(fv, "PROD_NM"@) is Some
    &&& field_lookup(fv, "MKT_NM"@) is Some
    &&& field_lookup(fv, "TDD_CLSPRC"@) matches Some(s) && opt_dec_result(s) is Some
    &&& field_lookup(fv, "TDD_OPNPRC"@) matches Some(s) && opt_dec_result(s) is Some
    &&& field_lookup(fv, "TDD_HGPRC"@) matches Some(s) && opt_dec_result(s) is Some
    &&& field_lookup(fv, "TDD_LWPRC"@) matches Some(s) && opt_dec_result(s) is Some
    &&& field_lookup(fv, "SETL_PRC"@) matches Some(s) && opt_dec_result(s) is Some
    &&& field_lookup(fv, "SPOT_PRC"@) matches Some(s) && opt_dec_result(s) is Some
    &&& field_lookup(fv, "CMPPREVDD_PRC"@) matches Some(s) && opt_dec_result(s) is Some
    &&& field_lookup(fv, "ACC_TRDVOL"@) matches Some(s) && opt_u64_result(s) is Some
    &&& field_lookup(fv, "ACC_TRDVAL"@) matches Some(s) && opt_u64_result(s) is Some
    &&& field_lookup(fv, "ACC_OPNINT_QTY"@) is Some
}

/// `rec` holds exactly the coerced fields of the raw record `fv`.
pub open spec fn futures_daily_matches(rec: FuturesDailyRecord, fv: Seq<(Seq<char>, Seq<char>)>) -> bool {
    &&& Some(rec.base_date) == date_result(field_lookup(fv, "BAS_DD"@)->Some_0)
    &&& Some(rec.issue_code@) == field_lookup(fv, "ISU_CD"@)
    &&& Some(rec.issue_name@) == field_lookup(fv, "ISU_NM"@)
    &&& Some(rec.product_name@) == field_lookup(fv, "PROD_NM"@)
    &&& Some(rec.market_name@) == field_lookup(fv, "MKT_NM"@)
    &&& Some(rec.close_price) == opt_dec_result(field_lookup(fv, "TDD_CLSPRC"@)->Some_0)
    &&& Some(rec.open_price) == opt_dec_result(field_lookup(fv, "TDD_OPNPRC"@)->Some_0)
    &&& Some(rec.high_price) == opt_dec_result(field_lookup(fv, "TDD_HGPRC"@)->Some_0)
    &&& Some(rec.low_price) == opt_dec_result(field_lookup(fv, "TDD_LWPRC"@)->Some_0)
    &&& Some(rec.settlement_price) == opt_dec_result(field_lookup(fv, "SETL_PRC"@)->Some_0)
    &&& Some(rec.spot_price) == opt_dec_result(field_lookup(fv, "SPOT_PRC"@)->Some_0)
    &&& Some(rec.price_change) == opt_dec_result(field_lookup(fv, "CMPPREVDD_PRC"@)->Some_0)
    &&& Some(rec.trading_volume) == opt_u64_result(field_lookup(fv, "ACC_TRDVOL"@)->Some_0)
    &&& Some(rec.trading_value) == opt_u64_result(field_lookup(fv, "ACC_TRDVAL"@)->Some_0)
    &&& Some(rec.open_interest_quantity@) == field_lookup(fv, "ACC_OPNINT_QTY"@)
}

/// Decodes one raw record of the endpoint.
pub fn decode_futures_daily(fields: &Vec<(String, String)>) -> (r: Result<FuturesDailyRecord, String>)
    ensures
        r is Ok <==> futures_daily_fields_ok(fields.deep_view()),
        r matches Ok(rec) ==> futures_daily_matches(rec, fields.deep_view()),
{
    let base_date = match get_field(fields, "BAS_DD") {
        Some(s) => match deserialize_krx_date(s.as_str()) {
            Ok(v) => v,
            Err(e) => {
                return Err(e);
            },
        },
        None => {
            return Err(String::from_str("missing field BAS_DD"));
        },
    };
    let issue_code = match get_field(fields, "ISU_CD") {
        Some(s) => s.clone(),
        None => {
            return Err(String::from_str("missing field ISU_CD"));
        },
    };
    let issue_name = match get_field(fields, "ISU_NM") {
        Some(s) => s.clone(),
        None => {
            return Err(String::from_str("missing field ISU_NM"));
        },
    };
    let product_name = match get_field(fields, "PROD_NM") {
        Some(s) => s.clone(),
        None => {
            return Err(String::from_str("missing field PROD_NM"));
        },
    };
    let market_name = match get_field(fields, "MKT_NM") {
        Some(s) => s.clone(),
        None => {
            return Err(String::from_str("missing field MKT_NM"));
        },
    };
    let close_price = match get_field(fields, "TDD_CLSPRC") {
        Some(s) => match deserialize_optional_f64(s.as_str()) {
            Ok(v) => v,
            Err(e) => {
                return Err(e);
            },
        },
        None => {
            return Err(String::from_str("missing field TDD_CLSPRC"));
        },
    };
    let open_price = match get_field(fields, "TDD_OPNPRC") {
        Some(s) => match deserialize_optional_f64(s.as_str()) {
            Ok(v) => v,
            Err(e) => {
                return Err(e);
            },
        },
        None => {
            return Err(String::from_str("missing field TDD_OPNPRC"));
        },
    };
    let high_price = match get_field(fields, "TDD_HGPRC") {
        Some(s) => match deserialize_optional_f64(s.as_str()) {
            Ok(v) => v,
            Err(e) => {
                return Err(e);
            },
        },
        None => {
            return Err(String::from_str("missing field TDD_HGPRC"));
        },
    };
    let low_price = match get_field(fields, "TDD_LWPRC") {
        Some(s) => match deserialize_optional_f64(s.as_str()) {
            Ok(v) => v,
            Err(e) => {
                return Err(e);
            },
        },
        None => {
            return Err(String::from_str("missing field TDD_LWPRC"));
        },
    };
    let settlement_price = match get_field(fields, "SETL_PRC") {
        Some(s) => match deserialize_optional_f64(s.as_str()) {
            Ok(v) => v,
            Err(e) => {
                return Err(e);
            },
        },
        None => {
            return Err(String::from_str("missing field SETL_PRC"));
        },
    };
    let spot_price = match get_field(fields, "SPOT_PRC") {
        Some(s) => match deserialize_optional_f64(s.as_str()) {
            Ok(v) => v,
            Err(e) => {
                return Err(e);
            },
        },
        None => {
            return Err(String::from_str("missing field SPOT_PRC"));
        },
    };
    let price_change = match get_field(fields, "CMPPREVDD_PRC") {
        Some(s) => match deserialize_optional_f64(s.as_str()) {
            Ok(v) => v,
            Err(e) => {
                return Err(e);
            },
        },
        None => {
            return Err(String::from_str("missing field CMPPREVDD_PRC"));
        },
    };
    let trading_volume = match get_field(fields, "ACC_TRDVOL") {
        Some(s) => match deserialize_optional_u64(s.as_str()) {
            Ok(v) => v,
            Err(e) => {
                return Err(e);
            },
        },
        None => {
            return Err(String::from_str("missing field ACC_TRDVOL"));
        },
    };
    let trading_value = match get_field(fields, "ACC_TRDVAL") {
        Some(s) => match deserialize_optional_u64(s.as_str()) {
            Ok(v) => v,
            Err(e) => {
                return Err(e);
            },
        },
        None => {
            return Err(String::from_str("missing field ACC_TRDVAL"));
        },
    };
    let open_interest_quantity = match get_field(fields, "ACC_OPNINT_QTY") {
        Some(s) => s.clone(),
        None => {
            return Err(String::from_str("missing field ACC_OPNINT_QTY"));
        },
    };
    Ok(
        FuturesDailyRecord {
            base_date,
            issue_code,
            issue_name,
            product_name,
            market_name,
            close_price,
            open_price,
            high_price,
            low_price,
            settlement_price,
            spot_price,
            price_change,
            trading_volume,
            trading_value,
            open_interest_quantity,
        },
    )
}

/// Every raw record of the reply decodes.
pub open spec fn futures_daily_records_ok(rv: Seq<Seq<(Seq<char>, Seq<char>)>>) -> bool {
    forall|i: int| 0 <= i < rv.len() ==> futures_daily_fields_ok(#[trigger] rv[i])
}

/// Decodes every raw record of a reply, in order, failing on the first
/// record that does not decode.
pub fn decode_futures_daily_response(raw: &Vec<Vec<(String, String)>>) -> (r: Result<
    ApiResponse<FuturesDailyRecord>,
    String,
>)
    ensures
        r is Ok <==> futures_daily_records_ok(raw.deep_view()),
        r matches Ok(resp) ==> resp.data@.len() == raw@.len() && (forall|i: int|
            0 <= i < resp.data@.len() ==> futures_daily_matches(
                #[trigger] resp.data@[i],
                raw.deep_view()[i],
            )),
{
    let ghost rv = raw.deep_view();
    let mut data: Vec<FuturesDailyRecord> = Vec::new();
    let mut i: usize = 0;
    while i < raw.len()
        invariant
            rv == raw.deep_view(),
            rv.len() == raw@.len(),
            forall|k: int| 0 <= k < rv.len() ==> #[trigger] rv[k] == raw@[k].deep_view(),
            0 <= i <= raw@.len(),
            data@.len() == i,
            forall|k: int| 0 <= k < i ==> futures_daily_fields_ok(#[trigger] rv[k]),
            forall|k: int| 0 <= k < i ==> futures_daily_matches(#[trigger] data@[k], rv[k]),
        decreases raw@.len() - i,
    {
        match decode_futures_daily(&raw[i]) {
            Ok(rec) => {
                data.push(rec);
            },
            Err(e) => {
                proof {
                    assert(!futures_daily_fields_ok(rv[i as int]));
                }
                return Err(e);
            },
        }
        i += 1;
    }
    Ok(ApiResponse { data })
}

/// `t` is exactly the table of the records `rs`: 12 fixed columns, one
/// value per record in input order, and the empty table for no records.
pub open spec fn futures_daily_table_matches(t: Table, rs: Seq<FuturesDailyRecord>) -> bool {
    &&& rs.len() == 0 ==> t.columns@.len() == 0
    &&& rs.len() > 0 ==> {
        &&& t.columns@.len() == 12
        &&& col_text(
            t.columns@[0],
            "날짜"@,
            Seq::new(rs.len(), |i: int| iso_of(rs[i].base_date)),
        )
        &&& col_text(
            t.columns@[1],
            "종목코드"@,
            Seq::new(rs.len(), |i: int| rs[i].issue_code@),
        )
        &&& col_text(
            t.columns@[2],
            "종목명"@,
            Seq::new(rs.len(), |i: int| rs[i].issue_name@),
        )
        &&& col_text(
            t.columns@[3],
            "상품명"@,
            Seq::new(rs.len(), |i: int| rs[i].product_name@),
        )
        &&& col_text(
            t.columns@[4],
            "시장구분"@,
            Seq::new(rs.len(), |i: int| rs[i].market_name@),
        )
        &&& col_dec(
            t.columns@[5],
            "종가"@,
            Seq::new(rs.len(), |i: int| rs[i].close_price),
        )
        &&& col_dec(
            t.columns@[6],
            "정산가격"@,
            Seq::new(rs.len(), |i: int| rs[i].settlement_price),
        )
        &&& col_dec(
            t.columns@[7],
            "현물가격"@,
            Seq::new(rs.len(), |i: int| rs[i].spot_price),
        )
        &&& col_dec(
            t.columns@[8],
            "대비"@,
            Seq::new(rs.len(), |i: int| rs[i].price_change),
        )
        &&& col_uint(
            t.columns@[9],
            "거래량"@,
            Seq::new(rs.len(), |i: int| rs[i].trading_volume),
        )
        &&& col_uint(
            t.columns@[10],
            "거래대금"@,
            Seq::new(rs.len(), |i: int| rs[i].trading_value),
        )
        &&& col_text(
            t.columns@[11],
            "미결제약정수량"@,
            Seq::new(rs.len(), |i: int| rs[i].open_interest_quantity@),
        )
    }
}

/// Flattens the typed records into their table; zero records give the
/// empty table of zero columns and zero rows.
pub fn parse_futures_daily(response: ApiResponse<FuturesDailyRecord>) -> (r: Result<Table, Error>)
    ensures
        r is Ok,
        r matches Ok(t) ==> futures_daily_table_matches(t, response.data@),
{
    let records = response.data;
    if records.len() == 0 {
        return Ok(Table::empty());
    }
    let n = records.len();
    let mut c0: Vec<String> = Vec::new();
    let mut c1: Vec<String> = Vec::new();
    let mut c2: Vec<String> = Vec::new();
    let mut c3: Vec<String> = Vec::new();
    let mut c4: Vec<String> = Vec::new();
    let mut c5: Vec<Option<Decimal>> = Vec::new();
    let mut c6: Vec<Option<Decimal>> = Vec::new();
    let mut c7: Vec<Option<Decimal>> = Vec::new();
    let mut c8: Vec<Option<Decimal>> = Vec::new();
    let mut c9: Vec<Option<u64>> = Vec::new();
    let mut c10: Vec<Option<u64>> = Vec::new();
    let mut c11: Vec<String> = Vec::new();
    let mut i: usize = 0;
    while i < n
        invariant
            n == records@.len(),
            0 <= i <= n,
            c0@.len() == i && forall|k: int|
                0 <= k < i ==> (#[trigger] c0@[k])@ == iso_of(records@[k].base_date),
            c1@.len() == i && forall|k: int|
                0 <= k < i ==> (#[trigger] c1@[k])@ == records@[k].issue_code@,
            c2@.len() == i && forall|k: int|
                0 <= k < i ==> (#[trigger] c2@[k])@ == records@[k].issue_name@,
            c3@.len() == i && forall|k: int|
                0 <= k < i ==> (#[trigger] c3@[k])@ == records@[k].product_name@,
            c4@.len() == i && forall|k: int|
                0 <= k < i ==> (#[trigger] c4@[k])@ == records@[k].market_name@,
            c5@.len() == i && forall|k: int|
                0 <= k < i ==> #[trigger] c5@[k] == records@[k].close_price,
            c6@.len() == i && forall|k: int|
                0 <= k < i ==> #[trigger] c6@[k] == records@[k].settlement_price,
            c7@.len() == i && forall|k: int|
                0 <= k < i ==> #[trigger] c7@[k] == records@[k].spot_price,
            c8@.len() == i && forall|k: int|
                0 <= k < i ==> #[trigger] c8@[k] == records@[k].price_change,
            c9@.len() == i && forall|k: int|
                0 <= k < i ==> #[trigger] c9@[k] == records@[k].trading_volume,
            c10@.len() == i && forall|k: int|
                0 <= k < i ==> #[trigger] c10@[k] == records@[k].trading_value,
            c11@.len() == i && forall|k: int|
                0 <= k < i ==> (#[trigger] c11@[k])@ == records@[k].open_interest_quantity@,
        decreases n - i,
    {
        let rec = &records[i];
        c0.push(rec.base_date.to_iso_string());
        c1.push(rec.issue_code.clone());
        c2.push(rec.issue_name.clone());
        c3.push(rec.product_name.clone());
        c4.push(rec.market_name.clone());
        c5.push(rec.close_price);
        c6.push(rec.settlement_price);
        c7.push(rec.spot_price);
        c8.push(rec.price_change);
        c9.push(rec.trading_volume);
        c10.push(rec.trading_value);
        c11.push(rec.open_interest_quantity.clone());
        i += 1;
    }
    proof {
        let rs = records@;
        assert(c0.deep_view() =~= Seq::new(rs.len(), |i: int| iso_of(rs[i].base_date)));
        assert(c1.deep_view() =~= Seq::new(rs.len(), |i: int| rs[i].issue_code@));
        assert(c2.deep_view() =~= Seq::new(rs.len(), |i: int| rs[i].issue_name@));
        assert(c3.deep_view() =~= Seq::new(rs.len(), |i: int| rs[i].product_name@));
        assert(c4.deep_view() =~= Seq::new(rs.len(), |i: int| rs[i].market_name@));
        assert(c5@ =~= Seq::new(rs.len(), |i: int| rs[i].close_price));
        assert(c6@ =~= Seq::new(rs.len(), |i: int| rs[i].settlement_price));
        assert(c7@ =~= Seq::new(rs.len(), |i: int| rs[i].spot_price));
        assert(c8@ =~= Seq::new(rs.len(), |i: int| rs[i].price_change));
        assert(c9@ =~= Seq::new(rs.len(), |i: int| rs[i].trading_volume));
        assert(c10@ =~= Seq::new(rs.len(), |i: int| rs[i].trading_value));
        assert(c11.deep_view() =~= Seq::new(rs.len(), |i: int| rs[i].open_interest_quantity@));
    }
    let mut columns: Vec<Column> = Vec::new();
    columns.push(
        Column { name: String::from_str("날짜"), data: ColumnData::Text(c0) },
    );
    columns.push(
        Column { name: String::from_str("종목코드"), data: ColumnData::Text(c1) },
    );
    columns.push(
        Column { name: String::from_str("종목명"), data: ColumnData::Text(c2) },
    );
    columns.push(
        Column { name: String::from_str("상품명"), data: ColumnData::Text(c3) },
    );
    columns.push(
        Column { name: String::from_str("시장구분"), data: ColumnData::Text(c4) },
    );
    columns.push(
        Column { name: String::from_str("종가"), data: ColumnData::Dec(c5) },
    );
    columns.push(
        Column { name: String::from_str("정산가격"), data: ColumnData::Dec(c6) },
    );
    columns.push(
        Column { name: String::from_str("현물가격"), data: ColumnData::Dec(c7) },
    );
    columns.push(
        Column { name: String::from_str("대비"), data: ColumnData::Dec(c8) },
    );
    columns.push(
        Column { name: String::from_str("거래량"), data: ColumnData::UInt(c9) },
    );
    columns.push(
        Column { name: String::from_str("거래대금"), data: ColumnData::UInt(c10) },
    );
    columns.push(
        Column { name: String::from_str("미결제약정수량"), data: ColumnData::Text(c11) },
    );
    Ok(Table { columns })
}

/// `t` is the table some decoded record sequence of `body` flattens to.
pub open spec fn futures_daily_body_table(body: Seq<char>, t: Table) -> bool {
    exists|recs: Seq<FuturesDailyRecord>|
        #![trigger futures_daily_table_matches(t, recs)]
        {
            &&& envelope_result(body) matches Some(rv)
            &&& recs.len() == rv.len()
            &&& (forall|i: int| 0 <= i < recs.len() ==> futures_daily_matches(#[trigger] recs[i], rv[i]))
            &&& futures_daily_table_matches(t, recs)
        }
}

/// The whole decode pipeline of a 2xx body for this endpoint: envelope,
/// records, table.  Every failure is a `Parsing` error carrying the body.
pub fn futures_daily_table_from_body(body: &str) -> (r: Result<Table, Error>)
    ensures
        r is Ok <==> (envelope_result(body@) matches Some(rv) && futures_daily_records_ok(rv)),
        r matches Ok(t) ==> futures_daily_body_table(body@, t),
        r matches Err(e) ==> (e matches Error::Parsing {
            details: _,
            source: _,
            response_body,
        } && response_body@ == body@),
{
    let raw = match parse_envelope(body) {
        Ok(v) => v,
        Err(e) => {
            return Err(e);
        },
    };
    let resp = match decode_futures_daily_response(&raw) {
        Ok(v) => v,
        Err(msg) => {
            return Err(
                Error::Parsing {
                    details: String::from_str("failed to decode a record of the reply"),
                    source: msg,
                    response_body: String::from_str(body),
                },
            );
        },
    };
    let ghost recs = resp.data@;
    match parse_futures_daily(resp) {
        Ok(t) => {
            proof {
                assert(futures_daily_table_matches(t, recs));
            }
            Ok(t)
        },
        Err(_) => vstd::pervasive::unreached(),
    }
}

/// One row of the options daily-trade endpoints; the per-board equity
/// option endpoints share this shape.  Its price fields arrive as opaque
/// text and stay text.
#[derive(Debug)]
pub struct OptionsDailyRecord {
    pub base_date: Date,
    pub issue_code: String,
    pub issue_name: String,
    pub product_name: String,
    pub right_type: String,
    pub close_price: String,
    pub open_price: String,
    pub high_price: String,
    pub low_price: String,
    pub price_change: String,
    pub trading_volume: Option<u64>,
    pub trading_value: Option<u64>,
    pub open_interest_quantity: Option<u64>,
    pub implied_volatility: Option<Decimal>,
    pub next_day_base_price: Option<Decimal>,
}

/// The `equity_stock_options_daily` endpoints reuse this record shape.
pub type EquityStockOptionsDailyRecord = OptionsDailyRecord;

/// The `equity_kosdaq_options_daily` endpoints reuse this record shape.
pub type EquityKosdaqOptionsDailyRecord = OptionsDailyRecord;

/// Every field of the record is present and coercible.
pub open spec fn options_daily_fields_ok(fv: Seq<(Seq<char>, Seq<char>)>) -> bool {
    &&& field_lookup(fv, "BAS_DD"@) matches Some(s) && date_result(s) is Some
    &&& field_lookup(fv, "ISU_CD"@) is Some
    &&& field_lookup(fv, "ISU_NM"@) is Some
    &&& field_lookup(fv, "PROD_NM"@) is Some
    &&& field_lookup(fv, "RGHT_TP_NM"@) is Some
    &&& field_lookup(fv, "TDD_CLSPRC"@) is Some
    &&& field_lookup(fv, "TDD_OPNPRC"@) is Some
    &&& field_lookup(fv, "TDD_HGPRC"@) is Some
    &&& field_lookup(fv, "TDD_LWPRC"@) is Some
    &&& field_lookup(fv, "CMPPREVDD_PRC"@) is Some
    &&& field_lookup(fv, "ACC_TRDVOL"@) matches Some(s) && opt_u64_result(s) is Some
    &&& field_lookup(fv, "ACC_TRDVAL"@) matches Some(s) && opt_u64_result(s) is Some
    &&& field_lookup(fv, "ACC_OPNINT_QTY"@) matches Some(s) && opt_u64_result(s) is Some
    &&& field_lookup(fv, "IMP_VOLT"@) matches Some(s) && opt_dec_result(s) is Some
    &&& field_lookup(fv, "NXTDD_BAS_PRC"@) matches Some(s) && opt_dec_result(s) is Some
}

/// `rec` holds exactly the coerced fields of the raw record `fv`.
pub open spec fn options_daily_matches(rec: OptionsDailyRecord, fv: Seq<(Seq<char>, Seq<char>)>) -> bool {
    &&& Some(rec.base_date) == date_result(field_lookup(fv, "BAS_DD"@)->Some_0)
    &&& Some(rec.issue_code@) == field_lookup(fv, "ISU_CD"@)
    &&& Some(rec.issue_name@) == field_lookup(fv, "ISU_NM"@)
    &&& Some(rec.product_name@) == field_lookup(fv, "PROD_NM"@)
    &&& Some(rec.right_type@) == field_lookup(fv, "RGHT_TP_NM"@)
    &&& Some(rec.close_price@) == field_lookup(fv, "TDD_CLSPRC"@)
    &&& Some(rec.open_price@) == field_lookup(fv, "TDD_OPNPRC"@)
    &&& Some(rec.high_price@) == field_lookup(fv, "TDD_HGPRC"@)
    &&& Some(rec.low_price@) == field_lookup(fv, "TDD_LWPRC"@)
    &&& Some(rec.price_change@) == field_lookup(fv, "CMPPREVDD_PRC"@)
    &&& Some(rec.trading_volume) == opt_u64_result(field_lookup(fv, "ACC_TRDVOL"@)->Some_0)
    &&& Some(rec.trading_value) == opt_u64_result(field_lookup(fv, "ACC_TRDVAL"@)->Some_0)
    &&& Some(rec.open_interest_quantity) == opt_u64_result(field_lookup(fv, "ACC_OPNINT_QTY"@)->Some_0)
    &&& Some(rec.implied_volatility) == opt_dec_result(field_lookup(fv, "IMP_VOLT"@)->Some_0)
    &&& Some(rec.next_day_base_price) == opt_dec_result(field_lookup(fv, "NXTDD_BAS_PRC"@)->Some_0)
}

/// Decodes one raw record of the endpoint.
pub fn decode_options_daily(fields: &Vec<(String, String)>) -> (r: Result<OptionsDailyRecord, String>)
    ensures
        r is Ok <==> options_daily_fields_ok(fields.deep_view()),
        r matches Ok(rec) ==> options_daily_matches(rec, fields.deep_view()),
{
    let base_date = match get_field(fields, "BAS_DD") {
        Some(s) => match deserialize_krx_date(s.as_str()) {
            Ok(v) => v,
            Err(e) => {
                return Err(e);
            },
        },
        None => {
            return Err(String::from_str("missing field BAS_DD"));
        },
    };
    let issue_code = match get_field(fields, "ISU_CD") {
        Some(s) => s.clone(),
        None => {
            return Err(String::from_str("missing field ISU_CD"));
        },
    };
    let issue_name = match get_field(fields, "ISU_NM") {
        Some(s) => s.clone(),
        None => {
            return Err(String::from_str("missing field ISU_NM"));
        },
    };
    let product_name = match get_field(fields, "PROD_NM") {
        Some(s) => s.clone(),
        None => {
            return Err(String::from_str("missing field PROD_NM"));
        },
    };
    let right_type = match get_field(fields, "RGHT_TP_NM") {
        Some(s) => s.clone(),
        None => {
            return Err(String::from_str("missing field RGHT_TP_NM"));
        },
    };
    let close_price = match get_field(fields, "TDD_CLSPRC") {
        Some(s) => s.clone(),
        None => {
            return Err(String::from_str("missing field TDD_CLSPRC"));
        },
    };
    let open_price = match get_field(fields, "TDD_OPNPRC") {
        Some(s) => s.clone(),
        None => {
            return Err(String::from_str("missing field TDD_OPNPRC"));
        },
    };
    let high_price = match get_field(fields, "TDD_HGPRC") {
        Some(s) => s.clone(),
        None => {
            return Err(String::from_str("missing field TDD_HGPRC"));
        },
    };
    let low_price = match get_field(fields, "TDD_LWPRC") {
        Some(s) => s.clone(),
        None => {
            return Err(String::from_str("missing field TDD_LWPRC"));
        },
    };
    let price_change = match get_field(fields, "CMPPREVDD_PRC") {
        Some(s) => s.clone(),
        None => {
            return Err(String::from_str("missing field CMPPREVDD_PRC"));
        },
    };
    let trading_volume = match get_field(fields, "ACC_TRDVOL") {
        Some(s) => match deserialize_optional_u64(s.as_str()) {
            Ok(v) => v,
            Err(e) => {
                return Err(e);
            },
        },
        None => {
            return Err(String::from_str("missing field ACC_TRDVOL"));
        },
    };
    let trading_value = match get_field(fields, "ACC_TRDVAL") {
        Some(s) => match deserialize_optional_u64(s.as_str()) {
            Ok(v) => v,
            Err(e) => {
                return Err(e);
            },
        },
        None => {
            return Err(String::from_str("missing field ACC_TRDVAL"));
        },
    };
    let open_interest_quantity = match get_field(fields, "ACC_OPNINT_QTY") {
        Some(s) => match deserialize_optional_u64(s.as_str()) {
            Ok(v) => v,
            Err(e) => {
                return Err(e);
            },
        },
        None => {
            return Err(String::from_str("missing field ACC_OPNINT_QTY"));
        },
    };
    let implied_volatility = match get_field(fields, "IMP_VOLT") {
        Some(s) => match deserialize_optional_f64(s.as_str()) {
            Ok(v) => v,
            Err(e) => {
                return Err(e);
            },
        },
        None => {
            return Err(String::from_str("missing field IMP_VOLT"));
        },
    };
    let next_day_base_price = match get_field(fields, "NXTDD_BAS_PRC") {
        Some(s) => match deserialize_optional_f64(s.as_str()) {
            Ok(v) => v,
            Err(e) => {
                return Err(e);
            },
        },
        None => {
            return Err(String::from_str("missing field NXTDD_BAS_PRC"));
        },
    };
    Ok(
        OptionsDailyRecord {
            base_date,
            issue_code,
            issue_name,
            product_name,
            right_type,
            close_price,
            open_price,
            high_price,
            low_price,
            price_change,
            trading_volume,
            trading_value,
            open_interest_quantity,
            implied_volatility,
            next_day_base_price,
        },
    )
}

/// Every raw record of the reply decodes.
pub open spec fn options_daily_records_ok(rv: Seq<Seq<(Seq<char>, Seq<char>)>>) -> bool {
    forall|i: int| 0 <= i < rv.len() ==> options_daily_fields_ok(#[trigger] rv[i])
}

/// Decodes every raw record of a reply, in order, failing on the first
/// record that does not decode.
pub fn decode_options_daily_response(raw: &Vec<Vec<(String, String)>>) -> (r: Result<
    ApiResponse<OptionsDailyRecord>,
    String,
>)
    ensures
        r is Ok <==> options_daily_records_ok(raw.deep_view()),
        r matches Ok(resp) ==> resp.data@.len() == raw@.len() && (forall|i: int|
            0 <= i < resp.data@.len() ==> options_daily_matches(
                #[trigger] resp.data@[i],
                raw.deep_view()[i],
            )),
{
    let ghost rv = raw.deep_view();
    let mut data: Vec<OptionsDailyRecord> = Vec::new();
    let mut i: usize = 0;
    while i < raw.len()
        invariant
            rv == raw.deep_view(),
            rv.len() == raw@.len(),
            forall|k: int| 0 <= k < rv.len() ==> #[trigger] rv[k] == raw@[k].deep_view(),
            0 <= i <= raw@.len(),
            data@.len() == i,
            forall|k: int| 0 <= k < i ==> options_daily_fields_ok(#[trigger] rv[k]),
            forall|k: int| 0 <= k < i ==> options_daily_matches(#[trigger] data@[k], rv[k]),
        decreases raw@.len() - i,
    {
        match decode_options_daily(&raw[i]) {
            Ok(rec) => {
                data.push(rec);
            },
            Err(e) => {
                proof {
                    assert(!options_daily_fields_ok(rv[i as int]));
                }
                return Err(e);
            },
        }
        i += 1;
    }
    Ok(ApiResponse { data })
}

/// `t` is exactly the table of the records `rs`: 12 fixed columns, one
/// value per record in input order, and the empty table for no records.
pub open spec fn options_daily_table_matches(t: Table, rs: Seq<OptionsDailyRecord>) -> bool {
    &&& rs.len() == 0 ==> t.columns@.len() == 0
    &&& rs.len() > 0 ==> {
        &&& t.columns@.len() == 12
        &&& col_text(
            t.columns@[0],
            "날짜"@,
            Seq::new(rs.len(), |i: int| iso_of(rs[i].base_date)),
        )
        &&& col_text(
            t.columns@[1],
            "종목코드"@,
            Seq::new(rs.len(), |i: int| rs[i].issue_code@),
        )
        &&& col_text(
            t.columns@[2],
            "종목명"@,
            Seq::new(rs.len(), |i: int| rs[i].issue_name@),
        )
        &&& col_text(
            t.columns@[3],
            "상품명"@,
            Seq::new(rs.len(), |i: int| rs[i].product_name@),
        )
        &&& col_text(
            t.columns@[4],
            "권리구분"@,
            Seq::new(rs.len(), |i: int| rs[i].right_type@),
        )
        &&& col_text(
            t.columns@[5],
            "종가"@,
            Seq::new(rs.len(), |i: int| rs[i].close_price@),
        )
        &&& col_text(
            t.columns@[6],
            "대비"@,
            Seq::new(rs.len(), |i: int| rs[i].price_change@),
        )
        &&& col_uint(
            t.columns@[7],
            "거래량"@,
            Seq::new(rs.len(), |i: int| rs[i].trading_volume),
        )
        &&& col_uint(
            t.columns@[8],
            "거래대금"@,
            Seq::new(rs.len(), |i: int| rs[i].trading_value),
        )
        &&& col_uint(
            t.columns@[9],
            "미결제약정수량"@,
            Seq::new(rs.len(), |i: int| rs[i].open_interest_quantity),
        )
        &&& col_dec(
            t.columns@[10],
            "내재변동성"@,
            Seq::new(rs.len(), |i: int| rs[i].implied_volatility),
        )
        &&& col_dec(
            t.columns@[11],
            "익일기준가격"@,
            Seq::new(rs.len(), |i: int| rs[i].next_day_base_price),
        )
    }
}

/// Flattens the typed records into their table; zero records give the
/// empty table of zero columns and zero rows.
pub fn parse_options_daily(response: ApiResponse<OptionsDailyRecord>) -> (r: Result<Table, Error>)
    ensures
        r is Ok,
        r matches Ok(t) ==> options_daily_table_matches(t, response.data@),
{
    let records = response.data;
    if records.len() == 0 {
        return Ok(Table::empty());
    }
    let n = records.len();
    let mut c0: Vec<String> = Vec::new();
    let mut c1: Vec<String> = Vec::new();
    let mut c2: Vec<String> = Vec::new();
    let mut c3: Vec<String> = Vec::new();
    let mut c4: Vec<String> = Vec::new();
    let mut c5: Vec<String> = Vec::new();
    let mut c6: Vec<String> = Vec::new();
    let mut c7: Vec<Option<u64>> = Vec::new();
    let mut c8: Vec<Option<u64>> = Vec::new();
    let mut c9: Vec<Option<u64>> = Vec::new();
    let mut c10: Vec<Option<Decimal>> = Vec::new();
    let mut c11: Vec<Option<Decimal>> = Vec::new();
    let mut i: usize = 0;
    while i < n
        invariant
            n == records@.len(),
            0 <= i <= n,
            c0@.len() == i && forall|k: int|
                0 <= k < i ==> (#[trigger] c0@[k])@ == iso_of(records@[k].base_date),
            c1@.len() == i && forall|k: int|
                0 <= k < i ==> (#[trigger] c1@[k])@ == records@[k].issue_code@,
            c2@.len() == i && forall|k: int|
                0 <= k < i ==> (#[trigger] c2@[k])@ == records@[k].issue_name@,
            c3@.len() == i && forall|k: int|
                0 <= k < i ==> (#[trigger] c3@[k])@ == records@[k].product_name@,
            c4@.len() == i && forall|k: int|
                0 <= k < i ==> (#[trigger] c4@[k])@ == records@[k].right_type@,
            c5@.len() == i && forall|k: int|
                0 <= k < i ==> (#[trigger] c5@[k])@ == records@[k].close_price@,
            c6@.len() == i && forall|k: int|
                0 <= k < i ==> (#[trigger] c6@[k])@ == records@[k].price_change@,
            c7@.len() == i && forall|k: int|
                0 <= k < i ==> #[trigger] c7@[k] == records@[k].trading_volume,
            c8@.len() == i && forall|k: int|
                0 <= k < i ==> #[trigger] c8@[k] == records@[k].trading_value,
            c9@.len() == i && forall|k: int|
                0 <= k < i ==> #[trigger] c9@[k] == records@[k].open_interest_quantity,
            c10@.len() == i && forall|k: int|
                0 <= k < i ==> #[trigger] c10@[k] == records@[k].implied_volatility,
            c11@.len() == i && forall|k: int|
                0 <= k < i ==> #[trigger] c11@[k] == records@[k].next_day_base_price,
        decreases n - i,
    {
        let rec = &records[i];
        c0.push(rec.base_date.to_iso_string());
        c1.push(rec.issue_code.clone());
        c2.push(rec.issue_name.clone());
        c3.push(rec.product_name.clone());
        c4.push(rec.right_type.clone());
        c5.push(rec.close_price.clone());
        c6.push(rec.price_change.clone());
        c7.push(rec.trading_volume);
        c8.push(rec.trading_value);
        c9.push(rec.open_interest_quantity);
        c10.push(rec.implied_volatility);
        c11.push(rec.next_day_base_price);
        i += 1;
    }
    proof {
        let rs = records@;
        assert(c0.deep_view() =~= Seq::new(rs.len(), |i: int| iso_of(rs[i].base_date)));
        assert(c1.deep_view() =~= Seq::new(rs.len(), |i: int| rs[i].issue_code@));
        assert(c2.deep_view() =~= Seq::new(rs.len(), |i: int| rs[i].issue_name@));
        assert(c3.deep_view() =~= Seq::new(rs.len(), |i: int| rs[i].product_name@));
        assert(c4.deep_view() =~= Seq::new(rs.len(), |i: int| rs[i].right_type@));
        assert(c5.deep_view() =~= Seq::new(rs.len(), |i: int| rs[i].close_price@));
        assert(c6.deep_view() =~= Seq::new(rs.len(), |i: int| rs[i].price_change@));
        assert(c7@ =~= Seq::new(rs.len(), |i: int| rs[i].trading_volume));
        assert(c8@ =~= Seq::new(rs.len(), |i: int| rs[i].trading_value));
        assert(c9@ =~= Seq::new(rs.len(), |i: int| rs[i].open_interest_quantity));
        assert(c10@ =~= Seq::new(rs.len(), |i: int| rs[i].implied_volatility));
        assert(c11@ =~= Seq::new(rs.len(), |i: int| rs[i].next_day_base_price));
    }
    let mut columns: Vec<Column> = Vec::new();
    columns.push(
        Column { name: String::from_str("날짜"), data: ColumnData::Text(c0) },
    );
    columns.push(
        Column { name: String::from_str("종목코드"), data: ColumnData::Text(c1) },
    );
    columns.push(
        Column { name: String::from_str("종목명"), data: ColumnData::Text(c2) },
    );
    columns.push(
        Column { name: String::from_str("상품명"), data: ColumnData::Text(c3) },
    );
    columns.push(
        Column { name: String::from_str("권리구분"), data: ColumnData::Text(c4) },
    );
    columns.push(
        Column { name: String::from_str("종가"), data: ColumnData::Text(c5) },
    );
    columns.push(
        Column { name: String::from_str("대비"), data: ColumnData::Text(c6) },
    );
    columns.push(
        Column { name: String::from_str("거래량"), data: ColumnData::UInt(c7) },
    );
    columns.push(
        Column { name: String::from_str("거래대금"), data: ColumnData::UInt(c8) },
    );
    columns.push(
        Column { name: String::from_str("미결제약정수량"), data: ColumnData::UInt(c9) },
    );
    columns.push(
        Column { name: String::from_str("내재변동성"), data: ColumnData::Dec(c10) },
    );
    columns.push(
        Column { name: String::from_str("익일기준가격"), data: ColumnData::Dec(c11) },
    );
    Ok(Table { columns })
}

/// As `parse_options_daily`: the `equity_stock_options_daily` endpoint shares its record shape
/// and its table, byte for byte.
pub fn parse_equity_stock_options_daily(response: ApiResponse<EquityStockOptionsDailyRecord>) -> (r: Result<Table, Error>)
    ensures
        r is Ok,
        r matches Ok(t) ==> options_daily_table_matches(t, response.data@),
{
    parse_options_daily(response)
}

/// As `parse_options_daily`: the `equity_kosdaq_options_daily` endpoint shares its record shape
/// and its table, byte for byte.
pub fn parse_equity_kosdaq_options_daily(response: ApiResponse<EquityKosdaqOptionsDailyRecord>) -> (r: Result<Table, Error>)
    ensures
        r is Ok,
        r matches Ok(t) ==> options_daily_table_matches(t, response.data@),
{
    parse_options_daily(response)
}

/// `t` is the table some decoded record sequence of `body` flattens to.
pub open spec fn options_daily_body_table(body: Seq<char>, t: Table) -> bool {
    exists|recs: Seq<OptionsDailyRecord>|
        #![trigger options_daily_table_matches(t, recs)]
        {
            &&& envelope_result(body) matches Some(rv)
            &&& recs.len() == rv.len()
            &&& (forall|i: int| 0 <= i < recs.len() ==> options_daily_matches(#[trigger] recs[i], rv[i]))
            &&& options_daily_table_matches(t, recs)
        }
}

/// The whole decode pipeline of a 2xx body for this endpoint: envelope,
/// records, table.  Every failure is a `Parsing` error carrying the body.
pub fn options_daily_table_from_body(body: &str) -> (r: Result<Table, Error>)
    ensures
        r is Ok <==> (envelope_result(body@) matches Some(rv) && options_daily_records_ok(rv)),
        r matches Ok(t) ==> options_daily_body_table(body@, t),
        r matches Err(e) ==> (e matches Error::Parsing {
            details: _,
            source: _,
            response_body,
        } && response_body@ == body@),
{
    let raw = match parse_envelope(body) {
        Ok(v) => v,
        Err(e) => {
            return Err(e);
        },
    };
    let resp = match decode_options_daily_response(&raw) {
        Ok(v) => v,
        Err(msg) => {
            return Err(
                Error::Parsing {
                    details: String::from_str("failed to decode a record of the reply"),
                    source: msg,
                    response_body: String::from_str(body),
                },
            );
        },
    };
    let ghost recs = resp.data@;
    match parse_options_daily(resp) {
        Ok(t) => {
            proof {
                assert(options_daily_table_matches(t, recs));
            }
            Ok(t)
        },
        Err(_) => vstd::pervasive::unreached(),
    }
}

/// One row of the per-board equity futures daily-trade endpoints; both
/// boards share this shape.
#[derive(Debug)]
pub struct EquityKosdaqFuturesDailyRecord {
    pub base_date: Date,
    pub issue_code: String,
    pub issue_name: String,
    pub product_name: String,
    pub market_name: String,
    pub close_price: Option<Decimal>,
    pub settlement_price: Option<Decimal>,
    pub spot_price: Option<Decimal>,
    pub price_change: Option<Decimal>,
    pub trading_volume: Option<u64>,
    pub trading_value: Option<u64>,
    pub open_interest_quantity: String,
}

/// The `equity_stock_futures_daily` endpoints reuse this record shape.
pub type EquityStockFuturesDailyRecord = EquityKosdaqFuturesDailyRecord;

/// Every field of the record is present and coercible.
pub open spec fn equity_kosdaq_futures_daily_fields_ok(fv: Seq<(Seq<char>, Seq<char>)>) -> bool {
    &&& field_lookup(fv, "BAS_DD"@) matches Some(s) && date_result(s) is Some
    &&& field_lookup(fv, "ISU_CD"@) is Some
    &&& field_lookup(fv, "ISU_NM"@) is Some
    &&& field_lookup(fv, "PROD_NM"@) is Some
    &&& field_lookup(fv, "MKT_NM"@) is Some
    &&& field_lookup(fv, "TDD_CLSPRC"@) matches Some(s) && opt_dec_result(s) is Some
    &&& field_lookup(fv, "SETL_PRC"@) matches Some(s) && opt_dec_result(s) is Some
    &&& field_lookup(fv, "SPOT_PRC"@) matches Some(s) && opt_dec_result(s) is Some
    &&& field_lookup(fv, "CMPPREVDD_PRC"@) matches Some(s) && opt_dec_result(s) is Some
    &&& field_lookup(fv, "ACC_TRDVOL"@) matches Some(s) && opt_u64_result(s) is Some
    &&& field_lookup(fv, "ACC_TRDVAL"@) matches Some(s) && opt_u64_result(s) is Some
    &&& field_lookup(fv, "ACC_OPNINT_QTY"@) is Some
}

/// `rec` holds exactly the coerced fields of the raw record `fv`.
pub open spec fn equity_kosdaq_futures_daily_matches(rec: EquityKosdaqFuturesDailyRecord, fv: Seq<(Seq<char>, Seq<char>)>) -> bool {
    &&& Some(rec.base_date) == date_result(field_lookup(fv, "BAS_DD"@)->Some_0)
    &&& Some(rec.issue_code@) == field_lookup(fv, "ISU_CD"@)
    &&& Some(rec.issue_name@) == field_lookup(fv, "ISU_NM"@)
    &&& Some(rec.product_name@) == field_lookup(fv, "PROD_NM"@)
    &&& Some(rec.market_name@) == field_lookup(fv, "MKT_NM"@)
    &&& Some(rec.close_price) == opt_dec_result(field_lookup(fv, "TDD_CLSPRC"@)->Some_0)
    &&& Some(rec.settlement_price) == opt_dec_result(field_lookup(fv, "SETL_PRC"@)->Some_0)
    &&& Some(rec.spot_price) == opt_dec_result(field_lookup(fv, "SPOT_PRC"@)->Some_0)
    &&& Some(rec.price_change) == opt_dec_result(field_lookup(fv, "CMPPREVDD_PRC"@)->Some_0)
    &&& Some(rec.trading_volume) == opt_u64_result(field_lookup(fv, "ACC_TRDVOL"@)->Some_0)
    &&& Some(rec.trading_value) == opt_u64_result(field_lookup(fv, "ACC_TRDVAL"@)->Some_0)
    &&& Some(rec.open_interest_quantity@) == field_lookup(fv, "ACC_OPNINT_QTY"@)
}

/// Decodes one raw record of the endpoint.
pub fn decode_equity_kosdaq_futures_daily(fields: &Vec<(String, String)>) -> (r: Result<EquityKosdaqFuturesDailyRecord, String>)
    ensures
        r is Ok <==> equity_kosdaq_futures_daily_fields_ok(fields.deep_view()),
        r matches Ok(rec) ==> equity_kosdaq_futures_daily_matches(rec, fields.deep_view()),
{
    let base_date = match get_field(fields, "BAS_DD") {
        Some(s) => match deserialize_krx_date(s.as_str()) {
            Ok(v) => v,
            Err(e) => {
                return Err(e);
            },
        },
        None => {
            return Err(String::from_str("missing field BAS_DD"));
        },
    };
    let issue_code = match get_field(fields, "ISU_CD") {
        Some(s) => s.clone(),
        None => {
            return Err(String::from_str("missing field ISU_CD"));
        },
    };
    let issue_name = match get_field(fields, "ISU_NM") {
        Some(s) => s.clone(),
        None => {
            return Err(String::from_str("missing field ISU_NM"));
        },
    };
    let product_name = match get_field(fields, "PROD_NM") {
        Some(s) => s.clone(),
        None => {
            return Err(String::from_str("missing field PROD_NM"));
        },
    };
    let market_name = match get_field(fields, "MKT_NM") {
        Some(s) => s.clone(),
        None => {
            return Err(String::from_str("missing field MKT_NM"));
        },
    };
    let close_price = match get_field(fields, "TDD_CLSPRC") {
        Some(s) => match deserialize_optional_f64(s.as_str()) {
            Ok(v) => v,
            Err(e) => {
                return Err(e);
            },
        },
        None => {
            return Err(String::from_str("missing field TDD_CLSPRC"));
        },
    };
    let settlement_price = match get_field(fields, "SETL_PRC") {
        Some(s) => match deserialize_optional_f64(s.as_str()) {
            Ok(v) => v,
            Err(e) => {
                return Err(e);
            },
        },
        None => {
            return Err(String::from_str("missing field SETL_PRC"));
        },
    };
    let spot_price = match get_field(fields, "SPOT_PRC") {
        Some(s) => match deserialize_optional_f64(s.as_str()) {
            Ok(v) => v,
            Err(e) => {
                return Err(e);
            },
        },
        None => {
            return Err(String::from_str("missing field SPOT_PRC"));
        },
    };
    let price_change = match get_field(fields, "CMPPREVDD_PRC") {
        Some(s) => match deserialize_optional_f64(s.as_str()) {
            Ok(v) => v,
            Err(e) => {
                return Err(e);
            },
        },
        None => {
            return Err(String::from_str("missing field CMPPREVDD_PRC"));
        },
    };
    let trading_volume = match get_field(fields, "ACC_TRDVOL") {
        Some(s) => match deserialize_optional_u64(s.as_str()) {
            Ok(v) => v,
            Err(e) => {
                return Err(e);
            },
        },
        None => {
            return Err(String::from_str("missing field ACC_TRDVOL"));
        },
    };
    let trading_value = match get_field(fields, "ACC_TRDVAL") {
        Some(s) => match deserialize_optional_u64(s.as_str()) {
            Ok(v) => v,
            Err(e) => {
                return Err(e);
            },
        },
        None => {
            return Err(String::from_str("missing field ACC_TRDVAL"));
        },
    };
    let open_interest_quantity = match get_field(fields, "ACC_OPNINT_QTY") {
        Some(s) => s.clone(),
        None => {
            return Err(String::from_str("missing field ACC_OPNINT_QTY"));
        },
    };
    Ok(
        EquityKosdaqFuturesDailyRecord {
            base_date,
            issue_code,
            issue_name,
            product_name,
            market_name,
            close_price,
            settlement_price,
            spot_price,
            price_change,
            trading_volume,
            trading_value,
            open_interest_quantity,
        },
    )
}

/// Every raw record of the reply decodes.
pub open spec fn equity_kosdaq_futures_daily_records_ok(rv: Seq<Seq<(Seq<char>, Seq<char>)>>) -> bool {
    forall|i: int| 0 <= i < rv.len() ==> equity_kosdaq_futures_daily_fields_ok(#[trigger] rv[i])
}

/// Decodes every raw record of a reply, in order, failing on the first
/// record that does not decode.
pub fn decode_equity_kosdaq_futures_daily_response(raw: &Vec<Vec<(String, String)>>) -> (r: Result<
    ApiResponse<EquityKosdaqFuturesDailyRecord>,
    String,
>)
    ensures
        r is Ok <==> equity_kosdaq_futures_daily_records_ok(raw.deep_view()),
        r matches Ok(resp) ==> resp.data@.len() == raw@.len() && (forall|i: int|
            0 <= i < resp.data@.len() ==> equity_kosdaq_futures_daily_matches(
                #[trigger] resp.data@[i],
                raw.deep_view()[i],
            )),
{
    let ghost rv = raw.deep_view();
    let mut data: Vec<EquityKosdaqFuturesDailyRecord> = Vec::new();
    let mut i: usize = 0;
    while i < raw.len()
        invariant
            rv == raw.deep_view(),
            rv.len() == raw@.len(),
            forall|k: int| 0 <= k < rv.len() ==> #[trigger] rv[k] == raw@[k].deep_view(),
            0 <= i <= raw@.len(),
            data@.len() == i,
            forall|k: int| 0 <= k < i ==> equity_kosdaq_futures_daily_fields_ok(#[trigger] rv[k]),
            forall|k: int| 0 <= k < i ==> equity_kosdaq_futures_daily_matches(#[trigger] data@[k], rv[k]),
        decreases raw@.len() - i,
    {
        match decode_equity_kosdaq_futures_daily(&raw[i]) {
            Ok(rec) => {
                data.push(rec);
            },
            Err(e) => {
                proof {
                    assert(!equity_kosdaq_futures_daily_fields_ok(rv[i as int]));
                }
                return Err(e);
            },
        }
        i += 1;
    }
    Ok(ApiResponse { data })
}

/// `t` is exactly the table of the records `rs`: 10 fixed columns, one
/// value per record in input order, and the empty table for no records.
pub open spec fn equity_kosdaq_futures_daily_table_matches(t: Table, rs: Seq<EquityKosdaqFuturesDailyRecord>) -> bool {
    &&& rs.len() == 0 ==> t.columns@.len() == 0
    &&& rs.len() > 0 ==> {
        &&& t.columns@.len() == 10
        &&& col_text(
            t.columns@[0],
            "날짜"@,
            Seq::new(rs.len(), |i: int| iso_of(rs[i].base_date)),
        )
        &&& col_text(
            t.columns@[1],
            "종목코드"@,
            Seq::new(rs.len(), |i: int| rs[i].issue_code@),
        )
        &&& col_text(
            t.columns@[2],
            "종목명"@,
            Seq::new(rs.len(), |i: int| rs[i].issue_name@),
        )
        &&& col_text(
            t.columns@[3],
            "상품명"@,
            Seq::new(rs.len(), |i: int| rs[i].product_name@),
        )
        &&& col_dec(
            t.columns@[4],
            "종가"@,
            Seq::new(rs.len(), |i: int| rs[i].close_price),
        )
        &&& col_dec(
            t.columns@[5],
            "정산가격"@,
            Seq::new(rs.len(), |i: int| rs[i].settlement_price),
        )
        &&& col_dec(
            t.columns@[6],
            "현물가격"@,
            Seq::new(rs.len(), |i: int| rs[i].spot_price),
        )
        &&& col_dec(
            t.columns@[7],
            "대비"@,
            Seq::new(rs.len(), |i: int| rs[i].price_change),
        )
        &&& col_uint(
            t.columns@[8],
            "거래량"@,
            Seq::new(rs.len(), |i: int| rs[i].trading_volume),
        )
        &&& col_uint(
            t.columns@[9],
            "거래대금"@,
            Seq::new(rs.len(), |i: int| rs[i].trading_value),
        )
    }
}

/// Flattens the typed records into their table; zero records give the
/// empty table of zero columns and zero rows.
pub fn parse_equity_kosdaq_futures_daily(response: ApiResponse<EquityKosdaqFuturesDailyRecord>) -> (r: Result<Table, Error>)
    ensures
        r is Ok,
        r matches Ok(t) ==> equity_kosdaq_futures_daily_table_matches(t, response.data@),
{
    let records = response.data;
    if records.len() == 0 {
        return Ok(Table::empty());
    }
    let n = records.len();
    let mut c0: Vec<String> = Vec::new();
    let mut c1: Vec<String> = Vec::new();
    let mut c2: Vec<String> = Vec::new();
    let mut c3: Vec<String> = Vec::new();
    let mut c4: Vec<Option<Decimal>> = Vec::new();
    let mut c5: Vec<Option<Decimal>> = Vec::new();
    let mut c6: Vec<Option<Decimal>> = Vec::new();
    let mut c7: Vec<Option<Decimal>> = Vec::new();
    let mut c8: Vec<Option<u64>> = Vec::new();
    let mut c9: Vec<Option<u64>> = Vec::new();
    let mut i: usize = 0;
    while i < n
        invariant
            n == records@.len(),
            0 <= i <= n,
            c0@.len() == i && forall|k: int|
                0 <= k < i ==> (#[trigger] c0@[k])@ == iso_of(records@[k].base_date),
            c1@.len() == i && forall|k: int|
                0 <= k < i ==> (#[trigger] c1@[k])@ == records@[k].issue_code@,
            c2@.len() == i && forall|k: int|
                0 <= k < i ==> (#[trigger] c2@[k])@ == records@[k].issue_name@,
            c3@.len() == i && forall|k: int|
                0 <= k < i ==> (#[trigger] c3@[k])@ == records@[k].product_name@,
            c4@.len() == i && forall|k: int|
                0 <= k < i ==> #[trigger] c4@[k] == records@[k].close_price,
            c5@.len() == i && forall|k: int|
                0 <= k < i ==> #[trigger] c5@[k] == records@[k].settlement_price,
            c6@.len() == i && forall|k: int|
                0 <= k < i ==> #[trigger] c6@[k] == records@[k].spot_price,
            c7@.len() == i && forall|k: int|
                0 <= k < i ==> #[trigger] c7@[k] == records@[k].price_change,
            c8@.len() == i && forall|k: int|
                0 <= k < i ==> #[trigger] c8@[k] == records@[k].trading_volume,
            c9@.len() == i && forall|k: int|
                0 <= k < i ==> #[trigger] c9@[k] == records@[k].trading_value,
        decreases n - i,
    {
        let rec = &records[i];
        c0.push(rec.base_date.to_iso_string());
        c1.push(rec.issue_code.clone());
        c2.push(rec.issue_name.clone());
        c3.push(rec.product_name.clone());
        c4.push(rec.close_price);
        c5.push(rec.settlement_price);
        c6.push(rec.spot_price);
        c7.push(rec.price_change);
        c8.push(rec.trading_volume);
        c9.push(rec.trading_value);
        i += 1;
    }
    proof {
        let rs = records@;
        assert(c0.deep_view() =~= Seq::new(rs.len(), |i: int| iso_of(rs[i].base_date)));
        assert(c1.deep_view() =~= Seq::new(rs.len(), |i: int| rs[i].issue_code@));
        assert(c2.deep_view() =~= Seq::new(rs.len(), |i: int| rs[i].issue_name@));
        assert(c3.deep_view() =~= Seq::new(rs.len(), |i: int| rs[i].product_name@));
        assert(c4@ =~= Seq::new(rs.len(), |i: int| rs[i].close_price));
        assert(c5@ =~= Seq::new(rs.len(), |i: int| rs[i].settlement_price));
        assert(c6@ =~= Seq::new(rs.len(), |i: int| rs[i].spot_price));
        assert(c7@ =~= Seq::new(rs.len(), |i: int| rs[i].price_change));
        assert(c8@ =~= Seq::new(rs.len(), |i: int| rs[i].trading_volume));
        assert(c9@ =~= Seq::new(rs.len(), |i: int| rs[i].trading_value));
    }
    let mut columns: Vec<Column> = Vec::new();
    columns.push(
        Column { name: String::from_str("날짜"), data: ColumnData::Text(c0) },
    );
    columns.push(
        Column { name: String::from_str("종목코드"), data: ColumnData::Text(c1) },
    );
    columns.push(
        Column { name: String::from_str("종목명"), data: ColumnData::Text(c2) },
    );
    columns.push(
        Column { name: String::from_str("상품명"), data: ColumnData::Text(c3) },
    );
    columns.push(
        Column { name: String::from_str("종가"), data: ColumnData::Dec(c4) },
    );
    columns.push(
        Column { name: String::from_str("정산가격"), data: ColumnData::Dec(c5) },
    );
    columns.push(
        Column { name: String::from_str("현물가격"), data: ColumnData::Dec(c6) },
    );
    columns.push(
        Column { name: String::from_str("대비"), data: ColumnData::Dec(c7) },
    );
    columns.push(
        Column { name: String::from_str("거래량"), data: ColumnData::UInt(c8) },
    );
    columns.push(
        Column { name: String::from_str("거래대금"), data: ColumnData::UInt(c9) },
    );
    Ok(Table { columns })
}

/// As `parse_equity_kosdaq_futures_daily`: the `equity_stock_futures_daily` endpoint shares its record shape
/// and its table, byte for byte.
pub fn parse_equity_stock_futures_daily(response: ApiResponse<EquityStockFuturesDailyRecord>) -> (r: Result<Table, Error>)
    ensures
        r is Ok,
        r matches Ok(t) ==> equity_kosdaq_futures_daily_table_matches(t, response.data@),
{
    parse_equity_kosdaq_futures_daily(response)
}

/// `t` is the table some decoded record sequence of `body` flattens to.
pub open spec fn equity_kosdaq_futures_daily_body_table(body: Seq<char>, t: Table) -> bool {
    exists|recs: Seq<EquityKosdaqFuturesDailyRecord>|
        #![trigger equity_kosdaq_futures_daily_table_matches(t, recs)]
        {
            &&& envelope_result(body) matches Some(rv)
            &&& recs.len() == rv.len()
            &&& (forall|i: int| 0 <= i < recs.len() ==> equity_kosdaq_futures_daily_matches(#[trigger] recs[i], rv[i]))
            &&& equity_kosdaq_futures_daily_table_matches(t, recs)
        }
}

/// The whole decode pipeline of a 2xx body for this endpoint: envelope,
/// records, table.  Every failure is a `Parsing` error carrying the body.
pub fn equity_kosdaq_futures_daily_table_from_body(body: &str) -> (r: Result<Table, Error>)
    ensures
        r is Ok <==> (envelope_result(body@) matches Some(rv) && equity_kosdaq_futures_daily_records_ok(rv)),
        r matches Ok(t) ==> equity_kosdaq_futures_daily_body_table(body@, t),
        r matches Err(e) ==> (e matches Error::Parsing {
            details: _,
            source: _,
            response_body,
        } && response_body@ == body@),
{
    let raw = match parse_envelope(body) {
        Ok(v) => v,
        Err(e) => {
            return Err(e);
        },
    };
    let resp = match decode_equity_kosdaq_futures_daily_response(&raw) {
        Ok(v) => v,
        Err(msg) => {
            return Err(
                Error::Parsing {
                    details: String::from_str("failed to decode a record of the reply"),
                    source: msg,
                    response_body: String::from_str(body),
                },
            );
        },
    };
    let ghost recs = resp.data@;
    match parse_equity_kosdaq_futures_daily(resp) {
        Ok(t) => {
            proof {
                assert(equity_kosdaq_futures_daily_table_matches(t, recs));
            }
            Ok(t)
        },
        Err(_) => vstd::pervasive::unreached(),
    }
}

} // verus!
