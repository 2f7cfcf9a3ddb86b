//! Records and tables of the index endpoints: the KRX, KOSPI and KOSDAQ
//! index families, the bond index, and the derivative index.

use vstd::prelude::*;
use crate::data::{
    ApiResponse,
    deserialize_krx_date,
    deserialize_optional_f64,
    deserialize_optional_percentage,
    deserialize_optional_u64,
    envelope_result,
    field_lookup,
    get_field,
    opt_dec_result,
    opt_pct_result,
    opt_u64_result,
    parse_envelope,
};
use crate::date::{Date, date_result, iso_of};
use crate::error::Error;
use crate::num::Decimal;
use crate::table::{Column, ColumnData, Table, col_dec, col_text, col_uint};

verus! {

/// One row of the KRX index daily endpoint; the KOSPI and KOSDAQ index
/// endpoints share this shape.
#[derive(Debug)]
pub struct KrxIndexDailyRecord {
    pub base_date: Date,
    pub index_class: String,
    pub index_name: String,
    pub close_price: Option<Decimal>,
    pub price_change: Option<Decimal>,
    pub fluctuation_rate: Option<Decimal>,
    pub open_price: Option<Decimal>,
    pub high_price: Option<Decimal>,
    pub low_price: Option<Decimal>,
    pub trading_volume: Option<u64>,
    pub trading_value: Option<u64>,
    pub market_cap: Option<u64>,
}

/// The `kospi_index_daily` endpoints reuse this record shape.
pub type KospiIndexDailyRecord = KrxIndexDailyRecord;

/// The `kosdaq_index_daily` endpoints reuse this record shape.
pub type KosdaqIndexDailyRecord = KrxIndexDailyRecord;

/// Every field of the record is present and coercible.
pub open spec fn krx_index_daily_fields_ok(fv: Seq<(Seq<char>, Seq<char>)>) -> bool {
    &&& field_lookup(fv, "BAS_DD"@) matches Some(s) && date_result(s) is Some
    &&& field_lookup(fv, "IDX_CLSS"@) is Some
    &&& field_lookup(fv, "IDX_NM"@) is Some
    &&& field_lookup(fv, "CLSPRC_IDX"@) matches Some(s) && opt_dec_result(s) is Some
    &&& field_lookup(fv, "CMPPREVDD_IDX"@) matches Some(s) && opt_dec_result(s) is Some
    &&& field_lookup(fv, "FLUC_RT"@) matches Some(s) && opt_pct_result(s) is Some
    &&& field_lookup(fv, "OPNPRC_IDX"@) matches Some(s) && opt_dec_result(s) is Some
    &&& field_lookup(fv, "HGPRC_IDX"@) matches Some(s) && opt_dec_result(s) is Some
    &&& field_lookup(fv, "LWPRC_IDX"@) matches Some(s) && opt_dec_result(s) is Some
    &&& field_lookup(fv, "ACC_TRDVOL"@) matches Some(s) && opt_u64_result(s) is Some
    &&& field_lookup(fv, "ACC_TRDVAL"@) matches Some(s) && opt_u64_result(s) is Some
    &&& field_lookup(fv, "MKTCAP"@) matches Some(s) && opt_u64_result(s) is Some
}

/// `rec` holds exactly the coerced fields of the raw record `fv`.
pub open spec fn krx_index_daily_matches(rec: KrxIndexDailyRecord, fv: Seq<(Seq<char>, Seq<char>)>) -> bool {
    &&& Some(rec.base_date) == date_result(field_lookup(fv, "BAS_DD"@)->Some_0)
    &&& Some(rec.index_class@) == field_lookup(fv, "IDX_CLSS"@)
    &&& Some(rec.index_name@) == field_lookup(fv, "IDX_NM"@)
    &&& Some(rec.close_price) == opt_dec_result(field_lookup(fv, "CLSPRC_IDX"@)->Some_0)
    &&& Some(rec.price_change) == opt_dec_result(field_lookup(fv, "CMPPREVDD_IDX"@)->Some_0)
    &&& Some(rec.fluctuation_rate) == opt_pct_result(field_lookup(fv, "FLUC_RT"@)->Some_0)
    &&& Some(rec.open_price) == opt_dec_result(field_lookup(fv, "OPNPRC_IDX"@)->Some_0)
    &&& Some(rec.high_price) == opt_dec_result(field_lookup(fv, "HGPRC_IDX"@)->Some_0)
    &&& Some(rec.low_price) == opt_dec_result(field_lookup(fv, "LWPRC_IDX"@)->Some_0)
    &&& Some(rec.trading_volume) == opt_u64_result(field_lookup(fv, "ACC_TRDVOL"@)->Some_0)
    &&& Some(rec.trading_value) == opt_u64_result(field_lookup(fv, "ACC_TRDVAL"@)->Some_0)
    &&& Some(rec.market_cap) == opt_u64_result(field_lookup(fv, "MKTCAP"@)->Some_0)
}

/// Decodes one raw record of the endpoint.
pub fn decode_krx_index_daily(fields: &Vec<(String, String)>) -> (r: Result<KrxIndexDailyRecord, String>)
    ensures
        r is Ok <==> krx_index_daily_fields_ok(fields.deep_view()),
        r matches Ok(rec) ==> krx_index_daily_matches(rec, fields.deep_view()),
{
    let base_date = match get_field(fields, "BAS_DD") {
        Some(s) => match deserialize_krx_date(s.as_str()) {
            Ok(v) => v,
            Err(e) => {
                return Err(e);
            },
        },
        None => {
            return Err(String::from_str("missing field BAS_DD"));
        },
    };
    let index_class = match get_field(fields, "IDX_CLSS") {
        Some(s) => s.clone(),
        None => {
            return Err(String::from_str("missing field IDX_CLSS"));
        },
    };
    let index_name = match get_field(fields, "IDX_NM") {
        Some(s) => s.clone(),
        None => {
            return Err(String::from_str("missing field IDX_NM"));
        },
    };
    let close_price = match get_field(fields, "CLSPRC_IDX") {
        Some(s) => match deserialize_optional_f64(s.as_str()) {
            Ok(v) => v,
            Err(e) => {
                return Err(e);
            },
        },
        None => {
            return Err(String::from_str("missing field CLSPRC_IDX"));
        },
    };
    let price_change = match get_field(fields, "CMPPREVDD_IDX") {
        Some(s) => match deserialize_optional_f64(s.as_str()) {
            Ok(v) => v,
            Err(e) => {
                return Err(e);
            },
        },
        None => {
            return Err(String::from_str("missing field CMPPREVDD_IDX"));
        },
    };
    let fluctuation_rate = match get_field(fields, "FLUC_RT") {
        Some(s) => match deserialize_optional_percentage(s.as_str()) {
            Ok(v) => v,
            Err(e) => {
                return Err(e);
            },
        },
        None => {
            return Err(String::from_str("missing field FLUC_RT"));
        },
    };
    let open_price = match get_field(fields, "OPNPRC_IDX") {
        Some(s) => match deserialize_optional_f64(s.as_str()) {
            Ok(v) => v,
            Err(e) => {
                return Err(e);
            },
        },
        None => {
            return Err(String::from_str("missing field OPNPRC_IDX"));
        },
    };
    let high_price = match get_field(fields, "HGPRC_IDX") {
        Some(s) => match deserialize_optional_f64(s.as_str()) {
            Ok(v) => v,
            Err(e) => {
                return Err(e);
            },
        },
        None => {
            return Err(String::from_str("missing field HGPRC_IDX"));
        },
    };
    let low_price = match get_field(fields, "LWPRC_IDX") {
        Some(s) => match deserialize_optional_f64(s.as_str()) {
            Ok(v) => v,
            Err(e) => {
                return Err(e);
            },
        },
        None => {
            return Err(String::from_str("missing field LWPRC_IDX"));
        },
    };
    let trading_volume = match get_field(fields, "ACC_TRDVOL") {
        Some(s) => match deserialize_optional_u64(s.as_str()) {
            Ok(v) => v,
            Err(e) => {
                return Err(e);
            },
        },
        None => {
            return Err(String::from_str("missing field ACC_TRDVOL"));
        },
    };
    let trading_value = match get_field(fields, "ACC_TRDVAL") {
        Some(s) => match deserialize_optional_u64(s.as_str()) {
            Ok(v) => v,
            Err(e) => {
                return Err(e);
            },
        },
        None => {
            return Err(String::from_str("missing field ACC_TRDVAL"));
        },
    };
    let market_cap = match get_field(fields, "MKTCAP") {
        Some(s) => match deserialize_optional_u64(s.as_str()) {
            Ok(v) => v,
            Err(e) => {
                return Err(e);
            },
        },
        None => {
            return Err(String::from_str("missing field MKTCAP"));
        },
    };
    Ok(
        KrxIndexDailyRecord {
            base_date,
            index_class,
            index_name,
            close_price,
            price_change,
            fluctuation_rate,
            open_price,
            high_price,
            low_price,
            trading_volume,
            trading_value,
            market_cap,
        },
    )
}

/// Every raw record of the reply decodes.
pub open spec fn krx_index_daily_records_ok(rv: Seq<Seq<(Seq<char>, Seq<char>)>>) -> bool {
    forall|i: int| 0 <= i < rv.len() ==> krx_index_daily_fields_ok(#[trigger] rv[i])
}

/// Decodes every raw record of a reply, in order, failing on the first
/// record that does not decode.
pub fn decode_krx_index_daily_response(raw: &Vec<Vec<(String, String)>>) -> (r: Result<
    ApiResponse<KrxIndexDailyRecord>,
    String,
>)
    ensures
        r is Ok <==> krx_index_daily_records_ok(raw.deep_view()),
        r matches Ok(resp) ==> resp.data@.len() == raw@.len() && (forall|i: int|
            0 <= i < resp.data@.len() ==> krx_index_daily_matches(
                #[trigger] resp.data@[i],
                raw.deep_view()[i],
            )),
{
    let ghost rv = raw.deep_view();
    let mut data: Vec<KrxIndexDailyRecord> = Vec::new();
    let mut i: usize = 0;
    while i < raw.len()
        invariant
            rv == raw.deep_view(),
            rv.len() == raw@.len(),
            forall|k: int| 0 <= k < rv.len() ==> #[trigger] rv[k] == raw@[k].deep_view(),
            0 <= i <= raw@.len(),
            data@.len() == i,
            forall|k: int| 0 <= k < i ==> krx_index_daily_fields_ok(#[trigger] rv[k]),
            forall|k: int| 0 <= k < i ==> krx_index_daily_matches(#[trigger] data@[k], rv[k]),
        decreases raw@.len() - i,
    {
        match decode_krx_index_daily(&raw[i]) {
            Ok(rec) => {
                data.push(rec);
            },
            Err(e) => {
                proof {
                    assert(!krx_index_daily_fields_ok(rv[i as int]));
                }
                return Err(e);
            },
        }
        i += 1;
    }
    Ok(ApiResponse { data })
}

/// `t` is exactly the table of the records `rs`: 12 fixed columns, one
/// value per record in input order, and the empty table for no records.
pub open spec fn krx_index_daily_table_matches(t: Table, rs: Seq<KrxIndexDailyRecord>) -> bool {
    &&& rs.len() == 0 ==> t.columns@.len() == 0
    &&& rs.len() > 0 ==> {
        &&& t.columns@.len() == 12
        &&& col_text(
            t.columns@[0],
            "날짜"@,
            Seq::new(rs.len(), |i: int| iso_of(rs[i].base_date)),
        )
        &&& col_text(
            t.columns@[1],
            "계열구분"@,
            Seq::new(rs.len(), |i: int| rs[i].index_class@),
        )
        &&& col_text(
            t.columns@[2],
            "지수명"@,
            Seq::new(rs.len(), |i: int| rs[i].index_name@),
        )
        &&& col_dec(
            t.columns@[3],
            "종가"@,
            Seq::new(rs.len(), |i: int| rs[i].close_price),
        )
        &&& col_dec(
            t.columns@[4],
            "대비"@,
            Seq::new(rs.len(), |i: int| rs[i].price_change),
        )
        &&& col_dec(
            t.columns@[5],
            "등락률"@,
            Seq::new(rs.len(), |i: int| rs[i].fluctuation_rate),
        )
        &&& col_dec(
            t.columns@[6],
            "시가"@,
            Seq::new(rs.len(), |i: int| rs[i].open_price),
        )
        &&& col_dec(
            t.columns@[7],
            "고가"@,
            Seq::new(rs.len(), |i: int| rs[i].high_price),
        )
        &&& col_dec(
            t.columns@[8],
            "저가"@,
            Seq::new(rs.len(), |i: int| rs[i].low_price),
        )
        &&& col_uint(
            t.columns@[9],
            "거래량"@,
            Seq::new(rs.len(), |i: int| rs[i].trading_volume),
        )
        &&& col_uint(
            t.columns@[10],
            "거래대금"@,
            Seq::new(rs.len(), |i: int| rs[i].trading_value),
        )
        &&& col_uint(
            t.columns@[11],
            "시가총액"@,
            Seq::new(rs.len(), |i: int| rs[i].market_cap),
        )
    }
}

/// Flattens the typed records into their table; zero records give the
/// empty table of zero columns and zero rows.
pub fn parse_krx_index_daily(response: ApiResponse<KrxIndexDailyRecord>) -> (r: Result<Table, Error>)
    ensures
        r is Ok,
        r matches Ok(t) ==> krx_index_daily_table_matches(t, response.data@),
{
    let records = response.data;
    if records.len() == 0 {
        return Ok(Table::empty());
    }
    let n = records.len();
    let mut c0: Vec<String> = Vec::new();
    let mut c1: Vec<String> = Vec::new();
    let mut c2: Vec<String> = Vec::new();
    let mut c3: Vec<Option<Decimal>> = Vec::new();
    let mut c4: Vec<Option<Decimal>> = Vec::new();
    let mut c5: Vec<Option<Decimal>> = Vec::new();
    let mut c6: Vec<Option<Decimal>> = Vec::new();
    let mut c7: Vec<Option<Decimal>> = Vec::new();
    let mut c8: Vec<Option<Decimal>> = Vec::new();
    let mut c9: Vec<Option<u64>> = Vec::new();
    let mut c10: Vec<Option<u64>> = Vec::new();
    let mut c11: Vec<Option<u64>> = Vec::new();
    let mut i: usize = 0;
    while i < n
        invariant
            n == records@.len(),
            0 <= i <= n,
            c0@.len() == i && forall|k: int|
                0 <= k < i ==> (#[trigger] c0@[k])@ == iso_of(records@[k].base_date),
            c1@.len() == i && forall|k: int|
                0 <= k < i ==> (#[trigger] c1@[k])@ == records@[k].index_class@,
            c2@.len() == i && forall|k: int|
                0 <= k < i ==> (#[trigger] c2@[k])@ == records@[k].index_name@,
            c3@.len() == i && forall|k: int|
                0 <= k < i ==> #[trigger] c3@[k] == records@[k].close_price,
            c4@.len() == i && forall|k: int|
                0 <= k < i ==> #[trigger] c4@[k] == records@[k].price_change,
            c5@.len() == i && forall|k: int|
                0 <= k < i ==> #[trigger] c5@[k] == records@[k].fluctuation_rate,
            c6@.len() == i && forall|k: int|
                0 <= k < i ==> #[trigger] c6@[k] == records@[k].open_price,
            c7@.len() == i && forall|k: int|
                0 <= k < i ==> #[trigger] c7@[k] == records@[k].high_price,
            c8@.len() == i && forall|k: int|
                0 <= k < i ==> #[trigger] c8@[k] == records@[k].low_price,
            c9@.len() == i && forall|k: int|
                0 <= k < i ==> #[trigger] c9@[k] == records@[k].trading_volume,
            c10@.len() == i && forall|k: int|
                0 <= k < i ==> #[trigger] c10@[k] == records@[k].trading_value,
            c11@.len() == i && forall|k: int|
                0 <= k < i ==> #[trigger] c11@[k] == records@[k].market_cap,
        decreases n - i,
    {
        let rec = &records[i];
        c0.push(rec.base_date.to_iso_string());
        c1.push(rec.index_class.clone());
        c2.push(rec.index_name.clone());
        c3.push(rec.close_price);
        c4.push(rec.price_change);
        c5.push(rec.fluctuation_rate);
        c6.push(rec.open_price);
        c7.push(rec.high_price);
        c8.push(rec.low_price);
        c9.push(rec.trading_volume);
        c10.push(rec.trading_value);
        c11.push(rec.market_cap);
        i += 1;
    }
    proof {
        let rs = records@;
        assert(c0.deep_view() =~= Seq::new(rs.len(), |i: int| iso_of(rs[i].base_date)));
        assert(c1.deep_view() =~= Seq::new(rs.len(), |i: int| rs[i].index_class@));
        assert(c2.deep_view() =~= Seq::new(rs.len(), |i: int| rs[i].index_name@));
        assert(c3@ =~= Seq::new(rs.len(), |i: int| rs[i].close_price));
        assert(c4@ =~= Seq::new(rs.len(), |i: int| rs[i].price_change));
        assert(c5@ =~= Seq::new(rs.len(), |i: int| rs[i].fluctuation_rate));
        assert(c6@ =~= Seq::new(rs.len(), |i: int| rs[i].open_price));
        assert(c7@ =~= Seq::new(rs.len(), |i: int| rs[i].high_price));
        assert(c8@ =~= Seq::new(rs.len(), |i: int| rs[i].low_price));
        assert(c9@ =~= Seq::new(rs.len(), |i: int| rs[i].trading_volume));
        assert(c10@ =~= Seq::new(rs.len(), |i: int| rs[i].trading_value));
        assert(c11@ =~= Seq::new(rs.len(), |i: int| rs[i].market_cap));
    }
    let mut columns: Vec<Column> = Vec::new();
    columns.push(
        Column { name: String::from_str("날짜"), data: ColumnData::Text(c0) },
    );
    columns.push(
        Column { name: String::from_str("계열구분"), data: ColumnData::Text(c1) },
    );
    columns.push(
        Column { name: String::from_str("지수명"), data: ColumnData::Text(c2) },
    );
    columns.push(
        Column { name: String::from_str("종가"), data: ColumnData::Dec(c3) },
    );
    columns.push(
        Column { name: String::from_str("대비"), data: ColumnData::Dec(c4) },
    );
    columns.push(
        Column { name: String::from_str("등락률"), data: ColumnData::Dec(c5) },
    );
    columns.push(
        Column { name: String::from_str("시가"), data: ColumnData::Dec(c6) },
    );
    columns.push(
        Column { name: String::from_str("고가"), data: ColumnData::Dec(c7) },
    );
    columns.push(
        Column { name: String::from_str("저가"), data: ColumnData::Dec(c8) },
    );
    columns.push(
        Column { name: String::from_str("거래량"), data: ColumnData::UInt(c9) },
    );
    columns.push(
        Column { name: String::from_str("거래대금"), data: ColumnData::UInt(c10) },
    );
    columns.push(
        Column { name: String::from_str("시가총액"), data: ColumnData::UInt(c11) },
    );
    Ok(Table { columns })
}

/// As `parse_krx_index_daily`: the `kospi_index_daily` endpoint shares its record shape
/// and its table, byte for byte.
pub fn parse_kospi_index_daily(response: ApiResponse<KospiIndexDailyRecord>) -> (r: Result<Table, Error>)
    ensures
        r is Ok,
        r matches Ok(t) ==> krx_index_daily_table_matches(t, response.data@),
{
    parse_krx_index_daily(response)
}

/// As `parse_krx_index_daily`: the `kosdaq_index_daily` endpoint shares its record shape
/// and its table, byte for byte.
pub fn parse_kosdaq_index_daily(response: ApiResponse<KosdaqIndexDailyRecord>) -> (r: Result<Table, Error>)
    ensures
        r is Ok,
        r matches Ok(t) ==> krx_index_daily_table_matches(t, response.data@),
{
    parse_krx_index_daily(response)
}

/// `t` is the table some decoded record sequence of `body` flattens to.
pub open spec fn krx_index_daily_body_table(body: Seq<char>, t: Table) -> bool {
    exists|recs: Seq<KrxIndexDailyRecord>|
        #![trigger krx_index_daily_table_matches(t, recs)]
        {
            &&& envelope_result(body) matches Some(rv)
            &&& recs.len() == rv.len()
            &&& (forall|i: int| 0 <= i < recs.len() ==> krx_index_daily_matches(#[trigger] recs[i], rv[i]))
            &&& krx_index_daily_table_matches(t, recs)
        }
}

/// The whole decode pipeline of a 2xx body for this endpoint: envelope,
/// records, table.  Every failure is a `Parsing` error carrying the body.
pub fn krx_index_daily_table_from_body(body: &str) -> (r: Result<Table, Error>)
    ensures
        r is Ok <==> (envelope_result(body@) matches Some(rv) && krx_index_daily_records_ok(rv)),
        r matches Ok(t) ==> krx_index_daily_body_table(body@, t),
        r matches Err(e) ==> (e matches Error::Parsing {
            details: _,
            source: _,
            response_body,
        } && response_body@ == body@),
{
    let raw = match parse_envelope(body) {
        Ok(v) => v,
        Err(e) => {
            return Err(e);
        },
    };
    let resp = match decode_krx_index_daily_response(&raw) {
        Ok(v) => v,
        Err(msg) => {
            return Err(
                Error::Parsing {
                    details: String::from_str("failed to decode a record of the reply"),
                    source: msg,
                    response_body: String::from_str(body),
                },
            );
        },
    };
    let ghost recs = resp.data@;
    match parse_krx_index_daily(resp) {
        Ok(t) => {
            proof {
                assert(krx_index_daily_table_matches(t, recs));
            }
            Ok(t)
        },
        Err(_) => vstd::pervasive::unreached(),
    }
}

/// One row of the bond index daily endpoint.
#[derive(Debug)]
pub struct BondIndexDailyRecord {
    pub base_date: Date,
    pub bond_index_group_name: String,
    pub total_earning_index: Option<Decimal>,
    pub total_earning_index_change: Option<Decimal>,
    pub net_price_index: Option<Decimal>,
    pub net_price_index_change: Option<Decimal>,
    pub zero_reinvest_index: Option<Decimal>,
    pub zero_reinvest_index_change: Option<Decimal>,
    pub call_reinvest_index: Option<Decimal>,
    pub call_reinvest_index_change: Option<Decimal>,
    pub market_price_index: Option<Decimal>,
    pub market_price_index_change: Option<Decimal>,
    pub average_duration: Option<Decimal>,
    pub average_convexity_price: Option<Decimal>,
    pub bond_index_average_yield: Option<Decimal>,
}

/// Every field of the record is present and coercible.
pub open spec fn bond_index_daily_fields_ok(fv: Seq<(Seq<char>, Seq<char>)>) -> bool {
    &&& field_lookup(fv, "BAS_DD"@) matches Some(s) && date_result(s) is Some
    &&& field_lookup(fv, "BND_IDX_GRP_NM"@) is Some
    &&& field_lookup(fv, "TOT_EARNG_IDX"@) matches Some(s) && opt_dec_result(s) is Some
    &&& field_lookup(fv, "TOT_EARNG_IDX_CMPPREVDD"@) matches Some(s) && opt_dec_result(s) is Some
    &&& field_lookup(fv, "NETPRC_IDX"@) matches Some(s) && opt_dec_result(s) is Some
    &&& field_lookup(fv, "NETPRC_IDX_CMPPREVDD"@) matches Some(s) && opt_dec_result(s) is Some
    &&& field_lookup(fv, "ZERO_REINVST_IDX"@) matches Some(s) && opt_dec_result(s) is Some
    &&& field_lookup(fv, "ZERO_REINVST_IDX_CMPPREVDD"@) matches Some(s) && opt_dec_result(s) is Some
    &&& field_lookup(fv, "CALL_REINVST_IDX"@) matches Some(s) && opt_dec_result(s) is Some
    &&& field_lookup(fv, "CALL_REINVST_IDX_CMPPREVDD"@) matches Some(s) && opt_dec_result(s) is Some
    &&& field_lookup(fv, "MKT_PRC_IDX"@) matches Some(s) && opt_dec_result(s) is Some
    &&& field_lookup(fv, "MKT_PRC_IDX_CMPPREVDD"@) matches Some(s) && opt_dec_result(s) is Some
    &&& field_lookup(fv, "AVG_DURATION"@) matches Some(s) && opt_dec_result(s) is Some
    &&& field_lookup(fv, "AVG_CONVEXITY_PRC"@) matches Some(s) && opt_dec_result(s) is Some
    &&& field_lookup(fv, "BND_IDX_AVG_YD"@) matches Some(s) && opt_dec_result(s) is Some
}

/// `rec` holds exactly the coerced fields of the raw record `fv`.
pub open spec fn bond_index_daily_matches(rec: BondIndexDailyRecord, fv: Seq<(Seq<char>, Seq<char>)>) -> bool {
    &&& Some(rec.base_date) == date_result(field_lookup(fv, "BAS_DD"@)->Some_0)
    &&& Some(rec.bond_index_group_name@) == field_lookup(fv, "BND_IDX_GRP_NM"@)
    &&& Some(rec.total_earning_index) == opt_dec_result(field_lookup(fv, "TOT_EARNG_IDX"@)->Some_0)
    &&& Some(rec.total_earning_index_change) == opt_dec_result(field_lookup(fv, "TOT_EARNG_IDX_CMPPREVDD"@)->Some_0)
    &&& Some(rec.net_price_index) == opt_dec_result(field_lookup(fv, "NETPRC_IDX"@)->Some_0)
    &&& Some(rec.net_price_index_change) == opt_dec_result(field_lookup(fv, "NETPRC_IDX_CMPPREVDD"@)->Some_0)
    &&& Some(rec.zero_reinvest_index) == opt_dec_result(field_lookup(fv, "ZERO_REINVST_IDX"@)->Some_0)
    &&& Some(rec.zero_reinvest_index_change) == opt_dec_result(field_lookup(fv, "ZERO_REINVST_IDX_CMPPREVDD"@)->Some_0)
    &&& Some(rec.call_reinvest_index) == opt_dec_result(field_lookup(fv, "CALL_REINVST_IDX"@)->Some_0)
    &&& Some(rec.call_reinvest_index_change) == opt_dec_result(field_lookup(fv, "CALL_REINVST_IDX_CMPPREVDD"@)->Some_0)
    &&& Some(rec.market_price_index) == opt_dec_result(field_lookup(fv, "MKT_PRC_IDX"@)->Some_0)
    &&& Some(rec.market_price_index_change) == opt_dec_result(field_lookup(fv, "MKT_PRC_IDX_CMPPREVDD"@)->Some_0)
    &&& Some(rec.average_duration) == opt_dec_result(field_lookup(fv, "AVG_DURATION"@)->Some_0)
    &&& Some(rec.average_convexity_price) == opt_dec_result(field_lookup(fv, "AVG_CONVEXITY_PRC"@)->Some_0)
    &&& Some(rec.bond_index_average_yield) == opt_dec_result(field_lookup(fv, "BND_IDX_AVG_YD"@)->Some_0)
}

/// Decodes one raw record of the endpoint.
pub fn decode_bond_index_daily(fields: &Vec<(String, String)>) -> (r: Result<BondIndexDailyRecord, String>)
    ensures
        r is Ok <==> bond_index_daily_fields_ok(fields.deep_view()),
        r matches Ok(rec) ==> bond_index_daily_matches(rec, fields.deep_view()),
{
    let base_date = match get_field(fields, "BAS_DD") {
        Some(s) => match deserialize_krx_date(s.as_str()) {
            Ok(v) => v,
            Err(e) => {
                return Err(e);
            },
        },
        None => {
            return Err(String::from_str("missing field BAS_DD"));
        },
    };
    let bond_index_group_name = match get_field(fields, "BND_IDX_GRP_NM") {
        Some(s) => s.clone(),
        None => {
            return Err(String::from_str("missing field BND_IDX_GRP_NM"));
        },
    };
    let total_earning_index = match get_field(fields, "TOT_EARNG_IDX") {
        Some(s) => match deserialize_optional_f64(s.as_str()) {
            Ok(v) => v,
            Err(e) => {
                return Err(e);
            },
        },
        None => {
            return Err(String::from_str("missing field TOT_EARNG_IDX"));
        },
    };
    let total_earning_index_change = match get_field(fields, "TOT_EARNG_IDX_CMPPREVDD") {
        Some(s) => match deserialize_optional_f64(s.as_str()) {
            Ok(v) => v,
            Err(e) => {
                return Err(e);
            },
        },
        None => {
            return Err(String::from_str("missing field TOT_EARNG_IDX_CMPPREVDD"));
        },
    };
    let net_price_index = match get_field(fields, "NETPRC_IDX") {
        Some(s) => match deserialize_optional_f64(s.as_str()) {
            Ok(v) => v,
            Err(e) => {
                return Err(e);
            },
        },
        None => {
            return Err(String::from_str("missing field NETPRC_IDX"));
        },
    };
    let net_price_index_change = match get_field(fields, "NETPRC_IDX_CMPPREVDD") {
        Some(s) => match deserialize_optional_f64(s.as_str()) {
            Ok(v) => v,
            Err(e) => {
                return Err(e);
            },
        },
        None => {
            return Err(String::from_str("missing field NETPRC_IDX_CMPPREVDD"));
        },
    };
    let zero_reinvest_index = match get_field(fields, "ZERO_REINVST_IDX") {
        Some(s) => match deserialize_optional_f64(s.as_str()) {
            Ok(v) => v,
            Err(e) => {
                return Err(e);
            },
        },
        None => {
            return Err(String::from_str("missing field ZERO_REINVST_IDX"));
        },
    };
    let zero_reinvest_index_change = match get_field(fields, "ZERO_REINVST_IDX_CMPPREVDD") {
        Some(s) => match deserialize_optional_f64(s.as_str()) {
            Ok(v) => v,
            Err(e) => {
                return Err(e);
            },
        },
        None => {
            return Err(String::from_str("missing field ZERO_REINVST_IDX_CMPPREVDD"));
        },
    };
    let call_reinvest_index = match get_field(fields, "CALL_REINVST_IDX") {
        Some(s) => match deserialize_optional_f64(s.as_str()) {
            Ok(v) => v,
            Err(e) => {
                return Err(e);
            },
        },
        None => {
            return Err(String::from_str("missing field CALL_REINVST_IDX"));
        },
    };
    let call_reinvest_index_change = match get_field(fields, "CALL_REINVST_IDX_CMPPREVDD") {
        Some(s) => match deserialize_optional_f64(s.as_str()) {
            Ok(v) => v,
            Err(e) => {
                return Err(e);
            },
        },
        None => {
            return Err(String::from_str("missing field CALL_REINVST_IDX_CMPPREVDD"));
        },
    };
    let market_price_index = match get_field(fields, "MKT_PRC_IDX") {
        Some(s) => match deserialize_optional_f64(s.as_str()) {
            Ok(v) => v,
            Err(e) => {
                return Err(e);
            },
        },
        None => {
            return Err(String::from_str("missing field MKT_PRC_IDX"));
        },
    };
    let market_price_index_change = match get_field(fields, "MKT_PRC_IDX_CMPPREVDD") {
        Some(s) => match deserialize_optional_f64(s.as_str()) {
            Ok(v) => v,
            Err(e) => {
                return Err(e);
            },
        },
        None => {
            return Err(String::from_str("missing field MKT_PRC_IDX_CMPPREVDD"));
        },
    };
    let average_duration = match get_field(fields, "AVG_DURATION") {
        Some(s) => match deserialize_optional_f64(s.as_str()) {
            Ok(v) => v,
            Err(e) => {
                return Err(e);
            },
        },
        None => {
            return Err(String::from_str("missing field AVG_DURATION"));
        },
    };
    let average_convexity_price = match get_field(fields, "AVG_CONVEXITY_PRC") {
        Some(s) => match deserialize_optional_f64(s.as_str()) {
            Ok(v) => v,
            Err(e) => {
                return Err(e);
            },
        },
        None => {
            return Err(String::from_str("missing field AVG_CONVEXITY_PRC"));
        },
    };
    let bond_index_average_yield = match get_field(fields, "BND_IDX_AVG_YD") {
        Some(s) => match deserialize_optional_f64(s.as_str()) {
            Ok(v) => v,
            Err(e) => {
                return Err(e);
            },
        },
        None => {
            return Err(String::from_str("missing field BND_IDX_AVG_YD"));
        },
    };
    Ok(
        BondIndexDailyRecord {
            base_date,
            bond_index_group_name,
            total_earning_index,
            total_earning_index_change,
            net_price_index,
            net_price_index_change,
            zero_reinvest_index,
            zero_reinvest_index_change,
            call_reinvest_index,
            call_reinvest_index_change,
            market_price_index,
            market_price_index_change,
            average_duration,
            average_convexity_price,
            bond_index_average_yield,
        },
    )
}

/// Every raw record of the reply decodes.
pub open spec fn bond_index_daily_records_ok(rv: Seq<Seq<(Seq<char>, Seq<char>)>>) -> bool {
    forall|i: int| 0 <= i < rv.len() ==> bond_index_daily_fields_ok(#[trigger] rv[i])
}

/// Decodes every raw record of a reply, in order, failing on the first
/// record that does not decode.
pub fn decode_bond_index_daily_response(raw: &Vec<Vec<(String, String)>>) -> (r: Result<
    ApiResponse<BondIndexDailyRecord>,
    String,
>)
    ensures
        r is Ok <==> bond_index_daily_records_ok(raw.deep_view()),
        r matches Ok(resp) ==> resp.data@.len() == raw@.len() && (forall|i: int|
            0 <= i < resp.data@.len() ==> bond_index_daily_matches(
                #[trigger] resp.data@[i],
                raw.deep_view()[i],
            )),
{
    let ghost rv = raw.deep_view();
    let mut data: Vec<BondIndexDailyRecord> = Vec::new();
    let mut i: usize = 0;
    while i < raw.len()
        invariant
            rv == raw.deep_view(),
            rv.len() == raw@.len(),
            forall|k: int| 0 <= k < rv.len() ==> #[trigger] rv[k] == raw@[k].deep_view(),
            0 <= i <= raw@.len(),
            data@.len() == i,
            forall|k: int| 0 <= k < i ==> bond_index_daily_fields_ok(#[trigger] rv[k]),
            forall|k: int| 0 <= k < i ==> bond_index_daily_matches(#[trigger] data@[k], rv[k]),
        decreases raw@.len() - i,
    {
        match decode_bond_index_daily(&raw[i]) {
            Ok(rec) => {
                data.push(rec);
            },
            Err(e) => {
                proof {
                    assert(!bond_index_daily_fields_ok(rv[i as int]));
                }
                return Err(e);
            },
        }
        i += 1;
    }
    Ok(ApiResponse { data })
}

/// `t` is exactly the table of the records `rs`: 15 fixed columns, one
/// value per record in input order, and the empty table for no records.
pub open spec fn bond_index_daily_table_matches(t: Table, rs: Seq<BondIndexDailyRecord>) -> bool {
    &&& rs.len() == 0 ==> t.columns@.len() == 0
    &&& rs.len() > 0 ==> {
        &&& t.columns@.len() == 15
        &&& col_text(
            t.columns@[0],
            "날짜"@,
            Seq::new(rs.len(), |i: int| iso_of(rs[i].base_date)),
        )
        &&& col_text(
            t.columns@[1],
            "지수명"@,
            Seq::new(rs.len(), |i: int| rs[i].bond_index_group_name@),
        )
        &&& col_dec(
            t.columns@[2],
            "총수익지수"@,
            Seq::new(rs.len(), |i: int| rs[i].total_earning_index),
        )
        &&& col_dec(
            t.columns@[3],
            "총수익지수_대비"@,
            Seq::new(rs.len(), |i: int| rs[i].total_earning_index_change),
        )
        &&& col_dec(
            t.columns@[4],
            "순가격지수"@,
            Seq::new(rs.len(), |i: int| rs[i].net_price_index),
        )
        &&& col_dec(
            t.columns@[5],
            "순가격지수_대비"@,
            Seq::new(rs.len(), |i: int| rs[i].net_price_index_change),
        )
        &&& col_dec(
            t.columns@[6],
            "제로재투자지수"@,
            Seq::new(rs.len(), |i: int| rs[i].zero_reinvest_index),
        )
        &&& col_dec(
            t.columns@[7],
            "제로재투자지수_대비"@,
            Seq::new(rs.len(), |i: int| rs[i].zero_reinvest_index_change),
        )
        &&& col_dec(
            t.columns@[8],
            "콜재투자지수"@,
            Seq::new(rs.len(), |i: int| rs[i].call_reinvest_index),
        )
        &&& col_dec(
            t.columns@[9],
            "콜재투자지수_대비"@,
            Seq::new(rs.len(), |i: int| rs[i].call_reinvest_index_change),
        )
        &&& col_dec(
            t.columns@[10],
            "시장가격지수"@,
            Seq::new(rs.len(), |i: int| rs[i].market_price_index),
        )
        &&& col_dec(
            t.columns@[11],
            "시장가격지수_대비"@,
            Seq::new(rs.len(), |i: int| rs[i].market_price_index_change),
        )
        &&& col_dec(
            t.columns@[12],
            "듀레이션"@,
            Seq::new(rs.len(), |i: int| rs[i].average_duration),
        )
        &&& col_dec(
            t.columns@[13],
            "컨벡시티"@,
            Seq::new(rs.len(), |i: int| rs[i].average_convexity_price),
        )
        &&& col_dec(
            t.columns@[14],
            "YTM"@,
            Seq::new(rs.len(), |i: int| rs[i].bond_index_average_yield),
        )
    }
}

/// Flattens the typed records into their table; zero records give the
/// empty table of zero columns and zero rows.
pub fn parse_bond_index_daily(response: ApiResponse<BondIndexDailyRecord>) -> (r: Result<Table, Error>)
    ensures
        r is Ok,
        r matches Ok(t) ==> bond_index_daily_table_matches(t, response.data@),
{
    let records = response.data;
    if records.len() == 0 {
        return Ok(Table::empty());
    }
    let n = records.len();
    let mut c0: Vec<String> = Vec::new();
    let mut c1: Vec<String> = Vec::new();
    let mut c2: Vec<Option<Decimal>> = Vec::new();
    let mut c3: Vec<Option<Decimal>> = Vec::new();
    let mut c4: Vec<Option<Decimal>> = Vec::new();
    let mut c5: Vec<Option<Decimal>> = Vec::new();
    let mut c6: Vec<Option<Decimal>> = Vec::new();
    let mut c7: Vec<Option<Decimal>> = Vec::new();
    let mut c8: Vec<Option<Decimal>> = Vec::new();
    let mut c9: Vec<Option<Decimal>> = Vec::new();
    let mut c10: Vec<Option<Decimal>> = Vec::new();
    let mut c11: Vec<Option<Decimal>> = Vec::new();
    let mut c12: Vec<Option<Decimal>> = Vec::new();
    let mut c13: Vec<Option<Decimal>> = Vec::new();
    let mut c14: Vec<Option<Decimal>> = Vec::new();
    let mut i: usize = 0;
    while i < n
        invariant
            n == records@.len(),
            0 <= i <= n,
            c0@.len() == i && forall|k: int|
                0 <= k < i ==> (#[trigger] c0@[k])@ == iso_of(records@[k].base_date),
            c1@.len() == i && forall|k: int|
                0 <= k < i ==> (#[trigger] c1@[k])@ == records@[k].bond_index_group_name@,
            c2@.len() == i && forall|k: int|
                0 <= k < i ==> #[trigger] c2@[k] == records@[k].total_earning_index,
            c3@.len() == i && forall|k: int|
                0 <= k < i ==> #[trigger] c3@[k] == records@[k].total_earning_index_change,
            c4@.len() == i && forall|k: int|
                0 <= k < i ==> #[trigger] c4@[k] == records@[k].net_price_index,
            c5@.len() == i && forall|k: int|
                0 <= k < i ==> #[trigger] c5@[k] == records@[k].net_price_index_change,
            c6@.len() == i && forall|k: int|
                0 <= k < i ==> #[trigger] c6@[k] == records@[k].zero_reinvest_index,
            c7@.len() == i && forall|k: int|
                0 <= k < i ==> #[trigger] c7@[k] == records@[k].zero_reinvest_index_change,
            c8@.len() == i && forall|k: int|
                0 <= k < i ==> #[trigger] c8@[k] == records@[k].call_reinvest_index,
            c9@.len() == i && forall|k: int|
                0 <= k < i ==> #[trigger] c9@[k] == records@[k].call_reinvest_index_change,
            c10@.len() == i && forall|k: int|
                0 <= k < i ==> #[trigger] c10@[k] == records@[k].market_price_index,
            c11@.len() == i && forall|k: int|
                0 <= k < i ==> #[trigger] c11@[k] == records@[k].market_price_index_change,
            c12@.len() == i && forall|k: int|
                0 <= k < i ==> #[trigger] c12@[k] == records@[k].average_duration,
            c13@.len() == i && forall|k: int|
                0 <= k < i ==> #[trigger] c13@[k] == records@[k].average_convexity_price,
            c14@.len() == i && forall|k: int|
                0 <= k < i ==> #[trigger] c14@[k] == records@[k].bond_index_average_yield,
        decreases n - i,
    {
        let rec = &records[i];
        c0.push(rec.base_date.to_iso_string());
        c1.push(rec.bond_index_group_name.clone());
        c2.push(rec.total_earning_index);
        c3.push(rec.total_earning_index_change);
        c4.push(rec.net_price_index);
        c5.push(rec.net_price_index_change);
        c6.push(rec.zero_reinvest_index);
        c7.push(rec.zero_reinvest_index_change);
        c8.push(rec.call_reinvest_index);
        c9.push(rec.call_reinvest_index_change);
        c10.push(rec.market_price_index);
        c11.push(rec.market_price_index_change);
        c12.push(rec.average_duration);
        c13.push(rec.average_convexity_price);
        c14.push(rec.bond_index_average_yield);
        i += 1;
    }
    proof {
        let rs = records@;
        assert(c0.deep_view() =~= Seq::new(rs.len(), |i: int| iso_of(rs[i].base_date)));
        assert(c1.deep_view() =~= Seq::new(rs.len(), |i: int| rs[i].bond_index_group_name@));
        assert(c2@ =~= Seq::new(rs.len(), |i: int| rs[i].total_earning_index));
        assert(c3@ =~= Seq::new(rs.len(), |i: int| rs[i].total_earning_index_change));
        assert(c4@ =~= Seq::new(rs.len(), |i: int| rs[i].net_price_index));
        assert(c5@ =~= Seq::new(rs.len(), |i: int| rs[i].net_price_index_change));
        assert(c6@ =~= Seq::new(rs.len(), |i: int| rs[i].zero_reinvest_index));
        assert(c7@ =~= Seq::new(rs.len(), |i: int| rs[i].zero_reinvest_index_change));
        assert(c8@ =~= Seq::new(rs.len(), |i: int| rs[i].call_reinvest_index));
        assert(c9@ =~= Seq::new(rs.len(), |i: int| rs[i].call_reinvest_index_change));
        assert(c10@ =~= Seq::new(rs.len(), |i: int| rs[i].market_price_index));
        assert(c11@ =~= Seq::new(rs.len(), |i: int| rs[i].market_price_index_change));
        assert(c12@ =~= Seq::new(rs.len(), |i: int| rs[i].average_duration));
        assert(c13@ =~= Seq::new(rs.len(), |i: int| rs[i].average_convexity_price));
        assert(c14@ =~= Seq::new(rs.len(), |i: int| rs[i].bond_index_average_yield));
    }
    let mut columns: Vec<Column> = Vec::new();
    columns.push(
        Column { name: String::from_str("날짜"), data: ColumnData::Text(c0) },
    );
    columns.push(
        Column { name: String::from_str("지수명"), data: ColumnData::Text(c1) },
    );
    columns.push(
        Column { name: String::from_str("총수익지수"), data: ColumnData::Dec(c2) },
    );
    columns.push(
        Column { name: String::from_str("총수익지수_대비"), data: ColumnData::Dec(c3) },
    );
    columns.push(
        Column { name: String::from_str("순가격지수"), data: ColumnData::Dec(c4) },
    );
    columns.push(
        Column { name: String::from_str("순가격지수_대비"), data: ColumnData::Dec(c5) },
    );
    columns.push(
        Column { name: String::from_str("제로재투자지수"), data: ColumnData::Dec(c6) },
    );
    columns.push(
        Column { name: String::from_str("제로재투자지수_대비"), data: ColumnData::Dec(c7) },
    );
    columns.push(
        Column { name: String::from_str("콜재투자지수"), data: ColumnData::Dec(c8) },
    );
    columns.push(
        Column { name: String::from_str("콜재투자지수_대비"), data: ColumnData::Dec(c9) },
    );
    columns.push(
        Column { name: String::from_str("시장가격지수"), data: ColumnData::Dec(c10) },
    );
    columns.push(
        Column { name: String::from_str("시장가격지수_대비"), data: ColumnData::Dec(c11) },
    );
    columns.push(
        Column { name: String::from_str("듀레이션"), data: ColumnData::Dec(c12) },
    );
    columns.push(
        Column { name: String::from_str("컨벡시티"), data: ColumnData::Dec(c13) },
    );
    columns.push(
        Column { name: String::from_str("YTM"), data: ColumnData::Dec(c14) },
    );
    Ok(Table { columns })
}

/// `t` is the table some decoded record sequence of `body` flattens to.
pub open spec fn bond_index_daily_body_table(body: Seq<char>, t: Table) -> bool {
    exists|recs: Seq<BondIndexDailyRecord>|
        #![trigger bond_index_daily_table_matches(t, recs)]
        {
            &&& envelope_result(body) matches Some(rv)
            &&& recs.len() == rv.len()
            &&& (forall|i: int| 0 <= i < recs.len() ==> bond_index_daily_matches(#[trigger] recs[i], rv[i]))
            &&& bond_index_daily_table_matches(t, recs)
        }
}

/// The whole decode pipeline of a 2xx body for this endpoint: envelope,
/// records, table.  Every failure is a `Parsing` error carrying the body.
pub fn bond_index_daily_table_from_body(body: &str) -> (r: Result<Table, Error>)
    ensures
        r is Ok <==> (envelope_result(body@) matches Some(rv) && bond_index_daily_records_ok(rv)),
        r matches Ok(t) ==> bond_index_daily_body_table(body@, t),
        r matches Err(e) ==> (e matches Error::Parsing {
            details: _,
            source: _,
            response_body,
        } && response_body@ == body@),
{
    let raw = match parse_envelope(body) {
        Ok(v) => v,
        Err(e) => {
            return Err(e);
        },
    };
    let resp = match decode_bond_index_daily_response(&raw) {
        Ok(v) => v,
        Err(msg) => {
            return Err(
                Error::Parsing {
                    details: String::from_str("failed to decode a record of the reply"),
                    source: msg,
                    response_body: String::from_str(body),
                },
            );
        },
    };
    let ghost recs = resp.data@;
    match parse_bond_index_daily(resp) {
        Ok(t) => {
            proof {
                assert(bond_index_daily_table_matches(t, recs));
            }
            Ok(t)
        },
        Err(_) => vstd::pervasive::unreached(),
    }
}

/// One row of the derivative index daily endpoint.
#[derive(Debug)]
pub struct DerivativeIndexDailyRecord {
    pub base_date: Date,
    pub index_class: String,
    pub index_name: String,
    pub close_price: Option<Decimal>,
    pub price_change: Option<Decimal>,
    pub fluctuation_rate: Option<Decimal>,
    pub open_price: Option<Decimal>,
    pub high_price: Option<Decimal>,
    pub low_price: Option<Decimal>,
}

/// Every field of the record is present and coercible.
pub open spec fn derivative_index_daily_fields_ok(fv: Seq<(Seq<char>, Seq<char>)>) -> bool {
    &&& field_lookup(fv, "BAS_DD"@) matches Some(s) && date_result(s) is Some
    &&& field_lookup(fv, "IDX_CLSS"@) is Some
    &&& field_lookup(fv, "IDX_NM"@) is Some
    &&& field_lookup(fv, "CLSPRC_IDX"@) matches Some(s) && opt_dec_result(s) is Some
    &&& field_lookup(fv, "CMPPREVDD_IDX"@) matches Some(s) && opt_dec_result(s) is Some
    &&& field_lookup(fv, "FLUC_RT"@) matches Some(s) && opt_pct_result(s) is Some
    &&& field_lookup(fv, "OPNPRC_IDX"@) matches Some(s) && opt_dec_result(s) is Some
    &&& field_lookup(fv, "HGPRC_IDX"@) matches Some(s) && opt_dec_result(s) is Some
    &&& field_lookup(fv, "LWPRC_IDX"@) matches Some(s) && opt_dec_result(s) is Some
}

/// `rec` holds exactly the coerced fields of the raw record `fv`.
pub open spec fn derivative_index_daily_matches(rec: DerivativeIndexDailyRecord, fv: Seq<(Seq<char>, Seq<char>)>) -> bool {
    &&& Some(rec.base_date) == date_result(field_lookup(fv, "BAS_DD"@)->Some_0)
    &&& Some(rec.index_class@) == field_lookup(fv, "IDX_CLSS"@)
    &&& Some(rec.index_name@) == field_lookup(fv, "IDX_NM"@)
    &&& Some(rec.close_price) == opt_dec_result(field_lookup(fv, "CLSPRC_IDX"@)->Some_0)
    &&& Some(rec.price_change) == opt_dec_result(field_lookup(fv, "CMPPREVDD_IDX"@)->Some_0)
    &&& Some(rec.fluctuation_rate) == opt_pct_result(field_lookup(fv, "FLUC_RT"@)->Some_0)
    &&& Some(rec.open_price) == opt_dec_result(field_lookup(fv, "OPNPRC_IDX"@)->Some_0)
    &&& Some(rec.high_price) == opt_dec_result(field_lookup(fv, "HGPRC_IDX"@)->Some_0)
    &&& Some(rec.low_price) == opt_dec_result(field_lookup(fv, "LWPRC_IDX"@)->Some_0)
}

/// Decodes one raw record of the endpoint.
pub fn decode_derivative_index_daily(fields: &Vec<(String, String)>) -> (r: Result<DerivativeIndexDailyRecord, String>)
    ensures
        r is Ok <==> derivative_index_daily_fields_ok(fields.deep_view()),
        r matches Ok(rec) ==> derivative_index_daily_matches(rec, fields.deep_view()),
{
    let base_date = match get_field(fields, "BAS_DD") {
        Some(s) => match deserialize_krx_date(s.as_str()) {
            Ok(v) => v,
            Err(e) => {
                return Err(e);
            },
        },
        None => {
            return Err(String::from_str("missing field BAS_DD"));
        },
    };
    let index_class = match get_field(fields, "IDX_CLSS") {
        Some(s) => s.clone(),
        None => {
            return Err(String::from_str("missing field IDX_CLSS"));
        },
    };
    let index_name = match get_field(fields, "IDX_NM") {
        Some(s) => s.clone(),
        None => {
            return Err(String::from_str("missing field IDX_NM"));
        },
    };
    let close_price = match get_field(fields, "CLSPRC_IDX") {
        Some(s) => match deserialize_optional_f64(s.as_str()) {
            Ok(v) => v,
            Err(e) => {
                return Err(e);
            },
        },
        None => {
            return Err(String::from_str("missing field CLSPRC_IDX"));
        },
    };
    let price_change = match get_field(fields, "CMPPREVDD_IDX") {
        Some(s) => match deserialize_optional_f64(s.as_str()) {
            Ok(v) => v,
            Err(e) => {
                return Err(e);
            },
        },
        None => {
            return Err(String::from_str("missing field CMPPREVDD_IDX"));
        },
    };
    let fluctuation_rate = match get_field(fields, "FLUC_RT") {
        Some(s) => match deserialize_optional_percentage(s.as_str()) {
            Ok(v) => v,
            Err(e) => {
                return Err(e);
            },
        },
        None => {
            return Err(String::from_str("missing field FLUC_RT"));
        },
    };
    let open_price = match get_field(fields, "OPNPRC_IDX") {
        Some(s) => match deserialize_optional_f64(s.as_str()) {
            Ok(v) => v,
            Err(e) => {
                return Err(e);
            },
        },
        None => {
            return Err(String::from_str("missing field OPNPRC_IDX"));
        },
    };
    let high_price = match get_field(fields, "HGPRC_IDX") {
        Some(s) => match deserialize_optional_f64(s.as_str()) {
            Ok(v) => v,
            Err(e) => {
                return Err(e);
            },
        },
        None => {
            return Err(String::from_str("missing field HGPRC_IDX"));
        },
    };
    let low_price = match get_field(fields, "LWPRC_IDX") {
        Some(s) => match deserialize_optional_f64(s.as_str()) {
            Ok(v) => v,
            Err(e) => {
                return Err(e);
            },
        },
        None => {
            return Err(String::from_str("missing field LWPRC_IDX"));
        },
    };
    Ok(
        DerivativeIndexDailyRecord {
            base_date,
            index_class,
            index_name,
            close_price,
            price_change,
            fluctuation_rate,
            open_price,
            high_price,
            low_price,
        },
    )
}

/// Every raw record of the reply decodes.
pub open spec fn derivative_index_daily_records_ok(rv: Seq<Seq<(Seq<char>, Seq<char>)>>) -> bool {
    forall|i: int| 0 <= i < rv.len() ==> derivative_index_daily_fields_ok(#[trigger] rv[i])
}

/// Decodes every raw record of a reply, in order, failing on the first
/// record that does not decode.
pub fn decode_derivative_index_daily_response(raw: &Vec<Vec<(String, String)>>) -> (r: Result<
    ApiResponse<DerivativeIndexDailyRecord>,
    String,
>)
    ensures
        r is Ok <==> derivative_index_daily_records_ok(raw.deep_view()),
        r matches Ok(resp) ==> resp.data@.len() == raw@.len() && (forall|i: int|
            0 <= i < resp.data@.len() ==> derivative_index_daily_matches(
                #[trigger] resp.data@[i],
                raw.deep_view()[i],
            )),
{
    let ghost rv = raw.deep_view();
    let mut data: Vec<DerivativeIndexDailyRecord> = Vec::new();
    let mut i: usize = 0;
    while i < raw.len()
        invariant
            rv == raw.deep_view(),
            rv.len() == raw@.len(),
            forall|k: int| 0 <= k < rv.len() ==> #[trigger] rv[k] == raw@[k].deep_view(),
            0 <= i <= raw@.len(),
            data@.len() == i,
            forall|k: int| 0 <= k < i ==> derivative_index_daily_fields_ok(#[trigger] rv[k]),
            forall|k: int| 0 <= k < i ==> derivative_index_daily_matches(#[trigger] data@[k], rv[k]),
        decreases raw@.len() - i,
    {
        match decode_derivative_index_daily(&raw[i]) {
            Ok(rec) => {
                data.push(rec);
            },
            Err(e) => {
                proof {
                    assert(!derivative_index_daily_fields_ok(rv[i as int]));
                }
                return Err(e);
            },
        }
        i += 1;
    }
    Ok(ApiResponse { data })
}

/// `t` is exactly the table of the records `rs`: 9 fixed columns, one
/// value per record in input order, and the empty table for no records.
pub open spec fn derivative_index_daily_table_matches(t: Table, rs: Seq<DerivativeIndexDailyRecord>) -> bool {
    &&& rs.len() == 0 ==> t.columns@.len() == 0
    &&& rs.len() > 0 ==> {
        &&& t.columns@.len() == 9
        &&& col_text(
            t.columns@[0],
            "날짜"@,
            Seq::new(rs.len(), |i: int| iso_of(rs[i].base_date)),
        )
        &&& col_text(
            t.columns@[1],
            "계열구분"@,
            Seq::new(rs.len(), |i: int| rs[i].index_class@),
        )
        &&& col_text(
            t.columns@[2],
            "지수명"@,
            Seq::new(rs.len(), |i: int| rs[i].index_name@),
        )
        &&& col_dec(
            t.columns@[3],
            "종가"@,
            Seq::new(rs.len(), |i: int| rs[i].close_price),
        )
        &&& col_dec(
            t.columns@[4],
            "대비"@,
            Seq::new(rs.len(), |i: int| rs[i].price_change),
        )
        &&& col_dec(
            t.columns@[5],
            "등락률"@,
            Seq::new(rs.len(), |i: int| rs[i].fluctuation_rate),
        )
        &&& col_dec(
            t.columns@[6],
            "시가"@,
            Seq::new(rs.len(), |i: int| rs[i].open_price),
        )
        &&& col_dec(
            t.columns@[7],
            "고가"@,
            Seq::new(rs.len(), |i: int| rs[i].high_price),
        )
        &&& col_dec(
            t.columns@[8],
            "저가"@,
            Seq::new(rs.len(), |i: int| rs[i].low_price),
        )
    }
}

/// Flattens the typed records into their table; zero records give the
/// empty table of zero columns and zero rows.
pub fn parse_derivative_index_daily(response: ApiResponse<DerivativeIndexDailyRecord>) -> (r: Result<Table, Error>)
    ensures
        r is Ok,
        r matches Ok(t) ==> derivative_index_daily_table_matches(t, response.data@),
{
    let records = response.data;
    if records.len() == 0 {
        return Ok(Table::empty());
    }
    let n = records.len();
    let mut c0: Vec<String> = Vec::new();
    let mut c1: Vec<String> = Vec::new();
    let mut c2: Vec<String> = Vec::new();
    let mut c3: Vec<Option<Decimal>> = Vec::new();
    let mut c4: Vec<Option<Decimal>> = Vec::new();
    let mut c5: Vec<Option<Decimal>> = Vec::new();
    let mut c6: Vec<Option<Decimal>> = Vec::new();
    let mut c7: Vec<Option<Decimal>> = Vec::new();
    let mut c8: Vec<Option<Decimal>> = Vec::new();
    let mut i: usize = 0;
    while i < n
        invariant
            n == records@.len(),
            0 <= i <= n,
            c0@.len() == i && forall|k: int|
                0 <= k < i ==> (#[trigger] c0@[k])@ == iso_of(records@[k].base_date),
            c1@.len() == i && forall|k: int|
                0 <= k < i ==> (#[trigger] c1@[k])@ == records@[k].index_class@,
            c2@.len() == i && forall|k: int|
                0 <= k < i ==> (#[trigger] c2@[k])@ == records@[k].index_name@,
            c3@.len() == i && forall|k: int|
                0 <= k < i ==> #[trigger] c3@[k] == records@[k].close_price,
            c4@.len() == i && forall|k: int|
                0 <= k < i ==> #[trigger] c4@[k] == records@[k].price_change,
            c5@.len() == i && forall|k: int|
                0 <= k < i ==> #[trigger] c5@[k] == records@[k].fluctuation_rate,
            c6@.len() == i && forall|k: int|
                0 <= k < i ==> #[trigger] c6@[k] == records@[k].open_price,
            c7@.len() == i && forall|k: int|
                0 <= k < i ==> #[trigger] c7@[k] == records@[k].high_price,
            c8@.len() == i && forall|k: int|
                0 <= k < i ==> #[trigger] c8@[k] == records@[k].low_price,
        decreases n - i,
    {
        let rec = &records[i];
        c0.push(rec.base_date.to_iso_string());
        c1.push(rec.index_class.clone());
        c2.push(rec.index_name.clone());
        c3.push(rec.close_price);
        c4.push(rec.price_change);
        c5.push(rec.fluctuation_rate);
        c6.push(rec.open_price);
        c7.push(rec.high_price);
        c8.push(rec.low_price);
        i += 1;
    }
    proof {
        let rs = records@;
        assert(c0.deep_view() =~= Seq::new(rs.len(), |i: int| iso_of(rs[i].base_date)));
        assert(c1.deep_view() =~= Seq::new(rs.len(), |i: int| rs[i].index_class@));
        assert(c2.deep_view() =~= Seq::new(rs.len(), |i: int| rs[i].index_name@));
        assert(c3@ =~= Seq::new(rs.len(), |i: int| rs[i].close_price));
        assert(c4@ =~= Seq::new(rs.len(), |i: int| rs[i].price_change));
        assert(c5@ =~= Seq::new(rs.len(), |i: int| rs[i].fluctuation_rate));
        assert(c6@ =~= Seq::new(rs.len(), |i: int| rs[i].open_price));
        assert(c7@ =~= Seq::new(rs.len(), |i: int| rs[i].high_price));
        assert(c8@ =~= Seq::new(rs.len(), |i: int| rs[i].low_price));
    }
    let mut columns: Vec<Column> = Vec::new();
    columns.push(
        Column { name: String::from_str("날짜"), data: ColumnData::Text(c0) },
    );
    columns.push(
        Column { name: String::from_str("계열구분"), data: ColumnData::Text(c1) },
    );
    columns.push(
        Column { name: String::from_str("지수명"), data: ColumnData::Text(c2) },
    );
    columns.push(
        Column { name: String::from_str("종가"), data: ColumnData::Dec(c3) },
    );
    columns.push(
        Column { name: String::from_str("대비"), data: ColumnData::Dec(c4) },
    );
    columns.push(
        Column { name: String::from_str("등락률"), data: ColumnData::Dec(c5) },
    );
    columns.push(
        Column { name: String::from_str("시가"), data: ColumnData::Dec(c6) },
    );
    columns.push(
        Column { name: String::from_str("고가"), data: ColumnData::Dec(c7) },
    );
    columns.push(
        Column { name: String::from_str("저가"), data: ColumnData::Dec(c8) },
    );
    Ok(Table { columns })
}

/// `t` is the table some decoded record sequence of `body` flattens to.
pub open spec fn derivative_index_daily_body_table(body: Seq<char>, t: Table) -> bool {
    exists|recs: Seq<DerivativeIndexDailyRecord>|
        #![trigger derivative_index_daily_table_matches(t, recs)]
        {
            &&& envelope_result(body) matches Some(rv)
            &&& recs.len() == rv.len()
            &&& (forall|i: int| 0 <= i < recs.len() ==> derivative_index_daily_matches(#[trigger] recs[i], rv[i]))
            &&& derivative_index_daily_table_matches(t, recs)
        }
}

/// The whole decode pipeline of a 2xx body for this endpoint: envelope,
/// records, table.  Every failure is a `Parsing` error carrying the body.
pub fn derivative_index_daily_table_from_body(body: &str) -> (r: Result<Table, Error>)
    ensures
        r is Ok <==> (envelope_result(body@) matches Some(rv) && derivative_index_daily_records_ok(rv)),
        r matches Ok(t) ==> derivative_index_daily_body_table(body@, t),
        r matches Err(e) ==> (e matches Error::Parsing {
            details: _,
            source: _,
            response_body,
        } && response_body@ == body@),
{
    let raw = match parse_envelope(body) {
        Ok(v) => v,
        Err(e) => {
            return Err(e);
        },
    };
    let resp = match decode_derivative_index_daily_response(&raw) {
        Ok(v) => v,
        Err(msg) => {
            return Err(
                Error::Parsing {
                    details: String::from_str("failed to decode a record of the reply"),
                    source: msg,
                    response_body: String::from_str(body),
                },
            );
        },
    };
    let ghost recs = resp.data@;
    match parse_derivative_index_daily(resp) {
        Ok(t) => {
            proof {
                assert(derivative_index_daily_table_matches(t, recs));
            }
            Ok(t)
        },
        Err(_) => vstd::pervasive::unreached(),
    }
}

} // verus!
