//! Records and tables of the exchange-traded product endpoints: ETF, ETN
//! and ELW daily quotes.

use vstd::prelude::*;
use crate::data::{
    ApiResponse,
    deserialize_krx_date,
    deserialize_optional_f64,
    deserialize_optional_percentage,
    deserialize_optional_u64,
    envelope_result,
    field_lookup,
    get_field,
    opt_dec_result,
    opt_pct_result,
    opt_u64_result,
    parse_envelope,
};
use crate::date::{Date, date_result, iso_of};
use crate::error::Error;
use crate::num::Decimal;
use crate::table::{Column, ColumnData, Table, col_dec, col_text, col_uint};

verus! {

/// One row of the ETF daily-trade endpoint.
#[derive(Debug)]
pub struct EtfDailyRecord {
    pub base_date: Date,
    pub issue_code: String,
    pub issue_name: String,
    pub close_price: Option<Decimal>,
    pub open_price: Option<Decimal>,
    pub high_price: Option<Decimal>,
    pub low_price: Option<Decimal>,
    pub price_change: Option<Decimal>,
    pub fluctuation_rate: Option<Decimal>,
    pub trading_volume: Option<u64>,
    pub trading_value: Option<u64>,
    pub market_cap: Option<u64>,
    pub listed_shares: Option<u64>,
    pub nav: Option<Decimal>,
    pub index_indicator_name: String,
    pub objective_stock_price_index: Option<Decimal>,
    pub index_change: Option<Decimal>,
    pub index_fluctuation_rate: Option<Decimal>,
    pub investment_asset_net_total_amount: Option<u64>,
}

/// Every field of the record is present and coercible.
pub open spec fn etf_daily_fields_ok(fv: Seq<(Seq<char>, Seq<char>)>) -> bool {
    &&& field_lookup(fv, "BAS_DD"@) matches Some(s) && date_result(s) is Some
    &&& field_lookup(fv, "ISU_CD"@) is Some
    &&& field_lookup(fv, "ISU_NM"@) is Some
    &&& field_lookup(fv, "TDD_CLSPRC"@) matches Some(s) && opt_dec_result(s) is Some
    &&& field_lookup(fv, "TDD_OPNPRC"@) matches Some(s) && opt_dec_result(s) is Some
    &&& field_lookup(fv, "TDD_HGPRC"@) matches Some(s) && opt_dec_result(s) is Some
    &&& field_lookup(fv, "TDD_LWPRC"@) matches Some(s) && opt_dec_result(s) is Some
    &&& field_lookup(fv, "CMPPREVDD_PRC"@) matches Some(s) && opt_dec_result(s) is Some
    &&& field_lookup(fv, "FLUC_RT"@) matches Some(s) && opt_pct_result(s) is Some
    &&& field_lookup(fv, "ACC_TRDVOL"@) matches Some(s) && opt_u64_result(s) is Some
    &&& field_lookup(fv, "ACC_TRDVAL"@) matches Some(s) && opt_u64_result(s) is Some
    &&& field_lookup(fv, "MKTCAP"@) matches Some(s) && opt_u64_result(s) is Some
    &&& field_lookup(fv, "LIST_SHRS"@) matches Some(s) && opt_u64_result(s) is Some
    &&& field_lookup(fv, "NAV"@) matches Some(s) && opt_dec_result(s) is Some
    &&& field_lookup(fv, "IDX_IND_NM"@) is Some
    &&& field_lookup(fv, "OBJ_STKPRC_IDX"@) matches Some(s) && opt_dec_result(s) is Some
    &&& field_lookup(fv, "CMPPREVDD_IDX"@) matches Some(s) && opt_dec_result(s) is Some
    &&& field_lookup(fv, "FLUC_RT_IDX"@) matches Some(s) && opt_dec_result(s) is Some
    &&& field_lookup(fv, "INVSTASST_NETASST_TOTAMT"@) matches Some(s) && opt_u64_result(s) is Some
}

/// `rec` holds exactly the coerced fields of the raw record `fv`.
pub open spec fn etf_daily_matches(rec: EtfDailyRecord, fv: Seq<(Seq<char>, Seq<char>)>) -> bool {
    &&& Some(rec.base_date) == date_result(field_lookup(fv, "BAS_DD"@)->Some_0)
    &&& Some(rec.issue_code@) == field_lookup(fv, "ISU_CD"@)
    &&& Some(rec.issue_name@) == field_lookup(fv, "ISU_NM"@)
    &&& Some(rec.close_price) == opt_dec_result(field_lookup(fv, "TDD_CLSPRC"@)->Some_0)
    &&& Some(rec.open_price) == opt_dec_result(field_lookup(fv, "TDD_OPNPRC"@)->Some_0)
    &&& Some(rec.high_price) == opt_dec_result(field_lookup(fv, "TDD_HGPRC"@)->Some_0)
    &&& Some(rec.low_price) == opt_dec_result(field_lookup(fv, "TDD_LWPRC"@)->Some_0)
    &&& Some(rec.price_change) == opt_dec_result(field_lookup(fv, "CMPPREVDD_PRC"@)->Some_0)
    &&& Some(rec.fluctuation_rate) == opt_pct_result(field_lookup(fv, "FLUC_RT"@)->Some_0)
    &&& Some(rec.trading_volume) == opt_u64_result(field_lookup(fv, "ACC_TRDVOL"@)->Some_0)
    &&& Some(rec.trading_value) == opt_u64_result(field_lookup(fv, "ACC_TRDVAL"@)->Some_0)
    &&& Some(rec.market_cap) == opt_u64_result(field_lookup(fv, "MKTCAP"@)->Some_0)
    &&& Some(rec.listed_shares) == opt_u64_result(field_lookup(fv, "LIST_SHRS"@)->Some_0)
    &&& Some(rec.nav) == opt_dec_result(field_lookup(fv, "NAV"@)->Some_0)
    &&& Some(rec.index_indicator_name@) == field_lookup(fv, "IDX_IND_NM"@)
    &&& Some(rec.objective_stock_price_index) == opt_dec_result(field_lookup(fv, "OBJ_STKPRC_IDX"@)->Some_0)
    &&& Some(rec.index_change) == opt_dec_result(field_lookup(fv, "CMPPREVDD_IDX"@)->Some_0)
    &&& Some(rec.index_fluctuation_rate) == opt_dec_result(field_lookup(fv, "FLUC_RT_IDX"@)->Some_0)
    &&& Some(rec.investment_asset_net_total_amount) == opt_u64_result(field_lookup(fv, "INVSTASST_NETASST_TOTAMT"@)->Some_0)
}

/// Decodes one raw record of the endpoint.
pub fn decode_etf_daily(fields: &Vec<(String, String)>) -> (r: Result<EtfDailyRecord, String>)
    ensures
        r is Ok <==> etf_daily_fields_ok(fields.deep_view()),
        r matches Ok(rec) ==> etf_daily_matches(rec, fields.deep_view()),
{
    let base_date = match get_field(fields, "BAS_DD") {
        Some(s) => match deserialize_krx_date(s.as_str()) {
            Ok(v) => v,
            Err(e) => {
                return Err(e);
            },
        },
        None => {
            return Err(String::from_str("missing field BAS_DD"));
        },
    };
    let issue_code = match get_field(fields, "ISU_CD") {
        Some(s) => s.clone(),
        None => {
            return Err(String::from_str("missing field ISU_CD"));
        },
    };
    let issue_name = match get_field(fields, "ISU_NM") {
        Some(s) => s.clone(),
        None => {
            return Err(String::from_str("missing field ISU_NM"));
        },
    };
    let close_price = match get_field(fields, "TDD_CLSPRC") {
        Some(s) => match deserialize_optional_f64(s.as_str()) {
            Ok(v) => v,
            Err(e) => {
                return Err(e);
            },
        },
        None => {
            return Err(String::from_str("missing field TDD_CLSPRC"));
        },
    };
    let open_price = match get_field(fields, "TDD_OPNPRC") {
        Some(s) => match deserialize_optional_f64(s.as_str()) {
            Ok(v) => v,
            Err(e) => {
                return Err(e);
            },
        },
        None => {
            return Err(String::from_str("missing field TDD_OPNPRC"));
        },
    };
    let high_price = match get_field(fields, "TDD_HGPRC") {
        Some(s) => match deserialize_optional_f64(s.as_str()) {
            Ok(v) => v,
            Err(e) => {
                return Err(e);
            },
        },
        None => {
            return Err(String::from_str("missing field TDD_HGPRC"));
        },
    };
    let low_price = match get_field(fields, "TDD_LWPRC") {
        Some(s) => match deserialize_optional_f64(s.as_str()) {
            Ok(v) => v,
            Err(e) => {
                return Err(e);
            },
        },
        None => {
            return Err(String::from_str("missing field TDD_LWPRC"));
        },
    };
    let price_change = match get_field(fields, "CMPPREVDD_PRC") {
        Some(s) => match deserialize_optional_f64(s.as_str()) {
            Ok(v) => v,
            Err(e) => {
                return Err(e);
            },
        },
        None => {
            return Err(String::from_str("missing field CMPPREVDD_PRC"));
        },
    };
    let fluctuation_rate = match get_field(fields, "FLUC_RT") {
        Some(s) => match deserialize_optional_percentage(s.as_str()) {
            Ok(v) => v,
            Err(e) => {
                return Err(e);
            },
        },
        None => {
            return Err(String::from_str("missing field FLUC_RT"));
        },
    };
    let trading_volume = match get_field(fields, "ACC_TRDVOL") {
        Some(s) => match deserialize_optional_u64(s.as_str()) {
            Ok(v) => v,
            Err(e) => {
                return Err(e);
            },
        },
        None => {
            return Err(String::from_str("missing field ACC_TRDVOL"));
        },
    };
    let trading_value = match get_field(fields, "ACC_TRDVAL") {
        Some(s) => match deserialize_optional_u64(s.as_str()) {
            Ok(v) => v,
            Err(e) => {
                return Err(e);
            },
        },
        None => {
            return Err(String::from_str("missing field ACC_TRDVAL"));
        },
    };
    let market_cap = match get_field(fields, "MKTCAP") {
        Some(s) => match deserialize_optional_u64(s.as_str()) {
            Ok(v) => v,
            Err(e) => {
                return Err(e);
            },
        },
        None => {
            return Err(String::from_str("missing field MKTCAP"));
        },
    };
    let listed_shares = match get_field(fields, "LIST_SHRS") {
        Some(s) => match deserialize_optional_u64(s.as_str()) {
            Ok(v) => v,
            Err(e) => {
                return Err(e);
            },
        },
        None => {
            return Err(String::from_str("missing field LIST_SHRS"));
        },
    };
    let nav = match get_field(fields, "NAV") {
        Some(s) => match deserialize_optional_f64(s.as_str()) {
            Ok(v) => v,
            Err(e) => {
                return Err(e);
            },
        },
        None => {
            return Err(String::from_str("missing field NAV"));
        },
    };
    let index_indicator_name = match get_field(fields, "IDX_IND_NM") {
        Some(s) => s.clone(),
        None => {
            return Err(String::from_str("missing field IDX_IND_NM"));
        },
    };
    let objective_stock_price_index = match get_field(fields, "OBJ_STKPRC_IDX") {
        Some(s) => match deserialize_optional_f64(s.as_str()) {
            Ok(v) => v,
            Err(e) => {
                return Err(e);
            },
        },
        None => {
            return Err(String::from_str("missing field OBJ_STKPRC_IDX"));
        },
    };
    let index_change = match get_field(fields, "CMPPREVDD_IDX") {
        Some(s) => match deserialize_optional_f64(s.as_str()) {
            Ok(v) => v,
            Err(e) => {
                return Err(e);
            },
        },
        None => {
            return Err(String::from_str("missing field CMPPREVDD_IDX"));
        },
    };
    let index_fluctuation_rate = match get_field(fields, "FLUC_RT_IDX") {
        Some(s) => match deserialize_optional_f64(s.as_str()) {
            Ok(v) => v,
            Err(e) => {
                return Err(e);
            },
        },
        None => {
            return Err(String::from_str("missing field FLUC_RT_IDX"));
        },
    };
    let investment_asset_net_total_amount = match get_field(fields, "INVSTASST_NETASST_TOTAMT") {
        Some(s) => match deserialize_optional_u64(s.as_str()) {
            Ok(v) => v,
            Err(e) => {
                return Err(e);
            },
        },
        None => {
            return Err(String::from_str("missing field INVSTASST_NETASST_TOTAMT"));
        },
    };
    Ok(
        EtfDailyRecord {
            base_date,
            issue_code,
            issue_name,
            close_price,
            open_price,
            high_price,
            low_price,
            price_change,
            fluctuation_rate,
            trading_volume,
            trading_value,
            market_cap,
            listed_shares,
            nav,
            index_indicator_name,
            objective_stock_price_index,
            index_change,
            index_fluctuation_rate,
            investment_asset_net_total_amount,
        },
    )
}

/// Every raw record of the reply decodes.
pub open spec fn etf_daily_records_ok(rv: Seq<Seq<(Seq<char>, Seq<char>)>>) -> bool {
    forall|i: int| 0 <= i < rv.len() ==> etf_daily_fields_ok(#[trigger] rv[i])
}

/// Decodes every raw record of a reply, in order, failing on the first
/// record that does not decode.
pub fn decode_etf_daily_response(raw: &Vec<Vec<(String, String)>>) -> (r: Result<
    ApiResponse<EtfDailyRecord>,
    String,
>)
    ensures
        r is Ok <==> etf_daily_records_ok(raw.deep_view()),
        r matches Ok(resp) ==> resp.data@.len() == raw@.len() && (forall|i: int|
            0 <= i < resp.data@.len() ==> etf_daily_matches(
                #[trigger] resp.data@[i],
                raw.deep_view()[i],
            )),
{
    let ghost rv = raw.deep_view();
    let mut data: Vec<EtfDailyRecord> = Vec::new();
    let mut i: usize = 0;
    while i < raw.len()
        invariant
            rv == raw.deep_view(),
            rv.len() == raw@.len(),
            forall|k: int| 0 <= k < rv.len() ==> #[trigger] rv[k] == raw@[k].deep_view(),
            0 <= i <= raw@.len(),
            data@.len() == i,
            forall|k: int| 0 <= k < i ==> etf_daily_fields_ok(#[trigger] rv[k]),
            forall|k: int| 0 <= k < i ==> etf_daily_matches(#[trigger] data@[k], rv[k]),
        decreases raw@.len() - i,
    {
        match decode_etf_daily(&raw[i]) {
            Ok(rec) => {
                data.push(rec);
            },
            Err(e) => {
                proof {
                    assert(!etf_daily_fields_ok(rv[i as int]));
                }
                return Err(e);
            },
        }
        i += 1;
    }
    Ok(ApiResponse { data })
}

/// `t` is exactly the table of the records `rs`: 19 fixed columns, one
/// value per record in input order, and the empty table for no records.
pub open spec fn etf_daily_table_matches(t: Table, rs: Seq<EtfDailyRecord>) -> bool {
    &&& rs.len() == 0 ==> t.columns@.len() == 0
    &&& rs.len() > 0 ==> {
        &&& t.columns@.len() == 19
        &&& col_text(
            t.columns@[0],
            "날짜"@,
            Seq::new(rs.len(), |i: int| iso_of(rs[i].base_date)),
        )
        &&& col_text(
            t.columns@[1],
            "종목코드"@,
            Seq::new(rs.len(), |i: int| rs[i].issue_code@),
        )
        &&& col_text(
            t.columns@[2],
            "종목명"@,
            Seq::new(rs.len(), |i: int| rs[i].issue_name@),
        )
        &&& col_dec(
            t.columns@[3],
            "종가"@,
            Seq::new(rs.len(), |i: int| rs[i].close_price),
        )
        &&& col_dec(
            t.columns@[4],
            "시가"@,
            Seq::new(rs.len(), |i: int| rs[i].open_price),
        )
        &&& col_dec(
            t.columns@[5],
            "고가"@,
            Seq::new(rs.len(), |i: int| rs[i].high_price),
        )
        &&& col_dec(
            t.columns@[6],
            "저가"@,
            Seq::new(rs.len(), |i: int| rs[i].low_price),
        )
        &&& col_dec(
            t.columns@[7],
            "대비"@,
            Seq::new(rs.len(), |i: int| rs[i].price_change),
        )
        &&& col_dec(
            t.columns@[8],
            "등락률"@,
            Seq::new(rs.len(), |i: int| rs[i].fluctuation_rate),
        )
        &&& col_uint(
            t.columns@[9],
            "거래량"@,
            Seq::new(rs.len(), |i: int| rs[i].trading_volume),
        )
        &&& col_uint(
            t.columns@[10],
            "거래대금"@,
            Seq::new(rs.len(), |i: int| rs[i].trading_value),
        )
        &&& col_uint(
            t.columns@[11],
            "시가총액"@,
            Seq::new(rs.len(), |i: int| rs[i].market_cap),
        )
        &&& col_uint(
            t.columns@[12],
            "상장주식수"@,
            Seq::new(rs.len(), |i: int| rs[i].listed_shares),
        )
        &&& col_dec(
            t.columns@[13],
            "NAV"@,
            Seq::new(rs.len(), |i: int| rs[i].nav),
        )
        &&& col_text(
            t.columns@[14],
            "기초지수명"@,
            Seq::new(rs.len(), |i: int| rs[i].index_indicator_name@),
        )
        &&& col_dec(
            t.columns@[15],
            "목적지수"@,
            Seq::new(rs.len(), |i: int| rs[i].objective_stock_price_index),
        )
        &&& col_dec(
            t.columns@[16],
            "지수대비"@,
            Seq::new(rs.len(), |i: int| rs[i].index_change),
        )
        &&& col_dec(
            t.columns@[17],
            "지수등락률"@,
            Seq::new(rs.len(), |i: int| rs[i].index_fluctuation_rate),
        )
        &&& col_uint(
            t.columns@[18],
            "투자자산순자산총액"@,
            Seq::new(rs.len(), |i: int| rs[i].investment_asset_net_total_amount),
        )
    }
}

/// Flattens the typed records into their table; zero records give the
/// empty table of zero columns and zero rows.
pub fn parse_etf_daily(response: ApiResponse<EtfDailyRecord>) -> (r: Result<Table, Error>)
    ensures
        r is Ok,
        r matches Ok(t) ==> etf_daily_table_matches(t, response.data@),
{
    let records = response.data;
    if records.len() == 0 {
        return Ok(Table::empty());
    }
    let n = records.len();
    let mut c0: Vec<String> = Vec::new();
    let mut c1: Vec<String> = Vec::new();
    let mut c2: Vec<String> = Vec::new();
    let mut c3: Vec<Option<Decimal>> = Vec::new();
    let mut c4: Vec<Option<Decimal>> = Vec::new();
    let mut c5: Vec<Option<Decimal>> = Vec::new();
    let mut c6: Vec<Option<Decimal>> = Vec::new();
    let mut c7: Vec<Option<Decimal>> = Vec::new();
    let mut c8: Vec<Option<Decimal>> = Vec::new();
    let mut c9: Vec<Option<u64>> = Vec::new();
    let mut c10: Vec<Option<u64>> = Vec::new();
    let mut c11: Vec<Option<u64>> = Vec::new();
    let mut c12: Vec<Option<u64>> = Vec::new();
    let mut c13: Vec<Option<Decimal>> = Vec::new();
    let mut c14: Vec<String> = Vec::new();
    let mut c15: Vec<Option<Decimal>> = Vec::new();
    let mut c16: Vec<Option<Decimal>> = Vec::new();
    let mut c17: Vec<Option<Decimal>> = Vec::new();
    let mut c18: Vec<Option<u64>> = Vec::new();
    let mut i: usize = 0;
    while i < n
        invariant
            n == records@.len(),
            0 <= i <= n,
            c0@.len() == i && forall|k: int|
                0 <= k < i ==> (#[trigger] c0@[k])@ == iso_of(records@[k].base_date),
            c1@.len() == i && forall|k: int|
                0 <= k < i ==> (#[trigger] c1@[k])@ == records@[k].issue_code@,
            c2@.len() == i && forall|k: int|
                0 <= k < i ==> (#[trigger] c2@[k])@ == records@[k].issue_name@,
            c3@.len() == i && forall|k: int|
                0 <= k < i ==> #[trigger] c3@[k] == records@[k].close_price,
            c4@.len() == i && forall|k: int|
                0 <= k < i ==> #[trigger] c4@[k] == records@[k].open_price,
            c5@.len() == i && forall|k: int|
                0 <= k < i ==> #[trigger] c5@[k] == records@[k].high_price,
            c6@.len() == i && forall|k: int|
                0 <= k < i ==> #[trigger] c6@[k] == records@[k].low_price,
            c7@.len() == i && forall|k: int|
                0 <= k < i ==> #[trigger] c7@[k] == records@[k].price_change,
            c8@.len() == i && forall|k: int|
                0 <= k < i ==> #[trigger] c8@[k] == records@[k].fluctuation_rate,
            c9@.len() == i && forall|k: int|
                0 <= k < i ==> #[trigger] c9@[k] == records@[k].trading_volume,
            c10@.len() == i && forall|k: int|
                0 <= k < i ==> #[trigger] c10@[k] == records@[k].trading_value,
            c11@.len() == i && forall|k: int|
                0 <= k < i ==> #[trigger] c11@[k] == records@[k].market_cap,
            c12@.len() == i && forall|k: int|
                0 <= k < i ==> #[trigger] c12@[k] == records@[k].listed_shares,
            c13@.len() == i && forall|k: int|
                0 <= k < i ==> #[trigger] c13@[k] == records@[k].nav,
            c14@.len() == i && forall|k: int|
                0 <= k < i ==> (#[trigger] c14@[k])@ == records@[k].index_indicator_name@,
            c15@.len() == i && forall|k: int|
                0 <= k < i ==> #[trigger] c15@[k] == records@[k].objective_stock_price_index,
            c16@.len() == i && forall|k: int|
                0 <= k < i ==> #[trigger] c16@[k] == records@[k].index_change,
            c17@.len() == i && forall|k: int|
                0 <= k < i ==> #[trigger] c17@[k] == records@[k].index_fluctuation_rate,
            c18@.len() == i && forall|k: int|
                0 <= k < i ==> #[trigger] c18@[k] == records@[k].investment_asset_net_total_amount,
        decreases n - i,
    {
        let rec = &records[i];
        c0.push(rec.base_date.to_iso_string());
        c1.push(rec.issue_code.clone());
        c2.push(rec.issue_name.clone());
        c3.push(rec.close_price);
        c4.push(rec.open_price);
        c5.push(rec.high_price);
        c6.push(rec.low_price);
        c7.push(rec.price_change);
        c8.push(rec.fluctuation_rate);
        c9.push(rec.trading_volume);
        c10.push(rec.trading_value);
        c11.push(rec.market_cap);
        c12.push(rec.listed_shares);
        c13.push(rec.nav);
        c14.push(rec.index_indicator_name.clone());
        c15.push(rec.objective_stock_price_index);
        c16.push(rec.index_change);
        c17.push(rec.index_fluctuation_rate);
        c18.push(rec.investment_asset_net_total_amount);
        i += 1;
    }
    proof {
        let rs = records@;
        assert(c0.deep_view() =~= Seq::new(rs.len(), |i: int| iso_of(rs[i].base_date)));
        assert(c1.deep_view() =~= Seq::new(rs.len(), |i: int| rs[i].issue_code@));
        assert(c2.deep_view() =~= Seq::new(rs.len(), |i: int| rs[i].issue_name@));
        assert(c3@ =~= Seq::new(rs.len(), |i: int| rs[i].close_price));
        assert(c4@ =~= Seq::new(rs.len(), |i: int| rs[i].open_price));
        assert(c5@ =~= Seq::new(rs.len(), |i: int| rs[i].high_price));
        assert(c6@ =~= Seq::new(rs.len(), |i: int| rs[i].low_price));
        assert(c7@ =~= Seq::new(rs.len(), |i: int| rs[i].price_change));
        assert(c8@ =~= Seq::new(rs.len(), |i: int| rs[i].fluctuation_rate));
        assert(c9@ =~= Seq::new(rs.len(), |i: int| rs[i].trading_volume));
        assert(c10@ =~= Seq::new(rs.len(), |i: int| rs[i].trading_value));
        assert(c11@ =~= Seq::new(rs.len(), |i: int| rs[i].market_cap));
        assert(c12@ =~= Seq::new(rs.len(), |i: int| rs[i].listed_shares));
        assert(c13@ =~= Seq::new(rs.len(), |i: int| rs[i].nav));
        assert(c14.deep_view() =~= Seq::new(rs.len(), |i: int| rs[i].index_indicator_name@));
        assert(c15@ =~= Seq::new(rs.len(), |i: int| rs[i].objective_stock_price_index));
        assert(c16@ =~= Seq::new(rs.len(), |i: int| rs[i].index_change));
        assert(c17@ =~= Seq::new(rs.len(), |i: int| rs[i].index_fluctuation_rate));
        assert(c18@ =~= Seq::new(rs.len(), |i: int| rs[i].investment_asset_net_total_amount));
    }
    let mut columns: Vec<Column> = Vec::new();
    columns.push(
        Column { name: String::from_str("날짜"), data: ColumnData::Text(c0) },
    );
    columns.push(
        Column { name: String::from_str("종목코드"), data: ColumnData::Text(c1) },
    );
    columns.push(
        Column { name: String::from_str("종목명"), data: ColumnData::Text(c2) },
    );
    columns.push(
        Column { name: String::from_str("종가"), data: ColumnData::Dec(c3) },
    );
    columns.push(
        Column { name: String::from_str("시가"), data: ColumnData::Dec(c4) },
    );
    columns.push(
        Column { name: String::from_str("고가"), data: ColumnData::Dec(c5) },
    );
    columns.push(
        Column { name: String::from_str("저가"), data: ColumnData::Dec(c6) },
    );
    columns.push(
        Column { name: String::from_str("대비"), data: ColumnData::Dec(c7) },
    );
    columns.push(
        Column { name: String::from_str("등락률"), data: ColumnData::Dec(c8) },
    );
    columns.push(
        Column { name: String::from_str("거래량"), data: ColumnData::UInt(c9) },
    );
    columns.push(
        Column { name: String::from_str("거래대금"), data: ColumnData::UInt(c10) },
    );
    columns.push(
        Column { name: String::from_str("시가총액"), data: ColumnData::UInt(c11) },
    );
    columns.push(
        Column { name: String::from_str("상장주식수"), data: ColumnData::UInt(c12) },
    );
    columns.push(
        Column { name: String::from_str("NAV"), data: ColumnData::Dec(c13) },
    );
    columns.push(
        Column { name: String::from_str("기초지수명"), data: ColumnData::Text(c14) },
    );
    columns.push(
        Column { name: String::from_str("목적지수"), data: ColumnData::Dec(c15) },
    );
    columns.push(
        Column { name: String::from_str("지수대비"), data: ColumnData::Dec(c16) },
    );
    columns.push(
        Column { name: String::from_str("지수등락률"), data: ColumnData::Dec(c17) },
    );
    columns.push(
        Column { name: String::from_str("투자자산순자산총액"), data: ColumnData::UInt(c18) },
    );
    Ok(Table { columns })
}

/// `t` is the table some decoded record sequence of `body` flattens to.
pub open spec fn etf_daily_body_table(body: Seq<char>, t: Table) -> bool {
    exists|recs: Seq<EtfDailyRecord>|
        #![trigger etf_daily_table_matches(t, recs)]
        {
            &&& envelope_result(body) matches Some(rv)
            &&& recs.len() == rv.len()
            &&& (forall|i: int| 0 <= i < recs.len() ==> etf_daily_matches(#[trigger] recs[i], rv[i]))
            &&& etf_daily_table_matches(t, recs)
        }
}

/// The whole decode pipeline of a 2xx body for this endpoint: envelope,
/// records, table.  Every failure is a `Parsing` error carrying the body.
pub fn etf_daily_table_from_body(body: &str) -> (r: Result<Table, Error>)
    ensures
        r is Ok <==> (envelope_result(body@) matches Some(rv) && etf_daily_records_ok(rv)),
        r matches Ok(t) ==> etf_daily_body_table(body@, t),
        r matches Err(e) ==> (e matches Error::Parsing {
            details: _,
            source: _,
            response_body,
        } && response_body@ == body@),
{
    let raw = match parse_envelope(body) {
        Ok(v) => v,
        Err(e) => {
            return Err(e);
        },
    };
    let resp = match decode_etf_daily_response(&raw) {
        Ok(v) => v,
        Err(msg) => {
            return Err(
                Error::Parsing {
                    details: String::from_str("failed to decode a record of the reply"),
                    source: msg,
                    response_body: String::from_str(body),
                },
            );
        },
    };
    let ghost recs = resp.data@;
    match parse_etf_daily(resp) {
        Ok(t) => {
            proof {
                assert(etf_daily_table_matches(t, recs));
            }
            Ok(t)
        },
        Err(_) => vstd::pervasive::unreached(),
    }
}

/// One row of the ETN daily-trade endpoint.
#[derive(Debug)]
pub struct EtnDailyRecord {
    pub base_date: Date,
    pub issue_code: String,
    pub issue_name: String,
    pub close_price: Option<Decimal>,
    pub open_price: Option<Decimal>,
    pub high_price: Option<Decimal>,
    pub low_price: Option<Decimal>,
    pub price_change: Option<Decimal>,
    pub fluctuation_rate: Option<Decimal>,
    pub trading_volume: Option<u64>,
    pub trading_value: Option<u64>,
    pub market_cap: Option<u64>,
    pub listed_shares: Option<u64>,
    pub index_indicator_name: String,
    pub objective_stock_price_index: Option<Decimal>,
    pub index_change: Option<Decimal>,
    pub index_fluctuation_rate: Option<Decimal>,
    pub indicative_value_amount: Option<u64>,
    pub per_security_indicative_value: Option<Decimal>,
}

/// Every field of the record is present and coercible.
pub open spec fn etn_daily_fields_ok(fv: Seq<(Seq<char>, Seq<char>)>) -> bool {
    &&& field_lookup(fv, "BAS_DD"@) matches Some(s) && date_result(s) is Some
    &&& field_lookup(fv, "ISU_CD"@) is Some
    &&& field_lookup(fv, "ISU_NM"@) is Some
    &&& field_lookup(fv, "TDD_CLSPRC"@) matches Some(s) && opt_dec_result(s) is Some
    &&& field_lookup(fv, "TDD_OPNPRC"@) matches Some(s) && opt_dec_result(s) is Some
    &&& field_lookup(fv, "TDD_HGPRC"@) matches Some(s) && opt_dec_result(s) is Some
    &&& field_lookup(fv, "TDD_LWPRC"@) matches Some(s) && opt_dec_result(s) is Some
    &&& field_lookup(fv, "CMPPREVDD_PRC"@) matches Some(s) && opt_dec_result(s) is Some
    &&& field_lookup(fv, "FLUC_RT"@) matches Some(s) && opt_pct_result(s) is Some
    &&& field_lookup(fv, "ACC_TRDVOL"@) matches Some(s) && opt_u64_result(s) is Some
    &&& field_lookup(fv, "ACC_TRDVAL"@) matches Some(s) && opt_u64_result(s) is Some
    &&& field_lookup(fv, "MKTCAP"@) matches Some(s) && opt_u64_result(s) is Some
    &&& field_lookup(fv, "LIST_SHRS"@) matches Some(s) && opt_u64_result(s) is Some
    &&& field_lookup(fv, "IDX_IND_NM"@) is Some
    &&& field_lookup(fv, "OBJ_STKPRC_IDX"@) matches Some(s) && opt_dec_result(s) is Some
    &&& field_lookup(fv, "CMPPREVDD_IDX"@) matches Some(s) && opt_dec_result(s) is Some
    &&& field_lookup(fv, "FLUC_RT_IDX"@) matches Some(s) && opt_dec_result(s) is Some
    &&& field_lookup(fv, "INDIC_VAL_AMT"@) matches Some(s) && opt_u64_result(s) is Some
    &&& field_lookup(fv, "PER1SECU_INDIC_VAL"@) matches Some(s) && opt_dec_result(s) is Some
}

/// `rec` holds exactly the coerced fields of the raw record `fv`.
pub open spec fn etn_daily_matches(rec: EtnDailyRecord, fv: Seq<(Seq<char>, Seq<char>)>) -> bool {
    &&& Some(rec.base_date) == date_result(field_lookup(fv, "BAS_DD"@)->Some_0)
    &&& Some(rec.issue_code@) == field_lookup(fv, "ISU_CD"@)
    &&& Some(rec.issue_name@) == field_lookup(fv, "ISU_NM"@)
    &&& Some(rec.close_price) == opt_dec_result(field_lookup(fv, "TDD_CLSPRC"@)->Some_0)
    &&& Some(rec.open_price) == opt_dec_result(field_lookup(fv, "TDD_OPNPRC"@)->Some_0)
    &&& Some(rec.high_price) == opt_dec_result(field_lookup(fv, "TDD_HGPRC"@)->Some_0)
    &&& Some(rec.low_price) == opt_dec_result(field_lookup(fv, "TDD_LWPRC"@)->Some_0)
    &&& Some(rec.price_change) == opt_dec_result(field_lookup(fv, "CMPPREVDD_PRC"@)->Some_0)
    &&& Some(rec.fluctuation_rate) == opt_pct_result(field_lookup(fv, "FLUC_RT"@)->Some_0)
    &&& Some(rec.trading_volume) == opt_u64_result(field_lookup(fv, "ACC_TRDVOL"@)->Some_0)
    &&& Some(rec.trading_value) == opt_u64_result(field_lookup(fv, "ACC_TRDVAL"@)->Some_0)
    &&& Some(rec.market_cap) == opt_u64_result(field_lookup(fv, "MKTCAP"@)->Some_0)
    &&& Some(rec.listed_shares) == opt_u64_result(field_lookup(fv, "LIST_SHRS"@)->Some_0)
    &&& Some(rec.index_indicator_name@) == field_lookup(fv, "IDX_IND_NM"@)
    &&& Some(rec.objective_stock_price_index) == opt_dec_result(field_lookup(fv, "OBJ_STKPRC_IDX"@)->Some_0)
    &&& Some(rec.index_change) == opt_dec_result(field_lookup(fv, "CMPPREVDD_IDX"@)->Some_0)
    &&& Some(rec.index_fluctuation_rate) == opt_dec_result(field_lookup(fv, "FLUC_RT_IDX"@)->Some_0)
    &&& Some(rec.indicative_value_amount) == opt_u64_result(field_lookup(fv, "INDIC_VAL_AMT"@)->Some_0)
    &&& Some(rec.per_security_indicative_value) == opt_dec_result(field_lookup(fv, "PER1SECU_INDIC_VAL"@)->Some_0)
}

/// Decodes one raw record of the endpoint.
pub fn decode_etn_daily(fields: &Vec<(String, String)>) -> (r: Result<EtnDailyRecord, String>)
    ensures
        r is Ok <==> etn_daily_fields_ok(fields.deep_view()),
        r matches Ok(rec) ==> etn_daily_matches(rec, fields.deep_view()),
{
    let base_date = match get_field(fields, "BAS_DD") {
        Some(s) => match deserialize_krx_date(s.as_str()) {
            Ok(v) => v,
            Err(e) => {
                return Err(e);
            },
        },
        None => {
            return Err(String::from_str("missing field BAS_DD"));
        },
    };
    let issue_code = match get_field(fields, "ISU_CD") {
        Some(s) => s.clone(),
        None => {
            return Err(String::from_str("missing field ISU_CD"));
        },
    };
    let issue_name = match get_field(fields, "ISU_NM") {
        Some(s) => s.clone(),
        None => {
            return Err(String::from_str("missing field ISU_NM"));
        },
    };
    let close_price = match get_field(fields, "TDD_CLSPRC") {
        Some(s) => match deserialize_optional_f64(s.as_str()) {
            Ok(v) => v,
            Err(e) => {
                return Err(e);
            },
        },
        None => {
            return Err(String::from_str("missing field TDD_CLSPRC"));
        },
    };
    let open_price = match get_field(fields, "TDD_OPNPRC") {
        Some(s) => match deserialize_optional_f64(s.as_str()) {
            Ok(v) => v,
            Err(e) => {
                return Err(e);
            },
        },
        None => {
            return Err(String::from_str("missing field TDD_OPNPRC"));
        },
    };
    let high_price = match get_field(fields, "TDD_HGPRC") {
        Some(s) => match deserialize_optional_f64(s.as_str()) {
            Ok(v) => v,
            Err(e) => {
                return Err(e);
            },
        },
        None => {
            return Err(String::from_str("missing field TDD_HGPRC"));
        },
    };
    let low_price = match get_field(fields, "TDD_LWPRC") {
        Some(s) => match deserialize_optional_f64(s.as_str()) {
            Ok(v) => v,
            Err(e) => {
                return Err(e);
            },
        },
        None => {
            return Err(String::from_str("missing field TDD_LWPRC"));
        },
    };
    let price_change = match get_field(fields, "CMPPREVDD_PRC") {
        Some(s) => match deserialize_optional_f64(s.as_str()) {
            Ok(v) => v,
            Err(e) => {
                return Err(e);
            },
        },
        None => {
            return Err(String::from_str("missing field CMPPREVDD_PRC"));
        },
    };
    let fluctuation_rate = match get_field(fields, "FLUC_RT") {
        Some(s) => match deserialize_optional_percentage(s.as_str()) {
            Ok(v) => v,
            Err(e) => {
                return Err(e);
            },
        },
        None => {
            return Err(String::from_str("missing field FLUC_RT"));
        },
    };
    let trading_volume = match get_field(fields, "ACC_TRDVOL") {
        Some(s) => match deserialize_optional_u64(s.as_str()) {
            Ok(v) => v,
            Err(e) => {
                return Err(e);
            },
        },
        None => {
            return Err(String::from_str("missing field ACC_TRDVOL"));
        },
    };
    let trading_value = match get_field(fields, "ACC_TRDVAL") {
        Some(s) => match deserialize_optional_u64(s.as_str()) {
            Ok(v) => v,
            Err(e) => {
                return Err(e);
            },
        },
        None => {
            return Err(String::from_str("missing field ACC_TRDVAL"));
        },
    };
    let market_cap = match get_field(fields, "MKTCAP") {
        Some(s) => match deserialize_optional_u64(s.as_str()) {
            Ok(v) => v,
            Err(e) => {
                return Err(e);
            },
        },
        None => {
            return Err(String::from_str("missing field MKTCAP"));
        },
    };
    let listed_shares = match get_field(fields, "LIST_SHRS") {
        Some(s) => match deserialize_optional_u64(s.as_str()) {
            Ok(v) => v,
            Err(e) => {
                return Err(e);
            },
        },
        None => {
            return Err(String::from_str("missing field LIST_SHRS"));
        },
    };
    let index_indicator_name = match get_field(fields, "IDX_IND_NM") {
        Some(s) => s.clone(),
        None => {
            return Err(String::from_str("missing field IDX_IND_NM"));
        },
    };
    let objective_stock_price_index = match get_field(fields, "OBJ_STKPRC_IDX") {
        Some(s) => match deserialize_optional_f64(s.as_str()) {
            Ok(v) => v,
            Err(e) => {
                return Err(e);
            },
        },
        None => {
            return Err(String::from_str("missing field OBJ_STKPRC_IDX"));
        },
    };
    let index_change = match get_field(fields, "CMPPREVDD_IDX") {
        Some(s) => match deserialize_optional_f64(s.as_str()) {
            Ok(v) => v,
            Err(e) => {
                return Err(e);
            },
        },
        None => {
            return Err(String::from_str("missing field CMPPREVDD_IDX"));
        },
    };
    let index_fluctuation_rate = match get_field(fields, "FLUC_RT_IDX") {
        Some(s) => match deserialize_optional_f64(s.as_str()) {
            Ok(v) => v,
            Err(e) => {
                return Err(e);
            },
        },
        None => {
            return Err(String::from_str("missing field FLUC_RT_IDX"));
        },
    };
    let indicative_value_amount = match get_field(fields, "INDIC_VAL_AMT") {
        Some(s) => match deserialize_optional_u64(s.as_str()) {
            Ok(v) => v,
            Err(e) => {
                return Err(e);
            },
        },
        None => {
            return Err(String::from_str("missing field INDIC_VAL_AMT"));
        },
    };
    let per_security_indicative_value = match get_field(fields, "PER1SECU_INDIC_VAL") {
        Some(s) => match deserialize_optional_f64(s.as_str()) {
            Ok(v) => v,
            Err(e) => {
                return Err(e);
            },
        },
        None => {
            return Err(String::from_str("missing field PER1SECU_INDIC_VAL"));
        },
    };
    Ok(
        EtnDailyRecord {
            base_date,
            issue_code,
            issue_name,
            close_price,
            open_price,
            high_price,
            low_price,
            price_change,
            fluctuation_rate,
            trading_volume,
            trading_value,
            market_cap,
            listed_shares,
            index_indicator_name,
            objective_stock_price_index,
            index_change,
            index_fluctuation_rate,
            indicative_value_amount,
            per_security_indicative_value,
        },
    )
}

/// Every raw record of the reply decodes.
pub open spec fn etn_daily_records_ok(rv: Seq<Seq<(Seq<char>, Seq<char>)>>) -> bool {
    forall|i: int| 0 <= i < rv.len() ==> etn_daily_fields_ok(#[trigger] rv[i])
}

/// Decodes every raw record of a reply, in order, failing on the first
/// record that does not decode.
pub fn decode_etn_daily_response(raw: &Vec<Vec<(String, String)>>) -> (r: Result<
    ApiResponse<EtnDailyRecord>,
    String,
>)
    ensures
        r is Ok <==> etn_daily_records_ok(raw.deep_view()),
        r matches Ok(resp) ==> resp.data@.len() == raw@.len() && (forall|i: int|
            0 <= i < resp.data@.len() ==> etn_daily_matches(
                #[trigger] resp.data@[i],
                raw.deep_view()[i],
            )),
{
    let ghost rv = raw.deep_view();
    let mut data: Vec<EtnDailyRecord> = Vec::new();
    let mut i: usize = 0;
    while i < raw.len()
        invariant
            rv == raw.deep_view(),
            rv.len() == raw@.len(),
            forall|k: int| 0 <= k < rv.len() ==> #[trigger] rv[k] == raw@[k].deep_view(),
            0 <= i <= raw@.len(),
            data@.len() == i,
            forall|k: int| 0 <= k < i ==> etn_daily_fields_ok(#[trigger] rv[k]),
            forall|k: int| 0 <= k < i ==> etn_daily_matches(#[trigger] data@[k], rv[k]),
        decreases raw@.len() - i,
    {
        match decode_etn_daily(&raw[i]) {
            Ok(rec) => {
                data.push(rec);
            },
            Err(e) => {
                proof {
                    assert(!etn_daily_fields_ok(rv[i as int]));
                }
                return Err(e);
            },
        }
        i += 1;
    }
    Ok(ApiResponse { data })
}

/// `t` is exactly the table of the records `rs`: 19 fixed columns, one
/// value per record in input order, and the empty table for no records.
pub open spec fn etn_daily_table_matches(t: Table, rs: Seq<EtnDailyRecord>) -> bool {
    &&& rs.len() == 0 ==> t.columns@.len() == 0
    &&& rs.len() > 0 ==> {
        &&& t.columns@.len() == 19
        &&& col_text(
            t.columns@[0],
            "날짜"@,
            Seq::new(rs.len(), |i: int| iso_of(rs[i].base_date)),
        )
        &&& col_text(
            t.columns@[1],
            "종목코드"@,
            Seq::new(rs.len(), |i: int| rs[i].issue_code@),
        )
        &&& col_text(
            t.columns@[2],
            "종목명"@,
            Seq::new(rs.len(), |i: int| rs[i].issue_name@),
        )
        &&& col_dec(
            t.columns@[3],
            "종가"@,
            Seq::new(rs.len(), |i: int| rs[i].close_price),
        )
        &&& col_dec(
            t.columns@[4],
            "시가"@,
            Seq::new(rs.len(), |i: int| rs[i].open_price),
        )
        &&& col_dec(
            t.columns@[5],
            "고가"@,
            Seq::new(rs.len(), |i: int| rs[i].high_price),
        )
        &&& col_dec(
            t.columns@[6],
            "저가"@,
            Seq::new(rs.len(), |i: int| rs[i].low_price),
        )
        &&& col_dec(
            t.columns@[7],
            "대비"@,
            Seq::new(rs.len(), |i: int| rs[i].price_change),
        )
        &&& col_dec(
            t.columns@[8],
            "등락률"@,
            Seq::new(rs.len(), |i: int| rs[i].fluctuation_rate),
        )
        &&& col_uint(
            t.columns@[9],
            "거래량"@,
            Seq::new(rs.len(), |i: int| rs[i].trading_volume),
        )
        &&& col_uint(
            t.columns@[10],
            "거래대금"@,
            Seq::new(rs.len(), |i: int| rs[i].trading_value),
        )
        &&& col_uint(
            t.columns@[11],
            "시가총액"@,
            Seq::new(rs.len(), |i: int| rs[i].market_cap),
        )
        &&& col_uint(
            t.columns@[12],
            "상장주식수"@,
            Seq::new(rs.len(), |i: int| rs[i].listed_shares),
        )
        &&& col_text(
            t.columns@[13],
            "기초지수명"@,
            Seq::new(rs.len(), |i: int| rs[i].index_indicator_name@),
        )
        &&& col_dec(
            t.columns@[14],
            "목적지수"@,
            Seq::new(rs.len(), |i: int| rs[i].objective_stock_price_index),
        )
        &&& col_dec(
            t.columns@[15],
            "지수대비"@,
            Seq::new(rs.len(), |i: int| rs[i].index_change),
        )
        &&& col_dec(
            t.columns@[16],
            "지수등락률"@,
            Seq::new(rs.len(), |i: int| rs[i].index_fluctuation_rate),
        )
        &&& col_uint(
            t.columns@[17],
            "지시가격금액"@,
            Seq::new(rs.len(), |i: int| rs[i].indicative_value_amount),
        )
        &&& col_dec(
            t.columns@[18],
            "1증권당지시가격"@,
            Seq::new(rs.len(), |i: int| rs[i].per_security_indicative_value),
        )
    }
}

/// Flattens the typed records into their table; zero records give the
/// empty table of zero columns and zero rows.
pub fn parse_etn_daily(response: ApiResponse<EtnDailyRecord>) -> (r: Result<Table, Error>)
    ensures
        r is Ok,
        r matches Ok(t) ==> etn_daily_table_matches(t, response.data@),
{
    let records = response.data;
    if records.len() == 0 {
        return Ok(Table::empty());
    }
    let n = records.len();
    let mut c0: Vec<String> = Vec::new();
    let mut c1: Vec<String> = Vec::new();
    let mut c2: Vec<String> = Vec::new();
    let mut c3: Vec<Option<Decimal>> = Vec::new();
    let mut c4: Vec<Option<Decimal>> = Vec::new();
    let mut c5: Vec<Option<Decimal>> = Vec::new();
    let mut c6: Vec<Option<Decimal>> = Vec::new();
    let mut c7: Vec<Option<Decimal>> = Vec::new();
    let mut c8: Vec<Option<Decimal>> = Vec::new();
    let mut c9: Vec<Option<u64>> = Vec::new();
    let mut c10: Vec<Option<u64>> = Vec::new();
    let mut c11: Vec<Option<u64>> = Vec::new();
    let mut c12: Vec<Option<u64>> = Vec::new();
    let mut c13: Vec<String> = Vec::new();
    let mut c14: Vec<Option<Decimal>> = Vec::new();
    let mut c15: Vec<Option<Decimal>> = Vec::new();
    let mut c16: Vec<Option<Decimal>> = Vec::new();
    let mut c17: Vec<Option<u64>> = Vec::new();
    let mut c18: Vec<Option<Decimal>> = Vec::new();
    let mut i: usize = 0;
    while i < n
        invariant
            n == records@.len(),
            0 <= i <= n,
            c0@.len() == i && forall|k: int|
                0 <= k < i ==> (#[trigger] c0@[k])@ == iso_of(records@[k].base_date),
            c1@.len() == i && forall|k: int|
                0 <= k < i ==> (#[trigger] c1@[k])@ == records@[k].issue_code@,
            c2@.len() == i && forall|k: int|
                0 <= k < i ==> (#[trigger] c2@[k])@ == records@[k].issue_name@,
            c3@.len() == i && forall|k: int|
                0 <= k < i ==> #[trigger] c3@[k] == records@[k].close_price,
            c4@.len() == i && forall|k: int|
                0 <= k < i ==> #[trigger] c4@[k] == records@[k].open_price,
            c5@.len() == i && forall|k: int|
                0 <= k < i ==> #[trigger] c5@[k] == records@[k].high_price,
            c6@.len() == i && forall|k: int|
                0 <= k < i ==> #[trigger] c6@[k] == records@[k].low_price,
            c7@.len() == i && forall|k: int|
                0 <= k < i ==> #[trigger] c7@[k] == records@[k].price_change,
            c8@.len() == i && forall|k: int|
                0 <= k < i ==> #[trigger] c8@[k] == records@[k].fluctuation_rate,
            c9@.len() == i && forall|k: int|
                0 <= k < i ==> #[trigger] c9@[k] == records@[k].trading_volume,
            c10@.len() == i && forall|k: int|
                0 <= k < i ==> #[trigger] c10@[k] == records@[k].trading_value,
            c11@.len() == i && forall|k: int|
                0 <= k < i ==> #[trigger] c11@[k] == records@[k].market_cap,
            c12@.len() == i && forall|k: int|
                0 <= k < i ==> #[trigger] c12@[k] == records@[k].listed_shares,
            c13@.len() == i && forall|k: int|
                0 <= k < i ==> (#[trigger] c13@[k])@ == records@[k].index_indicator_name@,
            c14@.len() == i && forall|k: int|
                0 <= k < i ==> #[trigger] c14@[k] == records@[k].objective_stock_price_index,
            c15@.len() == i && forall|k: int|
                0 <= k < i ==> #[trigger] c15@[k] == records@[k].index_change,
            c16@.len() == i && forall|k: int|
                0 <= k < i ==> #[trigger] c16@[k] == records@[k].index_fluctuation_rate,
            c17@.len() == i && forall|k: int|
                0 <= k < i ==> #[trigger] c17@[k] == records@[k].indicative_value_amount,
            c18@.len() == i && forall|k: int|
                0 <= k < i ==> #[trigger] c18@[k] == records@[k].per_security_indicative_value,
        decreases n - i,
    {
        let rec = &records[i];
        c0.push(rec.base_date.to_iso_string());
        c1.push(rec.issue_code.clone());
        c2.push(rec.issue_name.clone());
        c3.push(rec.close_price);
        c4.push(rec.open_price);
        c5.push(rec.high_price);
        c6.push(rec.low_price);
        c7.push(rec.price_change);
        c8.push(rec.fluctuation_rate);
        c9.push(rec.trading_volume);
        c10.push(rec.trading_value);
        c11.push(rec.market_cap);
        c12.push(rec.listed_shares);
        c13.push(rec.index_indicator_name.clone());
        c14.push(rec.objective_stock_price_index);
        c15.push(rec.index_change);
        c16.push(rec.index_fluctuation_rate);
        c17.push(rec.indicative_value_amount);
        c18.push(rec.per_security_indicative_value);
        i += 1;
    }
    proof {
        let rs = records@;
        assert(c0.deep_view() =~= Seq::new(rs.len(), |i: int| iso_of(rs[i].base_date)));
        assert(c1.deep_view() =~= Seq::new(rs.len(), |i: int| rs[i].issue_code@));
        assert(c2.deep_view() =~= Seq::new(rs.len(), |i: int| rs[i].issue_name@));
        assert(c3@ =~= Seq::new(rs.len(), |i: int| rs[i].close_price));
        assert(c4@ =~= Seq::new(rs.len(), |i: int| rs[i].open_price));
        assert(c5@ =~= Seq::new(rs.len(), |i: int| rs[i].high_price));
        assert(c6@ =~= Seq::new(rs.len(), |i: int| rs[i].low_price));
        assert(c7@ =~= Seq::new(rs.len(), |i: int| rs[i].price_change));
        assert(c8@ =~= Seq::new(rs.len(), |i: int| rs[i].fluctuation_rate));
        assert(c9@ =~= Seq::new(rs.len(), |i: int| rs[i].trading_volume));
        assert(c10@ =~= Seq::new(rs.len(), |i: int| rs[i].trading_value));
        assert(c11@ =~= Seq::new(rs.len(), |i: int| rs[i].market_cap));
        assert(c12@ =~= Seq::new(rs.len(), |i: int| rs[i].listed_shares));
        assert(c13.deep_view() =~= Seq::new(rs.len(), |i: int| rs[i].index_indicator_name@));
        assert(c14@ =~= Seq::new(rs.len(), |i: int| rs[i].objective_stock_price_index));
        assert(c15@ =~= Seq::new(rs.len(), |i: int| rs[i].index_change));
        assert(c16@ =~= Seq::new(rs.len(), |i: int| rs[i].index_fluctuation_rate));
        assert(c17@ =~= Seq::new(rs.len(), |i: int| rs[i].indicative_value_amount));
        assert(c18@ =~= Seq::new(rs.len(), |i: int| rs[i].per_security_indicative_value));
    }
    let mut columns: Vec<Column> = Vec::new();
    columns.push(
        Column { name: String::from_str("날짜"), data: ColumnData::Text(c0) },
    );
    columns.push(
        Column { name: String::from_str("종목코드"), data: ColumnData::Text(c1) },
    );
    columns.push(
        Column { name: String::from_str("종목명"), data: ColumnData::Text(c2) },
    );
    columns.push(
        Column { name: String::from_str("종가"), data: ColumnData::Dec(c3) },
    );
    columns.push(
        Column { name: String::from_str("시가"), data: ColumnData::Dec(c4) },
    );
    columns.push(
        Column { name: String::from_str("고가"), data: ColumnData::Dec(c5) },
    );
    columns.push(
        Column { name: String::from_str("저가"), data: ColumnData::Dec(c6) },
    );
    columns.push(
        Column { name: String::from_str("대비"), data: ColumnData::Dec(c7) },
    );
    columns.push(
        Column { name: String::from_str("등락률"), data: ColumnData::Dec(c8) },
    );
    columns.push(
        Column { name: String::from_str("거래량"), data: ColumnData::UInt(c9) },
    );
    columns.push(
        Column { name: String::from_str("거래대금"), data: ColumnData::UInt(c10) },
    );
    columns.push(
        Column { name: String::from_str("시가총액"), data: ColumnData::UInt(c11) },
    );
    columns.push(
        Column { name: String::from_str("상장주식수"), data: ColumnData::UInt(c12) },
    );
    columns.push(
        Column { name: String::from_str("기초지수명"), data: ColumnData::Text(c13) },
    );
    columns.push(
        Column { name: String::from_str("목적지수"), data: ColumnData::Dec(c14) },
    );
    columns.push(
        Column { name: String::from_str("지수대비"), data: ColumnData::Dec(c15) },
    );
    columns.push(
        Column { name: String::from_str("지수등락률"), data: ColumnData::Dec(c16) },
    );
    columns.push(
        Column { name: String::from_str("지시가격금액"), data: ColumnData::UInt(c17) },
    );
    columns.push(
        Column { name: String::from_str("1증권당지시가격"), data: ColumnData::Dec(c18) },
    );
    Ok(Table { columns })
}

/// `t` is the table some decoded record sequence of `body` flattens to.
pub open spec fn etn_daily_body_table(body: Seq<char>, t: Table) -> bool {
    exists|recs: Seq<EtnDailyRecord>|
        #![trigger etn_daily_table_matches(t, recs)]
        {
            &&& envelope_result(body) matches Some(rv)
            &&& recs.len() == rv.len()
            &&& (forall|i: int| 0 <= i < recs.len() ==> etn_daily_matches(#[trigger] recs[i], rv[i]))
            &&& etn_daily_table_matches(t, recs)
        }
}

/// The whole decode pipeline of a 2xx body for this endpoint: envelope,
/// records, table.  Every failure is a `Parsing` error carrying the body.
pub fn etn_daily_table_from_body(body: &str) -> (r: Result<Table, Error>)
    ensures
        r is Ok <==> (envelope_result(body@) matches Some(rv) && etn_daily_records_ok(rv)),
        r matches Ok(t) ==> etn_daily_body_table(body@, t),
        r matches Err(e) ==> (e matches Error::Parsing {
            details: _,
            source: _,
            response_body,
        } && response_body@ == body@),
{
    let raw = match parse_envelope(body) {
        Ok(v) => v,
        Err(e) => {
            return Err(e);
        },
    };
    let resp = match decode_etn_daily_response(&raw) {
        Ok(v) => v,
        Err(msg) => {
            return Err(
                Error::Parsing {
                    details: String::from_str("failed to decode a record of the reply"),
                    source: msg,
                    response_body: String::from_str(body),
                },
            );
        },
    };
    let ghost recs = resp.data@;
    match parse_etn_daily(resp) {
        Ok(t) => {
            proof {
                assert(etn_daily_table_matches(t, recs));
            }
            Ok(t)
        },
        Err(_) => vstd::pervasive::unreached(),
    }
}

/// One row of the ELW daily-trade endpoint.  Its underlying price
/// arrives as opaque text and stays text.
#[derive(Debug)]
pub struct ElwDailyRecord {
    pub base_date: Date,
    pub issue_code: String,
    pub issue_name: String,
    pub close_price: Option<Decimal>,
    pub open_price: Option<Decimal>,
    pub high_price: Option<Decimal>,
    pub low_price: Option<Decimal>,
    pub price_change: Option<Decimal>,
    pub trading_volume: Option<u64>,
    pub trading_value: Option<u64>,
    pub market_cap: Option<u64>,
    pub listed_shares: Option<u64>,
    pub underlying_name: String,
    pub underlying_price: String,
    pub underlying_price_change: Option<Decimal>,
    pub underlying_fluctuation_rate: Option<Decimal>,
}

/// Every field of the record is present and coercible.
pub open spec fn elw_daily_fields_ok(fv: Seq<(Seq<char>, Seq<char>)>) -> bool {
    &&& field_lookup(fv, "BAS_DD"@) matches Some(s) && date_result(s) is Some
    &&& field_lookup(fv, "ISU_CD"@) is Some
    &&& field_lookup(fv, "ISU_NM"@) is Some
    &&& field_lookup(fv, "TDD_CLSPRC"@) matches Some(s) && opt_dec_result(s) is Some
    &&& field_lookup(fv, "TDD_OPNPRC"@) matches Some(s) && opt_dec_result(s) is Some
    &&& field_lookup(fv, "TDD_HGPRC"@) matches Some(s) && opt_dec_result(s) is Some
    &&& field_lookup(fv, "TDD_LWPRC"@) matches Some(s) && opt_dec_result(s) is Some
    &&& field_lookup(fv, "CMPPREVDD_PRC"@) matches Some(s) && opt_dec_result(s) is Some
    &&& field_lookup(fv, "ACC_TRDVOL"@) matches Some(s) && opt_u64_result(s) is Some
    &&& field_lookup(fv, "ACC_TRDVAL"@) matches Some(s) && opt_u64_result(s) is Some
    &&& field_lookup(fv, "MKTCAP"@) matches Some(s) && opt_u64_result(s) is Some
    &&& field_lookup(fv, "LIST_SHRS"@) matches Some(s) && opt_u64_result(s) is Some
    &&& field_lookup(fv, "ULY_NM"@) is Some
    &&& field_lookup(fv, "ULY_PRC"@) is Some
    &&& field_lookup(fv, "CMPPREVDD_PRC_ULY"@) matches Some(s) && opt_dec_result(s) is Some
    &&& field_lookup(fv, "FLUC_RT_ULY"@) matches Some(s) && opt_pct_result(s) is Some
}

/// `rec` holds exactly the coerced fields of the raw record `fv`.
pub open spec fn elw_daily_matches(rec: ElwDailyRecord, fv: Seq<(Seq<char>, Seq<char>)>) -> bool {
    &&& Some(rec.base_date) == date_result(field_lookup(fv, "BAS_DD"@)->Some_0)
    &&& Some(rec.issue_code@) == field_lookup(fv, "ISU_CD"@)
    &&& Some(rec.issue_name@) == field_lookup(fv, "ISU_NM"@)
    &&& Some(rec.close_price) == opt_dec_result(field_lookup(fv, "TDD_CLSPRC"@)->Some_0)
    &&& Some(rec.open_price) == opt_dec_result(field_lookup(fv, "TDD_OPNPRC"@)->Some_0)
    &&& Some(rec.high_price) == opt_dec_result(field_lookup(fv, "TDD_HGPRC"@)->Some_0)
    &&& Some(rec.low_price) == opt_dec_result(field_lookup(fv, "TDD_LWPRC"@)->Some_0)
    &&& Some(rec.price_change) == opt_dec_result(field_lookup(fv, "CMPPREVDD_PRC"@)->Some_0)
    &&& Some(rec.trading_volume) == opt_u64_result(field_lookup(fv, "ACC_TRDVOL"@)->Some_0)
    &&& Some(rec.trading_value) == opt_u64_result(field_lookup(fv, "ACC_TRDVAL"@)->Some_0)
    &&& Some(rec.market_cap) == opt_u64_result(field_lookup(fv, "MKTCAP"@)->Some_0)
    &&& Some(rec.listed_shares) == opt_u64_result(field_lookup(fv, "LIST_SHRS"@)->Some_0)
    &&& Some(rec.underlying_name@) == field_lookup(fv, "ULY_NM"@)
    &&& Some(rec.underlying_price@) == field_lookup(fv, "ULY_PRC"@)
    &&& Some(rec.underlying_price_change) == opt_dec_result(field_lookup(fv, "CMPPREVDD_PRC_ULY"@)->Some_0)
    &&& Some(rec.underlying_fluctuation_rate) == opt_pct_result(field_lookup(fv, "FLUC_RT_ULY"@)->Some_0)
}

/// Decodes one raw record of the endpoint.
pub fn decode_elw_daily(fields: &Vec<(String, String)>) -> (r: Result<ElwDailyRecord, String>)
    ensures
        r is Ok <==> elw_daily_fields_ok(fields.deep_view()),
        r matches Ok(rec) ==> elw_daily_matches(rec, fields.deep_view()),
{
    let base_date = match get_field(fields, "BAS_DD") {
        Some(s) => match deserialize_krx_date(s.as_str()) {
            Ok(v) => v,
            Err(e) => {
                return Err(e);
            },
        },
        None => {
            return Err(String::from_str("missing field BAS_DD"));
        },
    };
    let issue_code = match get_field(fields, "ISU_CD") {
        Some(s) => s.clone(),
        None => {
            return Err(String::from_str("missing field ISU_CD"));
        },
    };
    let issue_name = match get_field(fields, "ISU_NM") {
        Some(s) => s.clone(),
        None => {
            return Err(String::from_str("missing field ISU_NM"));
        },
    };
    let close_price = match get_field(fields, "TDD_CLSPRC") {
        Some(s) => match deserialize_optional_f64(s.as_str()) {
            Ok(v) => v,
            Err(e) => {
                return Err(e);
            },
        },
        None => {
            return Err(String::from_str("missing field TDD_CLSPRC"));
        },
    };
    let open_price = match get_field(fields, "TDD_OPNPRC") {
        Some(s) => match deserialize_optional_f64(s.as_str()) {
            Ok(v) => v,
            Err(e) => {
                return Err(e);
            },
        },
        None => {
            return Err(String::from_str("missing field TDD_OPNPRC"));
        },
    };
    let high_price = match get_field(fields, "TDD_HGPRC") {
        Some(s) => match deserialize_optional_f64(s.as_str()) {
            Ok(v) => v,
            Err(e) => {
                return Err(e);
            },
        },
        None => {
            return Err(String::from_str("missing field TDD_HGPRC"));
        },
    };
    let low_price = match get_field(fields, "TDD_LWPRC") {
        Some(s) => match deserialize_optional_f64(s.as_str()) {
            Ok(v) => v,
            Err(e) => {
                return Err(e);
            },
        },
        None => {
            return Err(String::from_str("missing field TDD_LWPRC"));
        },
    };
    let price_change = match get_field(fields, "CMPPREVDD_PRC") {
        Some(s) => match deserialize_optional_f64(s.as_str()) {
            Ok(v) => v,
            Err(e) => {
                return Err(e);
            },
        },
        None => {
            return Err(String::from_str("missing field CMPPREVDD_PRC"));
        },
    };
    let trading_volume = match get_field(fields, "ACC_TRDVOL") {
        Some(s) => match deserialize_optional_u64(s.as_str()) {
            Ok(v) => v,
            Err(e) => {
                return Err(e);
            },
        },
        None => {
            return Err(String::from_str("missing field ACC_TRDVOL"));
        },
    };
    let trading_value = match get_field(fields, "ACC_TRDVAL") {
        Some(s) => match deserialize_optional_u64(s.as_str()) {
            Ok(v) => v,
            Err(e) => {
                return Err(e);
            },
        },
        None => {
            return Err(String::from_str("missing field ACC_TRDVAL"));
        },
    };
    let market_cap = match get_field(fields, "MKTCAP") {
        Some(s) => match deserialize_optional_u64(s.as_str()) {
            Ok(v) => v,
            Err(e) => {
                return Err(e);
            },
        },
        None => {
            return Err(String::from_str("missing field MKTCAP"));
        },
    };
    let listed_shares = match get_field(fields, "LIST_SHRS") {
        Some(s) => match deserialize_optional_u64(s.as_str()) {
            Ok(v) => v,
            Err(e) => {
                return Err(e);
            },
        },
        None => {
            return Err(String::from_str("missing field LIST_SHRS"));
        },
    };
    let underlying_name = match get_field(fields, "ULY_NM") {
        Some(s) => s.clone(),
        None => {
            return Err(String::from_str("missing field ULY_NM"));
        },
    };
    let underlying_price = match get_field(fields, "ULY_PRC") {
        Some(s) => s.clone(),
        None => {
            return Err(String::from_str("missing field ULY_PRC"));
        },
    };
    let underlying_price_change = match get_field(fields, "CMPPREVDD_PRC_ULY") {
        Some(s) => match deserialize_optional_f64(s.as_str()) {
            Ok(v) => v,
            Err(e) => {
                return Err(e);
            },
        },
        None => {
            return Err(String::from_str("missing field CMPPREVDD_PRC_ULY"));
        },
    };
    let underlying_fluctuation_rate = match get_field(fields, "FLUC_RT_ULY") {
        Some(s) => match deserialize_optional_percentage(s.as_str()) {
            Ok(v) => v,
            Err(e) => {
                return Err(e);
            },
        },
        None => {
            return Err(String::from_str("missing field FLUC_RT_ULY"));
        },
    };
    Ok(
        ElwDailyRecord {
            base_date,
            issue_code,
            issue_name,
            close_price,
            open_price,
            high_price,
            low_price,
            price_change,
            trading_volume,
            trading_value,
            market_cap,
            listed_shares,
            underlying_name,
            underlying_price,
            underlying_price_change,
            underlying_fluctuation_rate,
        },
    )
}

/// Every raw record of the reply decodes.
pub open spec fn elw_daily_records_ok(rv: Seq<Seq<(Seq<char>, Seq<char>)>>) -> bool {
    forall|i: int| 0 <= i < rv.len() ==> elw_daily_fields_ok(#[trigger] rv[i])
}

/// Decodes every raw record of a reply, in order, failing on the first
/// record that does not decode.
pub fn decode_elw_daily_response(raw: &Vec<Vec<(String, String)>>) -> (r: Result<
    ApiResponse<ElwDailyRecord>,
    String,
>)
    ensures
        r is Ok <==> elw_daily_records_ok(raw.deep_view()),
        r matches Ok(resp) ==> resp.data@.len() == raw@.len() && (forall|i: int|
            0 <= i < resp.data@.len() ==> elw_daily_matches(
                #[trigger] resp.data@[i],
                raw.deep_view()[i],
            )),
{
    let ghost rv = raw.deep_view();
    let mut data: Vec<ElwDailyRecord> = Vec::new();
    let mut i: usize = 0;
    while i < raw.len()
        invariant
            rv == raw.deep_view(),
            rv.len() == raw@.len(),
            forall|k: int| 0 <= k < rv.len() ==> #[trigger] rv[k] == raw@[k].deep_view(),
            0 <= i <= raw@.len(),
            data@.len() == i,
            forall|k: int| 0 <= k < i ==> elw_daily_fields_ok(#[trigger] rv[k]),
            forall|k: int| 0 <= k < i ==> elw_daily_matches(#[trigger] data@[k], rv[k]),
        decreases raw@.len() - i,
    {
        match decode_elw_daily(&raw[i]) {
            Ok(rec) => {
                data.push(rec);
            },
            Err(e) => {
                proof {
                    assert(!elw_daily_fields_ok(rv[i as int]));
                }
                return Err(e);
            },
        }
        i += 1;
    }
    Ok(ApiResponse { data })
}

/// `t` is exactly the table of the records `rs`: 16 fixed columns, one
/// value per record in input order, and the empty table for no records.
pub open spec fn elw_daily_table_matches(t: Table, rs: Seq<ElwDailyRecord>) -> bool {
    &&& rs.len() == 0 ==> t.columns@.len() == 0
    &&& rs.len() > 0 ==> {
        &&& t.columns@.len() == 16
        &&& col_text(
            t.columns@[0],
            "날짜"@,
            Seq::new(rs.len(), |i: int| iso_of(rs[i].base_date)),
        )
        &&& col_text(
            t.columns@[1],
            "종목코드"@,
            Seq::new(rs.len(), |i: int| rs[i].issue_code@),
        )
        &&& col_text(
            t.columns@[2],
            "종목명"@,
            Seq::new(rs.len(), |i: int| rs[i].issue_name@),
        )
        &&& col_dec(
            t.columns@[3],
            "종가"@,
            Seq::new(rs.len(), |i: int| rs[i].close_price),
        )
        &&& col_dec(
            t.columns@[4],
            "시가"@,
            Seq::new(rs.len(), |i: int| rs[i].open_price),
        )
        &&& col_dec(
            t.columns@[5],
            "고가"@,
            Seq::new(rs.len(), |i: int| rs[i].high_price),
        )
        &&& col_dec(
            t.columns@[6],
            "저가"@,
            Seq::new(rs.len(), |i: int| rs[i].low_price),
        )
        &&& col_dec(
            t.columns@[7],
            "대비"@,
            Seq::new(rs.len(), |i: int| rs[i].price_change),
        )
        &&& col_uint(
            t.columns@[8],
            "거래량"@,
            Seq::new(rs.len(), |i: int| rs[i].trading_volume),
        )
        &&& col_uint(
            t.columns@[9],
            "거래대금"@,
            Seq::new(rs.len(), |i: int| rs[i].trading_value),
        )
        &&& col_uint(
            t.columns@[10],
            "시가총액"@,
            Seq::new(rs.len(), |i: int| rs[i].market_cap),
        )
        &&& col_uint(
            t.columns@[11],
            "상장주식수"@,
            Seq::new(rs.len(), |i: int| rs[i].listed_shares),
        )
        &&& col_text(
            t.columns@[12],
            "기초자산명"@,
            Seq::new(rs.len(), |i: int| rs[i].underlying_name@),
        )
        &&& col_text(
            t.columns@[13],
            "기초자산가격"@,
            Seq::new(rs.len(), |i: int| rs[i].underlying_price@),
        )
        &&& col_dec(
            t.columns@[14],
            "기초자산대비"@,
            Seq::new(rs.len(), |i: int| rs[i].underlying_price_change),
        )
        &&& col_dec(
            t.columns@[15],
            "기초자산등락률"@,
            Seq::new(rs.len(), |i: int| rs[i].underlying_fluctuation_rate),
        )
    }
}

/// Flattens the typed records into their table; zero records give the
/// empty table of zero columns and zero rows.
pub fn parse_elw_daily(response: ApiResponse<ElwDailyRecord>) -> (r: Result<Table, Error>)
    ensures
        r is Ok,
        r matches Ok(t) ==> elw_daily_table_matches(t, response.data@),
{
    let records = response.data;
    if records.len() == 0 {
        return Ok(Table::empty());
    }
    let n = records.len();
    let mut c0: Vec<String> = Vec::new();
    let mut c1: Vec<String> = Vec::new();
    let mut c2: Vec<String> = Vec::new();
    let mut c3: Vec<Option<Decimal>> = Vec::new();
    let mut c4: Vec<Option<Decimal>> = Vec::new();
    let mut c5: Vec<Option<Decimal>> = Vec::new();
    let mut c6: Vec<Option<Decimal>> = Vec::new();
    let mut c7: Vec<Option<Decimal>> = Vec::new();
    let mut c8: Vec<Option<u64>> = Vec::new();
    let mut c9: Vec<Option<u64>> = Vec::new();
    let mut c10: Vec<Option<u64>> = Vec::new();
    let mut c11: Vec<Option<u64>> = Vec::new();
    let mut c12: Vec<String> = Vec::new();
    let mut c13: Vec<String> = Vec::new();
    let mut c14: Vec<Option<Decimal>> = Vec::new();
    let mut c15: Vec<Option<Decimal>> = Vec::new();
    let mut i: usize = 0;
    while i < n
        invariant
            n == records@.len(),
            0 <= i <= n,
            c0@.len() == i && forall|k: int|
                0 <= k < i ==> (#[trigger] c0@[k])@ == iso_of(records@[k].base_date),
            c1@.len() == i && forall|k: int|
                0 <= k < i ==> (#[trigger] c1@[k])@ == records@[k].issue_code@,
            c2@.len() == i && forall|k: int|
                0 <= k < i ==> (#[trigger] c2@[k])@ == records@[k].issue_name@,
            c3@.len() == i && forall|k: int|
                0 <= k < i ==> #[trigger] c3@[k] == records@[k].close_price,
            c4@.len() == i && forall|k: int|
                0 <= k < i ==> #[trigger] c4@[k] == records@[k].open_price,
            c5@.len() == i && forall|k: int|
                0 <= k < i ==> #[trigger] c5@[k] == records@[k].high_price,
            c6@.len() == i && forall|k: int|
                0 <= k < i ==> #[trigger] c6@[k] == records@[k].low_price,
            c7@.len() == i && forall|k: int|
                0 <= k < i ==> #[trigger] c7@[k] == records@[k].price_change,
            c8@.len() == i && forall|k: int|
                0 <= k < i ==> #[trigger] c8@[k] == records@[k].trading_volume,
            c9@.len() == i && forall|k: int|
                0 <= k < i ==> #[trigger] c9@[k] == records@[k].trading_value,
            c10@.len() == i && forall|k: int|
                0 <= k < i ==> #[trigger] c10@[k] == records@[k].market_cap,
            c11@.len() == i && forall|k: int|
                0 <= k < i ==> #[trigger] c11@[k] == records@[k].listed_shares,
            c12@.len() == i && forall|k: int|
                0 <= k < i ==> (#[trigger] c12@[k])@ == records@[k].underlying_name@,
            c13@.len() == i && forall|k: int|
                0 <= k < i ==> (#[trigger] c13@[k])@ == records@[k].underlying_price@,
            c14@.len() == i && forall|k: int|
                0 <= k < i ==> #[trigger] c14@[k] == records@[k].underlying_price_change,
            c15@.len() == i && forall|k: int|
                0 <= k < i ==> #[trigger] c15@[k] == records@[k].underlying_fluctuation_rate,
        decreases n - i,
    {
        let rec = &records[i];
        c0.push(rec.base_date.to_iso_string());
        c1.push(rec.issue_code.clone());
        c2.push(rec.issue_name.clone());
        c3.push(rec.close_price);
        c4.push(rec.open_price);
        c5.push(rec.high_price);
        c6.push(rec.low_price);
        c7.push(rec.price_change);
        c8.push(rec.trading_volume);
        c9.push(rec.trading_value);
        c10.push(rec.market_cap);
        c11.push(rec.listed_shares);
        c12.push(rec.underlying_name.clone());
        c13.push(rec.underlying_price.clone());
        c14.push(rec.underlying_price_change);
        c15.push(rec.underlying_fluctuation_rate);
        i += 1;
    }
    proof {
        let rs = records@;
        assert(c0.deep_view() =~= Seq::new(rs.len(), |i: int| iso_of(rs[i].base_date)));
        assert(c1.deep_view() =~= Seq::new(rs.len(), |i: int| rs[i].issue_code@));
        assert(c2.deep_view() =~= Seq::new(rs.len(), |i: int| rs[i].issue_name@));
        assert(c3@ =~= Seq::new(rs.len(), |i: int| rs[i].close_price));
        assert(c4@ =~= Seq::new(rs.len(), |i: int| rs[i].open_price));
        assert(c5@ =~= Seq::new(rs.len(), |i: int| rs[i].high_price));
        assert(c6@ =~= Seq::new(rs.len(), |i: int| rs[i].low_price));
        assert(c7@ =~= Seq::new(rs.len(), |i: int| rs[i].price_change));
        assert(c8@ =~= Seq::new(rs.len(), |i: int| rs[i].trading_volume));
        assert(c9@ =~= Seq::new(rs.len(), |i: int| rs[i].trading_value));
        assert(c10@ =~= Seq::new(rs.len(), |i: int| rs[i].market_cap));
        assert(c11@ =~= Seq::new(rs.len(), |i: int| rs[i].listed_shares));
        assert(c12.deep_view() =~= Seq::new(rs.len(), |i: int| rs[i].underlying_name@));
        assert(c13.deep_view() =~= Seq::new(rs.len(), |i: int| rs[i].underlying_price@));
        assert(c14@ =~= Seq::new(rs.len(), |i: int| rs[i].underlying_price_change));
        assert(c15@ =~= Seq::new(rs.len(), |i: int| rs[i].underlying_fluctuation_rate));
    }
    let mut columns: Vec<Column> = Vec::new();
    columns.push(
        Column { name: String::from_str("날짜"), data: ColumnData::Text(c0) },
    );
    columns.push(
        Column { name: String::from_str("종목코드"), data: ColumnData::Text(c1) },
    );
    columns.push(
        Column { name: String::from_str("종목명"), data: ColumnData::Text(c2) },
    );
    columns.push(
        Column { name: String::from_str("종가"), data: ColumnData::Dec(c3) },
    );
    columns.push(
        Column { name: String::from_str("시가"), data: ColumnData::Dec(c4) },
    );
    columns.push(
        Column { name: String::from_str("고가"), data: ColumnData::Dec(c5) },
    );
    columns.push(
        Column { name: String::from_str("저가"), data: ColumnData::Dec(c6) },
    );
    columns.push(
        Column { name: String::from_str("대비"), data: ColumnData::Dec(c7) },
    );
    columns.push(
        Column { name: String::from_str("거래량"), data: ColumnData::UInt(c8) },
    );
    columns.push(
        Column { name: String::from_str("거래대금"), data: ColumnData::UInt(c9) },
    );
    columns.push(
        Column { name: String::from_str("시가총액"), data: ColumnData::UInt(c10) },
    );
    columns.push(
        Column { name: String::from_str("상장주식수"), data: ColumnData::UInt(c11) },
    );
    columns.push(
        Column { name: String::from_str("기초자산명"), data: ColumnData::Text(c12) },
    );
    columns.push(
        Column { name: String::from_str("기초자산가격"), data: ColumnData::Text(c13) },
    );
    columns.push(
        Column { name: String::from_str("기초자산대비"), data: ColumnData::Dec(c14) },
    );
    columns.push(
        Column { name: String::from_str("기초자산등락률"), data: ColumnData::Dec(c15) },
    );
    Ok(Table { columns })
}

/// `t` is the table some decoded record sequence of `body` flattens to.
pub open spec fn elw_daily_body_table(body: Seq<char>, t: Table) -> bool {
    exists|recs: Seq<ElwDailyRecord>|
        #![trigger elw_daily_table_matches(t, recs)]
        {
            &&& envelope_result(body) matches Some(rv)
            &&& recs.len() == rv.len()
            &&& (forall|i: int| 0 <= i < recs.len() ==> elw_daily_matches(#[trigger] recs[i], rv[i]))
            &&& elw_daily_table_matches(t, recs)
        }
}

/// The whole decode pipeline of a 2xx body for this endpoint: envelope,
/// records, table.  Every failure is a `Parsing` error carrying the body.
pub fn elw_daily_table_from_body(body: &str) -> (r: Result<Table, Error>)
    ensures
        r is Ok <==> (envelope_result(body@) matches Some(rv) && elw_daily_records_ok(rv)),
        r matches Ok(t) ==> elw_daily_body_table(body@, t),
        r matches Err(e) ==> (e matches Error::Parsing {
            details: _,
            source: _,
            response_body,
        } && response_body@ == body@),
{
    let raw = match parse_envelope(body) {
        Ok(v) => v,
        Err(e) => {
            return Err(e);
        },
    };
    let resp = match decode_elw_daily_response(&raw) {
        Ok(v) => v,
        Err(msg) => {
            return Err(
                Error::Parsing {
                    details: String::from_str("failed to decode a record of the reply"),
                    source: msg,
                    response_body: String::from_str(body),
                },
            );
        },
    };
    let ghost recs = resp.data@;
    match parse_elw_daily(resp) {
        Ok(t) => {
            proof {
                assert(elw_daily_table_matches(t, recs));
            }
            Ok(t)
        },
        Err(_) => vstd::pervasive::unreached(),
    }
}

} // verus!
