//! Records and tables of the ESG endpoints: socially responsible
//! investment bond info.

use vstd::prelude::*;
use crate::data::{
    ApiResponse,
    deserialize_krx_date,
    deserialize_optional_f64,
    deserialize_optional_krx_date,
    deserialize_optional_u64,
    envelope_result,
    field_lookup,
    get_field,
    opt_dec_result,
    opt_u64_result,
    parse_envelope,
};
use crate::date::{Date, date_result, iso_of, opt_date_result, opt_iso};
use crate::error::Error;
use crate::num::Decimal;
use crate::table::{Column, ColumnData, Table, col_dec, col_opt_text, col_text, col_uint};

verus! {

/// One row of the SRI bond info endpoint.
#[derive(Debug)]
pub struct SriBondInfoRecord {
    pub base_date: Date,
    pub issuer_name: String,
    pub issue_code: String,
    pub sri_bond_type: String,
    pub issue_name: String,
    pub listing_date: Option<Date>,
    pub issue_date: Option<Date>,
    pub redemption_date: Option<Date>,
    pub issue_rate: Option<Decimal>,
    pub issue_amount: Option<u64>,
    pub listing_amount: Option<u64>,
    pub bond_type: String,
}

/// Every field of the record is present and coercible.
pub open spec fn sri_bond_info_fields_ok(fv: Seq<(Seq<char>, Seq<char>)>) -> bool {
    &&& field_lookup(fv, "BAS_DD"@) matches Some(s) && date_result(s) is Some
    &&& field_lookup(fv, "ISUR_NM"@) is Some
    &&& field_lookup(fv, "ISU_CD"@) is Some
    &&& field_lookup(fv, "SRI_BND_TP_NM"@) is Some
    &&& field_lookup(fv, "ISU_NM"@) is Some
    &&& field_lookup(fv, "LIST_DD"@) matches Some(s) && opt_date_result(s) is Some
    &&& field_lookup(fv, "ISU_DD"@) matches Some(s) && opt_date_result(s) is Some
    &&& field_lookup(fv, "REDMPT_DD"@) matches Some(s) && opt_date_result(s) is Some
    &&& field_lookup(fv, "ISU_RT"@) matches Some(s) && opt_dec_result(s) is Some
    &&& field_lookup(fv, "ISU_AMT"@) matches Some(s) && opt_u64_result(s) is Some
    &&& field_lookup(fv, "LIST_AMT"@) matches Some(s) && opt_u64_result(s) is Some
    &&& field_lookup(fv, "BND_TP_NM"@) is Some
}

/// `rec` holds exactly the coerced fields of the raw record `fv`.
pub open spec fn sri_bond_info_matches(rec: SriBondInfoRecord, fv: Seq<(Seq<char>, Seq<char>)>) -> bool {
    &&& Some(rec.base_date) == date_result(field_lookup(fv, "BAS_DD"@)->Some_0)
    &&& Some(rec.issuer_name@) == field_lookup(fv, "ISUR_NM"@)
    &&& Some(rec.issue_code@) == field_lookup(fv, "ISU_CD"@)
    &&& Some(rec.sri_bond_type@) == field_lookup(fv, "SRI_BND_TP_NM"@)
    &&& Some(rec.issue_name@) == field_lookup(fv, "ISU_NM"@)
    &&& Some(rec.listing_date) == opt_date_result(field_lookup(fv, "LIST_DD"@)->Some_0)
    &&& Some(rec.issue_date) == opt_date_result(field_lookup(fv, "ISU_DD"@)->Some_0)
    &&& Some(rec.redemption_date) == opt_date_result(field_lookup(fv, "REDMPT_DD"@)->Some_0)
    &&& Some(rec.issue_rate) == opt_dec_result(field_lookup(fv, "ISU_RT"@)->Some_0)
    &&& Some(rec.issue_amount) == opt_u64_result(field_lookup(fv, "ISU_AMT"@)->Some_0)
    &&& Some(rec.listing_amount) == opt_u64_result(field_lookup(fv, "LIST_AMT"@)->Some_0)
    &&& Some(rec.bond_type@) == field_lookup(fv, "BND_TP_NM"@)
}

/// Decodes one raw record of the endpoint.
pub fn decode_sri_bond_info(fields: &Vec<(String, String)>) -> (r: Result<SriBondInfoRecord, String>)
    ensures
        r is Ok <==> sri_bond_info_fields_ok(fields.deep_view()),
        r matches Ok(rec) ==> sri_bond_info_matches(rec, fields.deep_view()),
{
    let base_date = match get_field(fields, "BAS_DD") {
        Some(s) => match deserialize_krx_date(s.as_str()) {
            Ok(v) => v,
            Err(e) => {
                return Err(e);
            },
        },
        None => {
            return Err(String::from_str("missing field BAS_DD"));
        },
    };
    let issuer_name = match get_field(fields, "ISUR_NM") {
        Some(s) => s.clone(),
        None => {
            return Err(String::from_str("missing field ISUR_NM"));
        },
    };
    let issue_code = match get_field(fields, "ISU_CD") {
        Some(s) => s.clone(),
        None => {
            return Err(String::from_str("missing field ISU_CD"));
        },
    };
    let sri_bond_type = match get_field(fields, "SRI_BND_TP_NM") {
        Some(s) => s.clone(),
        None => {
            return Err(String::from_str("missing field SRI_BND_TP_NM"));
        },
    };
    let issue_name = match get_field(fields, "ISU_NM") {
        Some(s) => s.clone(),
        None => {
            return Err(String::from_str("missing field ISU_NM"));
        },
    };
    let listing_date = match get_field(fields, "LIST_DD") {
        Some(s) => match deserialize_optional_krx_date(s.as_str()) {
            Ok(v) => v,
            Err(e) => {
                return Err(e);
            },
        },
        None => {
            return Err(String::from_str("missing field LIST_DD"));
        },
    };
    let issue_date = match get_field(fields, "ISU_DD") {
        Some(s) => match deserialize_optional_krx_date(s.as_str()) {
            Ok(v) => v,
            Err(e) => {
                return Err(e);
            },
        },
        None => {
            return Err(String::from_str("missing field ISU_DD"));
        },
    };
    let redemption_date = match get_field(fields, "REDMPT_DD") {
        Some(s) => match deserialize_optional_krx_date(s.as_str()) {
            Ok(v) => v,
            Err(e) => {
                return Err(e);
            },
        },
        None => {
            return Err(String::from_str("missing field REDMPT_DD"));
        },
    };
    let issue_rate = match get_field(fields, "ISU_RT") {
        Some(s) => match deserialize_optional_f64(s.as_str()) {
            Ok(v) => v,
            Err(e) => {
                return Err(e);
            },
        },
        None => {
            return Err(String::from_str("missing field ISU_RT"));
        },
    };
    let issue_amount = match get_field(fields, "ISU_AMT") {
        Some(s) => match deserialize_optional_u64(s.as_str()) {
            Ok(v) => v,
            Err(e) => {
                return Err(e);
            },
        },
        None => {
            return Err(String::from_str("missing field ISU_AMT"));
        },
    };
    let listing_amount = match get_field(fields, "LIST_AMT") {
        Some(s) => match deserialize_optional_u64(s.as_str()) {
            Ok(v) => v,
            Err(e) => {
                return Err(e);
            },
        },
        None => {
            return Err(String::from_str("missing field LIST_AMT"));
        },
    };
    let bond_type = match get_field(fields, "BND_TP_NM") {
        Some(s) => s.clone(),
        None => {
            return Err(String::from_str("missing field BND_TP_NM"));
        },
    };
    Ok(
        SriBondInfoRecord {
            base_date,
            issuer_name,
            issue_code,
            sri_bond_type,
            issue_name,
            listing_date,
            issue_date,
            redemption_date,
            issue_rate,
            issue_amount,
            listing_amount,
            bond_type,
        },
    )
}

/// Every raw record of the reply decodes.
pub open spec fn sri_bond_info_records_ok(rv: Seq<Seq<(Seq<char>, Seq<char>)>>) -> bool {
    forall|i: int| 0 <= i < rv.len() ==> sri_bond_info_fields_ok(#[trigger] rv[i])
}

/// Decodes every raw record of a reply, in order, failing on the first
/// record that does not decode.
pub fn decode_sri_bond_info_response(raw: &Vec<Vec<(String, String)>>) -> (r: Result<
    ApiResponse<SriBondInfoRecord>,
    String,
>)
    ensures
        r is Ok <==> sri_bond_info_records_ok(raw.deep_view()),
        r matches Ok(resp) ==> resp.data@.len() == raw@.len() && (forall|i: int|
            0 <= i < resp.data@.len() ==> sri_bond_info_matches(
                #[trigger] resp.data@[i],
                raw.deep_view()[i],
            )),
{
    let ghost rv = raw.deep_view();
    let mut data: Vec<SriBondInfoRecord> = Vec::new();
    let mut i: usize = 0;
    while i < raw.len()
        invariant
            rv == raw.deep_view(),
            rv.len() == raw@.len(),
            forall|k: int| 0 <= k < rv.len() ==> #[trigger] rv[k] == raw@[k].deep_view(),
            0 <= i <= raw@.len(),
            data@.len() == i,
            forall|k: int| 0 <= k < i ==> sri_bond_info_fields_ok(#[trigger] rv[k]),
            forall|k: int| 0 <= k < i ==> sri_bond_info_matches(#[trigger] data@[k], rv[k]),
        decreases raw@.len() - i,
    {
        match decode_sri_bond_info(&raw[i]) {
            Ok(rec) => {
                data.push(rec);
            },
            Err(e) => {
                proof {
                    assert(!sri_bond_info_fields_ok(rv[i as int]));
                }
                return Err(e);
            },
        }
        i += 1;
    }
    Ok(ApiResponse { data })
}

/// `t` is exactly the table of the records `rs`: 12 fixed columns, one
/// value per record in input order, and the empty table for no records.
pub open spec fn sri_bond_info_table_matches(t: Table, rs: Seq<SriBondInfoRecord>) -> bool {
    &&& rs.len() == 0 ==> t.columns@.len() == 0
    &&& rs.len() > 0 ==> {
        &&& t.columns@.len() == 12
        &&& col_text(
            t.columns@[0],
            "기준일자"@,
            Seq::new(rs.len(), |i: int| iso_of(rs[i].base_date)),
        )
        &&& col_text(
            t.columns@[1],
            "발행기관"@,
            Seq::new(rs.len(), |i: int| rs[i].issuer_name@),
        )
        &&& col_text(
            t.columns@[2],
            "표준코드"@,
            Seq::new(rs.len(), |i: int| rs[i].issue_code@),
        )
        &&& col_text(
            t.columns@[3],
            "채권종류"@,
            Seq::new(rs.len(), |i: int| rs[i].sri_bond_type@),
        )
        &&& col_text(
            t.columns@[4],
            "종목명"@,
            Seq::new(rs.len(), |i: int| rs[i].issue_name@),
        )
        &&& col_opt_text(
            t.columns@[5],
            "상장일"@,
            Seq::new(rs.len(), |i: int| opt_iso(rs[i].listing_date)),
        )
        &&& col_opt_text(
            t.columns@[6],
            "발행일"@,
            Seq::new(rs.len(), |i: int| opt_iso(rs[i].issue_date)),
        )
        &&& col_opt_text(
            t.columns@[7],
            "상환일"@,
            Seq::new(rs.len(), |i: int| opt_iso(rs[i].redemption_date)),
        )
        &&& col_dec(
            t.columns@[8],
            "표면이자율"@,
            Seq::new(rs.len(), |i: int| rs[i].issue_rate),
        )
        &&& col_uint(
            t.columns@[9],
            "발행금액"@,
            Seq::new(rs.len(), |i: int| rs[i].issue_amount),
        )
        &&& col_uint(
            t.columns@[10],
            "상장금액"@,
            Seq::new(rs.len(), |i: int| rs[i].listing_amount),
        )
        &&& col_text(
            t.columns@[11],
            "채권유형"@,
            Seq::new(rs.len(), |i: int| rs[i].bond_type@),
        )
    }
}

/// Flattens the typed records into their table; zero records give the
/// empty table of zero columns and zero rows.
pub fn parse_sri_bond_info(response: ApiResponse<SriBondInfoRecord>) -> (r: Result<Table, Error>)
    ensures
        r is Ok,
        r matches Ok(t) ==> sri_bond_info_table_matches(t, response.data@),
{
    let records = response.data;
    if records.len() == 0 {
        return Ok(Table::empty());
    }
    let n = records.len();
    let mut c0: Vec<String> = Vec::new();
    let mut c1: Vec<String> = Vec::new();
    let mut c2: Vec<String> = Vec::new();
    let mut c3: Vec<String> = Vec::new();
    let mut c4: Vec<String> = Vec::new();
    let mut c5: Vec<Option<String>> = Vec::new();
    let mut c6: Vec<Option<String>> = Vec::new();
    let mut c7: Vec<Option<String>> = Vec::new();
    let mut c8: Vec<Option<Decimal>> = Vec::new();
    let mut c9: Vec<Option<u64>> = Vec::new();
    let mut c10: Vec<Option<u64>> = Vec::new();
    let mut c11: Vec<String> = Vec::new();
    let mut i: usize = 0;
    while i < n
        invariant
            n == records@.len(),
            0 <= i <= n,
            c0@.len() == i && forall|k: int|
                0 <= k < i ==> (#[trigger] c0@[k])@ == iso_of(records@[k].base_date),
            c1@.len() == i && forall|k: int|
                0 <= k < i ==> (#[trigger] c1@[k])@ == records@[k].issuer_name@,
            c2@.len() == i && forall|k: int|
                0 <= k < i ==> (#[trigger] c2@[k])@ == records@[k].issue_code@,
            c3@.len() == i && forall|k: int|
                0 <= k < i ==> (#[trigger] c3@[k])@ == records@[k].sri_bond_type@,
            c4@.len() == i && forall|k: int|
                0 <= k < i ==> (#[trigger] c4@[k])@ == records@[k].issue_name@,
            c5@.len() == i && forall|k: int|
                0 <= k < i ==> (#[trigger] c5@[k]).deep_view() == opt_iso(
                    records@[k].listing_date,
                ),
            c6@.len() == i && forall|k: int|
                0 <= k < i ==> (#[trigger] c6@[k]).deep_view() == opt_iso(
                    records@[k].issue_date,
                ),
            c7@.len() == i && forall|k: int|
                0 <= k < i ==> (#[trigger] c7@[k]).deep_view() == opt_iso(
                    records@[k].redemption_date,
                ),
            c8@.len() == i && forall|k: int|
                0 <= k < i ==> #[trigger] c8@[k] == records@[k].issue_rate,
            c9@.len() == i && forall|k: int|
                0 <= k < i ==> #[trigger] c9@[k] == records@[k].issue_amount,
            c10@.len() == i && forall|k: int|
                0 <= k < i ==> #[trigger] c10@[k] == records@[k].listing_amount,
            c11@.len() == i && forall|k: int|
                0 <= k < i ==> (#[trigger] c11@[k])@ == records@[k].bond_type@,
        decreases n - i,
    {
        let rec = &records[i];
        c0.push(rec.base_date.to_iso_string());
        c1.push(rec.issuer_name.clone());
        c2.push(rec.issue_code.clone());
        c3.push(rec.sri_bond_type.clone());
        c4.push(rec.issue_name.clone());
        c5.push(
            match &rec.listing_date {
                Some(d) => Some(d.to_iso_string()),
                None => None,
            },
        );
        c6.push(
            match &rec.issue_date {
                Some(d) => Some(d.to_iso_string()),
                None => None,
            },
        );
        c7.push(
            match &rec.redemption_date {
                Some(d) => Some(d.to_iso_string()),
                None => None,
            },
        );
        c8.push(rec.issue_rate);
        c9.push(rec.issue_amount);
        c10.push(rec.listing_amount);
        c11.push(rec.bond_type.clone());
        i += 1;
    }
    proof {
        let rs = records@;
        assert(c0.deep_view() =~= Seq::new(rs.len(), |i: int| iso_of(rs[i].base_date)));
        assert(c1.deep_view() =~= Seq::new(rs.len(), |i: int| rs[i].issuer_name@));
        assert(c2.deep_view() =~= Seq::new(rs.len(), |i: int| rs[i].issue_code@));
        assert(c3.deep_view() =~= Seq::new(rs.len(), |i: int| rs[i].sri_bond_type@));
        assert(c4.deep_view() =~= Seq::new(rs.len(), |i: int| rs[i].issue_name@));
        assert(c5.deep_view() =~= Seq::new(rs.len(), |i: int| opt_iso(rs[i].listing_date)));
        assert(c6.deep_view() =~= Seq::new(rs.len(), |i: int| opt_iso(rs[i].issue_date)));
        assert(c7.deep_view() =~= Seq::new(rs.len(), |i: int| opt_iso(rs[i].redemption_date)));
        assert(c8@ =~= Seq::new(rs.len(), |i: int| rs[i].issue_rate));
        assert(c9@ =~= Seq::new(rs.len(), |i: int| rs[i].issue_amount));
        assert(c10@ =~= Seq::new(rs.len(), |i: int| rs[i].listing_amount));
        assert(c11.deep_view() =~= Seq::new(rs.len(), |i: int| rs[i].bond_type@));
    }
    let mut columns: Vec<Column> = Vec::new();
    columns.push(
        Column { name: String::from_str("기준일자"), data: ColumnData::Text(c0) },
    );
    columns.push(
        Column { name: String::from_str("발행기관"), data: ColumnData::Text(c1) },
    );
    columns.push(
        Column { name: String::from_str("표준코드"), data: ColumnData::Text(c2) },
    );
    columns.push(
        Column { name: String::from_str("채권종류"), data: ColumnData::Text(c3) },
    );
    columns.push(
        Column { name: String::from_str("종목명"), data: ColumnData::Text(c4) },
    );
    columns.push(
        Column { name: String::from_str("상장일"), data: ColumnData::OptText(c5) },
    );
    columns.push(
        Column { name: String::from_str("발행일"), data: ColumnData::OptText(c6) },
    );
    columns.push(
        Column { name: String::from_str("상환일"), data: ColumnData::OptText(c7) },
    );
    columns.push(
        Column { name: String::from_str("표면이자율"), data: ColumnData::Dec(c8) },
    );
    columns.push(
        Column { name: String::from_str("발행금액"), data: ColumnData::UInt(c9) },
    );
    columns.push(
        Column { name: String::from_str("상장금액"), data: ColumnData::UInt(c10) },
    );
    columns.push(
        Column { name: String::from_str("채권유형"), data: ColumnData::Text(c11) },
    );
    Ok(Table { columns })
}

/// `t` is the table some decoded record sequence of `body` flattens to.
pub open spec fn sri_bond_info_body_table(body: Seq<char>, t: Table) -> bool {
    exists|recs: Seq<SriBondInfoRecord>|
        #![trigger sri_bond_info_table_matches(t, recs)]
        {
            &&& envelope_result(body) matches Some(rv)
            &&& recs.len() == rv.len()
            &&& (forall|i: int| 0 <= i < recs.len() ==> sri_bond_info_matches(#[trigger] recs[i], rv[i]))
            &&& sri_bond_info_table_matches(t, recs)
        }
}

/// The whole decode pipeline of a 2xx body for this endpoint: envelope,
/// records, table.  Every failure is a `Parsing` error carrying the body.
pub fn sri_bond_info_table_from_body(body: &str) -> (r: Result<Table, Error>)
    ensures
        r is Ok <==> (envelope_result(body@) matches Some(rv) && sri_bond_info_records_ok(rv)),
        r matches Ok(t) ==> sri_bond_info_body_table(body@, t),
        r matches Err(e) ==> (e matches Error::Parsing {
            details: _,
            source: _,
            response_body,
        } && response_body@ == body@),
{
    let raw = match parse_envelope(body) {
        Ok(v) => v,
        Err(e) => {
            return Err(e);
        },
    };
    let resp = match decode_sri_bond_info_response(&raw) {
        Ok(v) => v,
        Err(msg) => {
            return Err(
                Error::Parsing {
                    details: String::from_str("failed to decode a record of the reply"),
                    source: msg,
                    response_body: String::from_str(body),
                },
            );
        },
    };
    let ghost recs = resp.data@;
    match parse_sri_bond_info(resp) {
        Ok(t) => {
            proof {
                assert(sri_bond_info_table_matches(t, recs));
            }
            Ok(t)
        },
        Err(_) => vstd::pervasive::unreached(),
    }
}

} // verus!
