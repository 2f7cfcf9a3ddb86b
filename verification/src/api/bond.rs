//! The bond endpoints: the treasury market, the general bond market, and
//! the small-lot bond market.

use vstd::prelude::*;
use crate::api::common::{
    ApiRequest, latest_workday_string, spec_valid_date_format, validate_base_date,
};
use crate::client::{Client, HttpOutcome, classify_response, spec_retry_after};
use crate::data::envelope_result;
use crate::data::bond::{bond_daily_body_table, bond_daily_records_ok, bond_daily_table_from_body, kts_daily_body_table, kts_daily_records_ok, kts_daily_table_from_body};
use crate::error::Error;
use crate::table::Table;

verus! {

/// Access to the bond endpoints.  The facade is a lightweight view of the client:
/// it holds only the borrowed client and builds one builder per call.
pub struct BondApi<'a> {
    pub client: &'a Client,
}

impl<'a> BondApi<'a> {
    /// Daily trades of the treasury bond market.
    pub fn kts_daily(&self) -> (r: KtsDailyBuilder<'a>)
        ensures
            r.client == self.client,
            r.base_date is None,
    {
        KtsDailyBuilder { client: self.client, base_date: None }
    }

    /// Daily trades of the general bond market.
    pub fn bond_daily(&self) -> (r: BondDailyBuilder<'a>)
        ensures
            r.client == self.client,
            r.base_date is None,
    {
        BondDailyBuilder { client: self.client, base_date: None }
    }

    /// Daily trades of the small-lot bond market.
    pub fn small_bond_daily(&self) -> (r: SmallBondDailyBuilder<'a>)
        ensures
            r.client == self.client,
            r.base_date is None,
    {
        SmallBondDailyBuilder { client: self.client, base_date: None }
    }

}

/// Builds the one request of its endpoint: it accumulates a base date
/// (the last call wins) and hands out the pure steps around the HTTP
/// round trip, which the host performs.
#[must_use]
pub struct KtsDailyBuilder<'a> {
    pub client: &'a Client,
    pub base_date: Option<String>,
}

impl<'a> KtsDailyBuilder<'a> {
    /// Stores `date` (`YYYYMMDD`) as the base date, unvalidated,
    /// overwriting any earlier value.
    pub fn date(self, date: &str) -> (r: Self)
        ensures
            r.base_date matches Some(d) && d@ == date@,
            r.client == self.client,
    {
        KtsDailyBuilder { client: self.client, base_date: Some(String::from_str(date)) }
    }

    /// Stores the latest workday (the day before today) as the base
    /// date, overwriting any earlier value.
    pub fn latest(self) -> (r: Self)
        ensures
            r.base_date matches Some(d) && spec_valid_date_format(d@),
            r.client == self.client,
    {
        KtsDailyBuilder { client: self.client, base_date: Some(latest_workday_string()) }
    }

    /// Validates the stored date and yields the request to send; an
    /// `InvalidInput` failure here is raised before any network
    /// activity could happen.
    pub fn prepare(self) -> (r: Result<ApiRequest, Error>)
        ensures
            r is Ok <==> (self.base_date matches Some(d) && spec_valid_date_format(d@)),
            r matches Ok(req) ==> (self.base_date matches Some(d) && req.base_date@ == d@
                && req.path@ == "/bon/kts_bydd_trd"@),
            r matches Err(e) ==> e matches Error::InvalidInput(_),
            self.base_date is None ==> (r matches Err(e) && e matches Error::InvalidInput(m)
                && m@ == "date is required, call `date()` or `latest()`"@),
            (self.base_date matches Some(d) && !spec_valid_date_format(d@)) ==> (r matches Err(
                e,
            ) && e matches Error::InvalidInput(m) && m@ == "date must be in YYYYMMDD format"@),
    {
        let date = match validate_base_date(self.base_date) {
            Ok(d) => d,
            Err(e) => {
                return Err(e);
            },
        };
        Ok(ApiRequest { path: String::from_str("/bon/kts_bydd_trd"), base_date: date })
    }

    /// Decodes a 2xx response body into this endpoint's table.
    pub fn parse_response(body: &str) -> (r: Result<Table, Error>)
        ensures
            r is Ok <==> (envelope_result(body@) matches Some(rv) && kts_daily_records_ok(rv)),
            r matches Ok(t) ==> kts_daily_body_table(body@, t),
            r matches Err(e) ==> (e matches Error::Parsing {
                details: _,
                source: _,
                response_body,
            } && response_body@ == body@),
    {
        kts_daily_table_from_body(body)
    }

    /// Turns one finished HTTP attempt into this endpoint's table or
    /// error, exactly as the error taxonomy classifies it.
    pub fn finish(outcome: HttpOutcome) -> (r: Result<Table, Error>)
        ensures
            outcome matches HttpOutcome::TransportError(m) ==> (r matches Err(e)
                && e matches Error::Network(n) && n@ == m@),
            outcome matches HttpOutcome::Response { status, retry_after, body } ==> {
                &&& (status == 429) ==> (r matches Err(e) && e matches Error::RateLimit {
                    retry_after: ra,
                } && ra == spec_retry_after(retry_after.deep_view()))
                &&& (!(200 <= status < 300) && status != 429) ==> (r matches Err(e)
                    && e matches Error::ApiError { status_code, message } && status_code
                    == status && message@ == body@)
                &&& (200 <= status < 300) ==> {
                    &&& (r is Ok <==> (envelope_result(body@) matches Some(rv)
                        && kts_daily_records_ok(rv)))
                    &&& (r matches Ok(t) ==> kts_daily_body_table(body@, t))
                    &&& (r matches Err(e) ==> (e matches Error::Parsing {
                        details: _,
                        source: _,
                        response_body,
                    } && response_body@ == body@))
                }
            },
    {
        let body = match classify_response(outcome) {
            Ok(b) => b,
            Err(e) => {
                return Err(e);
            },
        };
        kts_daily_table_from_body(body.as_str())
    }
}

/// Builds the one request of its endpoint: it accumulates a base date
/// (the last call wins) and hands out the pure steps around the HTTP
/// round trip, which the host performs.
#[must_use]
pub struct BondDailyBuilder<'a> {
    pub client: &'a Client,
    pub base_date: Option<String>,
}

impl<'a> BondDailyBuilder<'a> {
    /// Stores `date` (`YYYYMMDD`) as the base date, unvalidated,
    /// overwriting any earlier value.
    pub fn date(self, date: &str) -> (r: Self)
        ensures
            r.base_date matches Some(d) && d@ == date@,
            r.client == self.client,
    {
        BondDailyBuilder { client: self.client, base_date: Some(String::from_str(date)) }
    }

    /// Stores the latest workday (the day before today) as the base
    /// date, overwriting any earlier value.
    pub fn latest(self) -> (r: Self)
        ensures
            r.base_date matches Some(d) && spec_valid_date_format(d@),
            r.client == self.client,
    {
        BondDailyBuilder { client: self.client, base_date: Some(latest_workday_string()) }
    }

    /// Validates the stored date and yields the request to send; an
    /// `InvalidInput` failure here is raised before any network
    /// activity could happen.
    pub fn prepare(self) -> (r: Result<ApiRequest, Error>)
        ensures
            r is Ok <==> (self.base_date matches Some(d) && spec_valid_date_format(d@)),
            r matches Ok(req) ==> (self.base_date matches Some(d) && req.base_date@ == d@
                && req.path@ == "/bon/bnd_bydd_trd"@),
            r matches Err(e) ==> e matches Error::InvalidInput(_),
            self.base_date is None ==> (r matches Err(e) && e matches Error::InvalidInput(m)
                && m@ == "date is required, call `date()` or `latest()`"@),
            (self.base_date matches Some(d) && !spec_valid_date_format(d@)) ==> (r matches Err(
                e,
            ) && e matches Error::InvalidInput(m) && m@ == "date must be in YYYYMMDD format"@),
    {
        let date = match validate_base_date(self.base_date) {
            Ok(d) => d,
            Err(e) => {
                return Err(e);
            },
        };
        Ok(ApiRequest { path: String::from_str("/bon/bnd_bydd_trd"), base_date: date })
    }

    /// Decodes a 2xx response body into this endpoint's table.
    pub fn parse_response(body: &str) -> (r: Result<Table, Error>)
        ensures
            r is Ok <==> (envelope_result(body@) matches Some(rv) && bond_daily_records_ok(rv)),
            r matches Ok(t) ==> bond_daily_body_table(body@, t),
            r matches Err(e) ==> (e matches Error::Parsing {
                details: _,
                source: _,
                response_body,
            } && response_body@ == body@),
    {
        bond_daily_table_from_body(body)
    }

    /// Turns one finished HTTP attempt into this endpoint's table or
    /// error, exactly as the error taxonomy classifies it.
    pub fn finish(outcome: HttpOutcome) -> (r: Result<Table, Error>)
        ensures
            outcome matches HttpOutcome::TransportError(m) ==> (r matches Err(e)
                && e matches Error::Network(n) && n@ == m@),
            outcome matches HttpOutcome::Response { status, retry_after, body } ==> {
                &&& (status == 429) ==> (r matches Err(e) && e matches Error::RateLimit {
                    retry_after: ra,
                } && ra == spec_retry_after(retry_after.deep_view()))
                &&& (!(200 <= status < 300) && status != 429) ==> (r matches Err(e)
                    && e matches Error::ApiError { status_code, message } && status_code
                    == status && message@ == body@)
                &&& (200 <= status < 300) ==> {
                    &&& (r is Ok <==> (envelope_result(body@) matches Some(rv)
                        && bond_daily_records_ok(rv)))
                    &&& (r matches Ok(t) ==> bond_daily_body_table(body@, t))
                    &&& (r matches Err(e) ==> (e matches Error::Parsing {
                        details: _,
                        source: _,
                        response_body,
                    } && response_body@ == body@))
                }
            },
    {
        let body = match classify_response(outcome) {
            Ok(b) => b,
            Err(e) => {
                return Err(e);
            },
        };
        bond_daily_table_from_body(body.as_str())
    }
}

/// Builds the one request of its endpoint: it accumulates a base date
/// (the last call wins) and hands out the pure steps around the HTTP
/// round trip, which the host performs.
#[must_use]
pub struct SmallBondDailyBuilder<'a> {
    pub client: &'a Client,
    pub base_date: Option<String>,
}

impl<'a> SmallBondDailyBuilder<'a> {
    /// Stores `date` (`YYYYMMDD`) as the base date, unvalidated,
    /// overwriting any earlier value.
    pub fn date(self, date: &str) -> (r: Self)
        ensures
            r.base_date matches Some(d) && d@ == date@,
            r.client == self.client,
    {
        SmallBondDailyBuilder { client: self.client, base_date: Some(String::from_str(date)) }
    }

    /// Stores the latest workday (the day before today) as the base
    /// date, overwriting any earlier value.
    pub fn latest(self) -> (r: Self)
        ensures
            r.base_date matches Some(d) && spec_valid_date_format(d@),
            r.client == self.client,
    {
        SmallBondDailyBuilder { client: self.client, base_date: Some(latest_workday_string()) }
    }

    /// Validates the stored date and yields the request to send; an
    /// `InvalidInput` failure here is raised before any network
    /// activity could happen.
    pub fn prepare(self) -> (r: Result<ApiRequest, Error>)
        ensures
            r is Ok <==> (self.base_date matches Some(d) && spec_valid_date_format(d@)),
            r matches Ok(req) ==> (self.base_date matches Some(d) && req.base_date@ == d@
                && req.path@ == "/bon/smb_bydd_trd"@),
            r matches Err(e) ==> e matches Error::InvalidInput(_),
            self.base_date is None ==> (r matches Err(e) && e matches Error::InvalidInput(m)
                && m@ == "date is required, call `date()` or `latest()`"@),
            (self.base_date matches Some(d) && !spec_valid_date_format(d@)) ==> (r matches Err(
                e,
            ) && e matches Error::InvalidInput(m) && m@ == "date must be in YYYYMMDD format"@),
    {
        let date = match validate_base_date(self.base_date) {
            Ok(d) => d,
            Err(e) => {
                return Err(e);
            },
        };
        Ok(ApiRequest { path: String::from_str("/bon/smb_bydd_trd"), base_date: date })
    }

    /// Decodes a 2xx response body into this endpoint's table.
    pub fn parse_response(body: &str) -> (r: Result<Table, Error>)
        ensures
            r is Ok <==> (envelope_result(body@) matches Some(rv) && bond_daily_records_ok(rv)),
            r matches Ok(t) ==> bond_daily_body_table(body@, t),
            r matches Err(e) ==> (e matches Error::Parsing {
                details: _,
                source: _,
                response_body,
            } && response_body@ == body@),
    {
        bond_daily_table_from_body(body)
    }

    /// Turns one finished HTTP attempt into this endpoint's table or
    /// error, exactly as the error taxonomy classifies it.
    pub fn finish(outcome: HttpOutcome) -> (r: Result<Table, Error>)
        ensures
            outcome matches HttpOutcome::TransportError(m) ==> (r matches Err(e)
                && e matches Error::Network(n) && n@ == m@),
            outcome matches HttpOutcome::Response { status, retry_after, body } ==> {
                &&& (status == 429) ==> (r matches Err(e) && e matches Error::RateLimit {
                    retry_after: ra,
                } && ra == spec_retry_after(retry_after.deep_view()))
                &&& (!(200 <= status < 300) && status != 429) ==> (r matches Err(e)
                    && e matches Error::ApiError { status_code, message } && status_code
                    == status && message@ == body@)
                &&& (200 <= status < 300) ==> {
                    &&& (r is Ok <==> (envelope_result(body@) matches Some(rv)
                        && bond_daily_records_ok(rv)))
                    &&& (r matches Ok(t) ==> bond_daily_body_table(body@, t))
                    &&& (r matches Err(e) ==> (e matches Error::Parsing {
                        details: _,
                        source: _,
                        response_body,
                    } && response_body@ == body@))
                }
            },
    {
        let body = match classify_response(outcome) {
            Ok(b) => b,
            Err(e) => {
                return Err(e);
            },
        };
        bond_daily_table_from_body(body.as_str())
    }
}

} // verus!
