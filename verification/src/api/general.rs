//! The general commodity endpoints: oil, gold, and emission permits.

use vstd::prelude::*;
use crate::api::common::{
    ApiRequest, latest_workday_string, spec_valid_date_format, validate_base_date,
};
use crate::client::{Client, HttpOutcome, classify_response, spec_retry_after};
use crate::data::envelope_result;
use crate::data::general::{emissions_daily_body_table, emissions_daily_records_ok, emissions_daily_table_from_body, gold_daily_body_table, gold_daily_records_ok, gold_daily_table_from_body, oil_daily_body_table, oil_daily_records_ok, oil_daily_table_from_body};
use crate::error::Error;
use crate::table::Table;

verus! {

/// Access to the general commodity endpoints.  The facade is a lightweight view of the client:
/// it holds only the borrowed client and builds one builder per call.
pub struct GeneralApi<'a> {
    pub client: &'a Client,
}

impl<'a> GeneralApi<'a> {
    /// Daily trades of the oil market.
    pub fn oil_daily(&self) -> (r: OilDailyBuilder<'a>)
        ensures
            r.client == self.client,
            r.base_date is None,
    {
        OilDailyBuilder { client: self.client, base_date: None }
    }

    /// Daily trades of the gold market.
    pub fn gold_daily(&self) -> (r: GoldDailyBuilder<'a>)
        ensures
            r.client == self.client,
            r.base_date is None,
    {
        GoldDailyBuilder { client: self.client, base_date: None }
    }

    /// Daily trades of the emission permit market.
    pub fn emissions_daily(&self) -> (r: EmissionsDailyBuilder<'a>)
        ensures
            r.client == self.client,
            r.base_date is None,
    {
        EmissionsDailyBuilder { client: self.client, base_date: None }
    }

}

/// Builds the one request of its endpoint: it accumulates a base date
/// (the last call wins) and hands out the pure steps around the HTTP
/// round trip, which the host performs.
#[must_use]
pub struct OilDailyBuilder<'a> {
    pub client: &'a Client,
    pub base_date: Option<String>,
}

impl<'a> OilDailyBuilder<'a> {
    /// Stores `date` (`YYYYMMDD`) as the base date, unvalidated,
    /// overwriting any earlier value.
    pub fn date(self, date: &str) -> (r: Self)
        ensures
            r.base_date matches Some(d) && d@ == date@,
            r.client == self.client,
    {
        OilDailyBuilder { client: self.client, base_date: Some(String::from_str(date)) }
    }

    /// Stores the latest workday (the day before today) as the base
    /// date, overwriting any earlier value.
    pub fn latest(self) -> (r: Self)
        ensures
            r.base_date matches Some(d) && spec_valid_date_format(d@),
            r.client == self.client,
    {
        OilDailyBuilder { client: self.client, base_date: Some(latest_workday_string()) }
    }

    /// Validates the stored date and yields the request to send; an
    /// `InvalidInput` failure here is raised before any network
    /// activity could happen.
    pub fn prepare(self) -> (r: Result<ApiRequest, Error>)
        ensures
            r is Ok <==> (self.base_date matches Some(d) && spec_valid_date_format(d@)),
            r matches Ok(req) ==> (self.base_date matches Some(d) && req.base_date@ == d@
                && req.path@ == "/gen/oil_bydd_trd"@),
            r matches Err(e) ==> e matches Error::InvalidInput(_),
            self.base_date is None ==> (r matches Err(e) && e matches Error::InvalidInput(m)
                && m@ == "date is required, call `date()` or `latest()`"@),
            (self.base_date matches Some(d) && !spec_valid_date_format(d@)) ==> (r matches Err(
                e,
            ) && e matches Error::InvalidInput(m) && m@ == "date must be in YYYYMMDD format"@),
    {
        let date = match validate_base_date(self.base_date) {
            Ok(d) => d,
            Err(e) => {
                return Err(e);
            },
        };
        Ok(ApiRequest { path: String::from_str("/gen/oil_bydd_trd"), base_date: date })
    }

    /// Decodes a 2xx response body into this endpoint's table.
    pub fn parse_response(body: &str) -> (r: Result<Table, Error>)
        ensures
            r is Ok <==> (envelope_result(body@) matches Some(rv) && oil_daily_records_ok(rv)),
            r matches Ok(t) ==> oil_daily_body_table(body@, t),
            r matches Err(e) ==> (e matches Error::Parsing {
                details: _,
                source: _,
                response_body,
            } && response_body@ == body@),
    {
        oil_daily_table_from_body(body)
    }

    /// Turns one finished HTTP attempt into this endpoint's table or
    /// error, exactly as the error taxonomy classifies it.
    pub fn finish(outcome: HttpOutcome) -> (r: Result<Table, Error>)
        ensures
            outcome matches HttpOutcome::TransportError(m) ==> (r matches Err(e)
                && e matches Error::Network(n) && n@ == m@),
            outcome matches HttpOutcome::Response { status, retry_after, body } ==> {
                &&& (status == 429) ==> (r matches Err(e) && e matches Error::RateLimit {
                    retry_after: ra,
                } && ra == spec_retry_after(retry_after.deep_view()))
                &&& (!(200 <= status < 300) && status != 429) ==> (r matches Err(e)
                    && e matches Error::ApiError { status_code, message } && status_code
                    == status && message@ == body@)
                &&& (200 <= status < 300) ==> {
                    &&& (r is Ok <==> (envelope_result(body@) matches Some(rv)
                        && oil_daily_records_ok(rv)))
                    &&& (r matches Ok(t) ==> oil_daily_body_table(body@, t))
                    &&& (r matches Err(e) ==> (e matches Error::Parsing {
                        details: _,
                        source: _,
                        response_body,
                    } && response_body@ == body@))
                }
            },
    {
        let body = match classify_response(outcome) {
            Ok(b) => b,
            Err(e) => {
                return Err(e);
            },
        };
        oil_daily_table_from_body(body.as_str())
    }
}

/// Builds the one request of its endpoint: it accumulates a base date
/// (the last call wins) and hands out the pure steps around the HTTP
/// round trip, which the host performs.
#[must_use]
pub struct GoldDailyBuilder<'a> {
    pub client: &'a Client,
    pub base_date: Option<String>,
}

impl<'a> GoldDailyBuilder<'a> {
    /// Stores `date` (`YYYYMMDD`) as the base date, unvalidated,
    /// overwriting any earlier value.
    pub fn date(self, date: &str) -> (r: Self)
        ensures
            r.base_date matches Some(d) && d@ == date@,
            r.client == self.client,
    {
        GoldDailyBuilder { client: self.client, base_date: Some(String::from_str(date)) }
    }

    /// Stores the latest workday (the day before today) as the base
    /// date, overwriting any earlier value.
    pub fn latest(self) -> (r: Self)
        ensures
            r.base_date matches Some(d) && spec_valid_date_format(d@),
            r.client == self.client,
    {
        GoldDailyBuilder { client: self.client, base_date: Some(latest_workday_string()) }
    }

    /// Validates the stored date and yields the request to send; an
    /// `InvalidInput` failure here is raised before any network
    /// activity could happen.
    pub fn prepare(self) -> (r: Result<ApiRequest, Error>)
        ensures
            r is Ok <==> (self.base_date matches Some(d) && spec_valid_date_format(d@)),
            r matches Ok(req) ==> (self.base_date matches Some(d) && req.base_date@ == d@
                && req.path@ == "/gen/gold_bydd_trd"@),
            r matches Err(e) ==> e matches Error::InvalidInput(_),
            self.base_date is None ==> (r matches Err(e) && e matches Error::InvalidInput(m)
                && m@ == "date is required, call `date()` or `latest()`"@),
            (self.base_date matches Some(d) && !spec_valid_date_format(d@)) ==> (r matches Err(
                e,
            ) && e matches Error::InvalidInput(m) && m@ == "date must be in YYYYMMDD format"@),
    {
        let date = match validate_base_date(self.base_date) {
            Ok(d) => d,
            Err(e) => {
                return Err(e);
            },
        };
        Ok(ApiRequest { path: String::from_str("/gen/gold_bydd_trd"), base_date: date })
    }

    /// Decodes a 2xx response body into this endpoint's table.
    pub fn parse_response(body: &str) -> (r: Result<Table, Error>)
        ensures
            r is Ok <==> (envelope_result(body@) matches Some(rv) && gold_daily_records_ok(rv)),
            r matches Ok(t) ==> gold_daily_body_table(body@, t),
            r matches Err(e) ==> (e matches Error::Parsing {
                details: _,
                source: _,
                response_body,
            } && response_body@ == body@),
    {
        gold_daily_table_from_body(body)
    }

    /// Turns one finished HTTP attempt into this endpoint's table or
    /// error, exactly as the error taxonomy classifies it.
    pub fn finish(outcome: HttpOutcome) -> (r: Result<Table, Error>)
        ensures
            outcome matches HttpOutcome::TransportError(m) ==> (r matches Err(e)
                && e matches Error::Network(n) && n@ == m@),
            outcome matches HttpOutcome::Response { status, retry_after, body } ==> {
                &&& (status == 429) ==> (r matches Err(e) && e matches Error::RateLimit {
                    retry_after: ra,
                } && ra == spec_retry_after(retry_after.deep_view()))
                &&& (!(200 <= status < 300) && status != 429) ==> (r matches Err(e)
                    && e matches Error::ApiError { status_code, message } && status_code
                    == status && message@ == body@)
                &&& (200 <= status < 300) ==> {
                    &&& (r is Ok <==> (envelope_result(body@) matches Some(rv)
                        && gold_daily_records_ok(rv)))
                    &&& (r matches Ok(t) ==> gold_daily_body_table(body@, t))
                    &&& (r matches Err(e) ==> (e matches Error::Parsing {
                        details: _,
                        source: _,
                        response_body,
                    } && response_body@ == body@))
                }
            },
    {
        let body = match classify_response(outcome) {
            Ok(b) => b,
            Err(e) => {
                return Err(e);
            },
        };
        gold_daily_table_from_body(body.as_str())
    }
}

/// Builds the one request of its endpoint: it accumulates a base date
/// (the last call wins) and hands out the pure steps around the HTTP
/// round trip, which the host performs.
#[must_use]
pub struct EmissionsDailyBuilder<'a> {
    pub client: &'a Client,
    pub base_date: Option<String>,
}

impl<'a> EmissionsDailyBuilder<'a> {
    /// Stores `date` (`YYYYMMDD`) as the base date, unvalidated,
    /// overwriting any earlier value.
    pub fn date(self, date: &str) -> (r: Self)
        ensures
            r.base_date matches Some(d) && d@ == date@,
            r.client == self.client,
    {
        EmissionsDailyBuilder { client: self.client, base_date: Some(String::from_str(date)) }
    }

    /// Stores the latest workday (the day before today) as the base
    /// date, overwriting any earlier value.
    pub fn latest(self) -> (r: Self)
        ensures
            r.base_date matches Some(d) && spec_valid_date_format(d@),
            r.client == self.client,
    {
        EmissionsDailyBuilder { client: self.client, base_date: Some(latest_workday_string()) }
    }

    /// Validates the stored date and yields the request to send; an
    /// `InvalidInput` failure here is raised before any network
    /// activity could happen.
    pub fn prepare(self) -> (r: Result<ApiRequest, Error>)
        ensures
            r is Ok <==> (self.base_date matches Some(d) && spec_valid_date_format(d@)),
            r matches Ok(req) ==> (self.base_date matches Some(d) && req.base_date@ == d@
                && req.path@ == "/gen/ets_bydd_trd"@),
            r matches Err(e) ==> e matches Error::InvalidInput(_),
            self.base_date is None ==> (r matches Err(e) && e matches Error::InvalidInput(m)
                && m@ == "date is required, call `date()` or `latest()`"@),
            (self.base_date matches Some(d) && !spec_valid_date_format(d@)) ==> (r matches Err(
                e,
            ) && e matches Error::InvalidInput(m) && m@ == "date must be in YYYYMMDD format"@),
    {
        let date = match validate_base_date(self.base_date) {
            Ok(d) => d,
            Err(e) => {
                return Err(e);
            },
        };
        Ok(ApiRequest { path: String::from_str("/gen/ets_bydd_trd"), base_date: date })
    }

    /// Decodes a 2xx response body into this endpoint's table.
    pub fn parse_response(body: &str) -> (r: Result<Table, Error>)
        ensures
            r is Ok <==> (envelope_result(body@) matches Some(rv) && emissions_daily_records_ok(rv)),
            r matches Ok(t) ==> emissions_daily_body_table(body@, t),
            r matches Err(e) ==> (e matches Error::Parsing {
                details: _,
                source: _,
                response_body,
            } && response_body@ == body@),
    {
        emissions_daily_table_from_body(body)
    }

    /// Turns one finished HTTP attempt into this endpoint's table or
    /// error, exactly as the error taxonomy classifies it.
    pub fn finish(outcome: HttpOutcome) -> (r: Result<Table, Error>)
        ensures
            outcome matches HttpOutcome::TransportError(m) ==> (r matches Err(e)
                && e matches Error::Network(n) && n@ == m@),
            outcome matches HttpOutcome::Response { status, retry_after, body } ==> {
                &&& (status == 429) ==> (r matches Err(e) && e matches Error::RateLimit {
                    retry_after: ra,
                } && ra == spec_retry_after(retry_after.deep_view()))
                &&& (!(200 <= status < 300) && status != 429) ==> (r matches Err(e)
                    && e matches Error::ApiError { status_code, message } && status_code
                    == status && message@ == body@)
                &&& (200 <= status < 300) ==> {
                    &&& (r is Ok <==> (envelope_result(body@) matches Some(rv)
                        && emissions_daily_records_ok(rv)))
                    &&& (r matches Ok(t) ==> emissions_daily_body_table(body@, t))
                    &&& (r matches Err(e) ==> (e matches Error::Parsing {
                        details: _,
                        source: _,
                        response_body,
                    } && response_body@ == body@))
                }
            },
    {
        let body = match classify_response(outcome) {
            Ok(b) => b,
            Err(e) => {
                return Err(e);
            },
        };
        emissions_daily_table_from_body(body.as_str())
    }
}

} // verus!
