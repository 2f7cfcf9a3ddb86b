//! The exchange-traded product endpoints: ETF, ETN and ELW daily quotes.

use vstd::prelude::*;
use crate::api::common::{
    ApiRequest, latest_workday_string, spec_valid_date_format, validate_base_date,
};
use crate::client::{Client, HttpOutcome, classify_response, spec_retry_after};
use crate::data::envelope_result;
use crate::data::etp::{elw_daily_body_table, elw_daily_records_ok, elw_daily_table_from_body, etf_daily_body_table, etf_daily_records_ok, etf_daily_table_from_body, etn_daily_body_table, etn_daily_records_ok, etn_daily_table_from_body};
use crate::error::Error;
use crate::table::Table;

verus! {

/// Access to the exchange-traded product endpoints.  The facade is a lightweight view of the client:
/// it holds only the borrowed client and builds one builder per call.
pub struct EtpApi<'a> {
    pub client: &'a Client,
}

impl<'a> EtpApi<'a> {
    /// Daily quotes of every ETF.
    pub fn etf_daily(&self) -> (r: EtfDailyBuilder<'a>)
        ensures
            r.client == self.client,
            r.base_date is None,
    {
        EtfDailyBuilder { client: self.client, base_date: None }
    }

    /// Daily quotes of every ETN.
    pub fn etn_daily(&self) -> (r: EtnDailyBuilder<'a>)
        ensures
            r.client == self.client,
            r.base_date is None,
    {
        EtnDailyBuilder { client: self.client, base_date: None }
    }

    /// Daily quotes of every ELW.
    pub fn elw_daily(&self) -> (r: ElwDailyBuilder<'a>)
        ensures
            r.client == self.client,
            r.base_date is None,
    {
        ElwDailyBuilder { client: self.client, base_date: None }
    }

}

/// Builds the one request of its endpoint: it accumulates a base date
/// (the last call wins) and hands out the pure steps around the HTTP
/// round trip, which the host performs.
#[must_use]
pub struct EtfDailyBuilder<'a> {
    pub client: &'a Client,
    pub base_date: Option<String>,
}

impl<'a> EtfDailyBuilder<'a> {
    /// Stores `date` (`YYYYMMDD`) as the base date, unvalidated,
    /// overwriting any earlier value.
    pub fn date(self, date: &str) -> (r: Self)
        ensures
            r.base_date matches Some(d) && d@ == date@,
            r.client == self.client,
    {
        EtfDailyBuilder { client: self.client, base_date: Some(String::from_str(date)) }
    }

    /// Stores the latest workday (the day before today) as the base
    /// date, overwriting any earlier value.
    pub fn latest(self) -> (r: Self)
        ensures
            r.base_date matches Some(d) && spec_valid_date_format(d@),
            r.client == self.client,
    {
        EtfDailyBuilder { client: self.client, base_date: Some(latest_workday_string()) }
    }

    /// Validates the stored date and yields the request to send; an
    /// `InvalidInput` failure here is raised before any network
    /// activity could happen.
    pub fn prepare(self) -> (r: Result<ApiRequest, Error>)
        ensures
            r is Ok <==> (self.base_date matches Some(d) && spec_valid_date_format(d@)),
            r matches Ok(req) ==> (self.base_date matches Some(d) && req.base_date@ == d@
                && req.path@ == "/etp/etf_bydd_trd"@),
            r matches Err(e) ==> e matches Error::InvalidInput(_),
            self.base_date is None ==> (r matches Err(e) && e matches Error::InvalidInput(m)
                && m@ == "date is required, call `date()` or `latest()`"@),
            (self.base_date matches Some(d) && !spec_valid_date_format(d@)) ==> (r matches Err(
                e,
            ) && e matches Error::InvalidInput(m) && m@ == "date must be in YYYYMMDD format"@),
    {
        let date = match validate_base_date(self.base_date) {
            Ok(d) => d,
            Err(e) => {
                return Err(e);
            },
        };
        Ok(ApiRequest { path: String::from_str("/etp/etf_bydd_trd"), base_date: date })
    }

    /// Decodes a 2xx response body into this endpoint's table.
    pub fn parse_response(body: &str) -> (r: Result<Table, Error>)
        ensures
            r is Ok <==> (envelope_result(body@) matches Some(rv) && etf_daily_records_ok(rv)),
            r matches Ok(t) ==> etf_daily_body_table(body@, t),
            r matches Err(e) ==> (e matches Error::Parsing {
                details: _,
                source: _,
                response_body,
            } && response_body@ == body@),
    {
        etf_daily_table_from_body(body)
    }

    /// Turns one finished HTTP attempt into this endpoint's table or
    /// error, exactly as the error taxonomy classifies it.
    pub fn finish(outcome: HttpOutcome) -> (r: Result<Table, Error>)
        ensures
            outcome matches HttpOutcome::TransportError(m) ==> (r matches Err(e)
                && e matches Error::Network(n) && n@ == m@),
            outcome matches HttpOutcome::Response { status, retry_after, body } ==> {
                &&& (status == 429) ==> (r matches Err(e) && e matches Error::RateLimit {
                    retry_after: ra,
                } && ra == spec_retry_after(retry_after.deep_view()))
                &&& (!(200 <= status < 300) && status != 429) ==> (r matches Err(e)
                    && e matches Error::ApiError { status_code, message } && status_code
                    == status && message@ == body@)
                &&& (200 <= status < 300) ==> {
                    &&& (r is Ok <==> (envelope_result(body@) matches Some(rv)
                        && etf_daily_records_ok(rv)))
                    &&& (r matches Ok(t) ==> etf_daily_body_table(body@, t))
                    &&& (r matches Err(e) ==> (e matches Error::Parsing {
                        details: _,
                        source: _,
                        response_body,
                    } && response_body@ == body@))
                }
            },
    {
        let body = match classify_response(outcome) {
            Ok(b) => b,
            Err(e) => {
                return Err(e);
            },
        };
        etf_daily_table_from_body(body.as_str())
    }
}

/// Builds the one request of its endpoint: it accumulates a base date
/// (the last call wins) and hands out the pure steps around the HTTP
/// round trip, which the host performs.
#[must_use]
pub struct EtnDailyBuilder<'a> {
    pub client: &'a Client,
    pub base_date: Option<String>,
}

impl<'a> EtnDailyBuilder<'a> {
    /// Stores `date` (`YYYYMMDD`) as the base date, unvalidated,
    /// overwriting any earlier value.
    pub fn date(self, date: &str) -> (r: Self)
        ensures
            r.base_date matches Some(d) && d@ == date@,
            r.client == self.client,
    {
        EtnDailyBuilder { client: self.client, base_date: Some(String::from_str(date)) }
    }

    /// Stores the latest workday (the day before today) as the base
    /// date, overwriting any earlier value.
    pub fn latest(self) -> (r: Self)
        ensures
            r.base_date matches Some(d) && spec_valid_date_format(d@),
            r.client == self.client,
    {
        EtnDailyBuilder { client: self.client, base_date: Some(latest_workday_string()) }
    }

    /// Validates the stored date and yields the request to send; an
    /// `InvalidInput` failure here is raised before any network
    /// activity could happen.
    pub fn prepare(self) -> (r: Result<ApiRequest, Error>)
        ensures
            r is Ok <==> (self.base_date matches Some(d) && spec_valid_date_format(d@)),
            r matches Ok(req) ==> (self.base_date matches Some(d) && req.base_date@ == d@
                && req.path@ == "/etp/etn_bydd_trd"@),
            r matches Err(e) ==> e matches Error::InvalidInput(_),
            self.base_date is None ==> (r matches Err(e) && e matches Error::InvalidInput(m)
                && m@ == "date is required, call `date()` or `latest()`"@),
            (self.base_date matches Some(d) && !spec_valid_date_format(d@)) ==> (r matches Err(
                e,
            ) && e matches Error::InvalidInput(m) && m@ == "date must be in YYYYMMDD format"@),
    {
        let date = match validate_base_date(self.base_date) {
            Ok(d) => d,
            Err(e) => {
                return Err(e);
            },
        };
        Ok(ApiRequest { path: String::from_str("/etp/etn_bydd_trd"), base_date: date })
    }

    /// Decodes a 2xx response body into this endpoint's table.
    pub fn parse_response(body: &str) -> (r: Result<Table, Error>)
        ensures
            r is Ok <==> (envelope_result(body@) matches Some(rv) && etn_daily_records_ok(rv)),
            r matches Ok(t) ==> etn_daily_body_table(body@, t),
            r matches Err(e) ==> (e matches Error::Parsing {
                details: _,
                source: _,
                response_body,
            } && response_body@ == body@),
    {
        etn_daily_table_from_body(body)
    }

    /// Turns one finished HTTP attempt into this endpoint's table or
    /// error, exactly as the error taxonomy classifies it.
    pub fn finish(outcome: HttpOutcome) -> (r: Result<Table, Error>)
        ensures
            outcome matches HttpOutcome::TransportError(m) ==> (r matches Err(e)
                && e matches Error::Network(n) && n@ == m@),
            outcome matches HttpOutcome::Response { status, retry_after, body } ==> {
                &&& (status == 429) ==> (r matches Err(e) && e matches Error::RateLimit {
                    retry_after: ra,
                } && ra == spec_retry_after(retry_after.deep_view()))
                &&& (!(200 <= status < 300) && status != 429) ==> (r matches Err(e)
                    && e matches Error::ApiError { status_code, message } && status_code
                    == status && message@ == body@)
                &&& (200 <= status < 300) ==> {
                    &&& (r is Ok <==> (envelope_result(body@) matches Some(rv)
                        && etn_daily_records_ok(rv)))
                    &&& (r matches Ok(t) ==> etn_daily_body_table(body@, t))
                    &&& (r matches Err(e) ==> (e matches Error::Parsing {
                        details: _,
                        source: _,
                        response_body,
                    } && response_body@ == body@))
                }
            },
    {
        let body = match classify_response(outcome) {
            Ok(b) => b,
            Err(e) => {
                return Err(e);
            },
        };
        etn_daily_table_from_body(body.as_str())
    }
}

/// Builds the one request of its endpoint: it accumulates a base date
/// (the last call wins) and hands out the pure steps around the HTTP
/// round trip, which the host performs.
#[must_use]
pub struct ElwDailyBuilder<'a> {
    pub client: &'a Client,
    pub base_date: Option<String>,
}

impl<'a> ElwDailyBuilder<'a> {
    /// Stores `date` (`YYYYMMDD`) as the base date, unvalidated,
    /// overwriting any earlier value.
    pub fn date(self, date: &str) -> (r: Self)
        ensures
            r.base_date matches Some(d) && d@ == date@,
            r.client == self.client,
    {
        ElwDailyBuilder { client: self.client, base_date: Some(String::from_str(date)) }
    }

    /// Stores the latest workday (the day before today) as the base
    /// date, overwriting any earlier value.
    pub fn latest(self) -> (r: Self)
        ensures
            r.base_date matches Some(d) && spec_valid_date_format(d@),
            r.client == self.client,
    {
        ElwDailyBuilder { client: self.client, base_date: Some(latest_workday_string()) }
    }

    /// Validates the stored date and yields the request to send; an
    /// `InvalidInput` failure here is raised before any network
    /// activity could happen.
    pub fn prepare(self) -> (r: Result<ApiRequest, Error>)
        ensures
            r is Ok <==> (self.base_date matches Some(d) && spec_valid_date_format(d@)),
            r matches Ok(req) ==> (self.base_date matches Some(d) && req.base_date@ == d@
                && req.path@ == "/etp/elw_bydd_trd"@),
            r matches Err(e) ==> e matches Error::InvalidInput(_),
            self.base_date is None ==> (r matches Err(e) && e matches Error::InvalidInput(m)
                && m@ == "date is required, call `date()` or `latest()`"@),
            (self.base_date matches Some(d) && !spec_valid_date_format(d@)) ==> (r matches Err(
                e,
            ) && e matches Error::InvalidInput(m) && m@ == "date must be in YYYYMMDD format"@),
    {
        let date = match validate_base_date(self.base_date) {
            Ok(d) => d,
            Err(e) => {
                return Err(e);
            },
        };
        Ok(ApiRequest { path: String::from_str("/etp/elw_bydd_trd"), base_date: date })
    }

    /// Decodes a 2xx response body into this endpoint's table.
    pub fn parse_response(body: &str) -> (r: Result<Table, Error>)
        ensures
            r is Ok <==> (envelope_result(body@) matches Some(rv) && elw_daily_records_ok(rv)),
            r matches Ok(t) ==> elw_daily_body_table(body@, t),
            r matches Err(e) ==> (e matches Error::Parsing {
                details: _,
                source: _,
                response_body,
            } && response_body@ == body@),
    {
        elw_daily_table_from_body(body)
    }

    /// Turns one finished HTTP attempt into this endpoint's table or
    /// error, exactly as the error taxonomy classifies it.
    pub fn finish(outcome: HttpOutcome) -> (r: Result<Table, Error>)
        ensures
            outcome matches HttpOutcome::TransportError(m) ==> (r matches Err(e)
                && e matches Error::Network(n) && n@ == m@),
            outcome matches HttpOutcome::Response { status, retry_after, body } ==> {
                &&& (status == 429) ==> (r matches Err(e) && e matches Error::RateLimit {
                    retry_after: ra,
                } && ra == spec_retry_after(retry_after.deep_view()))
                &&& (!(200 <= status < 300) && status != 429) ==> (r matches Err(e)
                    && e matches Error::ApiError { status_code, message } && status_code
                    == status && message@ == body@)
                &&& (200 <= status < 300) ==> {
                    &&& (r is Ok <==> (envelope_result(body@) matches Some(rv)
                        && elw_daily_records_ok(rv)))
                    &&& (r matches Ok(t) ==> elw_daily_body_table(body@, t))
                    &&& (r matches Err(e) ==> (e matches Error::Parsing {
                        details: _,
                        source: _,
                        response_body,
                    } && response_body@ == body@))
                }
            },
    {
        let body = match classify_response(outcome) {
            Ok(b) => b,
            Err(e) => {
                return Err(e);
            },
        };
        elw_daily_table_from_body(body.as_str())
    }
}

} // verus!
