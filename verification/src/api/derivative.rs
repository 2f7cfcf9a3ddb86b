//! The derivative endpoints: futures and options, exchange-wide and per
//! equity board.

use vstd::prelude::*;
use crate::api::common::{
    ApiRequest, latest_workday_string, spec_valid_date_format, validate_base_date,
};
use crate::client::{Client, HttpOutcome, classify_response, spec_retry_after};
use crate::data::envelope_result;
use crate::data::derivative::{equity_kosdaq_futures_daily_body_table, equity_kosdaq_futures_daily_records_ok, equity_kosdaq_futures_daily_table_from_body, futures_daily_body_table, futures_daily_records_ok, futures_daily_table_from_body, options_daily_body_table, options_daily_records_ok, options_daily_table_from_body};
use crate::error::Error;
use crate::table::Table;

verus! {

/// Access to the derivative endpoints.  The facade is a lightweight view of the client:
/// it holds only the borrowed client and builds one builder per call.
pub struct DerivativeApi<'a> {
    pub client: &'a Client,
}

impl<'a> DerivativeApi<'a> {
    /// Daily trades of every futures product.
    pub fn futures_daily(&self) -> (r: FuturesDailyBuilder<'a>)
        ensures
            r.client == self.client,
            r.base_date is None,
    {
        FuturesDailyBuilder { client: self.client, base_date: None }
    }

    /// Daily trades of KOSPI single-stock futures.
    pub fn equity_stock_futures_daily(&self) -> (r: EquityStockFuturesDailyBuilder<'a>)
        ensures
            r.client == self.client,
            r.base_date is None,
    {
        EquityStockFuturesDailyBuilder { client: self.client, base_date: None }
    }

    /// Daily trades of KOSDAQ single-stock futures.
    pub fn equity_kosdaq_futures_daily(&self) -> (r: EquityKosdaqFuturesDailyBuilder<'a>)
        ensures
            r.client == self.client,
            r.base_date is None,
    {
        EquityKosdaqFuturesDailyBuilder { client: self.client, base_date: None }
    }

    /// Daily trades of every options product.
    pub fn options_daily(&self) -> (r: OptionsDailyBuilder<'a>)
        ensures
            r.client == self.client,
            r.base_date is None,
    {
        OptionsDailyBuilder { client: self.client, base_date: None }
    }

    /// Daily trades of KOSPI single-stock options.
    pub fn equity_stock_options_daily(&self) -> (r: EquityStockOptionsDailyBuilder<'a>)
        ensures
            r.client == self.client,
            r.base_date is None,
    {
        EquityStockOptionsDailyBuilder { client: self.client, base_date: None }
    }

    /// Daily trades of KOSDAQ single-stock options.
    pub fn equity_kosdaq_options_daily(&self) -> (r: EquityKosdaqOptionsDailyBuilder<'a>)
        ensures
            r.client == self.client,
            r.base_date is None,
    {
        EquityKosdaqOptionsDailyBuilder { client: self.client, base_date: None }
    }

}

/// Builds the one request of its endpoint: it accumulates a base date
/// (the last call wins) and hands out the pure steps around the HTTP
/// round trip, which the host performs.
#[must_use]
pub struct FuturesDailyBuilder<'a> {
    pub client: &'a Client,
    pub base_date: Option<String>,
}

impl<'a> FuturesDailyBuilder<'a> {
    /// Stores `date` (`YYYYMMDD`) as the base date, unvalidated,
    /// overwriting any earlier value.
    pub fn date(self, date: &str) -> (r: Self)
        ensures
            r.base_date matches Some(d) && d@ == date@,
            r.client == self.client,
    {
        FuturesDailyBuilder { client: self.client, base_date: Some(String::from_str(date)) }
    }

    /// Stores the latest workday (the day before today) as the base
    /// date, overwriting any earlier value.
    pub fn latest(self) -> (r: Self)
        ensures
            r.base_date matches Some(d) && spec_valid_date_format(d@),
            r.client == self.client,
    {
        FuturesDailyBuilder { client: self.client, base_date: Some(latest_workday_string()) }
    }

    /// Validates the stored date and yields the request to send; an
    /// `InvalidInput` failure here is raised before any network
    /// activity could happen.
    pub fn prepare(self) -> (r: Result<ApiRequest, Error>)
        ensures
            r is Ok <==> (self.base_date matches Some(d) && spec_valid_date_format(d@)),
            r matches Ok(req) ==> (self.base_date matches Some(d) && req.base_date@ == d@
                && req.path@ == "/drv/fut_bydd_trd"@),
            r matches Err(e) ==> e matches Error::InvalidInput(_),
            self.base_date is None ==> (r matches Err(e) && e matches Error::InvalidInput(m)
                && m@ == "date is required, call `date()` or `latest()`"@),
            (self.base_date matches Some(d) && !spec_valid_date_format(d@)) ==> (r matches Err(
                e,
            ) && e matches Error::InvalidInput(m) && m@ == "date must be in YYYYMMDD format"@),
    {
        let date = match validate_base_date(self.base_date) {
            Ok(d) => d,
            Err(e) => {
                return Err(e);
            },
        };
        Ok(ApiRequest { path: String::from_str("/drv/fut_bydd_trd"), base_date: date })
    }

    /// Decodes a 2xx response body into this endpoint's table.
    pub fn parse_response(body: &str) -> (r: Result<Table, Error>)
        ensures
            r is Ok <==> (envelope_result(body@) matches Some(rv) && futures_daily_records_ok(rv)),
            r matches Ok(t) ==> futures_daily_body_table(body@, t),
            r matches Err(e) ==> (e matches Error::Parsing {
                details: _,
                source: _,
                response_body,
            } && response_body@ == body@),
    {
        futures_daily_table_from_body(body)
    }

    /// Turns one finished HTTP attempt into this endpoint's table or
    /// error, exactly as the error taxonomy classifies it.
    pub fn finish(outcome: HttpOutcome) -> (r: Result<Table, Error>)
        ensures
            outcome matches HttpOutcome::TransportError(m) ==> (r matches Err(e)
                && e matches Error::Network(n) && n@ == m@),
            outcome matches HttpOutcome::Response { status, retry_after, body } ==> {
                &&& (status == 429) ==> (r matches Err(e) && e matches Error::RateLimit {
                    retry_after: ra,
                } && ra == spec_retry_after(retry_after.deep_view()))
                &&& (!(200 <= status < 300) && status != 429) ==> (r matches Err(e)
                    && e matches Error::ApiError { status_code, message } && status_code
                    == status && message@ == body@)
                &&& (200 <= status < 300) ==> {
                    &&& (r is Ok <==> (envelope_result(body@) matches Some(rv)
                        && futures_daily_records_ok(rv)))
                    &&& (r matches Ok(t) ==> futures_daily_body_table(body@, t))
                    &&& (r matches Err(e) ==> (e matches Error::Parsing {
                        details: _,
                        source: _,
                        response_body,
                    } && response_body@ == body@))
                }
            },
    {
        let body = match classify_response(outcome) {
            Ok(b) => b,
            Err(e) => {
                return Err(e);
            },
        };
        futures_daily_table_from_body(body.as_str())
    }
}

/// Builds the one request of its endpoint: it accumulates a base date
/// (the last call wins) and hands out the pure steps around the HTTP
/// round trip, which the host performs.
#[must_use]
pub struct EquityStockFuturesDailyBuilder<'a> {
    pub client: &'a Client,
    pub base_date: Option<String>,
}

impl<'a> EquityStockFuturesDailyBuilder<'a> {
    /// Stores `date` (`YYYYMMDD`) as the base date, unvalidated,
    /// overwriting any earlier value.
    pub fn date(self, date: &str) -> (r: Self)
        ensures
            r.base_date matches Some(d) && d@ == date@,
            r.client == self.client,
    {
        EquityStockFuturesDailyBuilder { client: self.client, base_date: Some(String::from_str(date)) }
    }

    /// Stores the latest workday (the day before today) as the base
    /// date, overwriting any earlier value.
    pub fn latest(self) -> (r: Self)
        ensures
            r.base_date matches Some(d) && spec_valid_date_format(d@),
            r.client == self.client,
    {
        EquityStockFuturesDailyBuilder { client: self.client, base_date: Some(latest_workday_string()) }
    }

    /// Validates the stored date and yields the request to send; an
    /// `InvalidInput` failure here is raised before any network
    /// activity could happen.
    pub fn prepare(self) -> (r: Result<ApiRequest, Error>)
        ensures
            r is Ok <==> (self.base_date matches Some(d) && spec_valid_date_format(d@)),
            r matches Ok(req) ==> (self.base_date matches Some(d) && req.base_date@ == d@
                && req.path@ == "/drv/eqsfu_stk_bydd_trd"@),
            r matches Err(e) ==> e matches Error::InvalidInput(_),
            self.base_date is None ==> (r matches Err(e) && e matches Error::InvalidInput(m)
                && m@ == "date is required, call `date()` or `latest()`"@),
            (self.base_date matches Some(d) && !spec_valid_date_format(d@)) ==> (r matches Err(
                e,
            ) && e matches Error::InvalidInput(m) && m@ == "date must be in YYYYMMDD format"@),
    {
        let date = match validate_base_date(self.base_date) {
            Ok(d) => d,
            Err(e) => {
                return Err(e);
            },
        };
        Ok(ApiRequest { path: String::from_str("/drv/eqsfu_stk_bydd_trd"), base_date: date })
    }

    /// Decodes a 2xx response body into this endpoint's table.
    pub fn parse_response(body: &str) -> (r: Result<Table, Error>)
        ensures
            r is Ok <==> (envelope_result(body@) matches Some(rv) && equity_kosdaq_futures_daily_records_ok(rv)),
            r matches Ok(t) ==> equity_kosdaq_futures_daily_body_table(body@, t),
            r matches Err(e) ==> (e matches Error::Parsing {
                details: _,
                source: _,
                response_body,
            } && response_body@ == body@),
    {
        equity_kosdaq_futures_daily_table_from_body(body)
    }

    /// Turns one finished HTTP attempt into this endpoint's table or
    /// error, exactly as the error taxonomy classifies it.
    pub fn finish(outcome: HttpOutcome) -> (r: Result<Table, Error>)
        ensures
            outcome matches HttpOutcome::TransportError(m) ==> (r matches Err(e)
                && e matches Error::Network(n) && n@ == m@),
            outcome matches HttpOutcome::Response { status, retry_after, body } ==> {
                &&& (status == 429) ==> (r matches Err(e) && e matches Error::RateLimit {
                    retry_after: ra,
                } && ra == spec_retry_after(retry_after.deep_view()))
                &&& (!(200 <= status < 300) && status != 429) ==> (r matches Err(e)
                    && e matches Error::ApiError { status_code, message } && status_code
                    == status && message@ == body@)
                &&& (200 <= status < 300) ==> {
                    &&& (r is Ok <==> (envelope_result(body@) matches Some(rv)
                        && equity_kosdaq_futures_daily_records_ok(rv)))
                    &&& (r matches Ok(t) ==> equity_kosdaq_futures_daily_body_table(body@, t))
                    &&& (r matches Err(e) ==> (e matches Error::Parsing {
                        details: _,
                        source: _,
                        response_body,
                    } && response_body@ == body@))
                }
            },
    {
        let body = match classify_response(outcome) {
            Ok(b) => b,
            Err(e) => {
                return Err(e);
            },
        };
        equity_kosdaq_futures_daily_table_from_body(body.as_str())
    }
}

/// Builds the one request of its endpoint: it accumulates a base date
/// (the last call wins) and hands out the pure steps around the HTTP
/// round trip, which the host performs.
#[must_use]
pub struct EquityKosdaqFuturesDailyBuilder<'a> {
    pub client: &'a Client,
    pub base_date: Option<String>,
}

impl<'a> EquityKosdaqFuturesDailyBuilder<'a> {
    /// Stores `date` (`YYYYMMDD`) as the base date, unvalidated,
    /// overwriting any earlier value.
    pub fn date(self, date: &str) -> (r: Self)
        ensures
            r.base_date matches Some(d) && d@ == date@,
            r.client == self.client,
    {
        EquityKosdaqFuturesDailyBuilder { client: self.client, base_date: Some(String::from_str(date)) }
    }

    /// Stores the latest workday (the day before today) as the base
    /// date, overwriting any earlier value.
    pub fn latest(self) -> (r: Self)
        ensures
            r.base_date matches Some(d) && spec_valid_date_format(d@),
            r.client == self.client,
    {
        EquityKosdaqFuturesDailyBuilder { client: self.client, base_date: Some(latest_workday_string()) }
    }

    /// Validates the stored date and yields the request to send; an
    /// `InvalidInput` failure here is raised before any network
    /// activity could happen.
    pub fn prepare(self) -> (r: Result<ApiRequest, Error>)
        ensures
            r is Ok <==> (self.base_date matches Some(d) && spec_valid_date_format(d@)),
            r matches Ok(req) ==> (self.base_date matches Some(d) && req.base_date@ == d@
                && req.path@ == "/drv/eqkfu_ksq_bydd_trd"@),
            r matches Err(e) ==> e matches Error::InvalidInput(_),
            self.base_date is None ==> (r matches Err(e) && e matches Error::InvalidInput(m)
                && m@ == "date is required, call `date()` or `latest()`"@),
            (self.base_date matches Some(d) && !spec_valid_date_format(d@)) ==> (r matches Err(
                e,
            ) && e matches Error::InvalidInput(m) && m@ == "date must be in YYYYMMDD format"@),
    {
        let date = match validate_base_date(self.base_date) {
            Ok(d) => d,
            Err(e) => {
                return Err(e);
            },
        };
        Ok(ApiRequest { path: String::from_str("/drv/eqkfu_ksq_bydd_trd"), base_date: date })
    }

    /// Decodes a 2xx response body into this endpoint's table.
    pub fn parse_response(body: &str) -> (r: Result<Table, Error>)
        ensures
            r is Ok <==> (envelope_result(body@) matches Some(rv) && equity_kosdaq_futures_daily_records_ok(rv)),
            r matches Ok(t) ==> equity_kosdaq_futures_daily_body_table(body@, t),
            r matches Err(e) ==> (e matches Error::Parsing {
                details: _,
                source: _,
                response_body,
            } && response_body@ == body@),
    {
        equity_kosdaq_futures_daily_table_from_body(body)
    }

    /// Turns one finished HTTP attempt into this endpoint's table or
    /// error, exactly as the error taxonomy classifies it.
    pub fn finish(outcome: HttpOutcome) -> (r: Result<Table, Error>)
        ensures
            outcome matches HttpOutcome::TransportError(m) ==> (r matches Err(e)
                && e matches Error::Network(n) && n@ == m@),
            outcome matches HttpOutcome::Response { status, retry_after, body } ==> {
                &&& (status == 429) ==> (r matches Err(e) && e matches Error::RateLimit {
                    retry_after: ra,
                } && ra == spec_retry_after(retry_after.deep_view()))
                &&& (!(200 <= status < 300) && status != 429) ==> (r matches Err(e)
                    && e matches Error::ApiError { status_code, message } && status_code
                    == status && message@ == body@)
                &&& (200 <= status < 300) ==> {
                    &&& (r is Ok <==> (envelope_result(body@) matches Some(rv)
                        && equity_kosdaq_futures_daily_records_ok(rv)))
                    &&& (r matches Ok(t) ==> equity_kosdaq_futures_daily_body_table(body@, t))
                    &&& (r matches Err(e) ==> (e matches Error::Parsing {
                        details: _,
                        source: _,
                        response_body,
                    } && response_body@ == body@))
                }
            },
    {
        let body = match classify_response(outcome) {
            Ok(b) => b,
            Err(e) => {
                return Err(e);
            },
        };
        equity_kosdaq_futures_daily_table_from_body(body.as_str())
    }
}

/// Builds the one request of its endpoint: it accumulates a base date
/// (the last call wins) and hands out the pure steps around the HTTP
/// round trip, which the host performs.
#[must_use]
pub struct OptionsDailyBuilder<'a> {
    pub client: &'a Client,
    pub base_date: Option<String>,
}

impl<'a> OptionsDailyBuilder<'a> {
    /// Stores `date` (`YYYYMMDD`) as the base date, unvalidated,
    /// overwriting any earlier value.
    pub fn date(self, date: &str) -> (r: Self)
        ensures
            r.base_date matches Some(d) && d@ == date@,
            r.client == self.client,
    {
        OptionsDailyBuilder { client: self.client, base_date: Some(String::from_str(date)) }
    }

    /// Stores the latest workday (the day before today) as the base
    /// date, overwriting any earlier value.
    pub fn latest(self) -> (r: Self)
        ensures
            r.base_date matches Some(d) && spec_valid_date_format(d@),
            r.client == self.client,
    {
        OptionsDailyBuilder { client: self.client, base_date: Some(latest_workday_string()) }
    }

    /// Validates the stored date and yields the request to send; an
    /// `InvalidInput` failure here is raised before any network
    /// activity could happen.
    pub fn prepare(self) -> (r: Result<ApiRequest, Error>)
        ensures
            r is Ok <==> (self.base_date matches Some(d) && spec_valid_date_format(d@)),
            r matches Ok(req) ==> (self.base_date matches Some(d) && req.base_date@ == d@
                && req.path@ == "/drv/opt_bydd_trd"@),
            r matches Err(e) ==> e matches Error::InvalidInput(_),
            self.base_date is None ==> (r matches Err(e) && e matches Error::InvalidInput(m)
                && m@ == "date is required, call `date()` or `latest()`"@),
            (self.base_date matches Some(d) && !spec_valid_date_format(d@)) ==> (r matches Err(
                e,
            ) && e matches Error::InvalidInput(m) && m@ == "date must be in YYYYMMDD format"@),
    {
        let date = match validate_base_date(self.base_date) {
            Ok(d) => d,
            Err(e) => {
                return Err(e);
            },
        };
        Ok(ApiRequest { path: String::from_str("/drv/opt_bydd_trd"), base_date: date })
    }

    /// Decodes a 2xx response body into this endpoint's table.
    pub fn parse_response(body: &str) -> (r: Result<Table, Error>)
        ensures
            r is Ok <==> (envelope_result(body@) matches Some(rv) && options_daily_records_ok(rv)),
            r matches Ok(t) ==> options_daily_body_table(body@, t),
            r matches Err(e) ==> (e matches Error::Parsing {
                details: _,
                source: _,
                response_body,
            } && response_body@ == body@),
    {
        options_daily_table_from_body(body)
    }

    /// Turns one finished HTTP attempt into this endpoint's table or
    /// error, exactly as the error taxonomy classifies it.
    pub fn finish(outcome: HttpOutcome) -> (r: Result<Table, Error>)
        ensures
            outcome matches HttpOutcome::TransportError(m) ==> (r matches Err(e)
                && e matches Error::Network(n) && n@ == m@),
            outcome matches HttpOutcome::Response { status, retry_after, body } ==> {
                &&& (status == 429) ==> (r matches Err(e) && e matches Error::RateLimit {
                    retry_after: ra,
                } && ra == spec_retry_after(retry_after.deep_view()))
                &&& (!(200 <= status < 300) && status != 429) ==> (r matches Err(e)
                    && e matches Error::ApiError { status_code, message } && status_code
                    == status && message@ == body@)
                &&& (200 <= status < 300) ==> {
                    &&& (r is Ok <==> (envelope_result(body@) matches Some(rv)
                        && options_daily_records_ok(rv)))
                    &&& (r matches Ok(t) ==> options_daily_body_table(body@, t))
                    &&& (r matches Err(e) ==> (e matches Error::Parsing {
                        details: _,
                        source: _,
                        response_body,
                    } && response_body@ == body@))
                }
            },
    {
        let body = match classify_response(outcome) {
            Ok(b) => b,
            Err(e) => {
                return Err(e);
            },
        };
        options_daily_table_from_body(body.as_str())
    }
}

/// Builds the one request of its endpoint: it accumulates a base date
/// (the last call wins) and hands out the pure steps around the HTTP
/// round trip, which the host performs.
#[must_use]
pub struct EquityStockOptionsDailyBuilder<'a> {
    pub client: &'a Client,
    pub base_date: Option<String>,
}

impl<'a> EquityStockOptionsDailyBuilder<'a> {
    /// Stores `date` (`YYYYMMDD`) as the base date, unvalidated,
    /// overwriting any earlier value.
    pub fn date(self, date: &str) -> (r: Self)
        ensures
            r.base_date matches Some(d) && d@ == date@,
            r.client == self.client,
    {
        EquityStockOptionsDailyBuilder { client: self.client, base_date: Some(String::from_str(date)) }
    }

    /// Stores the latest workday (the day before today) as the base
    /// date, overwriting any earlier value.
    pub fn latest(self) -> (r: Self)
        ensures
            r.base_date matches Some(d) && spec_valid_date_format(d@),
            r.client == self.client,
    {
        EquityStockOptionsDailyBuilder { client: self.client, base_date: Some(latest_workday_string()) }
    }

    /// Validates the stored date and yields the request to send; an
    /// `InvalidInput` failure here is raised before any network
    /// activity could happen.
    pub fn prepare(self) -> (r: Result<ApiRequest, Error>)
        ensures
            r is Ok <==> (self.base_date matches Some(d) && spec_valid_date_format(d@)),
            r matches Ok(req) ==> (self.base_date matches Some(d) && req.base_date@ == d@
                && req.path@ == "/drv/eqsop_bydd_trd"@),
            r matches Err(e) ==> e matches Error::InvalidInput(_),
            self.base_date is None ==> (r matches Err(e) && e matches Error::InvalidInput(m)
                && m@ == "date is required, call `date()` or `latest()`"@),
            (self.base_date matches Some(d) && !spec_valid_date_format(d@)) ==> (r matches Err(
                e,
            ) && e matches Error::InvalidInput(m) && m@ == "date must be in YYYYMMDD format"@),
    {
        let date = match validate_base_date(self.base_date) {
            Ok(d) => d,
            Err(e) => {
                return Err(e);
            },
        };
        Ok(ApiRequest { path: String::from_str("/drv/eqsop_bydd_trd"), base_date: date })
    }

    /// Decodes a 2xx response body into this endpoint's table.
    pub fn parse_response(body: &str) -> (r: Result<Table, Error>)
        ensures
            r is Ok <==> (envelope_result(body@) matches Some(rv) && options_daily_records_ok(rv)),
            r matches Ok(t) ==> options_daily_body_table(body@, t),
            r matches Err(e) ==> (e matches Error::Parsing {
                details: _,
                source: _,
                response_body,
            } && response_body@ == body@),
    {
        options_daily_table_from_body(body)
    }

    /// Turns one finished HTTP attempt into this endpoint's table or
    /// error, exactly as the error taxonomy classifies it.
    pub fn finish(outcome: HttpOutcome) -> (r: Result<Table, Error>)
        ensures
            outcome matches HttpOutcome::TransportError(m) ==> (r matches Err(e)
                && e matches Error::Network(n) && n@ == m@),
            outcome matches HttpOutcome::Response { status, retry_after, body } ==> {
                &&& (status == 429) ==> (r matches Err(e) && e matches Error::RateLimit {
                    retry_after: ra,
                } && ra == spec_retry_after(retry_after.deep_view()))
                &&& (!(200 <= status < 300) && status != 429) ==> (r matches Err(e)
                    && e matches Error::ApiError { status_code, message } && status_code
                    == status && message@ == body@)
                &&& (200 <= status < 300) ==> {
                    &&& (r is Ok <==> (envelope_result(body@) matches Some(rv)
                        && options_daily_records_ok(rv)))
                    &&& (r matches Ok(t) ==> options_daily_body_table(body@, t))
                    &&& (r matches Err(e) ==> (e matches Error::Parsing {
                        details: _,
                        source: _,
                        response_body,
                    } && response_body@ == body@))
                }
            },
    {
        let body = match classify_response(outcome) {
            Ok(b) => b,
            Err(e) => {
                return Err(e);
            },
        };
        options_daily_table_from_body(body.as_str())
    }
}

/// Builds the one request of its endpoint: it accumulates a base date
/// (the last call wins) and hands out the pure steps around the HTTP
/// round trip, which the host performs.
#[must_use]
pub struct EquityKosdaqOptionsDailyBuilder<'a> {
    pub client: &'a Client,
    pub base_date: Option<String>,
}

impl<'a> EquityKosdaqOptionsDailyBuilder<'a> {
    /// Stores `date` (`YYYYMMDD`) as the base date, unvalidated,
    /// overwriting any earlier value.
    pub fn date(self, date: &str) -> (r: Self)
        ensures
            r.base_date matches Some(d) && d@ == date@,
            r.client == self.client,
    {
        EquityKosdaqOptionsDailyBuilder { client: self.client, base_date: Some(String::from_str(date)) }
    }

    /// Stores the latest workday (the day before today) as the base
    /// date, overwriting any earlier value.
    pub fn latest(self) -> (r: Self)
        ensures
            r.base_date matches Some(d) && spec_valid_date_format(d@),
            r.client == self.client,
    {
        EquityKosdaqOptionsDailyBuilder { client: self.client, base_date: Some(latest_workday_string()) }
    }

    /// Validates the stored date and yields the request to send; an
    /// `InvalidInput` failure here is raised before any network
    /// activity could happen.
    pub fn prepare(self) -> (r: Result<ApiRequest, Error>)
        ensures
            r is Ok <==> (self.base_date matches Some(d) && spec_valid_date_format(d@)),
            r matches Ok(req) ==> (self.base_date matches Some(d) && req.base_date@ == d@
                && req.path@ == "/drv/eqkop_bydd_trd"@),
            r matches Err(e) ==> e matches Error::InvalidInput(_),
            self.base_date is None ==> (r matches Err(e) && e matches Error::InvalidInput(m)
                && m@ == "date is required, call `date()` or `latest()`"@),
            (self.base_date matches Some(d) && !spec_valid_date_format(d@)) ==> (r matches Err(
                e,
            ) && e matches Error::InvalidInput(m) && m@ == "date must be in YYYYMMDD format"@),
    {
        let date = match validate_base_date(self.base_date) {
            Ok(d) => d,
            Err(e) => {
                return Err(e);
            },
        };
        Ok(ApiRequest { path: String::from_str("/drv/eqkop_bydd_trd"), base_date: date })
    }

    /// Decodes a 2xx response body into this endpoint's table.
    pub fn parse_response(body: &str) -> (r: Result<Table, Error>)
        ensures
            r is Ok <==> (envelope_result(body@) matches Some(rv) && options_daily_records_ok(rv)),
            r matches Ok(t) ==> options_daily_body_table(body@, t),
            r matches Err(e) ==> (e matches Error::Parsing {
                details: _,
                source: _,
                response_body,
            } && response_body@ == body@),
    {
        options_daily_table_from_body(body)
    }

    /// Turns one finished HTTP attempt into this endpoint's table or
    /// error, exactly as the error taxonomy classifies it.
    pub fn finish(outcome: HttpOutcome) -> (r: Result<Table, Error>)
        ensures
            outcome matches HttpOutcome::TransportError(m) ==> (r matches Err(e)
                && e matches Error::Network(n) && n@ == m@),
            outcome matches HttpOutcome::Response { status, retry_after, body } ==> {
                &&& (status == 429) ==> (r matches Err(e) && e matches Error::RateLimit {
                    retry_after: ra,
                } && ra == spec_retry_after(retry_after.deep_view()))
                &&& (!(200 <= status < 300) && status != 429) ==> (r matches Err(e)
                    && e matches Error::ApiError { status_code, message } && status_code
                    == status && message@ == body@)
                &&& (200 <= status < 300) ==> {
                    &&& (r is Ok <==> (envelope_result(body@) matches Some(rv)
                        && options_daily_records_ok(rv)))
                    &&& (r matches Ok(t) ==> options_daily_body_table(body@, t))
                    &&& (r matches Err(e) ==> (e matches Error::Parsing {
                        details: _,
                        source: _,
                        response_body,
                    } && response_body@ == body@))
                }
            },
    {
        let body = match classify_response(outcome) {
            Ok(b) => b,
            Err(e) => {
                return Err(e);
            },
        };
        options_daily_table_from_body(body.as_str())
    }
}

} // verus!
