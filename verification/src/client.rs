//! The client configuration and the classification of HTTP outcomes.
//!
//! The client owns one base URL, one auth key, one timeout and one
//! user-agent string, all fixed at construction.  The HTTP round trip itself
//! is the host application's concern: it reports each outcome back as an
//! [`HttpOutcome`], and [`classify_response`] turns that outcome into the
//! library's error taxonomy or hands the body on for decoding.

use vstd::prelude::*;
use crate::api;
use crate::error::Error;
use crate::logging::LoggingConfig;
use crate::num::{chars_of, parse_uint_token, uint_token_ok, uint_token_val};

verus! {

/// The production endpoint of the data service.
pub open spec fn default_base_url() -> Seq<char> {
    "http://data-dbg.krx.co.kr/svc/apis"@
}

/// The default request timeout, in seconds.
pub const DEFAULT_TIMEOUT_SECS: u64 = 30;

/// A character an HTTP header value may hold: anything but the control
/// characters, with tab allowed.
pub open spec fn header_char_ok(c: char) -> bool {
    c == '\t' || (' ' <= c && c != 127 as char)
}

/// Whether `s` can be sent as an HTTP header value.
pub open spec fn header_value_ok(s: Seq<char>) -> bool {
    forall|i: int| 0 <= i < s.len() ==> header_char_ok(#[trigger] s[i])
}

/// Whether `s` can be sent as an HTTP header value, decided executably.
pub fn check_header_value(s: &str) -> (r: bool)
    ensures
        r == header_value_ok(s@),
{
    let n = s.unicode_len();
    let mut i: usize = 0;
    while i < n
        invariant
            n == s@.len(),
            0 <= i <= n,
            forall|k: int| 0 <= k < i ==> header_char_ok(#[trigger] s@[k]),
        decreases n - i,
    {
        let c = s.get_char(i);
        if !(c == '\t' || (' ' <= c && c != (127 as u8) as char)) {
            proof {
                assert(!header_char_ok(s@[i as int]));
            }
            return false;
        }
        i += 1;
    }
    true
}

/// The configured API client.  It is immutable after construction and holds
/// no per-request state, so one instance serves any number of requests.
#[derive(Debug)]
pub struct Client {
    /// The auth key sent as the `AUTH_KEY` header of every request.
    pub auth_key: String,
    /// The URL every endpoint path is appended to.
    pub base_url: String,
    /// The per-request timeout, in seconds.
    pub timeout_secs: u64,
    /// The user-agent string of every request.
    pub user_agent: String,
}

impl Client {
    /// Builds a client with the default configuration and the given auth
    /// key, which must be a sendable header value.
    pub fn new(auth_key: &str) -> (r: Client)
        requires
            header_value_ok(auth_key@),
        ensures
            r.auth_key@ == auth_key@,
            r.base_url@ == default_base_url(),
            r.timeout_secs == DEFAULT_TIMEOUT_SECS,
    {
        match Client::builder().auth_key(auth_key).build() {
            Ok(c) => c,
            Err(_) => vstd::pervasive::unreached(),
        }
    }

    /// A builder with nothing configured yet.
    pub fn builder() -> (r: ClientBuilder)
        ensures
            r.auth_key is None,
            r.base_url is None,
            r.timeout_secs is None,
            r.user_agent is None,
            r.logging_config is None,
    {
        ClientBuilder {
            auth_key: None,
            base_url: None,
            timeout_secs: None,
            user_agent: None,
            logging_config: None,
        }
    }

    /// The configured base URL.
    pub fn get_base_url(&self) -> (r: &str)
        ensures
            r@ == self.base_url@,
    {
        self.base_url.as_str()
    }

    /// The stock endpoints.
    pub fn stock(&self) -> (r: api::stock::StockApi<'_>)
        ensures
            r.client == self,
    {
        api::stock::StockApi { client: self }
    }

    /// The index endpoints.
    pub fn index(&self) -> (r: api::index::IndexApi<'_>)
        ensures
            r.client == self,
    {
        api::index::IndexApi { client: self }
    }

    /// The bond endpoints.
    pub fn bond(&self) -> (r: api::bond::BondApi<'_>)
        ensures
            r.client == self,
    {
        api::bond::BondApi { client: self }
    }

    /// The ETP endpoints.
    pub fn etp(&self) -> (r: api::etp::EtpApi<'_>)
        ensures
            r.client == self,
    {
        api::etp::EtpApi { client: self }
    }

    /// The derivative endpoints.
    pub fn derivative(&self) -> (r: api::derivative::DerivativeApi<'_>)
        ensures
            r.client == self,
    {
        api::derivative::DerivativeApi { client: self }
    }

    /// The general commodity endpoints.
    pub fn general(&self) -> (r: api::general::GeneralApi<'_>)
        ensures
            r.client == self,
    {
        api::general::GeneralApi { client: self }
    }

    /// The ESG endpoints.
    pub fn esg(&self) -> (r: api::esg::EsgApi<'_>)
        ensures
            r.client == self,
    {
        api::esg::EsgApi { client: self }
    }
}

/// Accumulates the client configuration; `build` checks it.
#[derive(Debug)]
pub struct ClientBuilder {
    pub auth_key: Option<String>,
    pub base_url: Option<String>,
    pub timeout_secs: Option<u64>,
    pub user_agent: Option<String>,
    pub logging_config: Option<LoggingConfig>,
}

impl Default for ClientBuilder {
    /// A builder with nothing configured yet.
    fn default() -> (r: Self)
        ensures
            r.auth_key is None,
            r.base_url is None,
            r.timeout_secs is None,
            r.user_agent is None,
            r.logging_config is None,
    {
        Client::builder()
    }
}

impl ClientBuilder {
    /// Sets the auth key.
    pub fn auth_key(self, key: &str) -> (r: Self)
        ensures
            r.auth_key matches Some(k) && k@ == key@,
            r.base_url == self.base_url,
            r.timeout_secs == self.timeout_secs,
            r.user_agent == self.user_agent,
            r.logging_config == self.logging_config,
    {
        ClientBuilder { auth_key: Some(String::from_str(key)), ..self }
    }

    /// Overrides the base URL; the default is the production endpoint.
    pub fn base_url(self, url: &str) -> (r: Self)
        ensures
            r.base_url matches Some(u) && u@ == url@,
            r.auth_key == self.auth_key,
            r.timeout_secs == self.timeout_secs,
            r.user_agent == self.user_agent,
            r.logging_config == self.logging_config,
    {
        ClientBuilder { base_url: Some(String::from_str(url)), ..self }
    }

    /// Sets the request timeout, in seconds.
    pub fn timeout(self, timeout_secs: u64) -> (r: Self)
        ensures
            r.timeout_secs == Some(timeout_secs),
            r.auth_key == self.auth_key,
            r.base_url == self.base_url,
            r.user_agent == self.user_agent,
            r.logging_config == self.logging_config,
    {
        ClientBuilder { timeout_secs: Some(timeout_secs), ..self }
    }

    /// Sets the user-agent header value.
    pub fn user_agent(self, user_agent: &str) -> (r: Self)
        ensures
            r.user_agent matches Some(u) && u@ == user_agent@,
            r.auth_key == self.auth_key,
            r.base_url == self.base_url,
            r.timeout_secs == self.timeout_secs,
            r.logging_config == self.logging_config,
    {
        ClientBuilder { user_agent: Some(String::from_str(user_agent)), ..self }
    }

    /// Stores a logging configuration for the host to install.
    pub fn logging(self, config: LoggingConfig) -> (r: Self)
        ensures
            r.logging_config is Some,
            r.auth_key == self.auth_key,
            r.base_url == self.base_url,
            r.timeout_secs == self.timeout_secs,
            r.user_agent == self.user_agent,
    {
        ClientBuilder { logging_config: Some(config), ..self }
    }

    /// Checks the configuration and builds the client.  The auth key must be
    /// set and must be a sendable header value; everything else defaults.
    pub fn build(self) -> (r: Result<Client, Error>)
        ensures
            r is Ok <==> (self.auth_key matches Some(k) && header_value_ok(k@)),
            r matches Ok(c) ==> {
                &&& self.auth_key matches Some(k) && c.auth_key@ == k@
                &&& match self.base_url {
                    Some(u) => c.base_url@ == u@,
                    None => c.base_url@ == default_base_url(),
                }
                &&& c.timeout_secs == match self.timeout_secs {
                    Some(t) => t,
                    None => DEFAULT_TIMEOUT_SECS,
                }
                &&& match self.user_agent {
                    Some(u) => c.user_agent@ == u@,
                    None => c.user_agent@ == "krx-rs/0.1.0"@,
                }
            },
            r matches Err(e) ==> e matches Error::InvalidInput(_),
    {
        let auth_key = match self.auth_key {
            Some(k) => k,
            None => {
                return Err(Error::InvalidInput(String::from_str("auth_key is required")));
            },
        };
        if !check_header_value(auth_key.as_str()) {
            return Err(Error::InvalidInput(String::from_str("Invalid auth_key format")));
        }
        let base_url = match self.base_url {
            Some(u) => u,
            None => String::from_str("http://data-dbg.krx.co.kr/svc/apis"),
        };
        let timeout_secs = match self.timeout_secs {
            Some(t) => t,
            None => DEFAULT_TIMEOUT_SECS,
        };
        let user_agent = match self.user_agent {
            Some(u) => u,
            None => String::from_str("krx-rs/0.1.0"),
        };
        Ok(Client { auth_key, base_url, timeout_secs, user_agent })
    }
}

/// One finished HTTP attempt, as the host hands it back: either the
/// transport failed outright, or a response arrived with its status, its
/// `retry-after` header (when readable as text), and its body text.
#[derive(Debug)]
pub enum HttpOutcome {
    /// DNS, connect, TLS or timeout failure; the message describes it.
    TransportError(String),
    /// A response arrived.
    Response { status: u16, retry_after: Option<String>, body: String },
}

/// The seconds a 429 response asks the caller to wait: its `retry-after`
/// header read as an integer, or 60 when the header is absent or unreadable.
pub open spec fn spec_retry_after(h: Option<Seq<char>>) -> int {
    match h {
        Some(s) => if uint_token_ok(s) && uint_token_val(s) <= u64::MAX {
            uint_token_val(s)
        } else {
            60
        },
        None => 60,
    }
}

/// Classifies one HTTP outcome: transport failures become `Network`, 429
/// becomes `RateLimit` with its advertised or defaulted wait, any other
/// non-2xx status becomes `ApiError` carrying the literal body, and a 2xx
/// body is handed back for decoding.
pub fn classify_response(outcome: HttpOutcome) -> (r: Result<String, Error>)
    ensures
        outcome matches HttpOutcome::TransportError(m) ==> (r matches Err(e)
            && e matches Error::Network(n) && n@ == m@),
        outcome matches HttpOutcome::Response { status, retry_after, body } ==> {
            &&& (200 <= status < 300) ==> (r matches Ok(b) && b@ == body@)
            &&& (status == 429) ==> (r matches Err(e) && e matches Error::RateLimit {
                retry_after: ra,
            } && ra == spec_retry_after(retry_after.deep_view()))
            &&& (!(200 <= status < 300) && status != 429) ==> (r matches Err(e)
                && e matches Error::ApiError { status_code, message } && status_code == status
                && message@ == body@)
        },
{
    match outcome {
        HttpOutcome::TransportError(m) => Err(Error::Network(m)),
        HttpOutcome::Response { status, retry_after, body } => {
            if 200 <= status && status < 300 {
                Ok(body)
            } else if status == 429 {
                let secs: u64 = match retry_after {
                    Some(h) => {
                        let cs = chars_of(h.as_str());
                        match parse_uint_token(&cs) {
                            Some(v) => v,
                            None => 60,
                        }
                    },
                    None => 60,
                };
                Err(Error::RateLimit { retry_after: secs })
            } else {
                Err(Error::ApiError { status_code: status, message: body })
            }
        },
    }
}

} // verus!
