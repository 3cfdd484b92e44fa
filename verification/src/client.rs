//! Client configuration and endpoint request construction.
//!
//! [`Amber`] holds the immutable configuration of a client: the optional
//! bearer credential, the base URL and the retry policy. Each endpoint
//! method builds the request an operation needs — its path and its query
//! parameters — with absent optional parameters omitted entirely, never
//! sent as empty values. Performing the request is the transport layer's
//! job; decoding its body is the decoder module's.

use vstd::prelude::*;
use vstd::string::*;

use crate::datetime::{spec_render_date, Date};
use crate::models::{spec_resolution_minutes, spec_state_code, Resolution, State};
use crate::retry::RetryPolicy;
use crate::text::nat_digits;

verus! {

/// One endpoint request: a path relative to the base URL and the query
/// parameters to send with it.
#[derive(Debug, Clone)]
pub struct ApiRequest {
    /// The path, relative to the client's base URL.
    pub path: String,
    /// The query parameters, in order; each key appears at most once.
    pub query: Vec<(String, String)>,
}

/// Mathematical image of an [`ApiRequest`].
pub struct ApiRequestV {
    pub path: Seq<char>,
    pub query: Seq<(Seq<char>, Seq<char>)>,
}

impl View for ApiRequest {
    type V = ApiRequestV;

    open spec fn view(&self) -> ApiRequestV {
        ApiRequestV {
            path: self.path@,
            query: Seq::new(self.query@.len(), |i: int| (self.query@[i].0@, self.query@[i].1@)),
        }
    }
}

/// The encoding of one optional parameter: one pair when present,
/// nothing at all when absent.
pub open spec fn opt_pair(key: Seq<char>, value: Option<Seq<char>>) -> Seq<
    (Seq<char>, Seq<char>),
> {
    match value {
        Some(v) => seq![(key, v)],
        None => Seq::<(Seq<char>, Seq<char>)>::empty(),
    }
}

/// A resolution parameter's wire value: its minute count in decimal.
pub open spec fn opt_resolution(r: Option<Resolution>) -> Option<Seq<char>> {
    match r {
        Some(x) => Some(nat_digits(spec_resolution_minutes(x) as nat)),
        None => None,
    }
}

/// A count parameter's wire value: the number in decimal.
pub open spec fn opt_count(n: Option<u32>) -> Option<Seq<char>> {
    match n {
        Some(x) => Some(nat_digits(x as nat)),
        None => None,
    }
}

/// A date parameter's wire value: the calendar form.
pub open spec fn opt_date(d: Option<Date>) -> Option<Seq<char>> {
    match d {
        Some(x) => Some(spec_render_date(x)),
        None => None,
    }
}

/// The query of a historical prices request.
pub open spec fn spec_prices_query(
    start_date: Option<Date>,
    end_date: Option<Date>,
    resolution: Option<Resolution>,
) -> Seq<(Seq<char>, Seq<char>)> {
    opt_pair("startDate"@, opt_date(start_date)).add(
        opt_pair("endDate"@, opt_date(end_date)),
    ).add(opt_pair("resolution"@, opt_resolution(resolution)))
}

/// The query of a current prices or current renewables request.
pub open spec fn spec_current_query(
    next: Option<u32>,
    previous: Option<u32>,
    resolution: Option<Resolution>,
) -> Seq<(Seq<char>, Seq<char>)> {
    opt_pair("next"@, opt_count(next)).add(opt_pair("previous"@, opt_count(previous))).add(
        opt_pair("resolution"@, opt_resolution(resolution)),
    )
}

/// The query of a usage request: both dates are required.
pub open spec fn spec_usage_query(start_date: Date, end_date: Date) -> Seq<
    (Seq<char>, Seq<char>),
> {
    seq![("startDate"@, spec_render_date(start_date)), ("endDate"@, spec_render_date(end_date))]
}

/// Client configuration: transport-independent, immutable after
/// construction, safely shared between concurrent calls.
#[derive(Debug, Clone)]
pub struct Amber {
    /// The bearer credential sent as `Authorization: Bearer <key>`, when
    /// one is configured.
    pub api_key: Option<String>,
    /// The base URL every endpoint path is appended to.
    pub base_url: String,
    /// The 429 retry policy.
    pub retry: RetryPolicy,
}

/// The production API's base URL.
pub fn default_base_url() -> (r: String)
    ensures
        r@ == "https://api.amber.com.au/v1/"@,
{
    String::from_str("https://api.amber.com.au/v1/")
}

impl Default for Amber {
    /// An unauthenticated client against the production API with the
    /// standard retry policy.
    fn default() -> (r: Amber)
        ensures
            r.api_key is None,
            r.base_url@ == "https://api.amber.com.au/v1/"@,
            r.retry.max_retries == 3,
            r.retry.enabled,
    {
        Amber {
            api_key: None,
            base_url: default_base_url(),
            retry: RetryPolicy::standard(),
        }
    }
}

/// Step-by-step construction of an [`Amber`] client, each setting
/// defaulting as [`Amber::default`] has it.
#[derive(Debug, Clone)]
pub struct AmberBuilder {
    api_key: Option<String>,
    base_url: Option<String>,
    max_retries: Option<u32>,
    retry_enabled: Option<bool>,
}

impl AmberBuilder {
    /// Starts from the defaults.
    pub fn new() -> (r: AmberBuilder)
        ensures
            r.spec_api_key() is None,
            r.spec_base_url() is None,
            r.spec_max_retries() is None,
            r.spec_retry_enabled() is None,
    {
        AmberBuilder { api_key: None, base_url: None, max_retries: None, retry_enabled: None }
    }

    /// The configured credential, if set.
    pub closed spec fn spec_api_key(&self) -> Option<Seq<char>> {
        match self.api_key {
            Some(k) => Some(k@),
            None => None,
        }
    }

    /// The configured base URL, if set.
    pub closed spec fn spec_base_url(&self) -> Option<Seq<char>> {
        match self.base_url {
            Some(u) => Some(u@),
            None => None,
        }
    }

    /// The configured retry budget, if set.
    pub closed spec fn spec_max_retries(&self) -> Option<u32> {
        self.max_retries
    }

    /// The configured retry switch, if set.
    pub closed spec fn spec_retry_enabled(&self) -> Option<bool> {
        self.retry_enabled
    }

    /// Sets the bearer credential.
    pub fn api_key(self, key: String) -> (r: AmberBuilder)
        ensures
            r.spec_api_key() == Some(key@),
            r.spec_base_url() == self.spec_base_url(),
            r.spec_max_retries() == self.spec_max_retries(),
            r.spec_retry_enabled() == self.spec_retry_enabled(),
    {
        AmberBuilder { api_key: Some(key), ..self }
    }

    /// Overrides the base URL.
    pub fn base_url(self, url: String) -> (r: AmberBuilder)
        ensures
            r.spec_api_key() == self.spec_api_key(),
            r.spec_base_url() == Some(url@),
            r.spec_max_retries() == self.spec_max_retries(),
            r.spec_retry_enabled() == self.spec_retry_enabled(),
    {
        AmberBuilder { base_url: Some(url), ..self }
    }

    /// Sets the greatest number of retries a call may spend on 429s.
    pub fn max_retries(self, n: u32) -> (r: AmberBuilder)
        ensures
            r.spec_api_key() == self.spec_api_key(),
            r.spec_base_url() == self.spec_base_url(),
            r.spec_max_retries() == Some(n),
            r.spec_retry_enabled() == self.spec_retry_enabled(),
    {
        AmberBuilder { max_retries: Some(n), ..self }
    }

    /// Switches automatic 429 retries on or off.
    pub fn retry_on_rate_limit(self, enabled: bool) -> (r: AmberBuilder)
        ensures
            r.spec_api_key() == self.spec_api_key(),
            r.spec_base_url() == self.spec_base_url(),
            r.spec_max_retries() == self.spec_max_retries(),
            r.spec_retry_enabled() == Some(enabled),
    {
        AmberBuilder { retry_enabled: Some(enabled), ..self }
    }

    /// Builds the client: unset settings take their defaults.
    pub fn build(self) -> (r: Amber)
        ensures
            match self.spec_api_key() {
                Some(k) => r.api_key is Some && r.api_key->0@ == k,
                None => r.api_key is None,
            },
            r.base_url@ == match self.spec_base_url() {
                Some(u) => u,
                None => "https://api.amber.com.au/v1/"@,
            },
            r.retry.max_retries == match self.spec_max_retries() {
                Some(n) => n,
                None => 3u32,
            },
            r.retry.enabled == match self.spec_retry_enabled() {
                Some(b) => b,
                None => true,
            },
    {
        let base_url = match self.base_url {
            Some(u) => u,
            None => default_base_url(),
        };
        let max_retries = match self.max_retries {
            Some(n) => n,
            None => 3,
        };
        let enabled = match self.retry_enabled {
            Some(b) => b,
            None => true,
        };
        Amber {
            api_key: self.api_key,
            base_url,
            retry: RetryPolicy { max_retries, enabled },
        }
    }
}

/// Appends one query pair to a request under construction.
fn push_pair(query: &mut Vec<(String, String)>, key: &str, value: String)
    ensures
        final(query)@.len() == old(query)@.len() + 1,
        Seq::new(final(query)@.len(), |i: int| (final(query)@[i].0@, final(query)@[i].1@))
            =~= Seq::new(old(query)@.len(), |i: int| (old(query)@[i].0@, old(query)@[i].1@)).push(
            (key@, value@),
        ),
{
    let k = String::from_str(key);
    query.push((k, value));
}

impl Amber {
    /// The full URL of a request: the base URL with the path appended.
    pub fn endpoint_url(&self, req: &ApiRequest) -> (r: String)
        ensures
            r@ == self.base_url@ + req.path@,
    {
        let mut s = self.base_url.clone();
        s.append(req.path.as_str());
        s
    }

    /// The request that lists the account's sites: no parameters.
    pub fn sites_request(&self) -> (r: ApiRequest)
        ensures
            r@.path == "sites"@,
            r@.query == Seq::<(Seq<char>, Seq<char>)>::empty(),
    {
        let out = ApiRequest { path: String::from_str("sites"), query: Vec::new() };
        proof {
            assert(out@.query =~= Seq::<(Seq<char>, Seq<char>)>::empty());
        }
        out
    }

    /// The request that lists historical prices of a site between two
    /// dates: `sites/{id}/prices`, each absent option omitted.
    pub fn prices_request(
        &self,
        site_id: &str,
        start_date: Option<Date>,
        end_date: Option<Date>,
        resolution: Option<Resolution>,
    ) -> (r: ApiRequest)
        ensures
            r@.path == "sites/"@ + site_id@ + "/prices"@,
            r@.query == spec_prices_query(start_date, end_date, resolution),
    {
        let mut path = String::from_str("sites/");
        path.append(site_id);
        path.append("/prices");
        let mut query: Vec<(String, String)> = Vec::new();
        if let Some(d) = start_date {
            push_pair(&mut query, "startDate", d.render());
        }
        if let Some(d) = end_date {
            push_pair(&mut query, "endDate", d.render());
        }
        if let Some(x) = resolution {
            push_pair(&mut query, "resolution", x.render());
        }
        let out = ApiRequest { path, query };
        proof {
            assert(out@.query =~= spec_prices_query(start_date, end_date, resolution));
        }
        out
    }

    /// The request that lists a site's current prices with optional
    /// history and forecast: `sites/{id}/prices/current`.
    pub fn current_prices_request(
        &self,
        site_id: &str,
        next: Option<u32>,
        previous: Option<u32>,
        resolution: Option<Resolution>,
    ) -> (r: ApiRequest)
        ensures
            r@.path == "sites/"@ + site_id@ + "/prices/current"@,
            r@.query == spec_current_query(next, previous, resolution),
    {
        let mut path = String::from_str("sites/");
        path.append(site_id);
        path.append("/prices/current");
        let mut query: Vec<(String, String)> = Vec::new();
        if let Some(n) = next {
            push_pair(&mut query, "next", crate::text::u32_string(n));
        }
        if let Some(p) = previous {
            push_pair(&mut query, "previous", crate::text::u32_string(p));
        }
        if let Some(x) = resolution {
            push_pair(&mut query, "resolution", x.render());
        }
        let out = ApiRequest { path, query };
        proof {
            assert(out@.query =~= spec_current_query(next, previous, resolution));
        }
        out
    }

    /// The request that lists a state's current renewables with optional
    /// history and forecast: `state/{state}/renewables/current`. This
    /// endpoint needs no credential.
    pub fn current_renewables_request(
        &self,
        state: State,
        next: Option<u32>,
        previous: Option<u32>,
        resolution: Option<Resolution>,
    ) -> (r: ApiRequest)
        ensures
            r@.path == "state/"@ + spec_state_code(state) + "/renewables/current"@,
            r@.query == spec_current_query(next, previous, resolution),
    {
        let mut path = String::from_str("state/");
        let code = state.render();
        path.append(code.as_str());
        path.append("/renewables/current");
        let mut query: Vec<(String, String)> = Vec::new();
        if let Some(n) = next {
            push_pair(&mut query, "next", crate::text::u32_string(n));
        }
        if let Some(p) = previous {
            push_pair(&mut query, "previous", crate::text::u32_string(p));
        }
        if let Some(x) = resolution {
            push_pair(&mut query, "resolution", x.render());
        }
        let out = ApiRequest { path, query };
        proof {
            assert(out@.query =~= spec_current_query(next, previous, resolution));
        }
        out
    }

    /// The request that lists a site's usage between two dates, both
    /// required: `sites/{id}/usage`.
    pub fn usage_request(&self, site_id: &str, start_date: Date, end_date: Date) -> (r:
        ApiRequest)
        ensures
            r@.path == "sites/"@ + site_id@ + "/usage"@,
            r@.query == spec_usage_query(start_date, end_date),
    {
        let mut path = String::from_str("sites/");
        path.append(site_id);
        path.append("/usage");
        let mut query: Vec<(String, String)> = Vec::new();
        push_pair(&mut query, "startDate", start_date.render());
        push_pair(&mut query, "endDate", end_date.render());
        let out = ApiRequest { path, query };
        proof {
            assert(out@.query =~= spec_usage_query(start_date, end_date));
        }
        out
    }
}

} // verus!
