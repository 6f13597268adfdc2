//! OpenAI Platform: cost of the current month from `GET /v1/usage`.
use crate::clock::{chrono_instant, millis_of, month_start, month_start_of, plain_instant, timestamp_millis, utc_now};
use crate::errors::{AppError, AppResult};
use crate::models::{ProviderState, ProviderStatus};
use crate::provider::{
    bearer_get, display_label, is_metric, is_usage_status, metric, missing_key, opt_static,
    request_is, shown_label, usage_status, HttpMethod, HttpRequest, Provider, ProviderContext,
};
use crate::text::{concat, i64_to_decimal, owned, signed_decimal, take_chars, take_spec};
use vstd::string::*;
use vstd::prelude::*;

verus! {

#[derive(Debug)]
pub struct OpenaiProvider;

impl Provider for OpenaiProvider {
    open spec fn spec_id(&self) -> Seq<char> {
        "openai"@
    }

    open spec fn spec_label(&self) -> Seq<char> {
        "OpenAI Platform"@
    }

    open spec fn spec_kind(&self) -> Seq<char> {
        "llm_api"@
    }

    open spec fn spec_docs_url(&self) -> Option<Seq<char>> {
        Some("https://platform.openai.com/usage"@)
    }

    open spec fn spec_description(&self) -> Seq<char> {
        "OpenAI Platform API usage. Requires Admin key. Shows cumulative cost for current month."@
    }

    open spec fn spec_env_var(&self) -> Option<Seq<char>> {
        Some("OPENAI_API_KEY"@)
    }

    fn id(&self) -> &'static str {
        "openai"
    }

    fn label(&self) -> &'static str {
        "OpenAI Platform"
    }

    fn kind(&self) -> &'static str {
        "llm_api"
    }

    fn docs_url(&self) -> Option<&'static str> {
        Some("https://platform.openai.com/usage")
    }

    fn description(&self) -> &'static str {
        "OpenAI Platform API usage. Requires Admin key. Shows cumulative cost for current month."
    }

    fn env_var(&self) -> Option<&'static str> {
        Some("OPENAI_API_KEY")
    }
}


/// The usage query for a time range (Unix seconds).
pub open spec fn usage_url(start_ts: i64, end_ts: i64) -> Seq<char> {
    "https://api.openai.com/v1/usage?start_time="@ + signed_decimal(start_ts as int) + "&end_time="@
        + signed_decimal(end_ts as int) + "&limit=100"@
}

/// Thirty days in milliseconds: when the monthly cost is shown to reset.
pub open spec fn month_ms() -> int {
    2592000000int
}

impl OpenaiProvider {
    /// The admin key, or the error when there is none.
    pub fn require_key(&self, ctx: &ProviderContext) -> (r: AppResult<String>)
        ensures
            match ctx.api_key {
                None => r matches Err(AppError::MissingKey(p, v)) && p@ == "openai"@ && v@
                    == "OPENAI_API_KEY"@,
                Some(k) => r matches Ok(x) && x@ == k@,
            },
    {
        match &ctx.api_key {
            None => Err(missing_key("openai", "OPENAI_API_KEY")),
            Some(k) => Ok(k.clone()),
        }
    }

    /// The usage request from the start of the month to now.
    pub fn usage_request(&self, key: &str, start_ts: i64, end_ts: i64) -> (r: HttpRequest)
        ensures
            request_is(r, HttpMethod::Get, usage_url(start_ts, end_ts), Some(key@), seq![("Accept"@, "application/json"@)], false),
    {
        let mut url = owned("https://api.openai.com/v1/usage?start_time=");
        let a = i64_to_decimal(start_ts);
        url.append(a.as_str());
        url.append("&end_time=");
        let b = i64_to_decimal(end_ts);
        url.append(b.as_str());
        url.append("&limit=100");
        bearer_get(url, key, "application/json")
    }

    /// The error for a non-success answer, with the first 300 characters of the body.
    pub fn rejected(&self, code: u16, body: &str) -> (r: AppError)
        ensures
            r matches AppError::Upstream { status, body: b } && status == code && b@
                == "OpenAI usage API: "@ + take_spec(body@, 300),
    {
        let t = take_chars(body, 300);
        AppError::Upstream { status: code, body: concat("OpenAI usage API: ", t.as_str()) }
    }

    /// When the monthly cost is shown to reset: thirty days from now.
    pub fn cost_reset_at(&self, now_ms: i64) -> (r: i64)
        requires
            now_ms + month_ms() <= i64::MAX,
        ensures
            r == now_ms + month_ms(),
    {
        now_ms + 2592000000i64
    }

    /// The card: monthly cost against the assumed budget, and the request count.
    pub fn status<N>(
        &self,
        ctx: &ProviderContext,
        state: ProviderState,
        total_cost: N,
        monthly_limit: N,
        total_requests: N,
        no_limit: N,
        cost_estimate: N,
        reset_at: i64,
        fetched_at: i64,
        latency_ms: u64,
    ) -> (r: ProviderStatus<N>)
        ensures
            is_usage_status(
                r,
                "openai"@,
                shown_label(ctx.custom_label, "OpenAI Platform"@),
                "llm_api"@,
                state,
                fetched_at,
                latency_ms,
            ),
            r.primary matches Some(m) && is_metric(m, "Monthly cost"@, total_cost, monthly_limit, "USD"@, Some(reset_at)),
            r.secondary matches Some(m) && is_metric(m, "Requests"@, total_requests, no_limit, "calls"@, None),
            r.account_label is None,
            r.cost_estimate == Some(cost_estimate),
    {
        usage_status(
            "openai",
            display_label(&ctx.custom_label, "OpenAI Platform"),
            "llm_api",
            state,
            Some(metric("Monthly cost", total_cost, monthly_limit, "USD", Some(reset_at))),
            Some(metric("Requests", total_requests, no_limit, "calls", None)),
            None,
            Some(cost_estimate),
            fetched_at,
            latency_ms,
        )
    }
}

/// `r` is the usage request for the month of instant `now` (from the month's
/// first midnight to `now`), when chrono can hold `now`.
pub open spec fn is_month_request(r: Option<HttpRequest>, key: Seq<char>, now: (i64, u32)) -> bool {
    if chrono_instant(now) {
        r matches Some(req) && request_is(
            req,
            HttpMethod::Get,
            usage_url(month_start_of(now.0 as int) as i64, now.0),
            Some(key),
            seq![("Accept"@, "application/json"@)],
            false,
        )
    } else {
        r is None
    }
}

impl OpenaiProvider {
    /// The usage request for the month of instant `now`.
    pub fn usage_request_at(&self, key: &str, now: (i64, u32)) -> (r: Option<HttpRequest>)
        ensures
            is_month_request(r, key@, now),
            plain_instant(now) ==> r is Some,
    {
        match month_start(now) {
            Some(m) => Some(self.usage_request(key, m, now.0)),
            None => None,
        }
    }

    /// The usage request for the current month, and when its cost is shown to
    /// reset (thirty days after the same reading of the clock).
    pub fn usage_request_now(&self, key: &str) -> (r: (HttpRequest, i64))
        ensures
            exists|now: (i64, u32)|
                plain_instant(now) && is_month_request(Some(r.0), key@, now) && r.1 == millis_of(now)
                    + month_ms(),
    {
        let now = utc_now();
        let start = month_start(now).unwrap();
        let req = self.usage_request(key, start, now.0);
        let reset_at = self.cost_reset_at(timestamp_millis(now));
        (req, reset_at)
    }
}

/// The request counts of a usage answer added up (entries without one count nothing).
pub open spec fn requests_sum(counts: Seq<Option<u64>>) -> int
    decreases counts.len(),
{
    if counts.len() == 0 {
        0
    } else {
        requests_sum(counts.drop_last()) + match counts.last() {
            Some(n) => n as int,
            None => 0,
        }
    }
}

proof fn lemma_requests_sum_grows(counts: Seq<Option<u64>>, j: int, k: int)
    requires
        0 <= j <= k <= counts.len(),
    ensures
        requests_sum(counts.take(j)) <= requests_sum(counts.take(k)),
    decreases k - j,
{
    if j < k {
        lemma_requests_sum_grows(counts, j, k - 1);
        assert(counts.take(k).drop_last() =~= counts.take(k - 1));
    }
}

impl OpenaiProvider {
    /// The number of requests in a usage answer, when it fits in a `u64`
    /// (adding them up in a `u64` overflows otherwise).
    pub fn total_requests(&self, counts: &Vec<Option<u64>>) -> (r: Option<u64>)
        ensures
            match r {
                Some(t) => t == requests_sum(counts@),
                None => requests_sum(counts@) > u64::MAX,
            },
    {
        let n = counts.len();
        let mut total: u64 = 0;
        let mut i: usize = 0;
        while i < n
            invariant
                n == counts@.len(),
                i <= n,
                total == requests_sum(counts@.take(i as int)),
            decreases n - i,
        {
            assert(counts@.take(i + 1).drop_last() =~= counts@.take(i as int));
            match counts[i] {
                Some(c) => {
                    if c > u64::MAX - total {
                        proof {
                            lemma_requests_sum_grows(counts@, i + 1, n as int);
                            assert(counts@.take(n as int) =~= counts@);
                        }
                        return None;
                    }
                    total = total + c;
                },
                None => {},
            }
            i = i + 1;
        }
        assert(counts@.take(n as int) =~= counts@);
        Some(total)
    }
}

} // verus!
