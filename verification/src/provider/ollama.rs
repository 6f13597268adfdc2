//! Ollama Cloud: subscription period and extra-usage budget, read from `POST /api/me`.
use crate::clock::{
    days_in, in_chrono_range, is_later, later_than, millis_of, parse_utc, seconds_between, timestamp_millis,
    chrono_instant, utc_from_str, utc_now, seconds_from, plain_instant, whole_days,
};
use crate::errors::{AppError, AppResult};
use crate::models::{Metric, ProviderState, ProviderStatus};
use crate::provider::{
    combine_states, combined_state, display_label, header, headers_view, is_metric,
    is_usage_status, metric, missing_key, opt_static, period_usage, period_usage_spec, request_is,
    shown_label, upstream_error, usage_status, HttpMethod, HttpRequest, Provider, ProviderContext,
};
use crate::text::{owned, take_spec};
use vstd::prelude::*;

verus! {

#[derive(Debug)]
pub struct OllamaProvider;

impl Provider for OllamaProvider {
    open spec fn spec_id(&self) -> Seq<char> {
        "ollama"@
    }

    open spec fn spec_label(&self) -> Seq<char> {
        "Ollama Cloud"@
    }

    open spec fn spec_kind(&self) -> Seq<char> {
        "subscription"@
    }

    open spec fn spec_docs_url(&self) -> Option<Seq<char>> {
        Some("https://ollama.com/settings/billing"@)
    }

    open spec fn spec_description(&self) -> Seq<char> {
        "Ollama Cloud Pro subscription + extra-usage auto-reload."@
    }

    open spec fn spec_env_var(&self) -> Option<Seq<char>> {
        Some("OLLAMA_API_KEY"@)
    }

    fn id(&self) -> &'static str {
        "ollama"
    }

    fn label(&self) -> &'static str {
        "Ollama Cloud"
    }

    fn kind(&self) -> &'static str {
        "subscription"
    }

    fn docs_url(&self) -> Option<&'static str> {
        Some("https://ollama.com/settings/billing")
    }

    fn description(&self) -> &'static str {
        "Ollama Cloud Pro subscription + extra-usage auto-reload."
    }

    fn env_var(&self) -> Option<&'static str> {
        Some("OLLAMA_API_KEY")
    }
}


/// Account endpoint; it only accepts POST.
pub open spec fn default_me_url() -> Seq<char> {
    "https://ollama.com/api/me"@
}

pub open spec fn me_url(ctx: ProviderContext) -> Seq<char> {
    match ctx.custom_endpoint {
        Some(u) => u@,
        None => default_me_url(),
    }
}

/// Days used and days in the subscription period: an ended period counts as
/// fully used (one of one).
pub open spec fn period_days_spec(ended: bool, total_days: i64, elapsed_days: i64) -> (i64, i64) {
    if ended {
        (1, 1)
    } else {
        period_usage_spec(total_days, elapsed_days)
    }
}

impl OllamaProvider {
    /// The account request: an explicit empty POST body with `Content-Length: 0`.
    pub fn me_request(&self, ctx: &ProviderContext) -> (r: AppResult<HttpRequest>)
        ensures
            match ctx.api_key {
                None => r matches Err(AppError::MissingKey(p, v)) && p@ == "ollama"@ && v@
                    == "OLLAMA_API_KEY"@,
                Some(k) => r matches Ok(req) && request_is(
                    req,
                    HttpMethod::Post,
                    me_url(*ctx),
                    Some(k@),
                    seq![("Accept"@, "application/json"@), ("Content-Length"@, "0"@)],
                    true,
                ),
            },
    {
        match &ctx.api_key {
            None => Err(missing_key("ollama", "OLLAMA_API_KEY")),
            Some(k) => {
                let url = match &ctx.custom_endpoint {
                    Some(u) => u.clone(),
                    None => owned("https://ollama.com/api/me"),
                };
                let headers = vec![
                    header("Accept", "application/json"),
                    header("Content-Length", "0"),
                ];
                assert(headers_view(headers@) =~= seq![
                    ("Accept"@, "application/json"@),
                    ("Content-Length"@, "0"@),
                ]);
                Ok(HttpRequest {
                    method: HttpMethod::Post,
                    url,
                    bearer: Some(k.clone()),
                    headers,
                    empty_body: true,
                })
            },
        }
    }

    /// The error for a non-success answer: its status and the first 400 characters of the body.
    pub fn rejected(&self, code: u16, body: &str) -> (r: AppError)
        ensures
            r matches AppError::Upstream { status, body: b } && status == code && b@ == take_spec(
                body@,
                400,
            ),
    {
        upstream_error(code, body, 400)
    }

    /// `(used, limit)` in days of the subscription period.
    pub fn period_days(&self, ended: bool, total_days: i64, elapsed_days: i64) -> (r: (i64, i64))
        ensures
            r == period_days_spec(ended, total_days, elapsed_days),
    {
        if ended {
            (1, 1)
        } else {
            period_usage(total_days, elapsed_days)
        }
    }

    /// The subscription-period metric.
    pub fn subscription_metric<N>(&self, used: N, limit: N, period_end_ms: i64) -> (r: Metric<N>)
        ensures
            is_metric(r, "Subscription"@, used, limit, "days"@, Some(period_end_ms)),
    {
        metric("Subscription", used, limit, "days", Some(period_end_ms))
    }

    /// The extra-usage budget metric (shown only when auto-reload is on with a positive limit).
    pub fn extra_usage_metric<N>(&self, used: N, limit: N) -> (r: Metric<N>)
        ensures
            is_metric(r, "Extra usage budget"@, used, limit, "USD"@, None),
    {
        metric("Extra usage budget", used, limit, "USD", None)
    }

    /// The card: the state is the worse of the two metrics' states (Unknown without metrics).
    pub fn status<N>(
        &self,
        ctx: &ProviderContext,
        primary: Option<Metric<N>>,
        primary_state: Option<ProviderState>,
        secondary: Option<Metric<N>>,
        secondary_state: Option<ProviderState>,
        fetched_at: i64,
        latency_ms: u64,
    ) -> (r: ProviderStatus<N>)
        ensures
            is_usage_status(
                r,
                "ollama"@,
                shown_label(ctx.custom_label, "Ollama Cloud"@),
                "subscription"@,
                combined_state(primary_state, secondary_state),
                fetched_at,
                latency_ms,
            ),
            r.primary == primary,
            r.secondary == secondary,
            r.account_label is None,
            r.cost_estimate is None,
    {
        let state = combine_states(primary_state, secondary_state);
        usage_status(
            "ollama",
            display_label(&ctx.custom_label, "Ollama Cloud"),
            "subscription",
            state,
            primary,
            secondary,
            None,
            None,
            fetched_at,
            latency_ms,
        )
    }
}

/// The subscription period at instant `now`, from the account's period start
/// and end (as text): `(days used, days in the period, end in milliseconds)`.
/// A period that has ended counts as fully used; without both ends there is none.
pub open spec fn period_at_spec(start: Option<Seq<char>>, end: Option<Seq<char>>, now: (i64, u32)) -> Option<
    (i64, i64, i64),
> {
    match (start, end) {
        (Some(a), Some(b)) => match (utc_from_str(a), utc_from_str(b)) {
            (Some(s), Some(e)) => if !is_later(e, now) {
                Some((1, 1, millis_of(e) as i64))
            } else {
                match (seconds_from(e, s), seconds_from(now, s)) {
                    (Some(total), Some(elapsed)) => {
                        let (u, l) = period_usage_spec(whole_days(total as int) as i64, whole_days(elapsed as int) as i64);
                        Some((u, l, millis_of(e) as i64))
                    },
                    _ => None,
                }
            },
            _ => None,
        },
        _ => None,
    }
}

/// Both ends of the period are given and chrono reads them.
pub open spec fn period_known(start: Option<Seq<char>>, end: Option<Seq<char>>) -> bool {
    match (start, end) {
        (Some(a), Some(b)) => utc_from_str(a) is Some && utc_from_str(b) is Some,
        _ => false,
    }
}

/// `m` is the subscription metric of period `p` (none without a period).
pub open spec fn is_period_metric(m: Option<Metric<i64>>, p: Option<(i64, i64, i64)>) -> bool {
    match p {
        Some((u, l, end_ms)) => m matches Some(x) && is_metric(x, "Subscription"@, u, l, "days"@, Some(end_ms)),
        None => m is None,
    }
}

impl OllamaProvider {
    /// The subscription metric at instant `now`, in days.
    pub fn period_metric_at(&self, start: Option<&str>, end: Option<&str>, now: (i64, u32)) -> (r: Option<Metric<i64>>)
        requires
            in_chrono_range(now),
        ensures
            is_period_metric(r, period_at_spec(opt_static(start), opt_static(end), now)),
            chrono_instant(now) ==> (r is Some <==> period_known(opt_static(start), opt_static(end))),
    {
        let (a, b) = match (start, end) {
            (Some(a), Some(b)) => (a, b),
            _ => {
                return None;
            },
        };
        let (s, e) = match (parse_utc(a), parse_utc(b)) {
            (Some(s), Some(e)) => (s, e),
            _ => {
                return None;
            },
        };
        let end_ms = timestamp_millis(e);
        if !later_than(e, now) {
            return Some(self.subscription_metric(1, 1, end_ms));
        }
        match (seconds_between(e, s), seconds_between(now, s)) {
            (Some(total), Some(elapsed)) => {
                let (used, limit) = self.period_days(false, days_in(total), days_in(elapsed));
                Some(self.subscription_metric(used, limit, end_ms))
            },
            _ => None,
        }
    }

    /// The subscription metric now (the system clock is read once).
    pub fn period_metric_now(&self, start: Option<&str>, end: Option<&str>) -> (r: Option<Metric<i64>>)
        ensures
            exists|now: (i64, u32)|
                plain_instant(now) && is_period_metric(r, period_at_spec(opt_static(start), opt_static(end), now)),
            r is Some <==> period_known(opt_static(start), opt_static(end)),
    {
        let now = utc_now();
        self.period_metric_at(start, end, now)
    }
}

} // verus!
