//! The Anthropic API: probes the known usage paths.
use crate::errors::{AppError, AppResult};
use crate::json::{JsonNumber, JsonValue};
use crate::models::{Metric, ProviderState, ProviderStatus};
use crate::provider::{
    probe_outcome, probe_outcome_spec,
    display_label, either_number, header, headers_view, is_metric, is_notice, is_usage_status,
    metric, missing_key, notice, number_at_either, opt_static, request_is, shown_label,
    usage_status, HttpMethod, HttpRequest, ProbeOutcome, ProbeStep, Provider, ProviderContext,
};
use crate::text::{concat, owned, take_chars, take_spec};
use vstd::prelude::*;

verus! {

#[derive(Debug)]
pub struct AnthropicProvider;

impl Provider for AnthropicProvider {
    open spec fn spec_id(&self) -> Seq<char> {
        "anthropic"@
    }

    open spec fn spec_label(&self) -> Seq<char> {
        "Anthropic"@
    }

    open spec fn spec_kind(&self) -> Seq<char> {
        "llm_api"@
    }

    open spec fn spec_docs_url(&self) -> Option<Seq<char>> {
        Some("https://console.anthropic.com/settings/usage"@)
    }

    open spec fn spec_description(&self) -> Seq<char> {
        "Anthropic API. No public usage endpoint yet — shows account info if available."@
    }

    open spec fn spec_env_var(&self) -> Option<Seq<char>> {
        Some("ANTHROPIC_API_KEY"@)
    }

    fn id(&self) -> &'static str {
        "anthropic"
    }

    fn label(&self) -> &'static str {
        "Anthropic"
    }

    fn kind(&self) -> &'static str {
        "llm_api"
    }

    fn docs_url(&self) -> Option<&'static str> {
        Some("https://console.anthropic.com/settings/usage")
    }

    fn description(&self) -> &'static str {
        "Anthropic API. No public usage endpoint yet — shows account info if available."
    }

    fn env_var(&self) -> Option<&'static str> {
        Some("ANTHROPIC_API_KEY")
    }
}


/// The usage paths tried, in order.
pub open spec fn probe_url(attempt: nat) -> Option<Seq<char>> {
    if attempt == 0 {
        Some("https://api.anthropic.com/v1/organizations/usage"@)
    } else if attempt == 1 {
        Some("https://api.anthropic.com/v1/usage"@)
    } else {
        None
    }
}

pub open spec fn no_usage_api_note() -> Seq<char> {
    "Anthropic does not expose a public usage API. Check console.anthropic.com/settings/usage manually."@
}

pub open spec fn anthropic_headers(key: Seq<char>) -> Seq<(Seq<char>, Seq<char>)> {
    seq![
        ("x-api-key"@, key),
        ("anthropic-version"@, "2023-06-01"@),
        ("Accept"@, "application/json"@),
    ]
}

impl AnthropicProvider {
    /// The API key, or the error when there is none.
    pub fn require_key(&self, ctx: &ProviderContext) -> (r: AppResult<String>)
        ensures
            match ctx.api_key {
                None => r matches Err(AppError::MissingKey(p, v)) && p@ == "anthropic"@ && v@
                    == "ANTHROPIC_API_KEY"@,
                Some(k) => r matches Ok(x) && x@ == k@,
            },
    {
        match &ctx.api_key {
            None => Err(missing_key("anthropic", "ANTHROPIC_API_KEY")),
            Some(k) => Ok(k.clone()),
        }
    }

    /// The request of probe number `attempt`, while paths remain (the key goes in `x-api-key`).
    pub fn probe_request(&self, key: &str, attempt: usize) -> (r: Option<HttpRequest>)
        ensures
            match probe_url(attempt as nat) {
                None => r is None,
                Some(u) => r matches Some(req) && request_is(
                    req,
                    HttpMethod::Get,
                    u,
                    None,
                    anthropic_headers(key@),
                    false,
                ),
            },
    {
        let url = if attempt == 0 {
            owned("https://api.anthropic.com/v1/organizations/usage")
        } else if attempt == 1 {
            owned("https://api.anthropic.com/v1/usage")
        } else {
            return None;
        };
        let headers = vec![
            header("x-api-key", key),
            header("anthropic-version", "2023-06-01"),
            header("Accept", "application/json"),
        ];
        assert(headers_view(headers@) =~= anthropic_headers(key@));
        Some(HttpRequest { method: HttpMethod::Get, url, bearer: None, headers, empty_body: false })
    }

    /// The error for a refused key, with the first 200 characters of the body.
    pub fn refused(&self, code: u16, body: &str) -> (r: AppError)
        ensures
            r matches AppError::Upstream { status, body: b } && status == code && b@
                == "Anthropic API auth failed: "@ + take_spec(body@, 200),
    {
        let t = take_chars(body, 200);
        AppError::Upstream { status: code, body: concat("Anthropic API auth failed: ", t.as_str()) }
    }

    /// The amounts in a usage answer: `used` (else `usage`) and `limit` (else `quota`).
    pub fn usage_numbers<'a>(&self, body: &'a JsonValue) -> (r: (Option<&'a JsonNumber>, Option<&'a JsonNumber>))
        ensures
            match r.0 {
                Some(n) => either_number(*body, "used"@, "usage"@) == Some(*n),
                None => either_number(*body, "used"@, "usage"@) is None,
            },
            match r.1 {
                Some(n) => either_number(*body, "limit"@, "quota"@) == Some(*n),
                None => either_number(*body, "limit"@, "quota"@) is None,
            },
    {
        (number_at_either(body, "used", "usage"), number_at_either(body, "limit", "quota"))
    }

    /// The usage metric (in USD).
    pub fn usage_metric<N>(&self, used: N, limit: N) -> (r: Metric<N>)
        ensures
            is_metric(r, "Usage"@, used, limit, "USD"@, None),
    {
        metric("Usage", used, limit, "USD", None)
    }

    /// The card for a usage answer.
    pub fn status<N>(
        &self,
        ctx: &ProviderContext,
        state: ProviderState,
        primary: Option<Metric<N>>,
        fetched_at: i64,
        latency_ms: u64,
    ) -> (r: ProviderStatus<N>)
        ensures
            is_usage_status(
                r,
                "anthropic"@,
                shown_label(ctx.custom_label, "Anthropic"@),
                "llm_api"@,
                state,
                fetched_at,
                latency_ms,
            ),
            r.primary == primary,
            r.secondary is None,
            r.account_label is None,
            r.cost_estimate is None,
    {
        usage_status(
            "anthropic",
            display_label(&ctx.custom_label, "Anthropic"),
            "llm_api",
            state,
            primary,
            None,
            None,
            None,
            fetched_at,
            latency_ms,
        )
    }

    /// The card when no path answered: a note that there is no public usage API.
    pub fn no_usage_api<N>(&self, ctx: &ProviderContext, fetched_at: i64, latency_ms: u64) -> (r: ProviderStatus<N>)
        ensures
            is_notice(
                r,
                "anthropic"@,
                shown_label(ctx.custom_label, "Anthropic"@),
                "llm_api"@,
                no_usage_api_note(),
                fetched_at,
                latency_ms,
            ),
    {
        notice(
            "anthropic",
            &ctx.custom_label,
            "Anthropic",
            "llm_api",
            "Anthropic does not expose a public usage API. Check console.anthropic.com/settings/usage manually.",
            fetched_at,
            latency_ms,
        )
    }
}

/// `r` sends probe number `attempt`, or gives up when no path remains.
pub open spec fn is_probe(r: ProbeStep, key: Seq<char>, attempt: nat) -> bool {
    match probe_url(attempt) {
        Some(u) => r matches ProbeStep::Send { attempt: a, request } && a == attempt && request_is(
            request,
            HttpMethod::Get,
            u,
            None,
            anthropic_headers(key),
            false,
        ),
        None => r is Exhausted,
    }
}

impl AnthropicProvider {
    fn probe_step(&self, key: &str, attempt: usize) -> (r: ProbeStep)
        ensures
            is_probe(r, key@, attempt as nat),
    {
        match self.probe_request(key, attempt) {
            Some(request) => ProbeStep::Send { attempt, request },
            None => ProbeStep::Exhausted,
        }
    }

    /// The first probe.
    pub fn first_probe(&self, key: &str) -> (r: ProbeStep)
        ensures
            is_probe(r, key@, 0),
    {
        self.probe_step(key, 0)
    }

    /// What follows the answer `code` to probe number `attempt`: usage data is read, a refused key is an error, anything else moves to the next path until none remains.
    pub fn after_probe(&self, key: &str, attempt: usize, code: u16) -> (r: ProbeStep)
        ensures
            match probe_outcome_spec(code) {
                ProbeOutcome::ReadUsage => r is ReadUsage,
                ProbeOutcome::Refused => r matches ProbeStep::Refused(c) && c == code,
                ProbeOutcome::TryNext => is_probe(r, key@, (attempt + 1) as nat),
            },
    {
        match probe_outcome(code) {
            ProbeOutcome::ReadUsage => ProbeStep::ReadUsage,
            ProbeOutcome::Refused => ProbeStep::Refused(code),
            ProbeOutcome::TryNext => if attempt >= 2 {
                ProbeStep::Exhausted
            } else {
                self.probe_step(key, attempt + 1)
            },
        }
    }
}

} // verus!
