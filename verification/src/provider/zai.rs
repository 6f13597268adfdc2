//! Z.ai / Zhipu GLM: probes the known usage paths.
use crate::errors::{AppError, AppResult};
use crate::json::{JsonNumber, JsonValue};
use crate::models::{Metric, ProviderState, ProviderStatus};
use crate::provider::{
    probe_outcome, probe_outcome_spec,
    bearer_get, display_label, either_number, is_metric, is_notice, is_usage_status, metric,
    missing_key, notice, number_at, number_at_either, number_field, opt_static, request_is,
    shown_label, usage_status, HttpMethod, HttpRequest, ProbeOutcome, ProbeStep, Provider, ProviderContext,
};
use crate::text::owned;
use vstd::prelude::*;

verus! {

#[derive(Debug)]
pub struct ZaiProvider;

impl Provider for ZaiProvider {
    open spec fn spec_id(&self) -> Seq<char> {
        "zai"@
    }

    open spec fn spec_label(&self) -> Seq<char> {
        "Z.ai / GLM"@
    }

    open spec fn spec_kind(&self) -> Seq<char> {
        "llm_api"@
    }

    open spec fn spec_docs_url(&self) -> Option<Seq<char>> {
        Some("https://z.ai/billing"@)
    }

    open spec fn spec_description(&self) -> Seq<char> {
        "Z.ai / Zhipu GLM API. Usage endpoint not yet documented."@
    }

    open spec fn spec_env_var(&self) -> Option<Seq<char>> {
        Some("ZAI_API_KEY"@)
    }

    fn id(&self) -> &'static str {
        "zai"
    }

    fn label(&self) -> &'static str {
        "Z.ai / GLM"
    }

    fn kind(&self) -> &'static str {
        "llm_api"
    }

    fn docs_url(&self) -> Option<&'static str> {
        Some("https://z.ai/billing")
    }

    fn description(&self) -> &'static str {
        "Z.ai / Zhipu GLM API. Usage endpoint not yet documented."
    }

    fn env_var(&self) -> Option<&'static str> {
        Some("ZAI_API_KEY")
    }
}


/// The usage paths tried, in order.
pub open spec fn probe_url(attempt: nat) -> Option<Seq<char>> {
    if attempt == 0 {
        Some("https://api.z.ai/api/v1/usage"@)
    } else if attempt == 1 {
        Some("https://api.z.ai/v1/usage"@)
    } else if attempt == 2 {
        Some("https://open.bigmodel.cn/api/v1/usage"@)
    } else if attempt == 3 {
        Some("https://open.bigmodel.cn/api/paas/v1/usage"@)
    } else {
        None
    }
}

pub open spec fn no_usage_api_note() -> Seq<char> {
    "Z.ai does not expose a documented usage API. Check z.ai/billing manually."@
}

/// The limit in a usage answer: `limit`, else `total`, else `balance`.
pub open spec fn limit_number(v: JsonValue) -> Option<JsonNumber> {
    match either_number(v, "limit"@, "total"@) {
        Some(n) => Some(n),
        None => number_field(v, "balance"@),
    }
}

impl ZaiProvider {
    /// The API key, or the error when there is none.
    pub fn require_key(&self, ctx: &ProviderContext) -> (r: AppResult<String>)
        ensures
            match ctx.api_key {
                None => r matches Err(AppError::MissingKey(p, v)) && p@ == "zai"@ && v@
                    == "ZAI_API_KEY"@,
                Some(k) => r matches Ok(x) && x@ == k@,
            },
    {
        match &ctx.api_key {
            None => Err(missing_key("zai", "ZAI_API_KEY")),
            Some(k) => Ok(k.clone()),
        }
    }

    /// The request of probe number `attempt`, while paths remain. A refused key
    /// (see `probe_outcome`) ends the probing.
    pub fn probe_request(&self, key: &str, attempt: usize) -> (r: Option<HttpRequest>)
        ensures
            match probe_url(attempt as nat) {
                None => r is None,
                Some(u) => r matches Some(req) && request_is(
                    req,
                    HttpMethod::Get,
                    u,
                    Some(key@),
                    seq![("Accept"@, "application/json"@)],
                    false,
                ),
            },
    {
        let url = if attempt == 0 {
            owned("https://api.z.ai/api/v1/usage")
        } else if attempt == 1 {
            owned("https://api.z.ai/v1/usage")
        } else if attempt == 2 {
            owned("https://open.bigmodel.cn/api/v1/usage")
        } else if attempt == 3 {
            owned("https://open.bigmodel.cn/api/paas/v1/usage")
        } else {
            return None;
        };
        Some(bearer_get(url, key, "application/json"))
    }

    /// The amounts in a usage answer: `used` (else `usage`) and the limit.
    pub fn usage_numbers<'a>(&self, body: &'a JsonValue) -> (r: (Option<&'a JsonNumber>, Option<&'a JsonNumber>))
        ensures
            match r.0 {
                Some(n) => either_number(*body, "used"@, "usage"@) == Some(*n),
                None => either_number(*body, "used"@, "usage"@) is None,
            },
            match r.1 {
                Some(n) => limit_number(*body) == Some(*n),
                None => limit_number(*body) is None,
            },
    {
        let limit = match number_at_either(body, "limit", "total") {
            Some(n) => Some(n),
            None => number_at(body, "balance"),
        };
        (number_at_either(body, "used", "usage"), limit)
    }

    /// The usage metric (in CNY).
    pub fn usage_metric<N>(&self, used: N, limit: N) -> (r: Metric<N>)
        ensures
            is_metric(r, "Usage"@, used, limit, "CNY"@, None),
    {
        metric("Usage", used, limit, "CNY", None)
    }

    /// The card for a usage answer.
    pub fn status<N>(
        &self,
        ctx: &ProviderContext,
        state: ProviderState,
        primary: Option<Metric<N>>,
        fetched_at: i64,
        latency_ms: u64,
    ) -> (r: ProviderStatus<N>)
        ensures
            is_usage_status(
                r,
                "zai"@,
                shown_label(ctx.custom_label, "Z.ai / GLM"@),
                "llm_api"@,
                state,
                fetched_at,
                latency_ms,
            ),
            r.primary == primary,
            r.secondary is None,
            r.account_label is None,
            r.cost_estimate is None,
    {
        usage_status(
            "zai",
            display_label(&ctx.custom_label, "Z.ai / GLM"),
            "llm_api",
            state,
            primary,
            None,
            None,
            None,
            fetched_at,
            latency_ms,
        )
    }

    /// The card when no path answered with usage.
    pub fn no_usage_api<N>(&self, ctx: &ProviderContext, fetched_at: i64, latency_ms: u64) -> (r: ProviderStatus<N>)
        ensures
            is_notice(
                r,
                "zai"@,
                shown_label(ctx.custom_label, "Z.ai / GLM"@),
                "llm_api"@,
                no_usage_api_note(),
                fetched_at,
                latency_ms,
            ),
    {
        notice(
            "zai",
            &ctx.custom_label,
            "Z.ai / GLM",
            "llm_api",
            "Z.ai does not expose a documented usage API. Check z.ai/billing manually.",
            fetched_at,
            latency_ms,
        )
    }
}

/// `r` sends probe number `attempt`, or gives up when no path remains.
pub open spec fn is_probe(r: ProbeStep, key: Seq<char>, attempt: nat) -> bool {
    match probe_url(attempt) {
        Some(u) => r matches ProbeStep::Send { attempt: a, request } && a == attempt && request_is(
            request,
            HttpMethod::Get,
            u,
            Some(key),
            seq![("Accept"@, "application/json"@)],
            false,
        ),
        None => r is Exhausted,
    }
}

impl ZaiProvider {
    fn probe_step(&self, key: &str, attempt: usize) -> (r: ProbeStep)
        ensures
            is_probe(r, key@, attempt as nat),
    {
        match self.probe_request(key, attempt) {
            Some(request) => ProbeStep::Send { attempt, request },
            None => ProbeStep::Exhausted,
        }
    }

    /// The first probe.
    pub fn first_probe(&self, key: &str) -> (r: ProbeStep)
        ensures
            is_probe(r, key@, 0),
    {
        self.probe_step(key, 0)
    }

    /// What follows the answer `code` to probe number `attempt`: usage data is read, a refused key ends the probing with the informational card, anything else moves to the next path until none remains.
    pub fn after_probe(&self, key: &str, attempt: usize, code: u16) -> (r: ProbeStep)
        ensures
            match probe_outcome_spec(code) {
                ProbeOutcome::ReadUsage => r is ReadUsage,
                ProbeOutcome::Refused => r is Exhausted,
                ProbeOutcome::TryNext => is_probe(r, key@, (attempt + 1) as nat),
            },
    {
        match probe_outcome(code) {
            ProbeOutcome::ReadUsage => ProbeStep::ReadUsage,
            ProbeOutcome::Refused => ProbeStep::Exhausted,
            ProbeOutcome::TryNext => if attempt >= 4 {
                ProbeStep::Exhausted
            } else {
                self.probe_step(key, attempt + 1)
            },
        }
    }
}

} // verus!
