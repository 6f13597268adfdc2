//! MiniMax Token Plan: 5-hour and weekly windows from `GET /v1/token_plan/remains`.
use crate::errors::{AppError, AppResult};
use crate::models::{Metric, ProviderStatus};
use crate::provider::{
    display_label, header, headers_view, is_metric, is_usage_status, metric, missing_key,
    opt_static, request_is, shown_label, state_for_thresholds, threshold_state, upstream_error,
    usage_status, HttpMethod, HttpRequest, Provider, ProviderContext,
};
use crate::text::{owned, take_spec};
use vstd::prelude::*;

verus! {

#[derive(Debug)]
pub struct MinimaxProvider;

impl Provider for MinimaxProvider {
    open spec fn spec_id(&self) -> Seq<char> {
        "minimax"@
    }

    open spec fn spec_label(&self) -> Seq<char> {
        "MiniMax"@
    }

    open spec fn spec_kind(&self) -> Seq<char> {
        "subscription"@
    }

    open spec fn spec_docs_url(&self) -> Option<Seq<char>> {
        Some("https://platform.minimaxi.com"@)
    }

    open spec fn spec_description(&self) -> Seq<char> {
        "MiniMax Token Plan subscription (5h + weekly quota windows)."@
    }

    open spec fn spec_env_var(&self) -> Option<Seq<char>> {
        Some("MINIMAX_API_KEY"@)
    }

    fn id(&self) -> &'static str {
        "minimax"
    }

    fn label(&self) -> &'static str {
        "MiniMax"
    }

    fn kind(&self) -> &'static str {
        "subscription"
    }

    fn docs_url(&self) -> Option<&'static str> {
        Some("https://platform.minimaxi.com")
    }

    fn description(&self) -> &'static str {
        "MiniMax Token Plan subscription (5h + weekly quota windows)."
    }

    fn env_var(&self) -> Option<&'static str> {
        Some("MINIMAX_API_KEY")
    }
}


/// Remaining quota of the 5-hour and weekly windows.
pub open spec fn remains_url() -> Seq<char> {
    "https://api.minimax.io/v1/token_plan/remains"@
}

/// A window resets at its end time when that is positive.
pub open spec fn window_reset_spec(end: Option<i64>) -> Option<i64> {
    match end {
        Some(e) => if e > 0 {
            Some(e)
        } else {
            None
        },
        None => None,
    }
}

impl MinimaxProvider {
    pub fn remains_request(&self, ctx: &ProviderContext) -> (r: AppResult<HttpRequest>)
        ensures
            match ctx.api_key {
                None => r matches Err(AppError::MissingKey(p, v)) && p@ == "minimax"@ && v@
                    == "MINIMAX_API_KEY"@,
                Some(k) => r matches Ok(req) && request_is(
                    req,
                    HttpMethod::Get,
                    remains_url(),
                    Some(k@),
                    seq![("Accept"@, "application/json"@)],
                    false,
                ),
            },
    {
        match &ctx.api_key {
            None => Err(missing_key("minimax", "MINIMAX_API_KEY")),
            Some(k) => {
                let headers = vec![header("Accept", "application/json")];
                assert(headers_view(headers@) =~= seq![("Accept"@, "application/json"@)]);
                Ok(HttpRequest {
                    method: HttpMethod::Get,
                    url: owned("https://api.minimax.io/v1/token_plan/remains"),
                    bearer: Some(k.clone()),
                    headers,
                    empty_body: false,
                })
            },
        }
    }

    /// The error for a non-success answer: its status and the first 400 characters of the body.
    pub fn rejected(&self, code: u16, body: &str) -> (r: AppError)
        ensures
            r matches AppError::Upstream { status, body: b } && status == code && b@ == take_spec(
                body@,
                400,
            ),
    {
        upstream_error(code, body, 400)
    }

    /// The error for an answer that lists no model.
    pub fn empty_remains(&self) -> (r: AppError)
        ensures
            r matches AppError::Upstream { status, body: b } && status == 200 && b@
                == "empty model_remains array"@,
    {
        AppError::Upstream { status: 200, body: owned("empty model_remains array") }
    }

    /// When a window resets (its end time, if positive).
    pub fn window_reset(&self, end: Option<i64>) -> (r: Option<i64>)
        ensures
            r == window_reset_spec(end),
    {
        let e = match end {
            Some(e) => e,
            None => 0,
        };
        if e > 0 {
            Some(e)
        } else {
            None
        }
    }

    /// The 5-hour window metric.
    pub fn interval_metric<N>(&self, used: N, limit: N, end: Option<i64>) -> (r: Metric<N>)
        ensures
            is_metric(r, "5h Window"@, used, limit, "%"@, window_reset_spec(end)),
    {
        metric("5h Window", used, limit, "%", self.window_reset(end))
    }

    /// The weekly window metric.
    pub fn weekly_metric<N>(&self, used: N, limit: N, end: Option<i64>) -> (r: Metric<N>)
        ensures
            is_metric(r, "Weekly"@, used, limit, "%"@, window_reset_spec(end)),
    {
        metric("Weekly", used, limit, "%", self.window_reset(end))
    }

    /// The card; its state follows the worse window against the thresholds.
    pub fn status<N>(
        &self,
        ctx: &ProviderContext,
        worse_below_danger: bool,
        worse_below_warn: bool,
        primary: Metric<N>,
        secondary: Metric<N>,
        fetched_at: i64,
        latency_ms: u64,
    ) -> (r: ProviderStatus<N>)
        ensures
            is_usage_status(
                r,
                "minimax"@,
                shown_label(ctx.custom_label, "MiniMax"@),
                "subscription"@,
                threshold_state(worse_below_danger, worse_below_warn),
                fetched_at,
                latency_ms,
            ),
            r.primary == Some(primary),
            r.secondary == Some(secondary),
            r.account_label is None,
            r.cost_estimate is None,
    {
        let state = state_for_thresholds(worse_below_danger, worse_below_warn);
        usage_status(
            "minimax",
            display_label(&ctx.custom_label, "MiniMax"),
            "subscription",
            state,
            Some(primary),
            Some(secondary),
            None,
            None,
            fetched_at,
            latency_ms,
        )
    }
}

} // verus!
