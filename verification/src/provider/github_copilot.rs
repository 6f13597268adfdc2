//! GitHub Copilot: seat billing where the account exposes it.
use crate::json::{JsonNumber, JsonValue};
use crate::models::{ProviderState, ProviderStatus};
use crate::provider::{
    is_success, success,
    bearer_get, display_label, is_metric, is_notice, is_usage_status, metric, notice, number_at,
    number_field, opt_static, request_is, shown_label, usage_status, HttpMethod, HttpRequest,
    Provider, ProviderContext,
};
use crate::text::{concat, owned};
use vstd::string::*;
use vstd::prelude::*;

verus! {

#[derive(Debug)]
pub struct GithubCopilotProvider;

impl Provider for GithubCopilotProvider {
    open spec fn spec_id(&self) -> Seq<char> {
        "github_copilot"@
    }

    open spec fn spec_label(&self) -> Seq<char> {
        "GitHub Copilot"@
    }

    open spec fn spec_kind(&self) -> Seq<char> {
        "subscription"@
    }

    open spec fn spec_docs_url(&self) -> Option<Seq<char>> {
        Some("https://github.com/settings/billing"@)
    }

    open spec fn spec_description(&self) -> Seq<char> {
        "GitHub Copilot premium requests. No public API for individual usage."@
    }

    open spec fn spec_env_var(&self) -> Option<Seq<char>> {
        Some("GITHUB_TOKEN"@)
    }

    fn id(&self) -> &'static str {
        "github_copilot"
    }

    fn label(&self) -> &'static str {
        "GitHub Copilot"
    }

    fn kind(&self) -> &'static str {
        "subscription"
    }

    fn docs_url(&self) -> Option<&'static str> {
        Some("https://github.com/settings/billing")
    }

    fn description(&self) -> &'static str {
        "GitHub Copilot premium requests. No public API for individual usage."
    }

    fn env_var(&self) -> Option<&'static str> {
        Some("GITHUB_TOKEN")
    }
}


pub open spec fn github_accept() -> Seq<char> {
    "application/vnd.github+json"@
}

pub open spec fn user_url() -> Seq<char> {
    "https://api.github.com/user"@
}

pub open spec fn billing_url(login: Seq<char>) -> Seq<char> {
    "https://api.github.com/users/"@ + login + "/settings/billing/copilot"@
}

pub open spec fn no_usage_api_note() -> Seq<char> {
    "GitHub Copilot premium-request usage is not exposed via API. Check github.com/settings/billing manually."@
}

/// The login in a `/user` answer (empty when absent).
pub open spec fn login_of(v: JsonValue) -> Seq<char> {
    match v.spec_get("login"@) {
        Some(x) => match x.spec_as_str() {
            Some(s) => s,
            None => ""@,
        },
        None => ""@,
    }
}

impl GithubCopilotProvider {
    /// The account request, made only when a token is configured.
    pub fn user_request(&self, ctx: &ProviderContext) -> (r: Option<HttpRequest>)
        ensures
            match ctx.api_key {
                None => r is None,
                Some(k) => r matches Some(req) && request_is(
                    req,
                    HttpMethod::Get,
                    user_url(),
                    Some(k@),
                    seq![("Accept"@, github_accept())],
                    false,
                ),
            },
    {
        match &ctx.api_key {
            None => None,
            Some(k) => Some(bearer_get(owned("https://api.github.com/user"), k.as_str(), "application/vnd.github+json")),
        }
    }

    /// The login of the account.
    pub fn login(&self, user: &JsonValue) -> (r: String)
        ensures
            r@ == login_of(*user),
    {
        match user.get("login") {
            Some(x) => match x.as_str() {
                Some(s) => owned(s),
                None => owned(""),
            },
            None => owned(""),
        }
    }

    /// The Copilot billing request for the account.
    pub fn billing_request(&self, token: &str, login: &str) -> (r: HttpRequest)
        ensures
            request_is(r, HttpMethod::Get, billing_url(login@), Some(token@), seq![("Accept"@, github_accept())], false),
    {
        let mut url = concat("https://api.github.com/users/", login);
        url.append("/settings/billing/copilot");
        bearer_get(url, token, "application/vnd.github+json")
    }

    /// The seat count in a billing answer.
    pub fn seats<'a>(&self, billing: &'a JsonValue) -> (r: Option<&'a JsonNumber>)
        ensures
            match r {
                Some(n) => number_field(*billing, "seats"@) == Some(*n),
                None => number_field(*billing, "seats"@) is None,
            },
    {
        number_at(billing, "seats")
    }

    /// The card for a billing answer: seats used of seats, state Ok.
    pub fn seats_status<N: Copy>(&self, ctx: &ProviderContext, seats: N, fetched_at: i64, latency_ms: u64) -> (r: ProviderStatus<N>)
        ensures
            is_usage_status(
                r,
                "github_copilot"@,
                shown_label(ctx.custom_label, "GitHub Copilot"@),
                "subscription"@,
                ProviderState::Good,
                fetched_at,
                latency_ms,
            ),
            r.primary matches Some(m) && is_metric(m, "Seats"@, seats, seats, "seats"@, None),
            r.secondary is None,
            r.account_label is None,
            r.cost_estimate is None,
    {
        usage_status(
            "github_copilot",
            display_label(&ctx.custom_label, "GitHub Copilot"),
            "subscription",
            ProviderState::Good,
            Some(metric("Seats", seats, seats, "seats", None)),
            None,
            None,
            None,
            fetched_at,
            latency_ms,
        )
    }

    /// The card when no token is set or GitHub does not answer with billing data.
    pub fn no_usage_api<N>(&self, ctx: &ProviderContext, fetched_at: i64, latency_ms: u64) -> (r: ProviderStatus<N>)
        ensures
            is_notice(
                r,
                "github_copilot"@,
                shown_label(ctx.custom_label, "GitHub Copilot"@),
                "subscription"@,
                no_usage_api_note(),
                fetched_at,
                latency_ms,
            ),
    {
        notice(
            "github_copilot",
            &ctx.custom_label,
            "GitHub Copilot",
            "subscription",
            "GitHub Copilot premium-request usage is not exposed via API. Check github.com/settings/billing manually.",
            fetched_at,
            latency_ms,
        )
    }
}

/// The two answers a Copilot fetch reads.
#[derive(Debug, Clone, Copy, PartialEq, Eq, Structural)]
pub enum CopilotStage {
    /// The account (`/user`).
    User,
    /// The Copilot billing of the account.
    Billing,
}

/// What a Copilot fetch does next.
#[derive(Debug)]
pub enum CopilotStep {
    /// Send the request of a stage.
    Send(CopilotStage, HttpRequest),
    /// The answer of a stage succeeded: read its JSON.
    Read(CopilotStage),
    /// Show the informational card.
    Notice,
}

impl GithubCopilotProvider {
    /// The first step: ask for the account when a token is set, else show the card.
    pub fn first_step(&self, ctx: &ProviderContext) -> (r: CopilotStep)
        ensures
            match ctx.api_key {
                None => r is Notice,
                Some(k) => r matches CopilotStep::Send(stage, req) && stage == CopilotStage::User
                    && request_is(req, HttpMethod::Get, user_url(), Some(k@), seq![("Accept"@, github_accept())], false),
            },
    {
        match self.user_request(ctx) {
            Some(req) => CopilotStep::Send(CopilotStage::User, req),
            None => CopilotStep::Notice,
        }
    }

    /// After the answer of a stage: read a success, otherwise show the card.
    pub fn after_answer(&self, stage: CopilotStage, code: u16) -> (r: CopilotStep)
        ensures
            success(code) ==> (r matches CopilotStep::Read(s) && s == stage),
            !success(code) ==> r is Notice,
    {
        if is_success(code) {
            CopilotStep::Read(stage)
        } else {
            CopilotStep::Notice
        }
    }

    /// After reading the account: ask for its Copilot billing with the same token.
    pub fn after_user(&self, ctx: &ProviderContext, user: &JsonValue) -> (r: CopilotStep)
        ensures
            match ctx.api_key {
                None => r is Notice,
                Some(k) => r matches CopilotStep::Send(stage, req) && stage == CopilotStage::Billing
                    && request_is(req, HttpMethod::Get, billing_url(login_of(*user)), Some(k@), seq![("Accept"@, github_accept())], false),
            },
    {
        match &ctx.api_key {
            Some(k) => {
                let login = self.login(user);
                CopilotStep::Send(CopilotStage::Billing, self.billing_request(k.as_str(), login.as_str()))
            },
            None => CopilotStep::Notice,
        }
    }
}

} // verus!
