//! Codex CLI / ChatGPT subscription, with the OAuth token that Codex stores in `~/.codex/auth.json`.
use crate::clock::{
    millis_of, parse_rfc3339, seconds_between, timestamp_millis, utc_from_rfc3339, utc_now,
    seconds_from, plain_instant, chrono_instant,
};
use crate::errors::{AppError, AppResult};
use crate::json::JsonValue;
use crate::models::{opt_str, Metric, ProviderState, ProviderStatus};
use crate::provider::{
    display_label, header, headers_view, is_metric, is_success, is_usage_status, missing_key,
    opt_static, period_usage, period_usage_spec, request_is, shown_label, success, usage_status,
    HttpMethod, HttpRequest, Provider, ProviderContext,
};
use crate::text::{concat, decimal, owned, take_chars, take_spec, u64_to_decimal};
use vstd::string::*;
use vstd::prelude::*;

verus! {

#[derive(Debug)]
pub struct CodexProvider;

impl Provider for CodexProvider {
    open spec fn spec_id(&self) -> Seq<char> {
        "codex"@
    }

    open spec fn spec_label(&self) -> Seq<char> {
        "Codex / ChatGPT"@
    }

    open spec fn spec_kind(&self) -> Seq<char> {
        "cli_local"@
    }

    open spec fn spec_docs_url(&self) -> Option<Seq<char>> {
        Some("https://chatgpt.com"@)
    }

    open spec fn spec_description(&self) -> Seq<char> {
        "ChatGPT Plus/Pro subscription. Reads OAuth token from ~/.codex/auth.json."@
    }

    open spec fn spec_env_var(&self) -> Option<Seq<char>> {
        None
    }

    fn id(&self) -> &'static str {
        "codex"
    }

    fn label(&self) -> &'static str {
        "Codex / ChatGPT"
    }

    fn kind(&self) -> &'static str {
        "cli_local"
    }

    fn docs_url(&self) -> Option<&'static str> {
        Some("https://chatgpt.com")
    }

    fn description(&self) -> &'static str {
        "ChatGPT Plus/Pro subscription. Reads OAuth token from ~/.codex/auth.json."
    }

    fn env_var(&self) -> Option<&'static str> {
        None
    }
}


/// The tokens Codex stores after sign-in (the fields this provider needs).
#[derive(Debug)]
pub struct CodexAuth {
    pub access_token: String,
    pub account_id: String,
}

/// `tokens.<field>` of the auth file, when it is a string.
pub open spec fn token_field(v: JsonValue, field: Seq<char>) -> Option<Seq<char>> {
    match v.spec_get("tokens"@) {
        Some(t) => match t.spec_get(field) {
            Some(x) => x.spec_as_str(),
            None => None,
        },
        None => None,
    }
}

pub open spec fn me_url() -> Seq<char> {
    "https://chatgpt.com/backend-api/me"@
}

pub open spec fn subscriptions_url(account_id: Seq<char>) -> Seq<char> {
    "https://chatgpt.com/backend-api/subscriptions?account_id="@ + account_id
}

pub open spec fn browser_headers() -> Seq<(Seq<char>, Seq<char>)> {
    seq![
        ("Accept"@, "application/json"@),
        ("User-Agent"@, "desktop-usage-helper/0.2.7"@),
        ("Referer"@, "https://chatgpt.com/"@),
    ]
}

/// Label of the subscription metric.
pub open spec fn plan_label(plan: Option<Seq<char>>) -> Seq<char> {
    match plan {
        Some(p) => p + " subscription"@,
        None => "Subscription"@,
    }
}

fn field_str<'a>(v: &'a JsonValue, key: &str) -> (r: Option<&'a str>)
    ensures
        match r {
            Some(s) => match v.spec_get(key@) {
                Some(x) => x.spec_as_str() == Some(s@),
                None => false,
            },
            None => match v.spec_get(key@) {
                Some(x) => x.spec_as_str() is None,
                None => true,
            },
        },
{
    match v.get(key) {
        Some(x) => x.as_str(),
        None => None,
    }
}

fn token_str<'a>(v: &'a JsonValue, field: &str) -> (r: Option<&'a str>)
    ensures
        match r {
            Some(s) => token_field(*v, field@) == Some(s@),
            None => token_field(*v, field@) is None,
        },
{
    match v.get("tokens") {
        Some(t) => match t.get(field) {
            Some(x) => x.as_str(),
            None => None,
        },
        None => None,
    }
}

fn browser_request(url: String, token: &String) -> (r: HttpRequest)
    ensures
        request_is(r, HttpMethod::Get, url@, Some(token@), browser_headers(), false),
{
    let headers = vec![
        header("Accept", "application/json"),
        header("User-Agent", "desktop-usage-helper/0.2.7"),
        header("Referer", "https://chatgpt.com/"),
    ];
    assert(headers_view(headers@) =~= browser_headers());
    HttpRequest { method: HttpMethod::Get, url, bearer: Some(token.clone()), headers, empty_body: false }
}

impl CodexProvider {
    /// The error when neither `USERPROFILE` nor `HOME` is set.
    pub fn home_missing(&self) -> (r: AppError)
        ensures
            r matches AppError::MissingKey(p, v) && p@ == "codex"@ && v@
                == "no HOME/USERPROFILE env var"@,
    {
        missing_key("codex", "no HOME/USERPROFILE env var")
    }

    /// The error when `~/.codex/auth.json` cannot be read.
    pub fn auth_file_missing(&self) -> (r: AppError)
        ensures
            r matches AppError::MissingKey(p, v) && p@ == "codex"@ && v@
                == "run `codex` to sign in (creates ~/.codex/auth.json)"@,
    {
        missing_key("codex", "run `codex` to sign in (creates ~/.codex/auth.json)")
    }

    /// The error when the auth file is not JSON.
    pub fn auth_unparsable(&self, reason: &str) -> (r: AppError)
        ensures
            r matches AppError::Upstream { status, body } && status == 0 && body@
                == "Failed to parse ~/.codex/auth.json: "@ + reason@,
    {
        AppError::Upstream { status: 0, body: concat("Failed to parse ~/.codex/auth.json: ", reason) }
    }

    /// The tokens from the parsed auth file: the access token is required, the
    /// account id defaults to empty.
    pub fn auth_from_json(&self, v: &JsonValue) -> (r: AppResult<CodexAuth>)
        ensures
            match token_field(*v, "access_token"@) {
                None => r matches Err(AppError::MissingKey(p, m)) && p@ == "codex"@ && m@
                    == "no access_token in ~/.codex/auth.json"@,
                Some(t) => r matches Ok(a) && a.access_token@ == t && a.account_id@ == match token_field(
                    *v,
                    "account_id"@,
                ) {
                    Some(id) => id,
                    None => ""@,
                },
            },
    {
        let access_token = match token_str(v, "access_token") {
            Some(t) => owned(t),
            None => {
                return Err(missing_key("codex", "no access_token in ~/.codex/auth.json"));
            },
        };
        let account_id = match token_str(v, "account_id") {
            Some(a) => owned(a),
            None => owned(""),
        };
        Ok(CodexAuth { access_token, account_id })
    }

    /// The account request (user info).
    pub fn me_request(&self, auth: &CodexAuth) -> (r: HttpRequest)
        ensures
            request_is(r, HttpMethod::Get, me_url(), Some(auth.access_token@), browser_headers(), false),
    {
        browser_request(owned("https://chatgpt.com/backend-api/me"), &auth.access_token)
    }

    /// Whether the account answer stops the fetch: 401 means the token expired.
    pub fn me_rejected(&self, code: u16) -> (r: Option<AppError>)
        ensures
            code == 401 ==> (r matches Some(AppError::Upstream { status, body }) && status == 401
                && body@ == "Token expired. Run `codex` to sign in again (refreshes ~/.codex/auth.json)."@),
            code != 401 && !success(code) ==> (r matches Some(AppError::Upstream { status, body })
                && status == code && body@ == "GET /backend-api/me failed: HTTP "@ + decimal(
                code as nat,
            )),
            success(code) ==> r is None,
    {
        if code == 401 {
            return Some(AppError::Upstream {
                status: 401,
                body: owned("Token expired. Run `codex` to sign in again (refreshes ~/.codex/auth.json)."),
            });
        }
        if !is_success(code) {
            let d = u64_to_decimal(code as u64);
            return Some(AppError::Upstream {
                status: code,
                body: concat("GET /backend-api/me failed: HTTP ", d.as_str()),
            });
        }
        None
    }

    /// The account label: the user's email, when the answer has one.
    pub fn account_label(&self, me: &JsonValue) -> (r: Option<String>)
        ensures
            opt_str(r) == match me.spec_get("email"@) {
                Some(x) => x.spec_as_str(),
                None => None,
            },
    {
        match field_str(me, "email") {
            Some(s) => Some(owned(s)),
            None => None,
        }
    }

    /// The subscription request for the account.
    pub fn subscription_request(&self, auth: &CodexAuth) -> (r: HttpRequest)
        ensures
            request_is(
                r,
                HttpMethod::Get,
                subscriptions_url(auth.account_id@),
                Some(auth.access_token@),
                browser_headers(),
                false,
            ),
    {
        let url = concat("https://chatgpt.com/backend-api/subscriptions?account_id=", auth.account_id.as_str());
        browser_request(url, &auth.access_token)
    }

    /// The error for a non-success subscription answer.
    pub fn subscription_rejected(&self, code: u16, body: &str) -> (r: AppError)
        ensures
            r matches AppError::Upstream { status, body: b } && status == code && b@
                == "GET /backend-api/subscriptions failed (HTTP "@ + decimal(code as nat) + "): "@
                + take_spec(body@, 300),
    {
        let mut m = owned("GET /backend-api/subscriptions failed (HTTP ");
        let d = u64_to_decimal(code as u64);
        m.append(d.as_str());
        m.append("): ");
        let t = take_chars(body, 300);
        m.append(t.as_str());
        AppError::Upstream { status: code, body: m }
    }

    /// `(used, limit)` in seconds of the subscription period.
    pub fn period_seconds(&self, total_secs: i64, elapsed_secs: i64) -> (r: (i64, i64))
        ensures
            r == period_usage_spec(total_secs, elapsed_secs),
    {
        period_usage(total_secs, elapsed_secs)
    }

    /// The subscription metric, labelled with the plan.
    pub fn subscription_metric<N>(&self, plan: Option<&str>, used: N, limit: N, period_end_ms: i64) -> (r: Metric<N>)
        ensures
            is_metric(r, plan_label(opt_static(plan)), used, limit, "s"@, Some(period_end_ms)),
    {
        let label = match plan {
            Some(p) => concat(p, " subscription"),
            None => owned("Subscription"),
        };
        Metric { label, used, limit, unit: Some(owned("s")), reset_at: Some(period_end_ms) }
    }

    /// The card, with the account's email as its account label.
    pub fn status<N>(
        &self,
        ctx: &ProviderContext,
        state: ProviderState,
        primary: Option<Metric<N>>,
        account_label: Option<String>,
        fetched_at: i64,
        latency_ms: u64,
    ) -> (r: ProviderStatus<N>)
        ensures
            is_usage_status(
                r,
                "codex"@,
                shown_label(ctx.custom_label, "Codex / ChatGPT"@),
                "cli_local"@,
                state,
                fetched_at,
                latency_ms,
            ),
            r.primary == primary,
            r.secondary is None,
            r.account_label == account_label,
            r.cost_estimate is None,
    {
        usage_status(
            "codex",
            display_label(&ctx.custom_label, "Codex / ChatGPT"),
            "cli_local",
            state,
            primary,
            None,
            account_label,
            None,
            fetched_at,
            latency_ms,
        )
    }
}

/// The subscription period at instant `now`, from its start and end as
/// RFC 3339 text: `(seconds used, seconds in the period, end in milliseconds)`;
/// without both ends there is none.
pub open spec fn period_at_spec(start: Option<Seq<char>>, end: Option<Seq<char>>, now: (i64, u32)) -> Option<
    (i64, i64, i64),
> {
    match (start, end) {
        (Some(a), Some(b)) => match (utc_from_rfc3339(a), utc_from_rfc3339(b)) {
            (Some(s), Some(e)) => match (seconds_from(e, s), seconds_from(now, s)) {
                (Some(total), Some(elapsed)) => {
                    let (u, l) = period_usage_spec(total, elapsed);
                    Some((u, l, millis_of(e) as i64))
                },
                _ => None,
            },
            _ => None,
        },
        _ => None,
    }
}

/// Both ends of the period are given and chrono reads them.
pub open spec fn period_known(start: Option<Seq<char>>, end: Option<Seq<char>>) -> bool {
    match (start, end) {
        (Some(a), Some(b)) => utc_from_rfc3339(a) is Some && utc_from_rfc3339(b) is Some,
        _ => false,
    }
}

/// `m` is the subscription metric of period `p` under the plan's label (none without a period).
pub open spec fn is_period_metric(m: Option<Metric<i64>>, plan: Option<Seq<char>>, p: Option<(i64, i64, i64)>) -> bool {
    match p {
        Some((u, l, end_ms)) => m matches Some(x) && is_metric(x, plan_label(plan), u, l, "s"@, Some(end_ms)),
        None => m is None,
    }
}

impl CodexProvider {
    /// The subscription metric at instant `now`, in seconds.
    pub fn period_metric_at(
        &self,
        plan: Option<&str>,
        start: Option<&str>,
        end: Option<&str>,
        now: (i64, u32),
    ) -> (r: Option<Metric<i64>>)
        ensures
            is_period_metric(r, opt_static(plan), period_at_spec(opt_static(start), opt_static(end), now)),
            chrono_instant(now) ==> (r is Some <==> period_known(opt_static(start), opt_static(end))),
    {
        let (a, b) = match (start, end) {
            (Some(a), Some(b)) => (a, b),
            _ => {
                return None;
            },
        };
        let (s, e) = match (parse_rfc3339(a), parse_rfc3339(b)) {
            (Some(s), Some(e)) => (s, e),
            _ => {
                return None;
            },
        };
        match (seconds_between(e, s), seconds_between(now, s)) {
            (Some(total), Some(elapsed)) => {
                let (used, limit) = self.period_seconds(total, elapsed);
                Some(self.subscription_metric(plan, used, limit, timestamp_millis(e)))
            },
            _ => None,
        }
    }

    /// The subscription metric now (the system clock is read once).
    pub fn period_metric_now(&self, plan: Option<&str>, start: Option<&str>, end: Option<&str>) -> (r: Option<
        Metric<i64>,
    >)
        ensures
            exists|now: (i64, u32)|
                plain_instant(now) && is_period_metric(
                    r,
                    opt_static(plan),
                    period_at_spec(opt_static(start), opt_static(end), now),
                ),
            r is Some <==> period_known(opt_static(start), opt_static(end)),
    {
        let now = utc_now();
        self.period_metric_at(plan, start, end, now)
    }
}

} // verus!
