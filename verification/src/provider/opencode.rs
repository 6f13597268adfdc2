//! opencode Zen: the key is validated against `/models`; there is no usage endpoint.
use crate::errors::{AppError, AppResult};
use crate::models::ProviderStatus;
use crate::provider::{
    header, headers_view, is_notice, missing_key, notice, opt_static, request_is, shown_label,
    HttpMethod, HttpRequest, Provider, ProviderContext,
};
use crate::text::{concat, decimal, owned, take_chars, take_spec, u64_to_decimal};
use vstd::string::*;
use vstd::prelude::*;

verus! {

#[derive(Debug)]
pub struct OpencodeProvider;

impl Provider for OpencodeProvider {
    open spec fn spec_id(&self) -> Seq<char> {
        "opencode"@
    }

    open spec fn spec_label(&self) -> Seq<char> {
        "opencode Zen"@
    }

    open spec fn spec_kind(&self) -> Seq<char> {
        "subscription"@
    }

    open spec fn spec_docs_url(&self) -> Option<Seq<char>> {
        Some("https://opencode.ai/docs/zen"@)
    }

    open spec fn spec_description(&self) -> Seq<char> {
        "opencode Zen multi-model gateway. API key validation via /models; no public usage endpoint yet."@
    }

    open spec fn spec_env_var(&self) -> Option<Seq<char>> {
        Some("OPENCODE_ZEN_API_KEY"@)
    }

    fn id(&self) -> &'static str {
        "opencode"
    }

    fn label(&self) -> &'static str {
        "opencode Zen"
    }

    fn kind(&self) -> &'static str {
        "subscription"
    }

    fn docs_url(&self) -> Option<&'static str> {
        Some("https://opencode.ai/docs/zen")
    }

    fn description(&self) -> &'static str {
        "opencode Zen multi-model gateway. API key validation via /models; no public usage endpoint yet."
    }

    fn env_var(&self) -> Option<&'static str> {
        Some("OPENCODE_ZEN_API_KEY")
    }
}


/// Base of the Zen API when the user set no endpoint.
pub open spec fn default_base() -> Seq<char> {
    "https://opencode.ai/zen/go/v1"@
}

/// The URL that lists the models (the key check).
pub open spec fn models_url(ctx: ProviderContext) -> Seq<char> {
    match ctx.custom_endpoint {
        Some(b) => b@ + "/models"@,
        None => default_base() + "/models"@,
    }
}

pub open spec fn key_valid_note() -> Seq<char> {
    "API key valid. Usage endpoint not available — open dashboard to view credits/balance."@
}

/// The error for a key the Zen API refused.
pub open spec fn validation_failed(code: u16, body: Seq<char>) -> Seq<char> {
    "opencode Zen API key validation failed (HTTP "@ + decimal(code as nat) + "). "@ + take_spec(
        body,
        200,
    )
}

impl OpencodeProvider {
    /// The request that validates the key by listing the models.
    pub fn models_request(&self, ctx: &ProviderContext) -> (r: AppResult<HttpRequest>)
        ensures
            match ctx.api_key {
                None => r matches Err(AppError::MissingKey(p, v)) && p@ == "opencode"@ && v@
                    == "OPENCODE_ZEN_API_KEY"@,
                Some(k) => r matches Ok(req) && request_is(
                    req,
                    HttpMethod::Get,
                    models_url(*ctx),
                    Some(k@),
                    seq![
                        ("Accept"@, "application/json"@),
                        ("User-Agent"@, "desktop-usage-helper/0.1"@),
                    ],
                    false,
                ),
            },
    {
        match &ctx.api_key {
            None => Err(missing_key("opencode", "OPENCODE_ZEN_API_KEY")),
            Some(k) => {
                let url = match &ctx.custom_endpoint {
                    Some(b) => concat(b.as_str(), "/models"),
                    None => concat("https://opencode.ai/zen/go/v1", "/models"),
                };
                let headers = vec![
                    header("Accept", "application/json"),
                    header("User-Agent", "desktop-usage-helper/0.1"),
                ];
                assert(headers_view(headers@) =~= seq![
                    ("Accept"@, "application/json"@),
                    ("User-Agent"@, "desktop-usage-helper/0.1"@),
                ]);
                Ok(HttpRequest {
                    method: HttpMethod::Get,
                    url,
                    bearer: Some(k.clone()),
                    headers,
                    empty_body: false,
                })
            },
        }
    }

    /// The outcome of the key check: HTTP 200 means the key works (and a note
    /// that usage cannot be read); anything else is an error with the start of the body.
    pub fn on_models_response<N>(
        &self,
        ctx: &ProviderContext,
        code: u16,
        body: &str,
        fetched_at: i64,
        latency_ms: u64,
    ) -> (r: AppResult<ProviderStatus<N>>)
        ensures
            code == 200 ==> (r matches Ok(s) && is_notice(
                s,
                "opencode"@,
                shown_label(ctx.custom_label, "opencode Zen"@),
                "subscription"@,
                key_valid_note(),
                fetched_at,
                latency_ms,
            )),
            code != 200 ==> (r matches Err(AppError::Upstream { status, body: b }) && status == code
                && b@ == validation_failed(code, body@)),
    {
        if code == 200 {
            return Ok(notice(
                "opencode",
                &ctx.custom_label,
                "opencode Zen",
                "subscription",
                "API key valid. Usage endpoint not available — open dashboard to view credits/balance.",
                fetched_at,
                latency_ms,
            ));
        }
        let mut m = owned("opencode Zen API key validation failed (HTTP ");
        let d = u64_to_decimal(code as u64);
        m.append(d.as_str());
        m.append("). ");
        let t = take_chars(body, 200);
        m.append(t.as_str());
        Err(AppError::Upstream { status: code, body: m })
    }
}

} // verus!
