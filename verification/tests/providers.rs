use desktop_usage_helper::errors::AppError;
use desktop_usage_helper::json::{JsonNumber, JsonValue};
use desktop_usage_helper::models::{AppConfig, ProviderState, ProviderStatus};
use desktop_usage_helper::provider::anthropic::AnthropicProvider;
use desktop_usage_helper::provider::codex::CodexProvider;
use desktop_usage_helper::provider::cursor::CursorProvider;
use desktop_usage_helper::provider::github_copilot::{CopilotStage, CopilotStep, GithubCopilotProvider};
use desktop_usage_helper::provider::minimax::MinimaxProvider;
use desktop_usage_helper::provider::ollama::OllamaProvider;
use desktop_usage_helper::provider::openai::OpenaiProvider;
use desktop_usage_helper::provider::opencode::OpencodeProvider;
use desktop_usage_helper::provider::registry::{check_env_keys, failed_status, stamp, ProviderRegistry};
use desktop_usage_helper::provider::zai::ZaiProvider;
use desktop_usage_helper::provider as providers;
use desktop_usage_helper::models::ProviderState::{Danger, Good, Unknown, Warn};
use desktop_usage_helper::provider::{
    build_registry, combine_states, env_summary, is_success, period_usage, probe_outcome,
    state_for_thresholds, worst, EnvSnapshot, HttpMethod, HttpRequest, ProbeOutcome, ProbeStep, Provider,
    ProviderContext,
};

fn ctx(key: Option<&str>) -> ProviderContext {
    ProviderContext {
        api_key: key.map(|k| k.to_string()),
        warn_pct: 30,
        danger_pct: 10,
        custom_label: None,
        custom_endpoint: None,
    }
}
fn headers(r: &HttpRequest) -> Vec<(&str, &str)> {
    r.headers.iter().map(|(a, b)| (a.as_str(), b.as_str())).collect()
}
fn obj(members: Vec<(&str, JsonValue)>) -> JsonValue {
    JsonValue::Object(members.into_iter().map(|(k, v)| (k.to_string(), v)).collect())
}
fn num(text: &str) -> JsonValue {
    JsonValue::Number(JsonNumber { unsigned: text.parse().ok(), text: text.to_string() })
}
fn upstream(e: AppError) -> (u16, String) {
    match e {
        AppError::Upstream { status, body } => (status, body),
        other => panic!("not upstream: {:?}", other),
    }
}

#[test]
fn worst_orders_ok_warn_danger_unknown() {
    assert_eq!(worst(&[]), Unknown);
    assert_eq!(worst(&[Good]), Good);
    assert_eq!(worst(&[Good, Warn]), Warn);
    assert_eq!(worst(&[Warn, Danger, Good]), Danger);
    assert_eq!(worst(&[Danger, Unknown]), Unknown);
    assert_eq!(worst(&[Unknown, Good]), Unknown);
}

#[test]
fn card_state_from_two_metrics() {
    assert_eq!(combine_states(Some(Good), Some(Danger)), Danger);
    assert_eq!(combine_states(Some(Warn), None), Warn);
    assert_eq!(combine_states(None, Some(Good)), Good);
    assert_eq!(combine_states(None, None), Unknown);
    assert_eq!(state_for_thresholds(true, true), Danger);
    assert_eq!(state_for_thresholds(false, true), Warn);
    assert_eq!(state_for_thresholds(false, false), Good);
}

#[test]
fn subscription_period_usage() {
    assert_eq!(period_usage(30, 12), (12, 30));
    assert_eq!(period_usage(0, 5), (1, 1));
    assert_eq!(period_usage(30, -3), (0, 30));
    assert_eq!(period_usage(30, 45), (30, 30));
    assert_eq!(OllamaProvider.period_days(true, 30, 12), (1, 1));
    assert_eq!(OllamaProvider.period_days(false, 30, 12), (12, 30));
    assert_eq!(CodexProvider.period_seconds(2_592_000, 100), (100, 2_592_000));
}

#[test]
fn http_success_and_probe_outcomes() {
    assert!(is_success(200) && is_success(299) && !is_success(300) && !is_success(199));
    assert_eq!(probe_outcome(200), ProbeOutcome::ReadUsage);
    assert_eq!(probe_outcome(401), ProbeOutcome::Refused);
    assert_eq!(probe_outcome(403), ProbeOutcome::Refused);
    assert_eq!(probe_outcome(404), ProbeOutcome::TryNext);
    assert_eq!(probe_outcome(500), ProbeOutcome::TryNext);
}

#[test]
fn registry_order_and_metadata() {
    let r = build_registry();
    let ids: Vec<&str> = r.iter().map(|p| p.id()).collect();
    assert_eq!(ids, vec!["ollama", "opencode", "minimax", "codex"]);
    assert_eq!(OllamaProvider.label(), "Ollama Cloud");
    assert_eq!(OllamaProvider.env_var(), Some("OLLAMA_API_KEY"));
    assert_eq!(CodexProvider.env_var(), None);
    assert_eq!(CodexProvider.kind(), "cli_local");
    assert_eq!(CursorProvider.docs_url(), Some("https://cursor.com/settings"));
    assert_eq!(ZaiProvider.kind(), "llm_api");
    assert_eq!(GithubCopilotProvider.env_var(), Some("GITHUB_TOKEN"));
    assert_eq!(OpenaiProvider.env_var(), Some("OPENAI_API_KEY"));
    assert_eq!(AnthropicProvider.id(), "anthropic");
    let m = MinimaxProvider.meta(true, false, false);
    assert_eq!(m.id, "minimax");
    assert_eq!(m.label, "MiniMax");
    assert_eq!(m.env_var.as_deref(), Some("MINIMAX_API_KEY"));
    assert_eq!(m.description, "MiniMax Token Plan subscription (5h + weekly quota windows).");
    assert!(m.enabled && !m.has_key && !m.env_present);
}

#[test]
fn environment_values_count_only_when_non_empty() {
    let e = EnvSnapshot {
        vars: vec![
            ("OLLAMA_API_KEY".into(), "sk-env".into()),
            ("MINIMAX_API_KEY".into(), "".into()),
        ],
    };
    assert_eq!(providers::env(&e, "OLLAMA_API_KEY").as_deref(), Some("sk-env"));
    assert_eq!(providers::env(&e, "MINIMAX_API_KEY"), None);
    assert_eq!(providers::env(&e, "ZAI_API_KEY"), None);
    let summary = env_summary(&build_registry(), &e);
    assert_eq!(summary.len(), 4);
    assert!(summary[0].has_key && summary[0].env_present && summary[0].enabled);
    assert!(!summary[2].has_key);
    assert!(!summary[3].env_present);
    let reg = ProviderRegistry::new(build_registry());
    let keys = check_env_keys(&reg, &e);
    let got: Vec<(&str, &str, bool)> = keys.iter().map(|k| (k.id.as_str(), k.env_var.as_str(), k.present)).collect();
    assert_eq!(
        got,
        vec![
            ("ollama", "OLLAMA_API_KEY", true),
            ("opencode", "OPENCODE_ZEN_API_KEY", false),
            ("minimax", "MINIMAX_API_KEY", false),
        ]
    );
}

#[test]
fn refresh_polls_enabled_providers_with_the_right_key() {
    let reg = ProviderRegistry::new(build_registry());
    let e = EnvSnapshot { vars: vec![("OLLAMA_API_KEY".into(), "sk-env".into()), ("MINIMAX_API_KEY".into(), "mm-env".into())] };
    let mut cfg = AppConfig::default();
    assert!(reg.refresh_plan(&cfg, &e).is_empty());
    cfg.set_provider_enabled("ollama", true);
    cfg.set_provider_enabled("minimax", true);
    cfg.set_provider_api_key("minimax", "mm-pasted");
    cfg.set_provider_enabled("opencode", false);
    let plan = reg.refresh_plan(&cfg, &e);
    let got: Vec<(usize, Option<&str>)> = plan.iter().map(|(i, x)| (*i, x.api_key.as_deref())).collect();
    assert_eq!(got, vec![(0, Some("sk-env")), (2, Some("mm-pasted"))]);
    assert_eq!(plan[0].1.warn_pct, 30);
    assert_eq!(plan[0].1.danger_pct, 10);

    let metas = reg.metas(&cfg, &e);
    assert!(metas[0].enabled && metas[0].has_key && metas[0].env_present);
    assert!(!metas[1].enabled && !metas[1].has_key);
    assert!(metas[2].enabled && metas[2].has_key);
    assert!(!metas[3].enabled);

    match reg.refresh_one_plan("nope", &cfg, &e) {
        Err(AppError::ProviderNotFound(id)) => assert_eq!(id, "nope"),
        _ => panic!("expected ProviderNotFound"),
    }
    let (p, x) = reg.refresh_one_plan("codex", &cfg, &e).ok().unwrap();
    assert_eq!(p.id(), "codex");
    assert!(x.api_key.is_none());
    assert!(reg.get("minimax").is_some());
    assert_eq!(reg.all().len(), 4);

    // clearing the pasted key falls back to the environment variable
    cfg.set_provider_api_key("minimax", "");
    let plan = reg.refresh_plan(&cfg, &e);
    assert_eq!(plan[1].1.api_key.as_deref(), Some("mm-env"));
}

#[test]
fn failed_fetch_status() {
    let mut s: ProviderStatus<f64> = failed_status("zai", "network error: x".into(), 5, 7);
    assert_eq!(s.id, "zai");
    assert_eq!(s.label, "zai");
    assert_eq!(s.kind, "unknown");
    assert_eq!(s.state, ProviderState::Unknown);
    assert_eq!(s.error.as_deref(), Some("network error: x"));
    assert!(s.primary.is_none() && s.secondary.is_none());
    stamp(&mut s, 100, 20);
    assert_eq!((s.fetched_at, s.latency_ms), (100, 20));
}

#[test]
fn ollama_request_and_errors() {
    match OllamaProvider.me_request(&ctx(None)) {
        Err(AppError::MissingKey(p, v)) => assert_eq!((p.as_str(), v.as_str()), ("ollama", "OLLAMA_API_KEY")),
        _ => panic!(),
    }
    let r = OllamaProvider.me_request(&ctx(Some("k"))).ok().unwrap();
    assert_eq!(r.method, HttpMethod::Post);
    assert_eq!(r.url, "https://ollama.com/api/me");
    assert_eq!(r.bearer.as_deref(), Some("k"));
    assert_eq!(headers(&r), vec![("Accept", "application/json"), ("Content-Length", "0")]);
    assert!(r.empty_body);
    let mut c = ctx(Some("k"));
    c.custom_endpoint = Some("https://mirror.test/me".into());
    assert_eq!(OllamaProvider.me_request(&c).ok().unwrap().url, "https://mirror.test/me");
    let long = "x".repeat(500);
    let (st, body) = upstream(OllamaProvider.rejected(502, &long));
    assert_eq!(st, 502);
    assert_eq!(body.len(), 400);
    let m = OllamaProvider.subscription_metric(12.0, 30.0, 1_700_000_000_000);
    assert_eq!((m.label.as_str(), m.unit.as_deref(), m.reset_at), ("Subscription", Some("days"), Some(1_700_000_000_000)));
    let x = OllamaProvider.extra_usage_metric(0.0, 20.0);
    assert_eq!((x.label.as_str(), x.unit.as_deref(), x.reset_at), ("Extra usage budget", Some("USD"), None));
    let mut c2 = ctx(Some("k"));
    c2.custom_label = Some("Home".into());
    let st: ProviderStatus<f64> = OllamaProvider.status(&c2, Some(m), Some(ProviderState::Good), Some(x), Some(ProviderState::Warn), 1, 2);
    assert_eq!(st.label, "Home");
    assert_eq!(st.state, ProviderState::Warn);
    assert!(st.error.is_none());
}

#[test]
fn minimax_request_and_windows() {
    assert!(MinimaxProvider.remains_request(&ctx(None)).is_err());
    let r = MinimaxProvider.remains_request(&ctx(Some("sk-cp"))).ok().unwrap();
    assert_eq!(r.url, "https://api.minimax.io/v1/token_plan/remains");
    assert_eq!(r.method, HttpMethod::Get);
    assert_eq!(headers(&r), vec![("Accept", "application/json")]);
    let (st, body) = upstream(MinimaxProvider.empty_remains());
    assert_eq!((st, body.as_str()), (200, "empty model_remains array"));
    assert_eq!(MinimaxProvider.window_reset(Some(0)), None);
    assert_eq!(MinimaxProvider.window_reset(None), None);
    assert_eq!(MinimaxProvider.window_reset(Some(-4)), None);
    assert_eq!(MinimaxProvider.window_reset(Some(99)), Some(99));
    let a = MinimaxProvider.interval_metric(25.0, 100.0, Some(10));
    let b = MinimaxProvider.weekly_metric(5.0, 100.0, None);
    assert_eq!((a.label.as_str(), a.unit.as_deref(), a.reset_at), ("5h Window", Some("%"), Some(10)));
    assert_eq!((b.label.as_str(), b.reset_at), ("Weekly", None));
    let s: ProviderStatus<f64> = MinimaxProvider.status(&ctx(Some("k")), false, true, a, b, 0, 0);
    assert_eq!(s.state, ProviderState::Warn);
    assert_eq!(s.label, "MiniMax");
}

#[test]
fn codex_auth_and_requests() {
    let auth_json = obj(vec![(
        "tokens",
        obj(vec![("access_token", JsonValue::Str("tok".into())), ("account_id", JsonValue::Str("acc-1".into()))]),
    )]);
    let auth = CodexProvider.auth_from_json(&auth_json).ok().unwrap();
    assert_eq!((auth.access_token.as_str(), auth.account_id.as_str()), ("tok", "acc-1"));
    let no_acc = obj(vec![("tokens", obj(vec![("access_token", JsonValue::Str("t".into()))]))]);
    assert_eq!(CodexProvider.auth_from_json(&no_acc).ok().unwrap().account_id, "");
    match CodexProvider.auth_from_json(&obj(vec![("tokens", obj(vec![]))])) {
        Err(AppError::MissingKey(p, m)) => assert_eq!((p.as_str(), m.as_str()), ("codex", "no access_token in ~/.codex/auth.json")),
        _ => panic!(),
    }
    let (st, body) = upstream(CodexProvider.auth_unparsable("EOF"));
    assert_eq!((st, body.as_str()), (0, "Failed to parse ~/.codex/auth.json: EOF"));
    assert!(matches!(CodexProvider.home_missing(), AppError::MissingKey(_, _)));
    assert!(matches!(CodexProvider.auth_file_missing(), AppError::MissingKey(_, _)));

    let me = CodexProvider.me_request(&auth);
    assert_eq!(me.url, "https://chatgpt.com/backend-api/me");
    assert_eq!(me.bearer.as_deref(), Some("tok"));
    assert_eq!(
        headers(&me),
        vec![("Accept", "application/json"), ("User-Agent", "desktop-usage-helper/0.2.7"), ("Referer", "https://chatgpt.com/")]
    );
    let sub = CodexProvider.subscription_request(&auth);
    assert_eq!(sub.url, "https://chatgpt.com/backend-api/subscriptions?account_id=acc-1");

    assert!(CodexProvider.me_rejected(200).is_none());
    let (st, body) = upstream(CodexProvider.me_rejected(401).unwrap());
    assert_eq!(st, 401);
    assert!(body.starts_with("Token expired."));
    let (st, body) = upstream(CodexProvider.me_rejected(500).unwrap());
    assert_eq!((st, body.as_str()), (500, "GET /backend-api/me failed: HTTP 500"));
    let (st, body) = upstream(CodexProvider.subscription_rejected(404, "missing"));
    assert_eq!((st, body.as_str()), (404, "GET /backend-api/subscriptions failed (HTTP 404): missing"));

    let email = obj(vec![("email", JsonValue::Str("a@b.c".into()))]);
    assert_eq!(CodexProvider.account_label(&email).as_deref(), Some("a@b.c"));
    assert_eq!(CodexProvider.account_label(&obj(vec![])), None);
    assert_eq!(CodexProvider.subscription_metric(Some("plus"), 1.0, 2.0, 3).label, "plus subscription");
    assert_eq!(CodexProvider.subscription_metric(None, 1.0, 2.0, 3).label, "Subscription");
    let s: ProviderStatus<f64> = CodexProvider.status(&ctx(None), ProviderState::Good, None, Some("a@b.c".into()), 0, 0);
    assert_eq!(s.account_label.as_deref(), Some("a@b.c"));
    assert_eq!(s.kind, "cli_local");
}

#[test]
fn opencode_key_check() {
    assert!(matches!(OpencodeProvider.models_request(&ctx(None)), Err(AppError::MissingKey(_, _))));
    let r = OpencodeProvider.models_request(&ctx(Some("z"))).ok().unwrap();
    assert_eq!(r.url, "https://opencode.ai/zen/go/v1/models");
    assert_eq!(headers(&r), vec![("Accept", "application/json"), ("User-Agent", "desktop-usage-helper/0.1")]);
    let mut c = ctx(Some("z"));
    c.custom_endpoint = Some("https://gw.test/v1".into());
    assert_eq!(OpencodeProvider.models_request(&c).ok().unwrap().url, "https://gw.test/v1/models");
    let ok: ProviderStatus<f64> = OpencodeProvider.on_models_response(&c, 200, "", 1, 2).ok().unwrap();
    assert_eq!(ok.state, ProviderState::Unknown);
    assert_eq!(ok.error.as_deref(), Some("API key valid. Usage endpoint not available — open dashboard to view credits/balance."));
    match OpencodeProvider.on_models_response::<f64>(&c, 403, "error code: 1010", 1, 2) {
        Err(AppError::Upstream { status, body }) => {
            assert_eq!(status, 403);
            assert_eq!(body, "opencode Zen API key validation failed (HTTP 403). error code: 1010");
        },
        _ => panic!(),
    }
}

#[test]
fn cursor_note() {
    let s: ProviderStatus<f64> = CursorProvider.fetch(&ctx(None), 3, 4).ok().unwrap();
    assert_eq!(s.state, ProviderState::Unknown);
    assert_eq!(s.label, "Cursor");
    assert_eq!(s.error.as_deref(), Some("Cursor does not expose a public usage API. Check cursor.com/settings for usage info."));
    assert_eq!((s.fetched_at, s.latency_ms), (3, 4));
}

#[test]
fn anthropic_probes() {
    assert!(AnthropicProvider.require_key(&ctx(None)).is_err());
    let key = AnthropicProvider.require_key(&ctx(Some("ak"))).ok().unwrap();
    let r0 = AnthropicProvider.probe_request(&key, 0).unwrap();
    assert_eq!(r0.url, "https://api.anthropic.com/v1/organizations/usage");
    assert!(r0.bearer.is_none());
    assert_eq!(headers(&r0), vec![("x-api-key", "ak"), ("anthropic-version", "2023-06-01"), ("Accept", "application/json")]);
    assert_eq!(AnthropicProvider.probe_request(&key, 1).unwrap().url, "https://api.anthropic.com/v1/usage");
    assert!(AnthropicProvider.probe_request(&key, 2).is_none());
    let (st, body) = upstream(AnthropicProvider.refused(401, "bad key"));
    assert_eq!((st, body.as_str()), (401, "Anthropic API auth failed: bad key"));
    let b = obj(vec![("usage", num("3")), ("quota", num("10")), ("limit", JsonValue::Str("x".into()))]);
    let (u, l) = AnthropicProvider.usage_numbers(&b);
    assert_eq!(u.map(|n| n.text.as_str()), Some("3"));
    assert_eq!(l.map(|n| n.text.as_str()), Some("10"));
    let s: ProviderStatus<f64> = AnthropicProvider.no_usage_api(&ctx(Some("ak")), 0, 0);
    assert!(s.error.unwrap().starts_with("Anthropic does not expose a public usage API."));
}

#[test]
fn zai_probes() {
    let key = ZaiProvider.require_key(&ctx(Some("zk"))).ok().unwrap();
    let urls: Vec<String> = (0..5).filter_map(|i| ZaiProvider.probe_request(&key, i).map(|r| r.url)).collect();
    assert_eq!(
        urls,
        vec![
            "https://api.z.ai/api/v1/usage",
            "https://api.z.ai/v1/usage",
            "https://open.bigmodel.cn/api/v1/usage",
            "https://open.bigmodel.cn/api/paas/v1/usage"
        ]
    );
    let b = obj(vec![("used", num("1")), ("balance", num("50"))]);
    let (u, l) = ZaiProvider.usage_numbers(&b);
    assert_eq!((u.map(|n| n.text.as_str()), l.map(|n| n.text.as_str())), (Some("1"), Some("50")));
    assert_eq!(ZaiProvider.usage_metric(1.0, 50.0).unit.as_deref(), Some("CNY"));
    let s: ProviderStatus<f64> = ZaiProvider.no_usage_api(&ctx(None), 0, 0);
    assert_eq!(s.error.as_deref(), Some("Z.ai does not expose a documented usage API. Check z.ai/billing manually."));
}

#[test]
fn github_copilot_requests() {
    assert!(GithubCopilotProvider.user_request(&ctx(None)).is_none());
    let r = GithubCopilotProvider.user_request(&ctx(Some("gh"))).unwrap();
    assert_eq!(r.url, "https://api.github.com/user");
    assert_eq!(headers(&r), vec![("Accept", "application/vnd.github+json")]);
    let login = GithubCopilotProvider.login(&obj(vec![("login", JsonValue::Str("octo".into()))]));
    assert_eq!(login, "octo");
    assert_eq!(GithubCopilotProvider.login(&obj(vec![])), "");
    let b = GithubCopilotProvider.billing_request("gh", &login);
    assert_eq!(b.url, "https://api.github.com/users/octo/settings/billing/copilot");
    let s: ProviderStatus<f64> = GithubCopilotProvider.seats_status(&ctx(Some("gh")), 4.0, 0, 0);
    assert_eq!(s.state, ProviderState::Good);
    let m = s.primary.unwrap();
    assert_eq!((m.label.as_str(), m.used, m.limit, m.unit.as_deref()), ("Seats", 4.0, 4.0, Some("seats")));
    assert!(GithubCopilotProvider.seats(&obj(vec![("seats", num("4"))])).is_some());
}

#[test]
fn openai_usage_query() {
    assert!(OpenaiProvider.require_key(&ctx(None)).is_err());
    let r = OpenaiProvider.usage_request("sk", 1_719_792_000, 1_720_000_000);
    assert_eq!(r.url, "https://api.openai.com/v1/usage?start_time=1719792000&end_time=1720000000&limit=100");
    let (st, body) = upstream(OpenaiProvider.rejected(401, "no admin key"));
    assert_eq!((st, body.as_str()), (401, "OpenAI usage API: no admin key"));
    assert_eq!(OpenaiProvider.cost_reset_at(1_000), 1_000 + 30 * 24 * 60 * 60 * 1000);
    let s: ProviderStatus<f64> = OpenaiProvider.status(&ctx(Some("sk")), ProviderState::Good, 12.5, 100.0, 40.0, 0.0, 12.5, 9, 0, 0);
    assert_eq!(s.primary.as_ref().unwrap().label, "Monthly cost");
    assert_eq!(s.secondary.as_ref().unwrap().unit.as_deref(), Some("calls"));
    assert_eq!(s.cost_estimate, Some(12.5));
}

#[test]
fn anthropic_probe_steps() {
    let p = AnthropicProvider;
    let first = p.first_probe("sk");
    match &first {
        ProbeStep::Send { attempt, request } => {
            assert_eq!(*attempt, 0);
            assert_eq!(request.url, "https://api.anthropic.com/v1/organizations/usage");
            assert!(request.bearer.is_none());
            assert_eq!(headers(request)[0], ("x-api-key", "sk"));
        }
        other => panic!("unexpected {:?}", other),
    }
    match p.after_probe("sk", 0, 404) {
        ProbeStep::Send { attempt, request } => {
            assert_eq!(attempt, 1);
            assert_eq!(request.url, "https://api.anthropic.com/v1/usage");
        }
        other => panic!("unexpected {:?}", other),
    }
    assert!(matches!(p.after_probe("sk", 1, 404), ProbeStep::Exhausted));
    assert!(matches!(p.after_probe("sk", 0, 200), ProbeStep::ReadUsage));
    assert!(matches!(p.after_probe("sk", 1, 403), ProbeStep::Refused(403)));
    assert!(matches!(p.after_probe("sk", 0, 401), ProbeStep::Refused(401)));
}

#[test]
fn zai_probe_steps() {
    let p = ZaiProvider;
    match p.first_probe("zk") {
        ProbeStep::Send { attempt, request } => {
            assert_eq!(attempt, 0);
            assert_eq!(request.url, "https://api.z.ai/api/v1/usage");
            assert_eq!(request.bearer.as_deref(), Some("zk"));
        }
        other => panic!("unexpected {:?}", other),
    }
    match p.after_probe("zk", 2, 500) {
        ProbeStep::Send { attempt, request } => {
            assert_eq!(attempt, 3);
            assert_eq!(request.url, "https://open.bigmodel.cn/api/paas/v1/usage");
        }
        other => panic!("unexpected {:?}", other),
    }
    assert!(matches!(p.after_probe("zk", 3, 404), ProbeStep::Exhausted));
    // a refused key ends the probing with the informational card
    assert!(matches!(p.after_probe("zk", 0, 401), ProbeStep::Exhausted));
    assert!(matches!(p.after_probe("zk", 1, 200), ProbeStep::ReadUsage));
}

#[test]
fn copilot_steps() {
    let p = GithubCopilotProvider;
    assert!(matches!(p.first_step(&ctx(None)), CopilotStep::Notice));
    match p.first_step(&ctx(Some("ghp"))) {
        CopilotStep::Send(CopilotStage::User, request) => {
            assert_eq!(request.url, "https://api.github.com/user");
            assert_eq!(request.bearer.as_deref(), Some("ghp"));
        }
        other => panic!("unexpected {:?}", other),
    }
    assert!(matches!(p.after_answer(CopilotStage::User, 200), CopilotStep::Read(CopilotStage::User)));
    assert!(matches!(p.after_answer(CopilotStage::Billing, 204), CopilotStep::Read(CopilotStage::Billing)));
    assert!(matches!(p.after_answer(CopilotStage::Billing, 404), CopilotStep::Notice));
    let user = obj(vec![("login", JsonValue::Str("octo".to_string()))]);
    match p.after_user(&ctx(Some("ghp")), &user) {
        CopilotStep::Send(CopilotStage::Billing, request) => {
            assert_eq!(request.url, "https://api.github.com/users/octo/settings/billing/copilot");
            assert_eq!(request.bearer.as_deref(), Some("ghp"));
        }
        other => panic!("unexpected {:?}", other),
    }
    assert!(matches!(p.after_user(&ctx(None), &user), CopilotStep::Notice));
}

#[test]
fn worst_ignores_order_and_composes() {
    let a = [Good, Danger, Warn];
    let b = [Warn, Good];
    let mut p = a;
    p.reverse();
    assert_eq!(worst(&p), worst(&a));
    let both: Vec<ProviderState> = a.iter().chain(b.iter()).copied().collect();
    assert_eq!(worst(&both), worst(&[worst(&a), worst(&b)]));
    assert_eq!(worst(&[Good, Unknown, Warn]), worst(&[worst(&[Good]), worst(&[Unknown, Warn])]));
}
