use desktop_usage_helper::json::{JsonNumber, JsonValue};
use desktop_usage_helper::models::{AppConfig, ProviderUserConfig};

fn s(x: &str) -> JsonValue {
    JsonValue::Str(x.to_string())
}
fn n(x: u64) -> JsonValue {
    JsonValue::Number(JsonNumber { unsigned: Some(x), text: x.to_string() })
}
fn f(text: &str) -> JsonValue {
    JsonValue::Number(JsonNumber { unsigned: None, text: text.to_string() })
}
fn obj(members: Vec<(&str, JsonValue)>) -> JsonValue {
    JsonValue::Object(members.into_iter().map(|(k, v)| (k.to_string(), v)).collect())
}
fn provider<'a>(cfg: &'a AppConfig, id: &str) -> Option<&'a ProviderUserConfig> {
    cfg.providers.iter().find(|(k, _)| k == id).map(|(_, v)| v)
}

#[test]
fn defaults() {
    let c = AppConfig::default();
    assert_eq!(c.poll_interval_sec, 60);
    assert_eq!(c.warn_threshold_pct, 30);
    assert_eq!(c.danger_threshold_pct, 10);
    assert_eq!(c.toast_threshold_pct, 20);
    assert!(c.notify_enabled);
    assert!(!c.autostart_enabled);
    assert!(c.minimize_to_tray);
    assert_eq!(c.startup_delay_sec, 0);
    assert_eq!(c.language, "en-US");
    assert_eq!(c.theme, "dark");
    assert_eq!(c.hotkey, "CmdOrCtrl+Shift+D");
    assert!(c.dnd_start.is_none() && c.dnd_end.is_none());
    assert!(c.sync_gist_token.is_none() && c.sync_gist_id.is_none());
    assert!(c.providers.is_empty());
}

#[test]
fn patch_sets_known_fields() {
    let mut c = AppConfig::default();
    c.merge_patch(&obj(vec![
        ("pollIntervalSec", n(120)),
        ("warnThresholdPct", n(40)),
        ("notifyEnabled", JsonValue::Bool(false)),
        ("minimizeToTray", JsonValue::Bool(false)),
        ("language", s("zh-CN")),
        ("hotkey", s("")),
        ("dndStart", s("23:00")),
        ("syncGistToken", s("tok")),
    ]));
    assert_eq!(c.poll_interval_sec, 120);
    assert_eq!(c.warn_threshold_pct, 40);
    assert_eq!(c.danger_threshold_pct, 10);
    assert!(!c.notify_enabled);
    assert!(!c.minimize_to_tray);
    assert_eq!(c.language, "zh-CN");
    assert_eq!(c.hotkey, "");
    assert_eq!(c.dnd_start.as_deref(), Some("23:00"));
    assert_eq!(c.sync_gist_token.as_deref(), Some("tok"));
}

#[test]
fn patch_ignores_unknown_keys_and_wrong_types() {
    let mut c = AppConfig::default();
    c.merge_patch(&obj(vec![
        ("somethingNew", n(5)),
        ("pollIntervalSec", s("fast")),
        ("notifyEnabled", n(0)),
        ("theme", JsonValue::Bool(true)),
        ("startupDelaySec", f("1.5")),
    ]));
    let d = AppConfig::default();
    assert_eq!(c.poll_interval_sec, d.poll_interval_sec);
    assert_eq!(c.notify_enabled, d.notify_enabled);
    assert_eq!(c.theme, d.theme);
    assert_eq!(c.startup_delay_sec, d.startup_delay_sec);
    let mut c2 = AppConfig::default();
    c2.merge_patch(&JsonValue::Null);
    assert_eq!(c2.poll_interval_sec, 60);
}

#[test]
fn patch_thresholds_truncate_to_u32() {
    let mut c = AppConfig::default();
    c.merge_patch(&obj(vec![("dangerThresholdPct", n(4294967297))]));
    assert_eq!(c.danger_threshold_pct, 1);
}

#[test]
fn empty_strings_clear_optional_settings() {
    let mut c = AppConfig::default();
    c.merge_patch(&obj(vec![("dndStart", s("22:00")), ("syncGistId", s("abc"))]));
    c.merge_patch(&obj(vec![("dndStart", s("")), ("syncGistId", s(""))]));
    assert!(c.dnd_start.is_none());
    assert!(c.sync_gist_id.is_none());
}

#[test]
fn patch_merges_provider_settings() {
    let mut c = AppConfig::default();
    c.merge_patch(&obj(vec![(
        "providers",
        obj(vec![(
            "ollama",
            obj(vec![
                ("enabled", JsonValue::Bool(true)),
                ("customLabel", s("Work")),
                ("customEndpoint", s("https://example.test/api/me")),
                ("costPerUnit", f("0.25")),
                ("tags", JsonValue::Array(vec![s("a"), n(1), s("b")])),
                ("hidden", JsonValue::Bool(true)),
                (
                    "accounts",
                    JsonValue::Array(vec![
                        obj(vec![("label", s("A1")), ("apiKey", s("k1")), ("enabled", JsonValue::Bool(true))]),
                        n(3),
                    ]),
                ),
            ]),
        )]),
    )]));
    let p = provider(&c, "ollama").unwrap();
    assert_eq!(p.enabled, Some(true));
    assert_eq!(p.custom_label.as_deref(), Some("Work"));
    assert_eq!(p.custom_endpoint.as_deref(), Some("https://example.test/api/me"));
    assert_eq!(p.cost_per_unit.as_ref().map(|x| x.text.as_str()), Some("0.25"));
    assert_eq!(p.tags, vec!["a".to_string(), "b".to_string()]);
    assert!(p.hidden);
    assert_eq!(p.accounts.len(), 2);
    assert_eq!(p.accounts[0].label.as_deref(), Some("A1"));
    assert_eq!(p.accounts[0].api_key.as_deref(), Some("k1"));
    assert_eq!(p.accounts[0].enabled, Some(true));
    assert!(p.accounts[1].label.is_none() && p.accounts[1].api_key.is_none() && p.accounts[1].enabled.is_none());

    // A later patch keeps what it does not mention; an empty endpoint clears it.
    c.merge_patch(&obj(vec![("providers", obj(vec![("ollama", obj(vec![("customEndpoint", s(""))]))]))]));
    let p = provider(&c, "ollama").unwrap();
    assert!(p.custom_endpoint.is_none());
    assert_eq!(p.custom_label.as_deref(), Some("Work"));
    assert_eq!(p.enabled, Some(true));
}

#[test]
fn null_drops_a_provider() {
    let mut c = AppConfig::default();
    c.set_provider_enabled("minimax", true);
    c.set_provider_enabled("codex", true);
    c.merge_patch(&obj(vec![("providers", obj(vec![("minimax", JsonValue::Null)]))]));
    assert!(provider(&c, "minimax").is_none());
    assert!(provider(&c, "codex").is_some());
}

#[test]
fn per_provider_switches() {
    let mut c = AppConfig::default();
    c.set_provider_enabled("ollama", true);
    assert_eq!(provider(&c, "ollama").unwrap().enabled, Some(true));
    c.set_provider_api_key("ollama", "sk-1");
    assert_eq!(provider(&c, "ollama").unwrap().custom_api_key.as_deref(), Some("sk-1"));
    assert_eq!(provider(&c, "ollama").unwrap().enabled, Some(true));
    c.set_provider_api_key("ollama", "");
    assert!(provider(&c, "ollama").unwrap().custom_api_key.is_none());
    c.set_provider_endpoint("opencode", "https://proxy.test/v1");
    assert_eq!(provider(&c, "opencode").unwrap().custom_endpoint.as_deref(), Some("https://proxy.test/v1"));
    assert_eq!(provider(&c, "opencode").unwrap().enabled, None);
    c.set_provider_endpoint("opencode", "");
    assert!(provider(&c, "opencode").unwrap().custom_endpoint.is_none());
    c.set_provider_enabled("ollama", false);
    assert_eq!(provider(&c, "ollama").unwrap().enabled, Some(false));
    assert_eq!(c.providers.len(), 2);
}

#[test]
fn json_lookup_finds_first_member() {
    let v = obj(vec![("a", n(1)), ("b", s("x")), ("a", n(2))]);
    assert_eq!(v.get("a").and_then(|x| x.as_u64()), Some(1));
    assert_eq!(v.get("b").and_then(|x| x.as_str()), Some("x"));
    assert!(v.get("c").is_none());
    assert!(s("q").get("a").is_none());
    assert!(JsonValue::Null.is_null());
    assert_eq!(JsonValue::Bool(true).as_bool(), Some(true));
    assert!(f("2.5").as_u64().is_none());
}

#[test]
fn same_patch_twice_is_same_as_once() {
    let patch = || {
        obj(vec![
            ("pollIntervalSec", n(300)),
            ("dndEnd", s("")),
            ("syncGistId", s("g")),
            (
                "providers",
                obj(vec![
                    ("ollama", obj(vec![("enabled", JsonValue::Bool(true)), ("customLabel", s("Ollama"))])),
                    ("zai", JsonValue::Null),
                    ("minimax", obj(vec![("tags", JsonValue::Array(vec![s("work"), n(3)])), ("hidden", JsonValue::Bool(true))])),
                    ("minimax", obj(vec![("costPerUnit", f("0.5"))])),
                ]),
            ),
        ])
    };
    let mut once = AppConfig::default();
    once.set_provider_enabled("zai", true);
    once.set_provider_api_key("minimax", "k");
    once.merge_patch(&patch());
    let mut twice = AppConfig::default();
    twice.set_provider_enabled("zai", true);
    twice.set_provider_api_key("minimax", "k");
    twice.merge_patch(&patch());
    twice.merge_patch(&patch());
    assert_eq!(format!("{:?}", once.poll_interval_sec), format!("{:?}", twice.poll_interval_sec));
    assert_eq!(once.sync_gist_id, twice.sync_gist_id);
    assert_eq!(once.dnd_end, twice.dnd_end);
    assert!(provider(&twice, "zai").is_none());
    for id in ["ollama", "minimax"] {
        let a = provider(&once, id).unwrap();
        let b = provider(&twice, id).unwrap();
        assert_eq!(format!("{:?}", a), format!("{:?}", b));
    }
    let m = provider(&twice, "minimax").unwrap();
    assert_eq!(m.tags, vec!["work".to_string()]);
    assert!(m.hidden);
    assert_eq!(m.custom_api_key.as_deref(), Some("k"));
    assert_eq!(m.cost_per_unit.as_ref().map(|c| c.text.as_str()), Some("0.5"));
}
