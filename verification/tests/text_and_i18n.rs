use desktop_usage_helper::errors::AppError;
use desktop_usage_helper::i18n::Language;
use desktop_usage_helper::text::{i64_to_decimal, parse_u32, take_chars, trim, u64_to_decimal};
use desktop_usage_helper::{history_hours, options_for_args, ping};

#[test]
fn trim_removes_unicode_whitespace_at_both_ends() {
    assert_eq!(trim("  09 \t"), "09");
    assert_eq!(trim("\u{3000}23\u{a0}"), "23");
    assert_eq!(trim("   "), "");
    assert_eq!(trim("a b"), "a b");
}

#[test]
fn parse_u32_follows_from_str() {
    assert_eq!(parse_u32("0"), Some(0));
    assert_eq!(parse_u32("+7"), Some(7));
    assert_eq!(parse_u32("0023"), Some(23));
    assert_eq!(parse_u32("4294967295"), Some(u32::MAX));
    assert_eq!(parse_u32("4294967296"), None);
    assert_eq!(parse_u32(""), None);
    assert_eq!(parse_u32("+"), None);
    assert_eq!(parse_u32("-1"), None);
    assert_eq!(parse_u32("1a"), None);
    assert_eq!(parse_u32(" 1"), None);
    for s in ["12", "+5", "99999999999", "x", "00"] {
        assert_eq!(parse_u32(s), s.parse::<u32>().ok(), "input {s:?}");
    }
}

#[test]
fn decimal_text_matches_to_string() {
    for n in [0u64, 7, 10, 401, u64::MAX] {
        assert_eq!(u64_to_decimal(n), n.to_string());
    }
    for n in [0i64, -1, 42, i64::MIN, i64::MAX] {
        assert_eq!(i64_to_decimal(n), n.to_string());
    }
}

#[test]
fn take_chars_counts_characters() {
    assert_eq!(take_chars("héllo", 2), "hé");
    assert_eq!(take_chars("ab", 400), "ab");
    assert_eq!(take_chars("", 3), "");
}

#[test]
fn language_from_config_value() {
    assert_eq!(Language::from_str("zh-CN"), Language::ZhCN);
    assert_eq!(Language::from_str("en-US"), Language::EnUS);
    assert_eq!(Language::from_str("fr-FR"), Language::EnUS);
    assert_eq!(Language::from_str(""), Language::EnUS);
}

#[test]
fn language_tag_roundtrip() {
    for l in [Language::EnUS, Language::ZhCN] {
        assert_eq!(Language::from_str(l.as_str()), l);
    }
    assert_eq!(Language::ZhCN.as_str(), "zh-CN");
    assert_eq!(Language::EnUS.as_str(), "en-US");
}

#[test]
fn translations_for_tray_and_notifications() {
    assert_eq!(Language::EnUS.t("tray.show"), "Show dashboard");
    assert_eq!(Language::EnUS.t("tray.refresh"), "Refresh now");
    assert_eq!(Language::EnUS.t("tray.settings"), "Open settings");
    assert_eq!(Language::EnUS.t("tray.quit"), "Quit");
    assert_eq!(Language::EnUS.t("notify.below"), "below");
    assert_eq!(Language::EnUS.t("notify.check"), "check provider");
    assert_eq!(Language::ZhCN.t("tray.show"), "显示面板");
    assert_eq!(Language::ZhCN.t("tray.quit"), "退出");
    assert_eq!(Language::ZhCN.t("notify.check"), "请检查供应商");
    assert_eq!(Language::EnUS.t("unknown.key"), "");
    assert_eq!(Language::ZhCN.t(""), "");
}

#[test]
fn error_messages() {
    assert_eq!(AppError::ProviderNotFound("x".into()).message(), "provider 'x' not found");
    assert_eq!(
        AppError::MissingKey("ollama".into(), "OLLAMA_API_KEY".into()).message(),
        "missing API key for provider 'ollama' — set env var OLLAMA_API_KEY or paste in Settings"
    );
    assert_eq!(AppError::Network("timeout".into()).message(), "network error: timeout");
    assert_eq!(
        AppError::Upstream { status: 403, body: "denied".into() }.message(),
        "upstream API error (403): denied"
    );
    assert_eq!(AppError::Parse("bad".into()).message(), "invalid response: bad");
    assert_eq!(AppError::Io("disk".into()).message(), "io error: disk");
    assert_eq!(AppError::Config("nope".into()).message(), "config error: nope");
}

#[test]
fn ping_and_history_default() {
    assert_eq!(ping(), "pong");
    assert_eq!(history_hours(None), 24);
    assert_eq!(history_hours(Some(3)), 3);
}

#[test]
fn service_flag_runs_headless() {
    let args: Vec<String> = vec!["app.exe".into(), "--service".into()];
    assert!(options_for_args(&args).headless);
    let args: Vec<String> = vec!["app.exe".into()];
    assert!(!options_for_args(&args).headless);
    assert!(!desktop_usage_helper::RunOptions::default().headless);
}
