use desktop_usage_helper::errors::AppError;
use desktop_usage_helper::history::{state_label, HistoryPoint, HistoryStore, RETENTION_MS};
use desktop_usage_helper::models::{AppConfig, ProviderState};
use desktop_usage_helper::sync::{
    config_parse_error, export_files, exported_gist_id, gist_config, gist_file, gist_rejected, gist_url,
    record_gist_id, sync_gist_id, sync_token,
};

const HOUR: i64 = 3_600_000;

fn point(ts: i64, used: u64, limit: u64, state: &str) -> HistoryPoint<u64> {
    HistoryPoint { timestamp: ts, used, limit, state: state.to_string() }
}

fn stamps(v: &[HistoryPoint<u64>]) -> Vec<i64> {
    v.iter().map(|p| p.timestamp).collect()
}

#[test]
fn state_labels_are_lowercase() {
    assert_eq!(state_label(ProviderState::Good), "ok");
    assert_eq!(state_label(ProviderState::Warn), "warn");
    assert_eq!(state_label(ProviderState::Danger), "danger");
    assert_eq!(state_label(ProviderState::Unknown), "unknown");
}

#[test]
fn history_insert_then_query() {
    let now: i64 = 1_700_000_000_000;
    let mut h: HistoryStore<u64> = HistoryStore::new();
    h.insert(now - 2 * HOUR, vec![("ollama".to_string(), point(now - 2 * HOUR, 10, 100, "ok"))]);
    h.insert(now, vec![("ollama".to_string(), point(now, 20, 100, "ok")), ("zai".to_string(), point(now, 5, 50, "warn"))]);
    let q = h.query_range("ollama", now, 1);
    assert_eq!(stamps(&q), vec![now]);
    assert_eq!(q[0].used, 20);
    let q = h.query_range("ollama", now, 24);
    assert_eq!(stamps(&q), vec![now - 2 * HOUR, now]);
    let z = h.query_range("zai", now, 24);
    assert_eq!(z.len(), 1);
    assert_eq!(z[0].state, "warn");
    assert!(h.query_range("minimax", now, 24).is_empty());
}

#[test]
fn history_prunes_after_seven_days() {
    let now: i64 = 1_700_000_000_000;
    let mut h: HistoryStore<u64> = HistoryStore::new();
    h.insert(now - RETENTION_MS - 1, vec![("a".to_string(), point(now - RETENTION_MS - 1, 1, 2, "ok"))]);
    h.insert(now - RETENTION_MS, vec![("a".to_string(), point(now - RETENTION_MS, 2, 2, "ok"))]);
    h.insert(now, vec![("a".to_string(), point(now, 3, 2, "ok"))]);
    let q = h.query_range("a", now, 24 * 8);
    assert_eq!(stamps(&q), vec![now - RETENTION_MS, now]);
    assert_eq!(RETENTION_MS, 7 * 24 * HOUR);
}

#[test]
fn history_export_and_import() {
    let now: i64 = 1_700_000_000_000;
    let mut h: HistoryStore<u64> = HistoryStore::new();
    h.insert(now, vec![("a".to_string(), point(now, 1, 2, "ok")), ("b".to_string(), point(now, 3, 4, "danger"))]);
    let mut exported = h.export_all();
    exported.sort_by(|x, y| x.0.cmp(&y.0));
    assert_eq!(exported.len(), 2);
    assert_eq!(exported[0].0, "a");
    assert_eq!(stamps(&exported[1].1), vec![now]);

    let mut other: HistoryStore<u64> = HistoryStore::new();
    other.insert(now, vec![("b".to_string(), point(now - HOUR, 9, 9, "ok")), ("c".to_string(), point(now, 7, 7, "ok"))]);
    other.import_all(vec![("b".to_string(), vec![point(now, 3, 4, "danger")])]);
    let b = other.query_range("b", now, 24);
    assert_eq!(stamps(&b), vec![now]);
    assert_eq!(b[0].state, "danger");
    // series not in the import stay
    assert_eq!(other.query_range("c", now, 24).len(), 1);
}

#[test]
fn gist_urls_and_files() {
    assert_eq!(gist_url(None), "https://api.github.com/gists");
    assert_eq!(gist_url(Some("abc")), "https://api.github.com/gists/abc");
    let files = export_files("{}".to_string(), "[]".to_string());
    assert_eq!(files, vec![("config.json".to_string(), "{}".to_string()), ("history.json".to_string(), "[]".to_string())]);
    assert_eq!(gist_file(&files, "history.json").map(|s| s.as_str()), Some("[]"));
    assert_eq!(gist_file(&files, "other.json"), None);
    assert_eq!(gist_config(&files).ok().map(|s| s.as_str()), Some("{}"));
    let only_history = vec![("history.json".to_string(), "[]".to_string())];
    match gist_config(&only_history) {
        Err(AppError::Parse(m)) => assert_eq!(m, "gist missing config.json"),
        other => panic!("unexpected {:?}", other),
    }
}

#[test]
fn sync_settings_and_errors() {
    let mut cfg = AppConfig::default();
    match sync_token(&cfg) {
        Err(AppError::Config(m)) => assert_eq!(m, "no GitHub token set"),
        other => panic!("unexpected {:?}", other),
    }
    match sync_gist_id(&cfg) {
        Err(AppError::Config(m)) => assert_eq!(m, "no Gist ID set"),
        other => panic!("unexpected {:?}", other),
    }
    cfg.sync_gist_token = Some("ghp".to_string());
    assert_eq!(sync_token(&cfg).ok(), Some("ghp".to_string()));
    record_gist_id(&mut cfg, "g1");
    assert_eq!(cfg.sync_gist_id.as_deref(), Some("g1"));
    assert_eq!(sync_gist_id(&cfg).ok(), Some("g1".to_string()));
    assert_eq!(exported_gist_id(Some("old"), Some("new".to_string())), Some("old".to_string()));
    assert_eq!(exported_gist_id(None, Some("new".to_string())), Some("new".to_string()));
    assert_eq!(exported_gist_id(None, None), None);
    match gist_rejected(404, "Not Found".to_string()) {
        AppError::Upstream { status, body } => {
            assert_eq!(status, 404);
            assert_eq!(body, "Not Found");
        }
        other => panic!("unexpected {:?}", other),
    }
    match config_parse_error("expected value") {
        AppError::Parse(m) => assert_eq!(m, "config parse: expected value"),
        other => panic!("unexpected {:?}", other),
    }
}
