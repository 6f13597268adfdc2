use desktop_usage_helper::models::ProviderState::{Danger, Good, Unknown, Warn};
use desktop_usage_helper::models::{ProviderMeta, ProviderState};
use desktop_usage_helper::notify::{
    fallback_body, is_in_dnd_window, parse_hhmm, toast_label, toast_title, NotifierState, Reading,
};
use desktop_usage_helper::poll::{poll_interval_secs, refresh_now_guard, INITIAL_DELAY_MS, MIN_POLL_INTERVAL_SEC};
use desktop_usage_helper::tray::{
    aggregate_state, click_toggles, dot_color, dot_geometry, dot_zone, empty_tooltip, hide_on_close,
    menu_action, state_flag, toggle_action, tooltip, AggregateState, DotZone, MenuAction, WindowAction,
};
use desktop_usage_helper::{history_hours, options_for_args, ping, RunOptions};

fn reading(id: &str, below: bool) -> Reading {
    Reading { id: id.to_string(), below }
}

fn meta(id: &str, label: &str) -> ProviderMeta {
    ProviderMeta {
        id: id.to_string(),
        label: label.to_string(),
        kind: "llm_api".to_string(),
        enabled: true,
        has_key: false,
        env_var: None,
        env_present: false,
        docs_url: None,
        description: String::new(),
    }
}

#[test]
fn toast_fires_once_while_below() {
    let mut n = NotifierState::new();
    let r = vec![reading("ollama", true), reading("minimax", false)];
    assert_eq!(n.evaluate(&r, true, false), vec!["ollama".to_string()]);
    assert!(n.contains("ollama"));
    assert!(!n.contains("minimax"));
    // The next poll in the same state fires nothing.
    assert!(n.evaluate(&r, true, false).is_empty());
}

#[test]
fn toast_fires_again_after_recovery() {
    let mut n = NotifierState::new();
    assert_eq!(n.evaluate(&vec![reading("zai", true)], true, false).len(), 1);
    assert!(n.evaluate(&vec![reading("zai", false)], true, false).is_empty());
    assert!(!n.contains("zai"));
    assert_eq!(n.evaluate(&vec![reading("zai", true)], true, false), vec!["zai".to_string()]);
}

#[test]
fn toast_silenced_when_disabled_or_in_dnd() {
    let mut n = NotifierState::new();
    assert!(n.evaluate(&vec![reading("a", true)], false, false).is_empty());
    assert!(!n.contains("a"));
    assert!(n.evaluate(&vec![reading("a", true)], true, true).is_empty());
    assert!(!n.contains("a"));
    n.insert("b");
    assert!(n.evaluate(&vec![reading("b", false)], true, true).is_empty());
    assert!(n.contains("b"));
}

#[test]
fn toast_several_in_snapshot_order() {
    let mut n = NotifierState::new();
    let r = vec![reading("b", true), reading("a", true), reading("b", true)];
    assert_eq!(n.evaluate(&r, true, false), vec!["b".to_string(), "a".to_string()]);
}

#[test]
fn notifier_insert_remove() {
    let mut n = NotifierState::new();
    n.insert("x");
    n.insert("x");
    assert!(n.contains("x"));
    n.remove("x");
    assert!(!n.contains("x"));
    n.remove("never");
    assert!(!n.contains("never"));
}

#[test]
fn toast_texts() {
    assert_eq!(toast_title("Ollama Cloud", 20), "⚠️ Ollama Cloud below 20%");
    assert_eq!(toast_title("x", 0), "⚠️ x below 0%");
    let metas = vec![meta("ollama", "Ollama Cloud"), meta("zai", "Z.ai")];
    assert_eq!(toast_label(&metas, "zai"), "Z.ai");
    assert_eq!(toast_label(&metas, "other"), "other");
    assert_eq!(fallback_body(&Some("HTTP 401".to_string())), "HTTP 401");
    assert_eq!(fallback_body(&None), "check provider");
}

#[test]
fn hhmm_parsing() {
    assert_eq!(parse_hhmm("22:00"), Some((22, 0)));
    assert_eq!(parse_hhmm(" 07 : 30 "), Some((7, 30)));
    assert_eq!(parse_hhmm("0:5"), Some((0, 5)));
    assert_eq!(parse_hhmm("24:00"), None);
    assert_eq!(parse_hhmm("12:60"), None);
    assert_eq!(parse_hhmm("1200"), None);
    assert_eq!(parse_hhmm("1:2:3"), None);
    assert_eq!(parse_hhmm("ab:cd"), None);
    assert_eq!(parse_hhmm(":30"), None);
}

#[test]
fn dnd_window_same_day_and_overnight() {
    let s = |x: &str| Some(x.to_string());
    // 09:00 - 17:00
    assert!(is_in_dnd_window(&s("09:00"), &s("17:00"), 9 * 60));
    assert!(is_in_dnd_window(&s("09:00"), &s("17:00"), 16 * 60 + 59));
    assert!(!is_in_dnd_window(&s("09:00"), &s("17:00"), 17 * 60));
    assert!(!is_in_dnd_window(&s("09:00"), &s("17:00"), 8 * 60));
    // 22:00 - 07:00 runs overnight
    assert!(is_in_dnd_window(&s("22:00"), &s("07:00"), 23 * 60));
    assert!(is_in_dnd_window(&s("22:00"), &s("07:00"), 3 * 60));
    assert!(!is_in_dnd_window(&s("22:00"), &s("07:00"), 12 * 60));
    // unset or invalid ends: never silenced
    assert!(!is_in_dnd_window(&None, &s("07:00"), 3 * 60));
    assert!(!is_in_dnd_window(&s("22:00"), &None, 23 * 60));
    assert!(!is_in_dnd_window(&s("25:00"), &s("07:00"), 3 * 60));
    // equal ends: an empty window
    assert!(!is_in_dnd_window(&s("08:00"), &s("08:00"), 8 * 60));
}

#[test]
fn aggregate_and_dot_color() {
    assert_eq!(aggregate_state(&[]), AggregateState::Unknown);
    assert_eq!(aggregate_state(&[Good, Good]), AggregateState::Good);
    assert_eq!(aggregate_state(&[Good, Warn]), AggregateState::Warn);
    assert_eq!(aggregate_state(&[Warn, Danger]), AggregateState::Danger);
    assert_eq!(aggregate_state(&[Danger, Unknown]), AggregateState::Unknown);
    assert_eq!(AggregateState::from(Warn), AggregateState::Warn);
    assert_eq!(dot_color(AggregateState::Good), [52, 211, 153, 255]);
    assert_eq!(dot_color(AggregateState::Warn), [250, 204, 21, 255]);
    assert_eq!(dot_color(AggregateState::Danger), [239, 68, 68, 255]);
    assert_eq!(dot_color(AggregateState::Unknown), [148, 163, 184, 255]);
}

#[test]
fn dot_geometry_and_zones() {
    let g = dot_geometry(32, 32);
    assert_eq!((g.radius, g.cx, g.cy), (6, 24, 8));
    let small = dot_geometry(16, 16);
    assert_eq!((small.radius, small.cx, small.cy), (5, 9, 7));
    let big = dot_geometry(256, 128);
    assert_eq!((big.radius, big.cx, big.cy), (10, 244, 12));
    assert_eq!(dot_zone(g, 24, 8), DotZone::Inside);
    assert_eq!(dot_zone(g, 30, 8), DotZone::Inside);
    assert_eq!(dot_zone(g, 31, 8), DotZone::Ring(49));
    assert_eq!(dot_zone(g, 0, 0), DotZone::Outside);
}

#[test]
fn menu_and_window() {
    assert_eq!(menu_action("tray_show"), MenuAction::ShowWindow);
    assert_eq!(menu_action("tray_refresh"), MenuAction::RefreshAndShow);
    assert_eq!(menu_action("tray_settings"), MenuAction::SettingsAndShow);
    assert_eq!(menu_action("tray_quit"), MenuAction::Quit);
    assert_eq!(menu_action("other"), MenuAction::Ignore);
    assert_eq!(toggle_action(true), WindowAction::Hide);
    assert_eq!(toggle_action(false), WindowAction::ShowAndFocus);
    assert!(click_toggles(true, true));
    assert!(!click_toggles(true, false));
    assert!(!click_toggles(false, true));
    assert!(hide_on_close(Some(true)));
    assert!(!hide_on_close(Some(false)));
    assert!(hide_on_close(None));
}

#[test]
fn tooltip_texts() {
    assert_eq!(empty_tooltip(AggregateState::Unknown), "Desktop Usage Helper — no data");
    assert_eq!(empty_tooltip(AggregateState::Good), "Desktop Usage Helper");
    assert_eq!(state_flag(ProviderState::Danger), " ⚠");
    assert_eq!(state_flag(ProviderState::Warn), " !");
    assert_eq!(state_flag(ProviderState::Good), "");
    let rows: Vec<String> = vec!["A 10%".into(), "B 20%".into(), "C 30%".into(), "D 40%".into()];
    assert_eq!(tooltip(&rows, 4), "A 10% · B 20% · C 30%\n— click to open · 4 providers");
    assert_eq!(tooltip(&vec!["A".to_string()], 1), "A\n— click to open · 1 providers");
}

#[test]
fn poll_decisions() {
    assert_eq!(MIN_POLL_INTERVAL_SEC, 15);
    assert_eq!(INITIAL_DELAY_MS, 50);
    assert_eq!(poll_interval_secs(0), 15);
    assert_eq!(poll_interval_secs(14), 15);
    assert_eq!(poll_interval_secs(300), 300);
    assert_eq!(refresh_now_guard(0), Err("no providers registered".to_string()));
    assert_eq!(refresh_now_guard(3), Ok(()));
}

#[test]
fn app_entry_decisions() {
    assert!(options_for_args(&vec!["app".to_string(), "--service".to_string()]).headless);
    assert!(!options_for_args(&vec!["app".to_string()]).headless);
    assert!(!RunOptions::default().headless);
    assert_eq!(ping(), "pong");
    assert_eq!(history_hours(None), 24);
    assert_eq!(history_hours(Some(168)), 168);
}
