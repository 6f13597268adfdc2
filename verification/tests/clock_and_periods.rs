use desktop_usage_helper::clock::{
    days_in, later_than, local_hour_minute, month_start, parse_rfc3339, parse_utc, seconds_between, timestamp_millis, utc_now,
};
use desktop_usage_helper::notify::{in_dnd_now, minute_of_day};
use desktop_usage_helper::provider::codex::CodexProvider;
use desktop_usage_helper::provider::ollama::OllamaProvider;
use desktop_usage_helper::provider::openai::OpenaiProvider;

const MAY_05: i64 = 1_778_000_116; // 2026-05-05T16:55:16Z
const MAY_20: i64 = 1_779_278_400; // 2026-05-20T12:00:00Z
const JUN_05: i64 = 1_780_678_516; // 2026-06-05T16:55:16Z

#[test]
fn chrono_parsing() {
    assert_eq!(parse_utc("2026-06-05T16:55:16Z"), Some((JUN_05, 0)));
    assert_eq!(parse_utc("2026-06-05T18:55:16+02:00"), Some((JUN_05, 0)));
    assert_eq!(parse_utc("2026-06-05T16:55:16.250Z"), Some((JUN_05, 250_000_000)));
    assert_eq!(parse_utc("not a date"), None);
    assert_eq!(parse_rfc3339("2026-06-05T16:55:16Z"), Some((JUN_05, 0)));
    assert_eq!(parse_rfc3339("2026-06-05T18:55:16+02:00"), Some((JUN_05, 0)));
    assert_eq!(parse_rfc3339("2026-06-05"), None);
}

#[test]
fn chrono_arithmetic() {
    assert_eq!(seconds_between((JUN_05, 0), (MAY_05, 0)), Some(2_678_400));
    assert_eq!(seconds_between((MAY_05, 0), (JUN_05, 0)), Some(-2_678_400));
    // a partial second is dropped toward zero
    assert_eq!(seconds_between((10, 0), (0, 500_000_000)), Some(9));
    assert_eq!(seconds_between((0, 500_000_000), (10, 0)), Some(-9));
    assert_eq!(month_start((MAY_20, 5)), Some(1_777_593_600));
    assert_eq!(month_start((-1_425_600, 0)), Some(-2_678_400));
    assert_eq!(month_start((1_709_247_600, 0)), Some(1_706_745_600));
    assert_eq!(month_start((951_868_800, 0)), Some(951_868_800));
    assert_eq!(month_start((-2_203_959_600, 0)), Some(-2_206_310_400));
    assert_eq!(month_start((-62_135_596_800, 0)), Some(-62_135_596_800));
    assert_eq!(month_start((4_133_977_200, 0)), Some(4_131_302_400));
    // a leap second is accepted only at second 59
    assert_eq!(month_start((1_483_228_799, 1_000_000_000)), Some(1_480_550_400));
    assert_eq!(month_start((1_483_228_798, 1_000_000_000)), None);
    assert_eq!(timestamp_millis((JUN_05, 250_999_999)), JUN_05 * 1000 + 250);
    assert_eq!(days_in(86_399), 0);
    assert_eq!(days_in(86_400 * 3 + 5), 3);
    assert_eq!(days_in(-86_401), -1);
    assert_eq!(days_in(i64::MIN), -(i64::MAX / 86_400));
    assert!(later_than((5, 1), (5, 0)));
    assert!(!later_than((5, 0), (5, 0)));
    assert!(later_than((6, 0), (5, 999_999_999)));
    let now = utc_now();
    assert!(now.0 > MAY_05 - 365 * 86_400 * 10);
    assert!(now.1 < 1_000_000_000);
}

#[test]
fn ollama_period_in_days() {
    let p = OllamaProvider;
    let m = p.period_metric_at(Some("2026-05-05T16:55:16Z"), Some("2026-06-05T16:55:16Z"), (MAY_20, 0)).unwrap();
    assert_eq!((m.label.as_str(), m.used, m.limit, m.unit.as_deref(), m.reset_at), ("Subscription", 14, 31, Some("days"), Some(JUN_05 * 1000)));
    // an ended period counts as fully used
    let ended = p.period_metric_at(Some("2026-05-05T16:55:16Z"), Some("2026-06-05T16:55:16Z"), (JUN_05, 0)).unwrap();
    assert_eq!((ended.used, ended.limit), (1, 1));
    // before the period starts nothing is used
    let early = p.period_metric_at(Some("2026-05-05T16:55:16Z"), Some("2026-06-05T16:55:16Z"), (MAY_05 - 86_400 * 2, 0)).unwrap();
    assert_eq!((early.used, early.limit), (0, 31));
    assert!(p.period_metric_at(None, Some("2026-06-05T16:55:16Z"), (MAY_20, 0)).is_none());
    assert!(p.period_metric_at(Some("garbage"), Some("2026-06-05T16:55:16Z"), (MAY_20, 0)).is_none());
    assert!(p.period_metric_now(Some("2026-05-05T16:55:16Z"), Some("2026-06-05T16:55:16Z")).is_some());
}

#[test]
fn codex_period_in_seconds() {
    let p = CodexProvider;
    let m = p
        .period_metric_at(Some("plus"), Some("2026-05-05T16:55:16Z"), Some("2026-06-05T16:55:16Z"), (MAY_20, 0))
        .unwrap();
    assert_eq!((m.label.as_str(), m.used, m.limit, m.unit.as_deref(), m.reset_at), ("plus subscription", 1_278_284, 2_678_400, Some("s"), Some(JUN_05 * 1000)));
    let after = p.period_metric_at(None, Some("2026-05-05T16:55:16Z"), Some("2026-06-05T16:55:16Z"), (JUN_05 + 100, 0)).unwrap();
    assert_eq!((after.label.as_str(), after.used, after.limit), ("Subscription", 2_678_400, 2_678_400));
    assert!(p.period_metric_at(None, Some("2026-05-05"), Some("2026-06-05T16:55:16Z"), (MAY_20, 0)).is_none());
}

#[test]
fn openai_month_window() {
    let p = OpenaiProvider;
    let r = p.usage_request_at("sk-admin", (MAY_20, 5)).unwrap();
    assert_eq!(r.url, "https://api.openai.com/v1/usage?start_time=1777593600&end_time=1779278400&limit=100");
    assert_eq!(r.bearer.as_deref(), Some("sk-admin"));
    let (req, reset_at) = p.usage_request_now("k");
    assert!(req.url.starts_with("https://api.openai.com/v1/usage?start_time="));
    assert_eq!(req.bearer.as_deref(), Some("k"));
    assert!(reset_at > JUN_05 * 1000);
}

#[test]
fn dnd_now_needs_both_ends() {
    assert!(!in_dnd_now(&None, &None).0);
    assert!(!in_dnd_now(&Some("22:00".to_string()), &None).0);
    assert!(!in_dnd_now(&Some("25:00".to_string()), &Some("07:00".to_string())).0);
    // an empty window never silences
    assert!(!in_dnd_now(&Some("08:00".to_string()), &Some("08:00".to_string())).0);
    // the whole day but its last minute: silenced exactly when the minute read is not 23:59
    let (silenced, minute) = in_dnd_now(&Some("00:00".to_string()), &Some("23:59".to_string()));
    assert!(minute < 1440);
    assert_eq!(silenced, minute < 1439);
    assert_eq!(minute_of_day(23, 59), 1439);
    assert_eq!(minute_of_day(7, 30), 450);
    assert_eq!(minute_of_day(0, 0), 0);
}

#[test]
fn openai_request_total() {
    let p = OpenaiProvider;
    assert_eq!(p.total_requests(&vec![Some(3), None, Some(4)]), Some(7));
    assert_eq!(p.total_requests(&vec![]), Some(0));
    assert_eq!(p.total_requests(&vec![Some(u64::MAX), Some(1)]), None);
    assert_eq!(p.total_requests(&vec![Some(u64::MAX), None]), Some(u64::MAX));
}

#[test]
fn chrono_seconds_stated_outside_leap_seconds() {
    // a leap second instant (nanoseconds of 10^9 and above) is still accepted at :59
    assert_eq!(seconds_between((59, 1_500_000_000), (0, 0)), Some(60));
    assert_eq!(local_hour_minute().0 < 24, true);
}

#[test]
fn periods_with_a_leap_second_bound() {
    let leap = "2016-12-31T23:59:60Z";
    assert_eq!(parse_utc(leap), Some((1_483_228_799, 1_000_000_000)));
    assert_eq!(parse_rfc3339(leap), Some((1_483_228_799, 1_000_000_000)));
    let jan_10: (i64, u32) = (1_484_006_400, 0);
    let m = OllamaProvider.period_metric_at(Some(leap), Some("2017-01-31T00:00:00Z"), jan_10).unwrap();
    assert_eq!((m.used, m.limit, m.reset_at), (9, 30, Some(1_485_820_800_000)));
    let c = CodexProvider.period_metric_at(None, Some(leap), Some("2017-01-31T00:00:00Z"), jan_10).unwrap();
    assert_eq!((c.used, c.limit), (777_600, 2_592_000));
}
