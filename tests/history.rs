use modbot::warnings::{
    parse_days, sanitize_reason, warnings_description, warnings_title, window_days,
    window_start, WarningEntry, WarningStore,
};

fn entry(at: u64) -> WarningEntry {
    WarningEntry { warned_at: at, moderator_id: 9, reason: format!("r{}", at) }
}

#[test]
fn warnings_since_filters_by_time_in_order() {
    let mut store = WarningStore::new();
    store.add(1, entry(100));
    store.add(1, entry(200));
    store.add(1, entry(300));
    let got: Vec<u64> = store.warnings_since(1, 150).iter().map(|e| e.warned_at).collect();
    assert_eq!(got, vec![200, 300]);
}

#[test]
fn warnings_since_filters_by_user_and_bound() {
    let mut store = WarningStore::new();
    store.add(1, entry(100));
    store.add(2, entry(150));
    store.add(1, entry(150));
    let got = store.warnings_since(1, 150);
    assert_eq!(got.len(), 1);
    assert_eq!(got[0].warned_at, 150);
    assert_eq!(got[0].reason, "r150");
    assert!(store.warnings_since(3, 0).is_empty());
    assert!(WarningStore::new().warnings_since(1, 0).is_empty());
}

#[test]
fn zero_days_falls_back_to_default() {
    assert_eq!(parse_days(Some("0")), None);
    assert_eq!(window_days(Some("0")), 30);
    assert_eq!(window_days(None), 30);
    assert_eq!(window_days(Some("abc")), 30);
    assert_eq!(window_days(Some("-3")), 30);
    assert_eq!(window_days(Some("  7 more")), 7);
    assert_eq!(parse_days(Some("+5")), Some(5));
    assert_eq!(parse_days(Some("   ")), None);
}

#[test]
fn window_start_saturates() {
    assert_eq!(window_start(1_000_000, 1), 1_000_000 - 86_400);
    assert_eq!(window_start(100, 1), 0);
    assert_eq!(window_start(u64::MAX, u64::MAX), 0);
    assert_eq!(window_start(u64::MAX, 30), u64::MAX - 30 * 86_400);
}

#[test]
fn reasons_cannot_mention() {
    assert_eq!(sanitize_reason("hi @everyone"), "hi @\u{200B}everyone");
    assert_eq!(sanitize_reason("@@"), "@\u{200B}@\u{200B}");
    assert_eq!(sanitize_reason("plain"), "plain");
    assert_eq!(sanitize_reason(""), "");
}

#[test]
fn empty_history() {
    assert_eq!(
        warnings_description(30, &Vec::new()),
        "Total warnings in last 30 day(s): **0**\n\nNo warnings in this period."
    );
    assert_eq!(warnings_title(42), "Warnings for User 42");
}

#[test]
fn history_lists_five_most_recent() {
    let entries: Vec<WarningEntry> = (1..=6).map(|i| entry(i * 10)).collect();
    let text = warnings_description(7, &entries);
    assert!(text.starts_with("Total warnings in last 7 day(s): **6**\n\n#2 • <t:20:F> • by <@9>\nReason: r20\n\n"));
    assert!(!text.contains("#1 "));
    assert!(text.ends_with("#6 • <t:60:F> • by <@9>\nReason: r60\n\n"));
    let one = vec![WarningEntry { warned_at: 5, moderator_id: 3, reason: "@x".to_string() }];
    assert_eq!(
        warnings_description(1, &one),
        "Total warnings in last 1 day(s): **1**\n\n#1 • <t:5:F> • by <@3>\nReason: @\u{200B}x\n\n"
    );
}
