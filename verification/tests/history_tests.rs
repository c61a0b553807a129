use gnomeqs::history::{
    append, clear_direction, history_entry_matches, history_path, load, prune_and_load,
    prune_entries, remove, write_or_remove_all, HistoryDirection, HistoryEntry, HistoryWrite,
};
use gnomeqs::settings::AppSettings;

const DAY: u64 = 86_400;

fn settings(days: i32, max: i32) -> AppSettings {
    AppSettings {
        autostart: false,
        keep_running_on_close: false,
        start_minimized: false,
        remember_window_size: false,
        visibility: 0,
        wifi_direct_enabled: false,
        port: 0,
        download_folder: String::new(),
        language: "en".to_string(),
        font_size: 1,
        history_retention_days: days,
        history_max_items: max,
        save_transfer_history: true,
        color_scheme: String::new(),
        tray_monochrome: false,
        window_width: 400,
        window_height: 650,
        window_maximized: false,
    }
}

fn entry(at: u64, dir: HistoryDirection, title: &str) -> HistoryEntry {
    HistoryEntry {
        created_at: at,
        direction: dir,
        title: title.to_string(),
        subtitle: format!("{title} sub"),
        open_target: None,
    }
}

fn titles(v: &[HistoryEntry]) -> Vec<String> {
    v.iter().map(|e| e.title.clone()).collect()
}

#[test]
fn prune_drops_old_entries_and_caps_count() {
    let now = 100 * DAY;
    let s = settings(7, 2);
    let entries = vec![
        entry(now, HistoryDirection::Send, "a"),
        entry(now - 8 * DAY, HistoryDirection::Receive, "old"),
        entry(now - 7 * DAY, HistoryDirection::Receive, "edge"),
        entry(now - DAY, HistoryDirection::Send, "c"),
    ];
    assert_eq!(titles(&prune_entries(entries, now, &s)), vec!["a", "edge"]);
}

#[test]
fn prune_keeps_future_entries() {
    let now = 10 * DAY;
    let s = settings(1, 10);
    let entries = vec![entry(now + 5 * DAY, HistoryDirection::Send, "future")];
    assert_eq!(titles(&prune_entries(entries, now, &s)), vec!["future"]);
}

#[test]
fn prune_uses_clamped_settings() {
    let now = 10 * DAY;
    let s = settings(0, 0);
    let entries = vec![
        entry(now - DAY, HistoryDirection::Send, "a"),
        entry(now - DAY - 1, HistoryDirection::Send, "b"),
        entry(now, HistoryDirection::Send, "c"),
    ];
    assert_eq!(titles(&prune_entries(entries, now, &s)), vec!["a"]);
}

#[test]
fn prune_twice_is_prune_once() {
    let now = 50 * DAY;
    let s = settings(3, 2);
    let entries = vec![
        entry(now - 4 * DAY, HistoryDirection::Send, "x"),
        entry(now, HistoryDirection::Send, "a"),
        entry(now, HistoryDirection::Receive, "b"),
        entry(now, HistoryDirection::Receive, "c"),
    ];
    let once = prune_and_load(entries, now, &s);
    let twice = prune_and_load(once.clone(), now, &s);
    assert_eq!(titles(&once), titles(&twice));
    assert_eq!(titles(&once), vec!["a", "b"]);
}

#[test]
fn load_filters_by_direction() {
    let now = 40 * DAY;
    let s = settings(30, 100);
    let entries = vec![
        entry(now, HistoryDirection::Send, "s1"),
        entry(now, HistoryDirection::Receive, "r1"),
        entry(now, HistoryDirection::Send, "s2"),
        entry(0, HistoryDirection::Send, "expired"),
    ];
    assert_eq!(titles(&load(entries.clone(), HistoryDirection::Send, now, &s)), vec!["s1", "s2"]);
    assert_eq!(titles(&load(entries, HistoryDirection::Receive, now, &s)), vec!["r1"]);
}

#[test]
fn append_stamps_and_puts_first() {
    let now = 30 * DAY;
    let s = settings(30, 2);
    let stored = vec![
        entry(now - DAY, HistoryDirection::Receive, "older"),
        entry(now - 2 * DAY, HistoryDirection::Receive, "oldest"),
    ];
    let (list, stamped) = append(stored, entry(0, HistoryDirection::Receive, "new"), now, &s);
    assert_eq!(stamped.created_at, now);
    assert_eq!(stamped.title, "new");
    assert_eq!(titles(&list), vec!["new", "older"]);
    assert_eq!(list[0].created_at, now);
    let loaded = load(list, HistoryDirection::Receive, now, &s);
    assert_eq!(loaded[0].title, "new");
}

#[test]
fn remove_takes_only_the_first_match() {
    let e = entry(5, HistoryDirection::Send, "dup");
    let entries = vec![
        entry(1, HistoryDirection::Send, "a"),
        e.clone(),
        e.clone(),
        entry(2, HistoryDirection::Send, "b"),
    ];
    let r = remove(entries, &e);
    assert_eq!(titles(&r), vec!["a", "dup", "b"]);
}

#[test]
fn remove_without_match_keeps_everything() {
    let entries = vec![entry(1, HistoryDirection::Send, "a")];
    let mut other = entry(1, HistoryDirection::Send, "a");
    other.open_target = Some("/tmp/a".to_string());
    let r = remove(entries, &other);
    assert_eq!(titles(&r), vec!["a"]);
}

#[test]
fn remove_undoes_append() {
    let now = 9 * DAY;
    let s = settings(30, 10);
    let (list, stamped) = append(
        vec![entry(now, HistoryDirection::Send, "kept")],
        entry(0, HistoryDirection::Send, "added"),
        now,
        &s,
    );
    let r = remove(list, &stamped);
    assert_eq!(titles(&r), vec!["kept"]);
}

#[test]
fn entry_matching_compares_every_field() {
    let a = entry(1, HistoryDirection::Send, "a");
    assert!(history_entry_matches(&a, &a.clone()));
    let mut b = a.clone();
    b.created_at = 2;
    assert!(!history_entry_matches(&a, &b));
    let mut b = a.clone();
    b.direction = HistoryDirection::Receive;
    assert!(!history_entry_matches(&a, &b));
    let mut b = a.clone();
    b.subtitle = "other".to_string();
    assert!(!history_entry_matches(&a, &b));
    let mut b = a.clone();
    b.open_target = Some("/x".to_string());
    assert!(!history_entry_matches(&a, &b));
    let mut c = b.clone();
    c.open_target = Some("/y".to_string());
    assert!(!history_entry_matches(&b, &c));
}

#[test]
fn clear_direction_keeps_the_other_direction() {
    let now = 3 * DAY;
    let s = settings(30, 10);
    let entries = vec![
        entry(now, HistoryDirection::Send, "s"),
        entry(now, HistoryDirection::Receive, "r"),
        entry(now, HistoryDirection::Send, "t"),
    ];
    let r = clear_direction(entries, HistoryDirection::Send);
    assert_eq!(titles(&r), vec!["r"]);
    assert!(load(r, HistoryDirection::Send, now, &s).is_empty());
}

#[test]
fn empty_history_removes_the_file() {
    assert_eq!(write_or_remove_all(&Vec::new()), HistoryWrite::RemoveFile);
    assert_eq!(
        write_or_remove_all(&vec![entry(0, HistoryDirection::Send, "a")]),
        HistoryWrite::WriteAll
    );
}

#[test]
fn history_file_location() {
    assert_eq!(
        history_path(Some("/state".to_string()), Some("/home/u".to_string()), "/tmp"),
        "/state/gnome-quick-share/transfer-history.json"
    );
    assert_eq!(
        history_path(None, Some("/home/u/".to_string()), "/tmp"),
        "/home/u/.local/state/gnome-quick-share/transfer-history.json"
    );
    assert_eq!(history_path(None, None, "/tmp"), "/tmp/gnome-quick-share/transfer-history.json");
    assert_eq!(
        history_path(Some(String::new()), None, "/tmp"),
        "gnome-quick-share/transfer-history.json"
    );
}
