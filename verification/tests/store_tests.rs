use linkstitcher::preview::{Date, Preview};
use linkstitcher::store::{Store, StoreError};

fn record(url: &str, days: i32, saved: bool, summary: Option<&str>) -> Preview {
    Preview {
        url: url.to_string(),
        added_date: Date { days },
        saved,
        embellished: false,
        bookmarked: false,
        source: None,
        title: None,
        published_date: None,
        tags: None,
        summary: summary.map(|s| s.to_string()),
    }
}

#[test]
fn upsert_inserts_when_absent() {
    let mut store = Store::new();
    let p = record("https://a", 1, false, None);
    store.insert_or_update_preview(&p);
    assert_eq!(store.get_all_previews(), vec![p]);
}

#[test]
fn upsert_twice_is_idempotent() {
    let mut store = Store::new();
    let p = record("https://a", 1, false, Some("s"));
    store.insert_or_update_preview(&p);
    let once = store.get_all_previews();
    store.insert_or_update_preview(&p);
    assert_eq!(store.get_all_previews(), once);
}

#[test]
fn upsert_updates_only_mutable_fields() {
    let mut store = Store::new();
    let original = record("https://a", 10, true, Some("old"));
    store.insert_or_update_preview(&original);

    // The same URL re-ingested with different identity fields and a new
    // summary: only the enrichment fields change.
    let mut newer = record("https://a", 99, false, Some("new"));
    newer.embellished = true;
    store.insert_or_update_preview(&newer);

    let stored = store.get_preview("https://a").unwrap();
    assert_eq!(stored.added_date, Date { days: 10 });
    assert!(stored.saved);
    assert_eq!(stored.summary, Some("new".to_string()));
    assert!(stored.embellished);
    assert_eq!(store.get_all_previews().len(), 1);
}

#[test]
fn insert_refuses_duplicate_url() {
    let mut store = Store::new();
    let p = record("https://a", 1, false, None);
    assert_eq!(store.insert_preview(&p), Ok(()));
    assert_eq!(store.insert_preview(&p), Err(StoreError::DuplicateUrl));
    assert_eq!(store.get_all_previews().len(), 1);
}

#[test]
fn update_of_unknown_url_changes_nothing() {
    let mut store = Store::new();
    let p = record("https://a", 1, false, None);
    store.update_preview(&p);
    assert!(store.get_all_previews().is_empty());
}

#[test]
fn lookups_find_by_url() {
    let mut store = Store::new();
    let p = record("https://a", 1, false, Some("s"));
    store.insert_preview(&p).unwrap();
    assert!(store.is_url_known("https://a"));
    assert!(!store.is_url_known("https://b"));
    assert_eq!(store.get_preview("https://a"), Some(p));
    assert_eq!(store.get_preview("https://b"), None);
}

#[test]
fn recent_saved_filters_by_window_and_flag() {
    let mut store = Store::new();
    let today = Date { days: 100 };
    store.insert_preview(&record("https://old", 97, true, None)).unwrap();
    store.insert_preview(&record("https://new", 99, true, None)).unwrap();
    store
        .insert_preview(&record("https://unsaved", 100, false, None))
        .unwrap();
    store
        .insert_preview(&record("https://boundary", 98, true, None))
        .unwrap();

    let recent = store.get_recent_saved_previews(today, 2);
    let urls: Vec<&str> = recent.iter().map(|p| p.url.as_str()).collect();
    // Strictly after two days before today: day 98 is out, 99 is in.
    assert_eq!(urls, vec!["https://new"]);
}
