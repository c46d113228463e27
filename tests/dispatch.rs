use spotlit::alert::{
    alert_message, join_names, plan_alert, resolve, settle_alert, settle_alert_now, settle_batch, type_label,
    AlertAction, Resolution, ALERT_COLOR,
};
use spotlit::model::{add_artist_release, add_watch, list_unalerted_watches, list_watches, record_alert, update_watch, Ledger, StoreError};
use spotlit::scan::{scan_artist, ArtistRef, ReleaseInfo, ScanOutcome};
use spotlit::schema::PendingWatchAlert;

fn release(id: &str, name: &str) -> ReleaseInfo {
    ReleaseInfo {
        id: Some(id.to_string()),
        name: name.to_string(),
        album_type: Some("album".to_string()),
        artists: vec![
            ArtistRef { id: Some("A".to_string()), name: "Alpha".to_string() },
            ArtistRef { id: Some("B".to_string()), name: "Beta".to_string() },
        ],
        images: vec!["https://img/x".to_string()],
        available_markets: vec![],
        href: Some("https://open/x".to_string()),
        release_date: Some("2023-03-03".to_string()),
        release_date_precision: Some("day".to_string()),
    }
}

fn pending(has_initialized: bool) -> PendingWatchAlert {
    PendingWatchAlert {
        id_watch: 1,
        has_initialized,
        id_server: 2,
        id_alert_channel: 3,
        market: "US".to_string(),
        id_release: "r".to_string(),
        artist_names: vec!["Alpha".to_string(), "Beta".to_string(), "Gamma".to_string()],
        album_type: "compilation".to_string(),
        href: "https://open/r".to_string(),
        image_url: "https://img/r".to_string(),
        name: "Hits".to_string(),
        release_date: "2020-02-02".to_string(),
    }
}

#[test]
fn type_labels() {
    assert_eq!(type_label("album"), "Album");
    assert_eq!(type_label("single"), "Single/EP");
    assert_eq!(type_label("compilation"), "Compilation");
    assert_eq!(type_label("appears_on"), "appears_on");
    assert_eq!(type_label(""), "");
}

#[test]
fn names_are_joined_with_separator() {
    assert_eq!(join_names(&vec![], ", "), "");
    assert_eq!(join_names(&vec!["One".to_string()], ", "), "One");
    assert_eq!(join_names(&vec!["One".to_string(), "Two".to_string(), "Three".to_string()], ", "), "One, Two, Three");
}

#[test]
fn message_contents() {
    let m = alert_message(&pending(true));
    assert_eq!(m.author_name, "Spotlit");
    assert_eq!(m.author_icon_url, "https://i.imgur.com/sNciPWx.png");
    assert_eq!(m.title, "New Spotify release: Hits");
    assert_eq!(m.image_url, "https://img/r");
    assert_eq!(m.url, "https://open/r");
    assert_eq!(m.color, ALERT_COLOR);
    assert_eq!(ALERT_COLOR, (30 << 16) | (215 << 8) | 96);
    assert_eq!(m.fields.len(), 3);
    assert_eq!(m.fields[0].name, "Artists");
    assert_eq!(m.fields[0].value, "Alpha, Beta, Gamma");
    assert!(!m.fields[0].inline);
    assert_eq!(m.fields[1].name, "Type");
    assert_eq!(m.fields[1].value, "Compilation");
    assert!(m.fields[1].inline);
    assert_eq!(m.fields[2].name, "Released");
    assert_eq!(m.fields[2].value, "2020-02-02");
    assert!(m.fields[2].inline);
}

#[test]
fn resolutions() {
    assert_eq!(resolve(false, false), Resolution::Seeded);
    assert_eq!(resolve(false, true), Resolution::Seeded);
    assert_eq!(resolve(true, true), Resolution::Delivered);
    assert_eq!(resolve(true, false), Resolution::Retry);
}

#[test]
fn new_subscription_is_seeded_silently() {
    let mut ledger = Ledger::new();
    let w = add_watch(&mut ledger, 1, 1, 1, "A", "US", 0).unwrap();
    scan_artist(&mut ledger, "A", &vec![release("r1", "Back catalog")], 10);
    let items = list_unalerted_watches(&ledger);
    assert_eq!(items.len(), 1);
    assert!(matches!(plan_alert(&items[0]), AlertAction::SeedSilently));
    assert_eq!(settle_alert(&mut ledger, &items[0], false, 20), Ok(Resolution::Seeded));
    let watches = list_watches(&ledger);
    assert!(watches[0].has_initialized);
    assert_eq!(watches[0].time_last_scanned, 20);
    assert_eq!(ledger.alert_facts().len(), 1);
    assert_eq!(ledger.alert_facts()[0].id_watch, w.id);
    assert_eq!(ledger.alert_facts()[0].id_release, "r1");
    assert!(list_unalerted_watches(&ledger).is_empty());
}

#[test]
fn failed_deliveries_retry_until_success() {
    let mut ledger = Ledger::new();
    let w = add_watch(&mut ledger, 1, 1, 1, "A", "US", 0).unwrap();
    update_watch(&mut ledger, w.id, true, 5);
    scan_artist(&mut ledger, "A", &vec![release("r1", "New")], 10);
    for t in 0..3 {
        let items = list_unalerted_watches(&ledger);
        assert_eq!(items.len(), 1);
        assert!(matches!(plan_alert(&items[0]), AlertAction::Deliver(_)));
        assert_eq!(settle_alert(&mut ledger, &items[0], false, 100 + t), Ok(Resolution::Retry));
        assert!(ledger.alert_facts().is_empty());
        assert_eq!(list_watches(&ledger)[0].time_last_scanned, 5);
    }
    let items = list_unalerted_watches(&ledger);
    assert_eq!(settle_alert(&mut ledger, &items[0], true, 200), Ok(Resolution::Delivered));
    assert_eq!(ledger.alert_facts().len(), 1);
    assert_eq!(list_watches(&ledger)[0].time_last_scanned, 200);
    assert!(list_unalerted_watches(&ledger).is_empty());
}

#[test]
fn settling_twice_is_refused() {
    let mut ledger = Ledger::new();
    let item = pending(true);
    assert_eq!(settle_alert(&mut ledger, &item, true, 1), Ok(Resolution::Delivered));
    assert_eq!(settle_alert(&mut ledger, &item, true, 2), Err(StoreError::DuplicateAlert));
    assert_eq!(settle_alert(&mut ledger, &item, false, 3), Ok(Resolution::Retry));
    assert_eq!(ledger.alert_facts().len(), 1);
}

#[test]
fn settle_now_uses_the_current_time() {
    let mut ledger = Ledger::new();
    let w = add_watch(&mut ledger, 1, 1, 1, "A", "US", 0).unwrap();
    scan_artist(&mut ledger, "A", &vec![release("r1", "New")], 10);
    let items = list_unalerted_watches(&ledger);
    assert_eq!(settle_alert_now(&mut ledger, &items[0], false), Ok(Resolution::Seeded));
    let watches = list_watches(&ledger);
    assert_eq!(watches[0].id, w.id);
    assert!(watches[0].time_last_scanned > 1_600_000_000);
}

#[test]
fn old_release_known_new_release_alerted_once() {
    let mut ledger = Ledger::new();
    add_artist_release(&mut ledger, "R1", "A", vec![], vec![], "album", vec![], "h", "i", "Old", "2019", "year", 1)
        .unwrap();
    let w = add_watch(&mut ledger, 1, 1, 1, "A", "US", 2).unwrap();
    record_alert(&mut ledger, "R1", w.id, 3).unwrap();
    let out = scan_artist(&mut ledger, "A", &vec![release("R1", "Old"), release("R2", "New")], 10);
    assert_eq!(out, vec![ScanOutcome::Known, ScanOutcome::Inserted]);
    assert_eq!(ledger.releases().len(), 2);
    let items = list_unalerted_watches(&ledger);
    assert_eq!(items.len(), 1);
    assert_eq!(items[0].id_release, "R2");
    let sent = match plan_alert(&items[0]) {
        AlertAction::Deliver(m) => m,
        AlertAction::SeedSilently => panic!("an initialized subscription is notified"),
    };
    assert_eq!(sent.title, "New Spotify release: New");
    assert_eq!(settle_alert(&mut ledger, &items[0], true, 11), Ok(Resolution::Delivered));
    assert!(list_unalerted_watches(&ledger).is_empty());
    let facts = ledger.alert_facts();
    assert_eq!(facts.len(), 2);
    assert_eq!(facts[1].id_release, "R2");
    assert_eq!(facts[1].id_watch, w.id);
}

#[test]
fn two_subscriptions_alerted_independently() {
    let mut ledger = Ledger::new();
    let s1 = add_watch(&mut ledger, 1, 10, 100, "A", "US", 0).unwrap();
    let s2 = add_watch(&mut ledger, 1, 20, 200, "A", "US", 0).unwrap();
    update_watch(&mut ledger, s1.id, true, 1);
    update_watch(&mut ledger, s2.id, true, 1);
    scan_artist(&mut ledger, "A", &vec![release("R", "New")], 10);
    let items = list_unalerted_watches(&ledger);
    assert_eq!(items.len(), 2);
    assert_eq!(items[0].id_watch, s1.id);
    assert_eq!(items[0].id_alert_channel, 100);
    assert_eq!(items[1].id_watch, s2.id);
    assert_eq!(items[1].id_alert_channel, 200);
    assert!(matches!(plan_alert(&items[0]), AlertAction::Deliver(_)));
    assert!(matches!(plan_alert(&items[1]), AlertAction::Deliver(_)));
    assert_eq!(settle_alert(&mut ledger, &items[0], true, 20), Ok(Resolution::Delivered));
    let rest = list_unalerted_watches(&ledger);
    assert_eq!(rest.len(), 1);
    assert_eq!(rest[0].id_watch, s2.id);
    assert_eq!(list_watches(&ledger)[1].time_last_scanned, 1);
    assert_eq!(settle_alert(&mut ledger, &rest[0], true, 30), Ok(Resolution::Delivered));
    let facts = ledger.alert_facts();
    assert_eq!(facts.len(), 2);
    assert_eq!((facts[0].id_release.as_str(), facts[0].id_watch), ("R", s1.id));
    assert_eq!((facts[1].id_release.as_str(), facts[1].id_watch), ("R", s2.id));
    assert!(list_unalerted_watches(&ledger).is_empty());
}

#[test]
fn batch_settles_each_item_on_its_own() {
    let mut ledger = Ledger::new();
    let s1 = add_watch(&mut ledger, 1, 10, 100, "A", "US", 0).unwrap();
    let s2 = add_watch(&mut ledger, 1, 20, 200, "A", "US", 0).unwrap();
    let s3 = add_watch(&mut ledger, 1, 30, 300, "A", "US", 0).unwrap();
    update_watch(&mut ledger, s1.id, true, 1);
    update_watch(&mut ledger, s2.id, true, 1);
    scan_artist(&mut ledger, "A", &vec![release("R", "New")], 10);
    let items = list_unalerted_watches(&ledger);
    assert_eq!(items.len(), 3);
    let out = settle_batch(&mut ledger, &items, &vec![true, false, false], 50);
    assert_eq!(out, vec![Ok(Resolution::Delivered), Ok(Resolution::Retry), Ok(Resolution::Seeded)]);
    let rest = list_unalerted_watches(&ledger);
    assert_eq!(rest.len(), 1);
    assert_eq!(rest[0].id_watch, s2.id);
    let watches = list_watches(&ledger);
    assert_eq!(watches[2].id, s3.id);
    assert!(watches[2].has_initialized);
    assert_eq!(watches[2].time_last_scanned, 50);
    let again = settle_batch(&mut ledger, &items, &vec![true, true, true], 60);
    assert_eq!(
        again,
        vec![Err(StoreError::DuplicateAlert), Ok(Resolution::Delivered), Err(StoreError::DuplicateAlert)]
    );
    assert_eq!(ledger.alert_facts().len(), 3);
}
