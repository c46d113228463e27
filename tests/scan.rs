use spotlit::model::{add_artist_release, Ledger};
use spotlit::scan::{artist_ids, artist_names, classify_release, scan_artist, ArtistRef, ReleaseInfo, ScanOutcome};

fn info(id: Option<&str>, name: &str) -> ReleaseInfo {
    ReleaseInfo {
        id: id.map(|s| s.to_string()),
        name: name.to_string(),
        album_type: Some("single".to_string()),
        artists: vec![
            ArtistRef { id: Some("a1".to_string()), name: "First".to_string() },
            ArtistRef { id: Some("a2".to_string()), name: "Second".to_string() },
        ],
        images: vec!["https://img/1".to_string(), "https://img/2".to_string()],
        available_markets: vec!["US".to_string()],
        href: Some("https://href".to_string()),
        release_date: Some("2022-01-07".to_string()),
        release_date_precision: Some("day".to_string()),
    }
}

#[test]
fn scan_inserts_only_new_releases() {
    let mut ledger = Ledger::new();
    add_artist_release(
        &mut ledger, "r1", "a1", vec![], vec![], "album", vec![], "h", "i", "Old", "2020", "year", 10,
    )
    .unwrap();
    let out = scan_artist(&mut ledger, "a1", &vec![info(Some("r1"), "Old again"), info(Some("r2"), "New")], 50);
    assert_eq!(out, vec![ScanOutcome::Known, ScanOutcome::Inserted]);
    let rels = ledger.releases();
    assert_eq!(rels.len(), 2);
    assert_eq!(rels[0].name, "Old");
    assert_eq!(rels[0].time_first_seen, 10);
    assert_eq!(rels[1].id_release, "r2");
    assert_eq!(rels[1].id_artist, "a1");
    assert_eq!(rels[1].time_first_seen, 50);
    assert_eq!(rels[1].artist_ids, vec!["a1".to_string(), "a2".to_string()]);
    assert_eq!(rels[1].artist_names, vec!["First".to_string(), "Second".to_string()]);
    assert_eq!(rels[1].image_url, "https://img/1");
    assert_eq!(rels[1].album_type, "single");
    assert_eq!(rels[1].href, "https://href");
    assert_eq!(rels[1].release_date, "2022-01-07");
}

#[test]
fn scan_skips_release_without_id() {
    let mut ledger = Ledger::new();
    let out = scan_artist(&mut ledger, "a1", &vec![info(None, "No id"), info(Some("r3"), "Ok")], 5);
    assert_eq!(out, vec![ScanOutcome::MissingId, ScanOutcome::Inserted]);
    assert_eq!(ledger.releases().len(), 1);
}

#[test]
fn scan_skips_incomplete_release() {
    let mut ledger = Ledger::new();
    let mut no_image = info(Some("r4"), "No image");
    no_image.images.clear();
    let mut no_artist_id = info(Some("r5"), "No artist id");
    no_artist_id.artists[1].id = None;
    let mut no_date = info(Some("r6"), "No date");
    no_date.release_date = None;
    let out = scan_artist(&mut ledger, "a1", &vec![no_image, no_artist_id, no_date], 5);
    assert_eq!(out, vec![ScanOutcome::Malformed, ScanOutcome::Malformed, ScanOutcome::Malformed]);
    assert!(ledger.releases().is_empty());
}

#[test]
fn scan_twice_records_nothing_more() {
    let mut ledger = Ledger::new();
    let list = vec![info(Some("r1"), "One"), info(Some("r1"), "Dup"), info(Some("r2"), "Two")];
    let first = scan_artist(&mut ledger, "a1", &list, 5);
    assert_eq!(first, vec![ScanOutcome::Inserted, ScanOutcome::Known, ScanOutcome::Inserted]);
    let second = scan_artist(&mut ledger, "a1", &list, 9);
    assert_eq!(second, vec![ScanOutcome::Known, ScanOutcome::Known, ScanOutcome::Known]);
    assert_eq!(ledger.releases().len(), 2);
    assert_eq!(ledger.releases()[0].time_first_seen, 5);
}

#[test]
fn classify_known_release_ignores_missing_fields() {
    let mut partial = info(Some("r1"), "Partial");
    partial.href = None;
    assert_eq!(classify_release(true, &partial), ScanOutcome::Known);
    assert_eq!(classify_release(false, &partial), ScanOutcome::Malformed);
    assert_eq!(classify_release(true, &info(None, "x")), ScanOutcome::MissingId);
    assert_eq!(classify_release(false, &info(Some("r"), "x")), ScanOutcome::Inserted);
}

#[test]
fn artist_lists_keep_catalog_order() {
    let i = info(Some("r"), "x");
    assert_eq!(artist_ids(&i.artists), vec!["a1".to_string(), "a2".to_string()]);
    assert_eq!(artist_names(&i.artists), vec!["First".to_string(), "Second".to_string()]);
}
