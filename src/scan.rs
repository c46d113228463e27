use vstd::prelude::*;

use crate::model::{add_artist_release, check_known_release, Ledger, LedgerState};
use crate::schema::{clone_strings, ReleaseView, Timestamp};

verus! {

/// A contributing artist as the catalog lists it.
pub struct ArtistRef {
    pub id: Option<String>,
    pub name: String,
}

/// A release as the catalog lists it; the catalog may leave any optional field out.
pub struct ReleaseInfo {
    pub id: Option<String>,
    pub name: String,
    pub album_type: Option<String>,
    pub artists: Vec<ArtistRef>,
    pub images: Vec<String>,
    pub available_markets: Vec<String>,
    pub href: Option<String>,
    pub release_date: Option<String>,
    pub release_date_precision: Option<String>,
}

/// What the scan did with one catalog release.
#[derive(Debug, Clone, Copy, PartialEq, Eq, Structural)]
pub enum ScanOutcome {
    /// No release identifier: it cannot be deduplicated and is skipped.
    MissingId,
    /// Already in the ledger: skipped, its fields are not looked at again.
    Known,
    /// New, but a field the ledger needs is missing: skipped.
    Malformed,
    /// New and complete: recorded in the ledger.
    Inserted,
}

/// Every field that a ledger record needs is present: the identifier, the
/// type, the link, the release date and its precision, at least one image,
/// and an identifier for every contributing artist.
pub open spec fn is_complete(info: ReleaseInfo) -> bool {
    &&& info.id is Some
    &&& info.album_type is Some
    &&& info.href is Some
    &&& info.release_date is Some
    &&& info.release_date_precision is Some
    &&& info.images@.len() > 0
    &&& forall|i: int| 0 <= i < info.artists@.len() ==> (#[trigger] info.artists@[i]).id is Some
}

pub open spec fn artist_ids_of(artists: Seq<ArtistRef>) -> Seq<Seq<char>> {
    Seq::new(artists.len(), |i: int| artists[i].id->Some_0@)
}

pub open spec fn artist_names_of(artists: Seq<ArtistRef>) -> Seq<Seq<char>> {
    Seq::new(artists.len(), |i: int| artists[i].name@)
}

/// The ledger record of a complete catalog release of artist `id_artist`, first seen at `now`.
pub open spec fn record_of(info: ReleaseInfo, id_artist: Seq<char>, now: Timestamp) -> ReleaseView {
    ReleaseView {
        id_release: info.id->Some_0@,
        id_artist,
        time_first_seen: now,
        artist_ids: artist_ids_of(info.artists@),
        artist_names: artist_names_of(info.artists@),
        album_type: info.album_type->Some_0@,
        available_markets: info.available_markets.deep_view(),
        href: info.href->Some_0@,
        image_url: info.images@[0]@,
        name: info.name@,
        release_date: info.release_date->Some_0@,
        release_date_precision: info.release_date_precision->Some_0@,
    }
}

/// The outcome for a catalog release, given whether its identifier is already known.
pub open spec fn outcome_of(known: bool, info: ReleaseInfo) -> ScanOutcome {
    if info.id is None {
        ScanOutcome::MissingId
    } else if known {
        ScanOutcome::Known
    } else if !is_complete(info) {
        ScanOutcome::Malformed
    } else {
        ScanOutcome::Inserted
    }
}

pub open spec fn known_in(s: LedgerState, info: ReleaseInfo) -> bool {
    info.id is Some && s.has_release(info.id->Some_0@)
}

/// The ledger after the first `n` catalog releases have been scanned in order.
pub open spec fn scan_state(
    s: LedgerState,
    infos: Seq<ReleaseInfo>,
    id_artist: Seq<char>,
    now: Timestamp,
    n: int,
) -> LedgerState
    decreases n,
{
    if n <= 0 {
        s
    } else {
        let prev = scan_state(s, infos, id_artist, now, n - 1);
        let info = infos[n - 1];
        if outcome_of(known_in(prev, info), info) == ScanOutcome::Inserted {
            prev.insert_release(record_of(info, id_artist, now))
        } else {
            prev
        }
    }
}

/// Classifies a catalog release, given whether the ledger knows its identifier.
pub fn classify_release(known: bool, info: &ReleaseInfo) -> (r: ScanOutcome)
    ensures
        r == outcome_of(known, *info),
{
    if info.id.is_none() {
        return ScanOutcome::MissingId;
    }
    if known {
        return ScanOutcome::Known;
    }
    if info.album_type.is_none() || info.href.is_none() || info.release_date.is_none()
        || info.release_date_precision.is_none() || info.images.len() == 0 {
        return ScanOutcome::Malformed;
    }
    let mut i: usize = 0;
    while i < info.artists.len()
        invariant
            i <= info.artists@.len(),
            info.id is Some,
            !known,
            forall|k: int| 0 <= k < i ==> (#[trigger] info.artists@[k]).id is Some,
        decreases info.artists@.len() - i,
    {
        if info.artists[i].id.is_none() {
            assert(info.artists@[i as int].id is None);
            assert(!is_complete(*info));
            return ScanOutcome::Malformed;
        }
        i = i + 1;
    }
    ScanOutcome::Inserted
}

/// The identifiers of the contributing artists of a complete release.
pub fn artist_ids(artists: &Vec<ArtistRef>) -> (r: Vec<String>)
    requires
        forall|i: int| 0 <= i < artists@.len() ==> (#[trigger] artists@[i]).id is Some,
    ensures
        r.deep_view() == artist_ids_of(artists@),
{
    let mut r: Vec<String> = Vec::new();
    let mut i: usize = 0;
    while i < artists.len()
        invariant
            i <= artists@.len(),
            forall|k: int| 0 <= k < artists@.len() ==> (#[trigger] artists@[k]).id is Some,
            r@.len() == i,
            forall|k: int| 0 <= k < i ==> (#[trigger] r@[k])@ == artists@[k].id->Some_0@,
        decreases artists@.len() - i,
    {
        assert(artists@[i as int].id is Some);
        match &artists[i].id {
            Some(id) => {
                r.push(id.clone());
            },
            None => {},
        }
        i = i + 1;
    }
    assert(r.deep_view() =~= artist_ids_of(artists@));
    r
}

/// The names of the contributing artists, in catalog order.
pub fn artist_names(artists: &Vec<ArtistRef>) -> (r: Vec<String>)
    ensures
        r.deep_view() == artist_names_of(artists@),
{
    let mut r: Vec<String> = Vec::new();
    let mut i: usize = 0;
    while i < artists.len()
        invariant
            i <= artists@.len(),
            r@.len() == i,
            forall|k: int| 0 <= k < i ==> (#[trigger] r@[k])@ == artists@[k].name@,
        decreases artists@.len() - i,
    {
        r.push(artists[i].name.clone());
        i = i + 1;
    }
    assert(r.deep_view() =~= artist_names_of(artists@));
    r
}

/// Scans the recent releases of artist `id_artist`: each one without an
/// identifier, already known or incomplete is skipped, and each other one is
/// recorded in the ledger as first seen at `now`. One outcome per release, in
/// catalog order; a later duplicate of a release recorded earlier in the same
/// list counts as known.
pub fn scan_artist(ledger: &mut Ledger, id_artist: &str, releases: &Vec<ReleaseInfo>, now: Timestamp) -> (r: Vec<
    ScanOutcome,
>)
    requires
        old(ledger)@.wf(),
    ensures
        final(ledger)@.wf(),
        final(ledger)@ == scan_state(old(ledger)@, releases@, id_artist@, now, releases@.len() as int),
        r@.len() == releases@.len(),
        forall|i: int| 0 <= i < releases@.len() ==> #[trigger] r@[i] == outcome_of(
            known_in(scan_state(old(ledger)@, releases@, id_artist@, now, i), releases@[i]),
            releases@[i],
        ),
{
    let mut r: Vec<ScanOutcome> = Vec::new();
    let mut i: usize = 0;
    while i < releases.len()
        invariant
            i <= releases@.len(),
            r@.len() == i,
            ledger@.wf(),
            ledger@ == scan_state(old(ledger)@, releases@, id_artist@, now, i as int),
            forall|k: int| 0 <= k < i ==> #[trigger] r@[k] == outcome_of(
                known_in(scan_state(old(ledger)@, releases@, id_artist@, now, k), releases@[k]),
                releases@[k],
            ),
        decreases releases@.len() - i,
    {
        let info = &releases[i];
        let known = match &info.id {
            Some(id) => check_known_release(ledger, id.as_str()),
            None => false,
        };
        let outcome = classify_release(known, info);
        if outcome == ScanOutcome::Inserted {
            match (&info.id, &info.album_type, &info.href, &info.release_date, &info.release_date_precision) {
                (Some(id), Some(album_type), Some(href), Some(release_date), Some(precision)) => {
                    let added = add_artist_release(
                        ledger,
                        id.as_str(),
                        id_artist,
                        artist_ids(&info.artists),
                        artist_names(&info.artists),
                        album_type.as_str(),
                        clone_strings(&info.available_markets),
                        href.as_str(),
                        info.images[0].as_str(),
                        info.name.as_str(),
                        release_date.as_str(),
                        precision.as_str(),
                        now,
                    );
                    assert(added is Ok);
                },
                _ => {},
            }
        }
        r.push(outcome);
        i = i + 1;
    }
    r
}

} // verus!
