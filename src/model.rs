use vstd::prelude::*;

use crate::schema::{clone_strings, ArtistRelease, PendingView, PendingWatchAlert, ReleaseView, Timestamp, Watch};

verus! {

/// Why a store operation refused to change anything.
#[derive(Debug, Clone, Copy, PartialEq, Eq, Structural)]
pub enum StoreError {
    /// A release with this identifier is already in the ledger.
    DuplicateRelease,
    /// This subscription already has an alert fact for this release.
    DuplicateAlert,
    /// No identifier is left for a new subscription.
    WatchIdsExhausted,
}

/// A record that a subscription has been alerted about (or has caught up to) a release.
pub struct AlertFact {
    pub id_release: String,
    pub id_watch: i32,
}

/// The durable state: subscriptions, the release ledger and the alert facts.
pub struct Ledger {
    watches: Vec<Watch>,
    releases: Vec<ArtistRelease>,
    alerts: Vec<AlertFact>,
    next_watch_id: i32,
}

/// The mathematical model of a [`Ledger`].
pub struct LedgerState {
    pub watches: Seq<Watch>,
    pub releases: Seq<ReleaseView>,
    pub alerts: Seq<(Seq<char>, i32)>,
    pub next_watch_id: int,
}

pub open spec fn fact_view(a: AlertFact) -> (Seq<char>, i32) {
    (a.id_release@, a.id_watch)
}

pub open spec fn release_view(r: ArtistRelease) -> ReleaseView {
    r@
}

impl View for Ledger {
    type V = LedgerState;

    closed spec fn view(&self) -> LedgerState {
        LedgerState {
            watches: self.watches@,
            releases: self.releases@.map_values(|r: ArtistRelease| release_view(r)),
            alerts: self.alerts@.map_values(|a: AlertFact| fact_view(a)),
            next_watch_id: self.next_watch_id as int,
        }
    }
}

/// A subscription with its alert progress replaced.
pub open spec fn with_progress(w: Watch, has_initialized: bool, time_last_scanned: Timestamp) -> Watch {
    Watch { has_initialized, time_last_scanned, ..w }
}

/// The pending alert that joins a subscription with one of its artist's releases.
pub open spec fn pending_item(w: Watch, r: ReleaseView) -> PendingView {
    PendingView {
        id_watch: w.id,
        has_initialized: w.has_initialized,
        id_server: w.id_server,
        id_alert_channel: w.id_alert_channel,
        market: w.market@,
        id_release: r.id_release,
        artist_names: r.artist_names,
        album_type: r.album_type,
        href: r.href,
        image_url: r.image_url,
        name: r.name,
        release_date: r.release_date,
    }
}

impl LedgerState {
    /// Some release in the ledger carries this identifier.
    pub open spec fn has_release(self, id_release: Seq<char>) -> bool {
        exists|i: int| 0 <= i < self.releases.len() && (#[trigger] self.releases[i]).id_release == id_release
    }

    /// The subscription has an alert fact for the release.
    pub open spec fn alerted(self, id_release: Seq<char>, id_watch: i32) -> bool {
        self.alerts.contains((id_release, id_watch))
    }

    /// Some subscription watches this artist.
    pub open spec fn watched(self, id_artist: Seq<char>) -> bool {
        exists|i: int| 0 <= i < self.watches.len() && (#[trigger] self.watches[i]).id_artist@ == id_artist
    }

    /// The position of the subscription for (server, artist), if there is one.
    pub open spec fn is_watch_slot(self, i: int, id_server: u64, id_artist: Seq<char>) -> bool {
        0 <= i < self.watches.len() && self.watches[i].id_server == id_server
            && self.watches[i].id_artist@ == id_artist
    }

    /// Release identifiers are unique; there is at most one alert fact per
    /// (release, subscription); subscription identifiers are unique and below
    /// the next one to hand out; at most one subscription per (server, artist).
    pub open spec fn wf(self) -> bool {
        &&& forall|i: int, j: int|
            0 <= i < self.releases.len() && 0 <= j < self.releases.len() && i != j
                ==> (#[trigger] self.releases[i]).id_release != (#[trigger] self.releases[j]).id_release
        &&& self.alerts.no_duplicates()
        &&& 1 <= self.next_watch_id <= i32::MAX
        &&& forall|i: int| 0 <= i < self.watches.len()
            ==> 1 <= (#[trigger] self.watches[i]).id < self.next_watch_id
        &&& forall|i: int, j: int|
            0 <= i < self.watches.len() && 0 <= j < self.watches.len() && i != j
                ==> (#[trigger] self.watches[i]).id != (#[trigger] self.watches[j]).id
                    && (self.watches[i].id_server != self.watches[j].id_server
                        || self.watches[i].id_artist@ != self.watches[j].id_artist@)
    }

    /// The ledger with one more release record.
    pub open spec fn insert_release(self, r: ReleaseView) -> LedgerState {
        LedgerState { releases: self.releases.push(r), ..self }
    }

    /// The subscriptions with the alert progress of subscription `id` replaced.
    pub open spec fn progress_watches(self, id: i32, has_initialized: bool, t: Timestamp) -> Seq<Watch> {
        self.watches.map_values(
            |w: Watch| if w.id == id { with_progress(w, has_initialized, t) } else { w },
        )
    }

    /// The state with the alert progress of subscription `id` replaced.
    pub open spec fn update_progress(self, id: i32, has_initialized: bool, t: Timestamp) -> LedgerState {
        LedgerState { watches: self.progress_watches(id, has_initialized, t), ..self }
    }

    /// The state after the single step that records an alert fact and marks
    /// the subscription initialized as of `t`.
    pub open spec fn record_alert(self, id_release: Seq<char>, id_watch: i32, t: Timestamp) -> LedgerState {
        LedgerState {
            alerts: self.alerts.push((id_release, id_watch)),
            watches: self.progress_watches(id_watch, true, t),
            ..self
        }
    }

    /// Release `j` belongs to the subscription's artist and is not alerted for it.
    pub open spec fn eligible(self, w: Watch, j: int) -> bool {
        &&& 0 <= j < self.releases.len()
        &&& self.releases[j].id_artist == w.id_artist@
        &&& !self.alerted(self.releases[j].id_release, w.id)
    }

    /// Release `j` is the subscription's oldest un-alerted release: first seen
    /// no later than any other, and strictly earlier than those before it.
    pub open spec fn is_oldest_pending(self, w: Watch, j: int) -> bool {
        &&& self.eligible(w, j)
        &&& forall|k: int| #[trigger] self.eligible(w, k)
            ==> self.releases[j].time_first_seen <= self.releases[k].time_first_seen
                && (k < j ==> self.releases[j].time_first_seen < self.releases[k].time_first_seen)
    }

    pub open spec fn oldest_pending(self, w: Watch) -> Option<int> {
        if exists|j: int| self.is_oldest_pending(w, j) {
            Some(choose|j: int| self.is_oldest_pending(w, j))
        } else {
            None
        }
    }

    /// The pending alerts of the first `n` subscriptions, in subscription order.
    pub open spec fn pending_upto(self, n: int) -> Seq<PendingView>
        decreases n,
    {
        if n <= 0 {
            Seq::empty()
        } else {
            let w = self.watches[n - 1];
            let rest = self.pending_upto(n - 1);
            match self.oldest_pending(w) {
                Some(j) => rest.push(pending_item(w, self.releases[j])),
                None => rest,
            }
        }
    }

    /// For each subscription, its oldest un-alerted release, if any.
    pub open spec fn pending(self) -> Seq<PendingView> {
        self.pending_upto(self.watches.len() as int)
    }
}

proof fn lemma_watch_slot_unique(s: LedgerState, i: int, id_server: u64, id_artist: Seq<char>)
    requires
        s.wf(),
        s.is_watch_slot(i, id_server, id_artist),
    ensures
        forall|k: int| s.is_watch_slot(k, id_server, id_artist) ==> k == i,
{
    assert forall|k: int| s.is_watch_slot(k, id_server, id_artist) implies k == i by {
        if k != i {
            assert(s.watches[k].id_server == s.watches[i].id_server);
        }
    }
}

proof fn lemma_replace_watch_wf(s: LedgerState, i: int, w: Watch)
    requires
        s.wf(),
        0 <= i < s.watches.len(),
        w.id == s.watches[i].id,
        w.id_server == s.watches[i].id_server,
        w.id_artist@ == s.watches[i].id_artist@,
    ensures
        (LedgerState { watches: s.watches.update(i, w), ..s }).wf(),
{
    let t = LedgerState { watches: s.watches.update(i, w), ..s };
    assert forall|a: int, b: int| 0 <= a < t.watches.len() && 0 <= b < t.watches.len() && a != b implies
        (#[trigger] t.watches[a]).id != (#[trigger] t.watches[b]).id && (t.watches[a].id_server
            != t.watches[b].id_server || t.watches[a].id_artist@ != t.watches[b].id_artist@) by {
        assert(s.watches[a].id != s.watches[b].id);
    }
    assert forall|a: int| 0 <= a < t.watches.len() implies 1 <= (#[trigger] t.watches[a]).id < t.next_watch_id by {
        assert(1 <= s.watches[a].id);
    }
}

proof fn lemma_push_watch_wf(s: LedgerState, w: Watch)
    requires
        s.wf(),
        s.next_watch_id < i32::MAX,
        w.id == s.next_watch_id,
        forall|k: int| !s.is_watch_slot(k, w.id_server, w.id_artist@),
    ensures
        (LedgerState { watches: s.watches.push(w), next_watch_id: s.next_watch_id + 1, ..s }).wf(),
{
    let t = LedgerState { watches: s.watches.push(w), next_watch_id: s.next_watch_id + 1, ..s };
    let n = s.watches.len() as int;
    assert forall|a: int, b: int| 0 <= a < t.watches.len() && 0 <= b < t.watches.len() && a != b implies
        (#[trigger] t.watches[a]).id != (#[trigger] t.watches[b]).id && (t.watches[a].id_server
            != t.watches[b].id_server || t.watches[a].id_artist@ != t.watches[b].id_artist@) by {
        if a < n && b < n {
            assert(s.watches[a].id != s.watches[b].id);
        } else if a == n {
            assert(!s.is_watch_slot(b, w.id_server, w.id_artist@));
            assert(s.watches[b].id < s.next_watch_id);
        } else {
            assert(!s.is_watch_slot(a, w.id_server, w.id_artist@));
            assert(s.watches[a].id < s.next_watch_id);
        }
    }
    assert forall|a: int| 0 <= a < t.watches.len() implies 1 <= (#[trigger] t.watches[a]).id < t.next_watch_id by {
        if a < n {
            assert(1 <= s.watches[a].id);
        }
    }
}

impl Ledger {
    /// An empty store.
    pub fn new() -> (r: Ledger)
        ensures
            r@.wf(),
            r@.watches.len() == 0,
            r@.releases.len() == 0,
            r@.alerts.len() == 0,
    {
        let r = Ledger { watches: Vec::new(), releases: Vec::new(), alerts: Vec::new(), next_watch_id: 1 };
        assert(r@.releases =~= Seq::empty());
        assert(r@.alerts =~= Seq::empty());
        r
    }

    /// The release records, in the order they were first seen.
    pub fn releases(&self) -> (r: &Vec<ArtistRelease>)
        ensures
            r@.map_values(|x: ArtistRelease| release_view(x)) == self@.releases,
    {
        &self.releases
    }

    /// The alert facts, in the order they were recorded.
    pub fn alert_facts(&self) -> (r: &Vec<AlertFact>)
        ensures
            r@.map_values(|a: AlertFact| fact_view(a)) == self@.alerts,
    {
        &self.alerts
    }
}

/// Whether the ledger holds a release with this identifier.
pub fn check_known_release(ledger: &Ledger, id_release: &str) -> (r: bool)
    ensures
        r == ledger@.has_release(id_release@),
{
    let key = id_release.to_owned();
    let mut i: usize = 0;
    while i < ledger.releases.len()
        invariant
            i <= ledger.releases@.len(),
            key@ == id_release@,
            forall|k: int| 0 <= k < i ==> ledger@.releases[k].id_release != id_release@,
        decreases ledger.releases@.len() - i,
    {
        if ledger.releases[i].id_release == key {
            assert(ledger@.releases[i as int].id_release == id_release@);
            return true;
        }
        i = i + 1;
    }
    false
}

/// Whether the ledger holds a release with this identifier (same as
/// [`check_known_release`]).
pub fn check(ledger: &Ledger, id_release: &str) -> (r: bool)
    ensures
        r == ledger@.has_release(id_release@),
{
    check_known_release(ledger, id_release)
}

/// Records a newly observed release, first seen at `now`. A release whose
/// identifier is already in the ledger is refused and nothing changes.
pub fn add_artist_release(
    ledger: &mut Ledger,
    id_release: &str,
    id_artist: &str,
    artist_ids: Vec<String>,
    artist_names: Vec<String>,
    album_type: &str,
    available_markets: Vec<String>,
    href: &str,
    image_url: &str,
    name: &str,
    release_date: &str,
    release_date_precision: &str,
    now: Timestamp,
) -> (r: Result<ArtistRelease, StoreError>)
    requires
        old(ledger)@.wf(),
    ensures
        final(ledger)@.wf(),
        final(ledger)@.has_release(id_release@),
        old(ledger)@.has_release(id_release@) ==> r == Err::<ArtistRelease, StoreError>(
            StoreError::DuplicateRelease,
        ) && final(ledger)@ == old(ledger)@,
        !old(ledger)@.has_release(id_release@) ==> r is Ok && final(ledger)@ == old(ledger)@.insert_release(
            r->Ok_0@,
        ),
        r is Ok ==> r->Ok_0@ == (ReleaseView {
            id_release: id_release@,
            id_artist: id_artist@,
            time_first_seen: now,
            artist_ids: artist_ids.deep_view(),
            artist_names: artist_names.deep_view(),
            album_type: album_type@,
            available_markets: available_markets.deep_view(),
            href: href@,
            image_url: image_url@,
            name: name@,
            release_date: release_date@,
            release_date_precision: release_date_precision@,
        }),
{
    if check_known_release(ledger, id_release) {
        return Err(StoreError::DuplicateRelease);
    }
    let rec = ArtistRelease {
        id_release: id_release.to_owned(),
        id_artist: id_artist.to_owned(),
        time_first_seen: now,
        artist_ids,
        artist_names,
        album_type: album_type.to_owned(),
        available_markets,
        href: href.to_owned(),
        image_url: image_url.to_owned(),
        name: name.to_owned(),
        release_date: release_date.to_owned(),
        release_date_precision: release_date_precision.to_owned(),
    };
    let stored = rec.duplicate();
    ledger.releases.push(stored);
    assert(ledger@.releases =~= old(ledger)@.releases.push(rec@));
    assert forall|i: int| 0 <= i < old(ledger)@.releases.len() implies old(ledger)@.releases[i].id_release
        != id_release@ by {
        if old(ledger)@.releases[i].id_release == id_release@ {
            assert(old(ledger)@.has_release(id_release@));
        }
    }
    assert(rec@.id_release == id_release@);
    assert(ledger@.releases.last() == rec@);
    assert(ledger@.releases[ledger@.releases.len() - 1].id_release == id_release@);
    assert(ledger@.alerts == old(ledger)@.alerts);
    assert(ledger@.watches == old(ledger)@.watches);
    Ok(rec)
}

/// Whether the subscription has an alert fact for the release.
pub fn is_alerted(ledger: &Ledger, id_release: &str, id_watch: i32) -> (r: bool)
    ensures
        r == ledger@.alerted(id_release@, id_watch),
{
    let key = id_release.to_owned();
    let mut i: usize = 0;
    while i < ledger.alerts.len()
        invariant
            i <= ledger.alerts@.len(),
            key@ == id_release@,
            forall|k: int| 0 <= k < i ==> ledger@.alerts[k] != (id_release@, id_watch),
        decreases ledger.alerts@.len() - i,
    {
        if ledger.alerts[i].id_watch == id_watch && ledger.alerts[i].id_release == key {
            assert(ledger@.alerts[i as int] == (id_release@, id_watch));
            return true;
        }
        i = i + 1;
    }
    false
}

/// Adds the alert fact (release, subscription). A second fact for the same
/// pair is refused and nothing changes.
pub fn set_watch_alerted(ledger: &mut Ledger, id_release: &str, id_watch: i32) -> (r: Result<(), StoreError>)
    requires
        old(ledger)@.wf(),
    ensures
        final(ledger)@.wf(),
        final(ledger)@.alerted(id_release@, id_watch),
        old(ledger)@.alerted(id_release@, id_watch) ==> r == Err::<(), StoreError>(StoreError::DuplicateAlert)
            && final(ledger)@ == old(ledger)@,
        !old(ledger)@.alerted(id_release@, id_watch) ==> r is Ok && final(ledger)@ == (LedgerState {
            alerts: old(ledger)@.alerts.push((id_release@, id_watch)),
            ..old(ledger)@
        }),
{
    if is_alerted(ledger, id_release, id_watch) {
        return Err(StoreError::DuplicateAlert);
    }
    ledger.alerts.push(AlertFact { id_release: id_release.to_owned(), id_watch });
    assert(ledger@.alerts =~= old(ledger)@.alerts.push((id_release@, id_watch)));
    assert(ledger@.alerts[ledger@.alerts.len() - 1] == (id_release@, id_watch));
    Ok(())
}

/// Replaces the alert progress of subscription `id`; no subscription with
/// that identifier leaves the store unchanged.
pub fn update_watch(ledger: &mut Ledger, id: i32, has_initialized: bool, time_last_scanned: Timestamp)
    requires
        old(ledger)@.wf(),
    ensures
        final(ledger)@.wf(),
        final(ledger)@ == old(ledger)@.update_progress(id, has_initialized, time_last_scanned),
{
    let ghost target = old(ledger)@.update_progress(id, has_initialized, time_last_scanned);
    assert(target.watches.len() == old(ledger).watches@.len());
    let mut i: usize = 0;
    while i < ledger.watches.len()
        invariant
            i <= ledger.watches@.len(),
            target == old(ledger)@.update_progress(id, has_initialized, time_last_scanned),
            target.watches.len() == old(ledger).watches@.len(),
            ledger.watches@.len() == old(ledger).watches@.len(),
            ledger.releases == old(ledger).releases,
            ledger.alerts == old(ledger).alerts,
            ledger.next_watch_id == old(ledger).next_watch_id,
            forall|k: int| 0 <= k < i ==> ledger.watches@[k] == target.watches[k],
            forall|k: int| i <= k < ledger.watches@.len() ==> ledger.watches@[k] == old(ledger).watches@[k],
        decreases ledger.watches@.len() - i,
    {
        if ledger.watches[i].id == id {
            let mut w = ledger.watches[i].duplicate();
            w.has_initialized = has_initialized;
            w.time_last_scanned = time_last_scanned;
            ledger.watches.set(i, w);
        }
        assert(ledger.watches@[i as int] == target.watches[i as int]);
        i = i + 1;
    }
    assert(ledger@.watches =~= target.watches);
    assert(ledger@.releases =~= target.releases);
    assert(ledger@.alerts =~= target.alerts);
}

/// Records the alert fact (release, subscription) and marks the subscription
/// initialized as of `now`, as one step: either both happen or, when the
/// fact already exists, neither does.
pub fn record_alert(ledger: &mut Ledger, id_release: &str, id_watch: i32, now: Timestamp) -> (r: Result<(), StoreError>)
    requires
        old(ledger)@.wf(),
    ensures
        final(ledger)@.wf(),
        final(ledger)@.alerted(id_release@, id_watch),
        old(ledger)@.alerted(id_release@, id_watch) ==> r == Err::<(), StoreError>(StoreError::DuplicateAlert)
            && final(ledger)@ == old(ledger)@,
        !old(ledger)@.alerted(id_release@, id_watch) ==> r is Ok && final(ledger)@ == old(ledger)@.record_alert(
            id_release@,
            id_watch,
            now,
        ),
{
    let r = set_watch_alerted(ledger, id_release, id_watch);
    if r.is_ok() {
        update_watch(ledger, id_watch, true, now);
    }
    r
}

/// Creates the subscription of server `id_server` to artist `id_artist`, or,
/// when that pair already has one, replaces it in place under its identifier.
/// Either way the subscription starts over: not initialized, last scanned at
/// the epoch, created at `now`.
pub fn add_watch(
    ledger: &mut Ledger,
    id_created_by: u64,
    id_server: u64,
    id_alert_channel: u64,
    id_artist: &str,
    market: &str,
    now: Timestamp,
) -> (r: Result<Watch, StoreError>)
    requires
        old(ledger)@.wf(),
    ensures
        final(ledger)@.wf(),
        final(ledger)@.releases == old(ledger)@.releases,
        final(ledger)@.alerts == old(ledger)@.alerts,
        r is Ok ==> {
            let w = r->Ok_0;
            &&& w.time_created == now
            &&& w.id_created_by == id_created_by
            &&& w.id_server == id_server
            &&& w.id_alert_channel == id_alert_channel
            &&& w.id_artist@ == id_artist@
            &&& w.market@ == market@
            &&& !w.has_initialized
            &&& w.time_last_scanned == 0
        },
        forall|i: int| old(ledger)@.is_watch_slot(i, id_server, id_artist@) ==> r is Ok
            && r->Ok_0.id == old(ledger)@.watches[i].id
            && final(ledger)@.watches == old(ledger)@.watches.update(i, r->Ok_0)
            && final(ledger)@.next_watch_id == old(ledger)@.next_watch_id,
        (forall|i: int| !old(ledger)@.is_watch_slot(i, id_server, id_artist@)) ==> if old(ledger)@.next_watch_id
            == i32::MAX {
            r == Err::<Watch, StoreError>(StoreError::WatchIdsExhausted) && final(ledger)@ == old(ledger)@
        } else {
            r is Ok && r->Ok_0.id == old(ledger)@.next_watch_id
                && final(ledger)@.watches == old(ledger)@.watches.push(r->Ok_0)
                && final(ledger)@.next_watch_id == old(ledger)@.next_watch_id + 1
        },
{
    let key = id_artist.to_owned();
    let mut i: usize = 0;
    while i < ledger.watches.len()
        invariant
            i <= ledger.watches@.len(),
            key@ == id_artist@,
            *ledger == *old(ledger),
            old(ledger)@.wf(),
            forall|k: int| 0 <= k < i ==> !ledger@.is_watch_slot(k, id_server, id_artist@),
        decreases ledger.watches@.len() - i,
    {
        if ledger.watches[i].id_server == id_server && ledger.watches[i].id_artist == key {
            let w = Watch {
                id: ledger.watches[i].id,
                time_created: now,
                id_created_by,
                id_server,
                id_alert_channel,
                id_artist: key,
                market: market.to_owned(),
                has_initialized: false,
                time_last_scanned: 0,
            };
            proof {
                lemma_watch_slot_unique(old(ledger)@, i as int, id_server, id_artist@);
                lemma_replace_watch_wf(old(ledger)@, i as int, w);
            }
            let stored = w.duplicate();
            ledger.watches.set(i, stored);
            assert(ledger@.watches =~= old(ledger)@.watches.update(i as int, w));
            return Ok(w);
        }
        i = i + 1;
    }
    if ledger.next_watch_id == i32::MAX {
        return Err(StoreError::WatchIdsExhausted);
    }
    let w = Watch {
        id: ledger.next_watch_id,
        time_created: now,
        id_created_by,
        id_server,
        id_alert_channel,
        id_artist: key,
        market: market.to_owned(),
        has_initialized: false,
        time_last_scanned: 0,
    };
    let stored = w.duplicate();
    ledger.watches.push(stored);
    ledger.next_watch_id = ledger.next_watch_id + 1;
    proof {
        lemma_push_watch_wf(old(ledger)@, w);
    }
    assert(ledger@.watches =~= old(ledger)@.watches.push(w));
    Ok(w)
}

/// All subscriptions, in store order.
pub fn list_watches(ledger: &Ledger) -> (r: Vec<Watch>)
    ensures
        r@ == ledger@.watches,
{
    let mut r: Vec<Watch> = Vec::new();
    let mut i: usize = 0;
    while i < ledger.watches.len()
        invariant
            i <= ledger.watches@.len(),
            r@ == ledger.watches@.subrange(0, i as int),
        decreases ledger.watches@.len() - i,
    {
        r.push(ledger.watches[i].duplicate());
        i = i + 1;
        assert(r@ =~= ledger.watches@.subrange(0, i as int));
    }
    assert(r@ =~= ledger.watches@);
    r
}

/// The artists that at least one subscription watches, each once.
pub fn list_all_watched_artists(ledger: &Ledger) -> (r: Vec<String>)
    ensures
        r.deep_view().no_duplicates(),
        forall|a: Seq<char>| r.deep_view().contains(a) <==> ledger@.watched(a),
{
    let mut r: Vec<String> = Vec::new();
    let mut i: usize = 0;
    while i < ledger.watches.len()
        invariant
            i <= ledger.watches@.len(),
            r.deep_view().no_duplicates(),
            forall|a: Seq<char>| r.deep_view().contains(a) <==> exists|k: int|
                0 <= k < i && (#[trigger] ledger.watches@[k]).id_artist@ == a,
        decreases ledger.watches@.len() - i,
    {
        let artist = &ledger.watches[i].id_artist;
        let mut seen = false;
        let mut j: usize = 0;
        while j < r.len()
            invariant
                j <= r@.len(),
                seen <==> exists|m: int| 0 <= m < j && r.deep_view()[m] == artist@,
            decreases r@.len() - j,
        {
            assert(r.deep_view()[j as int] == r@[j as int]@);
            if r[j] == *artist {
                seen = true;
            }
            j = j + 1;
        }
        let ghost before = r.deep_view();
        if !seen {
            r.push(artist.clone());
            assert(r.deep_view() =~= before.push(artist@));
        }
        assert forall|a: Seq<char>| r.deep_view().contains(a) <==> exists|k: int|
            0 <= k < i + 1 && (#[trigger] ledger.watches@[k]).id_artist@ == a by {
            if r.deep_view().contains(a) && a != artist@ {
                assert(before.contains(a));
            }
            if exists|k: int| 0 <= k < i + 1 && (#[trigger] ledger.watches@[k]).id_artist@ == a {
                let k = choose|k: int| 0 <= k < i + 1 && (#[trigger] ledger.watches@[k]).id_artist@ == a;
                if k < i {
                    assert(before.contains(a));
                    assert(r.deep_view().contains(a) || !seen);
                    if !seen {
                        let m = choose|m: int| 0 <= m < before.len() && before[m] == a;
                        assert(r.deep_view()[m] == a);
                    }
                } else if seen {
                    let m = choose|m: int| 0 <= m < j && r.deep_view()[m] == artist@;
                    assert(r.deep_view()[m] == a);
                } else {
                    assert(r.deep_view()[before.len() as int] == a);
                }
            }
        }
        i = i + 1;
    }
    assert forall|a: Seq<char>| r.deep_view().contains(a) <==> ledger@.watched(a) by {
        if ledger@.watched(a) {
            let k = choose|k: int| 0 <= k < ledger@.watches.len() && (#[trigger] ledger@.watches[k]).id_artist@ == a;
            assert(ledger.watches@[k].id_artist@ == a);
        }
        if r.deep_view().contains(a) {
            let k = choose|k: int| 0 <= k < i && (#[trigger] ledger.watches@[k]).id_artist@ == a;
            assert(ledger@.watches[k].id_artist@ == a);
        }
    }
    r
}

proof fn lemma_oldest_unique(s: LedgerState, w: Watch, b: int)
    requires
        s.is_oldest_pending(w, b),
    ensures
        s.oldest_pending(w) == Some(b),
{
    let j = choose|j: int| s.is_oldest_pending(w, j);
    assert(s.eligible(w, b));
    assert(s.eligible(w, j));
    if j < b {
        assert(s.releases[b].time_first_seen < s.releases[j].time_first_seen);
    } else if b < j {
        assert(s.releases[j].time_first_seen < s.releases[b].time_first_seen);
    }
}

/// The position of the oldest release that subscription `w` has not been
/// alerted about, if any.
fn find_oldest_pending(ledger: &Ledger, w: &Watch) -> (r: Option<usize>)
    ensures
        r is Some <==> ledger@.oldest_pending(*w) is Some,
        r is Some ==> ledger@.oldest_pending(*w) == Some(r->Some_0 as int),
{
    let mut best: Option<usize> = None;
    let mut j: usize = 0;
    while j < ledger.releases.len()
        invariant
            j <= ledger.releases@.len(),
            best is None ==> forall|k: int| 0 <= k < j ==> !ledger@.eligible(*w, k),
            best is Some ==> {
                let b = best->Some_0 as int;
                &&& b < j
                &&& ledger@.eligible(*w, b)
                &&& forall|k: int| 0 <= k < j && #[trigger] ledger@.eligible(*w, k)
                    ==> ledger@.releases[b].time_first_seen <= ledger@.releases[k].time_first_seen
                        && (k < b ==> ledger@.releases[b].time_first_seen < ledger@.releases[k].time_first_seen)
            },
        decreases ledger.releases@.len() - j,
    {
        let rel = &ledger.releases[j];
        assert(ledger@.releases[j as int] == rel@);
        if rel.id_artist == w.id_artist && !is_alerted(ledger, rel.id_release.as_str(), w.id) {
            let better = match best {
                None => true,
                Some(b) => rel.time_first_seen < ledger.releases[b].time_first_seen,
            };
            if better {
                best = Some(j);
            }
        } else {
            assert(!ledger@.eligible(*w, j as int));
        }
        j = j + 1;
    }
    match best {
        Some(b) => {
            proof {
                lemma_oldest_unique(ledger@, *w, b as int);
            }
        },
        None => {
            assert forall|k: int| !ledger@.is_oldest_pending(*w, k) by {
                if 0 <= k < ledger@.releases.len() {
                    assert(!ledger@.eligible(*w, k));
                }
            }
        },
    }
    best
}

/// For each subscription, in store order, its oldest un-alerted release joined
/// with the subscription's delivery data; subscriptions with nothing pending
/// are left out.
pub fn list_unalerted_watches(ledger: &Ledger) -> (r: Vec<PendingWatchAlert>)
    ensures
        r@.map_values(|p: PendingWatchAlert| p@) == ledger@.pending(),
{
    let mut r: Vec<PendingWatchAlert> = Vec::new();
    let mut i: usize = 0;
    while i < ledger.watches.len()
        invariant
            i <= ledger.watches@.len(),
            r@.map_values(|p: PendingWatchAlert| p@) == ledger@.pending_upto(i as int),
        decreases ledger.watches@.len() - i,
    {
        let w = &ledger.watches[i];
        assert(ledger@.watches[i as int] == *w);
        let ghost before = r@;
        match find_oldest_pending(ledger, w) {
            Some(j) => {
                let rel = &ledger.releases[j];
                assert(ledger@.releases[j as int] == rel@);
                let item = PendingWatchAlert {
                    id_watch: w.id,
                    has_initialized: w.has_initialized,
                    id_server: w.id_server,
                    id_alert_channel: w.id_alert_channel,
                    market: w.market.clone(),
                    id_release: rel.id_release.clone(),
                    artist_names: clone_strings(&rel.artist_names),
                    album_type: rel.album_type.clone(),
                    href: rel.href.clone(),
                    image_url: rel.image_url.clone(),
                    name: rel.name.clone(),
                    release_date: rel.release_date.clone(),
                };
                assert(item@ == pending_item(*w, rel@));
                r.push(item);
                assert(r@.map_values(|p: PendingWatchAlert| p@) =~= before.map_values(
                    |p: PendingWatchAlert| p@,
                ).push(item@));
            },
            None => {},
        }
        i = i + 1;
    }
    r
}

} // verus!
