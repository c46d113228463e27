use vstd::prelude::*;

use crate::alert::{resolution_of, settle, Resolution};
use crate::model::{pending_item, LedgerState};
use crate::scan::{known_in, outcome_of, record_of, scan_state, ReleaseInfo, ScanOutcome};
use crate::schema::{PendingView, ReleaseView, Timestamp};

verus! {

/// Inserting a release makes its identifier known, so a second insert of the
/// same identifier is refused; the ledger then holds exactly one record with
/// that identifier, carrying the first-seen time of the first insert.
pub proof fn law_release_dedup(s: LedgerState, first: ReleaseView, again: ReleaseView)
    requires
        s.wf(),
        !s.has_release(first.id_release),
        again.id_release == first.id_release,
    ensures
        s.insert_release(first).wf(),
        s.insert_release(first).has_release(again.id_release),
        forall|i: int|
            0 <= i < s.insert_release(first).releases.len() && (#[trigger] s.insert_release(first).releases[i]).id_release
                == first.id_release ==> i == s.releases.len() && s.insert_release(first).releases[i].time_first_seen
                == first.time_first_seen,
{
    let t = s.insert_release(first);
    let n = s.releases.len() as int;
    assert(t.releases[n] == first);
    assert forall|i: int| 0 <= i < t.releases.len() && (#[trigger] t.releases[i]).id_release == first.id_release implies i
        == n by {
        if i < n {
            assert(s.releases[i] == t.releases[i]);
        }
    }
    assert forall|i: int, j: int| 0 <= i < t.releases.len() && 0 <= j < t.releases.len() && i != j implies (
    #[trigger] t.releases[i]).id_release != (#[trigger] t.releases[j]).id_release by {
        if i < n && j < n {
            assert(s.releases[i] == t.releases[i]);
            assert(s.releases[j] == t.releases[j]);
        } else if i < n {
            assert(s.releases[i] == t.releases[i]);
        } else {
            assert(s.releases[j] == t.releases[j]);
        }
    }
}

proof fn lemma_scan_grows(s: LedgerState, infos: Seq<ReleaseInfo>, id_artist: Seq<char>, now: Timestamp, a: int, b: int)
    requires
        0 <= a <= b,
    ensures
        forall|id: Seq<char>| scan_state(s, infos, id_artist, now, a).has_release(id) ==> scan_state(
            s,
            infos,
            id_artist,
            now,
            b,
        ).has_release(id),
    decreases b - a,
{
    if a < b {
        lemma_scan_grows(s, infos, id_artist, now, a, b - 1);
        let prev = scan_state(s, infos, id_artist, now, b - 1);
        let info = infos[b - 1];
        if outcome_of(known_in(prev, info), info) == ScanOutcome::Inserted {
            let next = prev.insert_release(record_of(info, id_artist, now));
            assert forall|id: Seq<char>| prev.has_release(id) implies next.has_release(id) by {
                let i = choose|i: int| 0 <= i < prev.releases.len() && (#[trigger] prev.releases[i]).id_release == id;
                assert(next.releases[i] == prev.releases[i]);
            }
        }
    }
}

proof fn lemma_rescan_prefix(
    s: LedgerState,
    infos: Seq<ReleaseInfo>,
    id_artist: Seq<char>,
    now: Timestamp,
    later: Timestamp,
    k: int,
)
    requires
        0 <= k <= infos.len(),
    ensures
        scan_state(scan_state(s, infos, id_artist, now, infos.len() as int), infos, id_artist, later, k)
            == scan_state(s, infos, id_artist, now, infos.len() as int),
    decreases k,
{
    let n = infos.len() as int;
    let full = scan_state(s, infos, id_artist, now, n);
    if k > 0 {
        lemma_rescan_prefix(s, infos, id_artist, now, later, k - 1);
        let info = infos[k - 1];
        let prev = scan_state(s, infos, id_artist, now, k - 1);
        let after = scan_state(s, infos, id_artist, now, k);
        lemma_scan_grows(s, infos, id_artist, now, k - 1, n);
        lemma_scan_grows(s, infos, id_artist, now, k, n);
        if outcome_of(known_in(prev, info), info) == ScanOutcome::Inserted {
            let rec = record_of(info, id_artist, now);
            assert(after.releases[after.releases.len() - 1] == rec);
            assert(after.has_release(rec.id_release));
        }
        assert(outcome_of(known_in(full, info), info) != ScanOutcome::Inserted);
    }
}

/// Scanning the same release list a second time records nothing more.
pub proof fn law_rescan_idempotent(
    s: LedgerState,
    infos: Seq<ReleaseInfo>,
    id_artist: Seq<char>,
    now: Timestamp,
    later: Timestamp,
)
    ensures
        scan_state(
            scan_state(s, infos, id_artist, now, infos.len() as int),
            infos,
            id_artist,
            later,
            infos.len() as int,
        ) == scan_state(s, infos, id_artist, now, infos.len() as int),
{
    lemma_rescan_prefix(s, infos, id_artist, now, later, infos.len() as int);
}

proof fn lemma_pending_not_alerted(s: LedgerState, n: int)
    requires
        0 <= n <= s.watches.len(),
    ensures
        forall|k: int| 0 <= k < s.pending_upto(n).len() ==> !s.alerted(
            (#[trigger] s.pending_upto(n)[k]).id_release,
            s.pending_upto(n)[k].id_watch,
        ),
    decreases n,
{
    if n > 0 {
        lemma_pending_not_alerted(s, n - 1);
        let w = s.watches[n - 1];
        let rest = s.pending_upto(n - 1);
        match s.oldest_pending(w) {
            Some(j) => {
                assert(s.is_oldest_pending(w, j));
                let p = pending_item(w, s.releases[j]);
                assert(s.pending_upto(n) == rest.push(p));
                assert forall|k: int| 0 <= k < s.pending_upto(n).len() implies !s.alerted(
                    (#[trigger] s.pending_upto(n)[k]).id_release,
                    s.pending_upto(n)[k].id_watch,
                ) by {
                    if k < rest.len() {
                        assert(s.pending_upto(n)[k] == rest[k]);
                    }
                }
            },
            None => {},
        }
    }
}

/// No pending alert is ever offered for a (release, subscription) pair that
/// already has an alert fact, and there is at most one fact per pair; once
/// settled, settling the same item again changes nothing.
pub proof fn law_alert_once(s: LedgerState, p: PendingView, first: bool, again: bool, t1: Timestamp, t2: Timestamp)
    requires
        s.wf(),
    ensures
        s.alerts.no_duplicates(),
        forall|k: int| 0 <= k < s.pending().len() ==> !s.alerted(
            (#[trigger] s.pending()[k]).id_release,
            s.pending()[k].id_watch,
        ),
        resolution_of(p.has_initialized, first) != Resolution::Retry ==> settle(
            settle(s, p, first, t1),
            p,
            again,
            t2,
        ) == settle(s, p, first, t1),
        resolution_of(p.has_initialized, first) != Resolution::Retry ==> settle(s, p, first, t1).alerted(
            p.id_release,
            p.id_watch,
        ),
{
    lemma_pending_not_alerted(s, s.watches.len() as int);
    if resolution_of(p.has_initialized, first) != Resolution::Retry && !s.alerted(p.id_release, p.id_watch) {
        let s1 = settle(s, p, first, t1);
        assert(s1.alerts.last() == (p.id_release, p.id_watch));
        assert(s1.alerted(p.id_release, p.id_watch));
    }
}

/// A subscription that is not initialized is settled without a message: its
/// pending item is recorded and the subscription becomes initialized,
/// whatever a delivery would have returned.
pub proof fn law_silent_seed(s: LedgerState, p: PendingView, delivered: bool, t: Timestamp)
    requires
        !p.has_initialized,
        !s.alerted(p.id_release, p.id_watch),
    ensures
        resolution_of(p.has_initialized, delivered) == Resolution::Seeded,
        settle(s, p, delivered, t) == s.record_alert(p.id_release, p.id_watch, t),
        forall|i: int| 0 <= i < s.watches.len() && s.watches[i].id == p.id_watch ==> (#[trigger] settle(
            s,
            p,
            delivered,
            t,
        ).watches[i]).has_initialized,
{
}

/// The state after settling the same pending item once per delivery outcome,
/// the `i`-th at time `times[i]`.
pub open spec fn settle_each(s: LedgerState, p: PendingView, outcomes: Seq<bool>, times: Seq<Timestamp>) -> LedgerState
    decreases outcomes.len(),
{
    if outcomes.len() == 0 || times.len() < outcomes.len() {
        s
    } else {
        settle(
            settle_each(s, p, outcomes.drop_last(), times.subrange(0, outcomes.len() - 1)),
            p,
            outcomes.last(),
            times[outcomes.len() - 1],
        )
    }
}

proof fn lemma_failures_change_nothing(s: LedgerState, p: PendingView, outcomes: Seq<bool>, times: Seq<Timestamp>)
    requires
        p.has_initialized,
        forall|i: int| 0 <= i < outcomes.len() ==> !outcomes[i],
    ensures
        settle_each(s, p, outcomes, times) == s,
    decreases outcomes.len(),
{
    if outcomes.len() > 0 && times.len() >= outcomes.len() {
        lemma_failures_change_nothing(s, p, outcomes.drop_last(), times.subrange(0, outcomes.len() - 1));
    }
}

/// For an initialized subscription whose deliveries fail some number of times
/// and then succeed, exactly one alert fact is recorded, and the subscription's
/// progress moves only to the time of the success.
pub proof fn law_retry_until_success(s: LedgerState, p: PendingView, failures: nat, times: Seq<Timestamp>)
    requires
        p.has_initialized,
        !s.alerted(p.id_release, p.id_watch),
        times.len() == failures + 1,
    ensures
        settle_each(s, p, Seq::new(failures, |i: int| false).push(true), times) == s.record_alert(
            p.id_release,
            p.id_watch,
            times[failures as int],
        ),
{
    let fails = Seq::new(failures, |i: int| false);
    let outcomes = fails.push(true);
    assert(outcomes.drop_last() =~= fails);
    lemma_failures_change_nothing(s, p, fails, times.subrange(0, failures as int));
}

/// Settling one subscription's pending item leaves every other subscription,
/// and the alert facts of every other subscription, as they were.
pub proof fn law_independent_subscriptions(s: LedgerState, p: PendingView, delivered: bool, t: Timestamp, id_release: Seq<char>, other: i32)
    requires
        other != p.id_watch,
    ensures
        settle(s, p, delivered, t).alerted(id_release, other) == s.alerted(id_release, other),
        settle(s, p, delivered, t).watches.len() == s.watches.len(),
        forall|i: int| 0 <= i < s.watches.len() && s.watches[i].id != p.id_watch ==> #[trigger] settle(
            s,
            p,
            delivered,
            t,
        ).watches[i] == s.watches[i],
{
    let s1 = settle(s, p, delivered, t);
    if s1 != s {
        assert(s1.alerts == s.alerts.push((p.id_release, p.id_watch)));
        if s.alerted(id_release, other) {
            let k = choose|k: int| 0 <= k < s.alerts.len() && s.alerts[k] == (id_release, other);
            assert(s1.alerts[k] == (id_release, other));
        }
        if s1.alerted(id_release, other) {
            let k = choose|k: int| 0 <= k < s1.alerts.len() && s1.alerts[k] == (id_release, other);
            assert(k < s.alerts.len());
            assert(s.alerts[k] == (id_release, other));
        }
    }
}

} // verus!
