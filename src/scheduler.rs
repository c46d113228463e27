use vstd::prelude::*;

verus! {

/// The shortest time between the starts of two cycles, in seconds.
pub const FIXED_PERIOD_SECONDS: u64 = 180;

/// How long to wait before retrying a cycle whose listing step failed, in seconds.
pub const FAILURE_BACKOFF_SECONDS: u64 = 60;

/// The timing of the polling loop.
pub struct WorkerConfig {
    pub poll_period_seconds: u64,
    pub failure_backoff_seconds: u64,
}

impl WorkerConfig {
    /// The usual timing: a 180 s period and a 60 s backoff.
    pub fn standard() -> (r: WorkerConfig)
        ensures
            r.poll_period_seconds == FIXED_PERIOD_SECONDS,
            r.failure_backoff_seconds == FAILURE_BACKOFF_SECONDS,
    {
        WorkerConfig { poll_period_seconds: FIXED_PERIOD_SECONDS, failure_backoff_seconds: FAILURE_BACKOFF_SECONDS }
    }
}

/// Where the loop is within a cycle.
#[derive(Debug, Clone, Copy, PartialEq, Eq, Structural)]
pub enum WorkerPhase {
    /// Waiting for the list of watched artists.
    ListingArtists,
    /// Waiting for every watched artist to be scanned.
    ScanningArtists,
    /// Waiting for the pending alerts to be listed and settled.
    DispatchingAlerts,
}

/// What the outside work of the current phase came back with.
#[derive(Debug, Clone, Copy, PartialEq, Eq, Structural)]
pub enum WorkerEvent {
    /// Listing the watched artists succeeded or failed.
    ArtistsListed(bool),
    /// Every artist was scanned; failures of single artists do not count here.
    ArtistsScanned,
    /// Listing the pending alerts and settling them succeeded or failed; the
    /// cycle had taken `elapsed_secs` seconds since it started.
    AlertsDispatched { ok: bool, elapsed_secs: u64 },
}

/// What the loop is to do next.
#[derive(Debug, Clone, Copy, PartialEq, Eq, Structural)]
pub enum WorkerAction {
    /// Start a cycle now by listing the watched artists.
    ListArtists,
    /// Scan every listed artist.
    ScanArtists,
    /// List and settle the pending alerts.
    DispatchAlerts,
    /// Sleep this many seconds, then start a cycle.
    SleepThenListArtists(u64),
}

/// How long to sleep after a cycle that took `elapsed_secs`: what is left of
/// the period, or nothing when the cycle took the whole period or longer.
pub fn sleep_after_cycle(elapsed_secs: u64, period_secs: u64) -> (r: u64)
    ensures
        elapsed_secs < period_secs ==> r == period_secs - elapsed_secs,
        elapsed_secs >= period_secs ==> r == 0,
{
    if elapsed_secs < period_secs {
        period_secs - elapsed_secs
    } else {
        0
    }
}

/// The next phase and action of the polling loop. A successful step moves to
/// the next one; a failed listing sleeps for the backoff and starts the cycle
/// over; a finished cycle sleeps what is left of the period, or starts the
/// next cycle at once when nothing is left. An event that does not belong to
/// the phase starts the cycle over.
pub fn next_step(phase: WorkerPhase, event: WorkerEvent, config: &WorkerConfig) -> (r: (WorkerPhase, WorkerAction))
    ensures
        phase == WorkerPhase::ListingArtists && event == WorkerEvent::ArtistsListed(true) ==> r == (
        WorkerPhase::ScanningArtists,
        WorkerAction::ScanArtists,
        ),
        phase == WorkerPhase::ListingArtists && event == WorkerEvent::ArtistsListed(false) ==> r == (
        WorkerPhase::ListingArtists,
        WorkerAction::SleepThenListArtists(config.failure_backoff_seconds),
        ),
        phase == WorkerPhase::ScanningArtists && event == WorkerEvent::ArtistsScanned ==> r == (
        WorkerPhase::DispatchingAlerts,
        WorkerAction::DispatchAlerts,
        ),
        forall|e: u64|
            phase == WorkerPhase::DispatchingAlerts && event == (WorkerEvent::AlertsDispatched {
                ok: false,
                elapsed_secs: e,
            }) ==> r == (
            WorkerPhase::ListingArtists,
            WorkerAction::SleepThenListArtists(config.failure_backoff_seconds),
            ),
        forall|e: u64|
            phase == WorkerPhase::DispatchingAlerts && event == (WorkerEvent::AlertsDispatched {
                ok: true,
                elapsed_secs: e,
            }) && e < config.poll_period_seconds ==> r == (
            WorkerPhase::ListingArtists,
            WorkerAction::SleepThenListArtists((config.poll_period_seconds - e) as u64),
            ),
        forall|e: u64|
            phase == WorkerPhase::DispatchingAlerts && event == (WorkerEvent::AlertsDispatched {
                ok: true,
                elapsed_secs: e,
            }) && e >= config.poll_period_seconds ==> r == (WorkerPhase::ListingArtists, WorkerAction::ListArtists),
        !(phase == WorkerPhase::ListingArtists && event is ArtistsListed) && !(phase
            == WorkerPhase::ScanningArtists && event is ArtistsScanned) && !(phase == WorkerPhase::DispatchingAlerts
            && event is AlertsDispatched) ==> r == (WorkerPhase::ListingArtists, WorkerAction::ListArtists),
{
    match (phase, event) {
        (WorkerPhase::ListingArtists, WorkerEvent::ArtistsListed(true)) => (
            WorkerPhase::ScanningArtists,
            WorkerAction::ScanArtists,
        ),
        (WorkerPhase::ListingArtists, WorkerEvent::ArtistsListed(false)) => (
            WorkerPhase::ListingArtists,
            WorkerAction::SleepThenListArtists(config.failure_backoff_seconds),
        ),
        (WorkerPhase::ScanningArtists, WorkerEvent::ArtistsScanned) => (
            WorkerPhase::DispatchingAlerts,
            WorkerAction::DispatchAlerts,
        ),
        (WorkerPhase::DispatchingAlerts, WorkerEvent::AlertsDispatched { ok, elapsed_secs }) => {
            if !ok {
                (WorkerPhase::ListingArtists, WorkerAction::SleepThenListArtists(config.failure_backoff_seconds))
            } else {
                let wait = sleep_after_cycle(elapsed_secs, config.poll_period_seconds);
                if wait > 0 {
                    (WorkerPhase::ListingArtists, WorkerAction::SleepThenListArtists(wait))
                } else {
                    (WorkerPhase::ListingArtists, WorkerAction::ListArtists)
                }
            }
        },
        _ => (WorkerPhase::ListingArtists, WorkerAction::ListArtists),
    }
}

} // verus!
