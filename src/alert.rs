use vstd::prelude::*;

use crate::clock::now_epoch_seconds;
use crate::model::{record_alert, Ledger, LedgerState, StoreError};
use crate::schema::{PendingView, PendingWatchAlert, Timestamp};

verus! {

/// The name shown as the author of every alert.
pub const AUTHOR_NAME: &'static str = "Spotlit";

/// The icon shown beside the author name.
pub const AUTHOR_ICON_URL: &'static str = "https://i.imgur.com/sNciPWx.png";

/// The start of every alert title; the release name follows.
pub const TITLE_PREFIX: &'static str = "New Spotify release: ";

/// The accent colour of an alert, as 0xRRGGBB: (30, 215, 96).
pub const ALERT_COLOR: u32 = 0x1ED760;

/// One labelled field of an alert message.
pub struct EmbedField {
    pub name: String,
    pub value: String,
    pub inline: bool,
}

/// The message sent to a subscription's channel about one release.
pub struct AlertMessage {
    pub author_name: String,
    pub author_icon_url: String,
    pub title: String,
    pub image_url: String,
    pub url: String,
    pub color: u32,
    pub fields: Vec<EmbedField>,
}

/// What the dispatcher does with a pending alert.
pub enum AlertAction {
    /// A subscription that is not initialized yet catches up without a message.
    SeedSilently,
    /// Send this message, then record the alert only if delivery succeeded.
    Deliver(AlertMessage),
}

/// How a pending alert was settled.
#[derive(Debug, Clone, Copy, PartialEq, Eq, Structural)]
pub enum Resolution {
    /// Recorded without a message: the subscription's first pending item.
    Seeded,
    /// Delivered and recorded.
    Delivered,
    /// Delivery failed: nothing recorded, the item stays pending.
    Retry,
}

/// The label shown for a release type; unknown types are shown as they are.
pub open spec fn type_label_of(album_type: Seq<char>) -> Seq<char> {
    if album_type == "album"@ {
        "Album"@
    } else if album_type == "single"@ {
        "Single/EP"@
    } else if album_type == "compilation"@ {
        "Compilation"@
    } else {
        album_type
    }
}

/// The names with `sep` between each two neighbours.
pub open spec fn joined(names: Seq<Seq<char>>, sep: Seq<char>) -> Seq<char>
    decreases names.len(),
{
    if names.len() == 0 {
        Seq::empty()
    } else if names.len() == 1 {
        names[0]
    } else {
        joined(names.drop_last(), sep) + sep + names.last()
    }
}

pub open spec fn field_view(f: EmbedField) -> (Seq<char>, Seq<char>, bool) {
    (f.name@, f.value@, f.inline)
}

/// The message about a pending alert: titled after the release, showing its
/// artwork and linking to it, with the artists joined by ", ", the type label
/// and the release date.
pub open spec fn is_message_for(m: AlertMessage, p: PendingView) -> bool {
    &&& m.author_name@ == AUTHOR_NAME@
    &&& m.author_icon_url@ == AUTHOR_ICON_URL@
    &&& m.title@ == TITLE_PREFIX@ + p.name
    &&& m.image_url@ == p.image_url
    &&& m.url@ == p.href
    &&& m.color == ALERT_COLOR
    &&& m.fields@.map_values(|f: EmbedField| field_view(f)) == seq![
        ("Artists"@, joined(p.artist_names, ", "@), false),
        ("Type"@, type_label_of(p.album_type), true),
        ("Released"@, p.release_date, true),
    ]
}

/// How an alert is settled: silently when the subscription is not initialized,
/// otherwise by the delivery outcome.
pub open spec fn resolution_of(has_initialized: bool, delivered: bool) -> Resolution {
    if !has_initialized {
        Resolution::Seeded
    } else if delivered {
        Resolution::Delivered
    } else {
        Resolution::Retry
    }
}

/// The state after settling pending alert `p` with the given delivery outcome
/// at time `t`: a seed or a delivery records the alert fact and initializes the
/// subscription in one step; a failed delivery changes nothing.
pub open spec fn settle(s: LedgerState, p: PendingView, delivered: bool, t: Timestamp) -> LedgerState {
    if resolution_of(p.has_initialized, delivered) == Resolution::Retry || s.alerted(p.id_release, p.id_watch) {
        s
    } else {
        s.record_alert(p.id_release, p.id_watch, t)
    }
}

/// The label shown for a release type.
pub fn type_label(album_type: &str) -> (r: String)
    ensures
        r@ == type_label_of(album_type@),
{
    let t = album_type.to_owned();
    if t == String::from_str("album") {
        String::from_str("Album")
    } else if t == String::from_str("single") {
        String::from_str("Single/EP")
    } else if t == String::from_str("compilation") {
        String::from_str("Compilation")
    } else {
        t
    }
}

/// The names with `sep` between each two neighbours.
pub fn join_names(names: &Vec<String>, sep: &str) -> (r: String)
    ensures
        r@ == joined(names.deep_view(), sep@),
{
    let mut r = String::new();
    let mut i: usize = 0;
    while i < names.len()
        invariant
            i <= names@.len(),
            r@ == joined(names.deep_view().subrange(0, i as int), sep@),
        decreases names@.len() - i,
    {
        let ghost prefix = names.deep_view().subrange(0, i as int);
        let ghost next = names.deep_view().subrange(0, i + 1);
        assert(next.drop_last() =~= prefix);
        assert(next.last() == names[i as int]@);
        if i > 0 {
            r.append(sep);
        } else {
            assert(r@ =~= Seq::<char>::empty());
        }
        r.append(names[i].as_str());
        i = i + 1;
    }
    assert(names.deep_view().subrange(0, names@.len() as int) =~= names.deep_view());
    r
}

/// The message about a pending alert.
pub fn alert_message(item: &PendingWatchAlert) -> (r: AlertMessage)
    ensures
        is_message_for(r, item@),
{
    let fields = vec![
        EmbedField {
            name: String::from_str("Artists"),
            value: join_names(&item.artist_names, ", "),
            inline: false,
        },
        EmbedField { name: String::from_str("Type"), value: type_label(item.album_type.as_str()), inline: true },
        EmbedField { name: String::from_str("Released"), value: item.release_date.clone(), inline: true },
    ];
    let r = AlertMessage {
        author_name: String::from_str(AUTHOR_NAME),
        author_icon_url: String::from_str(AUTHOR_ICON_URL),
        title: String::from_str(TITLE_PREFIX).concat(item.name.as_str()),
        image_url: item.image_url.clone(),
        url: item.href.clone(),
        color: ALERT_COLOR,
        fields,
    };
    assert(r.fields@.map_values(|f: EmbedField| field_view(f)) =~= seq![
        ("Artists"@, joined(item@.artist_names, ", "@), false),
        ("Type"@, type_label_of(item@.album_type), true),
        ("Released"@, item@.release_date, true),
    ]);
    r
}

/// What to do with a pending alert: seed it silently when the subscription is
/// not initialized, otherwise deliver its message.
pub fn plan_alert(item: &PendingWatchAlert) -> (r: AlertAction)
    ensures
        !item.has_initialized ==> r is SeedSilently,
        item.has_initialized ==> r is Deliver && is_message_for(r->Deliver_0, item@),
{
    if !item.has_initialized {
        AlertAction::SeedSilently
    } else {
        AlertAction::Deliver(alert_message(item))
    }
}

/// How a pending alert is settled, given whether its message was delivered.
pub fn resolve(has_initialized: bool, delivered: bool) -> (r: Resolution)
    ensures
        r == resolution_of(has_initialized, delivered),
{
    if !has_initialized {
        Resolution::Seeded
    } else if delivered {
        Resolution::Delivered
    } else {
        Resolution::Retry
    }
}

/// Settles a pending alert at time `now`. A seed or a successful delivery
/// records the alert fact and initializes the subscription in one step; an
/// alert fact that already exists is refused and nothing changes; a failed
/// delivery changes nothing and leaves the item pending.
pub fn settle_alert(ledger: &mut Ledger, item: &PendingWatchAlert, delivered: bool, now: Timestamp) -> (r: Result<
    Resolution,
    StoreError,
>)
    requires
        old(ledger)@.wf(),
    ensures
        final(ledger)@.wf(),
        final(ledger)@ == settle(old(ledger)@, item@, delivered, now),
        resolution_of(item.has_initialized, delivered) != Resolution::Retry && old(ledger)@.alerted(
            item@.id_release,
            item.id_watch,
        ) ==> r == Err::<Resolution, StoreError>(StoreError::DuplicateAlert),
        !(resolution_of(item.has_initialized, delivered) != Resolution::Retry && old(ledger)@.alerted(
            item@.id_release,
            item.id_watch,
        )) ==> r == Ok::<Resolution, StoreError>(resolution_of(item.has_initialized, delivered)),
{
    let resolution = resolve(item.has_initialized, delivered);
    match resolution {
        Resolution::Retry => Ok(Resolution::Retry),
        _ => match record_alert(ledger, item.id_release.as_str(), item.id_watch, now) {
            Ok(()) => Ok(resolution),
            Err(e) => Err(e),
        },
    }
}

/// Settles a pending alert as of the current time: the store changes as
/// [`settle_alert`] says for some instant no earlier than the epoch.
pub fn settle_alert_now(ledger: &mut Ledger, item: &PendingWatchAlert, delivered: bool) -> (r: Result<
    Resolution,
    StoreError,
>)
    requires
        old(ledger)@.wf(),
    ensures
        final(ledger)@.wf(),
        exists|t: Timestamp| t >= 0 && final(ledger)@ == settle(old(ledger)@, item@, delivered, t),
        resolution_of(item.has_initialized, delivered) != Resolution::Retry && old(ledger)@.alerted(
            item@.id_release,
            item.id_watch,
        ) ==> r == Err::<Resolution, StoreError>(StoreError::DuplicateAlert),
        !(resolution_of(item.has_initialized, delivered) != Resolution::Retry && old(ledger)@.alerted(
            item@.id_release,
            item.id_watch,
        )) ==> r == Ok::<Resolution, StoreError>(resolution_of(item.has_initialized, delivered)),
{
    let now = now_epoch_seconds();
    settle_alert(ledger, item, delivered, now)
}

/// The state after settling the first `n` items in order, all at time `t`.
pub open spec fn settle_prefix(s: LedgerState, items: Seq<PendingView>, delivered: Seq<bool>, t: Timestamp, n: int) -> LedgerState
    decreases n,
{
    if n <= 0 {
        s
    } else {
        settle(settle_prefix(s, items, delivered, t, n - 1), items[n - 1], delivered[n - 1], t)
    }
}

/// The result of settling pending alert `p` with the given outcome in state `s`.
pub open spec fn settle_result(s: LedgerState, p: PendingView, delivered: bool) -> Result<Resolution, StoreError> {
    if resolution_of(p.has_initialized, delivered) != Resolution::Retry && s.alerted(p.id_release, p.id_watch) {
        Err(StoreError::DuplicateAlert)
    } else {
        Ok(resolution_of(p.has_initialized, delivered))
    }
}

/// Settles a batch of pending alerts in order at time `now`, the `i`-th with
/// delivery outcome `delivered[i]`, and returns one result per item: a failure
/// on one item does not stop the others.
pub fn settle_batch(
    ledger: &mut Ledger,
    items: &Vec<PendingWatchAlert>,
    delivered: &Vec<bool>,
    now: Timestamp,
) -> (r: Vec<Result<Resolution, StoreError>>)
    requires
        old(ledger)@.wf(),
        delivered@.len() == items@.len(),
    ensures
        final(ledger)@.wf(),
        final(ledger)@ == settle_prefix(
            old(ledger)@,
            items@.map_values(|p: PendingWatchAlert| p@),
            delivered@,
            now,
            items@.len() as int,
        ),
        r@.len() == items@.len(),
        forall|i: int| 0 <= i < items@.len() ==> #[trigger] r@[i] == settle_result(
            settle_prefix(old(ledger)@, items@.map_values(|p: PendingWatchAlert| p@), delivered@, now, i),
            items@[i]@,
            delivered@[i],
        ),
{
    let ghost views = items@.map_values(|p: PendingWatchAlert| p@);
    let mut r: Vec<Result<Resolution, StoreError>> = Vec::new();
    let mut i: usize = 0;
    while i < items.len()
        invariant
            i <= items@.len(),
            delivered@.len() == items@.len(),
            views == items@.map_values(|p: PendingWatchAlert| p@),
            r@.len() == i,
            ledger@.wf(),
            ledger@ == settle_prefix(old(ledger)@, views, delivered@, now, i as int),
            forall|k: int| 0 <= k < i ==> #[trigger] r@[k] == settle_result(
                settle_prefix(old(ledger)@, views, delivered@, now, k),
                items@[k]@,
                delivered@[k],
            ),
        decreases items@.len() - i,
    {
        assert(views[i as int] == items@[i as int]@);
        let res = settle_alert(ledger, &items[i], delivered[i], now);
        r.push(res);
        i = i + 1;
    }
    r
}

} // verus!
