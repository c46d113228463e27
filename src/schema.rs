use vstd::prelude::*;

verus! {

/// Instants are whole seconds since the Unix epoch.
pub type Timestamp = i64;

/// A subscription: one server watching one artist, with alerts going to one channel.
pub struct Watch {
    pub id: i32,
    pub time_created: Timestamp,
    pub id_created_by: u64,
    pub id_server: u64,
    pub id_alert_channel: u64,
    pub id_artist: String,
    pub market: String,
    pub has_initialized: bool,
    pub time_last_scanned: Timestamp,
}

/// A release as recorded in the ledger at first observation.
pub struct ArtistRelease {
    pub id_release: String,
    pub id_artist: String,
    pub time_first_seen: Timestamp,
    pub artist_ids: Vec<String>,
    pub artist_names: Vec<String>,
    pub album_type: String,
    pub available_markets: Vec<String>,
    pub href: String,
    pub image_url: String,
    pub name: String,
    pub release_date: String,
    pub release_date_precision: String,
}

/// The oldest release a subscription has not been alerted about, joined with
/// the subscription's delivery data.
pub struct PendingWatchAlert {
    pub id_watch: i32,
    pub has_initialized: bool,
    pub id_server: u64,
    pub id_alert_channel: u64,
    pub market: String,
    pub id_release: String,
    pub artist_names: Vec<String>,
    pub album_type: String,
    pub href: String,
    pub image_url: String,
    pub name: String,
    pub release_date: String,
}

/// What a release record holds, with every string as its characters.
pub struct ReleaseView {
    pub id_release: Seq<char>,
    pub id_artist: Seq<char>,
    pub time_first_seen: Timestamp,
    pub artist_ids: Seq<Seq<char>>,
    pub artist_names: Seq<Seq<char>>,
    pub album_type: Seq<char>,
    pub available_markets: Seq<Seq<char>>,
    pub href: Seq<char>,
    pub image_url: Seq<char>,
    pub name: Seq<char>,
    pub release_date: Seq<char>,
    pub release_date_precision: Seq<char>,
}

impl View for ArtistRelease {
    type V = ReleaseView;

    open spec fn view(&self) -> ReleaseView {
        ReleaseView {
            id_release: self.id_release@,
            id_artist: self.id_artist@,
            time_first_seen: self.time_first_seen,
            artist_ids: self.artist_ids.deep_view(),
            artist_names: self.artist_names.deep_view(),
            album_type: self.album_type@,
            available_markets: self.available_markets.deep_view(),
            href: self.href@,
            image_url: self.image_url@,
            name: self.name@,
            release_date: self.release_date@,
            release_date_precision: self.release_date_precision@,
        }
    }
}

/// What a pending alert holds, with every string as its characters.
pub struct PendingView {
    pub id_watch: i32,
    pub has_initialized: bool,
    pub id_server: u64,
    pub id_alert_channel: u64,
    pub market: Seq<char>,
    pub id_release: Seq<char>,
    pub artist_names: Seq<Seq<char>>,
    pub album_type: Seq<char>,
    pub href: Seq<char>,
    pub image_url: Seq<char>,
    pub name: Seq<char>,
    pub release_date: Seq<char>,
}

impl View for PendingWatchAlert {
    type V = PendingView;

    open spec fn view(&self) -> PendingView {
        PendingView {
            id_watch: self.id_watch,
            has_initialized: self.has_initialized,
            id_server: self.id_server,
            id_alert_channel: self.id_alert_channel,
            market: self.market@,
            id_release: self.id_release@,
            artist_names: self.artist_names.deep_view(),
            album_type: self.album_type@,
            href: self.href@,
            image_url: self.image_url@,
            name: self.name@,
            release_date: self.release_date@,
        }
    }
}

/// Clones a list of strings, keeping every element.
pub fn clone_strings(v: &Vec<String>) -> (r: Vec<String>)
    ensures
        r@ == v@,
        r.deep_view() == v.deep_view(),
{
    let mut r: Vec<String> = Vec::new();
    let mut i: usize = 0;
    while i < v.len()
        invariant
            i <= v@.len(),
            r@ == v@.subrange(0, i as int),
        decreases v@.len() - i,
    {
        r.push(v[i].clone());
        i = i + 1;
        assert(r@ =~= v@.subrange(0, i as int));
    }
    assert(r@ =~= v@);
    assert(r.deep_view() =~= v.deep_view());
    r
}

impl Watch {
    /// A copy of the subscription, equal field for field.
    pub fn duplicate(&self) -> (r: Watch)
        ensures
            r == *self,
    {
        Watch {
            id: self.id,
            time_created: self.time_created,
            id_created_by: self.id_created_by,
            id_server: self.id_server,
            id_alert_channel: self.id_alert_channel,
            id_artist: self.id_artist.clone(),
            market: self.market.clone(),
            has_initialized: self.has_initialized,
            time_last_scanned: self.time_last_scanned,
        }
    }
}

impl ArtistRelease {
    /// A copy of the release record with the same contents.
    pub fn duplicate(&self) -> (r: ArtistRelease)
        ensures
            r@ == self@,
    {
        ArtistRelease {
            id_release: self.id_release.clone(),
            id_artist: self.id_artist.clone(),
            time_first_seen: self.time_first_seen,
            artist_ids: clone_strings(&self.artist_ids),
            artist_names: clone_strings(&self.artist_names),
            album_type: self.album_type.clone(),
            available_markets: clone_strings(&self.available_markets),
            href: self.href.clone(),
            image_url: self.image_url.clone(),
            name: self.name.clone(),
            release_date: self.release_date.clone(),
            release_date_precision: self.release_date_precision.clone(),
        }
    }
}

} // verus!
