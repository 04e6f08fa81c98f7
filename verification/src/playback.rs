//! Where a listening party stands: from the time it started and the running
//! times of its tracks, which track is playing and how far into it.
//!
//! Instants are milliseconds since the Unix epoch (`i64`), running times are
//! milliseconds (`u64`). An elapsed time plus a look-ahead may exceed 64 bits,
//! so time past the end of the last track is a `u128`.

use vstd::prelude::*;
use crate::outside::current_millis;
use crate::text::{join, joined, texts};

verus! {

/// One track of an album or playlist.
#[derive(Debug)]
pub struct TrackInfo {
    /// Position in the album or playlist, counted from one.
    pub number: usize,
    pub name: String,
    pub uri: Option<String>,
    /// Running time in milliseconds.
    pub duration: u64,
}

/// The running times of `tracks`, in play order.
pub open spec fn durations(tracks: Seq<TrackInfo>) -> Seq<u64> {
    Seq::new(tracks.len(), |i: int| tracks[i].duration)
}

/// Time at which track `n` begins, counted from the start of the first
/// track: the sum of the running times of the tracks before it. With
/// `n == durations.len()` this is the total running time.
pub open spec fn elapsed_before(durations: Seq<u64>, n: int) -> int
    decreases n,
{
    if n <= 0 {
        0
    } else {
        elapsed_before(durations, n - 1) + durations[n - 1] as int
    }
}

/// Total running time of `durations`.
pub open spec fn total_time(durations: Seq<u64>) -> int {
    elapsed_before(durations, durations.len() as int)
}

/// Whether `elapsed` falls inside track `k`: at or after its beginning and
/// strictly before its end.
pub open spec fn falls_in_track(durations: Seq<u64>, k: int, elapsed: int) -> bool {
    &&& 0 <= k < durations.len()
    &&& elapsed_before(durations, k) <= elapsed < elapsed_before(durations, k + 1)
}

/// State of a listening party, over indices and mathematical integers.
pub enum Playback {
    NotStarted,
    /// The last track ended `late` milliseconds ago.
    Finished { late: int },
    /// Track `index` (counted from zero) is `position` milliseconds in.
    Playing { index: int, position: int },
}

/// State `elapsed` milliseconds after the first track began.
pub open spec fn playback_after(durations: Seq<u64>, elapsed: int) -> Playback {
    if elapsed >= total_time(durations) {
        Playback::Finished { late: elapsed - total_time(durations) }
    } else {
        let k = choose|k: int| falls_in_track(durations, k, elapsed);
        Playback::Playing { index: k, position: elapsed - elapsed_before(durations, k) }
    }
}

/// State at instant `now`, looking `offset` milliseconds ahead, of a party
/// that started at `started`. A start that lies after `now` counts as not
/// started.
pub open spec fn playback_at(
    durations: Seq<u64>,
    started: Option<i64>,
    now: i64,
    offset: u64,
) -> Playback {
    match started {
        None => Playback::NotStarted,
        Some(t0) => if t0 > now {
            Playback::NotStarted
        } else {
            playback_after(durations, now - t0 + offset)
        },
    }
}

/// Track beginnings never decrease along the list.
pub proof fn lemma_elapsed_before_monotonic(durations: Seq<u64>, i: int, j: int)
    requires
        0 <= i <= j,
    ensures
        0 <= elapsed_before(durations, i) <= elapsed_before(durations, j),
    decreases j,
{
    if j > 0 {
        if i < j {
            lemma_elapsed_before_monotonic(durations, i, j - 1);
        } else {
            lemma_elapsed_before_monotonic(durations, i - 1, j - 1);
        }
    }
}

/// The total running time of `n` tracks stays under `n * 2^64`.
pub proof fn lemma_elapsed_before_bound(durations: Seq<u64>, n: int)
    requires
        0 <= n,
    ensures
        elapsed_before(durations, n) <= n * 0xffff_ffff_ffff_ffff,
    decreases n,
{
    if n > 0 {
        lemma_elapsed_before_bound(durations, n - 1);
    }
}

/// An elapsed time falls in at most one track.
pub proof fn lemma_track_unique(durations: Seq<u64>, j: int, k: int, elapsed: int)
    requires
        falls_in_track(durations, j, elapsed),
        falls_in_track(durations, k, elapsed),
    ensures
        j == k,
{
    if j < k {
        lemma_elapsed_before_monotonic(durations, j + 1, k);
    } else if k < j {
        lemma_elapsed_before_monotonic(durations, k + 1, j);
    }
}

/// Before the total running time is up, the elapsed time falls in a track.
pub proof fn lemma_track_exists(durations: Seq<u64>, elapsed: int) -> (k: int)
    requires
        0 <= elapsed < total_time(durations),
    ensures
        falls_in_track(durations, k, elapsed),
{
    lemma_scan(durations, durations.len() as int, elapsed)
}

proof fn lemma_scan(durations: Seq<u64>, n: int, elapsed: int) -> (k: int)
    requires
        0 <= n <= durations.len(),
        0 <= elapsed < elapsed_before(durations, n),
    ensures
        falls_in_track(durations, k, elapsed),
        k < n,
    decreases n,
{
    if elapsed_before(durations, n - 1) <= elapsed {
        n - 1
    } else {
        lemma_scan(durations, n - 1, elapsed)
    }
}

/// While a party is running, `playback_after` names the one track that the
/// elapsed time falls in, and the time since that track began.
pub proof fn lemma_playing(durations: Seq<u64>, k: int, elapsed: int)
    requires
        falls_in_track(durations, k, elapsed),
    ensures
        playback_after(durations, elapsed) == (Playback::Playing {
            index: k,
            position: elapsed - elapsed_before(durations, k),
        }),
{
    lemma_elapsed_before_monotonic(durations, k + 1, durations.len() as int);
    let c = choose|c: int| falls_in_track(durations, c, elapsed);
    lemma_track_unique(durations, c, k, elapsed);
}

/// Which album or playlist a listening party plays.
#[derive(Debug)]
pub enum PlaylistInfo {
    AlbumInfo { id: String, artist: String, name: String, uri: Option<String> },
    PlaylistInfo { id: String, name: String, uri: Option<String> },
}

/// What is known about the listening party of one channel.
#[derive(Debug)]
pub struct LPInfo {
    playlist: PlaylistInfo,
    tracks: Vec<TrackInfo>,
    /// If and when the party has started.
    started: Option<i64>,
}

/// Mathematical content of an `LPInfo`.
pub ghost struct LPInfoView {
    pub playlist: PlaylistInfo,
    pub tracks: Seq<TrackInfo>,
    pub started: Option<i64>,
}

impl View for LPInfo {
    type V = LPInfoView;

    closed spec fn view(&self) -> LPInfoView {
        LPInfoView { playlist: self.playlist, tracks: self.tracks@, started: self.started }
    }
}

impl LPInfoView {
    /// State of the party at `now`, looking `offset` milliseconds ahead.
    pub open spec fn playback_at(self, now: i64, offset: u64) -> Playback {
        playback_at(durations(self.tracks), self.started, now, offset)
    }
}

/// State of a listening party as handed to callers.
#[derive(Debug)]
pub enum PlayState<'a> {
    NotStarted,
    /// How long ago the last track ended, in milliseconds.
    Finished(u128),
    Playing {
        track: &'a TrackInfo,
        /// Current position in the track, in milliseconds.
        position: u64,
    },
}

impl<'a> PlayState<'a> {
    /// Whether this value presents `playback` for the track list `tracks`.
    pub open spec fn shows(self, tracks: Seq<TrackInfo>, playback: Playback) -> bool {
        match self {
            PlayState::NotStarted => playback == Playback::NotStarted,
            PlayState::Finished(late) => playback == (Playback::Finished { late: late as int }),
            PlayState::Playing { track, position } => {
                &&& playback is Playing
                &&& 0 <= playback->index < tracks.len()
                &&& *track == tracks[playback->index]
                &&& playback->position == position as int
            },
        }
    }
}

impl LPInfo {
    /// A party that has not started.
    pub fn new(playlist: PlaylistInfo, tracks: Vec<TrackInfo>) -> (info: LPInfo)
        ensures
            info@ == (LPInfoView { playlist, tracks: tracks@, started: None }),
    {
        LPInfo { playlist, tracks, started: None }
    }

    pub fn playlist(&self) -> (playlist: &PlaylistInfo)
        ensures
            *playlist == self@.playlist,
    {
        &self.playlist
    }

    pub fn tracks(&self) -> (tracks: &Vec<TrackInfo>)
        ensures
            tracks@ == self@.tracks,
    {
        &self.tracks
    }

    pub fn started(&self) -> (started: Option<i64>)
        ensures
            started == self@.started,
    {
        self.started
    }

    /// The same party as not started.
    pub fn unstarted(self) -> (info: LPInfo)
        ensures
            info@ == (LPInfoView { started: None, ..self@ }),
    {
        LPInfo { playlist: self.playlist, tracks: self.tracks, started: None }
    }

    /// Records that the party started at `now`.
    pub fn start(&mut self, now: i64)
        ensures
            final(self)@ == (LPInfoView { started: Some(now), ..old(self)@ }),
    {
        self.started = Some(now);
    }

    /// Calculates which track is playing `offset` milliseconds after `now`.
    pub fn now_playing_at(&self, now: i64, offset: u64) -> (state: PlayState<'_>)
        ensures
            state.shows(self@.tracks, self@.playback_at(now, offset)),
    {
        let started = match self.started {
            None => {
                return PlayState::NotStarted;
            },
            Some(started) => started,
        };
        if started > now {
            return PlayState::NotStarted;
        }
        let ghost lengths = durations(self.tracks@);
        let elapsed: u128 = (now as i128 - started as i128) as u128 + offset as u128;
        let mut remain: u128 = elapsed;
        let mut i: usize = 0;
        while i < self.tracks.len()
            invariant
                i <= self.tracks.len(),
                lengths == durations(self.tracks@),
                self.started == Some(started),
                started <= now,
                elapsed == now - started + offset,
                remain == elapsed - elapsed_before(lengths, i as int),
            decreases self.tracks.len() - i,
        {
            let track = &self.tracks[i];
            if track.duration as u128 > remain {
                proof {
                    lemma_elapsed_before_monotonic(lengths, 0, i as int);
                    lemma_playing(lengths, i as int, elapsed as int);
                }
                return PlayState::Playing { track, position: remain as u64 };
            }
            remain = remain - track.duration as u128;
            i = i + 1;
        }
        PlayState::Finished(remain)
    }

    /// Calculates which track is playing `offset` milliseconds from now, by
    /// the wall clock.
    pub fn now_playing(&self, offset: u64) -> (state: PlayState<'_>)
        ensures
            exists|now: i64| #[trigger] state.shows(self@.tracks, self@.playback_at(now, offset)),
            self@.started is None ==> state is NotStarted,
    {
        let now = current_millis();
        self.now_playing_at(now, offset)
    }
}

/// What a music service reports of one track.
#[derive(Debug)]
pub struct TrackData {
    pub name: String,
    pub uri: Option<String>,
    /// Running time in milliseconds.
    pub duration: u64,
}

/// The track reported as `data`, at position `number`.
pub open spec fn track_numbered(number: int, data: TrackData) -> TrackInfo {
    TrackInfo { number: number as usize, name: data.name, uri: data.uri, duration: data.duration }
}

/// The tracks of an album: all that were reported, numbered from one.
pub open spec fn album_tracks(reported: Seq<TrackData>) -> Seq<TrackInfo> {
    Seq::new(reported.len(), |i: int| track_numbered(i + 1, reported[i]))
}

/// The tracks of a playlist: the entries that hold a track, each under the
/// number of its entry, counted from one over all entries.
pub open spec fn playlist_tracks(entries: Seq<Option<TrackData>>) -> Seq<TrackInfo>
    decreases entries.len(),
{
    if entries.len() == 0 {
        Seq::empty()
    } else {
        let before = playlist_tracks(entries.drop_last());
        match entries.last() {
            Some(data) => before.push(track_numbered(entries.len() as int, data)),
            None => before,
        }
    }
}

fn clone_uri(uri: &Option<String>) -> (copy: Option<String>)
    ensures
        copy == *uri,
{
    match uri {
        Some(uri) => Some(uri.clone()),
        None => None,
    }
}

fn number_track(number: usize, data: &TrackData) -> (track: TrackInfo)
    ensures
        track == track_numbered(number as int, *data),
{
    TrackInfo {
        number,
        name: data.name.clone(),
        uri: clone_uri(&data.uri),
        duration: data.duration,
    }
}

impl LPInfo {
    /// The party of an album as a music service reports it: its artists are
    /// listed with commas between them, its tracks are numbered from one.
    pub fn from_spotify_album(
        id: String,
        artists: &Vec<String>,
        name: String,
        uri: Option<String>,
        reported: &Vec<TrackData>,
    ) -> (info: LPInfo)
        ensures
            info@.started is None,
            info@.tracks == album_tracks(reported@),
            info@.playlist matches PlaylistInfo::AlbumInfo {
                id: album_id,
                artist,
                name: album_name,
                uri: album_uri,
            } && album_id == id && artist@ == joined(texts(artists@), ", "@) && album_name == name
                && album_uri == uri,
    {
        let mut tracks: Vec<TrackInfo> = Vec::new();
        let mut i: usize = 0;
        while i < reported.len()
            invariant
                i <= reported.len(),
                tracks@ == album_tracks(reported@.take(i as int)),
            decreases reported.len() - i,
        {
            tracks.push(number_track(i + 1, &reported[i]));
            assert(tracks@ =~= album_tracks(reported@.take(i + 1)));
            i = i + 1;
        }
        assert(reported@.take(reported.len() as int) =~= reported@);
        let artist = join(artists, ", ");
        LPInfo { playlist: PlaylistInfo::AlbumInfo { id, artist, name, uri }, tracks, started: None }
    }

    /// The party of a playlist as a music service reports it. An entry
    /// without a track is left out, and the numbers of the others show it.
    pub fn from_spotify_playlist(
        id: String,
        name: String,
        uri: Option<String>,
        entries: &Vec<Option<TrackData>>,
    ) -> (info: LPInfo)
        ensures
            info@ == (LPInfoView {
                playlist: PlaylistInfo::PlaylistInfo { id, name, uri },
                tracks: playlist_tracks(entries@),
                started: None,
            }),
    {
        let mut tracks: Vec<TrackInfo> = Vec::new();
        let mut i: usize = 0;
        while i < entries.len()
            invariant
                i <= entries.len(),
                tracks@ == playlist_tracks(entries@.take(i as int)),
            decreases entries.len() - i,
        {
            assert(entries@.take(i + 1).drop_last() =~= entries@.take(i as int));
            match &entries[i] {
                Some(data) => {
                    tracks.push(number_track(i + 1, data));
                },
                None => {},
            }
            i = i + 1;
        }
        assert(entries@.take(entries.len() as int) =~= entries@);
        LPInfo { playlist: PlaylistInfo::PlaylistInfo { id, name, uri }, tracks, started: None }
    }
}

/// A party that has run for `elapsed` milliseconds is in exactly one of two
/// states: finished, by the time since the end of the last track, or
/// playing a track that the elapsed time falls in, at a position inside it.
pub proof fn lemma_running_party_state(durations: Seq<u64>, elapsed: int)
    requires
        0 <= elapsed,
    ensures
        match playback_after(durations, elapsed) {
            Playback::NotStarted => false,
            Playback::Finished { late } => 0 <= late && elapsed == total_time(durations) + late,
            Playback::Playing { index, position } => {
                &&& falls_in_track(durations, index, elapsed)
                &&& position == elapsed - elapsed_before(durations, index)
                &&& 0 <= position < durations[index]
            },
        },
{
    if elapsed < total_time(durations) {
        let k = lemma_track_exists(durations, elapsed);
        lemma_playing(durations, k, elapsed);
    }
}

/// A party that has not started is reported as not started, whatever the
/// instant of the query and whatever the look-ahead.
pub proof fn lemma_unstarted_is_not_started(info: LPInfoView, now: i64, offset: u64)
    requires
        info.started is None,
    ensures
        info.playback_at(now, offset) == Playback::NotStarted,
{
}

/// A party without tracks that started at `t0` is finished at every instant
/// from `t0` on, by the time elapsed since `t0` plus the look-ahead.
pub proof fn lemma_no_tracks_is_finished(info: LPInfoView, t0: i64, now: i64, offset: u64)
    requires
        info.tracks.len() == 0,
        info.started == Some(t0),
        t0 <= now,
    ensures
        info.playback_at(now, offset) == (Playback::Finished { late: now - t0 + offset }),
{
}

/// When the queried moment lies `epsilon` milliseconds after the beginning of
/// track `k`, with `epsilon` under that track's running time, track `k` is
/// playing at position `epsilon`.
pub proof fn lemma_playing_inside_track(
    info: LPInfoView,
    t0: i64,
    now: i64,
    offset: u64,
    k: int,
    epsilon: int,
)
    requires
        info.started == Some(t0),
        t0 <= now,
        0 <= k < info.tracks.len(),
        0 <= epsilon < info.tracks[k].duration,
        now + offset == t0 + elapsed_before(durations(info.tracks), k) + epsilon,
    ensures
        info.playback_at(now, offset) == (Playback::Playing { index: k, position: epsilon }),
{
    lemma_playing(durations(info.tracks), k, now - t0 + offset);
}

/// When the queried moment lies `delta` milliseconds after the end of the
/// last track, the party has been finished for `delta` milliseconds.
pub proof fn lemma_finished_past_the_end(
    info: LPInfoView,
    t0: i64,
    now: i64,
    offset: u64,
    delta: int,
)
    requires
        info.started == Some(t0),
        t0 <= now,
        0 <= delta,
        now + offset == t0 + total_time(durations(info.tracks)) + delta,
    ensures
        info.playback_at(now, offset) == (Playback::Finished { late: delta }),
{
}

/// The state is a function of the party, the instant and the look-ahead: two
/// answers to one question are equal.
pub proof fn lemma_one_answer_per_question(
    first: PlayState,
    second: PlayState,
    info: LPInfoView,
    now: i64,
    offset: u64,
)
    requires
        first.shows(info.tracks, info.playback_at(now, offset)),
        second.shows(info.tracks, info.playback_at(now, offset)),
    ensures
        first == second,
{
}

} // verus!
