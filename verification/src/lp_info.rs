//! What the bot says about a listening party.

use std::collections::HashMap;
use vstd::prelude::*;
use vstd::string::StringExecFns;
use crate::command::{
    opt_text, CommandResponse, CommandResponseView, Embed, EmbedFieldView, EmbedView,
    ResponseType, ResponseTypeView,
};
use crate::outside::{current_millis, regex_capture, regex_group, text_of};
use crate::playback::{
    durations, elapsed_before, lemma_elapsed_before_bound, total_time, LPInfo, LPInfoView,
    PlayState, Playback, PlaylistInfo, TrackInfo,
};
use crate::text::{
    decimal, push_decimal, push_signed_decimal, push_two_digits, seconds_of, signed_decimal,
    two_digits, whole_seconds,
};

verus! {

/// `text` as a Markdown link to `uri`, or `text` alone without a `uri`.
pub open spec fn linked_text(text: Seq<char>, uri: Option<Seq<char>>) -> Seq<char> {
    match uri {
        None => text,
        Some(uri) => "["@ + text + "]("@ + uri + ")"@,
    }
}

/// Turns a text into a Markdown link if a URI is available.
pub fn maybe_uri(text: &str, mb_uri: Option<&str>) -> (out: String)
    ensures
        out@ == linked_text(
            text@,
            match mb_uri {
                Some(uri) => Some(uri@),
                None => None,
            },
        ),
{
    match mb_uri {
        None => String::from_str(text),
        Some(uri) => {
            let mut out = String::from_str("[");
            out.append(text);
            out.append("](");
            out.append(uri);
            out.append(")");
            out
        },
    }
}

/// A running time of `millis` milliseconds as `mm:ss`, or as `h:mm:ss` once
/// it reaches an hour. Fractions of a second are dropped.
pub open spec fn clock_text(millis: nat) -> Seq<char> {
    let seconds = millis / 1000;
    let hours = seconds / 3600;
    let tail = two_digits(seconds / 60 % 60) + ":"@ + two_digits(seconds % 60);
    if hours > 0 {
        decimal(hours) + ":"@ + tail
    } else {
        tail
    }
}

/// Formats a running time as `[h:]mm:ss`.
pub fn display_duration(duration: u128) -> (out: String)
    ensures
        out@ == clock_text(duration as nat),
{
    let allsecs: u128 = duration / 1000;
    let seconds: u128 = allsecs % 60;
    let minutes: u128 = allsecs / 60 % 60;
    let hours: u128 = allsecs / 3600;
    let mut out = String::new();
    if hours > 0 {
        push_decimal(&mut out, hours);
        out.append(":");
    }
    push_two_digits(&mut out, minutes);
    out.append(":");
    push_two_digits(&mut out, seconds);
    assert(out@ =~= clock_text(duration as nat));
    out
}

/// Expression that finds the address of a Spotify album and captures the
/// album's identifier.
pub const SPOTIFY_ALBUM_RE: &'static str =
    "\\bhttps://open.spotify.com(?:/intl-[a-z]+)?/album/([a-zA-Z0-9]+)(?:\\?[a-zA-Z?=&]*)?\\b";

/// Expression that finds the address of a Spotify playlist and captures the
/// playlist's identifier.
pub const SPOTIFY_PLAYLIST_RE: &'static str =
    "\\bhttps://open.spotify.com(?:/intl-[a-z]+)?/playlist/([a-zA-Z0-9]+)(?:\\?[a-zA-Z?=&]*)?\\b";

/// Finds the address of a Spotify album in `string` and extracts the album's
/// identifier.
pub fn match_spotify_album(string: &str) -> (id: Option<&str>)
    ensures
        text_of(id) == regex_group(SPOTIFY_ALBUM_RE@, string@, 1),
{
    regex_capture(SPOTIFY_ALBUM_RE, string, 1)
}

/// Finds the address of a Spotify playlist in `string` and extracts the
/// playlist's identifier.
pub fn match_spotify_playlist(string: &str) -> (id: Option<&str>)
    ensures
        text_of(id) == regex_group(SPOTIFY_PLAYLIST_RE@, string@, 1),
{
    regex_capture(SPOTIFY_PLAYLIST_RE, string, 1)
}

/// Identifier of the album or playlist.
pub open spec fn playlist_id(playlist: PlaylistInfo) -> Seq<char> {
    match playlist {
        PlaylistInfo::AlbumInfo { id, .. } => id@,
        PlaylistInfo::PlaylistInfo { id, .. } => id@,
    }
}

/// First part of an embed's description: what is played, linked where an
/// address is known.
pub open spec fn playlist_heading(playlist: PlaylistInfo) -> Seq<char> {
    match playlist {
        PlaylistInfo::AlbumInfo { artist, name, uri, .. } => "**Album**: "@ + linked_text(
            artist@ + " - "@ + name@,
            opt_text(uri),
        ),
        PlaylistInfo::PlaylistInfo { name, uri, .. } => "**Playlist**: "@ + linked_text(
            name@,
            opt_text(uri),
        ),
    }
}

/// Description of the party: what is played and its total running time.
pub open spec fn info_description(info: LPInfoView) -> Seq<char> {
    playlist_heading(info.playlist) + " - \\["@ + clock_text(
        total_time(durations(info.tracks)) as nat,
    ) + "\\]"@
}

/// Name of a track, linked into the album or playlist `lp_id` where the
/// track's address is known.
pub open spec fn track_link(track: TrackInfo, lp_id: Seq<char>) -> Seq<char> {
    linked_text(
        track.name@,
        match track.uri {
            Some(uri) => Some(uri@ + "?context="@ + lp_id),
            None => None,
        },
    )
}

/// When the party started and when it ends, as chat time stamps. Both
/// instants are in milliseconds since the epoch.
pub open spec fn schedule_text(started: int, ends: int) -> Seq<char> {
    "**Started**: <t:"@ + signed_decimal(whole_seconds(started)) + ":t> (<t:"@ + signed_decimal(
        whole_seconds(started),
    ) + ":R>)\n**Ends:** <t:"@ + signed_decimal(whole_seconds(ends)) + ":t> "@
}

/// The track that is playing and the instant at which it began.
pub open spec fn now_playing_text(track: TrackInfo, lp_id: Seq<char>, began: int) -> Seq<char> {
    "Track "@ + decimal(track.number as nat) + " - "@ + track_link(track, lp_id) + " - ["@
        + clock_text(track.duration as nat) + "]\nTrack started <t:"@ + signed_decimal(
        whole_seconds(began),
    ) + ":R>"@
}

/// Which track to select and where to seek in it to join at `join_at`.
pub open spec fn join_text(track: TrackInfo, lp_id: Seq<char>, position: nat, join_at: int) -> Seq<
    char,
> {
    decimal(track.number as nat) + " - "@ + track_link(track, lp_id) + " - ("@ + clock_text(
        track.duration as nat,
    ) + ")\nGo to position **"@ + clock_text(position) + "**\n Start playback:<t:"@
        + signed_decimal(whole_seconds(join_at)) + ":R>"@
}

/// The embed that describes the party at instant `now`.
pub open spec fn info_embed(info: LPInfoView, now: i64) -> EmbedView {
    let description = Some(info_description(info));
    match info.playback_at(now, 0) {
        Playback::NotStarted => EmbedView {
            title: Some("Listening Party has not started yet."@),
            description,
            fields: Seq::empty(),
        },
        Playback::Finished { .. } => EmbedView {
            title: Some("Listening Party has finished."@),
            description,
            fields: Seq::empty(),
        },
        Playback::Playing { index, position } => EmbedView {
            title: Some("Listening Party in full swing! Join in!"@),
            description,
            fields: seq![
                EmbedFieldView {
                    name: ""@,
                    value: schedule_text(
                        info.started->0 as int,
                        info.started->0 + total_time(durations(info.tracks)),
                    ),
                    inline: true,
                },
                EmbedFieldView {
                    name: "Now playing"@,
                    value: now_playing_text(
                        info.tracks[index],
                        playlist_id(info.playlist),
                        now - position,
                    ),
                    inline: false,
                },
            ],
        },
    }
}

/// The embed that tells how to join the party `offset` milliseconds after
/// instant `now`.
pub open spec fn join_embed(info: LPInfoView, now: i64, offset: u64) -> EmbedView {
    match info.playback_at(now, offset) {
        Playback::NotStarted => EmbedView {
            title: Some("Listening Party has not started yet."@),
            description: None,
            fields: Seq::empty(),
        },
        Playback::Finished { .. } => EmbedView {
            title: Some("Listening Party has finished."@),
            description: None,
            fields: Seq::empty(),
        },
        Playback::Playing { index, position } => EmbedView {
            title: Some("Join this listening party"@),
            description: None,
            fields: seq![
                EmbedFieldView {
                    name: "Select track"@,
                    value: join_text(
                        info.tracks[index],
                        playlist_id(info.playlist),
                        position as nat,
                        now + offset,
                    ),
                    inline: true,
                },
            ],
        },
    }
}

fn playlist_id_of(playlist: &PlaylistInfo) -> (id: &String)
    ensures
        id@ == playlist_id(*playlist),
{
    match playlist {
        PlaylistInfo::AlbumInfo { id, .. } => id,
        PlaylistInfo::PlaylistInfo { id, .. } => id,
    }
}

fn as_str_opt(text: &Option<String>) -> (out: Option<&str>)
    ensures
        text_of(out) == opt_text(*text),
{
    match text {
        Some(s) => Some(s.as_str()),
        None => None,
    }
}

fn playlist_heading_text(playlist: &PlaylistInfo) -> (out: String)
    ensures
        out@ == playlist_heading(*playlist),
{
    match playlist {
        PlaylistInfo::AlbumInfo { artist, name, uri, .. } => {
            let mut full = artist.clone();
            full.append(" - ");
            full.append(name.as_str());
            let linked = maybe_uri(full.as_str(), as_str_opt(uri));
            let mut out = String::from_str("**Album**: ");
            out.append(linked.as_str());
            out
        },
        PlaylistInfo::PlaylistInfo { name, uri, .. } => {
            let linked = maybe_uri(name.as_str(), as_str_opt(uri));
            let mut out = String::from_str("**Playlist**: ");
            out.append(linked.as_str());
            out
        },
    }
}

fn track_link_text(track: &TrackInfo, lp_id: &str) -> (out: String)
    ensures
        out@ == track_link(*track, lp_id@),
{
    match &track.uri {
        Some(uri) => {
            let mut target = uri.clone();
            target.append("?context=");
            target.append(lp_id);
            maybe_uri(track.name.as_str(), Some(target.as_str()))
        },
        None => maybe_uri(track.name.as_str(), None),
    }
}

fn now_playing_field(track: &TrackInfo, lp_id: &str, began: i128) -> (out: String)
    ensures
        out@ == now_playing_text(*track, lp_id@, began as int),
{
    let mut out = String::from_str("Track ");
    push_decimal(&mut out, track.number as u128);
    out.append(" - ");
    out.append(track_link_text(track, lp_id).as_str());
    out.append(" - [");
    out.append(display_duration(track.duration as u128).as_str());
    out.append("]\nTrack started <t:");
    push_signed_decimal(&mut out, seconds_of(began));
    out.append(":R>");
    assert(out@ =~= now_playing_text(*track, lp_id@, began as int));
    out
}

fn join_field(track: &TrackInfo, lp_id: &str, position: u64, join_at: i128) -> (out: String)
    ensures
        out@ == join_text(*track, lp_id@, position as nat, join_at as int),
{
    let mut out = String::new();
    push_decimal(&mut out, track.number as u128);
    out.append(" - ");
    out.append(track_link_text(track, lp_id).as_str());
    out.append(" - (");
    out.append(display_duration(track.duration as u128).as_str());
    out.append(")\nGo to position **");
    out.append(display_duration(position as u128).as_str());
    out.append("**\n Start playback:<t:");
    push_signed_decimal(&mut out, seconds_of(join_at));
    out.append(":R>");
    assert(out@ =~= join_text(*track, lp_id@, position as nat, join_at as int));
    out
}

impl LPInfo {
    /// Total running time of the tracks, in milliseconds.
    pub fn total_duration(&self) -> (total: u128)
        ensures
            total == total_time(durations(self@.tracks)),
    {
        let tracks = self.tracks();
        let ghost lengths = durations(tracks@);
        let mut total: u128 = 0;
        let mut i: usize = 0;
        while i < tracks.len()
            invariant
                i <= tracks.len(),
                lengths == durations(tracks@),
                total == elapsed_before(lengths, i as int),
            decreases tracks.len() - i,
        {
            proof {
                lemma_elapsed_before_bound(lengths, i as int);
                assert(i * 0xffff_ffff_ffff_ffff <= 0xffff_ffff_ffff_fffe * 0xffff_ffff_ffff_ffff)
                    by (nonlinear_arith)
                    requires
                        0 <= i <= 0xffff_ffff_ffff_fffe,
                ;
            }
            total = total + tracks[i].duration as u128;
            i = i + 1;
        }
        total
    }

    /// When the last track ends, in milliseconds since the epoch, for a
    /// party that started at `started`. Whole seconds are kept apart so that
    /// the sum stays in range.
    fn end_seconds_text(&self, started: i64) -> (out: String)
        ensures
            out@ == schedule_text(
                started as int,
                started + total_time(durations(self@.tracks)),
            ),
    {
        let total = self.total_duration();
        let whole: i128 = (total / 1000) as i128;
        let rest: i128 = (total % 1000) as i128;
        let ends_seconds: i128 = seconds_of(started as i128 + rest) + whole;
        assert(ends_seconds == whole_seconds(started + total)) by {
            assert(total == 1000 * (total / 1000) + total % 1000);
            assert((started + rest + 1000 * whole) / 1000 == (started + rest) / 1000 + whole)
                by (nonlinear_arith);
        }
        let mut out = String::from_str("**Started**: <t:");
        push_signed_decimal(&mut out, seconds_of(started as i128));
        out.append(":t> (<t:");
        push_signed_decimal(&mut out, seconds_of(started as i128));
        out.append(":R>)\n**Ends:** <t:");
        push_signed_decimal(&mut out, ends_seconds);
        out.append(":t> ");
        assert(out@ =~= schedule_text(
            started as int,
            started + total_time(durations(self@.tracks)),
        ));
        out
    }

    fn description_text(&self) -> (out: String)
        ensures
            out@ == info_description(self@),
    {
        let mut out = playlist_heading_text(self.playlist());
        out.append(" - \\[");
        out.append(display_duration(self.total_duration()).as_str());
        out.append("\\]");
        assert(out@ =~= info_description(self@));
        out
    }

    /// Builds the embed that describes the party at instant `now`.
    pub fn build_info_embed_at(&self, now: i64) -> (embed: Embed)
        ensures
            embed@ == info_embed(self@, now),
    {
        let embed = Embed::new().description(self.description_text());
        match self.now_playing_at(now, 0) {
            PlayState::NotStarted => embed.title(
                String::from_str("Listening Party has not started yet."),
            ),
            PlayState::Finished(_) => embed.title(String::from_str("Listening Party has finished.")),
            PlayState::Playing { track, position } => {
                let started = match self.started() {
                    Some(started) => started,
                    None => now,
                };
                let lp_id = playlist_id_of(self.playlist());
                let began: i128 = now as i128 - position as i128;
                let embed = embed.title(
                    String::from_str("Listening Party in full swing! Join in!"),
                ).field(String::from_str(""), self.end_seconds_text(started), true).field(
                    String::from_str("Now playing"),
                    now_playing_field(track, lp_id.as_str(), began),
                    false,
                );
                assert(embed@.fields =~= info_embed(self@, now).fields);
                embed
            },
        }
    }

    /// Builds the embed that describes the party as the wall clock has it.
    pub fn build_info_embed(&self) -> (embed: Embed)
        ensures
            exists|now: i64| embed@ == #[trigger] info_embed(self@, now),
    {
        let now = current_millis();
        self.build_info_embed_at(now)
    }

    /// Builds the embed that tells how to join `offset` milliseconds after
    /// instant `now`.
    pub fn build_join_embed_at(&self, now: i64, offset: u64) -> (embed: Embed)
        ensures
            embed@ == join_embed(self@, now, offset),
    {
        let embed = Embed::new();
        match self.now_playing_at(now, offset) {
            PlayState::NotStarted => embed.title(
                String::from_str("Listening Party has not started yet."),
            ),
            PlayState::Finished(_) => embed.title(String::from_str("Listening Party has finished.")),
            PlayState::Playing { track, position } => {
                let lp_id = playlist_id_of(self.playlist());
                let join_at: i128 = now as i128 + offset as i128;
                let embed = embed.title(String::from_str("Join this listening party")).field(
                    String::from_str("Select track"),
                    join_field(track, lp_id.as_str(), position, join_at),
                    true,
                );
                assert(embed@.fields =~= join_embed(self@, now, offset).fields);
                embed
            },
        }
    }

    /// Builds the embed that tells how to join `offset` milliseconds from
    /// now, by the wall clock.
    pub fn build_join_embed(&self, offset: u64) -> (embed: Embed)
        ensures
            exists|now: i64| embed@ == #[trigger] join_embed(self@, now, offset),
    {
        let now = current_millis();
        self.build_join_embed_at(now, offset)
    }
}

/// What a chat line points at.
#[derive(Debug)]
pub enum LinkTarget {
    /// A Spotify album, by identifier.
    Album(String),
    /// A Spotify playlist, by identifier.
    Playlist(String),
}

/// Content of a `LinkTarget`.
pub ghost enum LinkTargetView {
    Album(Seq<char>),
    Playlist(Seq<char>),
}

impl View for LinkTarget {
    type V = LinkTargetView;

    open spec fn view(&self) -> LinkTargetView {
        match self {
            LinkTarget::Album(id) => LinkTargetView::Album(id@),
            LinkTarget::Playlist(id) => LinkTargetView::Playlist(id@),
        }
    }
}

/// The content of an optional link target.
pub open spec fn target_view(target: Option<LinkTarget>) -> Option<LinkTargetView> {
    match target {
        Some(t) => Some(t@),
        None => None,
    }
}

/// An album where one was found, else a playlist where one was found.
pub open spec fn preferred_target(album: Option<Seq<char>>, playlist: Option<Seq<char>>) -> Option<
    LinkTargetView,
> {
    match album {
        Some(id) => Some(LinkTargetView::Album(id)),
        None => match playlist {
            Some(id) => Some(LinkTargetView::Playlist(id)),
            None => None,
        },
    }
}

impl LinkTarget {
    /// Picks between an album and a playlist found in the same text: the
    /// album goes first.
    pub fn prefer(album: Option<&str>, playlist: Option<&str>) -> (target: Option<LinkTarget>)
        ensures
            target_view(target) == preferred_target(text_of(album), text_of(playlist)),
    {
        match album {
            Some(id) => Some(LinkTarget::Album(String::from_str(id))),
            None => match playlist {
                Some(id) => Some(LinkTarget::Playlist(String::from_str(id))),
                None => None,
            },
        }
    }

    /// Finds a Spotify album or playlist in a chat line.
    pub fn from_match_string(string: &str) -> (target: Option<LinkTarget>)
        ensures
            target_view(target) == preferred_target(
                regex_group(SPOTIFY_ALBUM_RE@, string@, 1),
                regex_group(SPOTIFY_PLAYLIST_RE@, string@, 1),
            ),
    {
        LinkTarget::prefer(match_spotify_album(string), match_spotify_playlist(string))
    }
}

/// Looks up the state of the party in the current channel.
#[derive(Debug)]
pub struct CurrentLP {
    /// Should the answer be visible to everyone?
    pub visible: Option<bool>,
}

/// Tells how to join the party in the current channel.
#[derive(Debug)]
pub struct JoinLP {
    /// Seconds until playback is to start.
    pub offset: Option<u64>,
}

/// Look-ahead of `JoinLP` where none is given, in seconds.
pub const DEFAULT_JOIN_OFFSET: u64 = 15;

/// Longest look-ahead in seconds that still counts in milliseconds.
pub const MAX_JOIN_OFFSET: u64 = 18_446_744_073_709_551;

/// The answer where a channel has no party.
pub open spec fn no_party_text() -> Seq<char> {
    "There is no listening party at the moment."@
}

/// The answer of `CurrentLP` for the party `party` of the channel at instant
/// `now`.
pub open spec fn current_lp_response(visible: Option<bool>, party: Option<LPInfoView>, now: i64)
    -> CommandResponseView {
    let body = match party {
        None => ResponseTypeView::Text(no_party_text()),
        Some(info) => ResponseTypeView::Embed(info_embed(info, now)),
    };
    if visible == Some(true) {
        CommandResponseView::Public(body)
    } else {
        CommandResponseView::Private(body)
    }
}

/// The answer of `JoinLP` for the party `party` of the channel at instant
/// `now`, with a look-ahead of `offset` milliseconds.
pub open spec fn join_lp_response(party: Option<LPInfoView>, now: i64, offset: u64)
    -> CommandResponseView {
    CommandResponseView::Private(
        match party {
            None => ResponseTypeView::Text(no_party_text()),
            Some(info) => ResponseTypeView::Embed(join_embed(info, now, offset)),
        },
    )
}

/// The content of an optional party.
pub open spec fn party_view(party: Option<&LPInfo>) -> Option<LPInfoView> {
    match party {
        Some(info) => Some(info@),
        None => None,
    }
}

impl CurrentLP {
    /// Answers for the channel's party `party` at instant `now`.
    pub fn respond_at(&self, party: Option<&LPInfo>, now: i64) -> (response: CommandResponse)
        ensures
            response@ == current_lp_response(self.visible, party_view(party), now),
    {
        let body = match party {
            None => ResponseType::Text(
                String::from_str("There is no listening party at the moment."),
            ),
            Some(info) => ResponseType::Embed(info.build_info_embed_at(now)),
        };
        let visible = match self.visible {
            Some(v) => v,
            None => false,
        };
        if visible {
            CommandResponse::Public(body)
        } else {
            CommandResponse::Private(body)
        }
    }

    /// Answers for the channel's party `party`, by the wall clock.
    pub fn respond(&self, party: Option<&LPInfo>) -> (response: CommandResponse)
        ensures
            exists|now: i64|
                response@ == #[trigger] current_lp_response(self.visible, party_view(party), now),
    {
        let now = current_millis();
        self.respond_at(party, now)
    }
}

impl JoinLP {
    /// The look-ahead in milliseconds: fifteen seconds where none was given.
    /// `None` where the seconds given do not count in milliseconds.
    pub open spec fn look_ahead(self) -> Option<u64> {
        match self.offset {
            None => Some((DEFAULT_JOIN_OFFSET * 1000) as u64),
            Some(seconds) => if seconds <= MAX_JOIN_OFFSET {
                Some((seconds * 1000) as u64)
            } else {
                None
            },
        }
    }

    /// The look-ahead in milliseconds.
    pub fn offset_millis(&self) -> (millis: Option<u64>)
        ensures
            millis == self.look_ahead(),
    {
        match self.offset {
            None => Some(DEFAULT_JOIN_OFFSET * 1000),
            Some(seconds) => if seconds <= MAX_JOIN_OFFSET {
                Some(seconds * 1000)
            } else {
                None
            },
        }
    }

    /// Answers for the channel's party `party` at instant `now`, with a
    /// look-ahead of `offset` milliseconds.
    pub fn respond_at(party: Option<&LPInfo>, now: i64, offset: u64) -> (response:
        CommandResponse)
        ensures
            response@ == join_lp_response(party_view(party), now, offset),
    {
        match party {
            None => CommandResponse::Private(
                ResponseType::Text(String::from_str("There is no listening party at the moment.")),
            ),
            Some(info) => CommandResponse::Private(
                ResponseType::Embed(info.build_join_embed_at(now, offset)),
            ),
        }
    }

    /// Answers for the channel's party `party`, by the wall clock. `None`
    /// where the look-ahead asked for does not count in milliseconds.
    pub fn respond(&self, party: Option<&LPInfo>) -> (response: Option<CommandResponse>)
        ensures
            response is Some <==> self.look_ahead() is Some,
            response is Some ==> exists|now: i64|
                response->0@ == #[trigger] join_lp_response(
                    party_view(party),
                    now,
                    self.look_ahead()->0,
                ),
    {
        match self.offset_millis() {
            None => None,
            Some(offset) => {
                let now = current_millis();
                Some(JoinLP::respond_at(party, now, offset))
            },
        }
    }
}

/// A role of a guild, as far as the bot looks at it.
#[derive(Debug)]
pub struct Role {
    pub id: u64,
    pub name: String,
}

/// A chat message, as far as the bot looks at it.
#[derive(Debug)]
pub struct Message {
    pub guild_id: Option<u64>,
    pub channel_id: u64,
    pub content: String,
    pub mention_roles: Vec<u64>,
}

/// Whether a role of this name is one that announces listening parties.
pub open spec fn is_lp_role_name(name: Seq<char>) -> bool {
    name == "Listening Party"@ || name == "Impromptu Listening Party"@
}

/// The identifiers of the roles among `roles` that announce listening
/// parties, in their order.
pub open spec fn lp_role_ids(roles: Seq<Role>) -> Seq<u64> {
    roles.filter(|role: Role| is_lp_role_name(role.name@)).map_values(|role: Role| role.id)
}

/// Whether a message mentions one of `roles`.
pub open spec fn mentions_any(mention_roles: Seq<u64>, roles: Seq<u64>) -> bool {
    exists|i: int| 0 <= i < mention_roles.len() && roles.contains(#[trigger] mention_roles[i])
}

/// The listening parties of all channels, at most one for each, and the
/// roles of each guild that announce one.
pub struct ModLPInfo {
    last_pinged: HashMap<u64, LPInfo>,
    lp_roles: HashMap<u64, Vec<u64>>,
}

/// Content of a `ModLPInfo`.
pub ghost struct ModLPInfoView {
    /// The party of each channel that has one.
    pub last_pinged: Map<u64, LPInfoView>,
    /// The announcing roles of each guild whose roles are known.
    pub lp_roles: Map<u64, Seq<u64>>,
}

impl ModLPInfoView {
    /// The store after the party of `channel`, if there is one, started at
    /// `now`.
    pub open spec fn started_at(self, channel: u64, now: i64) -> ModLPInfoView {
        if self.last_pinged.contains_key(channel) {
            ModLPInfoView {
                last_pinged: self.last_pinged.insert(
                    channel,
                    LPInfoView { started: Some(now), ..self.last_pinged[channel] },
                ),
                ..self
            }
        } else {
            self
        }
    }

    /// Whether `message` announces a listening party: it comes from a guild
    /// whose roles are known and mentions one of the announcing roles.
    pub open spec fn is_ping(self, message: Message) -> bool {
        &&& message.guild_id is Some
        &&& self.lp_roles.contains_key(message.guild_id->0)
        &&& mentions_any(message.mention_roles@, self.lp_roles[message.guild_id->0])
    }
}

/// Once the roles of its guild have been read, a message that mentions one
/// of them that is named for listening parties announces a party.
pub proof fn lemma_mention_announces(
    store: ModLPInfoView,
    roles: Seq<Role>,
    message: Message,
    role: int,
    mention: int,
)
    requires
        message.guild_id is Some,
        0 <= role < roles.len(),
        is_lp_role_name(roles[role].name@),
        0 <= mention < message.mention_roles@.len(),
        message.mention_roles@[mention] == roles[role].id,
    ensures
        (ModLPInfoView {
            lp_roles: store.lp_roles.insert(message.guild_id->0, lp_role_ids(roles)),
            ..store
        }).is_ping(message),
{
    let announcing = |r: Role| is_lp_role_name(r.name@);
    let kept = roles.filter(announcing);
    roles.lemma_filter_contains(announcing, role);
    let at = choose|at: int| 0 <= at < kept.len() && kept[at] == roles[role];
    let ids = lp_role_ids(roles);
    assert(ids[at] == roles[role].id);
    assert(ids.contains(message.mention_roles@[mention]));
}

impl View for ModLPInfo {
    type V = ModLPInfoView;

    closed spec fn view(&self) -> ModLPInfoView {
        ModLPInfoView {
            last_pinged: self.last_pinged@.map_values(|info: LPInfo| info@),
            lp_roles: self.lp_roles@.map_values(|ids: Vec<u64>| ids@),
        }
    }
}

fn contains_id(ids: &Vec<u64>, id: u64) -> (found: bool)
    ensures
        found == ids@.contains(id),
{
    let mut i: usize = 0;
    while i < ids.len()
        invariant
            i <= ids.len(),
            forall|j: int| 0 <= j < i ==> ids@[j] != id,
        decreases ids.len() - i,
    {
        if ids[i] == id {
            return true;
        }
        i = i + 1;
    }
    false
}

fn is_lp_role(name: &str) -> (announcing: bool)
    ensures
        announcing == is_lp_role_name(name@),
{
    let name = String::from_str(name);
    name == String::from_str("Listening Party") || name == String::from_str(
        "Impromptu Listening Party",
    )
}

impl ModLPInfo {
    /// A store without parties or known roles.
    pub fn new() -> (store: ModLPInfo)
        ensures
            store@ == (ModLPInfoView { last_pinged: Map::empty(), lp_roles: Map::empty() }),
    {
        let store = ModLPInfo { last_pinged: HashMap::new(), lp_roles: HashMap::new() };
        assert(store@.last_pinged =~= Map::empty());
        assert(store@.lp_roles =~= Map::empty());
        store
    }

    /// The party of `channel`, where it has one.
    pub fn lp_info(&self, channel: u64) -> (party: Option<&LPInfo>)
        ensures
            party_view(party) == (if self@.last_pinged.contains_key(channel) {
                Some(self@.last_pinged[channel])
            } else {
                None
            }),
    {
        broadcast use vstd::std_specs::hash::group_hash_axioms;

        self.last_pinged.get(&channel)
    }

    /// Whether the roles of `guild_id` are to be read before a message of
    /// that guild is handled: that is so for a guild whose roles are not
    /// known yet.
    pub fn wants_roles(&self, guild_id: Option<u64>) -> (wanted: bool)
        ensures
            wanted == (guild_id is Some && !self@.lp_roles.contains_key(guild_id->0)),
    {
        broadcast use vstd::std_specs::hash::group_hash_axioms;

        match guild_id {
            None => false,
            Some(guild) => !self.lp_roles.contains_key(&guild),
        }
    }

    /// Records which roles of `guild` announce listening parties, given all
    /// of its roles.
    pub fn store_roles(&mut self, guild: u64, roles: &Vec<Role>)
        ensures
            final(self)@ == (ModLPInfoView {
                lp_roles: old(self)@.lp_roles.insert(guild, lp_role_ids(roles@)),
                ..old(self)@
            }),
    {
        broadcast use vstd::std_specs::hash::group_hash_axioms;

        let ghost announcing = |role: Role| is_lp_role_name(role.name@);
        let ghost id_of = |role: Role| role.id;
        let mut ids: Vec<u64> = Vec::new();
        let mut i: usize = 0;
        proof {
            assert(roles@.take(0) =~= Seq::empty());
            reveal_with_fuel(Seq::filter, 1);
        }
        while i < roles.len()
            invariant
                i <= roles.len(),
                announcing == |role: Role| is_lp_role_name(role.name@),
                id_of == |role: Role| role.id,
                ids@ == roles@.take(i as int).filter(announcing).map_values(id_of),
            decreases roles.len() - i,
        {
            proof {
                assert(roles@.take(i + 1) =~= roles@.take(i as int).push(roles@[i as int]));
                roles@.take(i as int).lemma_filter_push(roles@[i as int], announcing);
            }
            if is_lp_role(roles[i].name.as_str()) {
                ids.push(roles[i].id);
            }
            assert(ids@ =~= roles@.take(i + 1).filter(announcing).map_values(id_of));
            i = i + 1;
        }
        assert(roles@.take(roles.len() as int) =~= roles@);
        self.lp_roles.insert(guild, ids);
        assert(self@.lp_roles =~= old(self)@.lp_roles.insert(guild, lp_role_ids(roles@)));
    }

    /// Whether `message` announces a listening party.
    pub fn is_ping(&self, message: &Message) -> (ping: bool)
        ensures
            ping == self@.is_ping(*message),
    {
        broadcast use vstd::std_specs::hash::group_hash_axioms;

        let guild = match message.guild_id {
            None => {
                return false;
            },
            Some(guild) => guild,
        };
        let roles = match self.lp_roles.get(&guild) {
            None => {
                return false;
            },
            Some(roles) => roles,
        };
        let mut i: usize = 0;
        while i < message.mention_roles.len()
            invariant
                i <= message.mention_roles.len(),
                message.guild_id == Some(guild),
                self@.lp_roles.contains_key(guild),
                self@.lp_roles[guild] == roles@,
                forall|j: int| 0 <= j < i ==> !roles@.contains(#[trigger] message.mention_roles@[j]),
            decreases message.mention_roles.len() - i,
        {
            if contains_id(roles, message.mention_roles[i]) {
                return true;
            }
            i = i + 1;
        }
        false
    }

    /// Handles a message: says what is to be looked up for it, which is the
    /// album or playlist that it links where it announces a listening party.
    /// What the lookup gives then goes to `ping`.
    pub fn handle_message(&self, message: &Message) -> (target: Option<LinkTarget>)
        ensures
            target_view(target) == (if self@.is_ping(*message) {
                preferred_target(
                    regex_group(SPOTIFY_ALBUM_RE@, message.content@, 1),
                    regex_group(SPOTIFY_PLAYLIST_RE@, message.content@, 1),
                )
            } else {
                None
            }),
    {
        if self.is_ping(message) {
            LinkTarget::from_match_string(message.content.as_str())
        } else {
            None
        }
    }

    /// Makes `info`, not yet started, the party of `channel`, in place of
    /// any earlier one.
    pub fn ping(&mut self, channel: u64, info: LPInfo)
        ensures
            final(self)@ == (ModLPInfoView {
                last_pinged: old(self)@.last_pinged.insert(
                    channel,
                    LPInfoView { started: None, ..info@ },
                ),
                ..old(self)@
            }),
    {
        broadcast use vstd::std_specs::hash::group_hash_axioms;

        let fresh = info.unstarted();
        self.last_pinged.insert(channel, fresh);
        assert(self@.last_pinged =~= old(self)@.last_pinged.insert(
            channel,
            LPInfoView { started: None, ..info@ },
        ));
    }

    /// Sets the party of `channel` as started at `now`; without a party in
    /// that channel nothing changes.
    pub fn start_lp_at(&mut self, channel: u64, now: i64)
        ensures
            final(self)@ == old(self)@.started_at(channel, now),
    {
        broadcast use vstd::std_specs::hash::group_hash_axioms;

        match self.last_pinged.remove(&channel) {
            None => {
                assert(self@.last_pinged =~= old(self)@.last_pinged);
            },
            Some(info) => {
                let mut info = info;
                info.start(now);
                self.last_pinged.insert(channel, info);
                assert(self@.last_pinged =~= old(self)@.started_at(channel, now).last_pinged);
            },
        }
    }

    /// Sets the party of `channel` as started now, by the wall clock.
    pub fn start_lp(&mut self, channel: u64)
        ensures
            exists|now: i64| final(self)@ == #[trigger] old(self)@.started_at(channel, now),
    {
        let now = current_millis();
        self.start_lp_at(channel, now);
    }
}

} // verus!
