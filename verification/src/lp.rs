//! Listening parties announced to a fixed role: the plain store and the
//! plain embed.

use std::collections::HashMap;
use vstd::prelude::*;
use vstd::string::StringExecFns;
use crate::command::{
    opt_text, CommandResponse, CommandResponseView, Embed, EmbedFieldView, EmbedView,
    ResponseType, ResponseTypeView,
};
use crate::lp_info::{
    clock_text, display_duration, linked_text, maybe_uri, no_party_text, party_view,
    playlist_id, preferred_target, target_view, track_link, LinkTarget, Message,
    SPOTIFY_ALBUM_RE, SPOTIFY_PLAYLIST_RE,
};
use crate::outside::{current_millis, regex_group};
use crate::playback::{
    durations, total_time, LPInfo, LPInfoView, PlayState, Playback, PlaylistInfo, TrackInfo,
};
use crate::text::{decimal, push_decimal};

verus! {

/// The role that announces listening parties.
pub const LP_ROLE: u64 = 1198354637137391709;

/// Whether a message mentions the announcing role.
pub open spec fn mentions_lp_role(mention_roles: Seq<u64>) -> bool {
    mention_roles.contains(LP_ROLE)
}

/// First part of the description: what is played, on a line of its own.
pub open spec fn plain_heading(playlist: PlaylistInfo) -> Seq<char> {
    match playlist {
        PlaylistInfo::AlbumInfo { artist, name, uri, .. } => "**Album**:\n "@ + linked_text(
            artist@ + " - "@ + name@,
            opt_text(uri),
        ),
        PlaylistInfo::PlaylistInfo { name, uri, .. } => "**Playlist**:\n "@ + linked_text(
            name@,
            opt_text(uri),
        ),
    }
}

/// The track that is playing, the position in it and its running time.
pub open spec fn plain_now_playing(track: TrackInfo, lp_id: Seq<char>, position: nat) -> Seq<char> {
    "Track "@ + decimal(track.number as nat) + " - "@ + track_link(track, lp_id) + " - "@
        + clock_text(position) + " / "@ + clock_text(track.duration as nat)
}

/// The plain embed that describes the party at instant `now`.
pub open spec fn plain_embed(info: LPInfoView, now: i64) -> EmbedView {
    let description = Some(
        plain_heading(info.playlist) + " - \\["@ + clock_text(
            total_time(durations(info.tracks)) as nat,
        ) + "\\]"@,
    );
    match info.playback_at(now, 0) {
        Playback::NotStarted => EmbedView {
            title: Some("Listening Party has not started yet."@),
            description,
            fields: Seq::empty(),
        },
        Playback::Finished { .. } => EmbedView {
            title: Some("Listening Party has finished."@),
            description,
            fields: Seq::empty(),
        },
        Playback::Playing { index, position } => EmbedView {
            title: Some("Listening Party in full swing! Join in!"@),
            description,
            fields: seq![
                EmbedFieldView {
                    name: "Now playing"@,
                    value: plain_now_playing(
                        info.tracks[index],
                        playlist_id(info.playlist),
                        position as nat,
                    ),
                    inline: true,
                },
            ],
        },
    }
}

fn plain_heading_text(playlist: &PlaylistInfo) -> (out: String)
    ensures
        out@ == plain_heading(*playlist),
{
    match playlist {
        PlaylistInfo::AlbumInfo { artist, name, uri, .. } => {
            let mut full = artist.clone();
            full.append(" - ");
            full.append(name.as_str());
            let linked = match uri {
                Some(uri) => maybe_uri(full.as_str(), Some(uri.as_str())),
                None => maybe_uri(full.as_str(), None),
            };
            let mut out = String::from_str("**Album**:\n ");
            out.append(linked.as_str());
            out
        },
        PlaylistInfo::PlaylistInfo { name, uri, .. } => {
            let linked = match uri {
                Some(uri) => maybe_uri(name.as_str(), Some(uri.as_str())),
                None => maybe_uri(name.as_str(), None),
            };
            let mut out = String::from_str("**Playlist**:\n ");
            out.append(linked.as_str());
            out
        },
    }
}

fn id_of(playlist: &PlaylistInfo) -> (id: &String)
    ensures
        id@ == playlist_id(*playlist),
{
    match playlist {
        PlaylistInfo::AlbumInfo { id, .. } => id,
        PlaylistInfo::PlaylistInfo { id, .. } => id,
    }
}

/// Builds the plain embed that describes the party `info` at instant
/// `now`.
pub fn build_embed_at(info: &LPInfo, now: i64) -> (embed: Embed)
    ensures
        embed@ == plain_embed(info@, now),
{
    let mut description = plain_heading_text(info.playlist());
    description.append(" - \\[");
    description.append(display_duration(info.total_duration()).as_str());
    description.append("\\]");
    let embed = Embed::new().description(description);
    match info.now_playing_at(now, 0) {
        PlayState::NotStarted => embed.title(
            String::from_str("Listening Party has not started yet."),
        ),
        PlayState::Finished(_) => embed.title(String::from_str("Listening Party has finished.")),
        PlayState::Playing { track, position } => {
            let lp_id = id_of(info.playlist());
            let link = match &track.uri {
                Some(uri) => {
                    let mut target = uri.clone();
                    target.append("?context=");
                    target.append(lp_id.as_str());
                    maybe_uri(track.name.as_str(), Some(target.as_str()))
                },
                None => maybe_uri(track.name.as_str(), None),
            };
            let mut value = String::from_str("Track ");
            push_decimal(&mut value, track.number as u128);
            value.append(" - ");
            value.append(link.as_str());
            value.append(" - ");
            value.append(display_duration(position as u128).as_str());
            value.append(" / ");
            value.append(display_duration(track.duration as u128).as_str());
            assert(value@ =~= plain_now_playing(*track, lp_id@, position as nat));
            let embed = embed.title(
                String::from_str("Listening Party in full swing! Join in!"),
            ).field(String::from_str("Now playing"), value, true);
            assert(embed@.fields =~= plain_embed(info@, now).fields);
            embed
        },
    }
}

/// Builds the plain embed that describes the party as the wall clock has
/// it.
pub fn build_embed(info: &LPInfo) -> (embed: Embed)
    ensures
        exists|now: i64| embed@ == #[trigger] plain_embed(info@, now),
{
    let now = current_millis();
    build_embed_at(info, now)
}

/// Looks up the state of the party in the current channel.
#[derive(Debug)]
pub struct CurrentLP {}

/// The answer of `CurrentLP` for the party `party` of the channel at instant
/// `now`.
pub open spec fn plain_response(party: Option<LPInfoView>, now: i64) -> CommandResponseView {
    match party {
        None => CommandResponseView::Public(ResponseTypeView::Text(no_party_text())),
        Some(info) => CommandResponseView::Public(ResponseTypeView::Embed(plain_embed(info, now))),
    }
}

impl CurrentLP {
    /// Answers for the channel's party `party` at instant `now`.
    pub fn respond_at(&self, party: Option<&LPInfo>, now: i64) -> (response: CommandResponse)
        ensures
            response@ == plain_response(party_view(party), now),
    {
        match party {
            None => CommandResponse::Public(
                ResponseType::Text(String::from_str("There is no listening party at the moment.")),
            ),
            Some(info) => CommandResponse::Public(ResponseType::Embed(build_embed_at(info, now))),
        }
    }

    /// Answers for the channel's party `party`, by the wall clock.
    pub fn respond(&self, party: Option<&LPInfo>) -> (response: CommandResponse)
        ensures
            exists|now: i64| response@ == #[trigger] plain_response(party_view(party), now),
    {
        let now = current_millis();
        self.respond_at(party, now)
    }
}

/// The listening parties of all channels, at most one for each.
pub struct LP {
    last_pinged: HashMap<u64, LPInfo>,
}

impl View for LP {
    type V = Map<u64, LPInfoView>;

    closed spec fn view(&self) -> Map<u64, LPInfoView> {
        self.last_pinged@.map_values(|info: LPInfo| info@)
    }
}

/// The parties after the party of `channel`, if there is one, started at
/// `now`.
pub open spec fn started_at(parties: Map<u64, LPInfoView>, channel: u64, now: i64) -> Map<
    u64,
    LPInfoView,
> {
    if parties.contains_key(channel) {
        parties.insert(channel, LPInfoView { started: Some(now), ..parties[channel] })
    } else {
        parties
    }
}

impl LP {
    /// A store without parties.
    pub fn new() -> (store: LP)
        ensures
            store@ == Map::<u64, LPInfoView>::empty(),
    {
        let store = LP { last_pinged: HashMap::new() };
        assert(store@ =~= Map::<u64, LPInfoView>::empty());
        store
    }

    /// The party of `channel`, where it has one.
    pub fn lp_info(&self, channel: u64) -> (party: Option<&LPInfo>)
        ensures
            party_view(party) == (if self@.contains_key(channel) {
                Some(self@[channel])
            } else {
                None
            }),
    {
        broadcast use vstd::std_specs::hash::group_hash_axioms;

        self.last_pinged.get(&channel)
    }

    /// Handles a message: says what is to be looked up for it, which is the
    /// album or playlist that it links where it mentions the announcing
    /// role. What the lookup gives then goes to `ping`.
    pub fn handle_message(&self, message: &Message) -> (target: Option<LinkTarget>)
        ensures
            target_view(target) == (if mentions_lp_role(message.mention_roles@) {
                preferred_target(
                    regex_group(SPOTIFY_ALBUM_RE@, message.content@, 1),
                    regex_group(SPOTIFY_PLAYLIST_RE@, message.content@, 1),
                )
            } else {
                None
            }),
    {
        let mut i: usize = 0;
        while i < message.mention_roles.len()
            invariant
                i <= message.mention_roles.len(),
                forall|j: int| 0 <= j < i ==> message.mention_roles@[j] != LP_ROLE,
            decreases message.mention_roles.len() - i,
        {
            if message.mention_roles[i] == LP_ROLE {
                return LinkTarget::from_match_string(message.content.as_str());
            }
            i = i + 1;
        }
        None
    }

    /// Makes `info`, not yet started, the party of `channel`, in place of
    /// any earlier one.
    pub fn ping(&mut self, channel: u64, info: LPInfo)
        ensures
            final(self)@ == old(self)@.insert(channel, LPInfoView { started: None, ..info@ }),
    {
        broadcast use vstd::std_specs::hash::group_hash_axioms;

        let fresh = info.unstarted();
        self.last_pinged.insert(channel, fresh);
        assert(self@ =~= old(self)@.insert(channel, LPInfoView { started: None, ..info@ }));
    }

    /// Sets the party of `channel` as started at `now`; without a party in
    /// that channel nothing changes.
    pub fn start_lp_at(&mut self, channel: u64, now: i64)
        ensures
            final(self)@ == started_at(old(self)@, channel, now),
    {
        broadcast use vstd::std_specs::hash::group_hash_axioms;

        match self.last_pinged.remove(&channel) {
            None => {
                assert(self@ =~= old(self)@);
            },
            Some(info) => {
                let mut info = info;
                info.start(now);
                self.last_pinged.insert(channel, info);
                assert(self@ =~= started_at(old(self)@, channel, now));
            },
        }
    }

    /// Sets the party of `channel` as started now, by the wall clock.
    pub fn start_lp(&mut self, channel: u64)
        ensures
            exists|now: i64| final(self)@ == #[trigger] started_at(old(self)@, channel, now),
    {
        let now = current_millis();
        self.start_lp_at(channel, now);
    }
}

} // verus!
