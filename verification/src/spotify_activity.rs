//! What members are listening to, as their presence in the chat shows it.

use std::collections::HashMap;
use vstd::prelude::*;
use crate::command::opt_text;
use crate::outside::{is_track_id, valid_track_id};
use crate::text::same_text;

verus! {

/// A track that a member is listening to.
#[derive(Debug)]
pub struct NowPlaying {
    pub track_id: String,
    /// When the track ends.
    pub end: u64,
}

/// Something that a member is doing, as far as the bot looks at it.
#[derive(Debug)]
pub struct Activity {
    /// Whether the member is listening to something.
    pub listening: bool,
    /// Name of what the member does it with.
    pub name: String,
    /// Identifier of what is played.
    pub sync_id: Option<String>,
    /// When it ends.
    pub end: Option<u64>,
}

/// What a member is doing.
#[derive(Debug)]
pub struct Presence {
    pub user_id: u64,
    pub activities: Vec<Activity>,
}

/// Whether an activity is listening with Spotify.
pub open spec fn is_spotify(activity: Activity) -> bool {
    activity.listening && activity.name@ == "Spotify"@
}

/// Position of the first activity that is listening with Spotify.
pub open spec fn first_spotify(activities: Seq<Activity>) -> Option<int> {
    if exists|i: int| 0 <= i < activities.len() && is_spotify(activities[i]) {
        Some(
            choose|i: int|
                0 <= i < activities.len() && is_spotify(activities[i]) && forall|j: int|
                    0 <= j < i ==> !is_spotify(activities[j]),
        )
    } else {
        None
    }
}

/// The track that an activity plays and when it ends, where both are known
/// and the track has a valid identifier.
pub open spec fn played(activity: Activity) -> Option<(Seq<char>, u64)> {
    match activity.sync_id {
        Some(id) => if is_track_id(id@) {
            match activity.end {
                Some(end) => Some((id@, end)),
                None => None,
            }
        } else {
            None
        },
        None => None,
    }
}

/// What a presence shows of the track that the member is listening to: it
/// goes by the first activity that is listening with Spotify.
pub open spec fn now_playing_of(activities: Seq<Activity>) -> Option<(Seq<char>, u64)> {
    match first_spotify(activities) {
        Some(at) => played(activities[at]),
        None => None,
    }
}

/// The content of an optional track.
pub open spec fn now_playing_view(np: Option<NowPlaying>) -> Option<(Seq<char>, u64)> {
    match np {
        Some(np) => Some((np.track_id@, np.end)),
        None => None,
    }
}

/// Reads the track that a member is listening to off their presence.
pub fn get_now_playing(presence: &Presence) -> (np: Option<NowPlaying>)
    ensures
        now_playing_view(np) == now_playing_of(presence.activities@),
{
    let mut i: usize = 0;
    while i < presence.activities.len()
        invariant
            i <= presence.activities.len(),
            forall|j: int| 0 <= j < i ==> !is_spotify(presence.activities@[j]),
        decreases presence.activities.len() - i,
    {
        let activity = &presence.activities[i];
        if activity.listening && same_text(activity.name.as_str(), "Spotify") {
            proof {
                let c = first_spotify(presence.activities@)->0;
                assert(0 <= c < presence.activities@.len() && is_spotify(presence.activities@[c])
                    && forall|j: int| 0 <= j < c ==> !is_spotify(presence.activities@[j])) by {
                    assert(0 <= i < presence.activities@.len() && is_spotify(
                        presence.activities@[i as int],
                    ) && forall|j: int| 0 <= j < i ==> !is_spotify(presence.activities@[j]));
                }
                assert(c == i);
            }
            let id = match &activity.sync_id {
                Some(id) => id,
                None => {
                    return None;
                },
            };
            if !valid_track_id(id.as_str()) {
                return None;
            }
            return match activity.end {
                Some(end) => Some(NowPlaying { track_id: id.clone(), end }),
                None => None,
            };
        }
        i = i + 1;
    }
    None
}

/// The tracks that members are listening to.
pub struct SpotifyActivity {
    user_activities: HashMap<u64, NowPlaying>,
}

impl View for SpotifyActivity {
    type V = Map<u64, (Seq<char>, u64)>;

    closed spec fn view(&self) -> Map<u64, (Seq<char>, u64)> {
        self.user_activities@.map_values(|np: NowPlaying| (np.track_id@, np.end))
    }
}

impl SpotifyActivity {
    /// Nobody is known to listen to anything.
    pub fn new() -> (store: SpotifyActivity)
        ensures
            store@ == Map::<u64, (Seq<char>, u64)>::empty(),
    {
        let store = SpotifyActivity { user_activities: HashMap::new() };
        assert(store@ =~= Map::<u64, (Seq<char>, u64)>::empty());
        store
    }

    /// Takes in a presence: records the track that the member is listening
    /// to, or that the member is listening to none.
    pub fn presence_update(&mut self, presence: &Presence)
        ensures
            final(self)@ == (match now_playing_of(presence.activities@) {
                Some(np) => old(self)@.insert(presence.user_id, np),
                None => old(self)@.remove(presence.user_id),
            }),
    {
        broadcast use vstd::std_specs::hash::group_hash_axioms;

        match get_now_playing(presence) {
            Some(np) => {
                let ghost view = (np.track_id@, np.end);
                self.user_activities.insert(presence.user_id, np);
                assert(self@ =~= old(self)@.insert(presence.user_id, view));
            },
            None => {
                self.user_activities.remove(&presence.user_id);
                assert(self@ =~= old(self)@.remove(presence.user_id));
            },
        }
    }

    /// The track that a member is listening to.
    pub fn user_now_playing(&self, user_id: u64) -> (track_id: Option<String>)
        ensures
            opt_text(track_id) == (if self@.contains_key(user_id) {
                Some(self@[user_id].0)
            } else {
                None
            }),
    {
        broadcast use vstd::std_specs::hash::group_hash_axioms;

        match self.user_activities.get(&user_id) {
            Some(np) => Some(np.track_id.clone()),
            None => None,
        }
    }
}

} // verus!
