//! The rules of a chat bot for a music community.
//!
//! The heart of it is the listening party: from the instant at which a
//! party started and the running times of its tracks, `playback` works out
//! which track is playing and how far into it, and `lp_info` keeps one party
//! for each channel and writes what is shown of it. Around that stand the
//! album club, the playlists that members submit songs to, the forms that
//! become commands, and the playlist built from members' picks.
//!
//! Nothing here talks to the chat, to the music service or to a sheet: the
//! functions take what was fetched and give what is to be sent. The few
//! calls that leave the crate are gathered in `outside`.

pub mod acquiring_taste;
pub mod album;
pub mod album_club;
pub mod command;
pub mod complete;
pub mod events;
pub mod forms;
pub mod lp;
pub mod lp_info;
pub mod outside;
pub mod playback;
pub mod playlist;
pub mod providers;
pub mod spotify_activity;
pub mod submit;
pub mod text;
