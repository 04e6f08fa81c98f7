use humble_ledger::lp::{build_embed_at, CurrentLP as PlainCurrentLP, LP, LP_ROLE};
use humble_ledger::command::{CommandResponse, ResponseType};
use humble_ledger::lp_info::{LinkTarget, Message, ModLPInfo, Role};
use humble_ledger::playback::{LPInfo, PlayState, PlaylistInfo, TrackInfo};
use humble_ledger::spotify_activity::{get_now_playing, Activity, Presence, SpotifyActivity};

fn party(name: &str) -> LPInfo {
    LPInfo::new(
        PlaylistInfo::PlaylistInfo { id: "pl".to_string(), name: name.to_string(), uri: None },
        vec![TrackInfo { number: 1, name: "One".to_string(), uri: None, duration: 180_000 }],
    )
}

fn message(guild: Option<u64>, roles: Vec<u64>, content: &str) -> Message {
    Message { guild_id: guild, channel_id: 7, content: content.to_string(), mention_roles: roles }
}

fn role(id: u64, name: &str) -> Role {
    Role { id, name: name.to_string() }
}

#[test]
fn each_channel_has_at_most_one_party() {
    let mut store = ModLPInfo::new();
    assert!(store.lp_info(7).is_none());
    store.ping(7, party("first"));
    store.ping(8, party("other"));
    store.ping(7, party("second"));
    match store.lp_info(7).unwrap().playlist() {
        PlaylistInfo::PlaylistInfo { name, .. } => assert_eq!(name, "second"),
        other => panic!("unexpected {:?}", other),
    }
    match store.lp_info(8).unwrap().playlist() {
        PlaylistInfo::PlaylistInfo { name, .. } => assert_eq!(name, "other"),
        other => panic!("unexpected {:?}", other),
    }
}

#[test]
fn a_ping_clears_the_start() {
    let mut store = ModLPInfo::new();
    let mut started = party("first");
    started.start(5);
    store.ping(7, started);
    assert_eq!(store.lp_info(7).unwrap().started(), None);
}

#[test]
fn ready_signal_starts_the_party_of_its_channel_only() {
    let mut store = ModLPInfo::new();
    store.start_lp_at(7, 1_000);
    assert!(store.lp_info(7).is_none());
    store.ping(7, party("first"));
    store.ping(8, party("other"));
    store.start_lp_at(7, 1_000);
    assert_eq!(store.lp_info(7).unwrap().started(), Some(1_000));
    assert_eq!(store.lp_info(8).unwrap().started(), None);
    store.start_lp(8);
    let started = store.lp_info(8).unwrap().started().unwrap();
    assert!(started > 1_600_000_000_000);
    assert!(matches!(
        store.lp_info(8).unwrap().now_playing(0),
        PlayState::Playing { position, .. } if position < 60_000
    ));
}

#[test]
fn roles_are_kept_by_name() {
    let mut store = ModLPInfo::new();
    assert!(store.wants_roles(Some(1)));
    assert!(!store.wants_roles(None));
    store.store_roles(
        1,
        &vec![
            role(10, "Moderator"),
            role(11, "Listening Party"),
            role(12, "listening party"),
            role(13, "Impromptu Listening Party"),
        ],
    );
    assert!(!store.wants_roles(Some(1)));
    assert!(store.wants_roles(Some(2)));
    let link = "come https://open.spotify.com/album/4ddRx20FxcGU2ZJhateVym now";
    assert!(store.is_ping(&message(Some(1), vec![5, 13], link)));
    assert!(store.is_ping(&message(Some(1), vec![11], link)));
    assert!(!store.is_ping(&message(Some(1), vec![10, 12], link)));
    assert!(!store.is_ping(&message(Some(2), vec![11], link)));
    assert!(!store.is_ping(&message(None, vec![11], link)));
    assert!(!store.is_ping(&message(Some(1), vec![], link)));
    match store.handle_message(&message(Some(1), vec![11], link)) {
        Some(LinkTarget::Album(id)) => assert_eq!(id, "4ddRx20FxcGU2ZJhateVym"),
        other => panic!("unexpected {:?}", other),
    }
    assert!(store.handle_message(&message(Some(1), vec![10], link)).is_none());
    assert!(store.handle_message(&message(Some(1), vec![11], "no link here")).is_none());
}

#[test]
fn album_goes_before_playlist() {
    let both = "https://open.spotify.com/playlist/5Yy6oc82tIR8k25BdHcsdq \
                https://open.spotify.com/album/4ddRx20FxcGU2ZJhateVym";
    match LinkTarget::from_match_string(both) {
        Some(LinkTarget::Album(id)) => assert_eq!(id, "4ddRx20FxcGU2ZJhateVym"),
        other => panic!("unexpected {:?}", other),
    }
    match LinkTarget::from_match_string("https://open.spotify.com/playlist/5Yy6oc82tIR8k25BdHcsdq") {
        Some(LinkTarget::Playlist(id)) => assert_eq!(id, "5Yy6oc82tIR8k25BdHcsdq"),
        other => panic!("unexpected {:?}", other),
    }
    assert!(LinkTarget::from_match_string("https://open.spotify.com/track/abc").is_none());
    assert!(matches!(LinkTarget::prefer(None, None), None));
    assert!(matches!(LinkTarget::prefer(None, Some("p")), Some(LinkTarget::Playlist(_))));
    assert!(matches!(LinkTarget::prefer(Some("a"), Some("p")), Some(LinkTarget::Album(_))));
}

#[test]
fn plain_store_goes_by_the_fixed_role() {
    let mut store = LP::new();
    let link = "https://open.spotify.com/intl-de/playlist/5Yy6oc82tIR8k25BdHcsdq?si=574a09e801af4003";
    match store.handle_message(&message(None, vec![1, LP_ROLE], link)) {
        Some(LinkTarget::Playlist(id)) => assert_eq!(id, "5Yy6oc82tIR8k25BdHcsdq"),
        other => panic!("unexpected {:?}", other),
    }
    assert!(store.handle_message(&message(None, vec![1], link)).is_none());
    store.start_lp_at(7, 5);
    assert!(store.lp_info(7).is_none());
    store.ping(7, party("first"));
    store.start_lp_at(7, 5);
    assert_eq!(store.lp_info(7).unwrap().started(), Some(5));
    store.start_lp(7);
    assert!(store.lp_info(7).unwrap().started().unwrap() > 1_600_000_000_000);
}

#[test]
fn plain_embed_shows_position_and_length() {
    let mut info = party("Mix");
    info.start(0);
    let embed = build_embed_at(&info, 61_000);
    assert_eq!(embed.description.as_deref(), Some("**Playlist**:\n Mix - \\[03:00\\]"));
    assert_eq!(embed.fields.len(), 1);
    assert_eq!(embed.fields[0].name, "Now playing");
    assert_eq!(embed.fields[0].value, "Track 1 - One - 01:01 / 03:00");
    assert!(embed.fields[0].inline);
    match (PlainCurrentLP {}).respond_at(None, 0) {
        CommandResponse::Public(ResponseType::Text(text)) => {
            assert_eq!(text, "There is no listening party at the moment.")
        }
        other => panic!("unexpected {:?}", other),
    }
    assert!(matches!(
        (PlainCurrentLP {}).respond_at(Some(&info), 0),
        CommandResponse::Public(ResponseType::Embed(_))
    ));
}

fn activity(listening: bool, name: &str, sync_id: Option<&str>, end: Option<u64>) -> Activity {
    Activity { listening, name: name.to_string(), sync_id: sync_id.map(|s| s.to_string()), end }
}

#[test]
fn presence_shows_what_is_played() {
    let presence = Presence {
        user_id: 3,
        activities: vec![
            activity(false, "Spotify", Some("aaa"), Some(1)),
            activity(true, "Other", Some("bbb"), Some(2)),
            activity(true, "Spotify", Some("4y4VO05kYgUTo2bzbox1an"), Some(9)),
            activity(true, "Spotify", Some("ccc"), Some(4)),
        ],
    };
    let np = get_now_playing(&presence).unwrap();
    assert_eq!(np.track_id, "4y4VO05kYgUTo2bzbox1an");
    assert_eq!(np.end, 9);
    let invalid = Presence {
        user_id: 3,
        activities: vec![activity(true, "Spotify", Some("not an id!"), Some(9))],
    };
    assert!(get_now_playing(&invalid).is_none());
    let endless = Presence {
        user_id: 3,
        activities: vec![activity(true, "Spotify", Some("4y4VO05kYgUTo2bzbox1an"), None)],
    };
    assert!(get_now_playing(&endless).is_none());

    let mut store = SpotifyActivity::new();
    assert_eq!(store.user_now_playing(3), None);
    store.presence_update(&presence);
    assert_eq!(store.user_now_playing(3).as_deref(), Some("4y4VO05kYgUTo2bzbox1an"));
    assert_eq!(store.user_now_playing(4), None);
    store.presence_update(&invalid);
    assert_eq!(store.user_now_playing(3), None);
}

#[test]
fn announcement_on_a_new_store_records_a_party() {
    let mut store = ModLPInfo::new();
    let link = "tonight: https://open.spotify.com/album/4ddRx20FxcGU2ZJhateVym";
    let announcement = message(Some(3), vec![21], link);
    assert!(store.handle_message(&announcement).is_none());
    assert!(store.wants_roles(announcement.guild_id));
    store.store_roles(3, &vec![role(20, "Everyone"), role(21, "Listening Party")]);
    assert!(!store.wants_roles(announcement.guild_id));
    let target = store.handle_message(&announcement);
    match &target {
        Some(LinkTarget::Album(id)) => assert_eq!(id, "4ddRx20FxcGU2ZJhateVym"),
        other => panic!("unexpected {:?}", other),
    }
    let mut old = party("Old");
    old.start(5);
    store.ping(8, party("Other"));
    store.ping(announcement.channel_id, old);
    store.start_lp_at(announcement.channel_id, 9);
    assert_eq!(store.lp_info(7).unwrap().started(), Some(9));
    store.ping(announcement.channel_id, party("Fresh"));
    let recorded = store.lp_info(7).unwrap();
    assert_eq!(recorded.started(), None);
    assert_eq!(recorded.tracks().len(), 1);
    assert!(matches!(
        recorded.playlist(),
        PlaylistInfo::PlaylistInfo { name, .. } if name == "Fresh"
    ));
    assert!(matches!(
        store.lp_info(8).unwrap().playlist(),
        PlaylistInfo::PlaylistInfo { name, .. } if name == "Other"
    ));
}

#[test]
fn track_identifiers_are_ascii_letters_and_digits() {
    let presence = |id: &str| Presence {
        user_id: 1,
        activities: vec![activity(true, "Spotify", Some(id), Some(10))],
    };
    assert!(get_now_playing(&presence("4y4VO05kYgUTo2bzbox1an")).is_some());
    assert!(get_now_playing(&presence("abc")).is_some());
    assert!(get_now_playing(&presence("")).is_some());
    assert!(get_now_playing(&presence("4y4VO05k-gUTo2bzbox1an")).is_none());
    assert!(get_now_playing(&presence("spotify:track:4y4VO05kYgUTo2bzbox1an")).is_none());
    assert!(get_now_playing(&presence("4y4VO05kYgUTo2bzbox1a\u{e9}")).is_none());
}
