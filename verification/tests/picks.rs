use humble_ledger::acquiring_taste::{
    build_playlist_from_picks, check_link, format_playlist_title,
    get_acquiring_taste_submissions, join_invalid, pick_from_shortened_link, pick_from_track,
    plan_playlist, resolve_pick, sort_picks, AcquiringTastePick, BuildPlan, BuildPlaylist,
    InvalidPick, PickLink, ShortLinkError, Variables,
};
use humble_ledger::providers::{
    artists_to_string, contents, Bandcamp, Found, PageError, Spotify, VideoError, Youtube,
};

fn row(cells: &[&str]) -> Vec<String> {
    cells.iter().map(|c| c.to_string()).collect()
}

fn pick(submitter: &str, song: &str, link: &str) -> AcquiringTastePick {
    AcquiringTastePick {
        submitter: submitter.to_string(),
        song: song.to_string(),
        link: link.to_string(),
    }
}

fn fields(v: &Variables) -> (usize, usize, Option<String>, usize) {
    (v.last_row, v.edition, v.last_playlist.clone(), v.current_row)
}

#[test]
fn variables_are_read_from_their_row() {
    assert_eq!(
        fields(&Variables::from_row(&row(&["12", "3", "spotify:playlist:abc", "40"]))),
        (12, 3, Some("spotify:playlist:abc".to_string()), 40)
    );
    assert_eq!(fields(&Variables::from_row(&row(&[]))), (1, 0, None, 1));
    assert_eq!(fields(&Variables::from_row(&row(&["x", "-2", "", "1.5"]))), (1, 0, None, 1));
    assert_eq!(fields(&Variables::from_row(&row(&["+5", "07"]))), (5, 7, None, 1));
    assert_eq!(fields(&Variables::get(None)), (1, 0, None, 1));
    assert_eq!(fields(&Variables::get(Some(&vec![]))), (1, 0, None, 1));
    assert_eq!(
        fields(&Variables::get(Some(&vec![row(&["9", "9", "p", "9"]), row(&["2", "4", "q", "6"])]))),
        (2, 4, Some("q".to_string()), 6)
    );
    let stored = Variables { last_row: 40, edition: 4, last_playlist: None, current_row: 0 };
    assert_eq!(stored.set(), vec!["40", "4", ""]);
    let stored = Variables {
        last_row: 0,
        edition: 10,
        last_playlist: Some("spotify:playlist:abc".to_string()),
        current_row: 7,
    };
    assert_eq!(stored.set(), vec!["0", "10", "spotify:playlist:abc"]);
}

#[test]
fn links_of_picks_are_told_apart() {
    match resolve_pick("https://open.spotify.com/track/4y4VO05kYgUTo2bzbox1an?si=abc") {
        PickLink::Track(id) => assert_eq!(id, "4y4VO05kYgUTo2bzbox1an"),
        other => panic!("unexpected {:?}", other),
    }
    match resolve_pick("https://open.spotify.com/track/abc/extra") {
        PickLink::Track(id) => assert_eq!(id, "abc"),
        other => panic!("unexpected {:?}", other),
    }
    assert!(matches!(resolve_pick("https://spotify.link/AbCdEf"), PickLink::Shortened));
    assert!(matches!(resolve_pick("https://spotify.link/a/b"), PickLink::NotSpotify));
    assert!(matches!(resolve_pick("https://open.spotify.com/album/abc"), PickLink::NotSpotify));
    assert!(matches!(resolve_pick("https://open.spotify.com/track"), PickLink::NotSpotify));
    assert!(matches!(resolve_pick("https://example.com/track/abc"), PickLink::NotSpotify));
    assert!(matches!(resolve_pick("not a url"), PickLink::NotUrl));
    assert!(matches!(resolve_pick(""), PickLink::NotUrl));
}

#[test]
fn short_links_lead_on_to_tracks() {
    assert_eq!(
        pick_from_shortened_link(Some("https://open.spotify.com/track/abc?si=1")).unwrap(),
        "abc"
    );
    let error = |location: Option<&str>| pick_from_shortened_link(location).unwrap_err();
    assert!(matches!(error(None), ShortLinkError::NoLocation));
    assert_eq!(error(None).message(), "Not a valid spotify URL");
    assert!(matches!(error(Some("::")), ShortLinkError::InvalidLocation));
    assert_eq!(error(Some("::")).message(), "Spotify shortened URL points to invalid URL");
    assert_eq!(
        error(Some("https://open.spotify.com/album/abc")).message(),
        "Not a spotify track URL: https://open.spotify.com/album/abc"
    );
}

#[test]
fn short_link_fault_gives_the_address_as_parsed() {
    let error = pick_from_shortened_link(Some("HTTPS://Open.Spotify.COM/album/a b")).unwrap_err();
    assert_eq!(
        error.message(),
        "Not a spotify track URL: https://open.spotify.com/album/a%20b"
    );
    let error = pick_from_shortened_link(Some("https://spotify.link")).unwrap_err();
    assert_eq!(error.message(), "Not a spotify track URL: https://spotify.link/");
}

#[test]
fn links_that_cannot_be_followed_say_why() {
    assert_eq!(resolve_pick("nope").fault().as_deref(), Some("Not a valid URL"));
    assert_eq!(
        resolve_pick("https://example.com/track/abc").fault().as_deref(),
        Some("Not a spotify URL")
    );
    assert_eq!(resolve_pick("https://open.spotify.com/track/abc").fault(), None);
    assert_eq!(resolve_pick("https://spotify.link/xyz").fault(), None);
}

#[test]
fn no_picks_answer_that_nothing_is_new() {
    let variables = Variables::from_row(&vec![]);
    let plan = plan_playlist(&variables, Vec::new(), true);
    assert!(matches!(plan, BuildPlan::NoPicks));
    assert_eq!(plan.answer().as_deref(), Some("No new picks to add"));
    let plan = plan_playlist(&variables, Vec::new(), false);
    assert_eq!(plan.answer().as_deref(), Some("No new picks to add"));
    let pick =
        pick_from_track("ann", &vec!["A".to_string()], "T", "https://open.spotify.com/track/abc");
    let plan = plan_playlist(&variables, vec![pick], true);
    assert_eq!(plan.answer(), None);
}

#[test]
fn unresolved_picks_come_before_those_turned_down() {
    let pick = |who: &str, link: &str| AcquiringTastePick {
        submitter: who.to_string(),
        song: format!("{who}'s song"),
        link: link.to_string(),
    };
    let sorted = sort_picks(&vec![
        pick("ann", "https://open.spotify.com/track/4y4VO05kYgUTo2bzbox1an"),
        pick("bob", "https://open.spotify.com/album/abc"),
    ]);
    let unresolved = vec![
        InvalidPick { pick: pick("cy", "nope"), reason: "Not a valid URL".to_string() },
        InvalidPick { pick: pick("di", "https://x.y/"), reason: "Not a spotify URL".to_string() },
    ];
    let all = join_invalid(unresolved, sorted);
    let valid: Vec<&str> = all.valid.iter().map(|p| p.submitter.as_str()).collect();
    assert_eq!(valid, vec!["ann"]);
    let invalid: Vec<&str> = all.invalid.iter().map(|p| p.pick.submitter.as_str()).collect();
    assert_eq!(invalid, vec!["cy", "di", "bob"]);
    let none = join_invalid(Vec::new(), sort_picks(&Vec::new()));
    assert!(none.valid.is_empty() && none.invalid.is_empty());
}

#[test]
fn picks_are_sorted_by_their_links() {
    assert_eq!(check_link("https://open.spotify.com/track/4y4VO05kYgUTo2bzbox1an"), None);
    assert_eq!(check_link("nope").as_deref(), Some("not a url: nope"));
    assert_eq!(
        check_link("https://open.spotify.com/album/abc").as_deref(),
        Some("not a spotify track url: <https://open.spotify.com/album/abc>")
    );
    assert_eq!(
        check_link("https://open.spotify.com/track/abc-123").as_deref(),
        Some("InvalidId")
    );
    let picks = vec![
        pick("a", "A", "https://open.spotify.com/track/aaa"),
        pick("b", "B", "nope"),
        pick("c", "C", "https://open.spotify.com/track/ccc"),
        pick("d", "D", "https://open.spotify.com/album/ddd"),
    ];
    let sorted = sort_picks(&picks);
    let valid: Vec<&str> = sorted.valid.iter().map(|p| p.submitter.as_str()).collect();
    assert_eq!(valid, vec!["a", "c"]);
    let invalid: Vec<(&str, &str)> =
        sorted.invalid.iter().map(|i| (i.pick.submitter.as_str(), i.reason.as_str())).collect();
    assert_eq!(
        invalid,
        vec![
            ("b", "not a url: nope"),
            ("d", "not a spotify track url: <https://open.spotify.com/album/ddd>"),
        ]
    );
}

#[test]
fn picks_are_read_from_the_sheet() {
    let rows = vec![row(&["a", "A - One", "l1", "extra"]), row(&["b", "B - Two", "l2"])];
    let picks = get_acquiring_taste_submissions(Some(&rows)).unwrap();
    let read: Vec<(&str, &str, &str)> =
        picks.iter().map(|p| (p.submitter.as_str(), p.song.as_str(), p.link.as_str())).collect();
    assert_eq!(read, vec![("a", "A - One", "l1"), ("b", "B - Two", "l2")]);
    assert_eq!(
        get_acquiring_taste_submissions(None).unwrap_err().message(),
        "No submissions found on this sheet"
    );
    let made = pick_from_track("bob", &vec!["A".to_string(), "B".to_string()], "Song", "u");
    assert_eq!((made.submitter.as_str(), made.song.as_str(), made.link.as_str()), ("bob", "A, B - Song", "u"));
}

#[test]
fn playlist_is_planned() {
    let variables = Variables {
        last_row: 3,
        edition: 4,
        last_playlist: Some("spotify:playlist:37i9dQZF1DXcBWIGoYBM5M".to_string()),
        current_row: 9,
    };
    assert!(matches!(plan_playlist(&variables, vec![], true), BuildPlan::NoPicks));
    let picks: Vec<AcquiringTastePick> =
        (0..40).map(|i| pick(&format!("m{}", i), "s", "l")).collect();
    let order = |picks: &Vec<AcquiringTastePick>| -> Vec<String> {
        picks.iter().map(|p| p.submitter.clone()).collect()
    };
    match plan_playlist(&variables, picks.clone(), true) {
        BuildPlan::Build { picks: shuffled, playlist, edition } => {
            assert_eq!(playlist, None);
            assert_eq!(edition, 5);
            assert_ne!(order(&shuffled), order(&picks));
            let mut sorted = order(&shuffled);
            sorted.sort();
            let mut expected = order(&picks);
            expected.sort();
            assert_eq!(sorted, expected);
        }
        other => panic!("unexpected {:?}", other),
    }
    match plan_playlist(&variables, picks.clone(), false) {
        BuildPlan::Build { playlist, edition, .. } => {
            assert_eq!(playlist.as_deref(), Some("37i9dQZF1DXcBWIGoYBM5M"));
            assert_eq!(edition, 4);
        }
        other => panic!("unexpected {:?}", other),
    }
    let fresh = Variables { last_playlist: None, ..variables.clone() };
    assert!(matches!(
        plan_playlist(&fresh, picks.clone(), false),
        BuildPlan::Build { playlist: None, edition: 4, .. }
    ));
    let broken = Variables { last_playlist: Some("not an id!".to_string()), ..variables.clone() };
    assert!(matches!(
        plan_playlist(&broken, picks, false),
        BuildPlan::Build { playlist: None, .. }
    ));
    assert!(BuildPlaylist { reuse: None }.increment_edition());
    assert!(BuildPlaylist { reuse: Some(false) }.increment_edition());
    assert!(!BuildPlaylist { reuse: Some(true) }.increment_edition());
    assert_eq!(format_playlist_title(12, "2024-05-01"), "I&W Acquiring the Taste #12 | 2024-05-01");
}

#[test]
fn built_playlist_is_reported() {
    let before = Variables {
        last_row: 3,
        edition: 4,
        last_playlist: Some("spotify:playlist:old".to_string()),
        current_row: 9,
    };
    let sorted = sort_picks(&vec![
        pick("a", "A - One", "https://open.spotify.com/track/aaa"),
        pick("b", "B - Two", "nope"),
        pick("c", "C - Three", "https://open.spotify.com/track/ccc"),
    ]);
    let report = build_playlist_from_picks(&before, 5, true, "NEWID", "2024-05-01", &sorted);
    assert_eq!(
        (
            report.variables.last_row,
            report.variables.edition,
            report.variables.last_playlist.as_deref(),
            report.variables.current_row
        ),
        (9, 5, Some("spotify:playlist:NEWID"), 0)
    );
    assert_eq!(
        report.playlist_row,
        Some(row(&["5", "2024-05-01", "https://open.spotify.com/playlist/NEWID"]))
    );
    assert_eq!(
        report.pick_rows,
        vec![
            row(&["5", "a", "", "A - One", "https://open.spotify.com/track/aaa"]),
            row(&["5", "c", "", "C - Three", "https://open.spotify.com/track/ccc"]),
        ]
    );
    assert_eq!(
        report.response,
        "Created a playlist with 2 tracks.\nhttps://open.spotify.com/playlist/NEWID\n\
         1 picks were invalid and could not be added:\nb's pick (B - Two): not a url: nope"
    );
    let all_valid = sort_picks(&vec![pick("a", "A", "https://open.spotify.com/track/aaa")]);
    let reused = build_playlist_from_picks(&before, 4, false, "old", "2024-05-01", &all_valid);
    assert_eq!(reused.playlist_row, None);
    assert_eq!(
        reused.response,
        "Added 1 tracks to existing playlist.\nhttps://open.spotify.com/playlist/old"
    );
    let first = Variables { last_playlist: None, ..before };
    let made = build_playlist_from_picks(&first, 0, false, "id", "d", &sort_picks(&vec![]));
    assert_eq!(made.response, "Created a playlist with 0 tracks.\nhttps://open.spotify.com/playlist/id");
    assert!(made.pick_rows.is_empty());
}

#[test]
fn spotify_addresses_hold_identifiers() {
    assert_eq!(
        Spotify::get_song_from_url("https://open.spotify.com/track/abc?si=1?x").unwrap(),
        "abc"
    );
    assert_eq!(Spotify::get_song_from_url("https://open.spotify.com/track/").unwrap(), "");
    let error = Spotify::get_song_from_url("https://open.spotify.com/album/abc").unwrap_err();
    assert_eq!(error.message(), "Invalid spotify url");
    assert_eq!(Spotify::get_from_url("https://open.spotify.com/album/xyz").unwrap(), "xyz");
    assert!(Spotify::get_from_url("http://open.spotify.com/album/xyz").is_err());
    let artists = vec!["A".to_string(), "B".to_string(), "C".to_string()];
    assert_eq!(artists_to_string(&artists), "A, B, C");
    assert_eq!(artists_to_string(&vec![]), "");
    let album = Spotify::get_album_from_id("Nm", &artists);
    assert_eq!(album.format_name(), "A, B, C - Nm");
    let found = vec![
        Found { artist: Some("A".to_string()), name: "One".to_string(), url: Some("u".to_string()) },
        Found { artist: None, name: "Two".to_string(), url: None },
    ];
    let expected = vec![
        ("A - One".to_string(), "u".to_string()),
        (" - Two".to_string(), String::new()),
    ];
    assert_eq!(Spotify::query_albums(&found), expected);
    assert_eq!(Spotify::query_songs(&found), expected);
}

const PAGE: &str = "<html><body><h2 class=\"trackTitle\">\n   My Album \u{a0}</h2>\
    <div id=\"name-section\"><h3><span><a href=\"/artist\">  The Artist </a></span></h3></div>\
    <ul><li class=\"result-info\"><div class=\"heading\"><a href=\"https://x.bandcamp.com/album/y\">Y</a></div></li></ul>\
    </body></html>";

#[test]
fn albums_are_read_off_pages() {
    let album = Bandcamp::get_from_url(PAGE).unwrap();
    assert_eq!((album.name.as_str(), album.artist.as_str()), ("My Album", "The Artist"));
    assert_eq!(contents(PAGE, ".trackTitle").as_deref(), Some("My Album"));
    assert_eq!(contents(PAGE, ".missing"), None);
    assert_eq!(contents(PAGE, "not a selector !!"), None);
    assert_eq!(Bandcamp::query_album(PAGE).unwrap(), "https://x.bandcamp.com/album/y");
    let titled = "<h2 class=\"trackTitle\">T</h2>";
    assert_eq!(Bandcamp::get_from_url(titled).unwrap_err(), PageError::NoArtist);
    assert_eq!(Bandcamp::get_from_url("<p>x</p>").unwrap_err(), PageError::NotAlbumPage);
    assert_eq!(Bandcamp::query_album("<p>x</p>").unwrap_err(), PageError::NotFound);
    assert_eq!(PageError::NotAlbumPage.message(), "Not an album page");
    assert_eq!(PageError::NoArtist.message(), "Could not find album artist");
    assert_eq!(PageError::NotFound.message(), "Not found");
}

#[test]
fn videos_are_named_by_their_addresses() {
    assert_eq!(Youtube::get_from_url("https://www.youtube.com/watch?t=1&v=abc%20d&v=z").unwrap(), "abc d");
    assert_eq!(Youtube::get_from_url("https://youtu.be/xyz").unwrap(), "xyz");
    assert_eq!(Youtube::get_from_url("https://youtu.be/a/b/").unwrap(), "");
    assert_eq!(Youtube::get_from_url("nope").unwrap_err(), VideoError::InvalidUrl);
    assert_eq!(Youtube::get_from_url("mailto:a@b.c").unwrap_err(), VideoError::InvalidYoutubeUrl);
    assert_eq!(VideoError::InvalidUrl.message(), "Invalid URL");
    assert_eq!(VideoError::InvalidYoutubeUrl.message(), "Invalid youtube url");
    let album = Youtube::album(Some("Title")).unwrap();
    assert_eq!(album.format_name(), "Title");
    assert_eq!(Youtube::album(None).unwrap_err(), VideoError::NoTitle);
    assert_eq!(VideoError::NoTitle.message(), "Could not find video title");
}
