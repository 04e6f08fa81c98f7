use humble_ledger::lp_info::{match_spotify_album, match_spotify_playlist};

#[test]
fn match_spotify_album_parses() {
    let aid = "4ddRx20FxcGU2ZJhateVym";

    let uris: &'static [&'static str] = &[
        "https://open.spotify.com/album/4ddRx20FxcGU2ZJhateVym", // regular
        "https://open.spotify.com/album/4ddRx20FxcGU2ZJhateVym\
            ?si=RQNX_vP_SN6Ct4haVZeHDA", // ?si=
        "https://open.spotify.com/intl-de/album\
         /4ddRx20FxcGU2ZJhateVym", // intl
        "https://open.spotify.com/intl-de/album\
         /4ddRx20FxcGU2ZJhateVym?si=RQNX_vP_SN6Ct4haVZeHDA", // intl + ?si=
    ];

    for uri in uris {
        assert_eq!(match_spotify_album(uri), Some(aid));
    }
}

#[test]
fn match_spotify_playlist_parses() {
    let pid = "5Yy6oc82tIR8k25BdHcsdq";

    let uris: &'static [&'static str] = &[
        //regular
        "https://open.spotify.com/playlist/5Yy6oc82tIR8k25BdHcsdq",
        // ?si=
        "https://open.spotify.com/playlist/5Yy6oc82tIR8k25BdHcsdq\
             ?si=574a09e801af4003",
        // intl
        "https://open.spotify.com/intl-de/playlist/5Yy6oc82tIR8k25BdHcsdq",
        // intl + ?si=
        "https://open.spotify.com/intl-de/playlist/5Yy6oc82tIR8k25BdHcsdq\
             ?si=574a09e801af4003",
    ];

    for uri in uris {
        assert_eq!(match_spotify_playlist(uri), Some(pid));
    }
}

const ALBUM: &str = "4ddRx20FxcGU2ZJhateVym";
const PLAYLIST: &str = "5Yy6oc82tIR8k25BdHcsdq";

#[test]
fn album_regular() {
    assert_eq!(
        match_spotify_album("https://open.spotify.com/album/4ddRx20FxcGU2ZJhateVym"),
        Some(ALBUM)
    );
}

#[test]
fn album_si() {
    assert_eq!(
        match_spotify_album(
            "https://open.spotify.com/album/4ddRx20FxcGU2ZJhateVym?si=RQNX_vP_SN6Ct4haVZeHDA"
        ),
        Some(ALBUM)
    );
}

#[test]
fn album_intl() {
    assert_eq!(
        match_spotify_album("https://open.spotify.com/intl-de/album/4ddRx20FxcGU2ZJhateVym"),
        Some(ALBUM)
    );
}

#[test]
fn album_intl_si() {
    assert_eq!(
        match_spotify_album(
            "https://open.spotify.com/intl-de/album/4ddRx20FxcGU2ZJhateVym?si=RQNX_vP_SN6Ct4haVZeHDA"
        ),
        Some(ALBUM)
    );
}

#[test]
fn playlist_regular() {
    assert_eq!(
        match_spotify_playlist("https://open.spotify.com/playlist/5Yy6oc82tIR8k25BdHcsdq"),
        Some(PLAYLIST)
    );
}

#[test]
fn playlist_si() {
    assert_eq!(
        match_spotify_playlist(
            "https://open.spotify.com/playlist/5Yy6oc82tIR8k25BdHcsdq?si=574a09e801af4003"
        ),
        Some(PLAYLIST)
    );
}

#[test]
fn playlist_intl() {
    assert_eq!(
        match_spotify_playlist("https://open.spotify.com/intl-de/playlist/5Yy6oc82tIR8k25BdHcsdq"),
        Some(PLAYLIST)
    );
}

#[test]
fn playlist_intl_si() {
    assert_eq!(
        match_spotify_playlist(
            "https://open.spotify.com/intl-de/playlist/5Yy6oc82tIR8k25BdHcsdq?si=574a09e801af4003"
        ),
        Some(PLAYLIST)
    );
}

#[test]
fn links_are_found_inside_a_line_only_at_word_ends() {
    assert_eq!(
        match_spotify_album("listen: https://open.spotify.com/album/abc123, tonight"),
        Some("abc123")
    );
    assert_eq!(match_spotify_album("https://open.spotify.com/album/abc_123"), None);
    assert_eq!(match_spotify_album("xhttps://open.spotify.com/album/abc"), None);
    assert_eq!(match_spotify_album("https://open.spotify.com/playlist/abc"), None);
    assert_eq!(match_spotify_playlist("https://open.spotify.com/album/abc"), None);
    assert_eq!(match_spotify_playlist(""), None);
}
