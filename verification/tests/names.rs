use humble_ledger::album::{find_provider, Album, AlbumProvider};
use humble_ledger::album_club::{category_choices, AlbumCategory, SubmitAlbum};
use humble_ledger::command::{
    find_command, get_focused_option, get_str_opt_ac, CommandDataOption, CommandDataOptionValue,
    CommandResponse, KnownCommand, ResponseType,
};
use humble_ledger::forms::sanitize_name;
use humble_ledger::playlist::{
    format_song, mention_command, ListPlaylists, RegisterPlaylist, RemovePlaylist, Song,
    SubmitError, SubmitPlaylist,
};
use humble_ledger::providers::{Bandcamp, Spotify, Youtube};
use humble_ledger::text::{
    contains, join, parse_decimal, parse_hex, split, starts_with, strip_both, strip_prefix, up_to,
    user_handle,
};

fn text(response: CommandResponse) -> (bool, String) {
    match response {
        CommandResponse::Public(ResponseType::Text(t)) => (true, t),
        CommandResponse::Private(ResponseType::Text(t)) => (false, t),
        other => panic!("unexpected {:?}", other),
    }
}

#[test]
fn album_is_listed_with_its_artist() {
    let album = Album { name: "Nm".to_string(), artist: "Art".to_string() };
    assert_eq!(album.format_name(), "Art - Nm");
    let nameless = Album { name: "Nm".to_string(), artist: String::new() };
    assert_eq!(nameless.format_name(), "Nm");
}

#[test]
fn names_are_sanitized() {
    assert_eq!(sanitize_name("  Hello World!  "), "hello_world");
    assert_eq!(sanitize_name("Artist - Song / Link"), "artist_song_link");
    assert_eq!(sanitize_name("Café Olé"), "caf_ol");
    assert_eq!(sanitize_name("a__b"), "a_b");
    assert_eq!(sanitize_name("-a-"), "_a_");
    assert_eq!(sanitize_name("\t x \n"), "x");
    assert_eq!(sanitize_name(""), "");
    assert_eq!(sanitize_name("A.B&C+D"), "a_b_c_d");
    assert_eq!(
        sanitize_name("abcdefghijklmnopqrstuvwxyz0123456789"),
        "abcdefghijklmnopqrstuvwxyz012345"
    );
    assert_eq!(
        sanitize_name("abcdefghijklmnopqrstuvwxyz01234 _ _ 56789"),
        "abcdefghijklmnopqrstuvwxyz01234_"
    );
}

#[test]
fn playlist_command_is_named_after_the_playlist() {
    let playlist = |name: &str| RegisterPlaylist {
        name: name.to_string(),
        spreadsheet_id: String::new(),
        has_backup: false,
    };
    assert_eq!(playlist("My Playlist 2024!").command_name(), "submit_my_playlist_2024");
    assert_eq!(playlist("A  B").command_name(), "submit_a__b");
    assert_eq!(playlist(" Été_x ").command_name(), "submit__t_x_");
    assert_eq!(playlist("").command_name(), "submit_");
}

#[test]
fn spreadsheet_is_named_by_identifier() {
    let mut by_url = RegisterPlaylist {
        name: "P".to_string(),
        spreadsheet_id: "https://docs.google.com/spreadsheets/d/abc-DEF_1/edit#gid=0".to_string(),
        has_backup: true,
    };
    by_url.normalize();
    assert_eq!(by_url.spreadsheet_id, "abc-DEF_1");
    assert!(by_url.has_backup);
    let mut by_id = RegisterPlaylist {
        name: "P".to_string(),
        spreadsheet_id: "abc-DEF_1".to_string(),
        has_backup: false,
    };
    by_id.normalize();
    assert_eq!(by_id.spreadsheet_id, "abc-DEF_1");
}

#[test]
fn playlist_registers_its_command() {
    let playlist = RegisterPlaylist {
        name: "Rock Week".to_string(),
        spreadsheet_id: "s".to_string(),
        has_backup: true,
    };
    let command = playlist.register();
    assert_eq!(command.name, "submit_rock_week");
    assert_eq!(command.description, "Submit a song to the Rock Week playlist");
    let options: Vec<(String, String, bool, bool)> = command
        .options
        .iter()
        .map(|o| (o.name.clone(), o.description.clone(), o.required, o.autocomplete))
        .collect();
    assert_eq!(
        options,
        vec![
            ("link".to_string(), "Spotify link to your pick".to_string(), true, true),
            ("backup_link".to_string(), "Spotify link to your backup pick".to_string(), true, true),
        ]
    );
    assert_eq!(
        text(playlist.respond(42)),
        (
            true,
            "Registered playlist 'Rock Week'\nUsers can add submissions with \
             </submit_rock_week:42> (`</submit_rock_week:42>`)"
                .to_string()
        )
    );
    let single =
        RegisterPlaylist { name: "X".to_string(), spreadsheet_id: "s".to_string(), has_backup: false };
    assert_eq!(single.register().options.len(), 1);
}

fn known(name: &str, id: u64) -> KnownCommand {
    KnownCommand { name: name.to_string(), id }
}

#[test]
fn commands_are_found_by_name() {
    let commands = vec![known("a", 1), known("b", 2), known("a", 3)];
    assert_eq!(find_command(&commands, "a").map(|c| c.id), Some(1));
    assert_eq!(find_command(&commands, "b").map(|c| c.id), Some(2));
    assert!(find_command(&commands, "c").is_none());
    let remove = RemovePlaylist { command_name: "b".to_string() };
    assert_eq!(remove.target(&commands).map(|c| c.id), Some(2));
    assert_eq!(text(remove.respond()), (true, "Removed command /b".to_string()));
    assert_eq!(mention_command("cmd", 18_446_744_073_709_551_615), "</cmd:18446744073709551615>");
}

#[test]
fn playlists_are_listed_with_their_commands() {
    let playlist = |name: &str| RegisterPlaylist {
        name: name.to_string(),
        spreadsheet_id: String::new(),
        has_backup: false,
    };
    let global = vec![known("other", 1), known("submit_album_club", 9)];
    let guild = vec![known("submit_rock", 5), known("submit_jazz_night", 6)];
    let playlists = vec![playlist("Jazz Night"), playlist("Gone"), playlist("Rock")];
    match (ListPlaylists {}).respond(&global, &playlists, &guild) {
        CommandResponse::Public(ResponseType::Embed(embed)) => {
            assert_eq!(embed.title.as_deref(), Some("Registered playlists"));
            assert_eq!(
                embed.description.as_deref(),
                Some(
                    "· Album Club: </submit_album_club:9>\n\
                     · Jazz Night: </submit_jazz_night:6>\n\
                     · Rock: </submit_rock:5>"
                )
            );
        }
        other => panic!("unexpected {:?}", other),
    }
    match (ListPlaylists {}).respond(&vec![], &vec![], &guild) {
        CommandResponse::Public(ResponseType::Embed(embed)) => {
            assert_eq!(embed.description.as_deref(), Some(""))
        }
        other => panic!("unexpected {:?}", other),
    }
}

fn song(artists: &[&str], name: &str, url: &str, duration: u64) -> Song {
    Song {
        artists: artists.iter().map(|a| a.to_string()).collect(),
        name: name.to_string(),
        url: url.to_string(),
        duration,
    }
}

#[test]
fn song_goes_to_the_playlist_sheet() {
    let first = song(&["A", "B"], "One", "u1", 1_200_000);
    let second = song(&["C"], "Two", "u2", 5);
    assert_eq!(format_song(&first), "A, B - One");
    let alone = SubmitPlaylist::submission("ts", "bob#0007", &first, None).unwrap();
    assert_eq!(alone.row, vec!["ts", "bob#0007", "A, B - One", "u1", "", ""]);
    assert_eq!(text(alone.response), (false, "Submitted A, B - One to playlist\nu1".to_string()));
    let both = SubmitPlaylist::submission("ts", "bob#0007", &first, Some(&second)).unwrap();
    assert_eq!(both.row, vec!["ts", "bob#0007", "A, B - One", "u1", "C - Two", "u2"]);
    assert_eq!(
        text(both.response),
        (false, "Submitted A, B - One and C - Two to playlist\nu1\nu2".to_string())
    );
}

#[test]
fn song_over_twenty_minutes_is_turned_down() {
    let long = song(&["A"], "Long", "u", 1_200_001);
    let short = song(&["A"], "Short", "u", 1);
    let error = SubmitPlaylist::submission("ts", "h", &long, None).unwrap_err();
    assert_eq!(error, SubmitError::SongTooLong);
    assert_eq!(error.message(), "This song is too long!");
    assert!(SubmitPlaylist::submission("ts", "h", &short, Some(&long)).is_err());
    assert_eq!(SubmitPlaylist::check_song(&long), Err(SubmitError::SongTooLong));
    assert_eq!(SubmitPlaylist::check_song(&short), Ok(()));
    assert_eq!(SubmitPlaylist::check_song(&song(&["A"], "Edge", "u", 1_200_000)), Ok(()));
}

#[test]
fn album_goes_to_the_cells_of_its_category() {
    let submit = |category: &str| SubmitAlbum { category: category.to_string(), link: "L".to_string() };
    let metal = submit("Metal").submission("ts", "bob#0007", Some("A - B")).unwrap();
    assert_eq!(metal.row, vec!["ts", "bob#0007", "", "", "A - B", "L", "", ""]);
    assert_eq!(text(metal.response), (false, "Submitted A - B to the Metal category".to_string()));
    let rock = submit("Rock").submission("ts", "bob#0007", None).unwrap();
    assert_eq!(rock.row, vec!["ts", "bob#0007", "", "L", "", "", "", ""]);
    assert_eq!(text(rock.response), (false, "Submitted L to the Rock category".to_string()));
    let other = submit("Other").submission("ts", "h", Some("X")).unwrap();
    assert_eq!(other.row, vec!["ts", "h", "", "", "", "", "X", "L"]);
    let error = submit("Jazz").submission("ts", "h", None).unwrap_err();
    assert_eq!(error.message(), "Invalid category: Jazz");
}

#[test]
fn categories_have_names_and_numbers() {
    assert_eq!(category_choices(), vec!["Rock", "Metal", "Other"]);
    assert_eq!(AlbumCategory::from_str("Rock").unwrap(), AlbumCategory::Rock);
    assert_eq!(AlbumCategory::from_str("Metal").unwrap().index(), 2);
    assert_eq!(AlbumCategory::from_str("Other").unwrap().name(), "Other");
    assert!(AlbumCategory::from_str("rock").is_err());
    assert!(AlbumCategory::from_str("").is_err());
}

#[test]
fn services_know_their_addresses() {
    assert!(Spotify::new().url_matches("https://open.spotify.com/album/abc"));
    assert!(!Spotify::new().url_matches("https://open.spotify.com/track/abc"));
    assert!(!Spotify::new().url_matches("see https://open.spotify.com/album/abc"));
    assert!(Bandcamp::new().url_matches("https://artist.bandcamp.com/album/x"));
    assert!(!Bandcamp::new().url_matches("http://artist.bandcamp.com/album/x"));
    assert!(!Bandcamp::new().url_matches("https://bandcamp.com/"));
    assert!(Youtube::new().url_matches("https://www.youtube.com/watch?v=x"));
    assert!(Youtube::new().url_matches("youtu.be/x"));
    assert!(!Youtube::new().url_matches("https://example.com"));
    assert_eq!(Spotify::new().id(), "spotify");
    assert_eq!(Bandcamp::new().id(), "bandcamp");
    assert_eq!(Youtube::new().id(), "youtube");
    let providers = vec![Youtube::new(), Youtube::new()];
    assert_eq!(find_provider(&providers, "https://youtu.be/x"), Some(0));
    assert_eq!(find_provider(&providers, "https://example.com"), None);
}

#[test]
fn texts_are_searched_and_cut() {
    assert!(starts_with("https://x", "https://"));
    assert!(starts_with("abc", ""));
    assert!(!starts_with("ab", "abc"));
    assert!(contains("hello world", "o w"));
    assert!(contains("abc", ""));
    assert!(contains("abc", "abc"));
    assert!(!contains("abc", "abcd"));
    assert!(!contains("aab", "aba"));
    assert!(contains("héllo wörld", "wör"));
    assert_eq!(strip_prefix("/track/abc", "/track/"), Some("abc"));
    assert_eq!(strip_prefix("/track", "/track/"), None);
    assert_eq!(up_to("abc?x=1?y", '?'), "abc");
    assert_eq!(up_to("abc", '?'), "abc");
    assert_eq!(up_to("?abc", '?'), "");
    assert_eq!(strip_both("@@bob@", "@", ""), "bob@");
    assert_eq!(strip_both("ababXabab", "ab", "ab"), "X");
    assert_eq!(strip_both("abab", "ab", "ab"), "");
    assert_eq!(split("a/b//c", '/'), vec!["a", "b", "", "c"]);
    assert_eq!(split("", '/'), vec![""]);
    assert_eq!(split("abc/", '/'), vec!["abc", ""]);
    assert_eq!(join(&vec!["a".to_string(), "b".to_string()], ", "), "a, b");
    assert_eq!(join(&vec![], ", "), "");
    assert_eq!(user_handle("bob", 7), "bob#0007");
    assert_eq!(user_handle("bob", 12345), "bob#12345");
    assert_eq!(user_handle("bob", 0), "bob#0000");
}

#[test]
fn numbers_are_read() {
    assert_eq!(parse_hex("1a"), Some(26));
    assert_eq!(parse_hex("+FF"), Some(255));
    assert_eq!(parse_hex("0000000000000000000000"), Some(0));
    assert_eq!(parse_hex("ffffffffffffffff"), Some(u64::MAX));
    assert_eq!(parse_hex("10000000000000000"), None);
    assert_eq!(parse_hex(""), None);
    assert_eq!(parse_hex("+"), None);
    assert_eq!(parse_hex("-1"), None);
    assert_eq!(parse_hex("1g"), None);
    assert_eq!(parse_hex("1 "), None);
    assert_eq!(parse_decimal("42"), Some(42));
    assert_eq!(parse_decimal("+7"), Some(7));
    assert_eq!(parse_decimal("007"), Some(7));
    assert_eq!(parse_decimal("18446744073709551615"), "18446744073709551615".parse().ok());
    assert_eq!(parse_decimal("18446744073709551616"), None);
    assert_eq!(parse_decimal("4a"), None);
    assert_eq!(parse_decimal(""), None);
    assert_eq!(parse_decimal("-1"), None);
}

fn option(name: &str, value: CommandDataOptionValue) -> CommandDataOption {
    CommandDataOption { name: name.to_string(), value }
}

#[test]
fn options_are_read_by_name() {
    let options = vec![
        option("n", CommandDataOptionValue::Other),
        option("a", CommandDataOptionValue::Text("one".to_string())),
        option("b", CommandDataOptionValue::Autocomplete("typing".to_string())),
        option("a", CommandDataOptionValue::Text("two".to_string())),
        option("c", CommandDataOptionValue::Autocomplete("later".to_string())),
    ];
    assert_eq!(get_str_opt_ac(&options, "a"), Some("one"));
    assert_eq!(get_str_opt_ac(&options, "b"), Some("typing"));
    assert_eq!(get_str_opt_ac(&options, "n"), None);
    assert_eq!(get_str_opt_ac(&options, "z"), None);
    assert_eq!(get_focused_option(&options), Some("typing"));
    assert_eq!(get_focused_option(&options[..2].iter().map(|o| option(&o.name, CommandDataOptionValue::Other)).collect()), None);
}
