//! The services that albums are looked up with, as far as their addresses
//! go.

use vstd::prelude::*;
use vstd::string::StringExecFns;
use crate::album::{Album, AlbumProvider};
use crate::command::opt_text;
use crate::outside::{
    first_attr, first_text, page_attr, page_text, pair_texts, parse_url, trim, trimmed,
    url_parses, url_path, url_query,
};
use crate::text::{
    before_first, chars_of, contains, contains_text, has_prefix, join, joined, same_text,
    slice_chars, split, split_text, starts_with, string_of, strip_prefix, stripped_prefix, texts,
    up_to,
};

verus! {

/// With what the address of a Spotify album begins.
pub const ALBUM_URL_START: &'static str = "https://open.spotify.com/album/";

/// With what the address of a Spotify track begins.
pub const TRACK_URL_START: &'static str = "https://open.spotify.com/track/";

/// The Spotify catalogue.
#[derive(Debug)]
pub struct Spotify {}

/// The Bandcamp store.
#[derive(Debug)]
pub struct Bandcamp {}

/// The YouTube video site.
#[derive(Debug)]
pub struct Youtube {}

impl AlbumProvider for Spotify {
    open spec fn takes(&self, url: Seq<char>) -> bool {
        has_prefix(url, ALBUM_URL_START@)
    }

    fn url_matches(&self, url: &str) -> (matches: bool) {
        starts_with(url, ALBUM_URL_START)
    }

    open spec fn name(&self) -> Seq<char> {
        "spotify"@
    }

    fn id(&self) -> (id: &'static str) {
        "spotify"
    }
}

impl AlbumProvider for Bandcamp {
    open spec fn takes(&self, url: Seq<char>) -> bool {
        has_prefix(url, "https://"@) && contains_text(url, ".bandcamp.com"@)
    }

    fn url_matches(&self, url: &str) -> (matches: bool) {
        starts_with(url, "https://") && contains(url, ".bandcamp.com")
    }

    open spec fn name(&self) -> Seq<char> {
        "bandcamp"@
    }

    fn id(&self) -> (id: &'static str) {
        "bandcamp"
    }
}

impl AlbumProvider for Youtube {
    open spec fn takes(&self, url: Seq<char>) -> bool {
        contains_text(url, "youtube.com"@) || contains_text(url, "youtu.be"@)
    }

    fn url_matches(&self, url: &str) -> (matches: bool) {
        contains(url, "youtube.com") || contains(url, "youtu.be")
    }

    open spec fn name(&self) -> Seq<char> {
        "youtube"@
    }

    fn id(&self) -> (id: &'static str) {
        "youtube"
    }
}

impl Bandcamp {
    pub fn new() -> Bandcamp {
        Bandcamp {  }
    }
}

impl Youtube {
    pub fn new() -> Youtube {
        Youtube {  }
    }
}

impl Spotify {
    pub fn new() -> Spotify {
        Spotify {  }
    }
}

/// The names of `artists` with commas between them.
pub fn artists_to_string(artists: &Vec<String>) -> (names: String)
    ensures
        names@ == joined(texts(artists@), ", "@),
{
    join(artists, ", ")
}

/// The identifier in an address that begins with `start`: what follows
/// `start`, up to the first question mark.
pub open spec fn id_after(url: Seq<char>, start: Seq<char>) -> Option<Seq<char>> {
    match stripped_prefix(url, start) {
        Some(rest) => Some(before_first(rest, '?')),
        None => None,
    }
}

/// The address is not one of Spotify's.
#[derive(Debug, PartialEq, Eq, Clone, Copy)]
pub struct InvalidSpotifyUrl {}

impl InvalidSpotifyUrl {
    /// What the member is told.
    pub fn message(&self) -> (text: String)
        ensures
            text@ == "Invalid spotify url"@,
    {
        String::from_str("Invalid spotify url")
    }
}

fn id_from_url<'a>(url: &'a str, start: &str) -> (id: Result<&'a str, InvalidSpotifyUrl>)
    ensures
        (match id {
            Ok(id) => Some(id@),
            Err(_) => None,
        }) == id_after(url@, start@),
{
    match strip_prefix(url, start) {
        Some(rest) => Ok(up_to(rest, '?')),
        None => Err(InvalidSpotifyUrl {  }),
    }
}

/// What a search of the music service found, as far as it is shown.
#[derive(Debug)]
pub struct Found {
    /// The name of the first artist.
    pub artist: Option<String>,
    pub name: String,
    pub url: Option<String>,
}

/// The choice that offers something found: "artist - name" and the
/// address, each empty where it is not known.
pub open spec fn found_choice(found: Found) -> (Seq<char>, Seq<char>) {
    (
        (match found.artist {
            Some(artist) => artist@,
            None => Seq::empty(),
        }) + " - "@ + found.name@,
        match found.url {
            Some(url) => url@,
            None => Seq::empty(),
        },
    )
}

fn choice_for(found: &Found) -> (choice: (String, String))
    ensures
        (choice.0@, choice.1@) == found_choice(*found),
{
    let mut label = match &found.artist {
        Some(artist) => artist.clone(),
        None => String::new(),
    };
    label.append(" - ");
    label.append(found.name.as_str());
    let url = match &found.url {
        Some(url) => url.clone(),
        None => String::new(),
    };
    (label, url)
}

fn choices_for(found: &Vec<Found>) -> (choices: Vec<(String, String)>)
    ensures
        pair_texts(choices@) == Seq::new(found@.len(), |i: int| found_choice(found@[i])),
{
    let mut choices: Vec<(String, String)> = Vec::new();
    let mut i: usize = 0;
    while i < found.len()
        invariant
            i <= found.len(),
            choices@.len() == i,
            forall|k: int|
                0 <= k < i ==> ((#[trigger] choices@[k]).0@, choices@[k].1@) == found_choice(
                    found@[k],
                ),
        decreases found.len() - i,
    {
        choices.push(choice_for(&found[i]));
        i = i + 1;
    }
    assert(pair_texts(choices@) =~= Seq::new(found@.len(), |i: int| found_choice(found@[i])));
    choices
}

impl Spotify {
    /// The identifier of the track at `url`.
    pub fn get_song_from_url(url: &str) -> (id: Result<&str, InvalidSpotifyUrl>)
        ensures
            (match id {
                Ok(id) => Some(id@),
                Err(_) => None,
            }) == id_after(url@, TRACK_URL_START@),
    {
        id_from_url(url, TRACK_URL_START)
    }

    /// The identifier of the album at `url`.
    pub fn get_from_url(url: &str) -> (id: Result<&str, InvalidSpotifyUrl>)
        ensures
            (match id {
                Ok(id) => Some(id@),
                Err(_) => None,
            }) == id_after(url@, ALBUM_URL_START@),
    {
        id_from_url(url, ALBUM_URL_START)
    }

    /// The album called `name` by `artists`.
    pub fn get_album_from_id(name: &str, artists: &Vec<String>) -> (album: Album)
        ensures
            album.name@ == name@,
            album.artist@ == joined(texts(artists@), ", "@),
    {
        Album { name: String::from_str(name), artist: artists_to_string(artists) }
    }

    /// The choices that offer the albums found.
    pub fn query_albums(found: &Vec<Found>) -> (choices: Vec<(String, String)>)
        ensures
            pair_texts(choices@) == Seq::new(found@.len(), |i: int| found_choice(found@[i])),
    {
        choices_for(found)
    }

    /// The choices that offer the songs found.
    pub fn query_songs(found: &Vec<Found>) -> (choices: Vec<(String, String)>)
        ensures
            pair_texts(choices@) == Seq::new(found@.len(), |i: int| found_choice(found@[i])),
    {
        choices_for(found)
    }
}

/// Why a page names no album.
#[derive(Debug, PartialEq, Eq, Clone, Copy)]
pub enum PageError {
    /// The page shows no title of a track or an album.
    NotAlbumPage,
    /// The page shows no artist.
    NoArtist,
    /// The page of results shows no result.
    NotFound,
}

impl PageError {
    /// What is said of the fault.
    pub open spec fn text(self) -> Seq<char> {
        match self {
            PageError::NotAlbumPage => "Not an album page"@,
            PageError::NoArtist => "Could not find album artist"@,
            PageError::NotFound => "Not found"@,
        }
    }

    /// What is said of the fault.
    pub fn message(&self) -> (text: String)
        ensures
            text@ == self.text(),
    {
        match self {
            PageError::NotAlbumPage => String::from_str("Not an album page"),
            PageError::NoArtist => String::from_str("Could not find album artist"),
            PageError::NotFound => String::from_str("Not found"),
        }
    }
}

/// The text that `selector` leads to in `page`, without white space around
/// it.
pub open spec fn page_contents(page: Seq<char>, selector: Seq<char>) -> Option<Seq<char>> {
    match page_text(page, selector) {
        Some(text) => Some(trimmed(text)),
        None => None,
    }
}

/// The text that `selector` leads to in `page`, without white space around
/// it.
pub fn contents(page: &str, selector: &str) -> (text: Option<String>)
    ensures
        opt_text(text) == page_contents(page@, selector@),
{
    match first_text(page, selector) {
        Some(text) => Some(String::from_str(trim(text.as_str()))),
        None => None,
    }
}

/// The selector of the title on the page of an album.
pub const TITLE_SELECTOR: &'static str = ".trackTitle";

/// The selector of the artist on the page of an album.
pub const ARTIST_SELECTOR: &'static str = "#name-section>h3>span>a";

/// The selector of the first result on a page of results.
pub const RESULT_SELECTOR: &'static str = ".result-info>.heading>a";

/// Where albums are searched for.
pub const SEARCH_URL: &'static str = "https://bandcamp.com/search";

impl Bandcamp {
    /// Reads the album off its page.
    pub fn get_from_url(page: &str) -> (album: Result<Album, PageError>)
        ensures
            match album {
                Ok(album) => {
                    &&& page_contents(page@, TITLE_SELECTOR@) == Some(album.name@)
                    &&& page_contents(page@, ARTIST_SELECTOR@) == Some(album.artist@)
                },
                Err(PageError::NotAlbumPage) => page_contents(page@, TITLE_SELECTOR@) is None,
                Err(PageError::NoArtist) => page_contents(page@, TITLE_SELECTOR@) is Some
                    && page_contents(page@, ARTIST_SELECTOR@) is None,
                Err(PageError::NotFound) => false,
            },
    {
        let name = match contents(page, TITLE_SELECTOR) {
            Some(name) => name,
            None => {
                return Err(PageError::NotAlbumPage);
            },
        };
        let artist = match contents(page, ARTIST_SELECTOR) {
            Some(artist) => artist,
            None => {
                return Err(PageError::NoArtist);
            },
        };
        Ok(Album { name, artist })
    }

    /// Reads the address of the first album off a page of results.
    pub fn query_album(page: &str) -> (url: Result<String, PageError>)
        ensures
            match url {
                Ok(url) => page_attr(page@, RESULT_SELECTOR@, "href"@) == Some(url@),
                Err(error) => error == PageError::NotFound && page_attr(
                    page@,
                    RESULT_SELECTOR@,
                    "href"@,
                ) is None,
            },
    {
        match first_attr(page, RESULT_SELECTOR, "href") {
            Some(url) => Ok(url),
            None => Err(PageError::NotFound),
        }
    }
}

/// Why an address names no video.
#[derive(Debug, PartialEq, Eq, Clone, Copy)]
pub enum VideoError {
    /// The text is no address.
    InvalidUrl,
    /// The address names no video.
    InvalidYoutubeUrl,
    /// The video has no title.
    NoTitle,
}

impl VideoError {
    /// What is said of the fault.
    pub open spec fn text(self) -> Seq<char> {
        match self {
            VideoError::InvalidUrl => "Invalid URL"@,
            VideoError::InvalidYoutubeUrl => "Invalid youtube url"@,
            VideoError::NoTitle => "Could not find video title"@,
        }
    }

    /// What is said of the fault.
    pub fn message(&self) -> (text: String)
        ensures
            text@ == self.text(),
    {
        match self {
            VideoError::InvalidUrl => String::from_str("Invalid URL"),
            VideoError::InvalidYoutubeUrl => String::from_str("Invalid youtube url"),
            VideoError::NoTitle => String::from_str("Could not find video title"),
        }
    }
}

/// The value of the first pair of `query` whose name is `name`.
pub open spec fn query_value(query: Seq<(Seq<char>, Seq<char>)>, name: Seq<char>) -> Option<
    Seq<char>,
>
    decreases query.len(),
{
    if query.len() == 0 {
        None
    } else if query[0].0 == name {
        Some(query[0].1)
    } else {
        query_value(query.subrange(1, query.len() as int), name)
    }
}

/// The last segment of a path that begins with a slash.
pub open spec fn last_segment(path: Seq<char>) -> Option<Seq<char>> {
    if path.len() > 0 && path[0] == '/' {
        Some(split_text(path.subrange(1, path.len() as int), '/').last())
    } else {
        None
    }
}

/// The identifier of the video at an address: the value of `v` in the
/// query, else the last segment of the path.
pub open spec fn video_id(url: Seq<char>) -> Result<Seq<char>, VideoError> {
    if !url_parses(url) {
        Err(VideoError::InvalidUrl)
    } else {
        match query_value(url_query(url), "v"@) {
            Some(id) => Ok(id),
            None => match last_segment(url_path(url)) {
                Some(id) => Ok(id),
                None => Err(VideoError::InvalidYoutubeUrl),
            },
        }
    }
}

/// A split text has at least one part.
pub proof fn lemma_split_nonempty(s: Seq<char>, sep: char)
    ensures
        split_text(s, sep).len() >= 1,
    decreases s.len(),
{
    let at = crate::text::first_position(s, sep);
    if 0 <= at < s.len() {
        lemma_split_nonempty(s.subrange(at + 1, s.len() as int), sep);
    }
}

fn find_pair<'a>(query: &'a Vec<(String, String)>, name: &str) -> (value: Option<&'a String>)
    ensures
        (match value {
            Some(v) => Some(v@),
            None => None,
        }) == query_value(pair_texts(query@), name@),
{
    let ghost pairs = pair_texts(query@);
    let mut i: usize = 0;
    proof {
        assert(pairs.subrange(0, pairs.len() as int) =~= pairs);
    }
    while i < query.len()
        invariant
            i <= query.len(),
            pairs == pair_texts(query@),
            query_value(pairs, name@) == query_value(
                pairs.subrange(i as int, pairs.len() as int),
                name@,
            ),
        decreases query.len() - i,
    {
        proof {
            let rest = pairs.subrange(i as int, pairs.len() as int);
            assert(rest[0] == pairs[i as int]);
            assert(rest.subrange(1, rest.len() as int) =~= pairs.subrange(
                i + 1,
                pairs.len() as int,
            ));
        }
        if same_text(query[i].0.as_str(), name) {
            return Some(&query[i].1);
        }
        i = i + 1;
    }
    None
}

impl Youtube {
    /// The identifier of the video at `url`.
    pub fn get_from_url(url: &str) -> (id: Result<String, VideoError>)
        ensures
            (match id {
                Ok(id) => Ok(id@),
                Err(error) => Err(error),
            }) == video_id(url@),
    {
        let parts = match parse_url(url) {
            Some(parts) => parts,
            None => {
                return Err(VideoError::InvalidUrl);
            },
        };
        match find_pair(&parts.query, "v") {
            Some(id) => {
                return Ok(id.clone());
            },
            None => {},
        }
        let chars = chars_of(parts.path.as_str());
        if chars.len() > 0 && chars[0] == '/' {
            let rest = string_of(&slice_chars(&chars, 1, chars.len()));
            let segments = split(rest.as_str(), '/');
            proof {
                lemma_split_nonempty(rest@, '/');
            }
            Ok(segments[segments.len() - 1].clone())
        } else {
            Err(VideoError::InvalidYoutubeUrl)
        }
    }

    /// The album that stands for a video: its title, by no artist.
    pub fn album(title: Option<&str>) -> (album: Result<Album, VideoError>)
        ensures
            match album {
                Ok(album) => title matches Some(t) && album.name@ == t@ && album.artist@.len() == 0,
                Err(error) => title is None && error == VideoError::NoTitle,
            },
    {
        match title {
            Some(title) => Ok(Album { name: String::from_str(title), artist: String::new() }),
            None => Err(VideoError::NoTitle),
        }
    }
}

} // verus!
