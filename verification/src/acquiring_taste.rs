//! Acquiring the Taste: a playlist built from the song picks that members
//! hand in, edition after edition.

use vstd::prelude::*;
use vstd::string::StringExecFns;
use crate::command::opt_text;
use crate::outside::{
    check_track_id, parse_url, playlist_id_in, read_playlist_id, shuffle, track_id_fault,
    url_domain, url_parses, url_path, url_text,
};
use crate::text::{
    chars_of, decimal, join, joined, parse_decimal, parsed_decimal, push_decimal, same_text,
    slice_chars, split, split_text, string_of, strip_prefix, stripped_prefix, texts,
};

verus! {

/// A song that a member picked.
#[derive(Clone, Debug)]
pub struct AcquiringTastePick {
    pub submitter: String,
    pub song: String,
    pub link: String,
}

/// What the sheet remembers between editions.
#[derive(Clone, Debug)]
pub struct Variables {
    pub last_row: usize,
    pub edition: usize,
    pub last_playlist: Option<String>,
    pub current_row: usize,
}

/// The number in cell `at` of `row`, or `fallback` where the row has no such
/// cell or the cell holds no number.
pub open spec fn number_at(row: Seq<String>, at: int, fallback: usize) -> usize {
    if 0 <= at < row.len() {
        match parsed_decimal(row[at]@) {
            Some(n) => n,
            None => fallback,
        }
    } else {
        fallback
    }
}

/// The text in cell `at` of `row`, where the row has such a cell and the
/// cell is not empty.
pub open spec fn text_at(row: Seq<String>, at: int) -> Option<Seq<char>> {
    if 0 <= at < row.len() && row[at]@.len() > 0 {
        Some(row[at]@)
    } else {
        None
    }
}

fn read_number(row: &Vec<String>, at: usize, fallback: usize) -> (n: usize)
    ensures
        n == number_at(row@, at as int, fallback),
{
    if at < row.len() {
        match parse_decimal(row[at].as_str()) {
            Some(n) => n,
            None => fallback,
        }
    } else {
        fallback
    }
}

impl Variables {
    /// Reads the variables from their row of the sheet: the last row taken,
    /// the edition, the last playlist and the current row. A number that is
    /// missing counts as one, the edition as zero.
    pub fn from_row(row: &Vec<String>) -> (variables: Variables)
        ensures
            variables.last_row == number_at(row@, 0, 1),
            variables.edition == number_at(row@, 1, 0),
            opt_text(variables.last_playlist) == text_at(row@, 2),
            variables.current_row == number_at(row@, 3, 1),
    {
        let last_playlist = if 2 < row.len() && row[2].as_str().unicode_len() > 0 {
            Some(row[2].clone())
        } else {
            None
        };
        Variables {
            last_row: read_number(row, 0, 1),
            edition: read_number(row, 1, 0),
            last_playlist,
            current_row: read_number(row, 3, 1),
        }
    }

    /// Reads the variables from the values of their range: the last row of
    /// the range counts, and a range without rows is an empty row.
    pub fn get(values: Option<&Vec<Vec<String>>>) -> (variables: Variables)
        ensures
            ({
                let row = match values {
                    Some(rows) => if rows@.len() > 0 {
                        rows@.last()@
                    } else {
                        Seq::<String>::empty()
                    },
                    None => Seq::<String>::empty(),
                };
                &&& variables.last_row == number_at(row, 0, 1)
                &&& variables.edition == number_at(row, 1, 0)
                &&& opt_text(variables.last_playlist) == text_at(row, 2)
                &&& variables.current_row == number_at(row, 3, 1)
            }),
    {
        match values {
            Some(rows) => {
                if rows.len() > 0 {
                    return Variables::from_row(&rows[rows.len() - 1]);
                }
            },
            None => {},
        }
        let empty: Vec<String> = Vec::new();
        Variables::from_row(&empty)
    }

    /// The row that stores the variables: the last row, the edition and the
    /// last playlist.
    pub fn set(&self) -> (row: Vec<String>)
        ensures
            texts(row@) == seq![
                decimal(self.last_row as nat),
                decimal(self.edition as nat),
                match self.last_playlist {
                    Some(playlist) => playlist@,
                    None => Seq::empty(),
                },
            ],
    {
        let mut row: Vec<String> = Vec::new();
        let mut last_row = String::new();
        push_decimal(&mut last_row, self.last_row as u128);
        let mut edition = String::new();
        push_decimal(&mut edition, self.edition as u128);
        row.push(last_row);
        row.push(edition);
        row.push(
            match &self.last_playlist {
                Some(playlist) => playlist.clone(),
                None => String::new(),
            },
        );
        assert(texts(row@) =~= seq![
            decimal(self.last_row as nat),
            decimal(self.edition as nat),
            match self.last_playlist {
                Some(playlist) => playlist@,
                None => Seq::empty(),
            },
        ]);
        row
    }
}

/// The pick of `submitter` for a track by `artists` called `title`, found
/// at `url`.
pub fn pick_from_track(submitter: &str, artists: &Vec<String>, title: &str, url: &str) -> (pick:
    AcquiringTastePick)
    ensures
        pick.submitter@ == submitter@,
        pick.song@ == joined(texts(artists@), ", "@) + " - "@ + title@,
        pick.link@ == url@,
{
    let mut song = join(artists, ", ");
    song.append(" - ");
    song.append(title);
    AcquiringTastePick {
        submitter: String::from_str(submitter),
        song,
        link: String::from_str(url),
    }
}

/// Where the link of a pick leads.
#[derive(Debug)]
pub enum PickLink {
    /// To the track of this identifier.
    Track(String),
    /// To a short address that stands for another.
    Shortened,
    /// Nowhere: the link is no address.
    NotUrl,
    /// Elsewhere than to a track.
    NotSpotify,
}

/// Content of a `PickLink`.
pub ghost enum PickLinkView {
    Track(Seq<char>),
    Shortened,
    NotUrl,
    NotSpotify,
}

impl View for PickLink {
    type V = PickLinkView;

    open spec fn view(&self) -> PickLinkView {
        match self {
            PickLink::Track(id) => PickLinkView::Track(id@),
            PickLink::Shortened => PickLinkView::Shortened,
            PickLink::NotUrl => PickLinkView::NotUrl,
            PickLink::NotSpotify => PickLinkView::NotSpotify,
        }
    }
}

/// The segments of a path: the parts between its slashes, after the slash
/// that it begins with. A path that begins otherwise has none.
pub open spec fn path_segments(path: Seq<char>) -> Seq<Seq<char>> {
    if path.len() > 0 && path[0] == '/' {
        split_text(path.subrange(1, path.len() as int), '/')
    } else {
        Seq::empty()
    }
}

/// Where `link` leads: to a track where it is an address of
/// `open.spotify.com` whose path begins with `track` and an identifier; to
/// a short address where it is an address of `spotify.link` with a path of
/// one segment.
pub open spec fn pick_link(link: Seq<char>) -> PickLinkView {
    let segments = path_segments(url_path(link));
    if !url_parses(link) {
        PickLinkView::NotUrl
    } else if url_domain(link) == Some("open.spotify.com"@) && segments.len() >= 2 && segments[0]
        == "track"@ {
        PickLinkView::Track(segments[1])
    } else if url_domain(link) == Some("spotify.link"@) && segments.len() == 1 {
        PickLinkView::Shortened
    } else {
        PickLinkView::NotSpotify
    }
}

fn segments_of(path: &str) -> (segments: Vec<String>)
    ensures
        texts(segments@) == path_segments(path@),
{
    let chars = chars_of(path);
    if chars.len() > 0 && chars[0] == '/' {
        let rest = string_of(&slice_chars(&chars, 1, chars.len()));
        split(rest.as_str(), '/')
    } else {
        let none: Vec<String> = Vec::new();
        assert(texts(none@) =~= Seq::empty());
        none
    }
}

fn is_domain(domain: &Option<String>, name: &str) -> (same: bool)
    ensures
        same == (opt_text(*domain) == Some(name@)),
{
    match domain {
        Some(d) => same_text(d.as_str(), name),
        None => false,
    }
}

/// Says where the link of a pick leads.
pub fn resolve_pick(link: &str) -> (target: PickLink)
    ensures
        target@ == pick_link(link@),
{
    let parts = match parse_url(link) {
        Some(parts) => parts,
        None => {
            return PickLink::NotUrl;
        },
    };
    let segments = segments_of(parts.path.as_str());
    if is_domain(&parts.domain, "open.spotify.com") && segments.len() >= 2 && same_text(
        segments[0].as_str(),
        "track",
    ) {
        PickLink::Track(segments[1].clone())
    } else if is_domain(&parts.domain, "spotify.link") && segments.len() == 1 {
        PickLink::Shortened
    } else {
        PickLink::NotSpotify
    }
}

impl PickLinkView {
    /// What is said of a link that leads neither to a track nor to a short
    /// address.
    pub open spec fn fault(self) -> Option<Seq<char>> {
        match self {
            PickLinkView::NotUrl => Some("Not a valid URL"@),
            PickLinkView::NotSpotify => Some("Not a spotify URL"@),
            _ => None,
        }
    }
}

impl PickLink {
    /// Why the link cannot be followed, where it cannot.
    pub fn fault(&self) -> (text: Option<String>)
        ensures
            opt_text(text) == self@.fault(),
    {
        match self {
            PickLink::NotUrl => Some(String::from_str("Not a valid URL")),
            PickLink::NotSpotify => Some(String::from_str("Not a spotify URL")),
            _ => None,
        }
    }
}

/// Why a short address leads to no track.
#[derive(Debug)]
pub enum ShortLinkError {
    /// The answer names no place to go on to.
    NoLocation,
    /// The place to go on to is no address.
    InvalidLocation,
    /// The place to go on to is no track; it is given here as the parser of
    /// addresses writes it.
    NotTrack(String),
}

impl ShortLinkError {
    /// What is said of the fault.
    pub fn message(&self) -> (text: String)
        ensures
            text@ == (match self {
                ShortLinkError::NoLocation => "Not a valid spotify URL"@,
                ShortLinkError::InvalidLocation => "Spotify shortened URL points to invalid URL"@,
                ShortLinkError::NotTrack(url) => "Not a spotify track URL: "@ + url@,
            }),
    {
        match self {
            ShortLinkError::NoLocation => String::from_str("Not a valid spotify URL"),
            ShortLinkError::InvalidLocation => String::from_str(
                "Spotify shortened URL points to invalid URL",
            ),
            ShortLinkError::NotTrack(url) => {
                let mut text = String::from_str("Not a spotify track URL: ");
                text.append(url.as_str());
                text
            },
        }
    }
}

/// The identifier of the track that a path leads to: what follows
/// `/track/`.
pub open spec fn track_in_path(path: Seq<char>) -> Option<Seq<char>> {
    stripped_prefix(path, "/track/"@)
}

/// Reads the track out of the place that a short address sends on to.
pub fn pick_from_shortened_link(location: Option<&str>) -> (track: Result<String, ShortLinkError>)
    ensures
        match track {
            Ok(id) => {
                &&& location matches Some(place)
                &&& url_parses(place@)
                &&& track_in_path(url_path(place@)) == Some(id@)
            },
            Err(ShortLinkError::NoLocation) => location is None,
            Err(ShortLinkError::InvalidLocation) => location matches Some(place) && !url_parses(
                place@,
            ),
            Err(ShortLinkError::NotTrack(url)) => {
                &&& location matches Some(place)
                &&& url_parses(place@)
                &&& track_in_path(url_path(place@)) is None
                &&& url@ == url_text(place@)
            },
        },
{
    let place = match location {
        Some(place) => place,
        None => {
            return Err(ShortLinkError::NoLocation);
        },
    };
    let parts = match parse_url(place) {
        Some(parts) => parts,
        None => {
            return Err(ShortLinkError::InvalidLocation);
        },
    };
    match strip_prefix(parts.path.as_str(), "/track/") {
        Some(id) => Ok(String::from_str(id)),
        None => Err(ShortLinkError::NotTrack(parts.text)),
    }
}

/// Why the link of a pick names no track, if it names none.
pub open spec fn link_fault(link: Seq<char>) -> Option<Seq<char>> {
    if !url_parses(link) {
        Some("not a url: "@ + link)
    } else {
        match track_in_path(url_path(link)) {
            None => Some("not a spotify track url: <"@ + link + ">"@),
            Some(id) => track_id_fault(id),
        }
    }
}

/// Whether the link of a pick names a track, and if it does not, why.
pub fn check_link(link: &str) -> (fault: Option<String>)
    ensures
        opt_text(fault) == link_fault(link@),
{
    let parts = match parse_url(link) {
        Some(parts) => parts,
        None => {
            let mut text = String::from_str("not a url: ");
            text.append(link);
            return Some(text);
        },
    };
    match strip_prefix(parts.path.as_str(), "/track/") {
        None => {
            let mut text = String::from_str("not a spotify track url: <");
            text.append(link);
            text.append(">");
            Some(text)
        },
        Some(id) => check_track_id(id),
    }
}

/// The name of the playlist of an edition.
pub open spec fn playlist_title(edition: usize, date: Seq<char>) -> Seq<char> {
    "I&W Acquiring the Taste #"@ + decimal(edition as nat) + " | "@ + date
}

/// Writes the name of the playlist of an edition, made on the day `date`.
pub fn format_playlist_title(edition: usize, date: &str) -> (title: String)
    ensures
        title@ == playlist_title(edition, date@),
{
    let mut title = String::from_str("I&W Acquiring the Taste #");
    push_decimal(&mut title, edition as u128);
    title.append(" | ");
    title.append(date);
    title
}

/// A pick that could not be added, and why.
#[derive(Debug)]
pub struct InvalidPick {
    pub pick: AcquiringTastePick,
    pub reason: String,
}

/// The picks sorted into those that name a track and those that do not.
#[derive(Debug)]
pub struct SortedPicks {
    pub valid: Vec<AcquiringTastePick>,
    pub invalid: Vec<InvalidPick>,
}

/// The picks among `picks` whose links name a track, in their order.
pub open spec fn valid_picks(picks: Seq<AcquiringTastePick>) -> Seq<AcquiringTastePick> {
    picks.filter(|pick: AcquiringTastePick| link_fault(pick.link@) is None)
}

/// The picks among `picks` whose links name no track, in their order.
pub open spec fn invalid_picks(picks: Seq<AcquiringTastePick>) -> Seq<AcquiringTastePick> {
    picks.filter(|pick: AcquiringTastePick| link_fault(pick.link@) is Some)
}

/// Sorts the picks into those whose links name a track and the others,
/// each of these with the reason.
pub fn sort_picks(picks: &Vec<AcquiringTastePick>) -> (sorted: SortedPicks)
    ensures
        sorted.valid@ == valid_picks(picks@),
        sorted.invalid@.len() == invalid_picks(picks@).len(),
        forall|i: int|
            0 <= i < sorted.invalid@.len() ==> (#[trigger] sorted.invalid@[i]).pick
                == invalid_picks(picks@)[i] && Some(sorted.invalid@[i].reason@) == link_fault(
                sorted.invalid@[i].pick.link@,
            ),
{
    let ghost good = |pick: AcquiringTastePick| link_fault(pick.link@) is None;
    let ghost bad = |pick: AcquiringTastePick| link_fault(pick.link@) is Some;
    let mut valid: Vec<AcquiringTastePick> = Vec::new();
    let mut invalid: Vec<InvalidPick> = Vec::new();
    let mut i: usize = 0;
    proof {
        reveal_with_fuel(Seq::filter, 1);
        assert(picks@.take(0) =~= Seq::empty());
    }
    while i < picks.len()
        invariant
            i <= picks.len(),
            good == |pick: AcquiringTastePick| link_fault(pick.link@) is None,
            bad == |pick: AcquiringTastePick| link_fault(pick.link@) is Some,
            valid@ == picks@.take(i as int).filter(good),
            invalid@.len() == picks@.take(i as int).filter(bad).len(),
            forall|k: int|
                0 <= k < invalid@.len() ==> (#[trigger] invalid@[k]).pick == picks@.take(
                    i as int,
                ).filter(bad)[k] && Some(invalid@[k].reason@) == link_fault(invalid@[k].pick.link@),
        decreases picks.len() - i,
    {
        let pick = &picks[i];
        proof {
            assert(picks@.take(i + 1) =~= picks@.take(i as int).push(*pick));
            picks@.take(i as int).lemma_filter_push(*pick, good);
            picks@.take(i as int).lemma_filter_push(*pick, bad);
        }
        match check_link(pick.link.as_str()) {
            None => {
                valid.push(clone_pick(pick));
            },
            Some(reason) => {
                invalid.push(InvalidPick { pick: clone_pick(pick), reason });
            },
        }
        i = i + 1;
    }
    assert(picks@.take(picks.len() as int) =~= picks@);
    SortedPicks { valid, invalid }
}

fn clone_pick(pick: &AcquiringTastePick) -> (copy: AcquiringTastePick)
    ensures
        copy == *pick,
{
    AcquiringTastePick {
        submitter: pick.submitter.clone(),
        song: pick.song.clone(),
        link: pick.link.clone(),
    }
}

/// Puts the picks whose links could not be followed before those that
/// `sort_picks` turned down: in this order the answer tells of them.
pub fn join_invalid(unresolved: Vec<InvalidPick>, sorted: SortedPicks) -> (all: SortedPicks)
    ensures
        all.valid@ == sorted.valid@,
        all.invalid@ == unresolved@ + sorted.invalid@,
{
    let mut invalid = unresolved;
    let mut turned_down = sorted.invalid;
    invalid.append(&mut turned_down);
    SortedPicks { valid: sorted.valid, invalid }
}

/// The picks that the rows of the sheet hold: submitter, song and link
/// from the first three cells of each row.
pub open spec fn picks_of(rows: Seq<Vec<String>>) -> Seq<(Seq<char>, Seq<char>, Seq<char>)> {
    Seq::new(rows.len(), |i: int| (rows[i]@[0]@, rows[i]@[1]@, rows[i]@[2]@))
}

/// The sheet holds no submissions.
#[derive(Debug, PartialEq, Eq, Clone, Copy)]
pub struct NoSubmissions {}

impl NoSubmissions {
    /// What is said of the fault.
    pub fn message(&self) -> (text: String)
        ensures
            text@ == "No submissions found on this sheet"@,
    {
        String::from_str("No submissions found on this sheet")
    }
}

/// Reads the picks from the values of the sheet.
pub fn get_acquiring_taste_submissions(values: Option<&Vec<Vec<String>>>) -> (picks: Result<
    Vec<AcquiringTastePick>,
    NoSubmissions,
>)
    requires
        values matches Some(rows) ==> forall|i: int|
            0 <= i < rows@.len() ==> (#[trigger] rows@[i])@.len() >= 3,
    ensures
        picks is Err <==> values is None,
        picks matches Ok(found) ==> values matches Some(rows) && Seq::new(
            found@.len(),
            |i: int| (found@[i].submitter@, found@[i].song@, found@[i].link@),
        ) == picks_of(rows@),
{
    let rows = match values {
        Some(rows) => rows,
        None => {
            return Err(NoSubmissions {  });
        },
    };
    let mut picks: Vec<AcquiringTastePick> = Vec::new();
    let mut i: usize = 0;
    while i < rows.len()
        invariant
            i <= rows.len(),
            forall|i: int| 0 <= i < rows@.len() ==> (#[trigger] rows@[i])@.len() >= 3,
            picks@.len() == i,
            forall|k: int|
                0 <= k < i ==> (#[trigger] picks@[k]).submitter@ == rows@[k]@[0]@ && picks@[k].song@
                    == rows@[k]@[1]@ && picks@[k].link@ == rows@[k]@[2]@,
        decreases rows.len() - i,
    {
        let row = &rows[i];
        picks.push(
            AcquiringTastePick {
                submitter: row[0].clone(),
                song: row[1].clone(),
                link: row[2].clone(),
            },
        );
        i = i + 1;
    }
    assert(Seq::new(picks@.len(), |i: int| (picks@[i].submitter@, picks@[i].song@, picks@[i].link@))
        =~= picks_of(rows@));
    Ok(picks)
}

/// Builds the playlist from the picks handed in.
#[derive(Debug)]
pub struct BuildPlaylist {
    /// Whether the picks go to the playlist of the last edition.
    pub reuse: Option<bool>,
}

impl BuildPlaylist {
    /// Whether a new edition begins: it does unless the last playlist is
    /// used again.
    pub fn increment_edition(&self) -> (increment: bool)
        ensures
            increment == !(self.reuse == Some(true)),
    {
        match self.reuse {
            Some(reuse) => !reuse,
            None => true,
        }
    }
}

/// The module of the playlist.
#[derive(Debug)]
pub struct AcquiringTaste {}

/// What is to be done with the picks.
#[derive(Debug)]
pub enum BuildPlan {
    /// Nothing: there are no picks.
    NoPicks,
    /// Add the picks, in this order, to the playlist given, or to a new
    /// one where none is given; this is the edition.
    Build { picks: Vec<AcquiringTastePick>, playlist: Option<String>, edition: usize },
}

/// The playlist to add to: none where a new edition begins, else the last
/// one where it is known by a usable identifier.
pub open spec fn playlist_in_use(last_playlist: Option<String>, increment: bool) -> Option<
    Seq<char>,
> {
    if increment {
        None
    } else {
        match last_playlist {
            Some(last) => playlist_id_in(last@),
            None => None,
        }
    }
}

/// The answer where there are no picks.
pub open spec fn no_picks_text() -> Seq<char> {
    "No new picks to add"@
}

impl BuildPlan {
    /// The answer that a plan gives by itself: without picks nothing is
    /// built or written, and the answer says so.
    pub fn answer(&self) -> (text: Option<String>)
        ensures
            opt_text(text) == (if self is NoPicks {
                Some(no_picks_text())
            } else {
                None
            }),
    {
        match self {
            BuildPlan::NoPicks => Some(String::from_str("No new picks to add")),
            BuildPlan::Build { .. } => None,
        }
    }
}

/// Decides what to do with the picks: which playlist they go to and under
/// which edition. The picks come back shuffled.
pub fn plan_playlist(variables: &Variables, picks: Vec<AcquiringTastePick>, increment: bool) -> (plan:
    BuildPlan)
    requires
        increment ==> variables.edition < usize::MAX,
    ensures
        plan is NoPicks <==> picks@.len() == 0,
        plan matches BuildPlan::Build { picks: shuffled, playlist, edition } ==> {
            &&& shuffled@.to_multiset() == picks@.to_multiset()
            &&& opt_text(playlist) == playlist_in_use(variables.last_playlist, increment)
            &&& edition == variables.edition + (if increment {
                1int
            } else {
                0int
            })
        },
{
    if picks.len() == 0 {
        return BuildPlan::NoPicks;
    }
    let mut picks = picks;
    shuffle(&mut picks);
    let playlist = if increment {
        None
    } else {
        match &variables.last_playlist {
            Some(last) => read_playlist_id(last.as_str()),
            None => None,
        }
    };
    let edition = if increment {
        variables.edition + 1
    } else {
        variables.edition
    };
    BuildPlan::Build { picks, playlist, edition }
}

/// The address of the playlist of identifier `id`.
pub open spec fn playlist_url(id: Seq<char>) -> Seq<char> {
    "https://open.spotify.com/playlist/"@ + id
}

/// The name by which the music service knows the playlist of identifier
/// `id`.
pub open spec fn playlist_uri(id: Seq<char>) -> Seq<char> {
    "spotify:playlist:"@ + id
}

/// The row that records a pick in the sheet: the edition, the submitter,
/// an empty cell, the song and the link.
pub open spec fn pick_row(edition: usize, pick: AcquiringTastePick) -> Seq<Seq<char>> {
    seq![decimal(edition as nat), pick.submitter@, Seq::empty(), pick.song@, pick.link@]
}

/// The line that tells of a pick that could not be added.
pub open spec fn invalid_line(invalid: InvalidPick) -> Seq<char> {
    "\n"@ + invalid.pick.submitter@ + "'s pick ("@ + invalid.pick.song@ + "): "@ + invalid.reason@
}

/// The lines that tell of the first `n` picks that could not be added.
pub open spec fn invalid_lines(invalid: Seq<InvalidPick>, n: int) -> Seq<char>
    decreases n,
{
    if n <= 0 {
        Seq::empty()
    } else {
        invalid_lines(invalid, n - 1) + invalid_line(invalid[n - 1])
    }
}

/// What is said once the playlist is built.
pub open spec fn built_text(created: bool, url: Seq<char>, valid: nat, invalid: Seq<InvalidPick>)
    -> Seq<char> {
    let head = if created {
        "Created a playlist with "@ + decimal(valid) + " tracks.\n"@ + url
    } else {
        "Added "@ + decimal(valid) + " tracks to existing playlist.\n"@ + url
    };
    if invalid.len() == 0 {
        head
    } else {
        head + "\n"@ + decimal(invalid.len()) + " picks were invalid and could not be added:"@
            + invalid_lines(invalid, invalid.len() as int)
    }
}

/// What follows from a playlist that was built.
#[derive(Debug)]
pub struct BuildReport {
    /// The variables to store.
    pub variables: Variables,
    /// The row that records a new playlist, where one was made for a new
    /// edition.
    pub playlist_row: Option<Vec<String>>,
    /// The rows that record the picks that were added.
    pub pick_rows: Vec<Vec<String>>,
    /// What is said.
    pub response: String,
}

fn decimal_text(n: usize) -> (text: String)
    ensures
        text@ == decimal(n as nat),
{
    let mut text = String::new();
    push_decimal(&mut text, n as u128);
    text
}

/// Works out what is stored and said once the picks were added to the
/// playlist of identifier `playlist_id` on the day `date`.
pub fn build_playlist_from_picks(
    before: &Variables,
    edition: usize,
    increment: bool,
    playlist_id: &str,
    date: &str,
    sorted: &SortedPicks,
) -> (report: BuildReport)
    ensures
        report.variables.last_row == before.current_row,
        report.variables.edition == edition,
        opt_text(report.variables.last_playlist) == Some(playlist_uri(playlist_id@)),
        report.variables.current_row == 0,
        match report.playlist_row {
            Some(row) => increment && texts(row@) == seq![
                decimal(edition as nat),
                date@,
                playlist_url(playlist_id@),
            ],
            None => !increment,
        },
        report.pick_rows@.len() == sorted.valid@.len(),
        forall|i: int|
            0 <= i < sorted.valid@.len() ==> texts((#[trigger] report.pick_rows@[i])@) == pick_row(
                edition,
                sorted.valid@[i],
            ),
        report.response@ == built_text(
            before.last_playlist is None || increment,
            playlist_url(playlist_id@),
            sorted.valid@.len(),
            sorted.invalid@,
        ),
{
    let mut uri = String::from_str("spotify:playlist:");
    uri.append(playlist_id);
    let mut url = String::from_str("https://open.spotify.com/playlist/");
    url.append(playlist_id);
    let variables = Variables {
        last_row: before.current_row,
        edition,
        last_playlist: Some(uri),
        current_row: 0,
    };
    let playlist_row = if increment {
        let mut row: Vec<String> = Vec::new();
        row.push(decimal_text(edition));
        row.push(String::from_str(date));
        row.push(url.clone());
        assert(texts(row@) =~= seq![decimal(edition as nat), date@, playlist_url(playlist_id@)]);
        Some(row)
    } else {
        None
    };
    let mut pick_rows: Vec<Vec<String>> = Vec::new();
    let mut i: usize = 0;
    while i < sorted.valid.len()
        invariant
            i <= sorted.valid.len(),
            pick_rows@.len() == i,
            forall|k: int|
                0 <= k < i ==> texts((#[trigger] pick_rows@[k])@) == pick_row(
                    edition,
                    sorted.valid@[k],
                ),
        decreases sorted.valid.len() - i,
    {
        let pick = &sorted.valid[i];
        let mut row: Vec<String> = Vec::new();
        row.push(decimal_text(edition));
        row.push(pick.submitter.clone());
        row.push(String::new());
        row.push(pick.song.clone());
        row.push(pick.link.clone());
        assert(texts(row@) =~= pick_row(edition, *pick));
        pick_rows.push(row);
        i = i + 1;
    }
    let created = before.last_playlist.is_none() || increment;
    let mut response = if created {
        String::from_str("Created a playlist with ")
    } else {
        String::from_str("Added ")
    };
    push_decimal(&mut response, sorted.valid.len() as u128);
    if created {
        response.append(" tracks.\n");
    } else {
        response.append(" tracks to existing playlist.\n");
    }
    response.append(url.as_str());
    if sorted.invalid.len() > 0 {
        response.append("\n");
        push_decimal(&mut response, sorted.invalid.len() as u128);
        response.append(" picks were invalid and could not be added:");
        let ghost head = response@;
        let mut k: usize = 0;
        assert(response@ =~= head + invalid_lines(sorted.invalid@, 0));
        while k < sorted.invalid.len()
            invariant
                k <= sorted.invalid.len(),
                response@ == head + invalid_lines(sorted.invalid@, k as int),
            decreases sorted.invalid.len() - k,
        {
            let invalid = &sorted.invalid[k];
            response.append("\n");
            response.append(invalid.pick.submitter.as_str());
            response.append("'s pick (");
            response.append(invalid.pick.song.as_str());
            response.append("): ");
            response.append(invalid.reason.as_str());
            assert(response@ =~= head + invalid_lines(sorted.invalid@, k + 1));
            k = k + 1;
        }
    }
    assert(response@ =~= built_text(
        created,
        playlist_url(playlist_id@),
        sorted.valid@.len(),
        sorted.invalid@,
    ));
    BuildReport { variables, playlist_row, pick_rows, response }
}

} // verus!
