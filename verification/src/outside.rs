//! The calls that leave this crate. Verus takes the contracts in this file on
//! trust; everything else in the crate is proved from them.

use vstd::prelude::*;

verus! {

/// The text of an optional string slice.
pub open spec fn text_of(found: Option<&str>) -> Option<Seq<char>> {
    match found {
        Some(s) => Some(s@),
        None => None,
    }
}

/// The wall clock, as milliseconds since the Unix epoch, read through
/// `chrono::Utc::now` and `DateTime::timestamp_millis`. Nothing is claimed
/// of the value: it differs from call to call.
#[verifier::external_body]
pub(crate) fn current_millis() -> i64 {
    chrono::Utc::now().timestamp_millis()
}

/// What the `regex` crate finds for capture group `group` when it searches
/// `haystack` for the leftmost match of `pattern`: the text that the group
/// matched, or `None` where `pattern` is no valid expression, where nothing
/// matches, or where the group took no part in the match.
pub uninterp spec fn regex_group(pattern: Seq<char>, haystack: Seq<char>, group: nat) -> Option<
    Seq<char>,
>;

/// Compiles `pattern` with `regex::Regex::new`, searches `haystack` with
/// `Regex::captures` and hands out the text of group `group` from
/// `Captures::get`. The contract only names that result.
#[verifier::external_body]
pub(crate) fn regex_capture<'h>(pattern: &str, haystack: &'h str, group: usize) -> (found: Option<
    &'h str,
>)
    ensures
        text_of(found) == regex_group(pattern@, haystack@, group as nat),
{
    let expression = regex::Regex::new(pattern).ok()?;
    let captures = expression.captures(haystack)?;
    captures.get(group).map(|m| m.as_str())
}

/// `text` in lower case, as `str::to_lowercase` of the standard library
/// gives it: by the Unicode rules, which may change the number of
/// characters.
pub uninterp spec fn lowercase_of(text: Seq<char>) -> Seq<char>;

/// Calls `str::to_lowercase`. The contract only names the result.
#[verifier::external_body]
pub(crate) fn to_lowercase(text: &str) -> (lower: String)
    ensures
        lower@ == lowercase_of(text@),
{
    text.to_lowercase()
}

/// Whether a byte goes into an address as it is: the ASCII letters and
/// digits and the marks `-`, `.`, `_` and `~`.
pub open spec fn is_unreserved(b: u8) -> bool {
    ||| 0x30 <= b <= 0x39
    ||| 0x41 <= b <= 0x5a
    ||| 0x61 <= b <= 0x7a
    ||| b == 0x2d
    ||| b == 0x2e
    ||| b == 0x5f
    ||| b == 0x7e
}

/// The digit `d` of base sixteen, in capitals.
pub open spec fn upper_hex(d: u8) -> char {
    if d < 10 {
        (0x30 + d) as char
    } else {
        (0x41 - 10 + d) as char
    }
}

/// One byte as it goes into an address: itself where it is unreserved,
/// else `%` and its two digits of base sixteen.
pub open spec fn percent_byte(b: u8) -> Seq<char> {
    if is_unreserved(b) {
        seq![b as char]
    } else {
        seq!['%', upper_hex(b / 16), upper_hex(b % 16)]
    }
}

/// The bytes `bytes` as they go into an address, one after another.
pub open spec fn percent_encoded(bytes: Seq<u8>) -> Seq<char>
    decreases bytes.len(),
{
    if bytes.len() == 0 {
        Seq::empty()
    } else {
        percent_encoded(bytes.drop_last()) + percent_byte(bytes.last())
    }
}

/// Calls `urlencoding::encode`, which percent-encodes every byte of the
/// UTF-8 form of `text` except the ASCII letters and digits and `-`, `.`,
/// `_`, `~`, with the digits of base sixteen in capitals.
#[verifier::external_body]
pub(crate) fn percent_encode(text: &str) -> (encoded: String)
    ensures
        encoded@ == percent_encoded(vstd::utf8::encode_utf8(text@)),
{
    urlencoding::encode(text).into_owned()
}

/// What is read of an address.
#[derive(Debug)]
pub struct UrlParts {
    /// The address as the parser writes it.
    pub text: String,
    /// The host, where it is a domain name.
    pub domain: Option<String>,
    /// The path, percent-encoded.
    pub path: String,
    /// The pairs of the query, decoded, in their order.
    pub query: Vec<(String, String)>,
}

/// Whether `reqwest::Url::parse` takes `text` for an address.
pub uninterp spec fn url_parses(text: Seq<char>) -> bool;

/// What `Url::as_str` gives for the address parsed from `text`: the
/// address as the parser writes it, which need not be `text` letter for
/// letter.
pub uninterp spec fn url_text(text: Seq<char>) -> Seq<char>;

/// What `Url::domain` gives for the address parsed from `text`.
pub uninterp spec fn url_domain(text: Seq<char>) -> Option<Seq<char>>;

/// What `Url::path` gives for the address parsed from `text`.
pub uninterp spec fn url_path(text: Seq<char>) -> Seq<char>;

/// What `Url::query_pairs` gives for the address parsed from `text`: the
/// names and values of the query, decoded, in their order.
pub uninterp spec fn url_query(text: Seq<char>) -> Seq<(Seq<char>, Seq<char>)>;

/// The contents of a list of pairs of texts.
pub open spec fn pair_texts(pairs: Seq<(String, String)>) -> Seq<(Seq<char>, Seq<char>)> {
    Seq::new(pairs.len(), |i: int| (pairs[i].0@, pairs[i].1@))
}

/// Parses `text` with `reqwest::Url::parse` and reads the address, its
/// domain, its path and its query with `Url::as_str`, `Url::domain`,
/// `Url::path` and `Url::query_pairs`. The contract only names what these
/// give; `None` stands for a text that is no address.
#[verifier::external_body]
pub(crate) fn parse_url(text: &str) -> (parts: Option<UrlParts>)
    ensures
        parts is Some <==> url_parses(text@),
        parts matches Some(p) ==> {
            &&& p.text@ == url_text(text@)
            &&& crate::command::opt_text(p.domain) == url_domain(text@)
            &&& p.path@ == url_path(text@)
            &&& pair_texts(p.query@) == url_query(text@)
        },
{
    let url = reqwest::Url::parse(text).ok()?;
    let query = url.query_pairs().map(|(k, v)| (k.into_owned(), v.into_owned())).collect();
    let domain = url.domain().map(String::from);
    Some(UrlParts { text: url.as_str().to_string(), domain, path: url.path().to_string(), query })
}

/// Shuffles `items` in place with `rand::seq::SliceRandom::shuffle` and the
/// generator of the thread. The items are the same afterwards, in an order
/// of which nothing is said.
#[verifier::external_body]
pub(crate) fn shuffle<T>(items: &mut Vec<T>)
    ensures
        final(items)@.to_multiset() == old(items)@.to_multiset(),
{
    rand::seq::SliceRandom::shuffle(items.as_mut_slice(), &mut rand::thread_rng());
}

/// What `rspotify::model::TrackId::from_id_or_uri` says of `text`: nothing
/// where it takes `text` for the identifier of a track, else its fault as
/// a text.
pub uninterp spec fn track_id_fault(text: Seq<char>) -> Option<Seq<char>>;

/// Calls `rspotify::model::TrackId::from_id_or_uri`. The contract only
/// names the fault.
#[verifier::external_body]
pub(crate) fn check_track_id(text: &str) -> (fault: Option<String>)
    ensures
        crate::command::opt_text(fault) == track_id_fault(text@),
{
    rspotify::model::TrackId::from_id_or_uri(text).err().map(|e| e.to_string())
}

/// What `rspotify::model::PlaylistId::from_id_or_uri` makes of `text`: the
/// identifier of a playlist, bare, where `text` is one or the URI of one.
pub uninterp spec fn playlist_id_in(text: Seq<char>) -> Option<Seq<char>>;

/// Calls `rspotify::model::PlaylistId::from_id_or_uri` and reads the bare
/// identifier with `Id::id`. The contract only names the result.
#[verifier::external_body]
pub(crate) fn read_playlist_id(text: &str) -> (id: Option<String>)
    ensures
        crate::command::opt_text(id) == playlist_id_in(text@),
{
    rspotify::model::PlaylistId::from_id_or_uri(text).ok().map(|id| rspotify::model::Id::id(&id).to_string())
}

/// What `scraper` finds in the page `page`: the first piece of text of the
/// first element that the selector `selector` picks. There is none where
/// the selector is not valid, picks nothing, or picks an element without
/// text.
pub uninterp spec fn page_text(page: Seq<char>, selector: Seq<char>) -> Option<Seq<char>>;

/// Parses `page` with `scraper::Html::parse_document` and `selector` with
/// `scraper::Selector::parse`, and hands out the first text of the first
/// element from `Html::select` and `ElementRef::text`. The contract only
/// names the result.
#[verifier::external_body]
pub(crate) fn first_text(page: &str, selector: &str) -> (text: Option<String>)
    ensures
        crate::command::opt_text(text) == page_text(page@, selector@),
{
    let picked = scraper::Selector::parse(selector).ok()?;
    let html = scraper::Html::parse_document(page);
    let element = html.select(&picked).next()?;
    element.text().next().map(String::from)
}

/// What `scraper` finds in the page `page`: the attribute `attr` of the
/// first element that the selector `selector` picks.
pub uninterp spec fn page_attr(page: Seq<char>, selector: Seq<char>, attr: Seq<char>) -> Option<
    Seq<char>,
>;

/// Parses `page` and `selector` as `first_text` does, and hands out the
/// attribute `attr` of the first element picked, from `ElementRef::attr`.
/// The contract only names the result.
#[verifier::external_body]
pub(crate) fn first_attr(page: &str, selector: &str, attr: &str) -> (value: Option<String>)
    ensures
        crate::command::opt_text(value) == page_attr(page@, selector@, attr@),
{
    let picked = scraper::Selector::parse(selector).ok()?;
    let html = scraper::Html::parse_document(page);
    let element = html.select(&picked).next()?;
    element.attr(attr).map(String::from)
}

/// `text` without white space at its beginning and end, as `str::trim` of
/// the standard library gives it, white space being what Unicode calls so.
pub uninterp spec fn trimmed(text: Seq<char>) -> Seq<char>;

/// Calls `str::trim`. The contract only names the result.
#[verifier::external_body]
pub(crate) fn trim(text: &str) -> (out: &str)
    ensures
        out@ == trimmed(text@),
{
    text.trim()
}

/// Whether `text` can be the identifier of a track: each of its characters
/// is an ASCII letter or digit.
pub open spec fn is_track_id(text: Seq<char>) -> bool {
    forall|i: int| 0 <= i < text.len() ==> crate::text::is_ascii_alphanumeric(#[trigger] text[i])
}

/// Calls `rspotify::model::TrackId::from_id`, which succeeds exactly on the
/// texts made of ASCII letters and digits alone, the empty text among
/// them.
#[verifier::external_body]
pub(crate) fn valid_track_id(text: &str) -> (valid: bool)
    ensures
        valid == is_track_id(text@),
{
    rspotify::model::TrackId::from_id(text).is_ok()
}

} // verus!
