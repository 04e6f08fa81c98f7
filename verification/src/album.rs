//! Albums and the services that can look them up.

use vstd::prelude::*;
use vstd::string::StringExecFns;

verus! {

/// An album as shown to users.
#[derive(Debug, Default)]
pub struct Album {
    pub name: String,
    pub artist: String,
}

/// "artist - name", or the name alone where no artist is known.
pub open spec fn album_display_name(artist: Seq<char>, name: Seq<char>) -> Seq<char> {
    if artist.len() == 0 {
        name
    } else {
        artist + " - "@ + name
    }
}

impl Album {
    /// The text under which the album is listed.
    pub fn format_name(&self) -> (text: String)
        ensures
            text@ == album_display_name(self.artist@, self.name@),
    {
        if self.artist.as_str().unicode_len() == 0 {
            self.name.clone()
        } else {
            let mut text = self.artist.clone();
            text.append(" - ");
            text.append(self.name.as_str());
            text
        }
    }
}

/// A service that knows albums by their addresses. Looking an album up is
/// left to the program around this library; here a service only says which
/// addresses are its own.
pub trait AlbumProvider {
    /// Whether the service takes `url` for one of its own.
    spec fn takes(&self, url: Seq<char>) -> bool;

    /// Whether the service takes `url` for one of its own.
    fn url_matches(&self, url: &str) -> (matches: bool)
        ensures
            matches == self.takes(url@),
    ;

    /// Short name of the service.
    spec fn name(&self) -> Seq<char>;

    /// Short name of the service.
    fn id(&self) -> (id: &'static str)
        ensures
            id@ == self.name(),
    ;
}

/// Position of the first service that takes `url`, if there is one.
pub open spec fn first_taking<P: AlbumProvider>(providers: Seq<P>, url: Seq<char>) -> Option<int> {
    if exists|i: int| 0 <= i < providers.len() && providers[i].takes(url) {
        Some(
            choose|i: int|
                0 <= i < providers.len() && providers[i].takes(url) && forall|j: int|
                    0 <= j < i ==> !providers[j].takes(url),
        )
    } else {
        None
    }
}

/// Finds the first service that takes `url`.
pub fn find_provider<P: AlbumProvider>(providers: &Vec<P>, url: &str) -> (found: Option<usize>)
    ensures
        match found {
            Some(at) => first_taking(providers@, url@) == Some(at as int),
            None => first_taking(providers@, url@) is None,
        },
{
    let mut i: usize = 0;
    while i < providers.len()
        invariant
            i <= providers.len(),
            forall|j: int| 0 <= j < i ==> !providers@[j].takes(url@),
        decreases providers.len() - i,
    {
        if providers[i].url_matches(url) {
            proof {
                let c = first_taking(providers@, url@)->0;
                assert(0 <= c < providers@.len() && providers@[c].takes(url@) && forall|j: int|
                    0 <= j < c ==> !providers@[j].takes(url@)) by {
                    assert(0 <= i < providers@.len() && providers@[i as int].takes(url@)
                        && forall|j: int| 0 <= j < i ==> !providers@[j].takes(url@));
                }
                assert(c == i);
            }
            return Some(i);
        }
        i = i + 1;
    }
    None
}

} // verus!
