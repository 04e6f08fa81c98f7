//! The weekly album club: submitting an album to one of its categories.

use vstd::prelude::*;
use vstd::string::StringExecFns;
use crate::command::{CommandResponse, CommandResponseView, ResponseType, ResponseTypeView};
use crate::text::texts;

verus! {

/// The sheet range that submissions are appended to.
pub const SUBMISSIONS_RANGE: &'static str = "A:Z";

/// The categories of the album club.
#[derive(Debug, PartialEq, Eq, Clone, Copy)]
pub enum AlbumCategory {
    Rock,
    Metal,
    Other,
}

/// The category called `name`, if there is one.
pub open spec fn category_named(name: Seq<char>) -> Option<AlbumCategory> {
    if name == "Rock"@ {
        Some(AlbumCategory::Rock)
    } else if name == "Metal"@ {
        Some(AlbumCategory::Metal)
    } else if name == "Other"@ {
        Some(AlbumCategory::Other)
    } else {
        None
    }
}

/// The name of a category.
pub open spec fn category_name(category: AlbumCategory) -> Seq<char> {
    match category {
        AlbumCategory::Rock => "Rock"@,
        AlbumCategory::Metal => "Metal"@,
        AlbumCategory::Other => "Other"@,
    }
}

/// A text that names no category.
#[derive(Debug)]
pub struct InvalidCategory {
    /// The text that was given.
    pub given: String,
}

impl InvalidCategory {
    /// What the member is told.
    pub fn message(&self) -> (text: String)
        ensures
            text@ == "Invalid category: "@ + self.given@,
    {
        let mut text = String::from_str("Invalid category: ");
        text.append(self.given.as_str());
        text
    }
}

impl AlbumCategory {
    /// Number of the category, counted from one.
    pub open spec fn number(self) -> nat {
        match self {
            AlbumCategory::Rock => 1,
            AlbumCategory::Metal => 2,
            AlbumCategory::Other => 3,
        }
    }

    /// Number of the category, counted from one.
    pub fn index(self) -> (n: usize)
        ensures
            n == self.number(),
    {
        match self {
            AlbumCategory::Rock => 1,
            AlbumCategory::Metal => 2,
            AlbumCategory::Other => 3,
        }
    }

    /// Reads a category from its name.
    pub fn from_str(s: &str) -> (parsed: Result<AlbumCategory, InvalidCategory>)
        ensures
            match parsed {
                Ok(category) => category_named(s@) == Some(category),
                Err(error) => category_named(s@) is None && error.given@ == s@,
            },
    {
        let given = String::from_str(s);
        if given == String::from_str("Rock") {
            Ok(AlbumCategory::Rock)
        } else if given == String::from_str("Metal") {
            Ok(AlbumCategory::Metal)
        } else if given == String::from_str("Other") {
            Ok(AlbumCategory::Other)
        } else {
            Err(InvalidCategory { given })
        }
    }

    /// The name of the category.
    pub fn name(self) -> (name: String)
        ensures
            name@ == category_name(self),
    {
        match self {
            AlbumCategory::Rock => String::from_str("Rock"),
            AlbumCategory::Metal => String::from_str("Metal"),
            AlbumCategory::Other => String::from_str("Other"),
        }
    }
}

/// The names of all categories, as offered to members.
pub fn category_choices() -> (choices: Vec<String>)
    ensures
        texts(choices@) == seq!["Rock"@, "Metal"@, "Other"@],
{
    let mut choices: Vec<String> = Vec::new();
    choices.push(String::from_str("Rock"));
    choices.push(String::from_str("Metal"));
    choices.push(String::from_str("Other"));
    assert(texts(choices@) =~= seq!["Rock"@, "Metal"@, "Other"@]);
    choices
}

/// Submits an album to the weekly album club.
#[derive(Debug)]
pub struct SubmitAlbum {
    /// Category to submit to.
    pub category: String,
    /// Link to the album.
    pub link: String,
}

/// What a submission amounts to: the row for the sheet and the answer.
#[derive(Debug)]
pub struct AlbumSubmission {
    pub row: Vec<String>,
    pub response: CommandResponse,
}

/// The row of a submission: eight cells, with the time and the member in
/// the first two, and the album and its link in the two cells of the
/// category.
pub open spec fn album_row(
    timestamp: Seq<char>,
    handle: Seq<char>,
    category: AlbumCategory,
    album_info: Option<Seq<char>>,
    link: Seq<char>,
) -> Seq<Seq<char>> {
    let info = match album_info {
        Some(info) => info,
        None => Seq::empty(),
    };
    Seq::new(
        8,
        |i: int|
            if i == 0 {
                timestamp
            } else if i == 1 {
                handle
            } else if i == 2 * category.number() {
                info
            } else if i == 2 * category.number() + 1 {
                link
            } else {
                Seq::empty()
            },
    )
}

/// The answer to a submission: it names the album where its name is known,
/// else the link.
pub open spec fn album_submitted_text(
    category: AlbumCategory,
    album_info: Option<Seq<char>>,
    link: Seq<char>,
) -> Seq<char> {
    "Submitted "@ + (match album_info {
        Some(info) => info,
        None => link,
    }) + " to the "@ + category_name(category) + " category"@
}

impl SubmitAlbum {
    /// Works out the row and the answer of a submission. `album_info` is
    /// the name under which a service knows the album behind the link, if
    /// one does.
    pub fn submission(&self, timestamp: &str, handle: &str, album_info: Option<&str>) -> (out:
        Result<AlbumSubmission, InvalidCategory>)
        ensures
            match out {
                Ok(done) => {
                    &&& category_named(self.category@) matches Some(category)
                    &&& texts(done.row@) == album_row(
                        timestamp@,
                        handle@,
                        category,
                        crate::outside::text_of(album_info),
                        self.link@,
                    )
                    &&& done.response@ == CommandResponseView::Private(
                        ResponseTypeView::Text(
                            album_submitted_text(
                                category,
                                crate::outside::text_of(album_info),
                                self.link@,
                            ),
                        ),
                    )
                },
                Err(error) => category_named(self.category@) is None && error.given@
                    == self.category@,
            },
    {
        let category = match AlbumCategory::from_str(self.category.as_str()) {
            Ok(category) => category,
            Err(error) => {
                return Err(error);
            },
        };
        let offset = category.index() * 2;
        let mut row: Vec<String> = Vec::new();
        let mut i: usize = 0;
        while i < 8
            invariant
                i <= 8,
                offset == 2 * category.number(),
                row@.len() == i,
                forall|j: int|
                    0 <= j < i ==> (#[trigger] row@[j])@ == album_row(
                        timestamp@,
                        handle@,
                        category,
                        crate::outside::text_of(album_info),
                        self.link@,
                    )[j],
            decreases 8 - i,
        {
            let cell = if i == 0 {
                String::from_str(timestamp)
            } else if i == 1 {
                String::from_str(handle)
            } else if i == offset {
                match album_info {
                    Some(info) => String::from_str(info),
                    None => String::new(),
                }
            } else if i == offset + 1 {
                self.link.clone()
            } else {
                String::new()
            };
            row.push(cell);
            i = i + 1;
        }
        assert(texts(row@) =~= album_row(
            timestamp@,
            handle@,
            category,
            crate::outside::text_of(album_info),
            self.link@,
        ));
        let mut text = String::from_str("Submitted ");
        match album_info {
            Some(info) => text.append(info),
            None => text.append(self.link.as_str()),
        }
        text.append(" to the ");
        text.append(category.name().as_str());
        text.append(" category");
        Ok(AlbumSubmission { row, response: CommandResponse::Private(ResponseType::Text(text)) })
    }
}

} // verus!
