//! Answering a form through its command: which values go to which question,
//! what has to be looked up on the way, and what is sent in the end.

use vstd::prelude::*;
use vstd::string::StringExecFns;
use crate::command::{
    opt_text, CommandDataOption, CommandDataOptionValue, CommandResponse, CommandResponseView,
    ResponseType, ResponseTypeView,
};
use crate::forms::{
    question_views, sanitize_name, sanitized, SimpleForm, SimpleQuestionView,
};
use crate::outside::{lowercase_of, percent_encode, percent_encoded, to_lowercase};
use crate::text::{
    contains, contains_text, decimal, join, joined, parse_hex, parsed_hex, push_decimal, same_text,
    texts,
};

verus! {

/// Longest song that a form takes, in milliseconds: forty-five minutes.
pub const MAX_SONG_MILLIS: u64 = 2_700_000;

/// Why an answer cannot be sent.
#[derive(Debug)]
pub enum SubmitError {
    /// A question of the form has no number for an identifier.
    InvalidForm,
    /// A required question of this title got no value.
    MissingValue(String),
    /// A song runs longer than the form takes.
    SongTooLong,
}

/// Content of a `SubmitError`.
pub ghost enum SubmitErrorView {
    InvalidForm,
    MissingValue(Seq<char>),
    SongTooLong,
}

impl View for SubmitError {
    type V = SubmitErrorView;

    open spec fn view(&self) -> SubmitErrorView {
        match self {
            SubmitError::InvalidForm => SubmitErrorView::InvalidForm,
            SubmitError::MissingValue(title) => SubmitErrorView::MissingValue(title@),
            SubmitError::SongTooLong => SubmitErrorView::SongTooLong,
        }
    }
}

impl SubmitErrorView {
    /// What the member is told.
    pub open spec fn text(self) -> Seq<char> {
        match self {
            SubmitErrorView::InvalidForm => "Invalid form definition"@,
            SubmitErrorView::MissingValue(title) =>
                "Cannot submit form response: no value provided for "@ + title,
            SubmitErrorView::SongTooLong => "This song is too long!"@,
        }
    }
}

impl SubmitError {
    /// What the member is told.
    pub fn message(&self) -> (text: String)
        ensures
            text@ == self@.text(),
    {
        match self {
            SubmitError::InvalidForm => String::from_str("Invalid form definition"),
            SubmitError::MissingValue(title) => {
                let mut text = String::from_str(
                    "Cannot submit form response: no value provided for ",
                );
                text.append(title.as_str());
                text
            },
            SubmitError::SongTooLong => String::from_str("This song is too long!"),
        }
    }
}

/// Whether a question of this title asks who submits: in lower case the
/// title holds "user" or "discord".
pub open spec fn asks_for_user(title: Seq<char>) -> bool {
    contains_text(lowercase_of(title), "user"@) || contains_text(lowercase_of(title), "discord"@)
}

/// Whether an option or question of this name takes a link to a song or an
/// album.
pub open spec fn takes_link(name: Seq<char>) -> bool {
    contains_text(name, "spotify"@) || contains_text(name, "link"@)
}

/// The text given for the first option called `name`, if there is such an
/// option and it holds a text.
pub open spec fn given_value(options: Seq<CommandDataOption>, name: Seq<char>) -> Option<Seq<char>>
    decreases options.len(),
{
    if options.len() == 0 {
        None
    } else if options[0].name@ == name {
        match options[0].value {
            CommandDataOptionValue::Text(text) => Some(text@),
            _ => None,
        }
    } else {
        given_value(options.subrange(1, options.len() as int), name)
    }
}

/// What one question comes to.
pub ghost enum Asked {
    /// The identifier of the question is no number.
    Invalid,
    /// The answer is the member's handle.
    Handle(u64),
    /// No value is at hand, and the question is required.
    Missing,
    /// No value is at hand, and none is needed.
    Skipped,
    /// The value is a link that has to be looked up.
    Link(u64, Seq<char>),
    /// The value is the answer.
    Plain(u64, Seq<char>),
}

/// The value at hand for a question called `name`: the one given with the
/// command, else the one that the question after it left behind.
pub open spec fn value_at_hand(options: Seq<CommandDataOption>, name: Seq<char>, left: Option<Seq<char>>)
    -> Option<Seq<char>> {
    match given_value(options, name) {
        Some(value) => Some(value),
        None => left,
    }
}

/// What is left behind for the next question once a question called `name`
/// had its value: a value that was left is used up unless the command gave
/// one.
pub open spec fn left_after(options: Seq<CommandDataOption>, name: Seq<char>, left: Option<Seq<char>>)
    -> Option<Seq<char>> {
    match given_value(options, name) {
        Some(_) => left,
        None => None,
    }
}

/// What question `q` comes to, with `left` left behind by the question
/// after it.
pub open spec fn asked(q: SimpleQuestionView, options: Seq<CommandDataOption>, left: Option<Seq<char>>)
    -> Asked {
    match parsed_hex(q.id) {
        None => Asked::Invalid,
        Some(id) => if asks_for_user(q.title) {
            Asked::Handle(id)
        } else {
            match value_at_hand(options, sanitized(q.title), left) {
                None => if q.required {
                    Asked::Missing
                } else {
                    Asked::Skipped
                },
                Some(value) => if takes_link(sanitized(q.title)) {
                    Asked::Link(id, value)
                } else {
                    Asked::Plain(id, value)
                },
            }
        },
    }
}

/// A value that waits for what its link leads to.
#[derive(Debug)]
pub struct Pending {
    pub question_id: u64,
    pub value: String,
}

/// How far an answer has come. The questions are taken from the last to
/// the first.
#[derive(Debug)]
pub struct Submit {
    user_handle: String,
    album_mode: bool,
    remaining: usize,
    pairs: Vec<(u64, String)>,
    left: Option<String>,
    infos: Vec<String>,
    urls: Vec<String>,
    pending: Option<Pending>,
}

/// Content of a `Submit`.
pub ghost struct SubmitView {
    pub user_handle: Seq<char>,
    /// Whether links lead to albums; else they lead to songs.
    pub album_mode: bool,
    /// How many questions are still to be taken.
    pub remaining: nat,
    /// The answers so far: the number of each question and its value.
    pub pairs: Seq<(u64, Seq<char>)>,
    /// The name of what the last link led to, for the question before it.
    pub left: Option<Seq<char>>,
    /// The names of what the links led to.
    pub infos: Seq<Seq<char>>,
    /// The addresses of the songs that the links led to.
    pub urls: Seq<Seq<char>>,
    /// The value that waits for what its link leads to.
    pub pending: Option<(u64, Seq<char>)>,
}

/// The contents of a list of answers.
pub open spec fn pair_views(pairs: Seq<(u64, String)>) -> Seq<(u64, Seq<char>)> {
    Seq::new(pairs.len(), |i: int| (pairs[i].0, pairs[i].1@))
}

impl View for Submit {
    type V = SubmitView;

    closed spec fn view(&self) -> SubmitView {
        SubmitView {
            user_handle: self.user_handle@,
            album_mode: self.album_mode,
            remaining: self.remaining as nat,
            pairs: pair_views(self.pairs@),
            left: opt_text(self.left),
            infos: texts(self.infos@),
            urls: texts(self.urls@),
            pending: match self.pending {
                Some(p) => Some((p.question_id, p.value@)),
                None => None,
            },
        }
    }
}

impl SimpleForm {
    /// Begins an answer to this form by the member whose handle is
    /// `user_handle`. The answer then goes on with `Submit::advance`.
    pub fn submit(&self, user_handle: &str, submission_type: &str) -> (state: Submit)
        ensures
            state@ == (SubmitView {
                user_handle: user_handle@,
                album_mode: submission_type@ == "album"@,
                remaining: self.questions@.len(),
                pairs: Seq::empty(),
                left: None,
                infos: Seq::empty(),
                urls: Seq::empty(),
                pending: None,
            }),
    {
        Submit::new(self, user_handle, submission_type)
    }
}

/// What is to be done next from outside.
#[derive(Debug)]
pub enum SubmitStep {
    /// Look up the album behind this address.
    FindAlbum(String),
    /// Look up the song behind this address.
    FindSong(String),
    /// Send this body to the form.
    Send(String),
    /// Give up.
    Fail(SubmitError),
}

/// Content of a `SubmitStep`.
pub ghost enum SubmitStepView {
    FindAlbum(Seq<char>),
    FindSong(Seq<char>),
    Send(Seq<char>),
    Fail(SubmitErrorView),
}

impl View for SubmitStep {
    type V = SubmitStepView;

    open spec fn view(&self) -> SubmitStepView {
        match self {
            SubmitStep::FindAlbum(url) => SubmitStepView::FindAlbum(url@),
            SubmitStep::FindSong(url) => SubmitStepView::FindSong(url@),
            SubmitStep::Send(body) => SubmitStepView::Send(body@),
            SubmitStep::Fail(error) => SubmitStepView::Fail(error@),
        }
    }
}

/// One answer as it stands in the body that is sent.
pub open spec fn entry_text(pair: (u64, Seq<char>)) -> Seq<char> {
    "entry."@ + decimal(pair.0 as nat) + "="@ + percent_encoded(vstd::utf8::encode_utf8(pair.1))
}

/// The body that is sent: the answers in the order in which they were
/// taken, with `&` between them.
pub open spec fn form_data(pairs: Seq<(u64, Seq<char>)>) -> Seq<char> {
    joined(pairs.map_values(|pair: (u64, Seq<char>)| entry_text(pair)), "&"@)
}

/// How to ask for what a link leads to.
pub open spec fn lookup(album_mode: bool, value: Seq<char>) -> SubmitStepView {
    if album_mode {
        SubmitStepView::FindAlbum(value)
    } else {
        SubmitStepView::FindSong(value)
    }
}

impl SubmitView {
    /// Where the answer stands after the questions were taken up to the
    /// next one that needs something from outside, and what that is.
    pub open spec fn advanced(self, questions: Seq<SimpleQuestionView>, options: Seq<CommandDataOption>)
        -> (SubmitView, SubmitStepView)
        decreases self.remaining,
    {
        if self.pending is Some {
            (self, lookup(self.album_mode, self.pending.unwrap().1))
        } else if self.remaining == 0 || self.remaining > questions.len() {
            (self, SubmitStepView::Send(form_data(self.pairs)))
        } else {
            let q = questions[self.remaining - 1];
            let name = sanitized(q.title);
            let next = SubmitView { remaining: (self.remaining - 1) as nat, ..self };
            match asked(q, options, self.left) {
                Asked::Invalid => (self, SubmitStepView::Fail(SubmitErrorView::InvalidForm)),
                Asked::Missing => (
                    self,
                    SubmitStepView::Fail(SubmitErrorView::MissingValue(q.title)),
                ),
                Asked::Handle(id) => (SubmitView {
                    pairs: self.pairs.push((id, self.user_handle)),
                    ..next
                }).advanced(questions, options),
                Asked::Skipped => (SubmitView {
                    left: left_after(options, name, self.left),
                    ..next
                }).advanced(questions, options),
                Asked::Plain(id, value) => (SubmitView {
                    pairs: self.pairs.push((id, value)),
                    left: left_after(options, name, self.left),
                    ..next
                }).advanced(questions, options),
                Asked::Link(id, value) => (
                    SubmitView {
                        left: left_after(options, name, self.left),
                        pending: Some((id, value)),
                        ..next
                    },
                    lookup(self.album_mode, value),
                ),
            }
        }
    }

    /// Where the answer stands once the pending link led to a song called
    /// `info` at `url`.
    pub open spec fn with_song(self, info: Seq<char>, url: Seq<char>) -> SubmitView {
        match self.pending {
            None => self,
            Some((id, _)) => SubmitView {
                pairs: self.pairs.push((id, url)),
                left: Some(info),
                infos: self.infos.push(info),
                urls: self.urls.push(url),
                pending: None,
                ..self
            },
        }
    }

    /// Where the answer stands once the pending link led to an album called
    /// `info`, at `url` where the album has an address; the value goes
    /// empty where it has none.
    pub open spec fn with_album(self, info: Seq<char>, url: Option<Seq<char>>) -> SubmitView {
        match self.pending {
            None => self,
            Some((id, _)) => SubmitView {
                pairs: self.pairs.push(
                    (
                        id,
                        match url {
                            Some(url) => url,
                            None => Seq::empty(),
                        },
                    ),
                ),
                left: Some(info),
                infos: self.infos.push(info),
                pending: None,
                ..self
            },
        }
    }

    /// Where the answer stands once no service took the pending link: the
    /// value stays as it was given.
    pub open spec fn with_unknown(self) -> SubmitView {
        match self.pending {
            None => self,
            Some((id, value)) => SubmitView {
                pairs: self.pairs.push((id, value)),
                pending: None,
                ..self
            },
        }
    }

    /// What the member is told once the answer is sent. Each song is named
    /// with its address; names without an address of their own go without.
    pub open spec fn submitted_text(self, title: Seq<char>) -> Seq<char> {
        if self.infos.len() == 0 {
            "Submitted to **"@ + title + "**"@
        } else {
            "Submitted "@ + joined(linked_names(self.infos, self.urls), ", "@) + " to **"@ + title
                + "**"@
        }
    }
}

/// The names `infos`, each linked to the address of the same position, as
/// far as both lists go.
pub open spec fn linked_names(infos: Seq<Seq<char>>, urls: Seq<Seq<char>>) -> Seq<Seq<char>> {
    Seq::new(
        if infos.len() <= urls.len() {
            infos.len()
        } else {
            urls.len()
        },
        |i: int| "["@ + infos[i] + "]("@ + urls[i] + ")"@,
    )
}

fn find_value<'a>(options: &'a Vec<CommandDataOption>, name: &str) -> (value: Option<&'a String>)
    ensures
        (match value {
            Some(v) => Some(v@),
            None => None,
        }) == given_value(options@, name@),
{
    let mut i: usize = 0;
    proof {
        assert(options@.subrange(0, options.len() as int) =~= options@);
    }
    while i < options.len()
        invariant
            i <= options.len(),
            given_value(options@, name@) == given_value(
                options@.subrange(i as int, options.len() as int),
                name@,
            ),
        decreases options.len() - i,
    {
        let ghost rest = options@.subrange(i as int, options.len() as int);
        proof {
            assert(rest[0] == options@[i as int]);
            assert(rest.subrange(1, rest.len() as int) =~= options@.subrange(
                i + 1,
                options.len() as int,
            ));
        }
        if same_text(options[i].name.as_str(), name) {
            return match &options[i].value {
                CommandDataOptionValue::Text(v) => Some(v),
                _ => None,
            };
        }
        i = i + 1;
    }
    None
}

fn title_asks_for_user(title: &str) -> (asks: bool)
    ensures
        asks == asks_for_user(title@),
{
    let lower = to_lowercase(title);
    contains(lower.as_str(), "user") || contains(lower.as_str(), "discord")
}

impl Submit {
    /// The beginning of an answer to `form` by the member whose handle is
    /// `user_handle`. Links lead to albums where `submission_type` is
    /// `album`, else to songs.
    pub fn new(form: &SimpleForm, user_handle: &str, submission_type: &str) -> (state: Submit)
        ensures
            state@ == (SubmitView {
                user_handle: user_handle@,
                album_mode: submission_type@ == "album"@,
                remaining: form.questions@.len(),
                pairs: Seq::empty(),
                left: None,
                infos: Seq::empty(),
                urls: Seq::empty(),
                pending: None,
            }),
    {
        let state = Submit {
            user_handle: String::from_str(user_handle),
            album_mode: same_text(submission_type, "album"),
            remaining: form.questions.len(),
            pairs: Vec::new(),
            left: None,
            infos: Vec::new(),
            urls: Vec::new(),
            pending: None,
        };
        assert(state@.pairs =~= Seq::empty());
        assert(state@.infos =~= Seq::empty());
        assert(state@.urls =~= Seq::empty());
        state
    }

    fn body(&self) -> (body: String)
        ensures
            body@ == form_data(self@.pairs),
    {
        let ghost entry = |pair: (u64, Seq<char>)| entry_text(pair);
        let mut entries: Vec<String> = Vec::new();
        let mut i: usize = 0;
        while i < self.pairs.len()
            invariant
                i <= self.pairs.len(),
                entries@.len() == i,
                forall|j: int|
                    0 <= j < i ==> (#[trigger] entries@[j])@ == entry_text(
                        pair_views(self.pairs@)[j],
                    ),
            decreases self.pairs.len() - i,
        {
            let mut text = String::from_str("entry.");
            push_decimal(&mut text, self.pairs[i].0 as u128);
            text.append("=");
            text.append(percent_encode(self.pairs[i].1.as_str()).as_str());
            entries.push(text);
            i = i + 1;
        }
        assert(texts(entries@) =~= pair_views(self.pairs@).map_values(entry));
        join(&entries, "&")
    }

    fn ask(&self, value: &str) -> (step: SubmitStep)
        ensures
            step@ == lookup(self@.album_mode, value@),
    {
        if self.album_mode {
            SubmitStep::FindAlbum(String::from_str(value))
        } else {
            SubmitStep::FindSong(String::from_str(value))
        }
    }

    /// Takes the questions of `form`, from where the answer stands, up to
    /// the next thing that has to come from outside: what a link leads to,
    /// or the sending of the body. A question that cannot be answered ends
    /// the answer with its fault.
    pub fn advance(&mut self, form: &SimpleForm, options: &Vec<CommandDataOption>) -> (step: SubmitStep)
        ensures
            (final(self)@, step@) == old(self)@.advanced(form@.questions, options@),
    {
        let ghost questions = form@.questions;
        loop
            invariant
                questions == question_views(form.questions@),
                self@.advanced(questions, options@) == old(self)@.advanced(questions, options@),
            decreases self.remaining,
        {
            if let Some(pending) = &self.pending {
                let step = self.ask(pending.value.as_str());
                return step;
            }
            if self.remaining == 0 || self.remaining > form.questions.len() {
                return SubmitStep::Send(self.body());
            }
            let q = &form.questions[self.remaining - 1];
            let ghost before = self@;
            let ghost qv = questions[self.remaining - 1];
            assert(qv == q@);
            let id = match parse_hex(q.id.as_str()) {
                Some(id) => id,
                None => {
                    return SubmitStep::Fail(SubmitError::InvalidForm);
                },
            };
            if title_asks_for_user(q.title.as_str()) {
                self.pairs.push((id, self.user_handle.clone()));
                self.remaining = self.remaining - 1;
                assert(self@.pairs =~= before.pairs.push((id, before.user_handle)));
                continue ;
            }
            let name = sanitize_name(q.title.as_str());
            let given = find_value(options, name.as_str());
            let value = match given {
                Some(v) => v.clone(),
                None => {
                    let left = self.left.take();
                    match left {
                        Some(v) => v,
                        None => {
                            if q.required {
                                return SubmitStep::Fail(
                                    SubmitError::MissingValue(q.title.clone()),
                                );
                            }
                            self.remaining = self.remaining - 1;
                            continue ;
                        },
                    }
                },
            };
            self.remaining = self.remaining - 1;
            if contains(name.as_str(), "spotify") || contains(name.as_str(), "link") {
                let step = self.ask(value.as_str());
                self.pending = Some(Pending { question_id: id, value });
                return step;
            }
            self.pairs.push((id, value));
            assert(self@.pairs =~= before.pairs.push((id, value@)));
        }
    }

    /// Takes in the song that the pending link led to. A song over
    /// forty-five minutes ends the answer.
    pub fn song_found(&mut self, info: &str, url: &str, duration: u64) -> (done: Result<
        (),
        SubmitError,
    >)
        ensures
            match done {
                Ok(()) => duration <= MAX_SONG_MILLIS && final(self)@ == old(self)@.with_song(
                    info@,
                    url@,
                ),
                Err(error) => duration > MAX_SONG_MILLIS && error@ == SubmitErrorView::SongTooLong
                    && final(self)@ == old(self)@,
            },
    {
        if duration > MAX_SONG_MILLIS {
            return Err(SubmitError::SongTooLong);
        }
        let ghost before = self@;
        match self.pending.take() {
            None => {},
            Some(pending) => {
                self.pairs.push((pending.question_id, String::from_str(url)));
                self.left = Some(String::from_str(info));
                self.infos.push(String::from_str(info));
                self.urls.push(String::from_str(url));
                assert(self@.pairs =~= before.pairs.push((pending.question_id, url@)));
                assert(self@.infos =~= before.infos.push(info@));
                assert(self@.urls =~= before.urls.push(url@));
            },
        }
        Ok(())
    }

    /// Takes in the album that the pending link led to.
    pub fn album_found(&mut self, info: &str, url: Option<&str>)
        ensures
            final(self)@ == old(self)@.with_album(info@, crate::outside::text_of(url)),
    {
        let ghost before = self@;
        match self.pending.take() {
            None => {},
            Some(pending) => {
                let value = match url {
                    Some(url) => String::from_str(url),
                    None => String::new(),
                };
                self.pairs.push((pending.question_id, value));
                self.left = Some(String::from_str(info));
                self.infos.push(String::from_str(info));
                assert(self@.pairs =~= before.with_album(
                    info@,
                    crate::outside::text_of(url),
                ).pairs);
                assert(self@.infos =~= before.infos.push(info@));
            },
        }
    }

    /// Takes in that no service knows the pending link.
    pub fn nothing_found(&mut self)
        ensures
            final(self)@ == old(self)@.with_unknown(),
    {
        let ghost before = self@;
        match self.pending.take() {
            None => {},
            Some(pending) => {
                self.pairs.push((pending.question_id, pending.value));
                assert(self@.pairs =~= before.pairs.push((pending.question_id, pending.value@)));
            },
        }
    }

    /// What the member is told once the answer is sent.
    pub fn respond(&self, form: &SimpleForm) -> (response: CommandResponse)
        ensures
            response@ == CommandResponseView::Private(
                ResponseTypeView::Text(self@.submitted_text(form.title@)),
            ),
    {
        let mut text = String::from_str("Submitted ");
        if self.infos.len() > 0 {
            let n = if self.infos.len() <= self.urls.len() {
                self.infos.len()
            } else {
                self.urls.len()
            };
            let mut names: Vec<String> = Vec::new();
            let mut i: usize = 0;
            while i < n
                invariant
                    i <= n,
                    n <= self.infos.len(),
                    n <= self.urls.len(),
                    names@.len() == i,
                    forall|j: int|
                        0 <= j < i ==> (#[trigger] names@[j])@ == "["@ + self.infos@[j]@ + "]("@
                            + self.urls@[j]@ + ")"@,
                decreases n - i,
            {
                let mut name = String::from_str("[");
                name.append(self.infos[i].as_str());
                name.append("](");
                name.append(self.urls[i].as_str());
                name.append(")");
                names.push(name);
                i = i + 1;
            }
            assert(texts(names@) =~= linked_names(self@.infos, self@.urls));
            text.append(join(&names, ", ").as_str());
            text.append(" to **");
        } else {
            text.append("to **");
        }
        text.append(form.title.as_str());
        text.append("**");
        proof {
            reveal_strlit("Submitted ");
            reveal_strlit("to **");
            reveal_strlit("Submitted to **");
            assert("Submitted "@ + "to **"@ =~= "Submitted to **"@);
            assert(text@ =~= self@.submitted_text(form.title@));
        }
        CommandResponse::Private(ResponseType::Text(text))
    }
}

} // verus!
