//! Completing what a member types into an option of a command.

use vstd::prelude::*;
use vstd::string::StringExecFns;
use crate::command::{
    focused_text, get_focused_option, get_str_opt_ac, named_text, CommandDataOption,
};
use crate::forms::{first_form, FormCommand, Forms};
use crate::text::{
    contains, contains_text, has_prefix, join, joined, same_text, starts_with, texts,
};

verus! {

/// What the links of a form lead to.
#[derive(Debug, PartialEq, Eq, Clone, Copy)]
pub enum CompletionType {
    Albums,
    Songs,
}

/// Longest name of a choice, in bytes.
pub const MAX_CHOICE_LEN: usize = 100;

/// Fewest bytes typed for which the music service is asked.
pub const MIN_QUERY_LEN: usize = 5;

/// The choice that offers the track that a member is listening to.
pub fn get_now_playing(artists: &Vec<String>, name: &str, track_id: &str) -> (choice: (
    String,
    String,
))
    ensures
        choice.0@ == joined(texts(artists@), ", "@) + " - "@ + name@,
        choice.1@ == "https://open.spotify.com/track/"@ + track_id@,
{
    let mut label = join(artists, ", ");
    label.append(" - ");
    label.append(name);
    let mut url = String::from_str("https://open.spotify.com/track/");
    url.append(track_id);
    (label, url)
}

/// Where the completions of a link come from.
#[derive(Debug, PartialEq, Eq, Clone, Copy)]
pub enum LinkCompletion {
    /// From what the member is listening to.
    NowPlaying,
    /// From a search of the music service.
    Query(CompletionType),
    /// From nowhere: there are none.
    Nothing,
}

/// Length of `text` in bytes, in its UTF-8 form.
pub open spec fn byte_length(text: Seq<char>) -> usize {
    vstd::utf8::encode_utf8(text).len() as usize
}

/// Where the completions of `option` come from: from what the member is
/// listening to while nothing is typed for a song; from a search once five
/// bytes are typed that begin no address.
pub open spec fn link_completion(option: Seq<char>, ty: CompletionType) -> LinkCompletion {
    if option.len() == 0 && ty == CompletionType::Songs {
        LinkCompletion::NowPlaying
    } else if byte_length(option) >= MIN_QUERY_LEN && !has_prefix(
        option,
        "https://"@,
    ) && !has_prefix(option, "http://"@) {
        LinkCompletion::Query(ty)
    } else {
        LinkCompletion::Nothing
    }
}

/// Says where the completions of a link come from.
pub fn autocomplete_link(option: &str, ty: CompletionType) -> (from: LinkCompletion)
    ensures
        from == link_completion(option@, ty),
{
    let songs = match ty {
        CompletionType::Songs => true,
        CompletionType::Albums => false,
    };
    if option.unicode_len() == 0 && songs {
        LinkCompletion::NowPlaying
    } else if option.len() >= MIN_QUERY_LEN && !starts_with(option, "https://") && !starts_with(
        option,
        "http://",
    ) {
        LinkCompletion::Query(ty)
    } else {
        LinkCompletion::Nothing
    }
}

/// What is to be done about a request for completions.
#[derive(Debug)]
pub enum Completion {
    /// Nothing, and the request is left to others: the command is unknown.
    NotHandled,
    /// Nothing: there is nothing to complete.
    Nothing,
    /// Offer these texts, each as name and as value.
    Choices(Vec<String>),
    /// Find completions for this link.
    Link { value: String, ty: CompletionType },
}

/// Content of a `Completion`.
pub ghost enum CompletionView {
    NotHandled,
    Nothing,
    Choices(Seq<Seq<char>>),
    Link { value: Seq<char>, ty: CompletionType },
}

impl View for Completion {
    type V = CompletionView;

    open spec fn view(&self) -> CompletionView {
        match self {
            Completion::NotHandled => CompletionView::NotHandled,
            Completion::Nothing => CompletionView::Nothing,
            Completion::Choices(names) => CompletionView::Choices(texts(names@)),
            Completion::Link { value, ty } => CompletionView::Link { value: value@, ty: *ty },
        }
    }
}

/// Whether a command takes the name of a form's command.
pub open spec fn takes_command_name(cmd_name: Seq<char>) -> bool {
    cmd_name == "delete_form_command"@ || cmd_name == "refresh_form_command"@ || cmd_name
        == "get_submissions"@
}

/// The names of the commands of guild `guild` that hold `typed`.
pub open spec fn matching_names(forms: Seq<FormCommand>, guild: u64, typed: Seq<char>) -> Seq<
    Seq<char>,
> {
    forms.filter(
        |form: FormCommand| form.guild_id == guild && contains_text(form.command_name@, typed),
    ).map_values(|form: FormCommand| form.command_name@)
}

/// What the links of a form lead to.
pub open spec fn completion_type(submission_type: Seq<char>) -> CompletionType {
    if submission_type == "album"@ {
        CompletionType::Albums
    } else {
        CompletionType::Songs
    }
}

/// What is to be done about a request for completions for the command
/// `cmd_name` of guild `guild`.
pub open spec fn completion(
    forms: Seq<FormCommand>,
    guild: u64,
    cmd_name: Seq<char>,
    options: Seq<CommandDataOption>,
) -> CompletionView {
    if takes_command_name(cmd_name) {
        CompletionView::Choices(
            matching_names(
                forms,
                guild,
                match named_text(options, "command_name"@) {
                    Some(typed) => typed,
                    None => Seq::empty(),
                },
            ),
        )
    } else {
        match first_form(forms, Some(guild), cmd_name) {
            None => CompletionView::NotHandled,
            Some(at) => match focused_text(options) {
                None => CompletionView::Nothing,
                Some(focused) => if contains_text(focused, "spotify"@) || contains_text(
                    focused,
                    "link"@,
                ) {
                    match named_text(options, focused) {
                        None => CompletionView::Nothing,
                        Some(value) => CompletionView::Link {
                            value,
                            ty: completion_type(forms[at].submission_type@),
                        },
                    }
                } else {
                    CompletionView::Nothing
                },
            },
        }
    }
}

fn names_holding(forms: &Forms, guild: u64, typed: &str) -> (names: Vec<String>)
    ensures
        texts(names@) == matching_names(forms.forms@, guild, typed@),
{
    let ghost wanted = |form: FormCommand|
        form.guild_id == guild && contains_text(form.command_name@, typed@);
    let ghost name = |form: FormCommand| form.command_name@;
    let mut names: Vec<String> = Vec::new();
    let mut i: usize = 0;
    proof {
        reveal_with_fuel(Seq::filter, 1);
        assert(forms.forms@.take(0) =~= Seq::empty());
        assert(texts(names@) =~= forms.forms@.take(0).filter(wanted).map_values(name));
    }
    while i < forms.forms.len()
        invariant
            i <= forms.forms.len(),
            wanted == |form: FormCommand|
                form.guild_id == guild && contains_text(form.command_name@, typed@),
            name == |form: FormCommand| form.command_name@,
            texts(names@) == forms.forms@.take(i as int).filter(wanted).map_values(name),
        decreases forms.forms.len() - i,
    {
        let form = &forms.forms[i];
        let ghost before = texts(names@);
        proof {
            assert(forms.forms@.take(i + 1) =~= forms.forms@.take(i as int).push(*form));
            forms.forms@.take(i as int).lemma_filter_push(*form, wanted);
        }
        if form.guild_id == guild && contains(form.command_name.as_str(), typed) {
            names.push(form.command_name.clone());
            assert(texts(names@) =~= before.push(form.command_name@));
            assert(forms.forms@.take(i as int).filter(wanted).push(*form).map_values(name)
                =~= forms.forms@.take(i as int).filter(wanted).map_values(name).push(
                form.command_name@,
            ));
        }
        i = i + 1;
    }
    assert(forms.forms@.take(forms.forms.len() as int) =~= forms.forms@);
    names
}

/// Decides what to do about a request for completions.
pub fn process_autocomplete(
    forms: &Forms,
    guild: u64,
    cmd_name: &str,
    options: &Vec<CommandDataOption>,
) -> (decision: Completion)
    ensures
        decision@ == completion(forms.forms@, guild, cmd_name@, options@),
{
    if same_text(cmd_name, "delete_form_command") || same_text(cmd_name, "refresh_form_command")
        || same_text(cmd_name, "get_submissions") {
        let typed = match get_str_opt_ac(options, "command_name") {
            Some(typed) => typed,
            None => "",
        };
        proof {
            reveal_strlit("");
            assert(""@ =~= Seq::<char>::empty());
        }
        return Completion::Choices(names_holding(forms, guild, typed));
    }
    let form = match forms.find(Some(guild), cmd_name) {
        Some(at) => &forms.forms[at],
        None => {
            return Completion::NotHandled;
        },
    };
    let focused = match get_focused_option(options) {
        Some(focused) => focused,
        None => {
            return Completion::Nothing;
        },
    };
    if !(contains(focused, "spotify") || contains(focused, "link")) {
        return Completion::Nothing;
    }
    let value = match get_str_opt_ac(options, focused) {
        Some(value) => value,
        None => {
            return Completion::Nothing;
        },
    };
    let ty = if same_text(form.submission_type.as_str(), "album") {
        CompletionType::Albums
    } else {
        CompletionType::Songs
    };
    Completion::Link { value: String::from_str(value), ty }
}

/// Where the name of a choice is cut: after a hundred bytes, or at its end
/// where it is shorter.
pub open spec fn label_cut(name: Seq<char>) -> usize {
    if byte_length(name) <= MAX_CHOICE_LEN {
        byte_length(name)
    } else {
        MAX_CHOICE_LEN
    }
}

/// Whether the name of a choice can be cut: the cut does not fall inside a
/// character.
pub open spec fn can_cut(name: Seq<char>) -> bool {
    vstd::utf8::is_char_boundary(vstd::utf8::encode_utf8(name), label_cut(name) as int)
}

/// The name of a choice, cut to a hundred bytes. There is none where the
/// cut falls inside a character.
pub fn choice_label(name: &str) -> (label: Option<&str>)
    ensures
        label is Some <==> can_cut(name@),
        label matches Some(cut) ==> vstd::utf8::encode_utf8(cut@) == vstd::utf8::encode_utf8(
            name@,
        ).subrange(0, label_cut(name@) as int),
{
    let len = if name.len() <= MAX_CHOICE_LEN {
        name.len()
    } else {
        MAX_CHOICE_LEN
    };
    if name.is_char_boundary(len) {
        let parts = name.split_at(len);
        Some(parts.0)
    } else {
        None
    }
}

} // verus!
