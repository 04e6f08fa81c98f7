//! What a command hands back to the chat: a text or an embed, shown to
//! everyone or to the caller alone.

use vstd::prelude::*;
use vstd::string::StringExecFns;
use crate::text::texts;

verus! {

/// The text of an optional string.
pub open spec fn opt_text(text: Option<String>) -> Option<Seq<char>> {
    match text {
        Some(s) => Some(s@),
        None => None,
    }
}

/// One titled entry of an embed.
#[derive(Debug)]
pub struct EmbedField {
    pub name: String,
    pub value: String,
    pub inline: bool,
}

/// Content of an `EmbedField`.
pub ghost struct EmbedFieldView {
    pub name: Seq<char>,
    pub value: Seq<char>,
    pub inline: bool,
}

impl View for EmbedField {
    type V = EmbedFieldView;

    open spec fn view(&self) -> EmbedFieldView {
        EmbedFieldView { name: self.name@, value: self.value@, inline: self.inline }
    }
}

/// A framed message: title, description and fields.
#[derive(Debug)]
pub struct Embed {
    pub title: Option<String>,
    pub description: Option<String>,
    pub fields: Vec<EmbedField>,
}

/// Content of an `Embed`.
pub ghost struct EmbedView {
    pub title: Option<Seq<char>>,
    pub description: Option<Seq<char>>,
    pub fields: Seq<EmbedFieldView>,
}

impl View for Embed {
    type V = EmbedView;

    open spec fn view(&self) -> EmbedView {
        EmbedView {
            title: opt_text(self.title),
            description: opt_text(self.description),
            fields: Seq::new(self.fields@.len(), |i: int| self.fields@[i]@),
        }
    }
}

impl Embed {
    /// An embed without title, description or fields.
    pub fn new() -> (embed: Embed)
        ensures
            embed@ == (EmbedView { title: None, description: None, fields: Seq::empty() }),
    {
        let embed = Embed { title: None, description: None, fields: Vec::new() };
        assert(embed@.fields =~= Seq::empty());
        embed
    }

    /// The same embed under the title `title`.
    pub fn title(self, title: String) -> (embed: Embed)
        ensures
            embed@ == (EmbedView { title: Some(title@), ..self@ }),
    {
        let embed = Embed { title: Some(title), description: self.description, fields: self.fields };
        assert(embed@.fields =~= self@.fields);
        embed
    }

    /// The same embed with the description `description`.
    pub fn description(self, description: String) -> (embed: Embed)
        ensures
            embed@ == (EmbedView { description: Some(description@), ..self@ }),
    {
        let embed = Embed {
            title: self.title,
            description: Some(description),
            fields: self.fields,
        };
        assert(embed@.fields =~= self@.fields);
        embed
    }

    /// The same embed with one more field at the end.
    pub fn field(self, name: String, value: String, inline: bool) -> (embed: Embed)
        ensures
            embed@ == (EmbedView {
                fields: self@.fields.push(EmbedFieldView { name: name@, value: value@, inline }),
                ..self@
            }),
    {
        let mut fields = self.fields;
        fields.push(EmbedField { name, value, inline });
        let embed = Embed { title: self.title, description: self.description, fields };
        assert(embed@.fields =~= self@.fields.push(
            EmbedFieldView { name: name@, value: value@, inline },
        ));
        embed
    }
}

/// The body of an answer.
#[derive(Debug)]
pub enum ResponseType {
    Text(String),
    Embed(Embed),
}

/// Content of a `ResponseType`.
pub ghost enum ResponseTypeView {
    Text(Seq<char>),
    Embed(EmbedView),
}

impl View for ResponseType {
    type V = ResponseTypeView;

    open spec fn view(&self) -> ResponseTypeView {
        match self {
            ResponseType::Text(text) => ResponseTypeView::Text(text@),
            ResponseType::Embed(embed) => ResponseTypeView::Embed(embed@),
        }
    }
}

/// The answer to a command.
#[derive(Debug)]
pub enum CommandResponse {
    /// Nothing is sent.
    Nothing,
    /// Sent for everyone in the channel to see.
    Public(ResponseType),
    /// Sent to the caller alone.
    Private(ResponseType),
}

/// Content of a `CommandResponse`.
pub ghost enum CommandResponseView {
    Nothing,
    Public(ResponseTypeView),
    Private(ResponseTypeView),
}

impl View for CommandResponse {
    type V = CommandResponseView;

    open spec fn view(&self) -> CommandResponseView {
        match self {
            CommandResponse::Nothing => CommandResponseView::Nothing,
            CommandResponse::Public(body) => CommandResponseView::Public(body@),
            CommandResponse::Private(body) => CommandResponseView::Private(body@),
        }
    }
}

/// One text option of a slash command.
#[derive(Debug)]
pub struct CommandOption {
    pub name: String,
    pub description: String,
    pub required: bool,
    pub autocomplete: bool,
    /// The values to pick from; any text is taken where this is empty.
    pub choices: Vec<String>,
}

/// Content of a `CommandOption`.
pub ghost struct CommandOptionView {
    pub name: Seq<char>,
    pub description: Seq<char>,
    pub required: bool,
    pub autocomplete: bool,
    pub choices: Seq<Seq<char>>,
}

impl View for CommandOption {
    type V = CommandOptionView;

    open spec fn view(&self) -> CommandOptionView {
        CommandOptionView {
            name: self.name@,
            description: self.description@,
            required: self.required,
            autocomplete: self.autocomplete,
            choices: texts(self.choices@),
        }
    }
}

/// A slash command as it is registered with the chat service.
#[derive(Debug)]
pub struct CommandSpec {
    pub name: String,
    pub description: String,
    pub options: Vec<CommandOption>,
}

/// Content of a `CommandSpec`.
pub ghost struct CommandSpecView {
    pub name: Seq<char>,
    pub description: Seq<char>,
    pub options: Seq<CommandOptionView>,
}

/// The contents of a list of options.
pub open spec fn option_views(options: Seq<CommandOption>) -> Seq<CommandOptionView> {
    Seq::new(options.len(), |i: int| options[i]@)
}

impl View for CommandSpec {
    type V = CommandSpecView;

    open spec fn view(&self) -> CommandSpecView {
        CommandSpecView {
            name: self.name@,
            description: self.description@,
            options: option_views(self.options@),
        }
    }
}

/// A command that the chat service knows, by name and identifier.
#[derive(Debug)]
pub struct KnownCommand {
    pub name: String,
    pub id: u64,
}

/// Position of the first command called `name`, if there is one.
pub open spec fn first_named(commands: Seq<KnownCommand>, name: Seq<char>) -> Option<int> {
    if exists|i: int| 0 <= i < commands.len() && commands[i].name@ == name {
        Some(
            choose|i: int|
                0 <= i < commands.len() && commands[i].name@ == name && forall|j: int|
                    0 <= j < i ==> commands[j].name@ != name,
        )
    } else {
        None
    }
}

/// Finds the first command called `name`.
pub fn find_command<'a>(commands: &'a Vec<KnownCommand>, name: &str) -> (found: Option<
    &'a KnownCommand,
>)
    ensures
        match found {
            Some(command) => {
                &&& first_named(commands@, name@) is Some
                &&& *command == commands@[first_named(commands@, name@)->0]
                &&& command.name@ == name@
            },
            None => first_named(commands@, name@) is None,
        },
{
    let wanted = String::from_str(name);
    let mut i: usize = 0;
    while i < commands.len()
        invariant
            i <= commands.len(),
            wanted@ == name@,
            forall|j: int| 0 <= j < i ==> commands@[j].name@ != name@,
        decreases commands.len() - i,
    {
        if commands[i].name == wanted {
            proof {
                let c = first_named(commands@, name@)->0;
                assert(0 <= c < commands@.len() && commands@[c].name@ == name@ && forall|j: int|
                    0 <= j < c ==> commands@[j].name@ != name@) by {
                    assert(0 <= i < commands@.len() && commands@[i as int].name@ == name@
                        && forall|j: int| 0 <= j < i ==> commands@[j].name@ != name@);
                }
                assert(c == i);
            }
            return Some(&commands[i]);
        }
        i = i + 1;
    }
    None
}

/// What a member put into an option of a command.
#[derive(Debug)]
pub enum CommandDataOptionValue {
    /// A text.
    Text(String),
    /// A text that is still being typed, for which completions are asked.
    Autocomplete(String),
    /// Anything else.
    Other,
}

/// An option of a command as a member filled it in.
#[derive(Debug)]
pub struct CommandDataOption {
    pub name: String,
    pub value: CommandDataOptionValue,
}

/// The text of a value: what was given or is being typed.
pub open spec fn value_text(value: CommandDataOptionValue) -> Option<Seq<char>> {
    match value {
        CommandDataOptionValue::Text(text) => Some(text@),
        CommandDataOptionValue::Autocomplete(text) => Some(text@),
        CommandDataOptionValue::Other => None,
    }
}

/// The text of the first option called `name`, if there is such an option
/// and it holds a text.
pub open spec fn named_text(options: Seq<CommandDataOption>, name: Seq<char>) -> Option<Seq<char>>
    decreases options.len(),
{
    if options.len() == 0 {
        None
    } else if options[0].name@ == name {
        value_text(options[0].value)
    } else {
        named_text(options.subrange(1, options.len() as int), name)
    }
}

/// The text that is being typed in the first option that is being typed
/// in, if there is one.
pub open spec fn focused_text(options: Seq<CommandDataOption>) -> Option<Seq<char>>
    decreases options.len(),
{
    if options.len() == 0 {
        None
    } else {
        match options[0].value {
            CommandDataOptionValue::Autocomplete(text) => Some(text@),
            _ => focused_text(options.subrange(1, options.len() as int)),
        }
    }
}

/// The text of an optional string slice.
pub open spec fn slice_text(found: Option<&str>) -> Option<Seq<char>> {
    match found {
        Some(s) => Some(s@),
        None => None,
    }
}

/// The text of the first option called `name`.
pub fn get_str_opt_ac<'a>(options: &'a Vec<CommandDataOption>, name: &str) -> (text: Option<
    &'a str,
>)
    ensures
        slice_text(text) == named_text(options@, name@),
{
    let wanted = String::from_str(name);
    let mut i: usize = 0;
    proof {
        assert(options@.subrange(0, options.len() as int) =~= options@);
    }
    while i < options.len()
        invariant
            i <= options.len(),
            wanted@ == name@,
            named_text(options@, name@) == named_text(
                options@.subrange(i as int, options.len() as int),
                name@,
            ),
        decreases options.len() - i,
    {
        proof {
            let rest = options@.subrange(i as int, options.len() as int);
            assert(rest[0] == options@[i as int]);
            assert(rest.subrange(1, rest.len() as int) =~= options@.subrange(
                i + 1,
                options.len() as int,
            ));
        }
        if options[i].name == wanted {
            return match &options[i].value {
                CommandDataOptionValue::Text(text) => Some(text.as_str()),
                CommandDataOptionValue::Autocomplete(text) => Some(text.as_str()),
                CommandDataOptionValue::Other => None,
            };
        }
        i = i + 1;
    }
    None
}

/// The text that is being typed.
pub fn get_focused_option(options: &Vec<CommandDataOption>) -> (text: Option<&str>)
    ensures
        slice_text(text) == focused_text(options@),
{
    let mut i: usize = 0;
    proof {
        assert(options@.subrange(0, options.len() as int) =~= options@);
    }
    while i < options.len()
        invariant
            i <= options.len(),
            focused_text(options@) == focused_text(
                options@.subrange(i as int, options.len() as int),
            ),
        decreases options.len() - i,
    {
        proof {
            let rest = options@.subrange(i as int, options.len() as int);
            assert(rest[0] == options@[i as int]);
            assert(rest.subrange(1, rest.len() as int) =~= options@.subrange(
                i + 1,
                options.len() as int,
            ));
        }
        match &options[i].value {
            CommandDataOptionValue::Autocomplete(text) => {
                return Some(text.as_str());
            },
            _ => {},
        }
        i = i + 1;
    }
    None
}

} // verus!
