//! Submission forms: what a form service reports of a form, the simpler
//! shape that the bot keeps of it, and the slash command made from it.

use vstd::prelude::*;
use vstd::string::StringExecFns;
use crate::command::{
    opt_text, CommandOption, CommandOptionView, CommandResponse, CommandResponseView,
    CommandSpec, CommandSpecView, Embed, EmbedView, ResponseType, ResponseTypeView,
};
use crate::outside::{lowercase_of, regex_capture, regex_group, text_of, to_lowercase};
use crate::playlist::{command_mention, mention_command, spreadsheet_id_in};
use crate::text::{
    ascii_only, chars_of, contains, contains_text, first_chars, join, joined, keep_ascii,
    keep_name_chars, name_chars, same_text, squeeze_underscores, squeezed,
    starts_with, has_prefix, string_of, strip_both, texts, trim_ascii, trim_ascii_space,
    without_leading, without_trailing,
};

verus! {

/// The sheet range in which submissions are looked for by default.
pub const DEFAULT_RANGE: &'static str = "B:Z";

/// Longest name of a command or an option, in characters.
pub const MAX_NAME_LEN: usize = 32;

/// A form as the form service reports it.
#[derive(Debug)]
pub struct Form {
    pub id: String,
    pub info: Info,
    pub items: Vec<Item>,
    pub uri: String,
    pub linked_sheet_id: Option<String>,
}

#[derive(Debug)]
pub struct Info {
    pub title: Option<String>,
    pub description: Option<String>,
}

/// One entry of a form: a question, or something that asks nothing.
#[derive(Debug)]
pub struct Item {
    pub id: String,
    pub title: Option<String>,
    pub description: Option<String>,
    pub question: Option<QuestionItem>,
    pub question_group: Option<QuestionGroupItem>,
    pub page_break: Option<PageBreakItem>,
    pub text: Option<TextItem>,
    pub image: Option<ImageItem>,
    pub video: Option<VideoItem>,
}

#[derive(Debug)]
pub struct QuestionItem {
    pub question: Question,
}

#[derive(Debug)]
pub struct QuestionGroupItem {
    pub questions: Vec<Question>,
}

#[derive(Debug)]
pub struct PageBreakItem {}

#[derive(Debug)]
pub struct TextItem {}

#[derive(Debug)]
pub struct ImageItem {}

#[derive(Debug)]
pub struct VideoItem {}

#[derive(Debug)]
pub struct Question {
    pub id: String,
    pub required: bool,
    pub choice: Option<ChoiceQuestion>,
    pub text: Option<TextQuestion>,
    pub scale: Option<ScaleQuestion>,
    pub date: Option<DateQuestion>,
    pub time: Option<TimeQuestion>,
    pub file_upload: Option<FileUploadQuestion>,
    pub row: Option<RowQuestion>,
}

#[derive(Debug, PartialEq, Eq)]
pub enum ChoiceType {
    Radio,
    Checkbox,
    DropDown,
}

#[derive(Debug)]
pub struct ChoiceQuestion {
    pub ty: ChoiceType,
    pub options: Vec<ChoiceOption>,
}

#[derive(Debug)]
pub struct ChoiceOption {
    pub value: String,
    pub is_other: bool,
}

#[derive(Debug)]
pub struct TextQuestion {}

#[derive(Debug)]
pub struct ScaleQuestion {
    pub low: i64,
    pub high: i64,
}

#[derive(Debug)]
pub struct DateQuestion {}

#[derive(Debug)]
pub struct TimeQuestion {}

#[derive(Debug)]
pub struct FileUploadQuestion {}

#[derive(Debug)]
pub struct RowQuestion {}

/// A form as the bot keeps it: its questions, each a text or a choice.
#[derive(Debug)]
pub struct SimpleForm {
    pub id: String,
    pub title: String,
    pub questions: Vec<SimpleQuestion>,
    pub responder_uri: String,
    pub sheet_id: Option<String>,
}

#[derive(Debug)]
pub struct SimpleQuestion {
    pub id: String,
    pub required: bool,
    pub title: String,
    pub ty: QuestionType,
}

#[derive(Debug)]
pub enum QuestionType {
    Text,
    Choice(Vec<String>),
}

/// Content of a `QuestionType`.
pub ghost enum QuestionTypeView {
    Text,
    Choice(Seq<Seq<char>>),
}

impl View for QuestionType {
    type V = QuestionTypeView;

    open spec fn view(&self) -> QuestionTypeView {
        match self {
            QuestionType::Text => QuestionTypeView::Text,
            QuestionType::Choice(values) => QuestionTypeView::Choice(texts(values@)),
        }
    }
}

/// Content of a `SimpleQuestion`.
pub ghost struct SimpleQuestionView {
    pub id: Seq<char>,
    pub required: bool,
    pub title: Seq<char>,
    pub ty: QuestionTypeView,
}

impl View for SimpleQuestion {
    type V = SimpleQuestionView;

    open spec fn view(&self) -> SimpleQuestionView {
        SimpleQuestionView {
            id: self.id@,
            required: self.required,
            title: self.title@,
            ty: self.ty@,
        }
    }
}

/// The contents of a list of questions.
pub open spec fn question_views(questions: Seq<SimpleQuestion>) -> Seq<SimpleQuestionView> {
    Seq::new(questions.len(), |i: int| questions[i]@)
}

/// Content of a `SimpleForm`.
pub ghost struct SimpleFormView {
    pub id: Seq<char>,
    pub title: Seq<char>,
    pub questions: Seq<SimpleQuestionView>,
    pub responder_uri: Seq<char>,
    pub sheet_id: Option<Seq<char>>,
}

impl View for SimpleForm {
    type V = SimpleFormView;

    open spec fn view(&self) -> SimpleFormView {
        SimpleFormView {
            id: self.id@,
            title: self.title@,
            questions: question_views(self.questions@),
            responder_uri: self.responder_uri@,
            sheet_id: opt_text(self.sheet_id),
        }
    }
}

/// Why a form cannot be taken.
#[derive(Debug, PartialEq, Eq, Clone, Copy)]
pub enum FormError {
    MissingQuestionTitle,
    CheckboxQuestion,
    OtherOption,
    UnsupportedQuestion,
    MissingFormTitle,
}

impl FormError {
    /// What is said of the fault.
    pub open spec fn text(self) -> Seq<char> {
        match self {
            FormError::MissingQuestionTitle => "Question is missing a title"@,
            FormError::CheckboxQuestion => "Checkboxes are not supported"@,
            FormError::OtherOption => "'Other' field is not supported"@,
            FormError::UnsupportedQuestion => "Can only handle text or choice questions"@,
            FormError::MissingFormTitle => "Form is missing a title"@,
        }
    }

    /// What is said of the fault.
    pub fn message(&self) -> (text: String)
        ensures
            text@ == self.text(),
    {
        match self {
            FormError::MissingQuestionTitle => String::from_str("Question is missing a title"),
            FormError::CheckboxQuestion => String::from_str("Checkboxes are not supported"),
            FormError::OtherOption => String::from_str("'Other' field is not supported"),
            FormError::UnsupportedQuestion => String::from_str(
                "Can only handle text or choice questions",
            ),
            FormError::MissingFormTitle => String::from_str("Form is missing a title"),
        }
    }
}

/// Whether one of `options` is the free "other" answer.
pub open spec fn has_other(options: Seq<ChoiceOption>) -> bool {
    exists|i: int| 0 <= i < options.len() && options[i].is_other
}

/// The answers that `options` offer.
pub open spec fn option_values(options: Seq<ChoiceOption>) -> Seq<Seq<char>> {
    Seq::new(options.len(), |i: int| options[i].value@)
}

/// What kind of answer `question` takes, or why it cannot be asked.
pub open spec fn answer_kind(question: Question) -> Result<QuestionTypeView, FormError> {
    if question.text is Some {
        Ok(QuestionTypeView::Text)
    } else {
        match question.choice {
            Some(choice) => if choice.ty == ChoiceType::Checkbox {
                Err(FormError::CheckboxQuestion)
            } else if has_other(choice.options@) {
                Err(FormError::OtherOption)
            } else {
                Ok(QuestionTypeView::Choice(option_values(choice.options@)))
            },
            None => Err(FormError::UnsupportedQuestion),
        }
    }
}

/// The simple question in `item`: none where the item asks nothing, else
/// the question or the reason why it cannot be taken.
pub open spec fn simple_question(item: Item) -> Option<Result<SimpleQuestionView, FormError>> {
    match item.question {
        None => None,
        Some(held) => Some(
            match item.title {
                None => Err(FormError::MissingQuestionTitle),
                Some(title) => match answer_kind(held.question) {
                    Err(error) => Err(error),
                    Ok(ty) => Ok(
                        SimpleQuestionView {
                            id: held.question.id@,
                            required: held.question.required,
                            title: title@,
                            ty,
                        },
                    ),
                },
            },
        ),
    }
}

/// The simple questions of `items` in their order, or the fault of the
/// first item that has one.
pub open spec fn simple_questions(items: Seq<Item>) -> Result<Seq<SimpleQuestionView>, FormError>
    decreases items.len(),
{
    if items.len() == 0 {
        Ok(Seq::empty())
    } else {
        match simple_questions(items.drop_last()) {
            Err(error) => Err(error),
            Ok(before) => match simple_question(items.last()) {
                None => Ok(before),
                Some(Err(error)) => Err(error),
                Some(Ok(question)) => Ok(before.push(question)),
            },
        }
    }
}

/// The simple form of `form`, or why it cannot be taken.
pub open spec fn simple_form(form: Form) -> Result<SimpleFormView, FormError> {
    match form.info.title {
        None => Err(FormError::MissingFormTitle),
        Some(title) => match simple_questions(form.items@) {
            Err(error) => Err(error),
            Ok(questions) => Ok(
                SimpleFormView {
                    id: form.id@,
                    title: title@,
                    questions,
                    responder_uri: form.uri@,
                    sheet_id: opt_text(form.linked_sheet_id),
                },
            ),
        },
    }
}

/// The content of a conversion's result.
pub open spec fn question_result_view(result: Option<Result<SimpleQuestion, FormError>>) -> Option<
    Result<SimpleQuestionView, FormError>,
> {
    match result {
        None => None,
        Some(Err(error)) => Some(Err(error)),
        Some(Ok(question)) => Some(Ok(question@)),
    }
}

/// The content of a conversion's result.
pub open spec fn form_result_view(result: Result<SimpleForm, FormError>) -> Result<
    SimpleFormView,
    FormError,
> {
    match result {
        Err(error) => Err(error),
        Ok(form) => Ok(form@),
    }
}

fn any_other(options: &Vec<ChoiceOption>) -> (found: bool)
    ensures
        found == has_other(options@),
{
    let mut i: usize = 0;
    while i < options.len()
        invariant
            i <= options.len(),
            forall|j: int| 0 <= j < i ==> !options@[j].is_other,
        decreases options.len() - i,
    {
        if options[i].is_other {
            return true;
        }
        i = i + 1;
    }
    false
}

fn values_of(options: &Vec<ChoiceOption>) -> (values: Vec<String>)
    ensures
        texts(values@) == option_values(options@),
{
    let mut values: Vec<String> = Vec::new();
    let mut i: usize = 0;
    while i < options.len()
        invariant
            i <= options.len(),
            values@.len() == i,
            forall|j: int| 0 <= j < i ==> (#[trigger] values@[j])@ == options@[j].value@,
        decreases options.len() - i,
    {
        values.push(options[i].value.clone());
        i = i + 1;
    }
    assert(texts(values@) =~= option_values(options@));
    values
}

fn kind_of(question: &Question) -> (kind: Result<QuestionType, FormError>)
    ensures
        match kind {
            Ok(ty) => answer_kind(*question) == Ok::<QuestionTypeView, FormError>(ty@),
            Err(error) => answer_kind(*question) == Err::<QuestionTypeView, FormError>(error),
        },
{
    if question.text.is_some() {
        return Ok(QuestionType::Text);
    }
    match &question.choice {
        Some(choice) => {
            match choice.ty {
                ChoiceType::Checkbox => {
                    return Err(FormError::CheckboxQuestion);
                },
                _ => {},
            }
            if any_other(&choice.options) {
                return Err(FormError::OtherOption);
            }
            Ok(QuestionType::Choice(values_of(&choice.options)))
        },
        None => Err(FormError::UnsupportedQuestion),
    }
}

impl Item {
    /// The simple question in this item: none where the item asks nothing,
    /// else the question or the reason why it cannot be taken.
    pub fn to_simple(&self) -> (result: Option<Result<SimpleQuestion, FormError>>)
        ensures
            question_result_view(result) == simple_question(*self),
    {
        let question = match &self.question {
            Some(q) => &q.question,
            None => {
                return None;
            },
        };
        let title = match &self.title {
            Some(title) => title.clone(),
            None => {
                return Some(Err(FormError::MissingQuestionTitle));
            },
        };
        match kind_of(question) {
            Err(error) => Some(Err(error)),
            Ok(ty) => Some(
                Ok(SimpleQuestion { id: question.id.clone(), required: question.required, title, ty }),
            ),
        }
    }
}

impl Form {
    /// The simple form of this form, or why it cannot be taken.
    pub fn to_simple(&self) -> (result: Result<SimpleForm, FormError>)
        ensures
            form_result_view(result) == simple_form(*self),
    {
        let title = match &self.info.title {
            Some(title) => title.clone(),
            None => {
                return Err(FormError::MissingFormTitle);
            },
        };
        let mut questions: Vec<SimpleQuestion> = Vec::new();
        let mut i: usize = 0;
        assert(self.items@.take(0) =~= Seq::empty());
        assert(question_views(questions@) =~= Seq::empty());
        while i < self.items.len()
            invariant
                i <= self.items.len(),
                self.info.title is Some,
                simple_questions(self.items@.take(i as int)) == Ok::<
                    Seq<SimpleQuestionView>,
                    FormError,
                >(question_views(questions@)),
            decreases self.items.len() - i,
        {
            let ghost before = question_views(questions@);
            proof {
                assert(self.items@.take(i + 1).drop_last() =~= self.items@.take(i as int));
                assert(self.items@.take(i + 1).last() == self.items@[i as int]);
            }
            match self.items[i].to_simple() {
                None => {},
                Some(Err(error)) => {
                    proof {
                        assert(simple_questions(self.items@.take(i + 1)) == Err::<
                            Seq<SimpleQuestionView>,
                            FormError,
                        >(error));
                        lemma_first_fault(self.items@, i + 1);
                    }
                    return Err(error);
                },
                Some(Ok(question)) => {
                    questions.push(question);
                    assert(question_views(questions@) =~= before.push(question@));
                },
            }
            i = i + 1;
        }
        assert(self.items@.take(self.items.len() as int) =~= self.items@);
        let sheet_id = match &self.linked_sheet_id {
            Some(id) => Some(id.clone()),
            None => None,
        };
        Ok(
            SimpleForm {
                id: self.id.clone(),
                title,
                questions,
                responder_uri: self.uri.clone(),
                sheet_id,
            },
        )
    }
}

/// A fault among the first `n` items is the fault of the whole list.
proof fn lemma_first_fault(items: Seq<Item>, n: int)
    requires
        0 <= n <= items.len(),
        simple_questions(items.take(n)) is Err,
    ensures
        simple_questions(items) == simple_questions(items.take(n)),
    decreases items.len() - n,
{
    if n < items.len() {
        assert(items.take(n + 1).drop_last() =~= items.take(n));
        lemma_first_fault(items, n + 1);
    } else {
        assert(items.take(n) =~= items);
    }
}

/// `s` as the name of a command or an option: its ASCII characters, without
/// white space at either end; white space and the marks `-+&./` become
/// underscores, capitals become small letters, whatever else is no letter
/// or digit goes; runs of underscores shrink to one; at most 32 characters.
pub open spec fn sanitized(s: Seq<char>) -> Seq<char> {
    first_chars(squeezed(name_chars(trim_ascii(ascii_only(s)), true)), MAX_NAME_LEN as nat)
}

/// Converts `s` to a text that can be used as a command or option name.
pub fn sanitize_name(s: &str) -> (out: String)
    ensures
        out@ == sanitized(s@),
{
    let ascii = keep_ascii(&chars_of(s));
    let named = keep_name_chars(&trim_ascii_space(&ascii), true);
    string_of(&squeeze_underscores(&named, MAX_NAME_LEN))
}

/// Whether a question of this title asks for a link to a song or an
/// album: in lower case the title holds "spotify" or "link".
pub open spec fn asks_for_link(title: Seq<char>) -> bool {
    contains_text(lowercase_of(title), "spotify"@) || contains_text(lowercase_of(title), "link"@)
}

/// Whether a question of this title asks for a link to a song or an album.
pub fn title_asks_for_link(title: &str) -> (asks: bool)
    ensures
        asks == asks_for_link(title@),
{
    let lower = to_lowercase(title);
    contains(lower.as_str(), "spotify") || contains(lower.as_str(), "link")
}

/// The questions that become options, in the order of the options: the
/// first question is left out, since it asks who submits; the required
/// ones go first, and each group keeps its order.
pub open spec fn option_questions(questions: Seq<SimpleQuestionView>) -> Seq<SimpleQuestionView> {
    let rest = if questions.len() == 0 {
        questions
    } else {
        questions.subrange(1, questions.len() as int)
    };
    rest.filter(|q: SimpleQuestionView| q.required) + rest.filter(
        |q: SimpleQuestionView| !q.required,
    )
}

/// Whether question `i` of `ordered` gets no option of its own: it takes a
/// text and the question after it asks for a link, so that its answer is the
/// name of what the link leads to.
pub open spec fn named_by_next(ordered: Seq<SimpleQuestionView>, i: int) -> bool {
    &&& 0 <= i
    &&& i + 1 < ordered.len()
    &&& ordered[i].ty is Text
    &&& asks_for_link(ordered[i + 1].title)
}

/// The option for question `i` of `ordered`. It completes what is typed
/// where the question before it was left to it to name.
pub open spec fn option_for(ordered: Seq<SimpleQuestionView>, i: int) -> CommandOptionView {
    CommandOptionView {
        name: sanitized(ordered[i].title),
        description: ordered[i].title,
        required: ordered[i].required,
        autocomplete: named_by_next(ordered, i - 1),
        choices: match ordered[i].ty {
            QuestionTypeView::Text => Seq::empty(),
            QuestionTypeView::Choice(values) => values,
        },
    }
}

/// The options for the first `n` questions of `ordered`.
pub open spec fn options_for(ordered: Seq<SimpleQuestionView>, n: int) -> Seq<CommandOptionView>
    decreases n,
{
    if n <= 0 {
        Seq::empty()
    } else if named_by_next(ordered, n - 1) {
        options_for(ordered, n - 1)
    } else {
        options_for(ordered, n - 1).push(option_for(ordered, n - 1))
    }
}

/// The command made from `form` under the name `command_name`.
pub open spec fn form_command(form: SimpleFormView, command_name: Seq<char>) -> CommandSpecView {
    let ordered = option_questions(form.questions);
    CommandSpecView {
        name: sanitized(command_name),
        description: form.title,
        options: options_for(ordered, ordered.len() as int),
    }
}

/// The contents of a list of borrowed questions.
pub open spec fn borrowed_views(questions: Seq<&SimpleQuestion>) -> Seq<SimpleQuestionView> {
    Seq::new(questions.len(), |i: int| questions[i]@)
}

fn clone_texts(values: &Vec<String>) -> (copy: Vec<String>)
    ensures
        texts(copy@) == texts(values@),
{
    let mut copy: Vec<String> = Vec::new();
    let mut i: usize = 0;
    while i < values.len()
        invariant
            i <= values.len(),
            copy@.len() == i,
            forall|j: int| 0 <= j < i ==> (#[trigger] copy@[j])@ == values@[j]@,
        decreases values.len() - i,
    {
        copy.push(values[i].clone());
        i = i + 1;
    }
    assert(texts(copy@) =~= texts(values@));
    copy
}

impl SimpleForm {
    /// The questions that become options, in the order of the options.
    fn ordered_questions(&self) -> (ordered: Vec<&SimpleQuestion>)
        ensures
            borrowed_views(ordered@) == option_questions(self@.questions),
    {
        let ghost all = question_views(self.questions@);
        let ghost wanted = |q: SimpleQuestionView| q.required;
        let ghost unwanted = |q: SimpleQuestionView| !q.required;
        let mut ordered: Vec<&SimpleQuestion> = Vec::new();
        let n = self.questions.len();
        if n == 0 {
            proof {
                reveal_with_fuel(Seq::filter, 1);
                assert(all.filter(wanted) =~= Seq::empty());
                assert(all.filter(unwanted) =~= Seq::empty());
                assert(borrowed_views(ordered@) =~= all.filter(wanted) + all.filter(unwanted));
            }
            return ordered;
        }
        let ghost rest = all.subrange(1, all.len() as int);
        let mut i: usize = 1;
        proof {
            reveal_with_fuel(Seq::filter, 1);
            assert(rest.take(0) =~= Seq::empty());
            assert(rest.take(0).filter(wanted) =~= Seq::empty());
            assert(rest.take(0).filter(unwanted) =~= Seq::empty());
            assert(borrowed_views(ordered@) =~= Seq::empty());
        }
        while i < n
            invariant
                1 <= i <= n,
                n == self.questions.len(),
                all == question_views(self.questions@),
                rest == all.subrange(1, all.len() as int),
                wanted == |q: SimpleQuestionView| q.required,
                borrowed_views(ordered@) == rest.take(i - 1).filter(wanted),
            decreases n - i,
        {
            let ghost before = borrowed_views(ordered@);
            proof {
                assert(rest.take(i as int) =~= rest.take(i - 1).push(all[i as int]));
                rest.take(i - 1).lemma_filter_push(all[i as int], wanted);
            }
            if self.questions[i].required {
                ordered.push(&self.questions[i]);
                assert(borrowed_views(ordered@) =~= before.push(all[i as int]));
            }
            i = i + 1;
        }
        let ghost first = borrowed_views(ordered@);
        proof {
            assert(rest.take(n - 1) =~= rest);
            assert(first + rest.take(0).filter(unwanted) =~= first);
        }
        let mut i: usize = 1;
        while i < n
            invariant
                1 <= i <= n,
                n == self.questions.len(),
                all == question_views(self.questions@),
                rest == all.subrange(1, all.len() as int),
                unwanted == |q: SimpleQuestionView| !q.required,
                borrowed_views(ordered@) == first + rest.take(i - 1).filter(unwanted),
            decreases n - i,
        {
            let ghost before = borrowed_views(ordered@);
            proof {
                assert(rest.take(i as int) =~= rest.take(i - 1).push(all[i as int]));
                rest.take(i - 1).lemma_filter_push(all[i as int], unwanted);
            }
            if !self.questions[i].required {
                ordered.push(&self.questions[i]);
                assert(borrowed_views(ordered@) =~= before.push(all[i as int]));
                assert(first + rest.take(i - 1).filter(unwanted).push(all[i as int]) =~= (first
                    + rest.take(i - 1).filter(unwanted)).push(all[i as int]));
            }
            i = i + 1;
        }
        proof {
            assert(rest.take(n - 1) =~= rest);
        }
        ordered
    }

    /// The slash command that takes the answers to this form. The first
    /// question is left out: it asks who submits.
    pub fn to_command(&self, command_name: &str) -> (command: CommandSpec)
        ensures
            command@ == form_command(self@, command_name@),
    {
        let questions = self.ordered_questions();
        let ghost ordered = borrowed_views(questions@);
        let mut options: Vec<CommandOption> = Vec::new();
        let mut autocomplete = false;
        let mut i: usize = 0;
        assert(crate::command::option_views(options@) =~= options_for(ordered, 0));
        while i < questions.len()
            invariant
                i <= questions.len(),
                ordered == borrowed_views(questions@),
                autocomplete == named_by_next(ordered, i - 1),
                crate::command::option_views(options@) == options_for(ordered, i as int),
            decreases questions.len() - i,
        {
            let q = questions[i];
            let ghost before = crate::command::option_views(options@);
            let mut skip = false;
            if i + 1 < questions.len() {
                let is_text = match q.ty {
                    QuestionType::Text => true,
                    _ => false,
                };
                if is_text && title_asks_for_link(questions[i + 1].title.as_str()) {
                    skip = true;
                }
            }
            assert(skip == named_by_next(ordered, i as int));
            if skip {
                autocomplete = true;
            } else {
                let choices = match &q.ty {
                    QuestionType::Text => Vec::new(),
                    QuestionType::Choice(values) => clone_texts(values),
                };
                let option = CommandOption {
                    name: sanitize_name(q.title.as_str()),
                    description: q.title.clone(),
                    required: q.required,
                    autocomplete,
                    choices,
                };
                assert(option@.choices =~= option_for(ordered, i as int).choices);
                options.push(option);
                assert(crate::command::option_views(options@) =~= before.push(
                    option_for(ordered, i as int),
                ));
                autocomplete = false;
            }
            i = i + 1;
        }
        CommandSpec {
            name: sanitize_name(command_name),
            description: self.title.clone(),
            options,
        }
    }
}

/// With what the address of a form for those who answer it begins.
pub const RESPONDER_URI_START: &'static str = "https://docs.google.com/forms/d/e/";

/// With what the address of a form for those who answer it ends.
pub const RESPONDER_URI_END: &'static str = "/viewform";

/// Expression that finds the address of a form and captures the form's
/// identifier.
pub const FORM_URL_RE: &'static str = "https://docs.google.com/forms/d/([^/]+)";

/// The identifier under which answers to a form are sent: the address for
/// those who answer, without its fixed beginning and end.
pub open spec fn responder_id_of(responder_uri: Seq<char>) -> Seq<char> {
    without_trailing(without_leading(responder_uri, RESPONDER_URI_START@), RESPONDER_URI_END@)
}

/// The address that answers to a form are sent to.
pub open spec fn response_url_of(responder_uri: Seq<char>) -> Seq<char> {
    "https://docs.google.com/forms/u/0/d/e/"@ + responder_id_of(responder_uri) + "/formResponse"@
}

impl SimpleForm {
    /// The identifier under which answers to this form are sent.
    pub fn responder_id(&self) -> (id: &str)
        ensures
            id@ == responder_id_of(self.responder_uri@),
    {
        strip_both(self.responder_uri.as_str(), RESPONDER_URI_START, RESPONDER_URI_END)
    }

    /// The address that answers to this form are sent to.
    pub fn form_response_url(&self) -> (url: String)
        ensures
            url@ == response_url_of(self.responder_uri@),
    {
        let mut url = String::from_str("https://docs.google.com/forms/u/0/d/e/");
        url.append(self.responder_id());
        url.append("/formResponse");
        url
    }
}

/// A form together with the command that takes its answers.
#[derive(Debug)]
pub struct FormCommand {
    pub guild_id: u64,
    pub command_name: String,
    pub command_id: u64,
    pub form: SimpleForm,
    pub submission_type: String,
    pub submissions_range: Option<String>,
}

/// Whether a form's command is called `name`, in guild `guild` where one is
/// given.
pub open spec fn form_matches(form: FormCommand, guild: Option<u64>, name: Seq<char>) -> bool {
    (guild is None || form.guild_id == guild->0) && form.command_name@ == name
}

/// Position of the first form whose command is called `name`, in guild
/// `guild` where one is given.
pub open spec fn first_form(forms: Seq<FormCommand>, guild: Option<u64>, name: Seq<char>) -> Option<
    int,
> {
    if exists|i: int| 0 <= i < forms.len() && form_matches(forms[i], guild, name) {
        Some(
            choose|i: int|
                0 <= i < forms.len() && form_matches(forms[i], guild, name) && forall|j: int|
                    0 <= j < i ==> !form_matches(forms[j], guild, name),
        )
    } else {
        None
    }
}

/// The line of the list for one form.
pub open spec fn form_line(form: FormCommand) -> Seq<char> {
    "**· ["@ + form.form.title@ + "]("@ + form.form.responder_uri@ + "):** "@ + command_mention(
        form.command_name@,
        form.command_id,
    )
}

/// The lines of the list for the forms of guild `guild`, in their order.
pub open spec fn form_lines(forms: Seq<FormCommand>, guild: u64) -> Seq<Seq<char>> {
    forms.filter(|form: FormCommand| form.guild_id == guild).map_values(
        |form: FormCommand| form_line(form),
    )
}

/// A form whose command is to be made anew.
#[derive(Debug)]
pub struct Renewal {
    pub guild_id: u64,
    pub command_name: String,
    pub form_id: String,
    pub submission_type: String,
}

/// Whether a form was stored before its questions had identifiers.
pub open spec fn lacks_question_ids(form: FormCommand) -> bool {
    form.form.questions@.len() > 0 && form.form.questions@[0].id@.len() == 0
}

/// What is kept of a form to make its command anew.
pub open spec fn renewal_of(form: FormCommand) -> (u64, Seq<char>, Seq<char>, Seq<char>) {
    (form.guild_id, form.command_name@, form.form.id@, form.submission_type@)
}

/// The content of a renewal.
pub open spec fn renewal_view(renewal: Renewal) -> (u64, Seq<char>, Seq<char>, Seq<char>) {
    (renewal.guild_id, renewal.command_name@, renewal.form_id@, renewal.submission_type@)
}

/// The forms and their commands, over all guilds.
#[derive(Debug)]
pub struct Forms {
    pub forms: Vec<FormCommand>,
}

/// No command of that name is known.
#[derive(Debug)]
pub struct CommandNotFound {
    pub command_name: String,
}

impl CommandNotFound {
    /// What the member is told.
    pub fn message(&self) -> (text: String)
        ensures
            text@ == "Command "@ + self.command_name@ + " not found"@,
    {
        let mut text = String::from_str("Command ");
        text.append(self.command_name.as_str());
        text.append(" not found");
        text
    }
}

impl Forms {
    /// A store without forms.
    pub fn new() -> (store: Forms)
        ensures
            store.forms@.len() == 0,
    {
        Forms { forms: Vec::new() }
    }

    /// Finds the first form whose command is called `name`, in guild
    /// `guild` where one is given.
    pub fn find(&self, guild: Option<u64>, name: &str) -> (found: Option<usize>)
        ensures
            match found {
                Some(at) => {
                    &&& first_form(self.forms@, guild, name@) == Some(at as int)
                    &&& at < self.forms@.len()
                    &&& form_matches(self.forms@[at as int], guild, name@)
                },
                None => first_form(self.forms@, guild, name@) is None,
            },
    {
        let mut i: usize = 0;
        while i < self.forms.len()
            invariant
                i <= self.forms.len(),
                forall|j: int| 0 <= j < i ==> !form_matches(self.forms@[j], guild, name@),
            decreases self.forms.len() - i,
        {
            let form = &self.forms[i];
            let in_guild = match guild {
                None => true,
                Some(id) => form.guild_id == id,
            };
            if in_guild && same_text(form.command_name.as_str(), name) {
                proof {
                    let c = first_form(self.forms@, guild, name@)->0;
                    assert(0 <= c < self.forms@.len() && form_matches(self.forms@[c], guild, name@)
                        && forall|j: int| 0 <= j < c ==> !form_matches(self.forms@[j], guild, name@))
                        by {
                        assert(0 <= i < self.forms@.len() && form_matches(
                            self.forms@[i as int],
                            guild,
                            name@,
                        ) && forall|j: int|
                            0 <= j < i ==> !form_matches(self.forms@[j], guild, name@));
                    }
                    assert(c == i);
                }
                return Some(i);
            }
            i = i + 1;
        }
        None
    }

    /// Puts `command` in the place of the first form whose command is
    /// called `requested`, or at the end where there is none.
    pub fn add(&mut self, requested: &str, command: FormCommand)
        ensures
            final(self).forms@ == (match first_form(old(self).forms@, None, requested@) {
                Some(at) => old(self).forms@.update(at, command),
                None => old(self).forms@.push(command),
            }),
    {
        match self.find(None, requested) {
            Some(at) => {
                self.forms[at] = command;
            },
            None => {
                self.forms.push(command);
            },
        }
    }

    /// Drops every form whose command is called `name`.
    pub fn remove(&mut self, name: &str)
        ensures
            final(self).forms@ == old(self).forms@.filter(
                |form: FormCommand| form.command_name@ != name@,
            ),
    {
        let ghost kept = |form: FormCommand| form.command_name@ != name@;
        let ghost all = self.forms@;
        let mut rest: Vec<FormCommand> = Vec::new();
        let mut taken: Vec<FormCommand> = Vec::new();
        core::mem::swap(&mut self.forms, &mut taken);
        let mut reversed: Vec<FormCommand> = Vec::new();
        while taken.len() > 0
            invariant
                all == taken@ + reversed@.reverse(),
            decreases taken.len(),
        {
            let ghost before = taken@;
            let form = taken.pop().unwrap();
            reversed.push(form);
            assert(before =~= taken@.push(form));
            assert(taken@ + reversed@.reverse() =~= all);
        }
        proof {
            reveal_with_fuel(Seq::filter, 1);
            assert(all =~= reversed@.reverse());
            assert(all.take(0) =~= Seq::empty());
        }
        let ghost mut done: int = 0;
        while reversed.len() > 0
            invariant
                0 <= done <= all.len(),
                kept == |form: FormCommand| form.command_name@ != name@,
                reversed@.len() == all.len() - done,
                forall|j: int| 0 <= j < reversed@.len() ==> reversed@[j] == all[all.len() - 1 - j],
                rest@ == all.take(done).filter(kept),
            decreases reversed.len(),
        {
            let form = reversed.pop().unwrap();
            proof {
                assert(form == all[done]);
                assert(all.take(done + 1) =~= all.take(done).push(form));
                all.take(done).lemma_filter_push(form, kept);
                done = done + 1;
            }
            if !same_text(form.command_name.as_str(), name) {
                rest.push(form);
            }
        }
        proof {
            assert(all.take(all.len() as int) =~= all);
        }
        self.forms = rest;
    }

    /// Sets the range in which the submissions to a form are looked for.
    pub fn override_range(&mut self, guild_id: u64, name: &str, range: Option<String>) -> (done:
        Result<(), CommandNotFound>)
        ensures
            match done {
                Ok(()) => {
                    &&& first_form(old(self).forms@, Some(guild_id), name@) matches Some(at)
                    &&& final(self).forms@.len() == old(self).forms@.len()
                    &&& forall|j: int|
                        0 <= j < old(self).forms@.len() && j != at ==> final(self).forms@[j] == old(
                            self,
                        ).forms@[j]
                    &&& final(self).forms@[at] == (FormCommand {
                        submissions_range: range,
                        ..old(self).forms@[at]
                    })
                },
                Err(error) => {
                    &&& first_form(old(self).forms@, Some(guild_id), name@) is None
                    &&& final(self).forms@ == old(self).forms@
                    &&& error.command_name@ == name@
                },
            },
    {
        match self.find(Some(guild_id), name) {
            Some(at) => {
                self.forms[at].submissions_range = range;
                Ok(())
            },
            None => Err(CommandNotFound { command_name: String::from_str(name) }),
        }
    }

    /// The embed that lists the forms of guild `guild`.
    pub fn list(&self, guild: u64) -> (response: CommandResponse)
        ensures
            response@ == CommandResponseView::Public(
                ResponseTypeView::Embed(
                    EmbedView {
                        title: Some("Registered forms"@),
                        description: Some(joined(form_lines(self.forms@, guild), "\n"@)),
                        fields: Seq::empty(),
                    },
                ),
            ),
    {
        let ghost wanted = |form: FormCommand| form.guild_id == guild;
        let ghost line = |form: FormCommand| form_line(form);
        let mut lines: Vec<String> = Vec::new();
        let mut i: usize = 0;
        proof {
            reveal_with_fuel(Seq::filter, 1);
            assert(self.forms@.take(0) =~= Seq::empty());
            assert(texts(lines@) =~= self.forms@.take(0).filter(wanted).map_values(line));
        }
        while i < self.forms.len()
            invariant
                i <= self.forms.len(),
                wanted == |form: FormCommand| form.guild_id == guild,
                line == |form: FormCommand| form_line(form),
                texts(lines@) == self.forms@.take(i as int).filter(wanted).map_values(line),
            decreases self.forms.len() - i,
        {
            let form = &self.forms[i];
            let ghost before = texts(lines@);
            proof {
                assert(self.forms@.take(i + 1) =~= self.forms@.take(i as int).push(*form));
                self.forms@.take(i as int).lemma_filter_push(*form, wanted);
            }
            if form.guild_id == guild {
                let mut text = String::from_str("**· [");
                text.append(form.form.title.as_str());
                text.append("](");
                text.append(form.form.responder_uri.as_str());
                text.append("):** ");
                text.append(mention_command(form.command_name.as_str(), form.command_id).as_str());
                assert(text@ =~= form_line(*form));
                lines.push(text);
                assert(texts(lines@) =~= before.push(form_line(*form)));
                assert(self.forms@.take(i as int).filter(wanted).push(*form).map_values(line)
                    =~= self.forms@.take(i as int).filter(wanted).map_values(line).push(
                    form_line(*form),
                ));
            }
            i = i + 1;
        }
        assert(self.forms@.take(self.forms.len() as int) =~= self.forms@);
        let embed = Embed::new().title(String::from_str("Registered forms")).description(
            join(&lines, "\n"),
        );
        CommandResponse::Public(ResponseType::Embed(embed))
    }
}

/// The forms that were stored before their questions had identifiers:
/// their commands are made anew.
pub fn check_forms(store: &Forms) -> (renewals: Vec<Renewal>)
    requires
        forall|i: int| 0 <= i < store.forms@.len() ==> store.forms@[i].form.questions@.len() > 0,
    ensures
        Seq::new(renewals@.len(), |i: int| renewal_view(renewals@[i])) == store.forms@.filter(
            |form: FormCommand| lacks_question_ids(form),
        ).map_values(|form: FormCommand| renewal_of(form)),
{
    let ghost lacking = |form: FormCommand| lacks_question_ids(form);
    let ghost kept = |form: FormCommand| renewal_of(form);
    let mut renewals: Vec<Renewal> = Vec::new();
    let mut i: usize = 0;
    proof {
        reveal_with_fuel(Seq::filter, 1);
        assert(store.forms@.take(0) =~= Seq::empty());
        assert(Seq::new(renewals@.len(), |i: int| renewal_view(renewals@[i]))
            =~= store.forms@.take(0).filter(lacking).map_values(kept));
    }
    while i < store.forms.len()
        invariant
            i <= store.forms.len(),
            forall|i: int|
                0 <= i < store.forms@.len() ==> store.forms@[i].form.questions@.len() > 0,
            lacking == |form: FormCommand| lacks_question_ids(form),
            kept == |form: FormCommand| renewal_of(form),
            Seq::new(renewals@.len(), |i: int| renewal_view(renewals@[i]))
                == store.forms@.take(i as int).filter(lacking).map_values(kept),
        decreases store.forms.len() - i,
    {
        let form = &store.forms[i];
        let ghost before = Seq::new(renewals@.len(), |i: int| renewal_view(renewals@[i]));
        proof {
            assert(store.forms@.take(i + 1) =~= store.forms@.take(i as int).push(*form));
            store.forms@.take(i as int).lemma_filter_push(*form, lacking);
        }
        if form.form.questions[0].id.as_str().unicode_len() == 0 {
            renewals.push(
                Renewal {
                    guild_id: form.guild_id,
                    command_name: form.command_name.clone(),
                    form_id: form.form.id.clone(),
                    submission_type: form.submission_type.clone(),
                },
            );
            assert(Seq::new(renewals@.len(), |i: int| renewal_view(renewals@[i]))
                =~= before.push(renewal_of(*form)));
            assert(store.forms@.take(i as int).filter(lacking).push(*form).map_values(kept)
                =~= store.forms@.take(i as int).filter(lacking).map_values(kept).push(
                renewal_of(*form),
            ));
        }
        i = i + 1;
    }
    assert(store.forms@.take(store.forms.len() as int) =~= store.forms@);
    renewals
}

/// Why the submissions of a member cannot be shown.
#[derive(Debug, PartialEq, Eq, Clone, Copy)]
pub enum SubmissionsError {
    /// The form has no sheet that collects the answers.
    NoLinkedSheet,
    /// The sheet holds no values.
    NoSubmissions,
}

impl SubmissionsError {
    /// What the member is told.
    pub open spec fn text(self) -> Seq<char> {
        match self {
            SubmissionsError::NoLinkedSheet => "No linked spreadsheet, cannot check submissions"@,
            SubmissionsError::NoSubmissions => "No submissions found on this sheet"@,
        }
    }

    /// What the member is told.
    pub fn message(&self) -> (text: String)
        ensures
            text@ == self.text(),
    {
        match self {
            SubmissionsError::NoLinkedSheet => String::from_str(
                "No linked spreadsheet, cannot check submissions",
            ),
            SubmissionsError::NoSubmissions => String::from_str(
                "No submissions found on this sheet",
            ),
        }
    }
}

/// How many of a member's submissions are shown at most.
pub const SHOWN_SUBMISSIONS: usize = 5;

/// Whether a row of the sheet was submitted by the member whose name in
/// lower case is `user_lower`: its first cell, without `@` in front and in
/// lower case, begins with that name.
pub open spec fn submitted_by(row: Vec<String>, user_lower: Seq<char>) -> bool {
    row@.len() > 0 && has_prefix(lowercase_of(without_leading(row@[0]@, "@"@)), user_lower)
}

/// Whether a cell is shown in the summary of a row: it holds something and
/// is no address.
pub open spec fn is_shown_cell(cell: String) -> bool {
    cell@.len() > 0 && !has_prefix(cell@, "https://"@)
}

/// The summary of a row: its cells after the first, without the empty ones
/// and the addresses, with dashes between them.
pub open spec fn row_summary(row: Vec<String>) -> Seq<char> {
    let cells = if row@.len() == 0 {
        row@
    } else {
        row@.subrange(1, row@.len() as int)
    };
    joined(texts(cells.filter(|cell: String| is_shown_cell(cell))), " - "@)
}

/// The last `n` entries of `s`, or all of `s` where it has fewer.
pub open spec fn last_entries<T>(s: Seq<T>, n: nat) -> Seq<T> {
    if s.len() <= n {
        s
    } else {
        s.subrange(s.len() - n, s.len() as int)
    }
}

/// The summaries of the latest submissions of a member, one to a line, the
/// latest last.
pub open spec fn submissions_text(rows: Seq<Vec<String>>, user_name: Seq<char>) -> Seq<char> {
    joined(
        last_entries(
            rows.filter(|row: Vec<String>| submitted_by(row, lowercase_of(user_name))),
            SHOWN_SUBMISSIONS as nat,
        ).map_values(|row: Vec<String>| row_summary(row)),
        "\n"@,
    )
}

/// What a member is told of their submissions to the form called `title`.
pub open spec fn submissions_answer(rows: Seq<Vec<String>>, user_name: Seq<char>, title: Seq<char>)
    -> Seq<char> {
    if submissions_text(rows, user_name).len() == 0 {
        "No submissions from user "@ + user_name + " to form "@ + title
    } else {
        submissions_text(rows, user_name)
    }
}

fn row_is_from(row: &Vec<String>, user_lower: &str) -> (from: bool)
    ensures
        from == submitted_by(*row, user_lower@),
{
    if row.len() == 0 {
        return false;
    }
    let name = strip_both(row[0].as_str(), "@", "");
    proof {
        assert(crate::text::trailing_run(without_leading(row@[0]@, "@"@), ""@) == 0) by {
            reveal_strlit("");
        }
        assert(name@ =~= without_leading(row@[0]@, "@"@));
    }
    let lower = to_lowercase(name);
    starts_with(lower.as_str(), user_lower)
}

fn summarize_row(row: &Vec<String>) -> (out: String)
    ensures
        out@ == row_summary(*row),
{
    let ghost shown = |cell: String| is_shown_cell(cell);
    let mut cells: Vec<String> = Vec::new();
    if row.len() == 0 {
        proof {
            reveal_with_fuel(Seq::filter, 1);
            assert(row@.filter(shown) =~= Seq::empty());
            assert(texts(cells@) =~= texts(row@.filter(shown)));
        }
        return join(&cells, " - ");
    }
    let ghost rest = row@.subrange(1, row@.len() as int);
    let mut i: usize = 1;
    proof {
        reveal_with_fuel(Seq::filter, 1);
        assert(rest.take(0) =~= Seq::empty());
        assert(texts(cells@) =~= texts(rest.take(0).filter(shown)));
    }
    while i < row.len()
        invariant
            1 <= i <= row.len(),
            rest == row@.subrange(1, row@.len() as int),
            shown == |cell: String| is_shown_cell(cell),
            texts(cells@) == texts(rest.take(i - 1).filter(shown)),
        decreases row.len() - i,
    {
        let ghost before = texts(cells@);
        proof {
            assert(rest.take(i as int) =~= rest.take(i - 1).push(row@[i as int]));
            rest.take(i - 1).lemma_filter_push(row@[i as int], shown);
        }
        let cell = &row[i];
        if cell.as_str().unicode_len() > 0 && !starts_with(cell.as_str(), "https://") {
            cells.push(cell.clone());
            assert(texts(cells@) =~= before.push(cell@));
            assert(texts(rest.take(i - 1).filter(shown).push(row@[i as int])) =~= texts(
                rest.take(i - 1).filter(shown),
            ).push(cell@));
        }
        i = i + 1;
    }
    proof {
        assert(rest.take(row.len() - 1) =~= rest);
    }
    join(&cells, " - ")
}

impl SimpleForm {
    /// The sheet that collects the answers to this form.
    pub fn submissions_sheet(&self) -> (sheet: Result<&str, SubmissionsError>)
        ensures
            match sheet {
                Ok(id) => self.sheet_id is Some && id@ == self.sheet_id->0@,
                Err(error) => self.sheet_id is None && error == SubmissionsError::NoLinkedSheet,
            },
    {
        match &self.sheet_id {
            Some(id) => Ok(id.as_str()),
            None => Err(SubmissionsError::NoLinkedSheet),
        }
    }

    /// What the member called `user_name` is told of their submissions,
    /// given the values of the sheet that collects the answers.
    pub fn get_submissions_for_user(&self, user_name: &str, values: Option<&Vec<Vec<String>>>) -> (out:
        Result<CommandResponse, SubmissionsError>)
        ensures
            match out {
                Ok(response) => values matches Some(rows) && response@
                    == CommandResponseView::Private(
                    ResponseTypeView::Text(submissions_answer(rows@, user_name@, self.title@)),
                ),
                Err(error) => values is None && error == SubmissionsError::NoSubmissions,
            },
    {
        let rows = match values {
            Some(rows) => rows,
            None => {
                return Err(SubmissionsError::NoSubmissions);
            },
        };
        let user_lower = to_lowercase(user_name);
        let ghost from = |row: Vec<String>| submitted_by(row, lowercase_of(user_name@));
        let ghost summary = |row: Vec<String>| row_summary(row);
        let mut found: Vec<&Vec<String>> = Vec::new();
        let mut i: usize = 0;
        proof {
            reveal_with_fuel(Seq::filter, 1);
            assert(rows@.take(0) =~= Seq::empty());
            assert(Seq::new(found@.len(), |k: int| *found@[k]) =~= rows@.take(0).filter(from));
        }
        while i < rows.len()
            invariant
                i <= rows.len(),
                user_lower@ == lowercase_of(user_name@),
                from == |row: Vec<String>| submitted_by(row, lowercase_of(user_name@)),
                Seq::new(found@.len(), |k: int| *found@[k]) == rows@.take(i as int).filter(from),
            decreases rows.len() - i,
        {
            let ghost before = Seq::new(found@.len(), |k: int| *found@[k]);
            proof {
                assert(rows@.take(i + 1) =~= rows@.take(i as int).push(rows@[i as int]));
                rows@.take(i as int).lemma_filter_push(rows@[i as int], from);
            }
            if row_is_from(&rows[i], user_lower.as_str()) {
                found.push(&rows[i]);
                assert(Seq::new(found@.len(), |k: int| *found@[k]) =~= before.push(
                    rows@[i as int],
                ));
            }
            i = i + 1;
        }
        proof {
            assert(rows@.take(rows.len() as int) =~= rows@);
        }
        let ghost matching = rows@.filter(from);
        let start: usize = if found.len() <= SHOWN_SUBMISSIONS {
            0
        } else {
            found.len() - SHOWN_SUBMISSIONS
        };
        let ghost latest = last_entries(matching, SHOWN_SUBMISSIONS as nat);
        let mut lines: Vec<String> = Vec::new();
        let mut k: usize = start;
        proof {
            assert(latest =~= matching.subrange(start as int, matching.len() as int));
            assert(texts(lines@) =~= latest.take(0).map_values(summary));
        }
        while k < found.len()
            invariant
                start <= k <= found.len(),
                summary == |row: Vec<String>| row_summary(row),
                matching == Seq::new(found@.len(), |k: int| *found@[k]),
                latest == matching.subrange(start as int, matching.len() as int),
                texts(lines@) == latest.take(k - start).map_values(summary),
            decreases found.len() - k,
        {
            let ghost before = texts(lines@);
            let line = summarize_row(found[k]);
            lines.push(line);
            proof {
                assert(texts(lines@) =~= before.push(row_summary(*found@[k as int])));
                assert(latest.take(k - start + 1).map_values(summary) =~= latest.take(
                    k - start,
                ).map_values(summary).push(row_summary(matching[k as int])));
            }
            k = k + 1;
        }
        proof {
            assert(latest.take(latest.len() as int) =~= latest);
        }
        let mut text = join(&lines, "\n");
        if text.as_str().unicode_len() == 0 {
            text = String::from_str("No submissions from user ");
            text.append(user_name);
            text.append(" to form ");
            text.append(self.title.as_str());
        }
        Ok(CommandResponse::Private(ResponseType::Text(text)))
    }
}

/// Creates a submission command from a form.
#[derive(Debug)]
pub struct CommandFromForm {
    /// The name of the command.
    pub command_name: String,
    /// The identifier of the form, or the address at which it is edited.
    pub form_id: String,
    /// Whether members submit songs or albums.
    pub submission_type: Option<String>,
}

/// What members submit where nothing is said: songs.
pub open spec fn submission_type_of(given: Option<String>) -> Seq<char> {
    match given {
        Some(kind) => kind@,
        None => "song"@,
    }
}

impl CommandFromForm {
    /// Takes the identifier out of `found`, the result of searching the
    /// given text for the address of a form; keeps the text as given where
    /// there is none.
    pub fn set_form_id(&mut self, found: Option<&str>)
        ensures
            final(self).command_name == old(self).command_name,
            final(self).submission_type == old(self).submission_type,
            final(self).form_id@ == spreadsheet_id_in(old(self).form_id@, text_of(found)),
    {
        match found {
            Some(id) => {
                self.form_id = String::from_str(id);
            },
            None => {},
        }
    }

    /// Where the form was given by its address, keeps the identifier alone.
    pub fn normalize(&mut self)
        ensures
            final(self).command_name == old(self).command_name,
            final(self).submission_type == old(self).submission_type,
            final(self).form_id@ == spreadsheet_id_in(
                old(self).form_id@,
                regex_group(FORM_URL_RE@, old(self).form_id@, 1),
            ),
    {
        let given = self.form_id.clone();
        let found = regex_capture(FORM_URL_RE, given.as_str(), 1);
        self.set_form_id(found);
    }

    /// What members submit: songs where nothing is said.
    pub fn submission_type(&self) -> (kind: String)
        ensures
            kind@ == submission_type_of(self.submission_type),
    {
        match &self.submission_type {
            Some(kind) => kind.clone(),
            None => String::from_str("song"),
        }
    }

    /// The kinds of submission that the command offers.
    pub fn setup_options() -> (choices: Vec<String>)
        ensures
            texts(choices@) == seq!["song"@, "album"@],
    {
        let mut choices: Vec<String> = Vec::new();
        choices.push(String::from_str("song"));
        choices.push(String::from_str("album"));
        assert(texts(choices@) =~= seq!["song"@, "album"@]);
        choices
    }

    /// Records the command that the chat made of `form` under the name
    /// `created_name` and the identifier `command_id`, and answers.
    pub fn add_form(
        &self,
        store: &mut Forms,
        guild_id: u64,
        created_name: &str,
        command_id: u64,
        form: SimpleForm,
    ) -> (response: CommandResponse)
        ensures
            response@ == CommandResponseView::Public(
                ResponseTypeView::Text(
                    "Created command "@ + command_mention(created_name@, command_id),
                ),
            ),
            final(store).forms@.len() == (match first_form(
                old(store).forms@,
                None,
                self.command_name@,
            ) {
                Some(_) => old(store).forms@.len(),
                None => old(store).forms@.len() + 1,
            }),
            ({
                let at = match first_form(old(store).forms@, None, self.command_name@) {
                    Some(at) => at,
                    None => old(store).forms@.len() as int,
                };
                let added = final(store).forms@[at];
                &&& added.guild_id == guild_id
                &&& added.command_name@ == created_name@
                &&& added.command_id == command_id
                &&& added.form == form
                &&& added.submission_type@ == submission_type_of(self.submission_type)
                &&& added.submissions_range is None
                &&& forall|j: int|
                    0 <= j < old(store).forms@.len() && j != at ==> final(store).forms@[j] == old(
                        store,
                    ).forms@[j]
            }),
    {
        let command = FormCommand {
            guild_id,
            command_name: String::from_str(created_name),
            command_id,
            form,
            submission_type: self.submission_type(),
            submissions_range: None,
        };
        proof {
            lemma_first_form_in_range(store.forms@, None, self.command_name@);
        }
        store.add(self.command_name.as_str(), command);
        let mut text = String::from_str("Created command ");
        text.append(mention_command(created_name, command_id).as_str());
        CommandResponse::Public(ResponseType::Text(text))
    }
}

/// The position that `first_form` gives lies in the list.
pub proof fn lemma_first_form_in_range(forms: Seq<FormCommand>, guild: Option<u64>, name: Seq<char>)
    ensures
        first_form(forms, guild, name) matches Some(at) ==> 0 <= at < forms.len() && form_matches(
            forms[at],
            guild,
            name,
        ),
{
    if exists|i: int| 0 <= i < forms.len() && form_matches(forms[i], guild, name) {
        let w = choose|i: int| 0 <= i < forms.len() && form_matches(forms[i], guild, name);
        lemma_least_match(forms, guild, name, w);
    }
}

proof fn lemma_least_match(forms: Seq<FormCommand>, guild: Option<u64>, name: Seq<char>, w: int)
    requires
        0 <= w < forms.len(),
        form_matches(forms[w], guild, name),
    ensures
        exists|i: int|
            0 <= i < forms.len() && form_matches(forms[i], guild, name) && forall|j: int|
                0 <= j < i ==> !form_matches(forms[j], guild, name),
    decreases w,
{
    if exists|k: int| 0 <= k < w && form_matches(forms[k], guild, name) {
        let k = choose|k: int| 0 <= k < w && form_matches(forms[k], guild, name);
        lemma_least_match(forms, guild, name, k);
    } else {
        assert(0 <= w < forms.len() && form_matches(forms[w], guild, name) && forall|j: int|
            0 <= j < w ==> !form_matches(forms[j], guild, name));
    }
}

/// Makes the command of a form anew.
#[derive(Debug)]
pub struct RefreshFormCommand {
    /// The name of the command to refresh.
    pub command_name: String,
}

impl RefreshFormCommand {
    /// The creation that makes the command anew, from the identifier and
    /// the kind of submission that were stored with the form.
    pub fn renewal(self, form_id: String, submission_type: Option<String>) -> (creation:
        CommandFromForm)
        ensures
            creation.command_name == self.command_name,
            creation.form_id == form_id,
            creation.submission_type == submission_type,
    {
        CommandFromForm { command_name: self.command_name, form_id, submission_type }
    }

    /// What is said where no form is stored under the command's name.
    pub fn not_found(&self) -> (text: String)
        ensures
            text@ == "Command /"@ + self.command_name@ + " not found"@,
    {
        let mut text = String::from_str("Command /");
        text.append(self.command_name.as_str());
        text.append(" not found");
        text
    }
}

/// Deletes the command of a form.
#[derive(Debug)]
pub struct DeleteFormCommand {
    /// The name of the command to delete.
    pub command_name: String,
}

impl DeleteFormCommand {
    /// Drops the forms of that command from the store, and answers.
    pub fn run(&self, store: &mut Forms) -> (response: CommandResponse)
        ensures
            final(store).forms@ == old(store).forms@.filter(
                |form: FormCommand| form.command_name@ != self.command_name@,
            ),
            response@ == CommandResponseView::Public(
                ResponseTypeView::Text("Deleted command "@ + self.command_name@),
            ),
    {
        store.remove(self.command_name.as_str());
        let mut text = String::from_str("Deleted command ");
        text.append(self.command_name.as_str());
        CommandResponse::Public(ResponseType::Text(text))
    }
}

/// Lists the forms and their commands.
#[derive(Debug)]
pub struct ListForms {}

impl ListForms {
    /// The embed that lists the forms of guild `guild`.
    pub fn run(&self, store: &Forms, guild: u64) -> (response: CommandResponse)
        ensures
            response@ == CommandResponseView::Public(
                ResponseTypeView::Embed(
                    EmbedView {
                        title: Some("Registered forms"@),
                        description: Some(joined(form_lines(store.forms@, guild), "\n"@)),
                        fields: Seq::empty(),
                    },
                ),
            ),
    {
        store.list(guild)
    }
}

/// Says where the submissions to a form are found, for forms whose answers
/// do not go to the first tab of the sheet.
#[derive(Debug)]
pub struct OverrideSubmissionsRange {
    /// The name of the command.
    pub command_name: String,
    /// The range that holds the answers.
    pub range: Option<String>,
}

/// The range in which submissions are looked for.
pub open spec fn range_in_use(range: Option<String>) -> Seq<char> {
    match range {
        Some(range) => range@,
        None => DEFAULT_RANGE@,
    }
}

impl OverrideSubmissionsRange {
    /// Sets the range for the command's form in guild `guild_id`, and
    /// answers. Nothing changes where the guild has no such command.
    pub fn run(&self, store: &mut Forms, guild_id: u64) -> (out: Result<
        CommandResponse,
        CommandNotFound,
    >)
        ensures
            out is Ok <==> first_form(old(store).forms@, Some(guild_id), self.command_name@)
                is Some,
            out matches Ok(response) ==> {
                &&& first_form(old(store).forms@, Some(guild_id), self.command_name@) matches Some(
                    at,
                )
                &&& final(store).forms@.len() == old(store).forms@.len()
                &&& final(store).forms@[at] == (FormCommand {
                    submissions_range: self.range,
                    ..old(store).forms@[at]
                })
                &&& forall|j: int|
                    0 <= j < old(store).forms@.len() && j != at ==> final(store).forms@[j] == old(
                        store,
                    ).forms@[j]
                &&& response@ == CommandResponseView::Public(
                    ResponseTypeView::Text(
                        "Will search for submissions in `"@ + range_in_use(self.range) + "`"@,
                    ),
                )
            },
            out matches Err(error) ==> final(store).forms@ == old(store).forms@
                && error.command_name@ == self.command_name@,
    {
        let range = match &self.range {
            Some(range) => Some(range.clone()),
            None => None,
        };
        match store.override_range(guild_id, self.command_name.as_str(), range) {
            Err(error) => Err(error),
            Ok(()) => {
                let mut text = String::from_str("Will search for submissions in `");
                match &self.range {
                    Some(range) => text.append(range.as_str()),
                    None => text.append(DEFAULT_RANGE),
                }
                text.append("`");
                Ok(CommandResponse::Public(ResponseType::Text(text)))
            },
        }
    }
}

/// Shows a member their submissions to a form.
#[derive(Debug)]
pub struct GetSubmissions {
    /// The command used to submit.
    pub command_name: String,
}

impl GetSubmissions {
    /// The form whose submissions are asked for: the first one of that
    /// command name, in whatever guild.
    pub fn target<'a>(&self, store: &'a Forms) -> (found: Result<&'a FormCommand, CommandNotFound>)
        ensures
            match found {
                Ok(form) => first_form(store.forms@, None, self.command_name@) matches Some(at)
                    && *form == store.forms@[at],
                Err(error) => first_form(store.forms@, None, self.command_name@) is None
                    && error.command_name@ == self.command_name@,
            },
    {
        match store.find(None, self.command_name.as_str()) {
            Some(at) => Ok(&store.forms[at]),
            None => Err(CommandNotFound { command_name: self.command_name.clone() }),
        }
    }
}

impl Forms {
    /// The form that a command of guild `guild_id` called `name` answers.
    pub fn process_form_command(&self, guild_id: u64, name: &str) -> (found: Option<&FormCommand>)
        ensures
            match found {
                Some(form) => first_form(self.forms@, Some(guild_id), name@) matches Some(at)
                    && *form == self.forms@[at],
                None => first_form(self.forms@, Some(guild_id), name@) is None,
            },
    {
        match self.find(Some(guild_id), name) {
            Some(at) => Some(&self.forms[at]),
            None => None,
        }
    }
}

} // verus!
