use humble_ledger::command::{
    CommandDataOption, CommandDataOptionValue, CommandResponse, ResponseType,
};
use humble_ledger::complete::{
    autocomplete_link, choice_label, get_now_playing, process_autocomplete, Completion,
    CompletionType, LinkCompletion,
};
use humble_ledger::forms::{
    check_forms, title_asks_for_link, ChoiceOption, ChoiceQuestion, ChoiceType, CommandFromForm,
    DeleteFormCommand, Form, FormCommand, FormError, Forms, GetSubmissions, Info, Item, ListForms,
    OverrideSubmissionsRange, Question, QuestionItem, QuestionType, RefreshFormCommand,
    SimpleForm, SimpleQuestion, SubmissionsError, TextQuestion,
};
use humble_ledger::submit::{Submit, SubmitError, SubmitStep};

fn question(id: &str, required: bool) -> Question {
    Question {
        id: id.to_string(),
        required,
        choice: None,
        text: None,
        scale: None,
        date: None,
        time: None,
        file_upload: None,
        row: None,
    }
}

fn text_question(id: &str, required: bool) -> Question {
    Question { text: Some(TextQuestion {}), ..question(id, required) }
}

fn choice_question(id: &str, ty: ChoiceType, options: &[(&str, bool)]) -> Question {
    Question {
        choice: Some(ChoiceQuestion {
            ty,
            options: options
                .iter()
                .map(|(v, o)| ChoiceOption { value: v.to_string(), is_other: *o })
                .collect(),
        }),
        ..question(id, false)
    }
}

fn item(title: Option<&str>, q: Option<Question>) -> Item {
    Item {
        id: "i".to_string(),
        title: title.map(|t| t.to_string()),
        description: None,
        question: q.map(|question| QuestionItem { question }),
        question_group: None,
        page_break: None,
        text: None,
        image: None,
        video: None,
    }
}

fn form(title: Option<&str>, items: Vec<Item>) -> Form {
    Form {
        id: "form1".to_string(),
        info: Info { title: title.map(|t| t.to_string()), description: None },
        items,
        uri: "https://docs.google.com/forms/d/e/RESP/viewform".to_string(),
        linked_sheet_id: Some("sheet".to_string()),
    }
}

fn kind(q: &SimpleQuestion) -> Option<Vec<String>> {
    match &q.ty {
        QuestionType::Text => None,
        QuestionType::Choice(values) => Some(values.clone()),
    }
}

#[test]
fn items_become_simple_questions() {
    assert!(item(Some("Note"), None).to_simple().is_none());
    let asked = item(Some("Song"), Some(text_question("1a", true))).to_simple().unwrap().unwrap();
    assert_eq!((asked.id.as_str(), asked.required, asked.title.as_str()), ("1a", true, "Song"));
    assert_eq!(kind(&asked), None);
    let chosen = item(
        Some("Genre"),
        Some(choice_question("2b", ChoiceType::DropDown, &[("Rock", false), ("Jazz", false)])),
    )
    .to_simple()
    .unwrap()
    .unwrap();
    assert_eq!(kind(&chosen), Some(vec!["Rock".to_string(), "Jazz".to_string()]));
    assert!(!chosen.required);
    let fault = |i: Item| i.to_simple().unwrap().unwrap_err();
    assert_eq!(fault(item(None, Some(text_question("1", true)))), FormError::MissingQuestionTitle);
    assert_eq!(
        fault(item(None, Some(choice_question("1", ChoiceType::Checkbox, &[])))),
        FormError::MissingQuestionTitle
    );
    assert_eq!(
        fault(item(Some("t"), Some(choice_question("1", ChoiceType::Checkbox, &[("a", true)])))),
        FormError::CheckboxQuestion
    );
    assert_eq!(
        fault(item(Some("t"), Some(choice_question("1", ChoiceType::Radio, &[("a", false), ("", true)])))),
        FormError::OtherOption
    );
    assert_eq!(fault(item(Some("t"), Some(question("1", false)))), FormError::UnsupportedQuestion);
    assert_eq!(FormError::MissingQuestionTitle.message(), "Question is missing a title");
    assert_eq!(FormError::CheckboxQuestion.message(), "Checkboxes are not supported");
    assert_eq!(FormError::OtherOption.message(), "'Other' field is not supported");
    assert_eq!(FormError::UnsupportedQuestion.message(), "Can only handle text or choice questions");
    assert_eq!(FormError::MissingFormTitle.message(), "Form is missing a title");
}

#[test]
fn forms_become_simple_forms() {
    let simple = form(
        Some("Weekly"),
        vec![
            item(Some("Who"), Some(text_question("1", true))),
            item(Some("Intro"), None),
            item(Some("Song"), Some(text_question("2", false))),
        ],
    )
    .to_simple()
    .unwrap();
    assert_eq!(simple.id, "form1");
    assert_eq!(simple.title, "Weekly");
    assert_eq!(simple.responder_uri, "https://docs.google.com/forms/d/e/RESP/viewform");
    assert_eq!(simple.sheet_id.as_deref(), Some("sheet"));
    let titles: Vec<&str> = simple.questions.iter().map(|q| q.title.as_str()).collect();
    assert_eq!(titles, vec!["Who", "Song"]);
    assert_eq!(form(None, vec![]).to_simple().unwrap_err(), FormError::MissingFormTitle);
    assert_eq!(
        form(None, vec![item(None, Some(text_question("1", true)))]).to_simple().unwrap_err(),
        FormError::MissingFormTitle
    );
    assert_eq!(
        form(
            Some("t"),
            vec![
                item(Some("ok"), Some(text_question("1", true))),
                item(Some("bad"), Some(question("2", true))),
                item(None, Some(text_question("3", true))),
            ]
        )
        .to_simple()
        .unwrap_err(),
        FormError::UnsupportedQuestion
    );
    assert!(form(Some("t"), vec![]).to_simple().unwrap().questions.is_empty());
}

fn simple_question(id: &str, title: &str, required: bool, choices: Option<&[&str]>) -> SimpleQuestion {
    SimpleQuestion {
        id: id.to_string(),
        required,
        title: title.to_string(),
        ty: match choices {
            None => QuestionType::Text,
            Some(values) => QuestionType::Choice(values.iter().map(|v| v.to_string()).collect()),
        },
    }
}

fn simple_form(questions: Vec<SimpleQuestion>) -> SimpleForm {
    SimpleForm {
        id: "form1".to_string(),
        title: "Weekly".to_string(),
        questions,
        responder_uri: "https://docs.google.com/forms/d/e/RESP/viewform".to_string(),
        sheet_id: Some("sheet".to_string()),
    }
}

#[test]
fn form_becomes_a_command() {
    let simple = simple_form(vec![
        simple_question("1a", "Discord username", true, None),
        simple_question("4d", "Comment", false, None),
        simple_question("2b", "Song name", true, None),
        simple_question("5e", "Genre", false, Some(&["Rock", "Jazz"])),
        simple_question("3c", "Spotify LINK", true, None),
    ]);
    let command = simple.to_command("Weekly Pick!");
    assert_eq!(command.name, "weekly_pick");
    assert_eq!(command.description, "Weekly");
    let options: Vec<(String, String, bool, bool, Vec<String>)> = command
        .options
        .iter()
        .map(|o| (o.name.clone(), o.description.clone(), o.required, o.autocomplete, o.choices.clone()))
        .collect();
    assert_eq!(
        options,
        vec![
            ("spotify_link".to_string(), "Spotify LINK".to_string(), true, true, vec![]),
            ("comment".to_string(), "Comment".to_string(), false, false, vec![]),
            (
                "genre".to_string(),
                "Genre".to_string(),
                false,
                false,
                vec!["Rock".to_string(), "Jazz".to_string()]
            ),
        ]
    );
    assert!(simple_form(vec![]).to_command("x").options.is_empty());
    assert!(simple_form(vec![simple_question("1", "Only", true, None)])
        .to_command("x")
        .options
        .is_empty());
    let choice_before_link = simple_form(vec![
        simple_question("1", "Who", true, None),
        simple_question("2", "Kind", true, Some(&["a"])),
        simple_question("3", "Link", true, None),
    ])
    .to_command("x");
    assert_eq!(choice_before_link.options.len(), 2);
    assert!(!choice_before_link.options[1].autocomplete);
}

#[test]
fn link_titles_are_told_in_any_case() {
    assert!(title_asks_for_link("SPOTIFY url"));
    assert!(title_asks_for_link("Song Link"));
    assert!(!title_asks_for_link("Song name"));
}

#[test]
fn answers_go_to_the_responder() {
    let simple = simple_form(vec![]);
    assert_eq!(simple.responder_id(), "RESP");
    assert_eq!(
        simple.form_response_url(),
        "https://docs.google.com/forms/u/0/d/e/RESP/formResponse"
    );
    let odd = SimpleForm {
        responder_uri: "https://docs.google.com/forms/d/e/https://docs.google.com/forms/d/e/X/viewform/viewform".to_string(),
        ..simple_form(vec![])
    };
    assert_eq!(odd.responder_id(), "X");
    let bare = SimpleForm { responder_uri: "other".to_string(), ..simple_form(vec![]) };
    assert_eq!(bare.responder_id(), "other");
}

fn text_of(response: CommandResponse) -> (bool, String) {
    match response {
        CommandResponse::Public(ResponseType::Text(t)) => (true, t),
        CommandResponse::Private(ResponseType::Text(t)) => (false, t),
        other => panic!("unexpected {:?}", other),
    }
}

fn row(cells: &[&str]) -> Vec<String> {
    cells.iter().map(|c| c.to_string()).collect()
}

#[test]
fn member_sees_their_latest_submissions() {
    let simple = simple_form(vec![]);
    assert_eq!(simple.submissions_sheet(), Ok("sheet"));
    let unlinked = SimpleForm { sheet_id: None, ..simple_form(vec![]) };
    assert_eq!(unlinked.submissions_sheet(), Err(SubmissionsError::NoLinkedSheet));
    assert_eq!(
        SubmissionsError::NoLinkedSheet.message(),
        "No linked spreadsheet, cannot check submissions"
    );
    assert_eq!(
        simple.get_submissions_for_user("Bob", None).unwrap_err(),
        SubmissionsError::NoSubmissions
    );
    assert_eq!(SubmissionsError::NoSubmissions.message(), "No submissions found on this sheet");

    let rows = vec![
        row(&["@Bob#0001", "A - One", "https://x/1", "", "note"]),
        row(&["alice", "B - Two"]),
        row(&[]),
        row(&["BOBBY", "C - Three"]),
        row(&["@@bob", ""]),
        row(&["bob", "D", "E"]),
        row(&["bob", "F"]),
        row(&["bo", "never"]),
        row(&["bob", "G"]),
        row(&["bob", "H"]),
    ];
    assert_eq!(
        text_of(simple.get_submissions_for_user("Bob", Some(&rows)).unwrap()),
        (false, "\nD - E\nF\nG\nH".to_string())
    );
    assert_eq!(
        text_of(simple.get_submissions_for_user("alice", Some(&rows)).unwrap()),
        (false, "B - Two".to_string())
    );
    assert_eq!(
        text_of(simple.get_submissions_for_user("Carol", Some(&rows)).unwrap()),
        (false, "No submissions from user Carol to form Weekly".to_string())
    );
    assert_eq!(
        text_of(simple.get_submissions_for_user("x", Some(&vec![])).unwrap()),
        (false, "No submissions from user x to form Weekly".to_string())
    );
}

fn form_command(guild_id: u64, name: &str, id: u64, first_question_id: &str) -> FormCommand {
    FormCommand {
        guild_id,
        command_name: name.to_string(),
        command_id: id,
        form: SimpleForm {
            id: format!("form-{}", name),
            ..simple_form(vec![simple_question(first_question_id, "Who", true, None)])
        },
        submission_type: "song".to_string(),
        submissions_range: None,
    }
}

fn names(store: &Forms) -> Vec<(u64, String, u64)> {
    store.forms.iter().map(|f| (f.guild_id, f.command_name.clone(), f.command_id)).collect()
}

#[test]
fn forms_are_kept_by_command_name() {
    let mut store = Forms::new();
    store.add("a", form_command(1, "a", 10, "x"));
    store.add("b", form_command(1, "b", 11, ""));
    store.add("a", form_command(2, "a", 12, "x"));
    assert_eq!(names(&store), vec![(2, "a".to_string(), 12), (1, "b".to_string(), 11)]);
    store.add("c", form_command(2, "b", 13, ""));
    assert_eq!(store.find(None, "b"), Some(1));
    assert_eq!(store.find(Some(2), "b"), Some(2));
    assert_eq!(store.find(Some(3), "b"), None);
    assert_eq!(store.process_form_command(2, "b").map(|f| f.command_id), Some(13));
    assert!(store.process_form_command(1, "a").is_none());
    let renewals: Vec<(u64, String, String, String)> = check_forms(&store)
        .into_iter()
        .map(|r| (r.guild_id, r.command_name, r.form_id, r.submission_type))
        .collect();
    assert_eq!(
        renewals,
        vec![
            (1, "b".to_string(), "form-b".to_string(), "song".to_string()),
            (2, "b".to_string(), "form-b".to_string(), "song".to_string()),
        ]
    );
    match (ListForms {}).run(&store, 2) {
        CommandResponse::Public(ResponseType::Embed(embed)) => {
            assert_eq!(embed.title.as_deref(), Some("Registered forms"));
            assert_eq!(
                embed.description.as_deref(),
                Some(
                    "**· [Weekly](https://docs.google.com/forms/d/e/RESP/viewform):** </a:12>\n\
                     **· [Weekly](https://docs.google.com/forms/d/e/RESP/viewform):** </b:13>"
                )
            );
        }
        other => panic!("unexpected {:?}", other),
    }
    let deleted = DeleteFormCommand { command_name: "b".to_string() }.run(&mut store);
    assert_eq!(text_of(deleted), (true, "Deleted command b".to_string()));
    assert_eq!(names(&store), vec![(2, "a".to_string(), 12)]);
}

#[test]
fn range_of_submissions_is_set_for_one_form() {
    let mut store = Forms::new();
    store.add("a", form_command(1, "a", 10, "x"));
    store.add("b", form_command(2, "b", 11, "x"));
    let set = OverrideSubmissionsRange {
        command_name: "b".to_string(),
        range: Some("\"Tab 2\"!B:F".to_string()),
    };
    assert_eq!(
        text_of(set.run(&mut store, 2).unwrap()),
        (true, "Will search for submissions in `\"Tab 2\"!B:F`".to_string())
    );
    assert_eq!(store.forms[1].submissions_range.as_deref(), Some("\"Tab 2\"!B:F"));
    assert_eq!(store.forms[0].submissions_range, None);
    let error = set.run(&mut store, 1).unwrap_err();
    assert_eq!(error.message(), "Command b not found");
    let reset = OverrideSubmissionsRange { command_name: "b".to_string(), range: None };
    assert_eq!(
        text_of(reset.run(&mut store, 2).unwrap()),
        (true, "Will search for submissions in `B:Z`".to_string())
    );
    assert_eq!(store.forms[1].submissions_range, None);
    let get = GetSubmissions { command_name: "a".to_string() };
    assert_eq!(get.target(&store).unwrap().command_id, 10);
    let missing = GetSubmissions { command_name: "z".to_string() };
    assert_eq!(missing.target(&store).unwrap_err().message(), "Command z not found");
}

#[test]
fn command_is_created_from_a_form() {
    let mut creation = CommandFromForm {
        command_name: "Weekly".to_string(),
        form_id: "https://docs.google.com/forms/d/FORMID/edit".to_string(),
        submission_type: None,
    };
    creation.normalize();
    assert_eq!(creation.form_id, "FORMID");
    assert_eq!(creation.submission_type(), "song");
    assert_eq!(CommandFromForm::setup_options(), vec!["song", "album"]);
    let mut store = Forms::new();
    store.add("Weekly", form_command(1, "Weekly", 3, "x"));
    let response = creation.add_form(&mut store, 1, "weekly", 77, simple_form(vec![]));
    assert_eq!(text_of(response), (true, "Created command </weekly:77>".to_string()));
    assert_eq!(names(&store), vec![(1, "weekly".to_string(), 77)]);
    assert_eq!(store.forms[0].submission_type, "song");
    let albums = CommandFromForm {
        command_name: "Albums".to_string(),
        form_id: "plain".to_string(),
        submission_type: Some("album".to_string()),
    };
    albums.add_form(&mut store, 2, "albums", 78, simple_form(vec![]));
    assert_eq!(store.forms.len(), 2);
    assert_eq!(store.forms[1].submission_type, "album");
    let refresh = RefreshFormCommand { command_name: "weekly".to_string() };
    assert_eq!(refresh.not_found(), "Command /weekly not found");
    let renewed = refresh.renewal("FORMID".to_string(), Some("album".to_string()));
    assert_eq!(
        (renewed.command_name.as_str(), renewed.form_id.as_str(), renewed.submission_type.as_deref()),
        ("weekly", "FORMID", Some("album"))
    );
}

fn given(name: &str, value: &str) -> CommandDataOption {
    CommandDataOption {
        name: name.to_string(),
        value: CommandDataOptionValue::Text(value.to_string()),
    }
}

fn send(step: SubmitStep) -> String {
    match step {
        SubmitStep::Send(body) => body,
        other => panic!("expected Send, got {:?}", other),
    }
}

#[test]
fn song_is_looked_up_and_names_the_question_before() {
    let form = simple_form(vec![
        simple_question("1a", "Discord username", true, None),
        simple_question("2b", "Song name", false, None),
        simple_question("3c", "Spotify link", true, None),
    ]);
    let options = vec![given("spotify_link", "https://open.spotify.com/track/X")];
    let mut state = form.submit("user#1234", "song");
    match state.advance(&form, &options) {
        SubmitStep::FindSong(url) => assert_eq!(url, "https://open.spotify.com/track/X"),
        other => panic!("unexpected {:?}", other),
    }
    assert!(matches!(state.advance(&form, &options), SubmitStep::FindSong(_)));
    state.song_found("Art - Song", "https://open.spotify.com/track/X", 2_700_000).unwrap();
    assert_eq!(
        send(state.advance(&form, &options)),
        "entry.60=https%3A%2F%2Fopen.spotify.com%2Ftrack%2FX&entry.43=Art%20-%20Song&entry.26=user%231234"
    );
    match state.respond(&form) {
        CommandResponse::Private(ResponseType::Text(text)) => assert_eq!(
            text,
            "Submitted [Art - Song](https://open.spotify.com/track/X) to **Weekly**"
        ),
        other => panic!("unexpected {:?}", other),
    }
}

#[test]
fn answers_are_percent_encoded() {
    let form = simple_form(vec![simple_question("ff", "Comment", true, None)]);
    let options = vec![given("comment", "Az09-_.~ é&=+/?%\n")];
    let mut state = Submit::new(&form, "h", "song");
    assert_eq!(
        send(state.advance(&form, &options)),
        "entry.255=Az09-_.~%20%C3%A9%26%3D%2B%2F%3F%25%0A"
    );
    match state.respond(&form) {
        CommandResponse::Private(ResponseType::Text(text)) => {
            assert_eq!(text, "Submitted to **Weekly**")
        }
        other => panic!("unexpected {:?}", other),
    }
}

#[test]
fn song_over_forty_five_minutes_is_turned_down() {
    let form = simple_form(vec![simple_question("1", "Link", true, None)]);
    let options = vec![given("link", "u")];
    let mut state = Submit::new(&form, "h", "song");
    assert!(matches!(state.advance(&form, &options), SubmitStep::FindSong(_)));
    let error = state.song_found("i", "u", 2_700_001).unwrap_err();
    assert!(matches!(error, SubmitError::SongTooLong));
    assert_eq!(error.message(), "This song is too long!");
}

#[test]
fn album_is_looked_up_where_the_form_takes_albums() {
    let form = simple_form(vec![
        simple_question("1", "Album", true, None),
        simple_question("2", "Link", true, None),
        simple_question("3", "Other link", false, None),
        simple_question("4", "Third link", false, None),
    ]);
    let options = vec![
        given("link", "https://a/1"),
        given("other_link", "https://b/2"),
        given("third_link", "https://c/3"),
    ];
    let mut state = Submit::new(&form, "h", "album");
    match state.advance(&form, &options) {
        SubmitStep::FindAlbum(url) => assert_eq!(url, "https://c/3"),
        other => panic!("unexpected {:?}", other),
    }
    state.nothing_found();
    assert!(matches!(state.advance(&form, &options), SubmitStep::FindAlbum(_)));
    state.album_found("B - Two", None);
    assert!(matches!(state.advance(&form, &options), SubmitStep::FindAlbum(_)));
    state.album_found("A - One", Some("https://canon/1"));
    assert_eq!(
        send(state.advance(&form, &options)),
        "entry.4=https%3A%2F%2Fc%2F3&entry.3=&entry.2=https%3A%2F%2Fcanon%2F1&entry.1=A%20-%20One"
    );
    match state.respond(&form) {
        CommandResponse::Private(ResponseType::Text(text)) => {
            assert_eq!(text, "Submitted  to **Weekly**")
        }
        other => panic!("unexpected {:?}", other),
    }
}

#[test]
fn unanswerable_questions_end_the_answer() {
    let required = simple_form(vec![simple_question("1", "Comment", true, None)]);
    let mut state = Submit::new(&required, "h", "song");
    match state.advance(&required, &vec![]) {
        SubmitStep::Fail(error) => {
            assert!(matches!(&error, SubmitError::MissingValue(title) if title == "Comment"));
            assert_eq!(
                error.message(),
                "Cannot submit form response: no value provided for Comment"
            );
        }
        other => panic!("unexpected {:?}", other),
    }
    let numberless = simple_form(vec![simple_question("xyz", "Comment", false, None)]);
    let mut state = Submit::new(&numberless, "h", "song");
    match state.advance(&numberless, &vec![]) {
        SubmitStep::Fail(error) => {
            assert!(matches!(error, SubmitError::InvalidForm));
            assert_eq!(error.message(), "Invalid form definition");
        }
        other => panic!("unexpected {:?}", other),
    }
    let optional = simple_form(vec![
        simple_question("1", "USER", true, None),
        simple_question("2", "Comment", false, None),
        simple_question(
            "3",
            "Genre",
            false,
            Some(&["x"]),
        ),
    ]);
    let options = vec![
        CommandDataOption { name: "genre".to_string(), value: CommandDataOptionValue::Other },
        given("comment", "hi"),
    ];
    let mut state = Submit::new(&optional, "me#0001", "song");
    assert_eq!(send(state.advance(&optional, &options)), "entry.2=hi&entry.1=me%230001");
    let empty = simple_form(vec![]);
    assert_eq!(send(Submit::new(&empty, "h", "song").advance(&empty, &vec![])), "");
}

#[test]
fn completions_are_decided() {
    let mut store = Forms::new();
    store.add("weekly", form_command(1, "weekly", 10, "x"));
    store.add("weekend", form_command(1, "weekend", 11, "x"));
    store.add("weeds", form_command(2, "weeds", 12, "x"));
    let mut albums = form_command(1, "albums", 13, "x");
    albums.submission_type = "album".to_string();
    store.add("albums", albums);
    let typed = |name: &str, value: &str| CommandDataOption {
        name: name.to_string(),
        value: CommandDataOptionValue::Autocomplete(value.to_string()),
    };
    match process_autocomplete(&store, 1, "delete_form_command", &vec![typed("command_name", "wee")]) {
        Completion::Choices(names) => assert_eq!(names, vec!["weekly", "weekend"]),
        other => panic!("unexpected {:?}", other),
    }
    match process_autocomplete(&store, 2, "get_submissions", &vec![]) {
        Completion::Choices(names) => assert_eq!(names, vec!["weeds"]),
        other => panic!("unexpected {:?}", other),
    }
    match process_autocomplete(&store, 1, "refresh_form_command", &vec![typed("command_name", "zzz")]) {
        Completion::Choices(names) => assert!(names.is_empty()),
        other => panic!("unexpected {:?}", other),
    }
    assert!(matches!(process_autocomplete(&store, 2, "weekly", &vec![]), Completion::NotHandled));
    assert!(matches!(process_autocomplete(&store, 1, "weekly", &vec![]), Completion::Nothing));
    assert!(matches!(
        process_autocomplete(&store, 1, "weekly", &vec![typed("comment", "comment")]),
        Completion::Nothing
    ));
    assert!(matches!(
        process_autocomplete(&store, 1, "weekly", &vec![typed("spotify_link", "abc")]),
        Completion::Nothing
    ));
    match process_autocomplete(&store, 1, "weekly", &vec![typed("link", "link")]) {
        Completion::Link { value, ty } => {
            assert_eq!(value, "link");
            assert_eq!(ty, CompletionType::Songs);
        }
        other => panic!("unexpected {:?}", other),
    }
    match process_autocomplete(
        &store,
        1,
        "albums",
        &vec![given("spotify", "radiohead"), typed("x", "spotify")],
    ) {
        Completion::Link { value, ty } => {
            assert_eq!(value, "radiohead");
            assert_eq!(ty, CompletionType::Albums);
        }
        other => panic!("unexpected {:?}", other),
    }
}

#[test]
fn links_are_completed_from_what_plays_or_from_a_search() {
    assert_eq!(autocomplete_link("", CompletionType::Songs), LinkCompletion::NowPlaying);
    assert_eq!(autocomplete_link("", CompletionType::Albums), LinkCompletion::Nothing);
    assert_eq!(autocomplete_link("abcd", CompletionType::Songs), LinkCompletion::Nothing);
    assert_eq!(
        autocomplete_link("abcde", CompletionType::Songs),
        LinkCompletion::Query(CompletionType::Songs)
    );
    assert_eq!(
        autocomplete_link("éé_", CompletionType::Albums),
        LinkCompletion::Query(CompletionType::Albums)
    );
    assert_eq!(autocomplete_link("https://x", CompletionType::Songs), LinkCompletion::Nothing);
    assert_eq!(autocomplete_link("http://x", CompletionType::Albums), LinkCompletion::Nothing);
    assert_eq!(
        get_now_playing(&vec!["A".to_string(), "B".to_string()], "Song", "4y4VO05kYgUTo2bzbox1an"),
        ("A, B - Song".to_string(), "https://open.spotify.com/track/4y4VO05kYgUTo2bzbox1an".to_string())
    );
}

#[test]
fn names_of_choices_are_cut_at_a_hundred_bytes() {
    assert_eq!(choice_label("short"), Some("short"));
    let long = "x".repeat(150);
    assert_eq!(choice_label(&long), Some(&long[..100]));
    let exact = "y".repeat(100);
    assert_eq!(choice_label(&exact), Some(exact.as_str()));
    let split = format!("{}é{}", "x".repeat(99), "z".repeat(10));
    assert_eq!(choice_label(&split), None);
    let whole = format!("{}é{}", "x".repeat(98), "z".repeat(10));
    assert_eq!(choice_label(&whole), Some(&whole[..100]));
}
