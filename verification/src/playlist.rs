//! Playlists that members submit songs to: the commands that register, list
//! and remove them, and the rows written for a submission.

use vstd::prelude::*;
use vstd::string::StringExecFns;
use crate::command::{
    find_command, first_named, CommandOption, CommandOptionView, CommandResponse,
    CommandResponseView, CommandSpec, CommandSpecView, Embed, EmbedView, KnownCommand,
    ResponseType, ResponseTypeView,
};
use crate::outside::{regex_capture, regex_group, text_of};
use crate::text::{
    ascii_only, chars_of, decimal, join, joined, keep_ascii, keep_name_chars, name_chars,
    push_decimal, string_of, texts,
};

verus! {

/// The sheet range that submissions are appended to.
pub const SUBMISSIONS_RANGE: &'static str = "A:F";

/// Expression that finds the address of a Google spreadsheet and captures
/// the spreadsheet's identifier.
pub const SPREADSHEET_URL_RE: &'static str = "https://docs.google.com/spreadsheets/d/([^/]+)";

/// Longest song that a playlist takes, in milliseconds: twenty minutes.
pub const MAX_SONG_MILLIS: u64 = 1_200_000;

/// Registers a playlist.
#[derive(Debug)]
pub struct RegisterPlaylist {
    /// The name of the playlist event. The submission command uses this name.
    pub name: String,
    /// The identifier of the submissions sheet.
    pub spreadsheet_id: String,
    /// Does this playlist allow backup picks?
    pub has_backup: bool,
}

/// A registered playlist.
pub type Playlist = RegisterPlaylist;

/// Name of the command that submits to the playlist called `name`:
/// `submit_`, then the ASCII letters and digits of the name in small letters,
/// with an underscore for each white space.
pub open spec fn submit_command_name(name: Seq<char>) -> Seq<char> {
    "submit_"@ + name_chars(ascii_only(name), false)
}

/// How a command is written in a message so that the chat shows it as a
/// link: `</name:id>`.
pub open spec fn command_mention(name: Seq<char>, id: u64) -> Seq<char> {
    "</"@ + name + ":"@ + decimal(id as nat) + ">"@
}

/// The identifier in `given`: the one that the address of a spreadsheet
/// holds, where `found` is what the search for such an address gave, else
/// `given` as it stands.
pub open spec fn spreadsheet_id_in(given: Seq<char>, found: Option<Seq<char>>) -> Seq<char> {
    match found {
        Some(id) => id,
        None => given,
    }
}

/// The answer to a registration.
pub open spec fn registered_text(name: Seq<char>, mention: Seq<char>) -> Seq<char> {
    "Registered playlist '"@ + name + "'\nUsers can add submissions with "@ + mention + " (`"@
        + mention + "`)"@
}

/// The option of a submission command that takes a link.
pub open spec fn link_option(name: Seq<char>, description: Seq<char>) -> CommandOptionView {
    CommandOptionView {
        name,
        description,
        required: true,
        autocomplete: true,
        choices: Seq::empty(),
    }
}

/// The submission command of a playlist.
pub open spec fn submit_command(playlist: RegisterPlaylist) -> CommandSpecView {
    let link = link_option("link"@, "Spotify link to your pick"@);
    let backup = link_option("backup_link"@, "Spotify link to your backup pick"@);
    CommandSpecView {
        name: submit_command_name(playlist.name@),
        description: "Submit a song to the "@ + playlist.name@ + " playlist"@,
        options: if playlist.has_backup {
            seq![link, backup]
        } else {
            seq![link]
        },
    }
}

/// Writes a command as a mention.
pub fn mention_command(name: &str, id: u64) -> (out: String)
    ensures
        out@ == command_mention(name@, id),
{
    let mut out = String::from_str("</");
    out.append(name);
    out.append(":");
    push_decimal(&mut out, id as u128);
    out.append(">");
    assert(out@ =~= command_mention(name@, id));
    out
}

fn make_link_option(name: &str, description: &str) -> (option: CommandOption)
    ensures
        option@ == link_option(name@, description@),
{
    let option = CommandOption {
        name: String::from_str(name),
        description: String::from_str(description),
        required: true,
        autocomplete: true,
        choices: Vec::new(),
    };
    assert(option@.choices =~= Seq::empty());
    option
}

impl RegisterPlaylist {
    /// Name of the command that submits to this playlist.
    pub fn command_name(&self) -> (name: String)
        ensures
            name@ == submit_command_name(self.name@),
    {
        let chars = chars_of(self.name.as_str());
        let slug = keep_name_chars(&keep_ascii(&chars), false);
        let mut name = String::from_str("submit_");
        name.append(string_of(&slug).as_str());
        name
    }

    /// Takes the identifier out of `found`, the result of searching the
    /// given text for the address of a spreadsheet; keeps the text as given
    /// where there is none.
    pub fn set_spreadsheet_id(&mut self, found: Option<&str>)
        ensures
            final(self).name == old(self).name,
            final(self).has_backup == old(self).has_backup,
            final(self).spreadsheet_id@ == spreadsheet_id_in(
                old(self).spreadsheet_id@,
                text_of(found),
            ),
    {
        match found {
            Some(id) => {
                self.spreadsheet_id = String::from_str(id);
            },
            None => {},
        }
    }

    /// Where the sheet was given by its address, keeps the identifier alone.
    pub fn normalize(&mut self)
        ensures
            final(self).name == old(self).name,
            final(self).has_backup == old(self).has_backup,
            final(self).spreadsheet_id@ == spreadsheet_id_in(
                old(self).spreadsheet_id@,
                regex_group(SPREADSHEET_URL_RE@, old(self).spreadsheet_id@, 1),
            ),
    {
        let given = self.spreadsheet_id.clone();
        let found = regex_capture(SPREADSHEET_URL_RE, given.as_str(), 1);
        self.set_spreadsheet_id(found);
    }

    /// The submission command to register for this playlist.
    pub fn register(&self) -> (command: CommandSpec)
        ensures
            command@ == submit_command(*self),
    {
        let mut description = String::from_str("Submit a song to the ");
        description.append(self.name.as_str());
        description.append(" playlist");
        let mut options: Vec<CommandOption> = Vec::new();
        options.push(make_link_option("link", "Spotify link to your pick"));
        if self.has_backup {
            options.push(make_link_option("backup_link", "Spotify link to your backup pick"));
        }
        let command = CommandSpec { name: self.command_name(), description, options };
        assert(command@.options =~= submit_command(*self).options);
        command
    }

    /// The answer once the submission command is registered under
    /// `command_id`.
    pub fn respond(&self, command_id: u64) -> (response: CommandResponse)
        ensures
            response@ == CommandResponseView::Public(
                ResponseTypeView::Text(
                    registered_text(
                        self.name@,
                        command_mention(submit_command_name(self.name@), command_id),
                    ),
                ),
            ),
    {
        let mention = mention_command(self.command_name().as_str(), command_id);
        let mut text = String::from_str("Registered playlist '");
        text.append(self.name.as_str());
        text.append("'\nUsers can add submissions with ");
        text.append(mention.as_str());
        text.append(" (`");
        text.append(mention.as_str());
        text.append("`)");
        CommandResponse::Public(ResponseType::Text(text))
    }
}

/// Removes a playlist's submission command.
#[derive(Debug)]
pub struct RemovePlaylist {
    /// The name of the submission command.
    pub command_name: String,
}

impl RemovePlaylist {
    /// The command to delete: the first of the guild's commands that has
    /// the name given.
    pub fn target<'a>(&self, commands: &'a Vec<KnownCommand>) -> (found: Option<&'a KnownCommand>)
        ensures
            match found {
                Some(command) => {
                    &&& first_named(commands@, self.command_name@) is Some
                    &&& *command == commands@[first_named(commands@, self.command_name@)->0]
                },
                None => first_named(commands@, self.command_name@) is None,
            },
    {
        find_command(commands, self.command_name.as_str())
    }

    /// The answer once the command is gone.
    pub fn respond(&self) -> (response: CommandResponse)
        ensures
            response@ == CommandResponseView::Public(
                ResponseTypeView::Text("Removed command /"@ + self.command_name@),
            ),
    {
        let mut text = String::from_str("Removed command /");
        text.append(self.command_name.as_str());
        CommandResponse::Public(ResponseType::Text(text))
    }
}

/// Lists the registered playlists.
#[derive(Debug)]
pub struct ListPlaylists {}

/// Name of the command that submits to the album club.
pub const ALBUM_CLUB_COMMAND: &'static str = "submit_album_club";

/// The line that lists the album club.
pub open spec fn album_club_line(id: u64) -> Seq<char> {
    "· Album Club: "@ + command_mention(ALBUM_CLUB_COMMAND@, id)
}

/// The line that lists the playlist called `name`.
pub open spec fn playlist_line(name: Seq<char>, id: u64) -> Seq<char> {
    "· "@ + name + ": "@ + command_mention(submit_command_name(name), id)
}

/// The lines for `playlists`: one for each whose submission command is among
/// `commands`, in the order of the playlists.
pub open spec fn playlist_lines(playlists: Seq<RegisterPlaylist>, commands: Seq<KnownCommand>)
    -> Seq<Seq<char>>
    decreases playlists.len(),
{
    if playlists.len() == 0 {
        Seq::empty()
    } else {
        let before = playlist_lines(playlists.drop_last(), commands);
        let name = playlists.last().name@;
        match first_named(commands, submit_command_name(name)) {
            Some(at) => before.push(playlist_line(name, commands[at].id)),
            None => before,
        }
    }
}

/// All lines of the list: the album club first, where the chat knows its
/// command, then the playlists.
pub open spec fn listing_lines(
    global_commands: Seq<KnownCommand>,
    playlists: Seq<RegisterPlaylist>,
    guild_commands: Seq<KnownCommand>,
) -> Seq<Seq<char>> {
    match first_named(global_commands, ALBUM_CLUB_COMMAND@) {
        Some(at) => seq![album_club_line(global_commands[at].id)] + playlist_lines(
            playlists,
            guild_commands,
        ),
        None => playlist_lines(playlists, guild_commands),
    }
}

impl ListPlaylists {
    /// The embed that lists the album club and the playlists of a guild.
    pub fn respond(
        &self,
        global_commands: &Vec<KnownCommand>,
        playlists: &Vec<RegisterPlaylist>,
        guild_commands: &Vec<KnownCommand>,
    ) -> (response: CommandResponse)
        ensures
            response@ == CommandResponseView::Public(
                ResponseTypeView::Embed(
                    EmbedView {
                        title: Some("Registered playlists"@),
                        description: Some(
                            joined(
                                listing_lines(global_commands@, playlists@, guild_commands@),
                                "\n"@,
                            ),
                        ),
                        fields: Seq::empty(),
                    },
                ),
            ),
    {
        let mut lines: Vec<String> = Vec::new();
        match find_command(global_commands, ALBUM_CLUB_COMMAND) {
            Some(command) => {
                let mut line = String::from_str("· Album Club: ");
                line.append(mention_command(ALBUM_CLUB_COMMAND, command.id).as_str());
                lines.push(line);
            },
            None => {},
        }
        let ghost head = texts(lines@);
        let mut i: usize = 0;
        assert(playlists@.take(0) =~= Seq::empty());
        assert(texts(lines@) =~= head + playlist_lines(playlists@.take(0), guild_commands@));
        while i < playlists.len()
            invariant
                i <= playlists.len(),
                texts(lines@) == head + playlist_lines(playlists@.take(i as int), guild_commands@),
            decreases playlists.len() - i,
        {
            let playlist = &playlists[i];
            let command_name = playlist.command_name();
            let ghost before = lines@;
            let ghost listed = playlist_lines(playlists@.take(i as int), guild_commands@);
            proof {
                assert(playlists@.take(i + 1).drop_last() =~= playlists@.take(i as int));
                assert(playlists@.take(i + 1).last() == playlists@[i as int]);
            }
            match find_command(guild_commands, command_name.as_str()) {
                Some(command) => {
                    let mut line = String::from_str("· ");
                    line.append(playlist.name.as_str());
                    line.append(": ");
                    line.append(mention_command(command_name.as_str(), command.id).as_str());
                    assert(line@ =~= playlist_line(playlist.name@, command.id));
                    lines.push(line);
                    proof {
                        assert(texts(lines@) =~= texts(before).push(line@));
                        assert(playlist_lines(playlists@.take(i + 1), guild_commands@)
                            == listed.push(line@));
                        assert(head + listed.push(line@) =~= (head + listed).push(line@));
                    }
                },
                None => {
                    assert(playlist_lines(playlists@.take(i + 1), guild_commands@) == listed);
                },
            }
            i = i + 1;
        }
        assert(playlists@.take(playlists.len() as int) =~= playlists@);
        assert(texts(lines@) =~= listing_lines(global_commands@, playlists@, guild_commands@));
        let contents = join(&lines, "\n");
        let embed = Embed::new().title(String::from_str("Registered playlists")).description(
            contents,
        );
        CommandResponse::Public(ResponseType::Embed(embed))
    }
}

/// A song as the music service reports it.
#[derive(Debug)]
pub struct Song {
    pub artists: Vec<String>,
    pub name: String,
    /// Address of the song.
    pub url: String,
    /// Running time in milliseconds.
    pub duration: u64,
}

/// "artists - name", the artists listed with commas between them.
pub open spec fn song_info(song: Song) -> Seq<char> {
    joined(texts(song.artists@), ", "@) + " - "@ + song.name@
}

/// Why a submission is turned down.
#[derive(Debug, PartialEq, Eq)]
pub enum SubmitError {
    /// A song runs longer than the playlist takes.
    SongTooLong,
}

impl SubmitError {
    /// What the member is told.
    pub fn message(&self) -> (text: String)
        ensures
            text@ == "This song is too long!"@,
    {
        String::from_str("This song is too long!")
    }
}

/// Submits a song to a playlist.
#[derive(Debug)]
pub struct SubmitPlaylist {
    /// Spotify link to the song.
    pub link: String,
    /// Spotify link to the backup song.
    pub backup_link: Option<String>,
}

/// What a submission amounts to: the row for the sheet and the answer.
#[derive(Debug)]
pub struct Submission {
    pub row: Vec<String>,
    pub response: CommandResponse,
}

/// The row for a submission: time, member, song and its address, then the
/// backup and its address, or two empty cells without a backup.
pub open spec fn submission_row(
    timestamp: Seq<char>,
    handle: Seq<char>,
    song: Song,
    backup: Option<Song>,
) -> Seq<Seq<char>> {
    match backup {
        Some(other) => seq![
            timestamp,
            handle,
            song_info(song),
            song.url@,
            song_info(other),
            other.url@,
        ],
        None => seq![timestamp, handle, song_info(song), song.url@, Seq::empty(), Seq::empty()],
    }
}

/// The answer to a submission.
pub open spec fn submitted_text(song: Song, backup: Option<Song>) -> Seq<char> {
    match backup {
        Some(other) => "Submitted "@ + song_info(song) + " and "@ + song_info(other)
            + " to playlist\n"@ + song.url@ + "\n"@ + other.url@,
        None => "Submitted "@ + song_info(song) + " to playlist\n"@ + song.url@,
    }
}

/// Whether a submission is turned down for a song that runs too long.
pub open spec fn too_long(song: Song, backup: Option<Song>) -> bool {
    song.duration > MAX_SONG_MILLIS || (backup is Some && backup->0.duration > MAX_SONG_MILLIS)
}

/// Writes "artists - name" for a song.
pub fn format_song(song: &Song) -> (out: String)
    ensures
        out@ == song_info(*song),
{
    let mut out = join(&song.artists, ", ");
    out.append(" - ");
    out.append(song.name.as_str());
    out
}

/// The song behind an optional reference.
pub open spec fn song_of(song: Option<&Song>) -> Option<Song> {
    match song {
        Some(s) => Some(*s),
        None => None,
    }
}

impl SubmitPlaylist {
    /// Turns down a song over twenty minutes. This is asked of each song as
    /// soon as it is known, so that no backup is looked up for a song that
    /// is turned down.
    pub fn check_song(song: &Song) -> (checked: Result<(), SubmitError>)
        ensures
            checked is Err <==> song.duration > MAX_SONG_MILLIS,
    {
        if song.duration > MAX_SONG_MILLIS {
            Err(SubmitError::SongTooLong)
        } else {
            Ok(())
        }
    }

    /// Works out the row and the answer for the song and the backup that
    /// the links of the command led to. A song over twenty minutes is
    /// turned down.
    pub fn submission(timestamp: &str, handle: &str, song: &Song, backup: Option<&Song>) -> (out:
        Result<Submission, SubmitError>)
        ensures
            out is Err <==> too_long(*song, song_of(backup)),
            out matches Ok(done) ==> {
                &&& texts(done.row@) == submission_row(
                    timestamp@,
                    handle@,
                    *song,
                    song_of(backup),
                )
                &&& done.response@ == CommandResponseView::Private(
                    ResponseTypeView::Text(submitted_text(*song, song_of(backup))),
                )
            },
    {
        if song.duration > MAX_SONG_MILLIS {
            return Err(SubmitError::SongTooLong);
        }
        let info = format_song(song);
        let mut row: Vec<String> = Vec::new();
        row.push(String::from_str(timestamp));
        row.push(String::from_str(handle));
        row.push(info.clone());
        row.push(song.url.clone());
        let mut text = String::from_str("Submitted ");
        text.append(info.as_str());
        match backup {
            Some(other) => {
                if other.duration > MAX_SONG_MILLIS {
                    return Err(SubmitError::SongTooLong);
                }
                let other_info = format_song(other);
                row.push(other_info.clone());
                row.push(other.url.clone());
                text.append(" and ");
                text.append(other_info.as_str());
                text.append(" to playlist\n");
                text.append(song.url.as_str());
                text.append("\n");
                text.append(other.url.as_str());
            },
            None => {
                row.push(String::new());
                row.push(String::new());
                text.append(" to playlist\n");
                text.append(song.url.as_str());
            },
        }
        assert(texts(row@) =~= submission_row(timestamp@, handle@, *song, song_of(backup)));
        assert(text@ =~= submitted_text(*song, song_of(backup)));
        Ok(Submission { row, response: CommandResponse::Private(ResponseType::Text(text)) })
    }
}

} // verus!
