//! What the bot does about events of the chat that belong to no module.

use vstd::prelude::*;
use crate::command::KnownCommand;
use crate::text::same_text;

verus! {

/// The member whose messages may get a reaction.
pub const TEASED_AUTHOR: u64 = 513626599330152458;

/// The reaction that is rare.
pub const RARE_REACTION: char = '\u{1F595}';

/// The reaction that is rarer.
pub const RARER_REACTION: char = '\u{1F44D}';

/// The reaction to a message of `author` whose identifier hashes to `hash`:
/// one message in 150 of the teased member gets the rare reaction, and of
/// the others one in 301 the rarer one.
pub open spec fn reaction_for(author: u64, hash: u64) -> Option<char> {
    if author != TEASED_AUTHOR {
        None
    } else if hash % 150 == 0 {
        Some(RARE_REACTION)
    } else if hash % 301 == 0 {
        Some(RARER_REACTION)
    } else {
        None
    }
}

/// Picks the reaction to a message.
pub fn message_reaction(author: u64, hash: u64) -> (reaction: Option<char>)
    ensures
        reaction == reaction_for(author, hash),
{
    if author != TEASED_AUTHOR {
        None
    } else if hash % 150 == 0 {
        Some(RARE_REACTION)
    } else if hash % 301 == 0 {
        Some(RARER_REACTION)
    } else {
        None
    }
}

/// Name of the global command that guilds have taken over.
pub const STALE_COMMAND: &'static str = "build_playlist";

/// The identifiers of the global commands that are to go when the bot
/// comes up: those called `build_playlist`, in their order.
pub open spec fn stale_ids(commands: Seq<KnownCommand>) -> Seq<u64> {
    commands.filter(|command: KnownCommand| command.name@ == STALE_COMMAND@).map_values(
        |command: KnownCommand| command.id,
    )
}

/// Picks the global commands that are to go when the bot comes up.
pub fn stale_commands(commands: &Vec<KnownCommand>) -> (ids: Vec<u64>)
    ensures
        ids@ == stale_ids(commands@),
{
    let ghost stale = |command: KnownCommand| command.name@ == STALE_COMMAND@;
    let ghost id_of = |command: KnownCommand| command.id;
    let mut ids: Vec<u64> = Vec::new();
    let mut i: usize = 0;
    proof {
        reveal_with_fuel(Seq::filter, 1);
        assert(commands@.take(0) =~= Seq::empty());
        assert(ids@ =~= commands@.take(0).filter(stale).map_values(id_of));
    }
    while i < commands.len()
        invariant
            i <= commands.len(),
            stale == |command: KnownCommand| command.name@ == STALE_COMMAND@,
            id_of == |command: KnownCommand| command.id,
            ids@ == commands@.take(i as int).filter(stale).map_values(id_of),
        decreases commands.len() - i,
    {
        proof {
            assert(commands@.take(i + 1) =~= commands@.take(i as int).push(commands@[i as int]));
            commands@.take(i as int).lemma_filter_push(commands@[i as int], stale);
        }
        if same_text(commands[i].name.as_str(), STALE_COMMAND) {
            ids.push(commands[i].id);
        }
        assert(ids@ =~= commands@.take(i + 1).filter(stale).map_values(id_of));
        i = i + 1;
    }
    assert(commands@.take(commands.len() as int) =~= commands@);
    ids
}

} // verus!
