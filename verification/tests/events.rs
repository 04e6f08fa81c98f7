use humble_ledger::command::KnownCommand;
use humble_ledger::events::{
    message_reaction, stale_commands, RARER_REACTION, RARE_REACTION, STALE_COMMAND, TEASED_AUTHOR,
};

fn known(name: &str, id: u64) -> KnownCommand {
    KnownCommand { name: name.to_string(), id }
}

#[test]
fn other_authors_get_no_reaction() {
    assert_eq!(message_reaction(1, 0), None);
    assert_eq!(message_reaction(TEASED_AUTHOR + 1, 150), None);
    assert_eq!(message_reaction(TEASED_AUTHOR - 1, 301), None);
}

#[test]
fn one_hash_in_150_gets_the_rare_reaction() {
    assert_eq!(message_reaction(TEASED_AUTHOR, 0), Some(RARE_REACTION));
    assert_eq!(message_reaction(TEASED_AUTHOR, 150), Some(RARE_REACTION));
    assert_eq!(message_reaction(TEASED_AUTHOR, 4500), Some(RARE_REACTION));
}

#[test]
fn one_hash_in_301_gets_the_rarer_reaction() {
    assert_eq!(message_reaction(TEASED_AUTHOR, 301), Some(RARER_REACTION));
    assert_eq!(message_reaction(TEASED_AUTHOR, 602), Some(RARER_REACTION));
}

#[test]
fn rare_reaction_wins_where_both_divide() {
    assert_eq!(message_reaction(TEASED_AUTHOR, 150 * 301), Some(RARE_REACTION));
}

#[test]
fn most_hashes_get_no_reaction() {
    assert_eq!(message_reaction(TEASED_AUTHOR, 1), None);
    assert_eq!(message_reaction(TEASED_AUTHOR, 149), None);
    assert_eq!(message_reaction(TEASED_AUTHOR, 299), None);
    assert_eq!(message_reaction(TEASED_AUTHOR, u64::MAX), None);
}

#[test]
fn reactions_are_the_two_hand_signs() {
    assert_eq!(RARE_REACTION, '🖕');
    assert_eq!(RARER_REACTION, '👍');
}

#[test]
fn stale_commands_are_picked_by_name_in_order() {
    let commands = vec![
        known("lp", 1),
        known(STALE_COMMAND, 2),
        known("build_playlist_now", 3),
        known("build_playlist", 4),
        known("Build_Playlist", 5),
    ];
    assert_eq!(stale_commands(&commands), vec![2, 4]);
}

#[test]
fn no_commands_leave_nothing_stale() {
    assert_eq!(stale_commands(&Vec::new()), Vec::<u64>::new());
    assert_eq!(stale_commands(&vec![known("lp", 1)]), Vec::<u64>::new());
}
