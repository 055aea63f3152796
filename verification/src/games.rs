//! Rock-paper-scissors: the bot picks a hand.

use crate::command::{command_views, CommandDescriptor, CommandDescriptorView};
use crate::random::choose_text;
use vstd::prelude::*;
use vstd::string::*;

verus! {

/// The hands the bot can pick, as texts.
pub open spec fn hand_texts() -> Seq<Seq<char>> {
    seq!["Rock"@, "Paper"@, "Scissors"@]
}

/// The reply that announces the hand `hand`.
pub open spec fn games_reply_text(hand: Seq<char>) -> Seq<char> {
    "I choose **"@ + hand + "**!"@
}

/// The command that plays rock-paper-scissors.
pub open spec fn games_cmd1_view() -> CommandDescriptorView {
    CommandDescriptorView {
        name: "games_cmd1"@,
        description: "Play rock-paper-scissors"@,
        options: Seq::empty(),
    }
}

/// Describes the command that plays rock-paper-scissors.
pub fn games_cmd1() -> (command: CommandDescriptor)
    ensures
        command@ == games_cmd1_view(),
{
    let command = CommandDescriptor {
        name: String::from_str("games_cmd1"),
        description: String::from_str("Play rock-paper-scissors"),
        options: Vec::new(),
    };
    assert(command@.options =~= Seq::empty());
    command
}

/// Adds the game commands to `cmds`.
pub fn register_games_commands(cmds: &mut Vec<CommandDescriptor>)
    ensures
        command_views(final(cmds)@) == command_views(old(cmds)@).push(games_cmd1_view()),
{
    cmds.push(games_cmd1());
    assert(command_views(cmds@) =~= command_views(old(cmds)@).push(games_cmd1_view()));
}

/// The hands the bot can pick.
pub fn hands() -> (hands: Vec<&'static str>)
    ensures
        hands@.map_values(|hand: &'static str| hand@) == hand_texts(),
{
    let hands = vec!["Rock", "Paper", "Scissors"];
    assert(hands@.map_values(|hand: &'static str| hand@) =~= hand_texts());
    hands
}

/// Writes the reply that announces the hand `hand`.
pub fn games_reply(hand: &str) -> (text: String)
    ensures
        text@ == games_reply_text(hand@),
{
    let mut text = String::from_str("I choose **");
    text.append(hand);
    text.append("**!");
    text
}

/// Carries out the game command: picks a hand at random and announces it.
pub fn run_games_cmd1() -> (text: String)
    ensures
        exists|i: int| 0 <= i < 3 && text@ == games_reply_text(#[trigger] hand_texts()[i]),
{
    let hands = hands();
    proof {
        assert(hands@.map_values(|hand: &'static str| hand@).len() == hands@.len());
        assert(hand_texts().len() == 3);
    }
    let mut rng = rand::thread_rng();
    let picked = choose_text(&hands, &mut rng);
    match picked {
        Some(hand) => {
            let text = games_reply(hand);
            proof {
                let i = choose|i: int| 0 <= i < hands@.len() && #[trigger] hands@[i] == hand;
                assert(hands@.map_values(|hand: &'static str| hand@)[i] == hand@);
                assert(text@ == games_reply_text(hand_texts()[i]));
            }
            text
        },
        // Never taken: there is something to pick from.
        None => String::new(),
    }
}

} // verus!
