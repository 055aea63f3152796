//! Jokes: the bot tells one at random.

use crate::command::{command_views, CommandDescriptor, CommandDescriptorView};
use crate::random::choose_text;
use vstd::prelude::*;
use vstd::string::*;

verus! {

/// The jokes the bot knows, as texts.
pub open spec fn joke_texts() -> Seq<Seq<char>> {
    seq![
        "Why don’t skeletons fight each other? They don’t have the guts."@,
        "Why did the scarecrow win an award? He was outstanding in his field."@,
        "What do you call fake spaghetti? An impasta!"@,
    ]
}

/// The command that tells a joke.
pub open spec fn fun_cmd1_view() -> CommandDescriptorView {
    CommandDescriptorView {
        name: "fun_cmd1"@,
        description: "Get a random joke"@,
        options: Seq::empty(),
    }
}

/// Describes the command that tells a joke.
pub fn fun_cmd1() -> (command: CommandDescriptor)
    ensures
        command@ == fun_cmd1_view(),
{
    let command = CommandDescriptor {
        name: String::from_str("fun_cmd1"),
        description: String::from_str("Get a random joke"),
        options: Vec::new(),
    };
    assert(command@.options =~= Seq::empty());
    command
}

/// Adds the joke commands to `cmds`.
pub fn register_fun_commands(cmds: &mut Vec<CommandDescriptor>)
    ensures
        command_views(final(cmds)@) == command_views(old(cmds)@).push(fun_cmd1_view()),
{
    cmds.push(fun_cmd1());
    assert(command_views(cmds@) =~= command_views(old(cmds)@).push(fun_cmd1_view()));
}

/// The jokes the bot knows.
pub fn jokes() -> (jokes: Vec<&'static str>)
    ensures
        jokes@.map_values(|joke: &'static str| joke@) == joke_texts(),
{
    let jokes = vec![
        "Why don’t skeletons fight each other? They don’t have the guts.",
        "Why did the scarecrow win an award? He was outstanding in his field.",
        "What do you call fake spaghetti? An impasta!",
    ];
    assert(jokes@.map_values(|joke: &'static str| joke@) =~= joke_texts());
    jokes
}

/// Carries out the joke command: picks a joke at random; the joke is the
/// reply.
pub fn run_fun_cmd1() -> (text: String)
    ensures
        exists|i: int| 0 <= i < 3 && text@ == #[trigger] joke_texts()[i],
{
    let jokes = jokes();
    proof {
        assert(jokes@.map_values(|joke: &'static str| joke@).len() == jokes@.len());
        assert(joke_texts().len() == 3);
    }
    let mut rng = rand::thread_rng();
    let picked = choose_text(&jokes, &mut rng);
    match picked {
        Some(joke) => {
            let text = String::from_str(joke);
            proof {
                let i = choose|i: int| 0 <= i < jokes@.len() && #[trigger] jokes@[i] == joke;
                assert(jokes@.map_values(|joke: &'static str| joke@)[i] == joke@);
                assert(text@ == joke_texts()[i]);
            }
            text
        },
        // Never taken: there is something to pick from.
        None => String::new(),
    }
}

} // verus!
