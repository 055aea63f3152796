//! What the bot registers when it is ready, and where a command's name leads.

use crate::admin::{admin_cmd1_view, register_admin_commands};
use crate::command::{command_views, same_text, CommandDescriptor, CommandDescriptorView};
use crate::fun::{fun_cmd1_view, register_fun_commands};
use crate::games::{games_cmd1_view, register_games_commands};
use crate::interaction::Interaction;
use crate::moderation::{
    clear_warnings_view, history_view, moderation_cmd1_view, register_moderation_commands,
    view_warnings_view, warn_user_view,
};
use vstd::prelude::*;

verus! {

/// The commands the bot carries out.
#[derive(Clone, Copy, Debug, PartialEq, Eq, Structural)]
pub enum Command {
    AdminCmd1,
    GamesCmd1,
    FunCmd1,
    ModerationCmd1,
    Warn,
    ViewWarnings,
    ClearWarnings,
    History,
}

/// The command that goes by `name`, if there is one.
pub open spec fn command_named(name: Seq<char>) -> Option<Command> {
    if name == "admin_cmd1"@ {
        Some(Command::AdminCmd1)
    } else if name == "games_cmd1"@ {
        Some(Command::GamesCmd1)
    } else if name == "fun_cmd1"@ {
        Some(Command::FunCmd1)
    } else if name == "moderation_cmd1"@ {
        Some(Command::ModerationCmd1)
    } else if name == "warn"@ {
        Some(Command::Warn)
    } else if name == "warnings"@ {
        Some(Command::ViewWarnings)
    } else if name == "clearwarnings"@ {
        Some(Command::ClearWarnings)
    } else if name == "history"@ {
        Some(Command::History)
    } else {
        None
    }
}

/// The commands the bot registers, in the order in which it registers them.
pub open spec fn registered_commands() -> Seq<CommandDescriptorView> {
    seq![
        admin_cmd1_view(),
        games_cmd1_view(),
        fun_cmd1_view(),
        moderation_cmd1_view(),
        warn_user_view(),
        view_warnings_view(),
        clear_warnings_view(),
        history_view(),
    ]
}

/// Finds the command that an incoming interaction names; a name that no
/// command goes by is passed over.
pub fn interaction_create(interaction: &Interaction) -> (command: Option<Command>)
    ensures
        command == command_named(interaction.command@),
{
    let name = interaction.command.as_str();
    if same_text(name, "admin_cmd1") {
        Some(Command::AdminCmd1)
    } else if same_text(name, "games_cmd1") {
        Some(Command::GamesCmd1)
    } else if same_text(name, "fun_cmd1") {
        Some(Command::FunCmd1)
    } else if same_text(name, "moderation_cmd1") {
        Some(Command::ModerationCmd1)
    } else if same_text(name, "warn") {
        Some(Command::Warn)
    } else if same_text(name, "warnings") {
        Some(Command::ViewWarnings)
    } else if same_text(name, "clearwarnings") {
        Some(Command::ClearWarnings)
    } else if same_text(name, "history") {
        Some(Command::History)
    } else {
        None
    }
}

/// Collects the commands to register once the bot is ready: administration,
/// games, jokes, then moderation.
pub fn ready() -> (commands: Vec<CommandDescriptor>)
    ensures
        command_views(commands@) == registered_commands(),
{
    let mut commands: Vec<CommandDescriptor> = Vec::new();
    assert(command_views(commands@) =~= Seq::empty());
    register_admin_commands(&mut commands);
    register_games_commands(&mut commands);
    register_fun_commands(&mut commands);
    register_moderation_commands(&mut commands);
    assert(command_views(commands@) =~= registered_commands());
    commands
}

} // verus!
