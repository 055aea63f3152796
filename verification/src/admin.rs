//! Administration: the guild's identifier.

use crate::command::{command_views, CommandDescriptor, CommandDescriptorView};
use crate::interaction::Interaction;
use crate::text::{decimal, decimal_text, text_view};
use vstd::prelude::*;
use vstd::string::*;

verus! {

/// The command that shows the guild's identifier.
pub open spec fn admin_cmd1_view() -> CommandDescriptorView {
    CommandDescriptorView {
        name: "admin_cmd1"@,
        description: "Get server ID"@,
        options: Seq::empty(),
    }
}

/// The reply that shows the identifier `guild_id`.
pub open spec fn server_id_text(guild_id: u64) -> Seq<char> {
    "Server ID: "@ + decimal_text(guild_id as nat)
}

/// Describes the command that shows the guild's identifier.
pub fn admin_cmd1() -> (command: CommandDescriptor)
    ensures
        command@ == admin_cmd1_view(),
{
    let command = CommandDescriptor {
        name: String::from_str("admin_cmd1"),
        description: String::from_str("Get server ID"),
        options: Vec::new(),
    };
    assert(command@.options =~= Seq::empty());
    command
}

/// Adds the administration commands to `cmds`.
pub fn register_admin_commands(cmds: &mut Vec<CommandDescriptor>)
    ensures
        command_views(final(cmds)@) == command_views(old(cmds)@).push(admin_cmd1_view()),
{
    cmds.push(admin_cmd1());
    assert(command_views(cmds@) =~= command_views(old(cmds)@).push(admin_cmd1_view()));
}

/// Carries out the administration command: the identifier of the guild the
/// command was sent in; no reply outside a guild.
pub fn run_admin_cmd1(interaction: &Interaction) -> (reply: Option<String>)
    ensures
        text_view(reply) == match interaction.guild_id {
            Some(guild_id) => Some(server_id_text(guild_id)),
            None => None,
        },
{
    match interaction.guild_id {
        Some(guild_id) => {
            let mut text = String::from_str("Server ID: ");
            text.append(decimal(guild_id).as_str());
            Some(text)
        },
        None => None,
    }
}

} // verus!
