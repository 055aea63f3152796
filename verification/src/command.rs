//! The commands the bot offers, as data, and the routing of a command's name.

use vstd::prelude::*;
use vstd::string::*;

verus! {

/// What kind of value a command option takes.
#[derive(Clone, Copy, Debug, PartialEq, Eq, Structural)]
pub enum OptionKind {
    /// A member of the guild.
    User,
    /// A text.
    Text,
}

/// An option that a command takes.
#[derive(Debug)]
pub struct OptionDescriptor {
    pub name: String,
    pub description: String,
    pub kind: OptionKind,
    pub required: bool,
}

/// An option descriptor as a mathematical value.
pub struct OptionDescriptorView {
    pub name: Seq<char>,
    pub description: Seq<char>,
    pub kind: OptionKind,
    pub required: bool,
}

impl View for OptionDescriptor {
    type V = OptionDescriptorView;

    open spec fn view(&self) -> OptionDescriptorView {
        OptionDescriptorView {
            name: self.name@,
            description: self.description@,
            kind: self.kind,
            required: self.required,
        }
    }
}

/// A command that the bot offers.
#[derive(Debug)]
pub struct CommandDescriptor {
    pub name: String,
    pub description: String,
    pub options: Vec<OptionDescriptor>,
}

/// A command descriptor as a mathematical value.
pub struct CommandDescriptorView {
    pub name: Seq<char>,
    pub description: Seq<char>,
    pub options: Seq<OptionDescriptorView>,
}

impl View for CommandDescriptor {
    type V = CommandDescriptorView;

    open spec fn view(&self) -> CommandDescriptorView {
        CommandDescriptorView {
            name: self.name@,
            description: self.description@,
            options: self.options@.map_values(|o: OptionDescriptor| o@),
        }
    }
}

/// The views of `commands`, in order.
pub open spec fn command_views(commands: Seq<CommandDescriptor>) -> Seq<CommandDescriptorView> {
    commands.map_values(|c: CommandDescriptor| c@)
}

/// A required option called `name` that takes a value of kind `kind`.
pub open spec fn required_option(
    name: Seq<char>,
    description: Seq<char>,
    kind: OptionKind,
) -> OptionDescriptorView {
    OptionDescriptorView { name, description, kind, required: true }
}

/// Describes a required option.
pub fn option(name: &str, description: &str, kind: OptionKind) -> (option: OptionDescriptor)
    ensures
        option@ == required_option(name@, description@, kind),
{
    OptionDescriptor {
        name: String::from_str(name),
        description: String::from_str(description),
        kind,
        required: true,
    }
}

/// Whether two texts are the same.
pub fn same_text(a: &str, b: &str) -> (same: bool)
    ensures
        same == (a@ == b@),
{
    String::from_str(a) == String::from_str(b)
}

} // verus!
