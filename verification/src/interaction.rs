//! A command as it arrives: who sent it, where, and with which options.

use crate::text::text_view;
use vstd::prelude::*;
use vstd::string::*;

verus! {

/// A member of the guild.
#[derive(Debug)]
pub struct Subject {
    pub id: u64,
    pub name: String,
}

/// A member as a mathematical value.
pub struct SubjectView {
    pub id: u64,
    pub name: Seq<char>,
}

impl View for Subject {
    type V = SubjectView;

    open spec fn view(&self) -> SubjectView {
        SubjectView { id: self.id, name: self.name@ }
    }
}

/// The value of a command option.
#[derive(Debug)]
pub enum OptionValue {
    /// A member of the guild.
    User { id: u64, name: String },
    /// A text.
    Text(String),
    /// Anything else.
    Other,
}

/// An option value as a mathematical value.
pub enum OptionValueView {
    User { id: u64, name: Seq<char> },
    Text(Seq<char>),
    Other,
}

impl View for OptionValue {
    type V = OptionValueView;

    open spec fn view(&self) -> OptionValueView {
        match self {
            OptionValue::User { id, name } => OptionValueView::User { id: *id, name: name@ },
            OptionValue::Text(text) => OptionValueView::Text(text@),
            OptionValue::Other => OptionValueView::Other,
        }
    }
}

/// A named option of a command.
#[derive(Debug)]
pub struct CommandOption {
    pub name: String,
    pub value: OptionValue,
}

/// A command option as a mathematical value.
pub struct CommandOptionView {
    pub name: Seq<char>,
    pub value: OptionValueView,
}

impl View for CommandOption {
    type V = CommandOptionView;

    open spec fn view(&self) -> CommandOptionView {
        CommandOptionView { name: self.name@, value: self.value@ }
    }
}

/// A command sent by a member of a guild.
#[derive(Debug)]
pub struct Interaction {
    /// The command's name.
    pub command: String,
    /// The options given, in the order given.
    pub options: Vec<CommandOption>,
    /// Who sent the command.
    pub invoker: Subject,
    /// The guild it was sent in, if any.
    pub guild_id: Option<u64>,
}

/// The views of `options`, in order.
pub open spec fn option_views(options: Seq<CommandOption>) -> Seq<CommandOptionView> {
    options.map_values(|o: CommandOption| o@)
}

/// The value of the first option of `options` that is called `name`.
pub open spec fn first_named(options: Seq<CommandOptionView>, name: Seq<char>) -> Option<
    OptionValueView,
>
    decreases options.len(),
{
    if options.len() == 0 {
        None
    } else if options[0].name == name {
        Some(options[0].value)
    } else {
        first_named(options.drop_first(), name)
    }
}

/// The member that the first option called `name` holds, if it holds one.
pub open spec fn named_user(options: Seq<CommandOptionView>, name: Seq<char>) -> Option<
    SubjectView,
> {
    match first_named(options, name) {
        Some(OptionValueView::User { id, name }) => Some(SubjectView { id, name }),
        _ => None,
    }
}

/// The text that the first option called `name` holds, if it holds one.
pub open spec fn named_text(options: Seq<CommandOptionView>, name: Seq<char>) -> Option<
    Seq<char>,
> {
    match first_named(options, name) {
        Some(OptionValueView::Text(text)) => Some(text),
        _ => None,
    }
}

/// The view of an optional member.
pub open spec fn subject_view(subject: Option<Subject>) -> Option<SubjectView> {
    match subject {
        Some(s) => Some(s@),
        None => None,
    }
}

/// The place of the first option called `name`.
fn find_option(options: &Vec<CommandOption>, name: &str) -> (place: Option<usize>)
    ensures
        match place {
            Some(i) => i < options.len() && first_named(option_views(options@), name@) == Some(
                options[i as int].value@,
            ),
            None => first_named(option_views(options@), name@) is None,
        },
{
    let wanted = String::from_str(name);
    let ghost views = option_views(options@);
    let mut i: usize = 0;
    assert(views.skip(0) =~= views);
    while i < options.len()
        invariant
            i <= options.len(),
            wanted@ == name@,
            views == option_views(options@),
            first_named(views, name@) == first_named(views.skip(i as int), name@),
        decreases options.len() - i,
    {
        proof {
            assert(views.skip(i as int)[0] == options[i as int]@);
            assert(views.skip(i as int).drop_first() =~= views.skip(i + 1));
        }
        if options[i].name == wanted {
            return Some(i);
        }
        i = i + 1;
    }
    assert(views.skip(i as int).len() == 0);
    None
}

/// The member that the first option called `name` holds, if it holds one.
pub fn user_option(options: &Vec<CommandOption>, name: &str) -> (subject: Option<Subject>)
    ensures
        subject_view(subject) == named_user(option_views(options@), name@),
{
    match find_option(options, name) {
        Some(i) => match &options[i].value {
            OptionValue::User { id, name } => Some(Subject { id: *id, name: name.clone() }),
            _ => None,
        },
        None => None,
    }
}

/// The text that the first option called `name` holds, if it holds one.
pub fn text_option(options: &Vec<CommandOption>, name: &str) -> (text: Option<String>)
    ensures
        text_view(text) == named_text(option_views(options@), name@),
{
    match find_option(options, name) {
        Some(i) => match &options[i].value {
            OptionValue::Text(text) => Some(text.clone()),
            _ => None,
        },
        None => None,
    }
}

} // verus!
