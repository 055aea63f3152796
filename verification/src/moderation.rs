//! The moderator-facing commands: warn, view warnings, clear warnings and
//! history.
//!
//! A warn command is carried out in steps. `run_warn` records the warning and
//! decides the punishment; the caller then performs each action it is handed
//! and reports back with an event, until the flow is finished.

use crate::command::{
    command_views, option, required_option, CommandDescriptor, CommandDescriptorView,
    OptionDescriptor, OptionKind,
};
use crate::error::ModerationError;
use crate::interaction::{
    named_text, named_user, option_views, text_option, user_option, CommandOptionView,
    Interaction, SubjectView,
};
use crate::ledger::{
    count_of, entries_of, history_entries, new_record, records_except, with_warning, Ledger,
    WarningRecord,
};
use crate::messages::{
    cleared_message, cleared_text, confirmation_text, history_message, history_text, outcome_for,
    outcome_of, warn_confirmation, warn_message, warn_text, warnings_message, warnings_text,
    ActionOutcome,
};
use crate::policy::{decision_for, evaluate, EscalationDecision};
use crate::text::text_view;
use crate::timestamp::Timestamp;
use vstd::prelude::*;
use vstd::string::*;

verus! {

/// How many entries the history shows at most.
pub const HISTORY_LIMIT: usize = 10;

/// Where audit records go.
#[derive(Clone, Copy, Debug)]
pub struct AuditConfig {
    /// The channel that takes the audit records; `None` switches them off.
    pub log_destination: Option<u64>,
}

/// The channel that takes the audit records of `guild_id`: the configured one,
/// whatever the guild.
pub fn get_log_channel(config: &AuditConfig, guild_id: u64) -> (destination: Option<u64>)
    ensures
        destination == config.log_destination,
{
    config.log_destination
}

/// Where a warn command stands.
#[derive(Debug)]
pub enum WarnFlow {
    /// The warning is recorded; the punishment is being carried out.
    Punishing { confirmation: String, decision: EscalationDecision, destination: Option<u64> },
    /// The reply is known and is being sent.
    Responding { message: String, destination: Option<u64> },
    /// The reply was sent; the audit record is being emitted.
    Auditing { message: String },
    /// Nothing is left to do.
    Finished { message: String },
}

/// A warn flow as a mathematical value.
pub enum WarnFlowView {
    Punishing { confirmation: Seq<char>, decision: EscalationDecision, destination: Option<u64> },
    Responding { message: Seq<char>, destination: Option<u64> },
    Auditing { message: Seq<char> },
    Finished { message: Seq<char> },
}

impl View for WarnFlow {
    type V = WarnFlowView;

    open spec fn view(&self) -> WarnFlowView {
        match self {
            WarnFlow::Punishing { confirmation, decision, destination } => WarnFlowView::Punishing {
                confirmation: confirmation@,
                decision: *decision,
                destination: *destination,
            },
            WarnFlow::Responding { message, destination } => WarnFlowView::Responding {
                message: message@,
                destination: *destination,
            },
            WarnFlow::Auditing { message } => WarnFlowView::Auditing { message: message@ },
            WarnFlow::Finished { message } => WarnFlowView::Finished { message: message@ },
        }
    }
}

/// What the caller reports back to a warn flow.
#[derive(Clone, Copy, Debug, PartialEq, Eq, Structural)]
pub enum WarnEvent {
    /// The moderation surface answered; `confirmed` says whether it confirmed
    /// the punishment.
    PunishmentFinished { confirmed: bool },
    /// The reply was handed to the moderator.
    Responded,
    /// The audit emission ended; `delivered` says whether the record arrived.
    AuditFinished { delivered: bool },
}

/// What a warn flow asks of the caller.
#[derive(Debug)]
pub enum WarnAction {
    /// Suspend the member's communication in the guild for `minutes` minutes,
    /// from now on.
    Suspend { guild_id: u64, subject_id: u64, minutes: u64 },
    /// Remove the member from the guild for good, with `reason` attached.
    Remove { guild_id: u64, subject_id: u64, reason: String },
    /// Send `message` to the moderator.
    Respond { message: String },
    /// Send `message` to the audit channel `destination`; failure is not
    /// reported to anyone.
    Audit { destination: u64, message: String },
    /// The command is done.
    Finish,
    /// The event was not expected; nothing is to be done about it.
    Idle,
}

/// A warn action as a mathematical value.
pub enum WarnActionView {
    Suspend { guild_id: u64, subject_id: u64, minutes: u64 },
    Remove { guild_id: u64, subject_id: u64, reason: Seq<char> },
    Respond { message: Seq<char> },
    Audit { destination: u64, message: Seq<char> },
    Finish,
    Idle,
}

impl View for WarnAction {
    type V = WarnActionView;

    open spec fn view(&self) -> WarnActionView {
        match self {
            WarnAction::Suspend { guild_id, subject_id, minutes } => WarnActionView::Suspend {
                guild_id: *guild_id,
                subject_id: *subject_id,
                minutes: *minutes,
            },
            WarnAction::Remove { guild_id, subject_id, reason } => WarnActionView::Remove {
                guild_id: *guild_id,
                subject_id: *subject_id,
                reason: reason@,
            },
            WarnAction::Respond { message } => WarnActionView::Respond { message: message@ },
            WarnAction::Audit { destination, message } => WarnActionView::Audit {
                destination: *destination,
                message: message@,
            },
            WarnAction::Finish => WarnActionView::Finish,
            WarnAction::Idle => WarnActionView::Idle,
        }
    }
}

/// What a warn command asks for, once its input is found to be complete.
pub struct WarnRequest {
    pub subject: SubjectView,
    pub reason: Seq<char>,
    pub guild_id: u64,
}

/// The request that a warn command makes: the member of its option `user`, the
/// text of its option `reason`, and its guild; `None` where one of them is
/// missing or the reason is empty.
pub open spec fn warn_request(options: Seq<CommandOptionView>, guild_id: Option<u64>) -> Option<
    WarnRequest,
> {
    match (named_user(options, "user"@), named_text(options, "reason"@), guild_id) {
        (Some(subject), Some(reason), Some(guild_id)) => if reason.len() > 0 {
            Some(WarnRequest { subject, reason, guild_id })
        } else {
            None
        },
        _ => None,
    }
}

/// The flow of a warn command right after the warning is recorded, and the
/// first thing it asks for: the punishment where one is due, else the reply.
pub open spec fn first_step(
    confirmation: Seq<char>,
    decision: EscalationDecision,
    guild_id: u64,
    subject_id: u64,
    reason: Seq<char>,
    destination: Option<u64>,
) -> (WarnFlowView, WarnActionView) {
    match decision {
        EscalationDecision::NoAction => {
            let message = warn_text(confirmation, decision, ActionOutcome::Skipped);
            (
                WarnFlowView::Responding { message, destination },
                WarnActionView::Respond { message },
            )
        },
        EscalationDecision::TemporarySuspension { minutes } => (
            WarnFlowView::Punishing { confirmation, decision, destination },
            WarnActionView::Suspend { guild_id, subject_id, minutes },
        ),
        EscalationDecision::PermanentRemoval => (
            WarnFlowView::Punishing { confirmation, decision, destination },
            WarnActionView::Remove { guild_id, subject_id, reason },
        ),
    }
}

/// The flow after `event`, and what it asks for next. An event that the flow
/// does not wait for changes nothing.
pub open spec fn next_step(flow: WarnFlowView, event: WarnEvent) -> (WarnFlowView, WarnActionView) {
    match (flow, event) {
        (
            WarnFlowView::Punishing { confirmation, decision, destination },
            WarnEvent::PunishmentFinished { confirmed },
        ) => {
            let message = warn_text(confirmation, decision, outcome_for(decision, confirmed));
            (
                WarnFlowView::Responding { message, destination },
                WarnActionView::Respond { message },
            )
        },
        (WarnFlowView::Responding { message, destination }, WarnEvent::Responded) => {
            match destination {
                Some(channel) => (
                    WarnFlowView::Auditing { message },
                    WarnActionView::Audit { destination: channel, message },
                ),
                None => (WarnFlowView::Finished { message }, WarnActionView::Finish),
            }
        },
        (WarnFlowView::Auditing { message }, WarnEvent::AuditFinished { delivered }) => (
            WarnFlowView::Finished { message },
            WarnActionView::Finish,
        ),
        _ => (flow, WarnActionView::Idle),
    }
}

/// The reply of a warn command, once the flow knows it.
pub open spec fn reply_of(flow: WarnFlowView) -> Option<Seq<char>> {
    match flow {
        WarnFlowView::Punishing { .. } => None,
        WarnFlowView::Responding { message, .. } => Some(message),
        WarnFlowView::Auditing { message } => Some(message),
        WarnFlowView::Finished { message } => Some(message),
    }
}

impl WarnFlow {
    /// Takes `event` and says what is to be done next.
    pub fn step(self, event: WarnEvent) -> (next: (WarnFlow, WarnAction))
        ensures
            (next.0@, next.1@) == next_step(self@, event),
    {
        match self {
            WarnFlow::Punishing { confirmation, decision, destination } => match event {
                WarnEvent::PunishmentFinished { confirmed } => {
                    let message = warn_message(
                        confirmation.as_str(),
                        decision,
                        outcome_of(decision, confirmed),
                    );
                    let reply = message.clone();
                    (WarnFlow::Responding { message, destination }, WarnAction::Respond {
                        message: reply,
                    })
                },
                _ => (WarnFlow::Punishing { confirmation, decision, destination }, WarnAction::Idle),
            },
            WarnFlow::Responding { message, destination } => match event {
                WarnEvent::Responded => match destination {
                    Some(channel) => {
                        let record = message.clone();
                        (WarnFlow::Auditing { message }, WarnAction::Audit {
                            destination: channel,
                            message: record,
                        })
                    },
                    None => (WarnFlow::Finished { message }, WarnAction::Finish),
                },
                _ => (WarnFlow::Responding { message, destination }, WarnAction::Idle),
            },
            WarnFlow::Auditing { message } => match event {
                WarnEvent::AuditFinished { delivered } => (
                    WarnFlow::Finished { message },
                    WarnAction::Finish,
                ),
                _ => (WarnFlow::Auditing { message }, WarnAction::Idle),
            },
            WarnFlow::Finished { message } => (WarnFlow::Finished { message }, WarnAction::Idle),
        }
    }

    /// The reply to the moderator, once it is known.
    pub fn reply(&self) -> (message: Option<String>)
        ensures
            text_view(message) == reply_of(self@),
    {
        match self {
            WarnFlow::Punishing { .. } => None,
            WarnFlow::Responding { message, .. } => Some(message.clone()),
            WarnFlow::Auditing { message } => Some(message.clone()),
            WarnFlow::Finished { message } => Some(message.clone()),
        }
    }
}

/// A warn command that has recorded its warning: the record, the flow, and the
/// first action to perform.
#[derive(Debug)]
pub struct WarnStart {
    pub record: WarningRecord,
    pub flow: WarnFlow,
    pub action: WarnAction,
}

/// Carries out the first part of a warn command: checks the input, records the
/// warning, counts the member's warnings and decides the punishment. Returns
/// the record made, the flow and the first action to perform. Nothing is
/// recorded where the input is refused or the ledger cannot take the record.
pub fn run_warn(
    interaction: &Interaction,
    ledger: &mut Ledger,
    now: Timestamp,
    config: &AuditConfig,
) -> (result: Result<WarnStart, ModerationError>)
    ensures
        match warn_request(option_views(interaction.options@), interaction.guild_id) {
            None => {
                &&& result matches Err(ModerationError::Validation)
                &&& final(ledger)@ == old(ledger)@
                &&& final(ledger).spec_next_id() == old(ledger).spec_next_id()
            },
            Some(request) => if old(ledger).spec_next_id() == u64::MAX {
                &&& result matches Err(ModerationError::StoreUnavailable)
                &&& final(ledger)@ == old(ledger)@
                &&& final(ledger).spec_next_id() == old(ledger).spec_next_id()
            } else {
                &&& result matches Ok(started)
                &&& started.record@ == new_record(
                    old(ledger)@,
                    old(ledger).spec_next_id(),
                    request.subject.id,
                    interaction.invoker.id,
                    request.reason,
                    now.spec_seconds(),
                )
                &&& (started.flow@, started.action@) == first_step(
                    confirmation_text(request.subject.name, request.reason),
                    decision_for(count_of(final(ledger)@, request.subject.id)),
                    request.guild_id,
                    request.subject.id,
                    request.reason,
                    config.log_destination,
                )
                &&& final(ledger)@ == with_warning(
                    old(ledger)@,
                    old(ledger).spec_next_id(),
                    request.subject.id,
                    interaction.invoker.id,
                    request.reason,
                    now.spec_seconds(),
                )
                &&& final(ledger).spec_next_id() == old(ledger).spec_next_id() + 1
            },
        },
{
    let subject = match user_option(&interaction.options, "user") {
        Some(subject) => subject,
        None => { return Err(ModerationError::Validation); },
    };
    let reason = match text_option(&interaction.options, "reason") {
        Some(reason) => reason,
        None => { return Err(ModerationError::Validation); },
    };
    let guild_id = match interaction.guild_id {
        Some(guild_id) => guild_id,
        None => { return Err(ModerationError::Validation); },
    };
    let confirmation = warn_confirmation(subject.name.as_str(), reason.as_str());
    match ledger.insert(subject.id, interaction.invoker.id, reason.clone(), now) {
        Err(error) => Err(error),
        Ok(record) => {
            let count = ledger.count_for(subject.id);
            let decision = evaluate(count);
            let destination = get_log_channel(config, guild_id);
            match decision {
                EscalationDecision::NoAction => {
                    let message = warn_message(
                        confirmation.as_str(),
                        decision,
                        ActionOutcome::Skipped,
                    );
                    let reply = message.clone();
                    Ok(
                        WarnStart {
                            record,
                            flow: WarnFlow::Responding { message, destination },
                            action: WarnAction::Respond { message: reply },
                        },
                    )
                },
                EscalationDecision::TemporarySuspension { minutes } => Ok(
                    WarnStart {
                        record,
                        flow: WarnFlow::Punishing { confirmation, decision, destination },
                        action: WarnAction::Suspend { guild_id, subject_id: subject.id, minutes },
                    },
                ),
                EscalationDecision::PermanentRemoval => Ok(
                    WarnStart {
                        record,
                        flow: WarnFlow::Punishing { confirmation, decision, destination },
                        action: WarnAction::Remove { guild_id, subject_id: subject.id, reason },
                    },
                ),
            }
        },
    }
}

/// Carries out a view-warnings command: the warnings of the member of the
/// option `user`, oldest first, or that there are none.
pub fn run_view_warnings(interaction: &Interaction, ledger: &Ledger) -> (result: Result<
    String,
    ModerationError,
>)
    ensures
        match named_user(option_views(interaction.options@), "user"@) {
            Some(subject) => result matches Ok(text) && text@ == warnings_text(
                subject.name,
                entries_of(ledger@, subject.id),
            ),
            None => result matches Err(ModerationError::Validation),
        },
{
    match user_option(&interaction.options, "user") {
        Some(subject) => {
            let entries = ledger.list_for(subject.id);
            Ok(warnings_message(subject.name.as_str(), &entries))
        },
        None => Err(ModerationError::Validation),
    }
}

/// The reply to a clear-warnings command: whose warnings were deleted, how
/// many there were, and what the moderator is told.
#[derive(Debug)]
pub struct ClearReply {
    pub subject_id: u64,
    pub deleted: u64,
    pub message: String,
}

/// Carries out a clear-warnings command: deletes every warning of the member of
/// the option `user`. A member without warnings is no error.
pub fn run_clear_warnings(interaction: &Interaction, ledger: &mut Ledger) -> (result: Result<
    ClearReply,
    ModerationError,
>)
    ensures
        final(ledger).spec_next_id() == old(ledger).spec_next_id(),
        match named_user(option_views(interaction.options@), "user"@) {
            Some(subject) => {
                &&& result matches Ok(reply)
                &&& reply.subject_id == subject.id
                &&& reply.deleted == count_of(old(ledger)@, subject.id)
                &&& reply.message@ == cleared_text(subject.name)
                &&& final(ledger)@ == records_except(old(ledger)@, subject.id)
            },
            None => {
                &&& result matches Err(ModerationError::Validation)
                &&& final(ledger)@ == old(ledger)@
            },
        },
{
    match user_option(&interaction.options, "user") {
        Some(subject) => {
            let deleted = ledger.clear_for(subject.id);
            Ok(
                ClearReply {
                    subject_id: subject.id,
                    deleted,
                    message: cleared_message(subject.name.as_str()),
                },
            )
        },
        None => Err(ModerationError::Validation),
    }
}

/// Carries out a history command: the last warnings recorded, of whatever
/// member, latest first, or that there are none.
pub fn run_history(ledger: &Ledger) -> (text: String)
    ensures
        text@ == history_text(history_entries(ledger@, HISTORY_LIMIT as nat)),
{
    let entries = ledger.list_recent(HISTORY_LIMIT);
    history_message(&entries)
}

/// The reply of the mock-ban command to the member called `name`.
pub open spec fn mock_ban_text(name: Seq<char>) -> Seq<char> {
    "Banning user... just kidding, "@ + name + " 😄"@
}

/// The mock-ban command.
pub open spec fn moderation_cmd1_view() -> CommandDescriptorView {
    CommandDescriptorView {
        name: "moderation_cmd1"@,
        description: "Pretend to ban a user"@,
        options: Seq::empty(),
    }
}

/// The warn command: it takes a member and a reason.
pub open spec fn warn_user_view() -> CommandDescriptorView {
    CommandDescriptorView {
        name: "warn"@,
        description: "Warn a user"@,
        options: seq![
            required_option("user"@, "User to warn"@, OptionKind::User),
            required_option("reason"@, "Reason for the warning"@, OptionKind::Text),
        ],
    }
}

/// The view-warnings command: it takes a member.
pub open spec fn view_warnings_view() -> CommandDescriptorView {
    CommandDescriptorView {
        name: "warnings"@,
        description: "View a user's warnings"@,
        options: seq![required_option("user"@, "User to view warnings for"@, OptionKind::User)],
    }
}

/// The clear-warnings command: it takes a member.
pub open spec fn clear_warnings_view() -> CommandDescriptorView {
    CommandDescriptorView {
        name: "clearwarnings"@,
        description: "Clear all warnings for a user"@,
        options: seq![required_option("user"@, "User to clear warnings for"@, OptionKind::User)],
    }
}

/// The history command.
pub open spec fn history_view() -> CommandDescriptorView {
    CommandDescriptorView {
        name: "history"@,
        description: "View all moderation actions across users"@,
        options: Seq::empty(),
    }
}

/// Describes the mock-ban command.
pub fn moderation_cmd1() -> (command: CommandDescriptor)
    ensures
        command@ == moderation_cmd1_view(),
{
    let command = CommandDescriptor {
        name: String::from_str("moderation_cmd1"),
        description: String::from_str("Pretend to ban a user"),
        options: Vec::new(),
    };
    assert(command@.options =~= Seq::empty());
    command
}

/// Describes the warn command.
pub fn warn_user() -> (command: CommandDescriptor)
    ensures
        command@ == warn_user_view(),
{
    let mut options: Vec<OptionDescriptor> = Vec::new();
    options.push(option("user", "User to warn", OptionKind::User));
    options.push(option("reason", "Reason for the warning", OptionKind::Text));
    let command = CommandDescriptor {
        name: String::from_str("warn"),
        description: String::from_str("Warn a user"),
        options,
    };
    assert(command@.options =~= warn_user_view().options);
    command
}

/// Describes the view-warnings command.
pub fn view_warnings() -> (command: CommandDescriptor)
    ensures
        command@ == view_warnings_view(),
{
    let mut options: Vec<OptionDescriptor> = Vec::new();
    options.push(option("user", "User to view warnings for", OptionKind::User));
    let command = CommandDescriptor {
        name: String::from_str("warnings"),
        description: String::from_str("View a user's warnings"),
        options,
    };
    assert(command@.options =~= view_warnings_view().options);
    command
}

/// Describes the clear-warnings command.
pub fn clear_warnings() -> (command: CommandDescriptor)
    ensures
        command@ == clear_warnings_view(),
{
    let mut options: Vec<OptionDescriptor> = Vec::new();
    options.push(option("user", "User to clear warnings for", OptionKind::User));
    let command = CommandDescriptor {
        name: String::from_str("clearwarnings"),
        description: String::from_str("Clear all warnings for a user"),
        options,
    };
    assert(command@.options =~= clear_warnings_view().options);
    command
}

/// Describes the history command.
pub fn history() -> (command: CommandDescriptor)
    ensures
        command@ == history_view(),
{
    let command = CommandDescriptor {
        name: String::from_str("history"),
        description: String::from_str("View all moderation actions across users"),
        options: Vec::new(),
    };
    assert(command@.options =~= Seq::empty());
    command
}

/// Adds the moderation commands to `cmds`: the mock ban, then warn, view
/// warnings, clear warnings and history.
pub fn register_moderation_commands(cmds: &mut Vec<CommandDescriptor>)
    ensures
        command_views(final(cmds)@) == command_views(old(cmds)@) + seq![
            moderation_cmd1_view(),
            warn_user_view(),
            view_warnings_view(),
            clear_warnings_view(),
            history_view(),
        ],
{
    cmds.push(moderation_cmd1());
    cmds.push(warn_user());
    cmds.push(view_warnings());
    cmds.push(clear_warnings());
    cmds.push(history());
    assert(command_views(cmds@) =~= command_views(old(cmds)@) + seq![
        moderation_cmd1_view(),
        warn_user_view(),
        view_warnings_view(),
        clear_warnings_view(),
        history_view(),
    ]);
}

/// Carries out the mock-ban command: teases the member who sent it.
pub fn run_moderation_cmd1(interaction: &Interaction) -> (text: String)
    ensures
        text@ == mock_ban_text(interaction.invoker.name@),
{
    let mut text = String::from_str("Banning user... just kidding, ");
    text.append(interaction.invoker.name.as_str());
    text.append(" 😄");
    text
}

} // verus!
