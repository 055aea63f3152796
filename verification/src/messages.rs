//! The texts shown to moderators.

use crate::ledger::{entry_views, history_views, EntryView, HistoryEntry, HistoryView, WarningEntry};
use crate::policy::EscalationDecision;
use crate::text::{decimal, decimal_text, join_lines, joined_lines, line_views, text_view};
use crate::timestamp::stamp_text;
use vstd::prelude::*;
use vstd::string::*;

verus! {

/// What became of a punishment.
#[derive(Clone, Copy, Debug, PartialEq, Eq, Structural)]
pub enum ActionOutcome {
    /// Nothing was asked of the moderation surface.
    Skipped,
    /// The moderation surface confirmed the punishment.
    Applied,
    /// The punishment was attempted and not confirmed.
    Degraded,
}

/// The outcome of a decision, given whether the moderation surface confirmed
/// what was asked of it.
pub open spec fn outcome_for(decision: EscalationDecision, confirmed: bool) -> ActionOutcome {
    if decision == EscalationDecision::NoAction {
        ActionOutcome::Skipped
    } else if confirmed {
        ActionOutcome::Applied
    } else {
        ActionOutcome::Degraded
    }
}

/// The line that confirms a warning.
pub open spec fn confirmation_text(name: Seq<char>, reason: Seq<char>) -> Seq<char> {
    "Warned "@ + name + " for: "@ + reason
}

/// The line that reports a punishment, if there is one to report.
pub open spec fn punishment_text(decision: EscalationDecision, outcome: ActionOutcome) -> Option<
    Seq<char>,
> {
    match (decision, outcome) {
        (EscalationDecision::TemporarySuspension { minutes }, ActionOutcome::Applied) => Some(
            "⚠️ Auto-muted for "@ + decimal_text(minutes as nat) + " minutes (3 warnings)."@,
        ),
        (EscalationDecision::TemporarySuspension { minutes }, ActionOutcome::Degraded) => Some(
            "⚠️ Auto-mute for "@ + decimal_text(minutes as nat)
                + " minutes attempted but not confirmed (3 warnings)."@,
        ),
        (EscalationDecision::PermanentRemoval, ActionOutcome::Applied) => Some(
            "🚫 Auto-banned after 5 warnings."@,
        ),
        (EscalationDecision::PermanentRemoval, ActionOutcome::Degraded) => Some(
            "🚫 Auto-ban attempted but not confirmed (5 warnings)."@,
        ),
        _ => None,
    }
}

/// The reply to a warn command: the confirmation, then the punishment line on
/// a line of its own where there is one.
pub open spec fn warn_text(
    confirmation: Seq<char>,
    decision: EscalationDecision,
    outcome: ActionOutcome,
) -> Seq<char> {
    match punishment_text(decision, outcome) {
        Some(line) => confirmation + "\n"@ + line,
        None => confirmation,
    }
}

/// One line of a member's warning list.
pub open spec fn warning_line_text(entry: EntryView) -> Seq<char> {
    "• "@ + entry.reason + " at "@ + stamp_text(entry.created_at)
}

/// The reply to a view-warnings command.
pub open spec fn warnings_text(name: Seq<char>, entries: Seq<EntryView>) -> Seq<char> {
    if entries.len() == 0 {
        name + " has no warnings."@
    } else {
        "Warnings for "@ + name + ":\n"@ + joined_lines(
            entries.map_values(|e: EntryView| warning_line_text(e)),
        )
    }
}

/// One line of the history.
pub open spec fn history_line_text(entry: HistoryView) -> Seq<char> {
    "• <@"@ + decimal_text(entry.subject_id as nat) + ">: "@ + entry.reason + " at "@
        + stamp_text(entry.created_at)
}

/// The reply to a history command.
pub open spec fn history_text(entries: Seq<HistoryView>) -> Seq<char> {
    if entries.len() == 0 {
        "No moderation history found."@
    } else {
        "Recent moderation actions:\n"@ + joined_lines(
            entries.map_values(|e: HistoryView| history_line_text(e)),
        )
    }
}

/// The reply to a clear-warnings command.
pub open spec fn cleared_text(name: Seq<char>) -> Seq<char> {
    "Cleared all warnings for "@ + name
}

/// Tells a decision and the surface's answer apart into an outcome.
pub fn outcome_of(decision: EscalationDecision, confirmed: bool) -> (outcome: ActionOutcome)
    ensures
        outcome == outcome_for(decision, confirmed),
{
    match decision {
        EscalationDecision::NoAction => ActionOutcome::Skipped,
        _ => if confirmed {
            ActionOutcome::Applied
        } else {
            ActionOutcome::Degraded
        },
    }
}

/// Writes the line that confirms a warning of `name` for `reason`.
pub fn warn_confirmation(name: &str, reason: &str) -> (text: String)
    ensures
        text@ == confirmation_text(name@, reason@),
{
    let mut text = String::from_str("Warned ");
    text.append(name);
    text.append(" for: ");
    text.append(reason);
    text
}

/// Writes the line that reports a punishment, if there is one to report.
pub fn punishment_line(decision: EscalationDecision, outcome: ActionOutcome) -> (line: Option<
    String,
>)
    ensures
        text_view(line) == punishment_text(decision, outcome),
{
    match decision {
        EscalationDecision::NoAction => None,
        EscalationDecision::TemporarySuspension { minutes } => match outcome {
            ActionOutcome::Skipped => None,
            ActionOutcome::Applied => {
                let mut line = String::from_str("⚠️ Auto-muted for ");
                line.append(decimal(minutes).as_str());
                line.append(" minutes (3 warnings).");
                Some(line)
            },
            ActionOutcome::Degraded => {
                let mut line = String::from_str("⚠️ Auto-mute for ");
                line.append(decimal(minutes).as_str());
                line.append(" minutes attempted but not confirmed (3 warnings).");
                Some(line)
            },
        },
        EscalationDecision::PermanentRemoval => match outcome {
            ActionOutcome::Skipped => None,
            ActionOutcome::Applied => Some(String::from_str("🚫 Auto-banned after 5 warnings.")),
            ActionOutcome::Degraded => Some(
                String::from_str("🚫 Auto-ban attempted but not confirmed (5 warnings)."),
            ),
        },
    }
}

/// Writes the reply to a warn command.
pub fn warn_message(confirmation: &str, decision: EscalationDecision, outcome: ActionOutcome) -> (text:
    String)
    ensures
        text@ == warn_text(confirmation@, decision, outcome),
{
    let mut text = String::from_str(confirmation);
    match punishment_line(decision, outcome) {
        Some(line) => {
            text.append("\n");
            text.append(line.as_str());
        },
        None => {},
    }
    text
}

/// Writes the reply to a view-warnings command: the warnings of `name`, oldest
/// first, or that there are none.
pub fn warnings_message(name: &str, entries: &Vec<WarningEntry>) -> (text: String)
    ensures
        text@ == warnings_text(name@, entry_views(entries@)),
{
    if entries.len() == 0 {
        let mut text = String::from_str(name);
        text.append(" has no warnings.");
        return text;
    }
    let ghost shown = entry_views(entries@);
    let mut lines: Vec<String> = Vec::new();
    let mut i: usize = 0;
    while i < entries.len()
        invariant
            i <= entries.len(),
            shown == entry_views(entries@),
            line_views(lines@) == shown.take(i as int).map_values(
                |e: EntryView| warning_line_text(e),
            ),
        decreases entries.len() - i,
    {
        let ghost before = line_views(lines@);
        let mut line = String::from_str("• ");
        line.append(entries[i].reason.as_str());
        line.append(" at ");
        line.append(entries[i].created_at.text().as_str());
        assert(line@ == warning_line_text(shown[i as int]));
        lines.push(line);
        proof {
            assert(line_views(lines@) =~= before.push(warning_line_text(shown[i as int])));
            shown.lemma_take_succ_push(i as int);
            assert(shown.take(i + 1).map_values(|e: EntryView| warning_line_text(e))
                =~= before.push(warning_line_text(shown[i as int])));
        }
        i = i + 1;
    }
    assert(shown.take(entries.len() as int) =~= shown);
    let mut text = String::from_str("Warnings for ");
    text.append(name);
    text.append(":\n");
    text.append(join_lines(&lines).as_str());
    text
}

/// Writes the reply to a history command: the entries in the order given, or
/// that there are none.
pub fn history_message(entries: &Vec<HistoryEntry>) -> (text: String)
    ensures
        text@ == history_text(history_views(entries@)),
{
    if entries.len() == 0 {
        return String::from_str("No moderation history found.");
    }
    let ghost shown = history_views(entries@);
    let mut lines: Vec<String> = Vec::new();
    let mut i: usize = 0;
    while i < entries.len()
        invariant
            i <= entries.len(),
            shown == history_views(entries@),
            line_views(lines@) == shown.take(i as int).map_values(
                |e: HistoryView| history_line_text(e),
            ),
        decreases entries.len() - i,
    {
        let ghost before = line_views(lines@);
        let mut line = String::from_str("• <@");
        line.append(decimal(entries[i].subject_id).as_str());
        line.append(">: ");
        line.append(entries[i].reason.as_str());
        line.append(" at ");
        line.append(entries[i].created_at.text().as_str());
        assert(line@ == history_line_text(shown[i as int]));
        lines.push(line);
        proof {
            assert(line_views(lines@) =~= before.push(history_line_text(shown[i as int])));
            shown.lemma_take_succ_push(i as int);
            assert(shown.take(i + 1).map_values(|e: HistoryView| history_line_text(e))
                =~= before.push(history_line_text(shown[i as int])));
        }
        i = i + 1;
    }
    assert(shown.take(entries.len() as int) =~= shown);
    let mut text = String::from_str("Recent moderation actions:\n");
    text.append(join_lines(&lines).as_str());
    text
}

/// Writes the reply to a clear-warnings command.
pub fn cleared_message(name: &str) -> (text: String)
    ensures
        text@ == cleared_text(name@),
{
    let mut text = String::from_str("Cleared all warnings for ");
    text.append(name);
    text
}

} // verus!
