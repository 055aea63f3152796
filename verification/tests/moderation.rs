use auto_punish::error::ModerationError;
use auto_punish::interaction::{
    text_option, user_option, CommandOption, Interaction, OptionValue, Subject,
};
use auto_punish::ledger::{Ledger, WarningRecord};
use auto_punish::messages::{
    cleared_message, history_message, outcome_of, punishment_line, warn_confirmation,
    warn_message, warnings_message, ActionOutcome,
};
use auto_punish::moderation::{
    get_log_channel, run_clear_warnings, run_history, run_moderation_cmd1, run_view_warnings,
    run_warn, AuditConfig, WarnAction, WarnEvent, WarnFlow, HISTORY_LIMIT,
};
use auto_punish::policy::EscalationDecision;
use auto_punish::timestamp::Timestamp;

const GUILD: u64 = 900;
const LOG_CHANNEL: u64 = 123456789012345678;

fn at(seconds: i64) -> Timestamp {
    Timestamp::from_unix(seconds).unwrap()
}

fn user(id: u64, name: &str) -> CommandOption {
    CommandOption {
        name: "user".to_string(),
        value: OptionValue::User { id, name: name.to_string() },
    }
}

fn reason(text: &str) -> CommandOption {
    CommandOption { name: "reason".to_string(), value: OptionValue::Text(text.to_string()) }
}

fn interaction(command: &str, options: Vec<CommandOption>) -> Interaction {
    Interaction {
        command: command.to_string(),
        options,
        invoker: Subject { id: 77, name: "mod".to_string() },
        guild_id: Some(GUILD),
    }
}

fn warn(ledger: &mut Ledger, id: u64, name: &str, why: &str, seconds: i64) -> (WarnFlow, WarnAction) {
    let config = AuditConfig { log_destination: Some(LOG_CHANNEL) };
    let started = run_warn(
        &interaction("warn", vec![user(id, name), reason(why)]),
        ledger,
        at(seconds),
        &config,
    )
    .unwrap();
    (started.flow, started.action)
}

fn reply_after(flow: WarnFlow, action: WarnAction, confirmed: bool) -> String {
    match action {
        WarnAction::Respond { message } => message,
        WarnAction::Suspend { .. } | WarnAction::Remove { .. } => {
            match flow.step(WarnEvent::PunishmentFinished { confirmed }).1 {
                WarnAction::Respond { message } => message,
                other => panic!("unexpected action {:?}", other),
            }
        }
        other => panic!("unexpected action {:?}", other),
    }
}

#[test]
fn first_warning_is_confirmed_without_punishment() {
    let mut ledger = Ledger::new();
    let (flow, action) = warn(&mut ledger, 1, "alice", "spam", 100);
    assert!(matches!(&flow, WarnFlow::Responding { message, destination }
        if message == "Warned alice for: spam" && *destination == Some(LOG_CHANNEL)));
    assert!(matches!(&action, WarnAction::Respond { message } if message == "Warned alice for: spam"));
    assert_eq!(flow.reply(), Some("Warned alice for: spam".to_string()));
    assert_eq!(ledger.count_for(1), 1);
    let record = &ledger.list_for(1)[0];
    assert_eq!(record.reason, "spam");
    assert_eq!(record.created_at.seconds(), 100);
}

#[test]
fn warn_returns_the_record_it_made() {
    let mut ledger = Ledger::new();
    warn(&mut ledger, 2, "bob", "noise", 50);
    let config = AuditConfig { log_destination: None };
    let started = run_warn(
        &interaction("warn", vec![user(1, "alice"), reason("spam")]),
        &mut ledger,
        at(40),
        &config,
    )
    .unwrap();
    assert_eq!(started.record.id, 2);
    assert_eq!(started.record.subject_id, 1);
    assert_eq!(started.record.moderator_id, 77);
    assert_eq!(started.record.reason, "spam");
    assert_eq!(started.record.created_at.seconds(), 50);
}

#[test]
fn restored_ledger_shows_the_same_history() {
    let mut ledger = Ledger::new();
    warn(&mut ledger, 1, "alice", "spam", 100);
    let restored = Ledger::restore(
        vec![WarningRecord {
            id: 1,
            subject_id: 1,
            moderator_id: 77,
            reason: "spam".to_string(),
            created_at: at(100),
        }],
        2,
    )
    .unwrap();
    assert_eq!(run_history(&ledger), run_history(&restored));
    assert_eq!(ledger.next_id(), restored.next_id());
}

#[test]
fn third_warning_suspends_for_ten_minutes() {
    let mut ledger = Ledger::new();
    let (flow, action) = warn(&mut ledger, 1, "alice", "spam", 100);
    assert_eq!(reply_after(flow, action, true), "Warned alice for: spam");
    let (flow, action) = warn(&mut ledger, 1, "alice", "flood", 200);
    assert_eq!(reply_after(flow, action, true), "Warned alice for: flood");
    let (flow, action) = warn(&mut ledger, 1, "alice", "insults", 300);
    assert!(matches!(action, WarnAction::Suspend { guild_id: GUILD, subject_id: 1, minutes: 10 }));
    assert!(flow.reply().is_none());
    assert_eq!(
        reply_after(flow, action, true),
        "Warned alice for: insults\n⚠️ Auto-muted for 10 minutes (3 warnings)."
    );
    assert_eq!(ledger.count_for(1), 3);
}

#[test]
fn fourth_warning_does_nothing_more() {
    let mut ledger = Ledger::new();
    for n in 0..3 {
        warn(&mut ledger, 1, "alice", "again", 100 + n);
    }
    let (flow, action) = warn(&mut ledger, 1, "alice", "caps", 400);
    assert_eq!(reply_after(flow, action, true), "Warned alice for: caps");
    assert_eq!(ledger.count_for(1), 4);
}

#[test]
fn fifth_and_sixth_warning_remove_every_time() {
    let mut ledger = Ledger::new();
    for n in 0..4 {
        warn(&mut ledger, 1, "alice", "again", 100 + n);
    }
    let (flow, action) = warn(&mut ledger, 1, "alice", "ads", 500);
    assert!(matches!(&action, WarnAction::Remove { guild_id: GUILD, subject_id: 1, reason }
        if reason == "ads"));
    assert_eq!(
        reply_after(flow, action, true),
        "Warned alice for: ads\n🚫 Auto-banned after 5 warnings."
    );
    let (flow, action) = warn(&mut ledger, 1, "alice", "more ads", 600);
    assert!(matches!(&action, WarnAction::Remove { guild_id: GUILD, subject_id: 1, reason }
        if reason == "more ads"));
    assert_eq!(
        reply_after(flow, action, true),
        "Warned alice for: more ads\n🚫 Auto-banned after 5 warnings."
    );
    assert_eq!(ledger.count_for(1), 6);
}

#[test]
fn counts_are_kept_per_member() {
    let mut ledger = Ledger::new();
    warn(&mut ledger, 1, "alice", "a", 100);
    warn(&mut ledger, 2, "bob", "b", 101);
    warn(&mut ledger, 1, "alice", "c", 102);
    warn(&mut ledger, 2, "bob", "d", 103);
    let (_, action) = warn(&mut ledger, 2, "bob", "e", 104);
    assert!(matches!(action, WarnAction::Suspend { subject_id: 2, .. }));
    let (_, action) = warn(&mut ledger, 1, "alice", "f", 105);
    assert!(matches!(action, WarnAction::Suspend { subject_id: 1, .. }));
}

#[test]
fn unconfirmed_punishment_still_confirms_the_warning() {
    let mut ledger = Ledger::new();
    for n in 0..2 {
        warn(&mut ledger, 1, "alice", "again", 100 + n);
    }
    let (flow, action) = warn(&mut ledger, 1, "alice", "insults", 300);
    assert_eq!(
        reply_after(flow, action, false),
        "Warned alice for: insults\n⚠️ Auto-mute for 10 minutes attempted but not confirmed (3 warnings)."
    );
    assert_eq!(ledger.count_for(1), 3);
    warn(&mut ledger, 1, "alice", "again", 400);
    let (flow, action) = warn(&mut ledger, 1, "alice", "ads", 500);
    assert_eq!(
        reply_after(flow, action, false),
        "Warned alice for: ads\n🚫 Auto-ban attempted but not confirmed (5 warnings)."
    );
}

#[test]
fn empty_reason_is_rejected_and_nothing_is_recorded() {
    let mut ledger = Ledger::new();
    let config = AuditConfig { log_destination: None };
    let refused =
        run_warn(&interaction("warn", vec![user(1, "alice"), reason("")]), &mut ledger, at(1), &config);
    assert_eq!(refused.unwrap_err(), ModerationError::Validation);
    assert_eq!(ledger.len(), 0);
    assert_eq!(ledger.count_for(1), 0);
    assert_eq!(ledger.next_id(), 1);
}

#[test]
fn missing_input_is_rejected() {
    let mut ledger = Ledger::new();
    let config = AuditConfig { log_destination: None };
    let no_user = run_warn(&interaction("warn", vec![reason("spam")]), &mut ledger, at(1), &config);
    assert_eq!(no_user.unwrap_err(), ModerationError::Validation);
    let no_reason =
        run_warn(&interaction("warn", vec![user(1, "alice")]), &mut ledger, at(1), &config);
    assert_eq!(no_reason.unwrap_err(), ModerationError::Validation);
    let mut outside = interaction("warn", vec![user(1, "alice"), reason("spam")]);
    outside.guild_id = None;
    let no_guild = run_warn(&outside, &mut ledger, at(1), &config);
    assert_eq!(no_guild.unwrap_err(), ModerationError::Validation);
    let wrong_kind = run_warn(
        &interaction("warn", vec![user(1, "alice"), CommandOption {
            name: "reason".to_string(),
            value: OptionValue::Other,
        }]),
        &mut ledger,
        at(1),
        &config,
    );
    assert_eq!(wrong_kind.unwrap_err(), ModerationError::Validation);
    assert_eq!(ledger.len(), 0);
}

#[test]
fn full_ledger_is_reported_as_unavailable() {
    let mut ledger = Ledger::restore(Vec::new(), u64::MAX).unwrap();
    let config = AuditConfig { log_destination: None };
    let refused = run_warn(
        &interaction("warn", vec![user(1, "alice"), reason("spam")]),
        &mut ledger,
        at(1),
        &config,
    );
    assert_eq!(refused.unwrap_err(), ModerationError::StoreUnavailable);
    assert_eq!(ledger.len(), 0);
}

#[test]
fn error_messages_are_fixed() {
    assert_eq!(
        ModerationError::Validation.message(),
        "Rejected: the command needs a member and, to warn, a reason that is not empty."
    );
    assert_eq!(
        ModerationError::StoreUnavailable.message(),
        "The warning ledger is unavailable; nothing was recorded."
    );
}

#[test]
fn flow_responds_then_audits_then_finishes() {
    let mut ledger = Ledger::new();
    let (flow, _) = warn(&mut ledger, 1, "alice", "spam", 100);
    let (flow, action) = flow.step(WarnEvent::Responded);
    assert!(matches!(&flow, WarnFlow::Auditing { message } if message == "Warned alice for: spam"));
    assert!(matches!(&action, WarnAction::Audit { destination: LOG_CHANNEL, message }
        if message == "Warned alice for: spam"));
    let (flow, action) = flow.step(WarnEvent::AuditFinished { delivered: true });
    assert!(matches!(&flow, WarnFlow::Finished { message } if message == "Warned alice for: spam"));
    assert!(matches!(action, WarnAction::Finish));
    let (flow, action) = flow.step(WarnEvent::Responded);
    assert!(matches!(flow, WarnFlow::Finished { .. }));
    assert!(matches!(action, WarnAction::Idle));
}

#[test]
fn audit_failure_changes_nothing() {
    let mut delivered = Ledger::new();
    let mut failed = Ledger::new();
    for n in 0..2 {
        warn(&mut delivered, 1, "alice", "again", 100 + n);
        warn(&mut failed, 1, "alice", "again", 100 + n);
    }
    let mut replies = Vec::new();
    for (ledger, arrived) in [(&mut delivered, true), (&mut failed, false)] {
        let (flow, _) = warn(ledger, 1, "alice", "insults", 300);
        let (flow, _) = flow.step(WarnEvent::PunishmentFinished { confirmed: true });
        let (flow, _) = flow.step(WarnEvent::Responded);
        let before = flow.reply();
        let (flow, action) = flow.step(WarnEvent::AuditFinished { delivered: arrived });
        assert!(matches!(action, WarnAction::Finish));
        assert!(matches!(flow, WarnFlow::Finished { .. }));
        assert_eq!(flow.reply(), before);
        replies.push(flow.reply().unwrap());
    }
    assert_eq!(replies[0], replies[1]);
    assert_eq!(replies[0], "Warned alice for: insults\n⚠️ Auto-muted for 10 minutes (3 warnings).");
    assert_eq!(delivered.count_for(1), 3);
    assert_eq!(failed.count_for(1), 3);
}

#[test]
fn without_log_destination_no_audit_is_emitted() {
    let mut ledger = Ledger::new();
    let config = AuditConfig { log_destination: None };
    let started = run_warn(
        &interaction("warn", vec![user(1, "alice"), reason("spam")]),
        &mut ledger,
        at(1),
        &config,
    )
    .unwrap();
    let (flow, action) = started.flow.step(WarnEvent::Responded);
    assert!(matches!(flow, WarnFlow::Finished { .. }));
    assert!(matches!(action, WarnAction::Finish));
}

#[test]
fn unexpected_events_are_ignored() {
    let mut ledger = Ledger::new();
    for n in 0..2 {
        warn(&mut ledger, 1, "alice", "again", 100 + n);
    }
    let (flow, _) = warn(&mut ledger, 1, "alice", "insults", 300);
    let (flow, action) = flow.step(WarnEvent::Responded);
    assert!(matches!(flow, WarnFlow::Punishing { .. }));
    assert!(matches!(action, WarnAction::Idle));
    let (flow, action) = flow.step(WarnEvent::AuditFinished { delivered: false });
    assert!(matches!(flow, WarnFlow::Punishing { .. }));
    assert!(matches!(action, WarnAction::Idle));
    let (flow, _) = flow.step(WarnEvent::PunishmentFinished { confirmed: true });
    let (flow, action) = flow.step(WarnEvent::PunishmentFinished { confirmed: false });
    assert!(matches!(action, WarnAction::Idle));
    assert_eq!(
        flow.reply().unwrap(),
        "Warned alice for: insults\n⚠️ Auto-muted for 10 minutes (3 warnings)."
    );
}

#[test]
fn log_channel_is_the_configured_one() {
    assert_eq!(get_log_channel(&AuditConfig { log_destination: Some(5) }, 1), Some(5));
    assert_eq!(get_log_channel(&AuditConfig { log_destination: Some(5) }, 2), Some(5));
    assert_eq!(get_log_channel(&AuditConfig { log_destination: None }, 1), None);
}

#[test]
fn view_warnings_without_warnings() {
    let ledger = Ledger::new();
    let reply = run_view_warnings(&interaction("warnings", vec![user(1, "alice")]), &ledger);
    assert_eq!(reply.unwrap(), "alice has no warnings.");
}

#[test]
fn view_warnings_lists_in_insertion_order() {
    let mut ledger = Ledger::new();
    warn(&mut ledger, 1, "alice", "spam", 1_700_000_000);
    warn(&mut ledger, 2, "bob", "noise", 1_700_000_030);
    warn(&mut ledger, 1, "alice", "flood", 1_700_000_060);
    let reply = run_view_warnings(&interaction("warnings", vec![user(1, "alice")]), &ledger);
    assert_eq!(
        reply.unwrap(),
        "Warnings for alice:\n• spam at 2023-11-14 22:13:20\n• flood at 2023-11-14 22:14:20"
    );
}

#[test]
fn view_warnings_needs_a_member() {
    let ledger = Ledger::new();
    let reply = run_view_warnings(&interaction("warnings", Vec::new()), &ledger);
    assert_eq!(reply.unwrap_err(), ModerationError::Validation);
}

#[test]
fn clear_warnings_on_nothing_succeeds_with_zero() {
    let mut ledger = Ledger::new();
    let reply =
        run_clear_warnings(&interaction("clearwarnings", vec![user(1, "alice")]), &mut ledger)
            .unwrap();
    assert_eq!(reply.deleted, 0);
    assert_eq!(reply.message, "Cleared all warnings for alice");
}

#[test]
fn clear_warnings_resets_the_escalation() {
    let mut ledger = Ledger::new();
    for n in 0..4 {
        warn(&mut ledger, 1, "alice", "again", 100 + n);
    }
    warn(&mut ledger, 2, "bob", "noise", 200);
    let reply =
        run_clear_warnings(&interaction("clearwarnings", vec![user(1, "alice")]), &mut ledger)
            .unwrap();
    assert_eq!(reply.subject_id, 1);
    assert_eq!(reply.deleted, 4);
    assert_eq!(reply.message, "Cleared all warnings for alice");
    assert_eq!(ledger.count_for(1), 0);
    assert_eq!(ledger.count_for(2), 1);
    let (flow, action) = warn(&mut ledger, 1, "alice", "spam", 300);
    assert_eq!(reply_after(flow, action, true), "Warned alice for: spam");
}

#[test]
fn clear_warnings_needs_a_member() {
    let mut ledger = Ledger::new();
    warn(&mut ledger, 1, "alice", "spam", 100);
    let reply = run_clear_warnings(&interaction("clearwarnings", vec![reason("x")]), &mut ledger);
    assert_eq!(reply.unwrap_err(), ModerationError::Validation);
    assert_eq!(ledger.len(), 1);
}

#[test]
fn history_without_records() {
    assert_eq!(run_history(&Ledger::new()), "No moderation history found.");
}

#[test]
fn history_shows_the_last_ten_latest_first() {
    assert_eq!(HISTORY_LIMIT, 10);
    let mut ledger = Ledger::new();
    for n in 1..=12u64 {
        let mut single = Ledger::new();
        single.insert(n, 77, format!("r{}", n), at(1_700_000_000 + n as i64)).unwrap();
        ledger.insert(n, 77, format!("r{}", n), at(1_700_000_000 + n as i64)).unwrap();
        assert_eq!(
            run_history(&single),
            format!("Recent moderation actions:\n• <@{}>: r{} at 2023-11-14 22:13:{}", n, n, 20 + n)
        );
    }
    let text = run_history(&ledger);
    let lines: Vec<&str> = text.split('\n').collect();
    assert_eq!(lines.len(), 11);
    assert_eq!(lines[0], "Recent moderation actions:");
    assert_eq!(lines[1], "• <@12>: r12 at 2023-11-14 22:13:32");
    assert_eq!(lines[2], "• <@11>: r11 at 2023-11-14 22:13:31");
    assert_eq!(lines[10], "• <@3>: r3 at 2023-11-14 22:13:23");
}

#[test]
fn message_building_blocks() {
    assert_eq!(warn_confirmation("alice", "spam"), "Warned alice for: spam");
    assert_eq!(cleared_message("bob"), "Cleared all warnings for bob");
    assert_eq!(warnings_message("bob", &Vec::new()), "bob has no warnings.");
    assert_eq!(history_message(&Vec::new()), "No moderation history found.");
    assert_eq!(punishment_line(EscalationDecision::NoAction, ActionOutcome::Applied), None);
    assert_eq!(punishment_line(EscalationDecision::PermanentRemoval, ActionOutcome::Skipped), None);
    assert_eq!(
        punishment_line(
            EscalationDecision::TemporarySuspension { minutes: 10 },
            ActionOutcome::Applied
        ),
        Some("⚠️ Auto-muted for 10 minutes (3 warnings).".to_string())
    );
    assert_eq!(
        warn_message("Warned a for: b", EscalationDecision::PermanentRemoval, ActionOutcome::Applied),
        "Warned a for: b\n🚫 Auto-banned after 5 warnings."
    );
    assert_eq!(
        warn_message("Warned a for: b", EscalationDecision::NoAction, ActionOutcome::Skipped),
        "Warned a for: b"
    );
}

#[test]
fn outcomes_follow_the_decision() {
    assert_eq!(outcome_of(EscalationDecision::NoAction, true), ActionOutcome::Skipped);
    assert_eq!(outcome_of(EscalationDecision::NoAction, false), ActionOutcome::Skipped);
    assert_eq!(outcome_of(EscalationDecision::PermanentRemoval, true), ActionOutcome::Applied);
    assert_eq!(outcome_of(EscalationDecision::PermanentRemoval, false), ActionOutcome::Degraded);
    assert_eq!(
        outcome_of(EscalationDecision::TemporarySuspension { minutes: 10 }, false),
        ActionOutcome::Degraded
    );
}

#[test]
fn options_are_found_by_their_first_name() {
    let options = vec![
        reason("first"),
        user(1, "alice"),
        reason("second"),
        CommandOption { name: "user".to_string(), value: OptionValue::Other },
    ];
    assert_eq!(text_option(&options, "reason"), Some("first".to_string()));
    let found = user_option(&options, "user").unwrap();
    assert_eq!((found.id, found.name.as_str()), (1, "alice"));
    assert!(text_option(&options, "user").is_none());
    assert!(user_option(&options, "reason").is_none());
    assert!(user_option(&options, "member").is_none());
    let shadowed = vec![
        CommandOption { name: "user".to_string(), value: OptionValue::Other },
        user(1, "alice"),
    ];
    assert!(user_option(&shadowed, "user").is_none());
}

#[test]
fn mock_ban_teases_the_sender() {
    assert_eq!(
        run_moderation_cmd1(&interaction("moderation_cmd1", Vec::new())),
        "Banning user... just kidding, mod 😄"
    );
}
