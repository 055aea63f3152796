//! What holds of the ledger, the escalation policy and the warn flow, whatever
//! the records and inputs.

use crate::ledger::{
    count_of, entries_of, entry_of, history_entries, history_of, most_recent, records_except,
    records_of, well_ordered, with_warning, RecordView,
};
use crate::messages::{warn_text, warnings_text, ActionOutcome};
use crate::moderation::{
    first_step, next_step, reply_of, WarnActionView, WarnEvent, WarnFlowView,
};
use crate::policy::{decision_for, EscalationDecision};
use crate::text::{decimal_text, digit_char, parsed_decimal};
use vstd::prelude::*;

verus! {

/// A warning to record: who issued it, why, and when it arrives.
pub struct Warning {
    pub moderator_id: u64,
    pub reason: Seq<char>,
    pub now: i64,
}

/// The records of a ledger that held `records`, with `next_id` as its next
/// identifier, after it has taken `warnings` of `subject_id` one after another.
pub open spec fn after_warnings(
    records: Seq<RecordView>,
    next_id: u64,
    subject_id: u64,
    warnings: Seq<Warning>,
) -> Seq<RecordView>
    decreases warnings.len(),
{
    if warnings.len() == 0 {
        records
    } else {
        with_warning(
            after_warnings(records, next_id, subject_id, warnings.drop_last()),
            (next_id + warnings.len() - 1) as u64,
            subject_id,
            warnings.last().moderator_id,
            warnings.last().reason,
            warnings.last().now,
        )
    }
}

/// Recording a warning raises the count of the warned member by one and leaves
/// the count of every other member as it was.
pub proof fn warning_counts_once(
    records: Seq<RecordView>,
    next_id: u64,
    subject_id: u64,
    moderator_id: u64,
    reason: Seq<char>,
    now: i64,
    other_id: u64,
)
    ensures
        count_of(with_warning(records, next_id, subject_id, moderator_id, reason, now), subject_id)
            == count_of(records, subject_id) + 1,
        other_id != subject_id ==> count_of(
            with_warning(records, next_id, subject_id, moderator_id, reason, now),
            other_id,
        ) == count_of(records, other_id),
{
    let added = with_warning(records, next_id, subject_id, moderator_id, reason, now).last();
    records.lemma_filter_push(added, |r: RecordView| r.subject_id == subject_id);
    records.lemma_filter_push(added, |r: RecordView| r.subject_id == other_id);
}

/// After N warnings of a member have been recorded, the member's count is N
/// more than before; in a ledger that was empty, it is N.
pub proof fn count_after_warnings(
    records: Seq<RecordView>,
    next_id: u64,
    subject_id: u64,
    warnings: Seq<Warning>,
)
    ensures
        count_of(after_warnings(records, next_id, subject_id, warnings), subject_id) == count_of(
            records,
            subject_id,
        ) + warnings.len(),
        records.len() == 0 ==> count_of(
            after_warnings(records, next_id, subject_id, warnings),
            subject_id,
        ) == warnings.len(),
    decreases warnings.len(),
{
    if warnings.len() > 0 {
        count_after_warnings(records, next_id, subject_id, warnings.drop_last());
        warning_counts_once(
            after_warnings(records, next_id, subject_id, warnings.drop_last()),
            (next_id + warnings.len() - 1) as u64,
            subject_id,
            warnings.last().moderator_id,
            warnings.last().reason,
            warnings.last().now,
            subject_id,
        );
    }
    if records.len() == 0 {
        reveal(Seq::filter);
        assert(count_of(records, subject_id) == 0);
    }
}

/// Recording a warning keeps the ledger's order, as long as an identifier is
/// left and the reason is not empty.
pub proof fn warning_keeps_order(
    records: Seq<RecordView>,
    next_id: u64,
    subject_id: u64,
    moderator_id: u64,
    reason: Seq<char>,
    now: i64,
)
    requires
        well_ordered(records, next_id),
        next_id < u64::MAX,
        reason.len() > 0,
    ensures
        well_ordered(
            with_warning(records, next_id, subject_id, moderator_id, reason, now),
            (next_id + 1) as u64,
        ),
{
}

/// The policy's thresholds: a count of 3 suspends for 10 minutes, a count of 5
/// or more removes, every other count does nothing.
pub proof fn escalation_thresholds(count: nat)
    ensures
        count == 3 ==> decision_for(count) == (EscalationDecision::TemporarySuspension {
            minutes: 10,
        }),
        count >= 5 ==> decision_for(count) == EscalationDecision::PermanentRemoval,
        count != 3 && count < 5 ==> decision_for(count) == EscalationDecision::NoAction,
{
}

/// The warning that brings a member's count to 3 suspends the member, and
/// every warning from the fifth on removes the member anew.
pub proof fn warning_escalates(
    records: Seq<RecordView>,
    next_id: u64,
    subject_id: u64,
    moderator_id: u64,
    reason: Seq<char>,
    now: i64,
)
    ensures
        decision_for(
            count_of(with_warning(records, next_id, subject_id, moderator_id, reason, now), subject_id),
        ) == decision_for(count_of(records, subject_id) + 1),
        count_of(records, subject_id) == 2 ==> decision_for(
            count_of(with_warning(records, next_id, subject_id, moderator_id, reason, now), subject_id),
        ) == (EscalationDecision::TemporarySuspension { minutes: 10 }),
        count_of(records, subject_id) >= 4 ==> decision_for(
            count_of(with_warning(records, next_id, subject_id, moderator_id, reason, now), subject_id),
        ) == EscalationDecision::PermanentRemoval,
{
    warning_counts_once(records, next_id, subject_id, moderator_id, reason, now, subject_id);
}

/// What a filter keeps of an ordered ledger is ordered, and was in the ledger.
proof fn filtered_keeps_order(
    records: Seq<RecordView>,
    next_id: u64,
    keep: spec_fn(RecordView) -> bool,
)
    requires
        well_ordered(records, next_id),
    ensures
        well_ordered(records.filter(keep), next_id),
        forall|k: int|
            0 <= k < records.filter(keep).len() ==> records.contains(
                #[trigger] records.filter(keep)[k],
            ),
    decreases records.len(),
{
    reveal(Seq::filter);
    if records.len() > 0 {
        let front = records.drop_last();
        let kept = front.filter(keep);
        assert forall|i: int, j: int| 0 <= i < j < front.len() implies (#[trigger] front[i]).id < (
        #[trigger] front[j]).id && front[i].created_at <= front[j].created_at by {
            assert(front[i] == records[i] && front[j] == records[j]);
        }
        assert forall|i: int| 0 <= i < front.len() implies (#[trigger] front[i]).id < next_id
            && front[i].reason.len() > 0 by {
            assert(front[i] == records[i]);
        }
        filtered_keeps_order(front, next_id, keep);
        assert forall|k: int| 0 <= k < kept.len() implies records.contains(#[trigger] kept[k])
            && kept[k].id < records.last().id && kept[k].created_at
            <= records.last().created_at by {
            assert(front.contains(kept[k]));
            let j = choose|j: int| 0 <= j < front.len() && front[j] == kept[k];
            assert(records[j] == kept[k]);
        }
        if keep(records.last()) {
            let all = kept.push(records.last());
            assert(records.filter(keep) == all);
            assert(records[records.len() - 1] == records.last());
            assert forall|k: int| 0 <= k < all.len() implies records.contains(#[trigger] all[k]) by {
                if k < kept.len() {
                    assert(all[k] == kept[k]);
                }
            }
            assert forall|i: int, j: int| 0 <= i < j < all.len() implies (#[trigger] all[i]).id < (
            #[trigger] all[j]).id && all[i].created_at <= all[j].created_at by {
                assert(all[i] == kept[i]);
                if j < kept.len() {
                    assert(all[j] == kept[j]);
                }
            }
            assert forall|i: int| 0 <= i < all.len() implies (#[trigger] all[i]).id < next_id
                && all[i].reason.len() > 0 by {
                if i < kept.len() {
                    assert(all[i] == kept[i]);
                }
            }
        }
    }
}

/// Clearing a member's warnings leaves the member with none, every other
/// member with as many as before, and the ledger in order; what is deleted and
/// what stays add up to what was there.
pub proof fn clearing_removes_exactly(
    records: Seq<RecordView>,
    next_id: u64,
    subject_id: u64,
    other_id: u64,
)
    ensures
        count_of(records_except(records, subject_id), subject_id) == 0,
        other_id != subject_id ==> records_of(records_except(records, subject_id), other_id)
            == records_of(records, other_id),
        records_except(records, subject_id).len() + count_of(records, subject_id) == records.len(),
        well_ordered(records, next_id) ==> well_ordered(records_except(records, subject_id), next_id),
    decreases records.len(),
{
    reveal(Seq::filter);
    if well_ordered(records, next_id) {
        filtered_keeps_order(records, next_id, |r: RecordView| r.subject_id != subject_id);
    }
    if records.len() > 0 {
        let front = records.drop_last();
        let last = records.last();
        clearing_removes_exactly(front, next_id, subject_id, other_id);
        assert(front.push(last) =~= records);
        front.lemma_filter_push(last, |r: RecordView| r.subject_id != subject_id);
        front.lemma_filter_push(last, |r: RecordView| r.subject_id == subject_id);
        front.lemma_filter_push(last, |r: RecordView| r.subject_id == other_id);
        let stay = records_except(front, subject_id);
        if last.subject_id != subject_id {
            stay.lemma_filter_push(last, |r: RecordView| r.subject_id == subject_id);
            stay.lemma_filter_push(last, |r: RecordView| r.subject_id == other_id);
        }
    }
}

/// Clearing the warnings of a member who has none deletes nothing: the ledger
/// stays as it was.
pub proof fn clearing_nothing(records: Seq<RecordView>, subject_id: u64)
    requires
        count_of(records, subject_id) == 0,
    ensures
        records_except(records, subject_id) == records,
    decreases records.len(),
{
    reveal(Seq::filter);
    if records.len() > 0 {
        let front = records.drop_last();
        let last = records.last();
        assert(front.push(last) =~= records);
        front.lemma_filter_push(last, |r: RecordView| r.subject_id != subject_id);
        front.lemma_filter_push(last, |r: RecordView| r.subject_id == subject_id);
        clearing_nothing(front, subject_id);
    }
}

/// A member without warnings is told so, in the one fixed wording.
pub proof fn no_warnings_message(records: Seq<RecordView>, subject_id: u64, name: Seq<char>)
    requires
        count_of(records, subject_id) == 0,
    ensures
        warnings_text(name, entries_of(records, subject_id)) == name + " has no warnings."@,
{
}

/// A member's warning list shows each of the member's records once, in the
/// order in which they were recorded: identifiers grow along the list, and a
/// warning recorded later comes last.
pub proof fn warnings_in_insertion_order(
    records: Seq<RecordView>,
    next_id: u64,
    subject_id: u64,
    moderator_id: u64,
    reason: Seq<char>,
    now: i64,
)
    requires
        well_ordered(records, next_id),
    ensures
        entries_of(records, subject_id).len() == count_of(records, subject_id),
        forall|k: int|
            0 <= k < count_of(records, subject_id) ==> #[trigger] entries_of(records, subject_id)[k]
                == entry_of(records_of(records, subject_id)[k]),
        well_ordered(records_of(records, subject_id), next_id),
        entries_of(
            with_warning(records, next_id, subject_id, moderator_id, reason, now),
            subject_id,
        ) == entries_of(records, subject_id).push(
            entry_of(with_warning(records, next_id, subject_id, moderator_id, reason, now).last()),
        ),
{
    filtered_keeps_order(records, next_id, |r: RecordView| r.subject_id == subject_id);
    let added = with_warning(records, next_id, subject_id, moderator_id, reason, now).last();
    records.lemma_filter_push(added, |r: RecordView| r.subject_id == subject_id);
    assert(entries_of(
        with_warning(records, next_id, subject_id, moderator_id, reason, now),
        subject_id,
    ) =~= entries_of(records, subject_id).push(entry_of(added)));
}

/// The history holds at most `limit` entries: the last records of the ledger,
/// of whatever member, the latest first.
pub proof fn history_is_recent_first(records: Seq<RecordView>, next_id: u64, limit: nat)
    requires
        well_ordered(records, next_id),
    ensures
        history_entries(records, limit).len() <= limit,
        history_entries(records, limit).len() == if limit < records.len() {
            limit
        } else {
            records.len()
        },
        forall|k: int|
            0 <= k < history_entries(records, limit).len() ==> #[trigger] history_entries(
                records,
                limit,
            )[k] == history_of(records[records.len() - 1 - k]),
        forall|a: int, b: int|
            0 <= a < b < most_recent(records, limit).len() ==> (#[trigger] most_recent(
                records,
                limit,
            )[a]).id > (#[trigger] most_recent(records, limit)[b]).id && most_recent(
                records,
                limit,
            )[a].created_at >= most_recent(records, limit)[b].created_at,
{
    let shown = most_recent(records, limit);
    assert forall|a: int, b: int| 0 <= a < b < shown.len() implies (#[trigger] shown[a]).id > (
    #[trigger] shown[b]).id && shown[a].created_at >= shown[b].created_at by {
        let i = records.len() - 1 - b;
        let j = records.len() - 1 - a;
        assert(shown[a] == records[j] && shown[b] == records[i]);
    }
}

/// A number in decimal notation has at least one character.
proof fn decimal_is_not_empty(n: nat)
    ensures
        decimal_text(n).len() >= 1,
    decreases n,
{
    if n >= 10 {
        decimal_is_not_empty(n / 10);
    }
}

/// Reading what was written gives the number back.
pub proof fn decimal_round_trip(n: nat)
    ensures
        parsed_decimal(decimal_text(n)) == Some(n),
    decreases n,
{
    if n >= 10 {
        let front = decimal_text(n / 10);
        let all = decimal_text(n);
        decimal_is_not_empty(n / 10);
        decimal_round_trip(n / 10);
        assert(all.drop_last() =~= front);
        assert(all.last() == digit_char(n % 10));
    }
}

/// A flow asks for a punishment at its start or never: no event makes it ask
/// for one, so each warning punishes at most once.
pub proof fn punishment_is_asked_once(flow: WarnFlowView, event: WarnEvent)
    ensures
        !(next_step(flow, event).1 is Suspend),
        !(next_step(flow, event).1 is Remove),
{
}

/// A warning is punished exactly where the policy says so: nothing is asked of
/// the moderation surface for a decision to do nothing, a suspension of the
/// decided length for a decision to suspend, a removal for a decision to
/// remove.
pub proof fn punishment_follows_decision(
    confirmation: Seq<char>,
    decision: EscalationDecision,
    guild_id: u64,
    subject_id: u64,
    reason: Seq<char>,
    destination: Option<u64>,
)
    ensures
        decision == EscalationDecision::NoAction ==> first_step(
            confirmation,
            decision,
            guild_id,
            subject_id,
            reason,
            destination,
        ).1 == (WarnActionView::Respond { message: confirmation }),
        decision matches EscalationDecision::TemporarySuspension { minutes } ==> first_step(
            confirmation,
            decision,
            guild_id,
            subject_id,
            reason,
            destination,
        ).1 == (WarnActionView::Suspend { guild_id, subject_id, minutes }),
        decision == EscalationDecision::PermanentRemoval ==> first_step(
            confirmation,
            decision,
            guild_id,
            subject_id,
            reason,
            destination,
        ).1 == (WarnActionView::Remove { guild_id, subject_id, reason }),
{
}

/// Whatever became of the punishment, the reply begins with the confirmation
/// of the warning.
pub proof fn reply_confirms_the_warning(
    confirmation: Seq<char>,
    decision: EscalationDecision,
    outcome: ActionOutcome,
)
    ensures
        confirmation.is_prefix_of(warn_text(confirmation, decision, outcome)),
{
    let reply = warn_text(confirmation, decision, outcome);
    assert(confirmation =~= reply.subrange(0, confirmation.len() as int));
}

/// Whether the audit record arrived changes nothing: the flow goes on the same
/// way, and the reply, once known, stays what it is through every event.
pub proof fn audit_outcome_is_ignored(flow: WarnFlowView, event: WarnEvent)
    ensures
        next_step(flow, WarnEvent::AuditFinished { delivered: true }) == next_step(
            flow,
            WarnEvent::AuditFinished { delivered: false },
        ),
        reply_of(flow) is Some ==> reply_of(next_step(flow, event).0) == reply_of(flow),
{
}

} // verus!
