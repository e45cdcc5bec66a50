//! What the consumer does with a batch, stated over whole runs: whatever the
//! outside reports, and in whatever order, the commands that the consumer
//! issues while it works through a batch are those that the batch calls for,
//! entry by entry.

use vstd::prelude::*;
use crate::config::ConfigView;
use crate::consumer::ConsumerCommandView;
use crate::consumer::ConsumerEventView;
use crate::consumer::ConsumerPhase;
use crate::consumer::ConsumerView;
use crate::consumer::POLL_INTERVAL_MILLIS;
use crate::message::message_of;
use crate::message::StreamEntryView;
use crate::notice::Notice;

verus! {

/// The acknowledgment of an entry.
pub open spec fn ack_of(config: ConfigView, entry: StreamEntryView) -> ConsumerCommandView {
    ConsumerCommandView::Ack {
        stream_key: config.stream_key,
        group: config.stream_group,
        id: entry.id,
    }
}

/// The commands that one entry calls for: its message is forwarded once,
/// where it yields one, and then the entry is acknowledged once.
pub open spec fn entry_plan(config: ConfigView, entry: StreamEntryView) -> Seq<
    ConsumerCommandView,
> {
    match message_of(entry) {
        Some(msg) => seq![ConsumerCommandView::Forward(msg), ack_of(config, entry)],
        None => seq![ack_of(config, entry)],
    }
}

/// The commands that the entries of a batch call for from index `from` on, in
/// the order of the batch, and the rest that follows the last of them.
pub open spec fn batch_plan(config: ConfigView, batch: Seq<StreamEntryView>, from: int) -> Seq<
    ConsumerCommandView,
>
    decreases batch.len() - from,
{
    if 0 <= from < batch.len() {
        entry_plan(config, batch[from]) + batch_plan(config, batch, from + 1)
    } else {
        seq![ConsumerCommandView::Sleep { millis: POLL_INTERVAL_MILLIS }]
    }
}

/// What is left of the batch's plan in a state that works on the batch or
/// rests after it: the outstanding command first.
pub open spec fn remaining_plan(s: ConsumerView) -> Seq<ConsumerCommandView> {
    if s.phase == ConsumerPhase::Forwarding {
        batch_plan(s.config, s.batch, s.cursor)
    } else if s.phase == ConsumerPhase::Acking {
        seq![ack_of(s.config, s.batch[s.cursor])] + batch_plan(s.config, s.batch, s.cursor + 1)
    } else {
        seq![ConsumerCommandView::Sleep { millis: POLL_INTERVAL_MILLIS }]
    }
}

/// The commands that the consumer issues on a run of events: the command
/// outstanding at the start, and after each event that answers the outstanding
/// command the one that is outstanding then.
pub open spec fn issued(s: ConsumerView, events: Seq<ConsumerEventView>) -> Seq<
    ConsumerCommandView,
>
    decreases events.len(),
{
    if events.len() == 0 {
        seq![s.command()]
    } else if s.answered_by(events[0]) {
        seq![s.command()] + issued(s.step(events[0]), events.drop_first())
    } else {
        issued(s, events.drop_first())
    }
}

/// Every step leads from a state that a consumer can be in to another.
pub proof fn lemma_step_keeps_wf(s: ConsumerView, event: ConsumerEventView)
    requires
        s.wf(),
    ensures
        s.step(event).wf(),
{
}

/// An event that does not answer the outstanding command changes nothing and
/// is not reported.
pub proof fn lemma_unanswering_event_is_ignored(s: ConsumerView, event: ConsumerEventView)
    requires
        !s.answered_by(event),
    ensures
        s.step(event) == s,
        s.notices(event) == Seq::<Notice>::empty(),
{
}

/// The plan of a state at an entry, or resting, begins with the state's
/// outstanding command.
pub proof fn lemma_plan_begins_with_command(s: ConsumerView)
    requires
        s.wf(),
        s.at_entry() || s.phase == ConsumerPhase::Sleeping,
    ensures
        remaining_plan(s).len() >= 1,
        remaining_plan(s)[0] == s.command(),
{
    reveal_with_fuel(batch_plan, 2);
}

/// Answering the outstanding command of a state at an entry takes the first
/// command off the plan, and nothing else.
pub proof fn lemma_plan_advances(s: ConsumerView, event: ConsumerEventView)
    requires
        s.wf(),
        s.at_entry(),
        s.answered_by(event),
    ensures
        s.step(event).at_entry() || s.step(event).phase == ConsumerPhase::Sleeping,
        remaining_plan(s) == seq![s.command()] + remaining_plan(s.step(event)),
{
    reveal_with_fuel(batch_plan, 2);
    assert(remaining_plan(s) =~= seq![s.command()] + remaining_plan(s.step(event)));
}

/// From a state at an entry, or resting after a batch, the commands issued
/// on any run of events follow the plan of the batch for as long as the plan
/// lasts: every entry from the current one on is forwarded once where it
/// yields a message and never where it does not, then acknowledged once, in
/// the order of the batch, with the acknowledgment never before the forward.
pub proof fn lemma_run_follows_plan(s: ConsumerView, events: Seq<ConsumerEventView>, k: int)
    requires
        s.wf(),
        s.at_entry() || s.phase == ConsumerPhase::Sleeping,
        0 <= k < issued(s, events).len(),
        k < remaining_plan(s).len(),
    ensures
        issued(s, events)[k] == remaining_plan(s)[k],
    decreases events.len(),
{
    lemma_plan_begins_with_command(s);
    if events.len() == 0 {
    } else if s.answered_by(events[0]) {
        if k > 0 {
            if s.at_entry() {
                lemma_plan_advances(s, events[0]);
                lemma_step_keeps_wf(s, events[0]);
                lemma_run_follows_plan(s.step(events[0]), events.drop_first(), k - 1);
            } else {
                reveal_with_fuel(batch_plan, 2);
                assert(remaining_plan(s).len() == 1);
            }
        }
    } else {
        lemma_run_follows_plan(s, events.drop_first(), k);
    }
}

/// A poll that returns a batch starts the batch's plan at its first entry.
pub proof fn lemma_poll_starts_plan(s: ConsumerView, batch: Seq<StreamEntryView>)
    requires
        s.wf(),
        s.phase == ConsumerPhase::Polling,
    ensures
        ({
            let next = s.step(ConsumerEventView::Polled(batch));
            &&& next.wf()
            &&& next.at_entry() || next.phase == ConsumerPhase::Sleeping
            &&& next.config == s.config
            &&& remaining_plan(next) == batch_plan(s.config, batch, 0)
        }),
{
    reveal_with_fuel(batch_plan, 2);
    let next = s.step(ConsumerEventView::Polled(batch));
    if batch.len() > 0 {
        if message_of(batch[0]) is None {
            assert(remaining_plan(next) =~= batch_plan(s.config, batch, 0));
        }
    }
}

} // verus!
