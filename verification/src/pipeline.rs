//! What holds of an entry on its way through both stages.

use vstd::prelude::*;
use crate::config::ConfigView;
use crate::consumer::ConsumerCommandView;
use crate::consumer::ConsumerEventView;
use crate::consumer::ConsumerPhase;
use crate::consumer::ConsumerView;
use crate::dispatcher::DispatcherCommandView;
use crate::dispatcher::DispatcherEventView;
use crate::dispatcher::DispatcherView;
use crate::message::field_text;
use crate::message::message_of;
use crate::message::MessageView;
use crate::message::StreamEntryView;
use crate::plan::ack_of;
use crate::plan::entry_plan;
use crate::request::request_of;
use crate::request::variables_text;

verus! {

/// An entry whose `email` and `verification_hash` are readable text calls for
/// one forward, of the message with these two texts, and then for one
/// acknowledgment. The dispatcher that takes that message in asks for one
/// post, whose `to` is the entry's address and whose template variables are
/// rendered from the configured link and the entry's token; and whatever
/// answers that post, the dispatcher next waits for another message.
pub proof fn lemma_readable_entry_is_sent_once(
    config: ConfigView,
    entry: StreamEntryView,
    email: Seq<char>,
    hash: Seq<char>,
    answer: DispatcherEventView,
)
    requires
        field_text(entry.map, "email"@) == Some(email),
        field_text(entry.map, "verification_hash"@) == Some(hash),
        answer is Responded || answer is SendFailed,
    ensures
        ({
            let msg = MessageView { email, hash };
            let sending = DispatcherView::initial(config).step(DispatcherEventView::Received(msg));
            let request = request_of(config, msg);
            &&& entry_plan(config, entry) == seq![
                ConsumerCommandView::Forward(msg),
                ack_of(config, entry),
            ]
            &&& sending.command() == DispatcherCommandView::Post(request)
            &&& request.form.len() == 5
            &&& request.form[1] == ("to"@, email)
            &&& request.form[4] == (
                "h:X-Mailgun-Variables"@,
                variables_text(config.verification_url, hash),
            )
            &&& sending.step(answer).command() == DispatcherCommandView::Receive
        }),
{
}

/// An entry that lacks a readable `email` or a readable `verification_hash`
/// calls for its acknowledgment and for nothing else: no message is made of
/// it, so nothing is forwarded and nothing is sent.
pub proof fn lemma_unreadable_entry_is_only_acknowledged(config: ConfigView, entry: StreamEntryView)
    requires
        field_text(entry.map, "email"@) is None || field_text(entry.map, "verification_hash"@)
            is None,
    ensures
        message_of(entry) is None,
        entry_plan(config, entry) == seq![ack_of(config, entry)],
{
}

/// Whether or not the broker created the consumer group, the consumer goes on
/// in the same way: it does not stop, and it polls for new entries only, so
/// it never asks for entries again that the group has been handed before.
pub proof fn lemma_group_creation_may_fail(s: ConsumerView)
    requires
        s.phase == ConsumerPhase::CreatingGroup,
    ensures
        s.step(ConsumerEventView::GroupCreateFailed) == s.step(ConsumerEventView::GroupCreated),
        s.step(ConsumerEventView::GroupCreateFailed).phase == ConsumerPhase::Polling,
        s.step(ConsumerEventView::GroupCreateFailed).command() == (ConsumerCommandView::Poll {
            stream_key: s.config.stream_key,
            group: s.config.stream_group,
            consumer: s.consumer,
            cursor: ">"@,
        }),
{
}

/// The group is created at most once: after the broker's answer the consumer
/// never asks for it again, whatever is reported to it.
pub proof fn lemma_group_is_created_once(s: ConsumerView, event: ConsumerEventView)
    requires
        !(s.phase == ConsumerPhase::Connecting),
        !(s.phase == ConsumerPhase::CreatingGroup),
    ensures
        !(s.step(event).phase == ConsumerPhase::Connecting),
        !(s.step(event).phase == ConsumerPhase::CreatingGroup),
        !(s.step(event).command() is CreateGroup),
{
}

} // verus!
