//! The email dispatcher: it takes one message at a time from the hand-off,
//! posts one request for it, and reports how that went. Whatever the answer,
//! the message is done with: nothing is sent twice.
//!
//! Like the consumer, the dispatcher is a state machine with one outstanding
//! command per state, and an event that does not answer that command changes
//! nothing.

use vstd::prelude::*;
use crate::config::Config;
use crate::config::ConfigView;
use crate::message::MessageView;
use crate::message::VerificationMessage;
use crate::notice::Notice;
use crate::request::render_request;
use crate::request::request_of;
use crate::request::SendRequest;
use crate::request::SendRequestView;
use crate::request::STATUS_OK;

verus! {

/// What the outside reports back to the dispatcher.
#[derive(Debug)]
pub enum DispatcherEvent {
    /// The hand-off gave out this message.
    Received(VerificationMessage),
    /// The hand-off gave out nothing, as it does once it is closed.
    ReceiveFailed,
    /// The provider answered the request with this status.
    Responded { status: u16 },
    /// The request brought no answer.
    SendFailed,
}

/// An event as plain data.
pub ghost enum DispatcherEventView {
    Received(MessageView),
    ReceiveFailed,
    Responded { status: u16 },
    SendFailed,
}

impl View for DispatcherEvent {
    type V = DispatcherEventView;

    open spec fn view(&self) -> DispatcherEventView {
        match self {
            DispatcherEvent::Received(msg) => DispatcherEventView::Received(msg@),
            DispatcherEvent::ReceiveFailed => DispatcherEventView::ReceiveFailed,
            DispatcherEvent::Responded { status } => DispatcherEventView::Responded {
                status: *status,
            },
            DispatcherEvent::SendFailed => DispatcherEventView::SendFailed,
        }
    }
}

/// What the dispatcher asks the outside to do.
#[derive(Debug, PartialEq, Eq)]
pub enum DispatcherCommand {
    /// Wait for the next message of the hand-off.
    Receive,
    /// Post this request to the provider, once.
    Post(SendRequest),
}

/// A command as plain data.
pub ghost enum DispatcherCommandView {
    Receive,
    Post(SendRequestView),
}

impl View for DispatcherCommand {
    type V = DispatcherCommandView;

    open spec fn view(&self) -> DispatcherCommandView {
        match self {
            DispatcherCommand::Receive => DispatcherCommandView::Receive,
            DispatcherCommand::Post(request) => DispatcherCommandView::Post(request@),
        }
    }
}

/// What the provider's answer to a request means.
pub open spec fn outcome_of(status: u16) -> Notice {
    if status == STATUS_OK {
        Notice::Delivered
    } else {
        Notice::Rejected { status }
    }
}

/// The dispatcher's state as plain data.
pub ghost struct DispatcherView {
    pub config: ConfigView,
    /// The message whose request is under way, if any.
    pub pending: Option<MessageView>,
}

impl DispatcherView {
    /// The state in which the dispatcher begins: waiting for a message.
    pub open spec fn initial(config: ConfigView) -> DispatcherView {
        DispatcherView { config, pending: None }
    }

    /// Whether `event` answers the outstanding command.
    pub open spec fn answered_by(self, event: DispatcherEventView) -> bool {
        if self.pending is Some {
            event is Responded || event is SendFailed
        } else {
            event is Received || event is ReceiveFailed
        }
    }

    /// The state after `event`.
    pub open spec fn step(self, event: DispatcherEventView) -> DispatcherView {
        if !self.answered_by(event) {
            self
        } else {
            match event {
                DispatcherEventView::Received(msg) => DispatcherView { pending: Some(msg), ..self },
                _ => DispatcherView { pending: None, ..self },
            }
        }
    }

    /// What the dispatcher reports about `event`.
    pub open spec fn notices(self, event: DispatcherEventView) -> Seq<Notice> {
        if !self.answered_by(event) {
            Seq::empty()
        } else {
            match event {
                DispatcherEventView::Received(_) => Seq::empty(),
                DispatcherEventView::ReceiveFailed => seq![Notice::ReceiveFailed],
                DispatcherEventView::Responded { status } => seq![outcome_of(status)],
                DispatcherEventView::SendFailed => seq![Notice::SendFailed],
            }
        }
    }

    /// The outstanding command.
    pub open spec fn command(self) -> DispatcherCommandView {
        match self.pending {
            Some(msg) => DispatcherCommandView::Post(request_of(self.config, msg)),
            None => DispatcherCommandView::Receive,
        }
    }
}

/// The email dispatcher of one process.
#[derive(Debug)]
pub struct Dispatcher {
    config: Config,
    pending: Option<VerificationMessage>,
}

impl View for Dispatcher {
    type V = DispatcherView;

    closed spec fn view(&self) -> DispatcherView {
        DispatcherView {
            config: self.config@,
            pending: match self.pending {
                Some(msg) => Some(msg@),
                None => None,
            },
        }
    }
}

impl Dispatcher {
    /// A dispatcher that waits for its first message.
    pub fn new(config: Config) -> (r: Dispatcher)
        ensures
            r@ == DispatcherView::initial(config@),
    {
        Dispatcher { config, pending: None }
    }

    /// Whether a request is under way.
    pub fn is_sending(&self) -> (r: bool)
        ensures
            r == self@.pending is Some,
    {
        self.pending.is_some()
    }

    /// The command that the dispatcher wants performed next.
    pub fn command(&self) -> (r: DispatcherCommand)
        ensures
            r@ == self@.command(),
    {
        match &self.pending {
            Some(msg) => DispatcherCommand::Post(render_request(&self.config, msg)),
            None => DispatcherCommand::Receive,
        }
    }

    /// Takes in the event that the outside reports, and returns what there is
    /// to report about it. An event that does not answer the outstanding
    /// command leaves the dispatcher as it was.
    pub fn step(&mut self, event: DispatcherEvent) -> (r: Vec<Notice>)
        ensures
            final(self)@ == old(self)@.step(event@),
            r@ == old(self)@.notices(event@),
    {
        let mut notices: Vec<Notice> = Vec::new();
        let sending = self.pending.is_some();
        match event {
            DispatcherEvent::Received(msg) => {
                if !sending {
                    self.pending = Some(msg);
                }
            },
            DispatcherEvent::ReceiveFailed => {
                if !sending {
                    notices.push(Notice::ReceiveFailed);
                }
            },
            DispatcherEvent::Responded { status } => {
                if sending {
                    self.pending = None;
                    if status == STATUS_OK {
                        notices.push(Notice::Delivered);
                    } else {
                        notices.push(Notice::Rejected { status });
                    }
                }
            },
            DispatcherEvent::SendFailed => {
                if sending {
                    self.pending = None;
                    notices.push(Notice::SendFailed);
                }
            },
        }
        assert(notices@ =~= old(self)@.notices(event@));
        notices
    }
}

/// The messages that the dispatcher takes in on a run of events, in the order
/// it takes them.
pub open spec fn received(s: DispatcherView, events: Seq<DispatcherEventView>) -> Seq<MessageView>
    decreases events.len(),
{
    if events.len() == 0 {
        Seq::empty()
    } else {
        let rest = received(s.step(events[0]), events.drop_first());
        match events[0] {
            DispatcherEventView::Received(msg) => if s.answered_by(events[0]) {
                seq![msg] + rest
            } else {
                rest
            },
            _ => rest,
        }
    }
}

/// The requests that the dispatcher asks to be posted on a run of events, in
/// the order it asks: after each event that answers the outstanding command,
/// the request of the command that is outstanding then, if that is a post.
pub open spec fn posted(s: DispatcherView, events: Seq<DispatcherEventView>) -> Seq<
    SendRequestView,
>
    decreases events.len(),
{
    if events.len() == 0 {
        Seq::empty()
    } else {
        let next = s.step(events[0]);
        let rest = posted(next, events.drop_first());
        match next.command() {
            DispatcherCommandView::Post(request) => if s.answered_by(events[0]) {
                seq![request] + rest
            } else {
                rest
            },
            DispatcherCommandView::Receive => rest,
        }
    }
}

/// Once a request is answered, whatever the answer, the dispatcher waits for
/// the next message: the status is reported, and nothing is sent again.
pub proof fn lemma_answer_ends_message(s: DispatcherView, event: DispatcherEventView)
    requires
        s.pending is Some,
        s.answered_by(event),
    ensures
        s.step(event).command() == DispatcherCommandView::Receive,
        s.notices(event).len() == 1,
        event == (DispatcherEventView::Responded { status: STATUS_OK }) <==> s.notices(event)[0]
            == Notice::Delivered,
        !(s.notices(event)[0] == Notice::Delivered) ==> s.notices(event)[0].level_of()
            == crate::notice::Level::Error,
{
}

/// On any run of events the dispatcher asks for exactly one post per message
/// that it takes in, in the same order, and each is the request of that
/// message: no message is skipped and none is sent twice, whatever the
/// provider answers.
pub proof fn lemma_one_post_per_message(s: DispatcherView, events: Seq<DispatcherEventView>)
    ensures
        posted(s, events).len() == received(s, events).len(),
        forall|i: int|
            0 <= i < posted(s, events).len() ==> #[trigger] posted(s, events)[i] == request_of(
                s.config,
                received(s, events)[i],
            ),
    decreases events.len(),
{
    if events.len() > 0 {
        lemma_one_post_per_message(s.step(events[0]), events.drop_first());
    }
}

} // verus!
