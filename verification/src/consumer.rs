//! The stream consumer: it connects to the broker, makes sure of its consumer
//! group, and then polls. Each entry of a poll is forwarded where it yields a
//! message, and acknowledged either way, in the order the broker returned
//! them.
//!
//! The consumer is a state machine. In every state it has exactly one
//! outstanding command. Whoever drives it performs that command and reports
//! the event that answers it; an event that does not answer the outstanding
//! command changes nothing.

use vstd::prelude::*;
use vstd::string::*;
use crate::broker::open_client;
use crate::broker::url_accepted;
use crate::config::Config;
use crate::config::ConfigView;
use crate::message::message_of;
use crate::message::parse_entry;
use crate::message::MessageView;
use crate::message::StreamEntry;
use crate::message::StreamEntryView;
use crate::message::VerificationMessage;
use crate::notice::Notice;
use crate::text::decimal;
use crate::text::decimal_string;

verus! {

/// How long the consumer rests between two polls, in milliseconds.
pub const POLL_INTERVAL_MILLIS: u64 = 100;

/// The code with which the process ends once the consumer has stopped.
pub const EXIT_CODE: i32 = -1;

/// What the consumer is waiting for.
#[derive(Clone, Copy, Debug, PartialEq, Eq, Structural)]
pub enum ConsumerPhase {
    /// For the connection to the broker.
    Connecting,
    /// For the broker's answer to the creation of the consumer group.
    CreatingGroup,
    /// For the entries of the next poll.
    Polling,
    /// For the hand-off to take the message of the current entry.
    Forwarding,
    /// For the broker's answer to the acknowledgment of the current entry.
    Acking,
    /// For the rest between two polls to pass.
    Sleeping,
    /// For nothing: a fatal failure has ended the consumer.
    Stopped,
}

/// What the outside reports back to the consumer.
#[derive(Debug)]
pub enum ConsumerEvent {
    Connected,
    ConnectFailed,
    GroupCreated,
    GroupCreateFailed,
    /// A poll returned these entries, in this order.
    Polled(Vec<StreamEntry>),
    PollFailed,
    /// The hand-off attempt is over, whether or not the message was taken.
    Forwarded,
    Acked,
    AckFailed,
    Slept,
}

/// An event as plain data.
pub ghost enum ConsumerEventView {
    Connected,
    ConnectFailed,
    GroupCreated,
    GroupCreateFailed,
    Polled(Seq<StreamEntryView>),
    PollFailed,
    Forwarded,
    Acked,
    AckFailed,
    Slept,
}

/// The entries of a batch as plain data.
pub open spec fn entries_view(entries: Seq<StreamEntry>) -> Seq<StreamEntryView> {
    Seq::new(entries.len(), |i: int| entries[i]@)
}

impl View for ConsumerEvent {
    type V = ConsumerEventView;

    open spec fn view(&self) -> ConsumerEventView {
        match self {
            ConsumerEvent::Connected => ConsumerEventView::Connected,
            ConsumerEvent::ConnectFailed => ConsumerEventView::ConnectFailed,
            ConsumerEvent::GroupCreated => ConsumerEventView::GroupCreated,
            ConsumerEvent::GroupCreateFailed => ConsumerEventView::GroupCreateFailed,
            ConsumerEvent::Polled(entries) => ConsumerEventView::Polled(entries_view(entries@)),
            ConsumerEvent::PollFailed => ConsumerEventView::PollFailed,
            ConsumerEvent::Forwarded => ConsumerEventView::Forwarded,
            ConsumerEvent::Acked => ConsumerEventView::Acked,
            ConsumerEvent::AckFailed => ConsumerEventView::AckFailed,
            ConsumerEvent::Slept => ConsumerEventView::Slept,
        }
    }
}

/// What the consumer asks the outside to do.
#[derive(Debug, PartialEq, Eq)]
pub enum ConsumerCommand {
    /// Open a connection to the broker at `url`.
    Connect { url: String },
    /// Create the consumer group `group` on `stream_key`, starting at `start`.
    CreateGroup { stream_key: String, group: String, start: String },
    /// Read from `stream_key` as `consumer` of `group`, from `cursor` on.
    Poll { stream_key: String, group: String, consumer: String, cursor: String },
    /// Hand the message to the dispatcher, waiting while the hand-off is full.
    Forward(VerificationMessage),
    /// Acknowledge the entry `id` of `stream_key` for `group`.
    Ack { stream_key: String, group: String, id: String },
    /// Rest for `millis` milliseconds.
    Sleep { millis: u64 },
    /// End the process with `code`.
    Exit { code: i32 },
}

/// A command as plain data.
pub ghost enum ConsumerCommandView {
    Connect { url: Seq<char> },
    CreateGroup { stream_key: Seq<char>, group: Seq<char>, start: Seq<char> },
    Poll { stream_key: Seq<char>, group: Seq<char>, consumer: Seq<char>, cursor: Seq<char> },
    Forward(MessageView),
    Ack { stream_key: Seq<char>, group: Seq<char>, id: Seq<char> },
    Sleep { millis: u64 },
    Exit { code: i32 },
}

impl View for ConsumerCommand {
    type V = ConsumerCommandView;

    open spec fn view(&self) -> ConsumerCommandView {
        match self {
            ConsumerCommand::Connect { url } => ConsumerCommandView::Connect { url: url@ },
            ConsumerCommand::CreateGroup { stream_key, group, start } => {
                ConsumerCommandView::CreateGroup {
                    stream_key: stream_key@,
                    group: group@,
                    start: start@,
                }
            },
            ConsumerCommand::Poll { stream_key, group, consumer, cursor } => {
                ConsumerCommandView::Poll {
                    stream_key: stream_key@,
                    group: group@,
                    consumer: consumer@,
                    cursor: cursor@,
                }
            },
            ConsumerCommand::Forward(msg) => ConsumerCommandView::Forward(msg@),
            ConsumerCommand::Ack { stream_key, group, id } => ConsumerCommandView::Ack {
                stream_key: stream_key@,
                group: group@,
                id: id@,
            },
            ConsumerCommand::Sleep { millis } => ConsumerCommandView::Sleep { millis: *millis },
            ConsumerCommand::Exit { code } => ConsumerCommandView::Exit { code: *code },
        }
    }
}

/// The name under which a process reads from the group: the group's name, a
/// hyphen, and the process id in decimal.
pub open spec fn consumer_name_of(group: Seq<char>, pid: u32) -> Seq<char> {
    group + "-"@ + decimal(pid as nat)
}

/// The consumer identity of the process `pid` within `group`.
pub fn consumer_name(group: &str, pid: u32) -> (r: String)
    ensures
        r@ == consumer_name_of(group@, pid),
{
    let mut name = String::from_str(group);
    name.append("-");
    let digits = decimal_string(pid);
    name.append(digits.as_str());
    name
}

/// The consumer's state as plain data.
pub ghost struct ConsumerView {
    pub config: ConfigView,
    pub consumer: Seq<char>,
    /// Whether a client could be made from the broker's address.
    pub opened: bool,
    pub phase: ConsumerPhase,
    /// The entries of the poll being worked through; empty between polls.
    pub batch: Seq<StreamEntryView>,
    /// The index in `batch` of the current entry.
    pub cursor: int,
}

impl ConsumerView {
    /// Whether the consumer is working on an entry.
    pub open spec fn at_entry(self) -> bool {
        self.phase == ConsumerPhase::Forwarding || self.phase == ConsumerPhase::Acking
    }

    /// The states that a consumer can be in: without a client it has stopped;
    /// while it works on an entry, the entry exists, and it forwards only what
    /// yields a message.
    pub open spec fn wf(self) -> bool {
        &&& !self.opened ==> self.phase == ConsumerPhase::Stopped
        &&& self.at_entry() ==> {
            &&& 0 <= self.cursor < self.batch.len()
            &&& self.phase == ConsumerPhase::Forwarding ==> message_of(self.batch[self.cursor])
                is Some
        }
    }

    /// The state in which the consumer begins: about to connect, where a
    /// client could be made from the broker's address, and stopped where not.
    pub open spec fn initial(config: ConfigView, pid: u32, opened: bool) -> ConsumerView {
        ConsumerView {
            config,
            consumer: consumer_name_of(config.stream_group, pid),
            opened,
            phase: if opened {
                ConsumerPhase::Connecting
            } else {
                ConsumerPhase::Stopped
            },
            batch: Seq::empty(),
            cursor: 0,
        }
    }

    /// What the consumer reports as it begins.
    pub open spec fn initial_notices(opened: bool) -> Seq<Notice> {
        if opened {
            Seq::empty()
        } else {
            seq![Notice::UrlRefused]
        }
    }

    /// The state in which the consumer takes up entry `index` of its batch:
    /// forwarding where the entry yields a message, acknowledging at once
    /// where it does not, and resting where the batch has no such entry.
    pub open spec fn turned_to(self, index: int) -> ConsumerView {
        if 0 <= index < self.batch.len() {
            ConsumerView {
                phase: if message_of(self.batch[index]) is Some {
                    ConsumerPhase::Forwarding
                } else {
                    ConsumerPhase::Acking
                },
                cursor: index,
                ..self
            }
        } else {
            ConsumerView { phase: ConsumerPhase::Sleeping, batch: Seq::empty(), cursor: 0, ..self }
        }
    }

    /// Whether `event` answers the outstanding command.
    pub open spec fn answered_by(self, event: ConsumerEventView) -> bool {
        match self.phase {
            ConsumerPhase::Connecting => event is Connected || event is ConnectFailed,
            ConsumerPhase::CreatingGroup => event is GroupCreated || event is GroupCreateFailed,
            ConsumerPhase::Polling => event is Polled || event is PollFailed,
            ConsumerPhase::Forwarding => event is Forwarded,
            ConsumerPhase::Acking => event is Acked || event is AckFailed,
            ConsumerPhase::Sleeping => event is Slept,
            ConsumerPhase::Stopped => false,
        }
    }

    /// The state after `event`.
    pub open spec fn step(self, event: ConsumerEventView) -> ConsumerView {
        if !self.answered_by(event) {
            self
        } else {
            match event {
                ConsumerEventView::Connected => ConsumerView {
                    phase: ConsumerPhase::CreatingGroup,
                    ..self
                },
                ConsumerEventView::ConnectFailed => ConsumerView {
                    phase: ConsumerPhase::Stopped,
                    ..self
                },
                ConsumerEventView::GroupCreated => ConsumerView {
                    phase: ConsumerPhase::Polling,
                    ..self
                },
                ConsumerEventView::GroupCreateFailed => ConsumerView {
                    phase: ConsumerPhase::Polling,
                    ..self
                },
                ConsumerEventView::Polled(entries) => ConsumerView {
                    batch: entries,
                    ..self
                }.turned_to(0),
                ConsumerEventView::PollFailed => ConsumerView {
                    phase: ConsumerPhase::Stopped,
                    ..self
                },
                ConsumerEventView::Forwarded => ConsumerView {
                    phase: ConsumerPhase::Acking,
                    ..self
                },
                ConsumerEventView::Acked => self.turned_to(self.cursor + 1),
                ConsumerEventView::AckFailed => self.turned_to(self.cursor + 1),
                ConsumerEventView::Slept => ConsumerView {
                    phase: ConsumerPhase::Polling,
                    ..self
                },
            }
        }
    }

    /// What the consumer reports about `event`: first the outcome that the
    /// event brings, then, where the consumer thereby takes up an entry that
    /// yields no message, that this entry is discarded.
    pub open spec fn notices(self, event: ConsumerEventView) -> Seq<Notice> {
        if !self.answered_by(event) {
            Seq::empty()
        } else {
            let outcome = match event {
                ConsumerEventView::ConnectFailed => seq![Notice::ConnectFailed],
                ConsumerEventView::GroupCreateFailed => seq![Notice::GroupExists],
                ConsumerEventView::PollFailed => seq![Notice::ReadFailed],
                ConsumerEventView::AckFailed => seq![Notice::AckFailed],
                _ => Seq::empty(),
            };
            let next = self.step(event);
            if next.phase == ConsumerPhase::Acking && !(self.phase == ConsumerPhase::Forwarding) {
                outcome.push(Notice::EntryUnusable)
            } else {
                outcome
            }
        }
    }

    /// The outstanding command.
    pub open spec fn command(self) -> ConsumerCommandView {
        match self.phase {
            ConsumerPhase::Connecting => ConsumerCommandView::Connect {
                url: self.config.redis_url,
            },
            ConsumerPhase::CreatingGroup => ConsumerCommandView::CreateGroup {
                stream_key: self.config.stream_key,
                group: self.config.stream_group,
                start: "$"@,
            },
            ConsumerPhase::Polling => ConsumerCommandView::Poll {
                stream_key: self.config.stream_key,
                group: self.config.stream_group,
                consumer: self.consumer,
                cursor: ">"@,
            },
            ConsumerPhase::Forwarding => ConsumerCommandView::Forward(
                message_of(self.batch[self.cursor]).unwrap(),
            ),
            ConsumerPhase::Acking => ConsumerCommandView::Ack {
                stream_key: self.config.stream_key,
                group: self.config.stream_group,
                id: self.batch[self.cursor].id,
            },
            ConsumerPhase::Sleeping => ConsumerCommandView::Sleep { millis: POLL_INTERVAL_MILLIS },
            ConsumerPhase::Stopped => ConsumerCommandView::Exit { code: EXIT_CODE },
        }
    }
}

/// The stream consumer of one process.
#[derive(Debug)]
pub struct Consumer {
    config: Config,
    consumer: String,
    opened: Result<redis::Client, redis::RedisError>,
    phase: ConsumerPhase,
    batch: Vec<StreamEntry>,
    cursor: usize,
}

impl View for Consumer {
    type V = ConsumerView;

    closed spec fn view(&self) -> ConsumerView {
        ConsumerView {
            config: self.config@,
            consumer: self.consumer@,
            opened: self.opened is Ok,
            phase: self.phase,
            batch: entries_view(self.batch@),
            cursor: self.cursor as int,
        }
    }
}

impl Consumer {
    #[verifier::type_invariant]
    spec fn valid(&self) -> bool {
        self@.wf()
    }

    /// A consumer for the process `pid`, given what making a client from the
    /// broker's address brought: it is about to connect where there is a
    /// client, and has stopped where there is none.
    pub fn with_client(
        config: Config,
        pid: u32,
        opened: Result<redis::Client, redis::RedisError>,
    ) -> (r: (Consumer, Vec<Notice>))
        ensures
            r.0@ == ConsumerView::initial(config@, pid, opened is Ok),
            r.0@.wf(),
            r.1@ == ConsumerView::initial_notices(opened is Ok),
    {
        let consumer = consumer_name(config.stream_group.as_str(), pid);
        let mut notices: Vec<Notice> = Vec::new();
        let phase = if opened.is_ok() {
            ConsumerPhase::Connecting
        } else {
            notices.push(Notice::UrlRefused);
            ConsumerPhase::Stopped
        };
        let r = Consumer { config, consumer, opened, phase, batch: Vec::new(), cursor: 0 };
        assert(r@.batch =~= Seq::empty());
        assert(notices@ =~= ConsumerView::initial_notices(opened is Ok));
        (r, notices)
    }

    /// A consumer for the process `pid`. It makes its client from the
    /// configured address of the broker.
    pub fn new(config: Config, pid: u32) -> (r: (Consumer, Vec<Notice>))
        ensures
            r.0@ == ConsumerView::initial(config@, pid, url_accepted(config@.redis_url)),
            r.0@.wf(),
            r.1@ == ConsumerView::initial_notices(url_accepted(config@.redis_url)),
    {
        let opened = open_client(config.redis_url.as_str());
        Consumer::with_client(config, pid, opened)
    }

    /// The client that connections to the broker are opened with.
    pub fn client(&self) -> (r: Option<&redis::Client>)
        ensures
            r is Some <==> self@.opened,
    {
        match &self.opened {
            Ok(client) => Some(client),
            Err(_) => None,
        }
    }

    /// Why no client could be made from the broker's address.
    pub fn refusal(&self) -> (r: Option<&redis::RedisError>)
        ensures
            r is Some <==> !self@.opened,
    {
        match &self.opened {
            Ok(_) => None,
            Err(err) => Some(err),
        }
    }

    /// What the consumer is waiting for.
    pub fn phase(&self) -> (r: ConsumerPhase)
        ensures
            r == self@.phase,
            self@.wf(),
    {
        proof {
            use_type_invariant(self);
        }
        self.phase
    }

    /// The command that the consumer wants performed next.
    pub fn command(&self) -> (r: ConsumerCommand)
        ensures
            r@ == self@.command(),
    {
        proof {
            use_type_invariant(self);
        }
        match self.phase {
            ConsumerPhase::Connecting => ConsumerCommand::Connect {
                url: self.config.redis_url.clone(),
            },
            ConsumerPhase::CreatingGroup => ConsumerCommand::CreateGroup {
                stream_key: self.config.stream_key.clone(),
                group: self.config.stream_group.clone(),
                start: String::from_str("$"),
            },
            ConsumerPhase::Polling => ConsumerCommand::Poll {
                stream_key: self.config.stream_key.clone(),
                group: self.config.stream_group.clone(),
                consumer: self.consumer.clone(),
                cursor: String::from_str(">"),
            },
            ConsumerPhase::Forwarding => ConsumerCommand::Forward(
                parse_entry(&self.batch[self.cursor]).unwrap(),
            ),
            ConsumerPhase::Acking => ConsumerCommand::Ack {
                stream_key: self.config.stream_key.clone(),
                group: self.config.stream_group.clone(),
                id: self.batch[self.cursor].id.clone(),
            },
            ConsumerPhase::Sleeping => ConsumerCommand::Sleep { millis: POLL_INTERVAL_MILLIS },
            ConsumerPhase::Stopped => ConsumerCommand::Exit { code: EXIT_CODE },
        }
    }

    /// Takes up entry `index` of the batch, or rests where there is none.
    fn turn_to(&mut self, index: usize, notices: &mut Vec<Notice>)
        requires
            old(self)@.phase == ConsumerPhase::Polling || old(self)@.phase == ConsumerPhase::Acking,
        ensures
            final(self)@ == old(self)@.turned_to(index as int),
            final(notices)@ == if final(self)@.phase == ConsumerPhase::Acking {
                old(notices)@.push(Notice::EntryUnusable)
            } else {
                old(notices)@
            },
    {
        proof {
            use_type_invariant(&*self);
        }
        if index < self.batch.len() {
            self.cursor = index;
            if parse_entry(&self.batch[index]).is_some() {
                self.phase = ConsumerPhase::Forwarding;
            } else {
                self.phase = ConsumerPhase::Acking;
                notices.push(Notice::EntryUnusable);
            }
        } else {
            self.phase = ConsumerPhase::Sleeping;
            self.batch = Vec::new();
            self.cursor = 0;
            assert(self@.batch =~= Seq::empty());
        }
    }

    /// Takes in the event that the outside reports, and returns what there is
    /// to report about it. An event that does not answer the outstanding
    /// command leaves the consumer as it was.
    pub fn step(&mut self, event: ConsumerEvent) -> (r: Vec<Notice>)
        ensures
            final(self)@ == old(self)@.step(event@),
            final(self)@.wf(),
            r@ == old(self)@.notices(event@),
    {
        proof {
            use_type_invariant(&*self);
        }
        let mut notices: Vec<Notice> = Vec::new();
        match (self.phase, event) {
            (ConsumerPhase::Connecting, ConsumerEvent::Connected) => {
                self.phase = ConsumerPhase::CreatingGroup;
            },
            (ConsumerPhase::Connecting, ConsumerEvent::ConnectFailed) => {
                self.phase = ConsumerPhase::Stopped;
                notices.push(Notice::ConnectFailed);
            },
            (ConsumerPhase::CreatingGroup, ConsumerEvent::GroupCreated) => {
                self.phase = ConsumerPhase::Polling;
            },
            (ConsumerPhase::CreatingGroup, ConsumerEvent::GroupCreateFailed) => {
                self.phase = ConsumerPhase::Polling;
                notices.push(Notice::GroupExists);
            },
            (ConsumerPhase::Polling, ConsumerEvent::Polled(entries)) => {
                self.batch = entries;
                self.turn_to(0, &mut notices);
            },
            (ConsumerPhase::Polling, ConsumerEvent::PollFailed) => {
                self.phase = ConsumerPhase::Stopped;
                notices.push(Notice::ReadFailed);
            },
            (ConsumerPhase::Forwarding, ConsumerEvent::Forwarded) => {
                self.phase = ConsumerPhase::Acking;
            },
            (ConsumerPhase::Acking, ConsumerEvent::Acked) => {
                assert(self@.at_entry() && self.cursor < self.batch.len());
                let next: usize = self.cursor + 1;
                self.turn_to(next, &mut notices);
            },
            (ConsumerPhase::Acking, ConsumerEvent::AckFailed) => {
                notices.push(Notice::AckFailed);
                assert(self@.at_entry() && self.cursor < self.batch.len());
                let next: usize = self.cursor + 1;
                self.turn_to(next, &mut notices);
            },
            (ConsumerPhase::Sleeping, ConsumerEvent::Slept) => {
                self.phase = ConsumerPhase::Polling;
            },
            _ => {},
        }
        assert(notices@ =~= old(self)@.notices(event@));
        notices
    }
}

} // verus!
