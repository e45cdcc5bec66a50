//! What a stage reports about an outcome, and how severe it is.

use vstd::prelude::*;

verus! {

/// How much attention a notice asks for.
#[derive(Clone, Copy, Debug, PartialEq, Eq, Structural)]
pub enum Level {
    Info,
    Warn,
    Error,
}

/// An outcome worth reporting. None of them is retried: each is final for the
/// entry or message that it concerns.
#[derive(Clone, Copy, Debug, PartialEq, Eq, Structural)]
pub enum Notice {
    /// The broker's address makes no sense: the consumer stops.
    UrlRefused,
    /// The broker could not be reached: the consumer stops.
    ConnectFailed,
    /// The consumer group was not created, as it is when it already exists.
    GroupExists,
    /// Polling the stream failed: the consumer stops.
    ReadFailed,
    /// An entry lacks a readable `email` or `verification_hash`: it is
    /// discarded.
    EntryUnusable,
    /// The broker did not take an acknowledgment.
    AckFailed,
    /// The dispatcher could not take a message from the hand-off.
    ReceiveFailed,
    /// The provider accepted an email.
    Delivered,
    /// The provider answered with a status other than success.
    Rejected { status: u16 },
    /// No answer was obtained from the provider.
    SendFailed,
}

impl Notice {
    /// The level at which a notice is reported.
    pub open spec fn level_of(self) -> Level {
        match self {
            Notice::Delivered => Level::Info,
            Notice::GroupExists | Notice::EntryUnusable | Notice::AckFailed => Level::Warn,
            Notice::UrlRefused
            | Notice::ConnectFailed
            | Notice::ReadFailed
            | Notice::ReceiveFailed
            | Notice::Rejected { .. }
            | Notice::SendFailed => Level::Error,
        }
    }

    /// Whether the stage that reports the notice stops on it.
    pub open spec fn is_fatal(self) -> bool {
        self == Notice::UrlRefused || self == Notice::ConnectFailed || self == Notice::ReadFailed
    }

    /// The level at which the notice is reported.
    pub fn level(&self) -> (r: Level)
        ensures
            r == self.level_of(),
    {
        match self {
            Notice::Delivered => Level::Info,
            Notice::GroupExists => Level::Warn,
            Notice::EntryUnusable => Level::Warn,
            Notice::AckFailed => Level::Warn,
            Notice::UrlRefused => Level::Error,
            Notice::ConnectFailed => Level::Error,
            Notice::ReadFailed => Level::Error,
            Notice::ReceiveFailed => Level::Error,
            Notice::Rejected { .. } => Level::Error,
            Notice::SendFailed => Level::Error,
        }
    }

    /// Whether the process ends on this notice.
    pub fn fatal(&self) -> (r: bool)
        ensures
            r == self.is_fatal(),
    {
        match self {
            Notice::UrlRefused => true,
            Notice::ConnectFailed => true,
            Notice::ReadFailed => true,
            _ => false,
        }
    }
}

} // verus!
