//! The relay's configuration: loaded once, then shared read-only by both
//! stages, each of which owns its copy.

use vstd::prelude::*;

verus! {

/// Where the broker and the email provider are, and what every email carries.
#[derive(Debug, PartialEq, Eq)]
pub struct Config {
    /// Address of the broker.
    pub redis_url: String,
    /// Key of the stream that the upstream service appends to.
    pub stream_key: String,
    /// Name of the consumer group whose cursor the relay advances.
    pub stream_group: String,
    /// Link that the email's template points the recipient to.
    pub verification_url: String,
    /// Sending domain registered with the provider.
    pub mailgun_domain: String,
    /// Key that authenticates against the provider.
    pub mailgun_api_key: String,
    /// Sender address of every email.
    pub mailgun_from: String,
    /// Subject line of every email.
    pub mailgun_subject: String,
    /// Name of the template registered with the provider.
    pub mailgun_template: String,
}

/// A configuration as plain text values.
pub ghost struct ConfigView {
    pub redis_url: Seq<char>,
    pub stream_key: Seq<char>,
    pub stream_group: Seq<char>,
    pub verification_url: Seq<char>,
    pub mailgun_domain: Seq<char>,
    pub mailgun_api_key: Seq<char>,
    pub mailgun_from: Seq<char>,
    pub mailgun_subject: Seq<char>,
    pub mailgun_template: Seq<char>,
}

impl View for Config {
    type V = ConfigView;

    open spec fn view(&self) -> ConfigView {
        ConfigView {
            redis_url: self.redis_url@,
            stream_key: self.stream_key@,
            stream_group: self.stream_group@,
            verification_url: self.verification_url@,
            mailgun_domain: self.mailgun_domain@,
            mailgun_api_key: self.mailgun_api_key@,
            mailgun_from: self.mailgun_from@,
            mailgun_subject: self.mailgun_subject@,
            mailgun_template: self.mailgun_template@,
        }
    }
}

impl Clone for Config {
    /// An independently owned copy with the same nine values.
    fn clone(&self) -> (r: Self)
        ensures
            r@ == self@,
    {
        Config {
            redis_url: self.redis_url.clone(),
            stream_key: self.stream_key.clone(),
            stream_group: self.stream_group.clone(),
            verification_url: self.verification_url.clone(),
            mailgun_domain: self.mailgun_domain.clone(),
            mailgun_api_key: self.mailgun_api_key.clone(),
            mailgun_from: self.mailgun_from.clone(),
            mailgun_subject: self.mailgun_subject.clone(),
            mailgun_template: self.mailgun_template.clone(),
        }
    }
}

} // verus!
