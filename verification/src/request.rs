//! The request that asks the email provider to send one verification email.

use vstd::prelude::*;
use vstd::string::*;
use crate::config::Config;
use crate::config::ConfigView;
use crate::message::MessageView;
use crate::message::VerificationMessage;

verus! {

/// The status with which the provider reports success.
pub const STATUS_OK: u16 = 200;

/// One field of a form-encoded body.
#[derive(Debug, PartialEq, Eq)]
pub struct FormField {
    pub name: String,
    pub value: String,
}

/// One POST to the provider: where it goes, the credential of its basic
/// authentication, and the fields of its body in the order they are sent.
#[derive(Debug, PartialEq, Eq)]
pub struct SendRequest {
    pub url: String,
    pub username: String,
    pub password: String,
    pub form: Vec<FormField>,
}

/// A request as plain text values.
pub ghost struct SendRequestView {
    pub url: Seq<char>,
    pub username: Seq<char>,
    pub password: Seq<char>,
    pub form: Seq<(Seq<char>, Seq<char>)>,
}

/// The fields of a body as pairs of name and value.
pub open spec fn form_view(fields: Seq<FormField>) -> Seq<(Seq<char>, Seq<char>)> {
    Seq::new(fields.len(), |i: int| (fields[i].name@, fields[i].value@))
}

impl View for SendRequest {
    type V = SendRequestView;

    open spec fn view(&self) -> SendRequestView {
        SendRequestView {
            url: self.url@,
            username: self.username@,
            password: self.password@,
            form: form_view(self.form@),
        }
    }
}

/// The compact JSON text of an object with two members, both strings, as
/// `serde_json` writes it.
pub uninterp spec fn json_object_text(
    first_key: Seq<char>,
    first_value: Seq<char>,
    second_key: Seq<char>,
    second_value: Seq<char>,
) -> Seq<char>;

/// `serde_json::Value`'s `to_string` on an object that holds the two given
/// members as strings. The contract only names the text: it is a function of
/// the four arguments, and nothing about its shape is claimed.
#[verifier::external_body]
fn json_object(
    first_key: &str,
    first_value: &str,
    second_key: &str,
    second_value: &str,
) -> (r: String)
    ensures
        r@ == json_object_text(first_key@, first_value@, second_key@, second_value@),
{
    let mut members = serde_json::Map::new();
    members.insert(first_key.to_string(), serde_json::Value::String(first_value.to_string()));
    members.insert(second_key.to_string(), serde_json::Value::String(second_value.to_string()));
    serde_json::Value::Object(members).to_string()
}

/// The template variables of an email: the verification link and the token.
pub open spec fn variables_text(verification_url: Seq<char>, hash: Seq<char>) -> Seq<char> {
    json_object_text("verification_url"@, verification_url, "hash"@, hash)
}

/// The provider's message-submission endpoint for a sending domain.
pub open spec fn endpoint_of(domain: Seq<char>) -> Seq<char> {
    "https://api.eu.mailgun.net/v3/"@ + domain + "/messages"@
}

/// The request for one message, given the text of its template variables.
pub open spec fn request_with(config: ConfigView, msg: MessageView, variables: Seq<char>)
    -> SendRequestView {
    SendRequestView {
        url: endpoint_of(config.mailgun_domain),
        username: "api"@,
        password: config.mailgun_api_key,
        form: seq![
            ("from"@, config.mailgun_from),
            ("to"@, msg.email),
            ("subject"@, config.mailgun_subject),
            ("template"@, config.mailgun_template),
            ("h:X-Mailgun-Variables"@, variables),
        ],
    }
}

/// The request for one message.
pub open spec fn request_of(config: ConfigView, msg: MessageView) -> SendRequestView {
    request_with(config, msg, variables_text(config.verification_url, msg.hash))
}

/// Renders the template variables of an email as JSON text.
pub fn template_variables(verification_url: &str, hash: &str) -> (r: String)
    ensures
        r@ == variables_text(verification_url@, hash@),
{
    json_object("verification_url", verification_url, "hash", hash)
}

/// The URL that messages of a sending domain are posted to.
pub fn endpoint_url(domain: &str) -> (r: String)
    ensures
        r@ == endpoint_of(domain@),
{
    let mut url = String::from_str("https://api.eu.mailgun.net/v3/");
    url.append(domain);
    url.append("/messages");
    url
}

fn form_field(name: &str, value: &String) -> (r: FormField)
    ensures
        r.name@ == name@,
        r.value@ == value@,
{
    FormField { name: String::from_str(name), value: value.clone() }
}

/// Assembles the request for a message from the configuration and the rendered
/// template variables.
pub fn build_request(
    config: &Config,
    msg: &VerificationMessage,
    variables: String,
) -> (r: SendRequest)
    ensures
        r@ == request_with(config@, msg@, variables@),
{
    let mut form: Vec<FormField> = Vec::new();
    form.push(form_field("from", &config.mailgun_from));
    form.push(form_field("to", &msg.email));
    form.push(form_field("subject", &config.mailgun_subject));
    form.push(form_field("template", &config.mailgun_template));
    form.push(form_field("h:X-Mailgun-Variables", &variables));
    let r = SendRequest {
        url: endpoint_url(config.mailgun_domain.as_str()),
        username: String::from_str("api"),
        password: config.mailgun_api_key.clone(),
        form,
    };
    assert(r@.form =~= request_with(config@, msg@, variables@).form);
    r
}

/// Renders the request that sends the verification email for `msg`.
pub fn render_request(config: &Config, msg: &VerificationMessage) -> (r: SendRequest)
    ensures
        r@ == request_of(config@, msg@),
{
    let variables = template_variables(config.verification_url.as_str(), msg.hash.as_str());
    build_request(config, msg, variables)
}

/// Whether a response status means that the provider took the email.
pub fn is_success(status: u16) -> (r: bool)
    ensures
        r == (status == STATUS_OK),
{
    status == STATUS_OK
}

} // verus!
