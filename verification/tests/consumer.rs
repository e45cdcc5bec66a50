use verification_relay::config::Config;
use verification_relay::consumer::Consumer;
use verification_relay::consumer::ConsumerCommand;
use verification_relay::consumer::ConsumerEvent;
use verification_relay::consumer::ConsumerPhase;
use verification_relay::consumer::EXIT_CODE;
use verification_relay::consumer::POLL_INTERVAL_MILLIS;
use verification_relay::message::FieldMap;
use verification_relay::message::FieldValue;
use verification_relay::message::StreamEntry;
use verification_relay::message::VerificationMessage;
use verification_relay::notice::Notice;

fn config() -> Config {
    Config {
        redis_url: "redis://redis:6379/0".to_string(),
        stream_key: "/auth/login".to_string(),
        stream_group: "email-verification".to_string(),
        verification_url: "https://2read.online/auth/verificate".to_string(),
        mailgun_domain: "2read.online".to_string(),
        mailgun_api_key: "key-123".to_string(),
        mailgun_from: "noreply@2read.online".to_string(),
        mailgun_subject: "EMail Verification".to_string(),
        mailgun_template: "verification".to_string(),
    }
}

fn entry(id: &str, fields: Vec<(&str, &str)>) -> StreamEntry {
    let mut map = FieldMap::new();
    for (name, value) in fields {
        map.insert(name.to_string(), FieldValue::Data(value.as_bytes().to_vec()));
    }
    StreamEntry { id: id.to_string(), map }
}

fn good(id: &str, email: &str, hash: &str) -> StreamEntry {
    entry(id, vec![("email", email), ("verification_hash", hash)])
}

fn started() -> Consumer {
    let (c, notices) = Consumer::new(config(), 77);
    assert!(notices.is_empty());
    c
}

fn polling() -> Consumer {
    let mut c = started();
    assert!(c.step(ConsumerEvent::Connected).is_empty());
    assert!(c.step(ConsumerEvent::GroupCreated).is_empty());
    c
}

fn poll() -> ConsumerCommand {
    ConsumerCommand::Poll {
        stream_key: "/auth/login".to_string(),
        group: "email-verification".to_string(),
        consumer: "email-verification-77".to_string(),
        cursor: ">".to_string(),
    }
}

fn ack(id: &str) -> ConsumerCommand {
    ConsumerCommand::Ack {
        stream_key: "/auth/login".to_string(),
        group: "email-verification".to_string(),
        id: id.to_string(),
    }
}

fn forward(email: &str, hash: &str) -> ConsumerCommand {
    ConsumerCommand::Forward(VerificationMessage { email: email.to_string(), hash: hash.to_string() })
}

#[test]
fn consumer_begins_by_connecting() {
    let c = started();
    assert_eq!(c.phase(), ConsumerPhase::Connecting);
    assert_eq!(c.command(), ConsumerCommand::Connect { url: "redis://redis:6379/0".to_string() });
}

#[test]
fn consumer_has_a_client_for_a_broker_address() {
    let c = started();
    assert!(c.client().is_some());
    assert!(c.refusal().is_none());
    let info = c.client().unwrap().get_connection_info();
    assert_eq!(info.addr.to_string(), "redis:6379");
    assert_eq!(info.redis.db, 0);
}

#[test]
fn refused_address_stops_the_consumer() {
    for url in ["", "not an address", "http://redis:6379/0", "redis://", "redis://redis:6379/x"] {
        let mut conf = config();
        conf.redis_url = url.to_string();
        let (mut c, notices) = Consumer::new(conf, 77);
        assert_eq!(notices, vec![Notice::UrlRefused], "{}", url);
        assert_eq!(c.phase(), ConsumerPhase::Stopped);
        assert_eq!(c.command(), ConsumerCommand::Exit { code: -1 });
        assert!(c.client().is_none());
        assert!(c.refusal().is_some());
        assert!(c.step(ConsumerEvent::Connected).is_empty());
        assert_eq!(c.phase(), ConsumerPhase::Stopped);
    }
}

#[test]
fn accepted_addresses_start_the_consumer() {
    for url in ["redis://redis:6379/0", "redis://127.0.0.1", "redis://:secret@host:1234/3", "unix:///tmp/redis.sock"] {
        let mut conf = config();
        conf.redis_url = url.to_string();
        let (c, notices) = Consumer::new(conf, 77);
        assert!(notices.is_empty(), "{}", url);
        assert_eq!(c.phase(), ConsumerPhase::Connecting);
        assert_eq!(c.command(), ConsumerCommand::Connect { url: url.to_string() });
        assert!(c.client().is_some());
    }
}

#[test]
fn with_client_goes_by_what_it_is_given() {
    let (c, notices) = Consumer::with_client(config(), 5, redis::Client::open("redis://other:1/2"));
    assert!(notices.is_empty());
    assert_eq!(c.phase(), ConsumerPhase::Connecting);
    assert_eq!(c.client().unwrap().get_connection_info().addr.to_string(), "other:1");
    let (c, notices) = Consumer::with_client(config(), 5, redis::Client::open("nonsense"));
    assert_eq!(notices, vec![Notice::UrlRefused]);
    assert_eq!(c.phase(), ConsumerPhase::Stopped);
    assert!(c.client().is_none());
}

#[test]
fn failed_connection_is_fatal() {
    let mut c = started();
    assert_eq!(c.step(ConsumerEvent::ConnectFailed), vec![Notice::ConnectFailed]);
    assert_eq!(c.phase(), ConsumerPhase::Stopped);
    assert_eq!(c.command(), ConsumerCommand::Exit { code: -1 });
    assert_eq!(EXIT_CODE, -1);
}

#[test]
fn group_is_created_for_new_entries_only() {
    let mut c = started();
    assert!(c.step(ConsumerEvent::Connected).is_empty());
    assert_eq!(c.phase(), ConsumerPhase::CreatingGroup);
    assert_eq!(
        c.command(),
        ConsumerCommand::CreateGroup {
            stream_key: "/auth/login".to_string(),
            group: "email-verification".to_string(),
            start: "$".to_string(),
        }
    );
}

#[test]
fn existing_group_does_not_stop_the_consumer() {
    let mut c = started();
    c.step(ConsumerEvent::Connected);
    assert_eq!(c.step(ConsumerEvent::GroupCreateFailed), vec![Notice::GroupExists]);
    assert_eq!(c.phase(), ConsumerPhase::Polling);
    assert_eq!(c.command(), poll());
}

#[test]
fn group_creation_outcome_does_not_change_what_follows() {
    let mut created = started();
    created.step(ConsumerEvent::Connected);
    created.step(ConsumerEvent::GroupCreated);
    let mut existed = started();
    existed.step(ConsumerEvent::Connected);
    existed.step(ConsumerEvent::GroupCreateFailed);
    assert_eq!(created.phase(), existed.phase());
    assert_eq!(created.command(), existed.command());
    created.step(ConsumerEvent::Polled(vec![good("1-0", "a@x.com", "h1")]));
    existed.step(ConsumerEvent::Polled(vec![good("1-0", "a@x.com", "h1")]));
    assert_eq!(created.command(), existed.command());
}

#[test]
fn poll_names_group_consumer_and_cursor() {
    let c = polling();
    assert_eq!(c.phase(), ConsumerPhase::Polling);
    assert_eq!(c.command(), poll());
}

#[test]
fn failed_poll_is_fatal() {
    let mut c = polling();
    assert_eq!(c.step(ConsumerEvent::PollFailed), vec![Notice::ReadFailed]);
    assert_eq!(c.phase(), ConsumerPhase::Stopped);
    assert_eq!(c.command(), ConsumerCommand::Exit { code: -1 });
}

#[test]
fn stopped_consumer_ignores_everything() {
    let mut c = polling();
    c.step(ConsumerEvent::PollFailed);
    assert!(c.step(ConsumerEvent::Connected).is_empty());
    assert!(c.step(ConsumerEvent::Polled(vec![good("1-0", "a@x.com", "h1")])).is_empty());
    assert!(c.step(ConsumerEvent::Slept).is_empty());
    assert!(c.step(ConsumerEvent::PollFailed).is_empty());
    assert_eq!(c.phase(), ConsumerPhase::Stopped);
    assert_eq!(c.command(), ConsumerCommand::Exit { code: -1 });
}

#[test]
fn empty_poll_leads_to_rest_and_next_poll() {
    let mut c = polling();
    assert!(c.step(ConsumerEvent::Polled(Vec::new())).is_empty());
    assert_eq!(c.phase(), ConsumerPhase::Sleeping);
    assert_eq!(c.command(), ConsumerCommand::Sleep { millis: 100 });
    assert_eq!(POLL_INTERVAL_MILLIS, 100);
    assert!(c.step(ConsumerEvent::Slept).is_empty());
    assert_eq!(c.phase(), ConsumerPhase::Polling);
    assert_eq!(c.command(), poll());
}

#[test]
fn usable_entry_is_forwarded_then_acknowledged() {
    let mut c = polling();
    assert!(c.step(ConsumerEvent::Polled(vec![good("1-0", "a@x.com", "h1")])).is_empty());
    assert_eq!(c.phase(), ConsumerPhase::Forwarding);
    assert_eq!(c.command(), forward("a@x.com", "h1"));
    assert!(c.step(ConsumerEvent::Forwarded).is_empty());
    assert_eq!(c.phase(), ConsumerPhase::Acking);
    assert_eq!(c.command(), ack("1-0"));
    assert!(c.step(ConsumerEvent::Acked).is_empty());
    assert_eq!(c.phase(), ConsumerPhase::Sleeping);
}

#[test]
fn acknowledgment_waits_for_the_hand_off() {
    let mut c = polling();
    c.step(ConsumerEvent::Polled(vec![good("1-0", "a@x.com", "h1")]));
    assert!(c.step(ConsumerEvent::Acked).is_empty());
    assert!(c.step(ConsumerEvent::AckFailed).is_empty());
    assert!(c.step(ConsumerEvent::Slept).is_empty());
    assert_eq!(c.phase(), ConsumerPhase::Forwarding);
    assert_eq!(c.command(), forward("a@x.com", "h1"));
}

#[test]
fn failed_acknowledgment_is_reported_and_passed_over() {
    let mut c = polling();
    c.step(ConsumerEvent::Polled(vec![good("1-0", "a@x.com", "h1"), good("1-1", "b@y.org", "h2")]));
    c.step(ConsumerEvent::Forwarded);
    assert_eq!(c.step(ConsumerEvent::AckFailed), vec![Notice::AckFailed]);
    assert_eq!(c.phase(), ConsumerPhase::Forwarding);
    assert_eq!(c.command(), forward("b@y.org", "h2"));
}

#[test]
fn unusable_entry_is_acknowledged_without_forward() {
    let mut c = polling();
    let notices = c.step(ConsumerEvent::Polled(vec![entry("5-0", vec![("email", "a@x.com")])]));
    assert_eq!(notices, vec![Notice::EntryUnusable]);
    assert_eq!(c.phase(), ConsumerPhase::Acking);
    assert_eq!(c.command(), ack("5-0"));
    assert!(c.step(ConsumerEvent::Forwarded).is_empty());
    assert_eq!(c.command(), ack("5-0"));
    assert!(c.step(ConsumerEvent::Acked).is_empty());
    assert_eq!(c.phase(), ConsumerPhase::Sleeping);
}

#[test]
fn failed_acknowledgment_before_unusable_entry_reports_both() {
    let mut c = polling();
    c.step(ConsumerEvent::Polled(vec![
        good("1-0", "a@x.com", "h1"),
        entry("1-1", vec![("verification_hash", "h2")]),
    ]));
    c.step(ConsumerEvent::Forwarded);
    assert_eq!(c.step(ConsumerEvent::AckFailed), vec![Notice::AckFailed, Notice::EntryUnusable]);
    assert_eq!(c.command(), ack("1-1"));
}

#[test]
fn batch_is_worked_through_in_order() {
    let mut c = polling();
    let batch = vec![
        good("1-0", "a@x.com", "h1"),
        entry("1-1", Vec::new()),
        good("1-2", "c@z.net", "h3"),
    ];
    let mut commands: Vec<ConsumerCommand> = Vec::new();
    let mut notices: Vec<Notice> = c.step(ConsumerEvent::Polled(batch));
    while c.phase() != ConsumerPhase::Sleeping {
        commands.push(c.command());
        let event = match c.phase() {
            ConsumerPhase::Forwarding => ConsumerEvent::Forwarded,
            ConsumerPhase::Acking => ConsumerEvent::Acked,
            other => panic!("unexpected phase {:?}", other),
        };
        notices.extend(c.step(event));
    }
    assert_eq!(
        commands,
        vec![
            forward("a@x.com", "h1"),
            ack("1-0"),
            ack("1-1"),
            forward("c@z.net", "h3"),
            ack("1-2"),
        ]
    );
    assert_eq!(notices, vec![Notice::EntryUnusable]);
    assert_eq!(c.command(), ConsumerCommand::Sleep { millis: 100 });
}

#[test]
fn second_poll_starts_afresh() {
    let mut c = polling();
    c.step(ConsumerEvent::Polled(vec![good("1-0", "a@x.com", "h1")]));
    c.step(ConsumerEvent::Forwarded);
    c.step(ConsumerEvent::Acked);
    c.step(ConsumerEvent::Slept);
    assert_eq!(c.command(), poll());
    c.step(ConsumerEvent::Polled(vec![good("2-0", "b@y.org", "h2")]));
    assert_eq!(c.command(), forward("b@y.org", "h2"));
    c.step(ConsumerEvent::Forwarded);
    assert_eq!(c.command(), ack("2-0"));
}

#[test]
fn poll_result_is_ignored_while_an_entry_is_open() {
    let mut c = polling();
    c.step(ConsumerEvent::Polled(vec![good("1-0", "a@x.com", "h1")]));
    c.step(ConsumerEvent::Forwarded);
    assert!(c.step(ConsumerEvent::Polled(vec![good("9-9", "z@z.zz", "zz")])).is_empty());
    assert!(c.step(ConsumerEvent::PollFailed).is_empty());
    assert_eq!(c.phase(), ConsumerPhase::Acking);
    assert_eq!(c.command(), ack("1-0"));
}
