use solbox_mqtt_exporter::message::SolboxMessage;
use solbox_mqtt_exporter::poller::{cycle_requests, poll_cycle, CycleReplies};
use solbox_mqtt_exporter::session::StoreAction;
use solbox_mqtt_exporter::sorel::{FetchError, Sorel, TransportFailure, ValueReply};

/// A publisher double that records what it was handed.
struct FakePublisher {
    published: Vec<(String, Vec<u8>)>,
}

fn body(val: &str) -> Result<ValueReply, TransportFailure> {
    Ok(ValueReply::from_body(format!(
        "{{\"request\":{{\"id\":\"x\"}},\"response\":{{\"val\":\"{}\"}}}}",
        val
    )))
}

fn fixed_replies() -> CycleReplies {
    CycleReplies {
        sensor1: body("12\u{b0}C"),
        sensor2: body("30\u{b0}C"),
        sensor3: body("45\u{b0}C"),
        relay1: body("relay1_ON"),
    }
}

fn run_cycle(sorel: &mut Sorel, replies: CycleReplies, publisher: &mut FakePublisher) {
    let outcome = poll_cycle(sorel, replies);
    if let Ok(message) = outcome.message {
        publisher.published.push((String::from("solbox"), message.to_bytes().unwrap()));
    }
}

fn client() -> Sorel {
    Sorel::new(String::from("u"), String::from("p"), String::from("dev"), String::from("tok"))
}

#[test]
fn cycle_publishes_one_message() {
    let mut sorel = client();
    let mut publisher = FakePublisher { published: vec![] };
    run_cycle(&mut sorel, fixed_replies(), &mut publisher);
    assert_eq!(publisher.published.len(), 1);
    let doc: serde_json::Value = serde_json::from_slice(&publisher.published[0].1).unwrap();
    assert_eq!(doc["temperature-collector"], 12);
    assert_eq!(doc["temperature-boiler-bottom"], 30);
    assert_eq!(doc["temperature-boiler-top"], 45);
    assert_eq!(doc["pump"], 100);
    let time = doc["time"].as_str().unwrap();
    assert!(chrono::DateTime::parse_from_rfc3339(time).is_ok());
    assert!(time.chars().all(|c| c.is_ascii_digit() || "-:T.+Z".contains(c)));
    assert_eq!(doc.as_object().unwrap().len(), 5);
}

#[test]
fn cycle_payload_text() {
    let mut sorel = client();
    let outcome = poll_cycle(&mut sorel, fixed_replies());
    assert!(matches!(outcome.store, StoreAction::Keep));
    let message = outcome.message.unwrap();
    assert_eq!(
        message.to_json_at("2024-05-01T10:00:00+00:00"),
        "{\"pump\":100,\"temperature-boiler-bottom\":30,\"temperature-boiler-top\":45,\"temperature-collector\":12,\"time\":\"2024-05-01T10:00:00+00:00\"}"
    );
}

#[test]
fn negative_readings_in_payload() {
    let message = SolboxMessage::new(-7, 0, -32768, 0);
    assert_eq!(
        message.to_json_at("t"),
        "{\"pump\":0,\"temperature-boiler-bottom\":0,\"temperature-boiler-top\":-32768,\"temperature-collector\":-7,\"time\":\"t\"}"
    );
}

#[test]
fn failed_fetch_skips_publish_and_loop_goes_on() {
    let mut sorel = client();
    let mut publisher = FakePublisher { published: vec![] };
    let mut replies = fixed_replies();
    replies.sensor2 = body("warm");
    run_cycle(&mut sorel, replies, &mut publisher);
    assert_eq!(publisher.published.len(), 0);
    run_cycle(&mut sorel, fixed_replies(), &mut publisher);
    assert_eq!(publisher.published.len(), 1);
}

#[test]
fn first_failure_is_reported() {
    let mut sorel = client();
    let mut replies = fixed_replies();
    replies.sensor3 = Err(TransportFailure);
    replies.relay1 = body("relay1_MAYBE");
    let outcome = poll_cycle(&mut sorel, replies);
    assert!(matches!(outcome.message, Err(FetchError::Transport)));
    assert!(matches!(outcome.store, StoreAction::Remove));
    assert!(sorel.needs_login());
}

#[test]
fn cycle_requests_use_fixed_ids() {
    let requests = cycle_requests(&client());
    assert_eq!(requests.sensor1.url, "https://dev.sorel-connect.net/state.json?id=sensor1");
    assert_eq!(requests.sensor2.url, "https://dev.sorel-connect.net/state.json?id=sensor2");
    assert_eq!(requests.sensor3.url, "https://dev.sorel-connect.net/state.json?id=sensor3");
    assert_eq!(requests.relay1.url, "https://dev.sorel-connect.net/state.json?id=relay1");
    assert_eq!(requests.relay1.cookie, "nabto-session=tok");
}
