//! Behaviour of the subscription handle: the id derivation, envelope
//! translation, and the buffered single-message retrieval protocol.

use std::collections::HashMap;

use pubsub::{
    Envelope, Message, ProtocolError, ReceiveOptions, ReceiveStep, Subscription, Timestamp,
    WireMessage,
};

fn envelope(ack_id: &str, message_id: &str, seconds: i64, nanos: u32) -> Envelope {
    Envelope {
        ack_id: ack_id.to_string(),
        message: Some(WireMessage {
            data: message_id.as_bytes().to_vec(),
            attributes: HashMap::new(),
            message_id: message_id.to_string(),
            publish_time: Some(Timestamp { seconds, nanos }),
        }),
    }
}

/// Drives retrieval the way the asynchronous loop does: steps until a message
/// is delivered or end-of-stream is reached, serving each requested pull from
/// the front of `batches` and counting the pulls.
fn drive_receive(
    sub: &mut Subscription,
    opts: &ReceiveOptions,
    batches: &mut Vec<Vec<Envelope>>,
    pulls: &mut usize,
) -> Option<Message> {
    loop {
        match sub.receive_step(opts) {
            ReceiveStep::Delivered(m) => return Some(m),
            ReceiveStep::Violation(e) => panic!("protocol violation: {:?}", e),
            ReceiveStep::NeedPull(req) => {
                assert_eq!(req.subscription, sub.name);
                assert_eq!(req.return_immediately, opts.return_immediately);
                assert_eq!(req.max_messages, opts.max_messages);
                *pulls += 1;
                let batch = if batches.is_empty() { Vec::new() } else { batches.remove(0) };
                if sub.absorb_pull(batch, opts.return_immediately) {
                    return None;
                }
            }
        }
    }
}

#[test]
fn id_returns_last_path_segment() {
    let sub = Subscription::new("projects/p/subscriptions/my-sub".to_string());
    assert_eq!(sub.id(), "my-sub");
}

#[test]
fn id_without_separator_returns_whole_name() {
    let sub = Subscription::new("standalone".to_string());
    assert_eq!(sub.id(), "standalone");
}

#[test]
fn id_with_trailing_separator_is_empty() {
    let sub = Subscription::new("projects/p/".to_string());
    assert_eq!(sub.id(), "");
}

#[test]
fn translate_combines_timestamp() {
    let env = envelope("a-1", "m-1", 1000, 500_000_000);
    let msg = pubsub::message::translate("projects/p/subscriptions/s".to_string(), env)
        .expect("well-formed envelope must translate");
    assert_eq!(msg.publish_time, Timestamp { seconds: 1000, nanos: 500_000_000 });
    let seconds_since_epoch =
        msg.publish_time.seconds as f64 + msg.publish_time.nanos as f64 / 1e9;
    assert_eq!(seconds_since_epoch, 1000.5);
}

#[test]
fn translate_copies_all_fields() {
    let mut attributes = HashMap::new();
    attributes.insert("k".to_string(), "v".to_string());
    let env = Envelope {
        ack_id: "ack-7".to_string(),
        message: Some(WireMessage {
            data: vec![1, 2, 3],
            attributes: attributes.clone(),
            message_id: "id-7".to_string(),
            publish_time: Some(Timestamp { seconds: 5, nanos: 6 }),
        }),
    };
    let msg = pubsub::message::translate("projects/p/subscriptions/s".to_string(), env)
        .expect("well-formed envelope must translate");
    assert_eq!(msg.subscription_name, "projects/p/subscriptions/s");
    assert_eq!(msg.data, vec![1, 2, 3]);
    assert_eq!(msg.message_id, "id-7");
    assert_eq!(msg.ack_id, "ack-7");
    assert_eq!(msg.attributes, attributes);
    assert_eq!(msg.publish_time, Timestamp { seconds: 5, nanos: 6 });
}

#[test]
fn translate_missing_message_is_violation() {
    let env = Envelope { ack_id: "a".to_string(), message: None };
    let r = pubsub::message::translate("s".to_string(), env);
    assert_eq!(r.unwrap_err(), ProtocolError::MissingMessage);
}

#[test]
fn translate_missing_timestamp_is_violation() {
    let env = Envelope {
        ack_id: "a".to_string(),
        message: Some(WireMessage {
            data: Vec::new(),
            attributes: HashMap::new(),
            message_id: "m".to_string(),
            publish_time: None,
        }),
    };
    let r = pubsub::message::translate("s".to_string(), env);
    assert_eq!(r.unwrap_err(), ProtocolError::MissingTimestamp);
}

#[test]
fn translate_unnormalized_nanos_is_violation() {
    let env = envelope("a", "m", 0, 1_000_000_000);
    let r = pubsub::message::translate("s".to_string(), env);
    assert_eq!(r.unwrap_err(), ProtocolError::InvalidTimestamp);
}

#[test]
fn receive_yields_flattened_batch_order() {
    let mut sub = Subscription::new("projects/p/subscriptions/s".to_string());
    let mut batches = vec![
        vec![envelope("a1", "m1", 1, 0), envelope("a2", "m2", 2, 0)],
        vec![envelope("a3", "m3", 3, 0)],
    ];
    let opts = ReceiveOptions::default();
    let mut pulls = 0;
    let mut seen = Vec::new();
    for _ in 0..3 {
        let m = drive_receive(&mut sub, &opts, &mut batches, &mut pulls).unwrap();
        seen.push(m.message_id);
    }
    assert_eq!(seen, vec!["m1".to_string(), "m2".to_string(), "m3".to_string()]);
}

#[test]
fn receive_never_pulls_while_buffer_is_nonempty() {
    let mut sub = Subscription::new("projects/p/subscriptions/s".to_string());
    let mut batches = vec![vec![envelope("a1", "m1", 1, 0), envelope("a2", "m2", 2, 0)]];
    let opts = ReceiveOptions::default();
    let mut pulls = 0;
    let first = drive_receive(&mut sub, &opts, &mut batches, &mut pulls).unwrap();
    assert_eq!(first.message_id, "m1");
    assert_eq!(pulls, 1);
    // The second envelope is already buffered: no pull may be issued for it.
    let second = drive_receive(&mut sub, &opts, &mut batches, &mut pulls).unwrap();
    assert_eq!(second.message_id, "m2");
    assert_eq!(pulls, 1);
}

#[test]
fn receive_return_immediately_ends_on_empty_pull() {
    let mut sub = Subscription::new("projects/p/subscriptions/s".to_string());
    let mut batches = vec![Vec::new()];
    let opts = ReceiveOptions { return_immediately: true, max_messages: 1 };
    let mut pulls = 0;
    let r = drive_receive(&mut sub, &opts, &mut batches, &mut pulls);
    assert!(r.is_none());
    assert_eq!(pulls, 1);
}

#[test]
fn receive_blocking_loops_past_empty_pull() {
    let mut sub = Subscription::new("projects/p/subscriptions/s".to_string());
    let mut batches = vec![Vec::new(), vec![envelope("a1", "m1", 1, 0)]];
    let opts = ReceiveOptions::default();
    let mut pulls = 0;
    let m = drive_receive(&mut sub, &opts, &mut batches, &mut pulls).unwrap();
    assert_eq!(m.message_id, "m1");
    assert_eq!(pulls, 2);
}

#[test]
fn receive_surfaces_protocol_violation() {
    let mut sub = Subscription::new("s".to_string());
    let end = sub.absorb_pull(vec![Envelope { ack_id: "a".to_string(), message: None }], false);
    assert!(!end);
    let opts = ReceiveOptions::default();
    match sub.receive_step(&opts) {
        ReceiveStep::Violation(e) => assert_eq!(e, ProtocolError::MissingMessage),
        other => panic!("expected a violation, got {:?}", other),
    }
}

#[test]
fn delete_request_names_the_subscription() {
    let sub = Subscription::new("projects/p/subscriptions/s".to_string());
    let req = sub.delete_request();
    assert_eq!(req.subscription, "projects/p/subscriptions/s");
}

#[test]
fn delete_on_cloned_handles_targets_same_subscription() {
    // Two handles on one subscription produce identical delete requests; the
    // outcome of performing the second delete after the first is decided by
    // the remote service's idempotence, not by this client, so only the
    // requests themselves are checked here.
    let sub = Subscription::new("projects/p/subscriptions/s".to_string());
    let twin = sub.clone();
    let first = sub.delete_request();
    let second = twin.delete_request();
    assert_eq!(first, second);
}
