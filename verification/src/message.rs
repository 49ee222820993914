//! Wire envelopes, application messages, and the translation between them.

use std::collections::HashMap;
use vstd::prelude::*;

verus! {

/// Number of nanoseconds in one second.
pub const NANOS_PER_SECOND: u32 = 1_000_000_000;

/// An instant as a seconds + nanoseconds pair since the epoch, interpreted as
/// UTC.
#[derive(Debug, Clone, Copy, PartialEq, Eq, Structural)]
pub struct Timestamp {
    /// Whole seconds since the epoch.
    pub seconds: i64,
    /// Nanoseconds past `seconds`.
    pub nanos: u32,
}

impl Timestamp {
    /// The nanosecond field is a sub-second offset, so the pair names a single
    /// calendar instant.
    pub open spec fn is_normalized(self) -> bool {
        self.nanos < NANOS_PER_SECOND
    }

    /// The instant as one nanosecond count since the epoch.
    pub open spec fn total_nanos(self) -> int {
        self.seconds * (NANOS_PER_SECOND as int) + self.nanos
    }
}

/// The inner message record carried by a wire envelope.
#[derive(Debug, Clone)]
pub struct WireMessage {
    /// Opaque payload bytes.
    pub data: Vec<u8>,
    /// Attribute mapping attached by the publisher.
    pub attributes: HashMap<String, String>,
    /// Broker-assigned message id.
    pub message_id: String,
    /// Publish instant; absent only when the remote service breaks the wire
    /// contract.
    pub publish_time: Option<Timestamp>,
}

/// Wire-level delivery unit from the remote service: an acknowledgement id
/// plus the inner message record.
#[derive(Debug, Clone)]
pub struct Envelope {
    /// Token identifying this delivery attempt, used later to acknowledge it
    /// or extend its deadline.
    pub ack_id: String,
    /// Inner record; absent only when the remote service breaks the wire
    /// contract.
    pub message: Option<WireMessage>,
}

impl Envelope {
    /// The wire contract: the inner record and its publish time are present
    /// and the timestamp's nanosecond field is a sub-second offset.
    pub open spec fn wf(self) -> bool {
        &&& self.message is Some
        &&& self.message.unwrap().publish_time is Some
        &&& self.message.unwrap().publish_time.unwrap().is_normalized()
    }
}

/// Application-facing message. Constructed only by translating an
/// [`Envelope`]; immutable afterwards.
#[derive(Debug, Clone)]
pub struct Message {
    /// Fully-qualified name of the subscription the message came from.
    pub subscription_name: String,
    /// Opaque payload bytes.
    pub data: Vec<u8>,
    /// Broker-assigned message id.
    pub message_id: String,
    /// Token needed to acknowledge or extend this specific delivery.
    pub ack_id: String,
    /// Attribute mapping attached by the publisher.
    pub attributes: HashMap<String, String>,
    /// Normalized publish instant.
    pub publish_time: Timestamp,
}

/// How an envelope broke the wire contract with the remote service. Such a
/// violation is unrecoverable: it aborts the operation that met it and must
/// not be substituted with defaults.
#[derive(Debug, Clone, Copy, PartialEq, Eq, Structural)]
pub enum ProtocolError {
    /// The envelope carried no inner message record.
    MissingMessage,
    /// The inner record carried no publish time.
    MissingTimestamp,
    /// The publish time's nanosecond field is not a sub-second offset.
    InvalidTimestamp,
}

/// The violation that a malformed envelope exhibits, in the order the fields
/// are read.
pub open spec fn violation_of(env: Envelope) -> ProtocolError {
    if env.message is None {
        ProtocolError::MissingMessage
    } else if env.message.unwrap().publish_time is None {
        ProtocolError::MissingTimestamp
    } else {
        ProtocolError::InvalidTimestamp
    }
}

/// Every envelope of the batch satisfies the wire contract.
pub open spec fn all_wf(q: Seq<Envelope>) -> bool {
    forall|i: int| 0 <= i < q.len() ==> q[i].wf()
}

/// `p` is the violation exhibited by the first malformed envelope of the
/// batch.
pub open spec fn first_violation(q: Seq<Envelope>, p: ProtocolError) -> bool {
    exists|i: int|
        0 <= i < q.len() && !q[i].wf() && p == violation_of(q[i]) && (forall|j: int|
            0 <= j < i ==> q[j].wf())
}

/// `m` is the translation of `env` for the subscription named `name`: the
/// acknowledgement id is copied, the inner record's fields are unwrapped, and
/// the publish timestamp is carried over as one normalized instant.
pub open spec fn translated(name: Seq<char>, env: Envelope, m: Message) -> bool {
    &&& m.subscription_name@ == name
    &&& m.data@ == env.message.unwrap().data@
    &&& m.message_id@ == env.message.unwrap().message_id@
    &&& m.ack_id@ == env.ack_id@
    &&& m.attributes == env.message.unwrap().attributes
    &&& m.publish_time == env.message.unwrap().publish_time.unwrap()
    &&& m.publish_time.is_normalized()
}

/// Translate one wire envelope into an application message. Succeeds exactly
/// on well-formed envelopes; a malformed one is reported as the protocol
/// violation it exhibits.
pub fn translate(subscription_name: String, env: Envelope) -> (r: Result<Message, ProtocolError>)
    ensures
        r is Ok <==> env.wf(),
        r is Ok ==> translated(subscription_name@, env, r.unwrap()),
        r is Err ==> r.unwrap_err() == violation_of(env),
{
    let Envelope { ack_id, message } = env;
    match message {
        None => Err(ProtocolError::MissingMessage),
        Some(msg) => match msg.publish_time {
            None => Err(ProtocolError::MissingTimestamp),
            Some(ts) => {
                if ts.nanos >= NANOS_PER_SECOND {
                    Err(ProtocolError::InvalidTimestamp)
                } else {
                    Ok(Message {
                        subscription_name,
                        data: msg.data,
                        message_id: msg.message_id,
                        ack_id,
                        attributes: msg.attributes,
                        publish_time: ts,
                    })
                }
            },
        },
    }
}

} // verus!
