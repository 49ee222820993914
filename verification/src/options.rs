//! Per-call parameters for the pull and streaming-pull operations.

use vstd::prelude::*;

verus! {

/// Parameters of one single-message retrieval call.
#[derive(Debug, Clone, PartialEq, Eq, Structural)]
pub struct ReceiveOptions {
    /// When a pull yields no messages, stop instead of polling again.
    pub return_immediately: bool,
    /// Upper bound on the number of messages requested per pull.
    pub max_messages: i32,
}

impl Default for ReceiveOptions {
    /// Defaults: block until a message arrives, request one message per pull.
    fn default() -> (r: ReceiveOptions)
        ensures
            !r.return_immediately,
            r.max_messages == 1,
    {
        ReceiveOptions { return_immediately: false, max_messages: 1 }
    }
}

/// Payload of one outbound control frame on a streaming-pull session.
#[derive(Debug, Clone, PartialEq)]
pub struct ReceiveStreamOptions {
    /// Acknowledgement ids of earlier deliveries to confirm.
    pub ack_ids: Vec<String>,
    /// Acknowledgement ids whose deadline should be changed; parallel to
    /// `modify_deadline_seconds`.
    pub modify_deadline_ack_ids: Vec<String>,
    /// New deadline, in seconds from now, for the acknowledgement id at the
    /// same index of `modify_deadline_ack_ids`.
    pub modify_deadline_seconds: Vec<i32>,
    /// Acknowledgement deadline for the whole stream, in seconds; meaningful
    /// only on the opening frame of a session.
    pub stream_ack_deadline_seconds: i32,
}

} // verus!
