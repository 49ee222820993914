//! The bidirectional streaming-pull session: outbound control frames and
//! inbound batch translation, with the session's state machine.

use vstd::prelude::*;

use crate::message::{all_wf, first_violation, Envelope, Message, ProtocolError};
use crate::subscription::delivers;
use crate::options::ReceiveStreamOptions;

verus! {

/// One outbound control frame of a streaming-pull session, as transmitted to
/// the remote service.
#[derive(Debug, Clone, PartialEq)]
pub struct ControlFrame {
    /// Fully-qualified subscription name; carried only by the opening frame
    /// of a session and empty on every later frame.
    pub subscription: String,
    /// Acknowledgement ids of earlier deliveries to confirm.
    pub ack_ids: Vec<String>,
    /// Acknowledgement ids whose deadline should be changed; parallel to
    /// `modify_deadline_seconds`.
    pub modify_deadline_ack_ids: Vec<String>,
    /// New deadline, in seconds from now, for the acknowledgement id at the
    /// same index of `modify_deadline_ack_ids`.
    pub modify_deadline_seconds: Vec<i32>,
    /// Acknowledgement deadline for the whole stream, in seconds; meaningful
    /// only on the opening frame.
    pub stream_ack_deadline_seconds: i32,
}

/// Where a streaming-pull session stands in its life cycle.
#[derive(Debug, Clone, Copy, PartialEq, Eq, Structural)]
pub enum SessionState {
    /// The opening frame has been built; no exchange has succeeded yet.
    Opening,
    /// The first inbound batch or outbound send has succeeded.
    Active,
    /// Terminal: one of the two directions has ended, and the session with
    /// it.
    Closed,
}

/// Why a streaming-pull session refused an operation or an inbound batch.
#[derive(Debug, Clone, Copy, PartialEq, Eq, Structural)]
pub enum StreamError {
    /// The session is closed; no operation is valid on it any more.
    SessionClosed,
    /// An inbound envelope broke the wire contract.
    Protocol(ProtocolError),
}

/// `f` carries exactly the payload of `opts`.
pub open spec fn frame_carries(f: ControlFrame, opts: ReceiveStreamOptions) -> bool {
    &&& f.ack_ids == opts.ack_ids
    &&& f.modify_deadline_ack_ids == opts.modify_deadline_ack_ids
    &&& f.modify_deadline_seconds == opts.modify_deadline_seconds
    &&& f.stream_ack_deadline_seconds == opts.stream_ack_deadline_seconds
}

/// A streaming-pull session over one logical bidirectional connection: the
/// remote service sends batches of envelopes inbound, the client sends
/// acknowledgement and deadline-extension frames outbound. The subscription's
/// identity is established once, by the opening frame; resending it is a
/// protocol error on the server side, so every later outbound frame has the
/// subscription field cleared.
#[derive(Debug, Clone)]
pub struct StreamingSession {
    /// Fully-qualified name of the subscription the session delivers from.
    pub subscription_name: String,
    /// Where the session stands in its life cycle.
    pub state: SessionState,
}

impl StreamingSession {
    /// Open a session on the subscription of the given name: builds the
    /// opening control frame, the only frame that carries the subscription
    /// name, and the session handle in its opening state. The caller hands
    /// the frame to the streaming transport to perform the handshake.
    pub fn open(name: String, opts: ReceiveStreamOptions) -> (r: (StreamingSession, ControlFrame))
        ensures
            r.0.subscription_name@ == name@,
            r.0.state == SessionState::Opening,
            r.1.subscription@ == name@,
            frame_carries(r.1, opts),
    {
        let frame = ControlFrame {
            subscription: name.clone(),
            ack_ids: opts.ack_ids,
            modify_deadline_ack_ids: opts.modify_deadline_ack_ids,
            modify_deadline_seconds: opts.modify_deadline_seconds,
            stream_ack_deadline_seconds: opts.stream_ack_deadline_seconds,
        };
        let session = StreamingSession { subscription_name: name, state: SessionState::Opening };
        (session, frame)
    }

    /// Build the outbound control frame for a payload submitted after the
    /// session opened. On a live session the frame carries the payload with
    /// the subscription field cleared — whatever the caller set, the identity
    /// is never resent — and the successful send makes the session active. A
    /// closed session refuses the submission unchanged.
    pub fn submit(&mut self, opts: ReceiveStreamOptions) -> (r: Result<ControlFrame, StreamError>)
        ensures
            final(self).subscription_name@ == old(self).subscription_name@,
            old(self).state == SessionState::Closed ==> r == Err::<ControlFrame, StreamError>(
                StreamError::SessionClosed,
            ) && *final(self) == *old(self),
            old(self).state != SessionState::Closed ==> (r matches Ok(f) && f.subscription@
                == Seq::<char>::empty() && frame_carries(f, opts) && final(self).state
                == SessionState::Active),
    {
        match self.state {
            SessionState::Closed => Err(StreamError::SessionClosed),
            _ => {
                self.state = SessionState::Active;
                Ok(ControlFrame {
                    subscription: String::new(),
                    ack_ids: opts.ack_ids,
                    modify_deadline_ack_ids: opts.modify_deadline_ack_ids,
                    modify_deadline_seconds: opts.modify_deadline_seconds,
                    stream_ack_deadline_seconds: opts.stream_ack_deadline_seconds,
                })
            },
        }
    }

    /// Translate one inbound batch, element-wise and in order. On a live
    /// session a batch of well-formed envelopes yields its translations and
    /// makes the session active; a batch with a malformed envelope is
    /// refused with the violation of its first malformed envelope, the
    /// session left as it was — the error surfaces on the stream instead of
    /// being dropped. A closed session refuses every batch.
    #[verifier::loop_isolation(false)]
    pub fn on_batch(&mut self, envelopes: Vec<Envelope>) -> (r: Result<Vec<Message>, StreamError>)
        ensures
            final(self).subscription_name@ == old(self).subscription_name@,
            old(self).state == SessionState::Closed ==> r == Err::<Vec<Message>, StreamError>(
                StreamError::SessionClosed,
            ) && *final(self) == *old(self),
            old(self).state != SessionState::Closed ==> {
                &&& (r is Ok <==> all_wf(envelopes@))
                &&& r matches Ok(ms) ==> delivers(old(self).subscription_name@, envelopes@, ms@)
                    && final(self).state == SessionState::Active
                &&& r matches Err(e) ==> *final(self) == *old(self) && (e matches
                    StreamError::Protocol(p) && first_violation(envelopes@, p))
            },
    {
        match self.state {
            SessionState::Closed => Err(StreamError::SessionClosed),
            _ => {
                let ghost batch = envelopes@;
                let mut rest = envelopes;
                let mut out: Vec<Message> = Vec::new();
                while rest.len() > 0
                    invariant
                        *self == *old(self),
                        self.state != SessionState::Closed,
                        batch == batch.take(out@.len() as int) + rest@,
                        forall|j: int| 0 <= j < out@.len() ==> batch[j].wf(),
                        delivers(self.subscription_name@, batch.take(out@.len() as int), out@),
                    decreases rest.len(),
                {
                    let ghost done = out@.len() as int;
                    let env = rest.remove(0);
                    proof {
                        assert(env == batch[done]);
                        assert(batch.take(done + 1) =~= batch.take(done).push(env));
                        assert(batch =~= batch.take(done + 1) + rest@);
                    }
                    match crate::message::translate(self.subscription_name.clone(), env) {
                        Ok(m) => {
                            out.push(m);
                        },
                        Err(e) => {
                            proof {
                                assert(!all_wf(batch)) by {
                                    assert(0 <= done < batch.len() && !batch[done].wf());
                                }
                                assert(first_violation(batch, e)) by {
                                    assert(0 <= done < batch.len() && !batch[done].wf() && e
                                        == crate::message::violation_of(batch[done]) && (
                                    forall|j: int| 0 <= j < done ==> batch[j].wf()));
                                }
                            }
                            return Err(StreamError::Protocol(e));
                        },
                    }
                }
                proof {
                    assert(batch.take(out@.len() as int) =~= batch);
                    assert(all_wf(batch));
                }
                self.state = SessionState::Active;
                Ok(out)
            },
        }
    }

    /// End the session: closing either half — the outbound sink or the
    /// inbound stream — ends the one logical connection, so the session is
    /// closed as a whole and refuses every further operation.
    pub fn close(&mut self)
        ensures
            final(self).subscription_name@ == old(self).subscription_name@,
            final(self).state == SessionState::Closed,
    {
        self.state = SessionState::Closed;
    }
}

} // verus!
