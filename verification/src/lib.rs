//! Client-side view of a message-queue subscription.
//!
//! The crate models the consumption side of a pull-based message broker: a
//! subscription handle that buffers batch-pulled wire envelopes and hands them
//! out one message at a time, the translation between wire envelopes and
//! application-facing messages, and the state machine of a long-lived
//! bidirectional streaming-pull session that multiplexes inbound message
//! batches with outbound acknowledgement and deadline-extension frames.
//!
//! Network transport is a collaborator outside this crate: the functions here
//! construct the logical requests and decide every step of the protocol, and a
//! thin asynchronous driver performs the calls and feeds the results back.

pub mod config;
pub mod message;
pub mod options;
pub mod stream;
pub mod subscription;

pub use config::{Duration, SubscriptionConfig};
pub use message::{Envelope, Message, ProtocolError, Timestamp, WireMessage};
pub use options::{ReceiveOptions, ReceiveStreamOptions};
pub use stream::{ControlFrame, SessionState, StreamError, StreamingSession};
pub use subscription::{DeleteRequest, PullRequest, ReceiveStep, Subscription};
