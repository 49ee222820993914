//! The subscription handle: buffered batch pulls drained one message at a
//! time, and the logical requests handed to the transport collaborator.

use std::collections::VecDeque;
use vstd::prelude::*;

use crate::message::{translated, violation_of, Envelope, Message, ProtocolError};
use crate::options::ReceiveOptions;

verus! {

/// Logical pull request: one batch-pull exchange with the remote service.
#[derive(Debug, Clone, PartialEq)]
pub struct PullRequest {
    /// Fully-qualified subscription name to pull from.
    pub subscription: String,
    /// Return an empty batch at once instead of waiting for messages.
    pub return_immediately: bool,
    /// Upper bound on the number of envelopes in the returned batch.
    pub max_messages: i32,
}

/// Logical request to delete a subscription.
#[derive(Debug, Clone, PartialEq)]
pub struct DeleteRequest {
    /// Fully-qualified name of the subscription to delete.
    pub subscription: String,
}

/// What one step of single-message retrieval decided.
#[derive(Debug)]
pub enum ReceiveStep {
    /// The oldest buffered envelope, translated.
    Delivered(Message),
    /// The oldest buffered envelope broke the wire contract.
    Violation(ProtocolError),
    /// The buffer is empty: perform this pull and hand the batch to
    /// [`Subscription::absorb_pull`].
    NeedPull(PullRequest),
}

/// Index of the last path separator in `name`, or `-1` when none occurs.
pub open spec fn last_sep(name: Seq<char>) -> int
    decreases name.len(),
{
    if name.len() == 0 {
        -1
    } else if name[name.len() - 1] == '/' {
        name.len() - 1
    } else {
        last_sep(name.drop_last())
    }
}

/// The subscription id: the part of `name` after its last path separator, or
/// all of `name` when it has none.
pub open spec fn id_of(name: Seq<char>) -> Seq<char> {
    name.subrange(last_sep(name) + 1, name.len() as int)
}

/// `ms` is the element-wise translation of the envelopes `q`, in order, for
/// the subscription named `name`.
pub open spec fn delivers(name: Seq<char>, q: Seq<Envelope>, ms: Seq<Message>) -> bool {
    &&& ms.len() == q.len()
    &&& forall|i: int| 0 <= i < q.len() ==> translated(name, q[i], ms[i])
}

/// Messages keep the flattened order of the batches they were pulled in: the
/// translations of batch `b1` followed by those of batch `b2` are exactly the
/// translations of `b1 + b2`. Since [`Subscription::absorb_pull`] appends each
/// batch whole to the buffer and [`Subscription::receive_step`] always drains
/// the front, repeated retrieval yields the element-wise translation of all
/// pulled batches in arrival order; this lemma is the inductive step over the
/// batches.
pub proof fn lemma_fifo_order(
    name: Seq<char>,
    b1: Seq<Envelope>,
    b2: Seq<Envelope>,
    m1: Seq<Message>,
    m2: Seq<Message>,
)
    requires
        delivers(name, b1, m1),
        delivers(name, b2, m2),
    ensures
        delivers(name, b1 + b2, m1 + m2),
{
    assert forall|i: int| 0 <= i < (b1 + b2).len() implies translated(
        name,
        (b1 + b2)[i],
        (m1 + m2)[i],
    ) by {
        if i < b1.len() {
            assert((b1 + b2)[i] == b1[i]);
            assert((m1 + m2)[i] == m1[i]);
        } else {
            assert((b1 + b2)[i] == b2[i - b1.len()]);
            assert((m1 + m2)[i] == m2[i - m1.len()]);
        }
    }
}

/// Messages keep the flattened order over any number of pulled batches: when
/// each batch `batches[k]` translates element-wise to `msgs[k]`, the
/// concatenation of all the batches translates element-wise to the
/// concatenation of all the message runs. Together with the contracts of
/// [`Subscription::absorb_pull`] (each batch is appended whole, in arrival
/// order) and [`Subscription::receive_step`] (always the front of the buffer
/// is delivered), repeated retrieval yields exactly the flattened order of
/// the batches.
pub proof fn lemma_fifo_order_flattened(
    name: Seq<char>,
    batches: Seq<Seq<Envelope>>,
    msgs: Seq<Seq<Message>>,
)
    requires
        batches.len() == msgs.len(),
        forall|k: int| 0 <= k < batches.len() ==> delivers(name, batches[k], msgs[k]),
    ensures
        delivers(name, batches.flatten(), msgs.flatten()),
    decreases batches.len(),
{
    if batches.len() == 0 {
        assert(batches.flatten() =~= Seq::<Envelope>::empty());
        assert(msgs.flatten() =~= Seq::<Message>::empty());
    } else {
        assert(forall|k: int|
            0 <= k < batches.drop_first().len() ==> delivers(
                name,
                batches.drop_first()[k],
                msgs.drop_first()[k],
            ));
        lemma_fifo_order_flattened(name, batches.drop_first(), msgs.drop_first());
        lemma_fifo_order(
            name,
            batches.first(),
            batches.drop_first().flatten(),
            msgs.first(),
            msgs.drop_first().flatten(),
        );
    }
}

proof fn lemma_last_sep(name: Seq<char>, i: int)
    requires
        0 <= i <= name.len(),
        forall|j: int| i <= j < name.len() ==> name[j] != '/',
        i == 0 || name[i - 1] == '/',
    ensures
        last_sep(name) == i - 1,
    decreases name.len(),
{
    if name.len() == 0 {
    } else if name[name.len() - 1] == '/' {
        assert(i == name.len());
    } else {
        assert(i < name.len());
        let prefix = name.drop_last();
        assert(forall|j: int| i <= j < prefix.len() ==> prefix[j] == name[j]);
        if i > 0 {
            assert(prefix[i - 1] == name[i - 1]);
        }
        lemma_last_sep(prefix, i);
    }
}

/// A subscription handle: its fully-qualified name and the local queue of
/// not-yet-delivered envelopes, oldest first. The buffer is created empty,
/// grown only by absorbing pulled batches, and drained only by single-message
/// retrieval; it is owned by this handle alone.
#[derive(Debug, Clone)]
pub struct Subscription {
    /// Fully-qualified subscription name; the id is its last path segment.
    pub name: String,
    /// Envelopes pulled but not yet handed out, oldest first.
    pub buffer: VecDeque<Envelope>,
}

impl Subscription {
    /// Obtain a handle on the subscription of the given fully-qualified name,
    /// with an empty buffer.
    pub fn new(name: String) -> (s: Subscription)
        ensures
            s.name@ == name@,
            s.buffer@ == Seq::<Envelope>::empty(),
    {
        Subscription { name, buffer: VecDeque::new() }
    }

    /// The unique identifier of the subscription within its project: the last
    /// path segment of its fully-qualified name.
    pub fn id(&self) -> (r: &str)
        ensures
            r@ == id_of(self.name@),
    {
        let s: &str = self.name.as_str();
        let n: usize = s.unicode_len();
        let mut i: usize = n;
        loop
            invariant
                i <= n,
                n == s@.len(),
                forall|j: int| i <= j < n ==> s@[j] != '/',
            ensures
                i <= n,
                n == s@.len(),
                forall|j: int| i <= j < n ==> s@[j] != '/',
                i == 0 || s@[i - 1] == '/',
            decreases i,
        {
            if i == 0 {
                break;
            }
            if s.get_char(i - 1) == '/' {
                break;
            }
            i = i - 1;
        }
        proof {
            lemma_last_sep(s@, i as int);
        }
        s.substring_char(i, n)
    }

    /// The pull request that retrieval issues for this subscription under the
    /// given options.
    pub fn pull_request(&self, opts: &ReceiveOptions) -> (r: PullRequest)
        ensures
            r.subscription@ == self.name@,
            r.return_immediately == opts.return_immediately,
            r.max_messages == opts.max_messages,
    {
        PullRequest {
            subscription: self.name.clone(),
            return_immediately: opts.return_immediately,
            max_messages: opts.max_messages,
        }
    }

    /// One step of single-message retrieval. With a non-empty buffer the
    /// oldest envelope is popped and translated — never a pull; only with an
    /// empty buffer does the step call for a network pull, leaving the buffer
    /// untouched.
    pub fn receive_step(&mut self, opts: &ReceiveOptions) -> (r: ReceiveStep)
        ensures
            final(self).name@ == old(self).name@,
            old(self).buffer@.len() == 0 ==> {
                &&& final(self).buffer@ == old(self).buffer@
                &&& r matches ReceiveStep::NeedPull(req) && req.subscription@ == old(self).name@
                    && req.return_immediately == opts.return_immediately && req.max_messages
                    == opts.max_messages
            },
            old(self).buffer@.len() > 0 ==> {
                &&& final(self).buffer@ == old(self).buffer@.drop_first()
                &&& old(self).buffer@.first().wf() ==> (r matches ReceiveStep::Delivered(m)
                    && translated(old(self).name@, old(self).buffer@.first(), m))
                &&& !old(self).buffer@.first().wf() ==> r == ReceiveStep::Violation(
                    violation_of(old(self).buffer@.first()),
                )
            },
    {
        match self.buffer.pop_front() {
            Some(env) => match crate::message::translate(self.name.clone(), env) {
                Ok(m) => ReceiveStep::Delivered(m),
                Err(e) => ReceiveStep::Violation(e),
            },
            None => ReceiveStep::NeedPull(self.pull_request(opts)),
        }
    }

    /// Absorb the batch returned by a pull: append it whole to the buffer, in
    /// order. Returns whether retrieval has reached end-of-stream, which
    /// happens exactly when the batch is empty and the caller asked to return
    /// immediately; otherwise retrieval continues with another
    /// [`Subscription::receive_step`].
    pub fn absorb_pull(&mut self, envelopes: Vec<Envelope>, return_immediately: bool) -> (end:
        bool)
        ensures
            final(self).name@ == old(self).name@,
            final(self).buffer@ == old(self).buffer@ + envelopes@,
            end == (envelopes@.len() == 0 && return_immediately),
    {
        let end = envelopes.len() == 0 && return_immediately;
        let mut rest = envelopes;
        let ghost pre = self.buffer@;
        let ghost batch = rest@;
        while rest.len() > 0
            invariant
                self.name@ == old(self).name@,
                self.buffer@ + rest@ == pre + batch,
            decreases rest.len(),
        {
            let env = rest.remove(0);
            self.buffer.push_back(env);
            proof {
                assert(self.buffer@ + rest@ =~= pre + batch);
            }
        }
        proof {
            assert(self.buffer@ =~= pre + batch);
        }
        end
    }

    /// Consume the handle and produce the delete request for this
    /// subscription; after the transport performs it, no further operation on
    /// the subscription is valid.
    pub fn delete_request(self) -> (r: DeleteRequest)
        ensures
            r.subscription@ == self.name@,
    {
        DeleteRequest { subscription: self.name }
    }
}

} // verus!
