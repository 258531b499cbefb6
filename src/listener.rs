use vstd::prelude::*;

use crate::addr::PeerAddr;
use crate::connection::{lemma_handle_parts, VsockStreamConnectable};

verus! {

broadcast use lemma_handle_parts;

/// Owns a bound listener; each poll of the stream makes one accept attempt
/// on it and turns the outcome into one stream item by `accepted_item`.
pub struct VsockListenerStream<L> {
    pub inner: L,
}

impl<L> VsockListenerStream<L> {
    pub fn new(vsock_listener: L) -> (r: Self)
        ensures
            r.inner == vsock_listener,
    {
        VsockListenerStream { inner: vsock_listener }
    }
}

/// The outcome of one accept attempt on a listener.
pub enum AcceptPoll<S, E> {
    /// No connection is waiting; the caller is woken when one arrives.
    Pending,
    /// A connection was accepted, with its peer address when it could be read.
    Accepted(S, Option<PeerAddr>),
    /// The accept attempt failed.
    Failed(E),
}

/// One poll of a stream: not ready yet, or ready with an item (`None` would
/// end the stream).
pub enum StreamPoll<T> {
    Pending,
    Ready(Option<T>),
}

/// The stream item that an accept outcome becomes.
pub open spec fn item_spec<S, E>(outcome: AcceptPoll<S, E>) -> StreamPoll<
    Result<VsockStreamConnectable<S>, E>,
> {
    match outcome {
        AcceptPoll::Pending => StreamPoll::Pending,
        AcceptPoll::Accepted(s, peer) => StreamPoll::Ready(
            Some(Ok(VsockStreamConnectable::handle_spec(s, peer))),
        ),
        AcceptPoll::Failed(e) => StreamPoll::Ready(Some(Err(e))),
    }
}

/// Turns the outcome of one accept attempt into the stream's answer to one
/// poll: pending stays pending, an accepted socket becomes a handle holding
/// its peer address, and a failure becomes one error item. The stream never
/// ends, and an error does not end it either: the next poll tries again.
pub fn accepted_item<S, E>(outcome: AcceptPoll<S, E>) -> (r: StreamPoll<
    Result<VsockStreamConnectable<S>, E>,
>)
    ensures
        r == item_spec(outcome),
        r != StreamPoll::<Result<VsockStreamConnectable<S>, E>>::Ready(None),
{
    match outcome {
        AcceptPoll::Pending => StreamPoll::Pending,
        AcceptPoll::Accepted(s, peer) => StreamPoll::Ready(
            Some(Ok(VsockStreamConnectable::new(s, peer))),
        ),
        AcceptPoll::Failed(e) => StreamPoll::Ready(Some(Err(e))),
    }
}

/// The items that a stream emits over a run of accept outcomes, in order.
pub open spec fn emitted<S, E>(outcomes: Seq<AcceptPoll<S, E>>) -> Seq<
    Result<VsockStreamConnectable<S>, E>,
>
    decreases outcomes.len(),
{
    if outcomes.len() == 0 {
        seq![]
    } else {
        let before = emitted(outcomes.drop_last());
        match item_spec(outcomes.last()) {
            StreamPoll::Ready(Some(item)) => before.push(item),
            _ => before,
        }
    }
}

/// The sockets accepted over a run of accept outcomes, in arrival order,
/// each with its peer address.
pub open spec fn accepted<S, E>(outcomes: Seq<AcceptPoll<S, E>>) -> Seq<(S, Option<PeerAddr>)>
    decreases outcomes.len(),
{
    if outcomes.len() == 0 {
        seq![]
    } else {
        let before = accepted(outcomes.drop_last());
        match outcomes.last() {
            AcceptPoll::Accepted(s, peer) => before.push((s, peer)),
            _ => before,
        }
    }
}

/// Over any run of accept attempts without failures, the stream emits exactly
/// one item per accepted connection, in arrival order, each one the handle
/// that wraps that connection's own socket and peer address.
pub proof fn lemma_emits_each_accepted<S, E>(outcomes: Seq<AcceptPoll<S, E>>)
    requires
        forall|i: int| 0 <= i < outcomes.len() ==> !(#[trigger] outcomes[i] is Failed),
    ensures
        emitted(outcomes).len() == accepted(outcomes).len(),
        forall|i: int|
            0 <= i < accepted(outcomes).len() ==> #[trigger] emitted(outcomes)[i] == Ok::<
                VsockStreamConnectable<S>,
                E,
            >(VsockStreamConnectable::handle_spec(accepted(outcomes)[i].0, accepted(outcomes)[i].1)),
    decreases outcomes.len(),
{
    if outcomes.len() > 0 {
        let front = outcomes.drop_last();
        assert forall|i: int| 0 <= i < front.len() implies !(#[trigger] front[i] is Failed) by {
            assert(front[i] == outcomes[i]);
        }
        lemma_emits_each_accepted(front);
        assert(!(outcomes[outcomes.len() - 1] is Failed));
    }
}

/// The items emitted over two runs of accept outcomes, one after the other,
/// are those of the first run followed by those of the second.
pub proof fn lemma_emitted_concat<S, E>(a: Seq<AcceptPoll<S, E>>, b: Seq<AcceptPoll<S, E>>)
    ensures
        emitted(a + b) == emitted(a) + emitted(b),
    decreases b.len(),
{
    if b.len() == 0 {
        assert(a + b =~= a);
        assert(emitted(b) =~= seq![]);
        assert(emitted(a) + emitted(b) =~= emitted(a));
    } else {
        let b0 = b.drop_last();
        lemma_emitted_concat(a, b0);
        assert((a + b).drop_last() =~= a + b0);
        assert((a + b).last() == b.last());
        match item_spec(b.last()) {
            StreamPoll::Ready(Some(item)) => {
                assert(emitted(a) + emitted(b0).push(item) =~= (emitted(a) + emitted(b0)).push(item));
            },
            _ => {},
        }
    }
}

/// A failed accept surfaces as exactly one error item, and the stream goes
/// on: what is accepted afterwards is emitted as if the failure had not been.
pub proof fn lemma_failure_is_one_item<S, E>(
    before: Seq<AcceptPoll<S, E>>,
    e: E,
    after: Seq<AcceptPoll<S, E>>,
)
    ensures
        emitted(before.push(AcceptPoll::Failed(e)) + after) == emitted(before).push(Err(e)) + emitted(after),
{
    lemma_emitted_concat(before.push(AcceptPoll::Failed(e)), after);
    assert(before.push(AcceptPoll::Failed(e)).drop_last() =~= before);
}

} // verus!
