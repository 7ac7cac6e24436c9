//! The buffer between the hub-facing endpoint and the relay worker.

use vstd::multiset::lemma_multiset_empty_len;
use vstd::prelude::*;
use vstd::seq_lib::{to_multiset_build, to_multiset_remove};

verus! {

/// The text that the next `pop` hands out: the one pushed last.
pub open spec fn next_out(pending: Seq<Seq<char>>) -> Option<Seq<char>> {
    if pending.len() == 0 {
        None
    } else {
        Some(pending.last())
    }
}

/// What stays pending once the next text has been handed out.
pub open spec fn after_pop(pending: Seq<Seq<char>>) -> Seq<Seq<char>> {
    if pending.len() == 0 {
        pending
    } else {
        pending.drop_last()
    }
}

/// Texts waiting to be sent to the chat platform.
///
/// The view lists the pending texts in the order in which they were pushed.
/// The ordering policy is newest first: `pop` hands out the text that was
/// pushed last, so a burst of messages is relayed freshest first. The queue
/// itself is a plain value; whoever shares it between the endpoint and the
/// relay worker puts it behind one lock and holds that lock for exactly one
/// `push` or one `pop`.
#[derive(Debug)]
pub struct RelayQueue {
    items: Vec<String>,
}

impl View for RelayQueue {
    type V = Seq<Seq<char>>;

    closed spec fn view(&self) -> Seq<Seq<char>> {
        self.items.deep_view()
    }
}

impl RelayQueue {
    /// A queue with nothing pending.
    pub fn new() -> (queue: RelayQueue)
        ensures
            queue@ == Seq::<Seq<char>>::empty(),
    {
        let queue = RelayQueue { items: Vec::new() };
        assert(queue.items.deep_view() =~= Seq::<Seq<char>>::empty());
        queue
    }

    /// Number of pending texts.
    pub fn len(&self) -> (n: usize)
        ensures
            n == self@.len(),
    {
        self.items.len()
    }

    /// Whether nothing is pending.
    pub fn is_empty(&self) -> (empty: bool)
        ensures
            empty == (self@.len() == 0),
    {
        self.items.len() == 0
    }

    /// Appends `text`; nothing else changes.
    pub fn push(&mut self, text: String)
        ensures
            final(self)@ == old(self)@.push(text@),
    {
        self.items.push(text);
        assert(self.items.deep_view() =~= old(self).items.deep_view().push(text@));
    }

    /// Removes and returns the text pushed last, or returns `None` and leaves
    /// the queue as it is when nothing is pending.
    pub fn pop(&mut self) -> (text: Option<String>)
        ensures
            final(self)@ == after_pop(old(self)@),
            match text {
                Some(t) => next_out(old(self)@) == Some(t@),
                None => next_out(old(self)@) is None,
            },
    {
        let text = self.items.pop();
        assert(self.items.deep_view() =~= after_pop(old(self).items.deep_view()));
        text
    }
}

/// One operation on the queue, whichever side performs it.
pub enum QueueOp {
    Push(Seq<char>),
    Pop,
}

/// A queue together with the record of what has gone in and what has come
/// out of it, each in the order in which it happened.
pub struct History {
    pub pending: Seq<Seq<char>>,
    pub pushed: Seq<Seq<char>>,
    pub popped: Seq<Seq<char>>,
}

/// An empty queue that nothing has happened to.
pub open spec fn fresh() -> History {
    History { pending: Seq::empty(), pushed: Seq::empty(), popped: Seq::empty() }
}

/// The history after one more operation.
pub open spec fn apply(history: History, op: QueueOp) -> History {
    match op {
        QueueOp::Push(text) => History {
            pending: history.pending.push(text),
            pushed: history.pushed.push(text),
            popped: history.popped,
        },
        QueueOp::Pop => match next_out(history.pending) {
            Some(text) => History {
                pending: after_pop(history.pending),
                pushed: history.pushed,
                popped: history.popped.push(text),
            },
            None => history,
        },
    }
}

/// The history after `ops`, one after the other. Since each `push` and each
/// `pop` happens under the queue's lock, every run of concurrent producers
/// and consumers is one such sequence.
pub open spec fn replay(history: History, ops: Seq<QueueOp>) -> History
    decreases ops.len(),
{
    if ops.len() == 0 {
        history
    } else {
        apply(replay(history, ops.drop_last()), ops.last())
    }
}

/// Every text that went in has either come out or is still pending, as often
/// as it went in.
pub open spec fn conserved(history: History) -> bool {
    history.pushed.to_multiset() == history.popped.to_multiset().add(
        history.pending.to_multiset(),
    )
}

/// `n` pops in a row.
pub open spec fn pops(n: nat) -> Seq<QueueOp> {
    Seq::new(n, |i: int| QueueOp::Pop)
}

/// A text that is pushed and popped right away comes back as it went in, and
/// the queue is what it was before.
pub proof fn lemma_push_then_pop(pending: Seq<Seq<char>>, text: Seq<char>)
    ensures
        next_out(pending.push(text)) == Some(text),
        after_pop(pending.push(text)) == pending,
{
    assert(pending.push(text).drop_last() =~= pending);
}

proof fn lemma_apply_conserves(history: History, op: QueueOp)
    requires
        conserved(history),
    ensures
        conserved(apply(history, op)),
{
    match op {
        QueueOp::Push(text) => {
            to_multiset_build(history.pending, text);
            to_multiset_build(history.pushed, text);
            assert(history.popped.to_multiset().add(history.pending.to_multiset().insert(text))
                =~= history.popped.to_multiset().add(history.pending.to_multiset()).insert(text));
        },
        QueueOp::Pop => {
            if history.pending.len() > 0 {
                let last = history.pending.len() - 1;
                let text = history.pending[last];
                assert(history.pending.remove(last) =~= history.pending.drop_last());
                to_multiset_remove(history.pending, last);
                to_multiset_build(history.popped, text);
                history.pending.to_multiset_ensures();
                assert(history.pending.contains(text));
                assert(history.popped.to_multiset().insert(text).add(
                    history.pending.to_multiset().remove(text),
                ) =~= history.popped.to_multiset().add(history.pending.to_multiset()));
            }
        },
    }
}

/// Whatever pushes and pops happen in whatever order, nothing is lost and
/// nothing is handed out twice: the texts that went in are exactly those
/// that came out plus those still pending, each as often as it went in.
pub proof fn lemma_nothing_lost_nothing_doubled(ops: Seq<QueueOp>)
    ensures
        conserved(replay(fresh(), ops)),
    decreases ops.len(),
{
    if ops.len() == 0 {
        lemma_empty_has_nothing();
        assert(fresh().pushed.to_multiset() =~= fresh().popped.to_multiset().add(
            fresh().pending.to_multiset(),
        ));
    } else {
        lemma_nothing_lost_nothing_doubled(ops.drop_last());
        lemma_apply_conserves(replay(fresh(), ops.drop_last()), ops.last());
    }
}

/// Once pushes and pops in whatever order are followed by as many pops as
/// texts are still pending, the queue is empty and every text that was ever
/// pushed has been popped exactly as often as it was pushed.
pub proof fn lemma_every_push_is_popped_once(ops: Seq<QueueOp>)
    ensures
        ({
            let history = replay(fresh(), ops);
            let end = replay(history, pops(history.pending.len()));
            &&& end.pending.len() == 0
            &&& end.pushed == history.pushed
            &&& end.popped.to_multiset() == history.pushed.to_multiset()
        }),
{
    let history = replay(fresh(), ops);
    let drain = pops(history.pending.len());
    let end = replay(history, drain);
    lemma_nothing_lost_nothing_doubled(ops);
    lemma_pops(history, history.pending.len());
    lemma_replay_conserves(history, drain);
    assert(end.pending =~= Seq::<Seq<char>>::empty());
    lemma_empty_has_nothing();
    assert(end.popped.to_multiset().add(end.pending.to_multiset()) =~= end.popped.to_multiset());
}

proof fn lemma_empty_has_nothing()
    ensures
        forall|text: Seq<char>| Seq::<Seq<char>>::empty().to_multiset().count(text) == 0,
{
    let nothing = Seq::<Seq<char>>::empty();
    nothing.to_multiset_ensures();
    lemma_multiset_empty_len(nothing.to_multiset());
}

proof fn lemma_replay_conserves(history: History, ops: Seq<QueueOp>)
    requires
        conserved(history),
    ensures
        conserved(replay(history, ops)),
    decreases ops.len(),
{
    if ops.len() > 0 {
        lemma_replay_conserves(history, ops.drop_last());
        lemma_apply_conserves(replay(history, ops.drop_last()), ops.last());
    }
}

proof fn lemma_pops(history: History, n: nat)
    requires
        n <= history.pending.len(),
    ensures
        replay(history, pops(n)).pending.len() == history.pending.len() - n,
        replay(history, pops(n)).pushed == history.pushed,
    decreases n,
{
    if n > 0 {
        assert(pops(n).drop_last() =~= pops((n - 1) as nat));
        lemma_pops(history, (n - 1) as nat);
    }
}

} // verus!
