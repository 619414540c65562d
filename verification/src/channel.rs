//! The one-way update channel between the reload worker and the render
//! loop.
//!
//! The channel is the only object the two sides share. It is a plain
//! first-in-first-out queue of [`WorkerUpdate`] values, handed over by
//! transfer of ownership: the producer appends and never blocks, the
//! consumer takes from the front and never waits.

use crate::background_worker::WorkerUpdate;
use std::collections::VecDeque;
use vstd::prelude::*;

verus! {

/// An unbounded first-in-first-out queue of worker updates.
pub struct UpdateChannel {
    queue: VecDeque<WorkerUpdate>,
}

impl View for UpdateChannel {
    type V = Seq<WorkerUpdate>;

    closed spec fn view(&self) -> Seq<WorkerUpdate> {
        self.queue@
    }
}

impl UpdateChannel {
    /// An empty channel.
    pub fn new() -> (c: UpdateChannel)
        ensures
            c@ == Seq::<WorkerUpdate>::empty(),
    {
        UpdateChannel { queue: VecDeque::new() }
    }

    /// Enqueues one update at the back. Never blocks and never fails:
    /// the queue is unbounded.
    pub fn send(&mut self, u: WorkerUpdate)
        ensures
            final(self)@ == old(self)@.push(u),
    {
        self.queue.push_back(u);
    }

    /// Takes the earliest queued update, or `None` when the channel is
    /// empty. Never waits for the producer.
    pub fn try_recv(&mut self) -> (r: Option<WorkerUpdate>)
        ensures
            match r {
                Some(u) => {
                    &&& old(self)@.len() > 0
                    &&& u == old(self)@[0]
                    &&& final(self)@ == old(self)@.subrange(1, old(self)@.len() as int)
                },
                None => {
                    &&& old(self)@.len() == 0
                    &&& final(self)@ == old(self)@
                },
            },
    {
        self.queue.pop_front()
    }

    /// How many updates are queued.
    pub fn len(&self) -> (n: usize)
        ensures
            n == self@.len(),
    {
        self.queue.len()
    }
}

/// The queued contents after enqueuing the updates `us`, front to back,
/// onto a channel whose contents are `s`.
pub open spec fn spec_send_all(s: Seq<WorkerUpdate>, us: Seq<WorkerUpdate>) -> Seq<WorkerUpdate>
    decreases us.len(),
{
    if us.len() == 0 {
        s
    } else {
        spec_send_all(s.push(us[0]), us.skip(1))
    }
}

/// Enqueuing appends in order: after sending `us` onto a channel holding
/// `s`, the queue holds `s` followed by `us`, unshuffled.
pub proof fn lemma_send_all_appends(s: Seq<WorkerUpdate>, us: Seq<WorkerUpdate>)
    ensures
        spec_send_all(s, us) == s + us,
    decreases us.len(),
{
    if us.len() == 0 {
        assert(spec_send_all(s, us) == s + us);
    } else {
        lemma_send_all_appends(s.push(us[0]), us.skip(1));
        assert(s.push(us[0]) + us.skip(1) == s + us);
    }
}

/// Channel ordering: updates enqueued onto an empty channel sit in the
/// queue exactly in the order they were sent; since each receive hands out
/// the earliest queued update, the consumer observes the sequence `us`
/// in the order it was enqueued.
pub proof fn lemma_channel_fifo(us: Seq<WorkerUpdate>)
    ensures
        spec_send_all(Seq::<WorkerUpdate>::empty(), us) == us,
{
    lemma_send_all_appends(Seq::<WorkerUpdate>::empty(), us);
    assert(Seq::<WorkerUpdate>::empty() + us == us);
}

} // verus!
