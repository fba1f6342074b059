//! The queue of requests that wait for the next batch, and the rule that
//! decides when a batch leaves it.

use vstd::prelude::*;

verus! {

/// One call of `load` that missed the cache: the key it asks for and the
/// ticket under which its caller waits for the answer.
#[derive(Debug, Clone, Copy, PartialEq, Eq)]
pub struct BatchRequest<K> {
    /// The key to load.
    pub key: K,
    /// Names the waiting caller. A loader draws the tickets of its requests
    /// from a counter, one after the other.
    pub ticket: u64,
}

/// The ticket that follows `ticket`. After the largest ticket the count
/// starts again at zero.
pub open spec fn ticket_after(ticket: u64) -> u64 {
    if ticket == u64::MAX {
        0
    } else {
        (ticket + 1) as u64
    }
}

/// The ticket that was drawn `back` draws before the counter came to stand
/// at `next`.
pub open spec fn ticket_before(next: u64, back: int) -> u64 {
    ((next - back) % 0x1_0000_0000_0000_0000) as u64
}

/// The tickets of `requests` were drawn in a row, and after the last of them
/// the counter stood at `next`.
pub open spec fn drawn_in_a_row<K>(requests: Seq<BatchRequest<K>>, next: u64) -> bool {
    forall|i: int|
        0 <= i < requests.len() ==> (#[trigger] requests[i]).ticket == ticket_before(
            next,
            requests.len() - i,
        )
}

/// Tickets drawn in a row differ from each other, as long as there are fewer
/// of them than a counter can count.
pub proof fn lemma_tickets_in_a_row_differ<K>(
    requests: Seq<BatchRequest<K>>,
    next: u64,
    i: int,
    j: int,
)
    requires
        drawn_in_a_row(requests, next),
        requests.len() <= u64::MAX,
        0 <= i < requests.len(),
        0 <= j < requests.len(),
        i != j,
    ensures
        requests[i].ticket != requests[j].ticket,
{
}

/// A row of tickets stays a row when the next ticket is drawn for one more
/// request.
pub proof fn lemma_row_grows<K>(requests: Seq<BatchRequest<K>>, next: u64, request: BatchRequest<K>)
    requires
        drawn_in_a_row(requests, next),
        request.ticket == next,
    ensures
        drawn_in_a_row(requests.push(request), ticket_after(next)),
{
    let grown = requests.push(request);
    assert forall|i: int| 0 <= i < grown.len() implies (#[trigger] grown[i]).ticket
        == ticket_before(ticket_after(next), grown.len() - i) by {
        if i < requests.len() {
            assert(grown[i] == requests[i]);
        }
    }
}

/// What the caller has to do after a request has joined the queue.
#[derive(Debug)]
pub enum EnqueueAction<K> {
    /// The queue reached the size threshold. The caller owns the batch, has to
    /// cancel the timer if one runs, and has to execute the batch now.
    Flush(Vec<BatchRequest<K>>),
    /// The request is the first since the last flush: the caller has to start
    /// the delay timer.
    ArmTimer,
    /// A timer runs already; the request rides it.
    Wait,
}

/// The queue after `request` has joined `pending`: the requests that still
/// wait, whether a timer is armed, and the batch that left, if one did. A
/// batch leaves when the list, the new request included, has reached
/// `max_batch_size`; it is then the whole list.
pub open spec fn after_enqueue<K>(
    pending: Seq<BatchRequest<K>>,
    request: BatchRequest<K>,
    max_batch_size: usize,
) -> (Seq<BatchRequest<K>>, bool, Option<Seq<BatchRequest<K>>>) {
    let grown = pending.push(request);
    if grown.len() >= max_batch_size {
        (Seq::empty(), false, Some(grown))
    } else {
        (grown, true, None)
    }
}

/// The requests not yet handed to a batch, in the order in which they came,
/// and whether a delay timer is armed for them.
pub struct BatchQueue<K> {
    pending: Vec<BatchRequest<K>>,
    timer_armed: bool,
}

impl<K> BatchQueue<K> {
    /// The waiting requests, oldest first.
    pub closed spec fn pending(&self) -> Seq<BatchRequest<K>> {
        self.pending@
    }

    /// Whether a delay timer is armed.
    pub closed spec fn timer_armed(&self) -> bool {
        self.timer_armed
    }

    /// An empty queue without a timer.
    pub fn new() -> (queue: Self)
        ensures
            queue.pending() == Seq::<BatchRequest<K>>::empty(),
            !queue.timer_armed(),
    {
        BatchQueue { pending: Vec::new(), timer_armed: false }
    }

    /// The number of waiting requests.
    pub fn len(&self) -> (n: usize)
        ensures
            n == self.pending().len(),
    {
        self.pending.len()
    }

    /// Tells whether a delay timer is armed.
    pub fn is_timer_armed(&self) -> (armed: bool)
        ensures
            armed == self.timer_armed(),
    {
        self.timer_armed
    }

    /// Appends `request` and decides what follows. Nothing is merged here:
    /// every request, also one for a key that waits already, gets its own
    /// place. Once `max_batch_size` requests wait, the whole list leaves the
    /// queue in one piece, the new request last, and the timer is disarmed.
    /// Otherwise the first request after a flush arms the timer, and later
    /// ones ride it.
    pub fn enqueue(&mut self, request: BatchRequest<K>, max_batch_size: usize) -> (action:
        EnqueueAction<K>)
        ensures
            final(self).pending() == after_enqueue(
                old(self).pending(),
                request,
                max_batch_size,
            ).0,
            final(self).timer_armed() == after_enqueue(
                old(self).pending(),
                request,
                max_batch_size,
            ).1,
            match action {
                EnqueueAction::Flush(batch) => after_enqueue(
                    old(self).pending(),
                    request,
                    max_batch_size,
                ).2 == Some(batch@),
                EnqueueAction::ArmTimer => after_enqueue(
                    old(self).pending(),
                    request,
                    max_batch_size,
                ).2 is None && !old(self).timer_armed(),
                EnqueueAction::Wait => after_enqueue(
                    old(self).pending(),
                    request,
                    max_batch_size,
                ).2 is None && old(self).timer_armed(),
            },
    {
        self.pending.push(request);
        if self.pending.len() >= max_batch_size {
            let mut batch: Vec<BatchRequest<K>> = Vec::new();
            std::mem::swap(&mut self.pending, &mut batch);
            self.timer_armed = false;
            EnqueueAction::Flush(batch)
        } else if !self.timer_armed {
            self.timer_armed = true;
            EnqueueAction::ArmTimer
        } else {
            EnqueueAction::Wait
        }
    }

    /// The delay timer has fired: everything that waits leaves the queue in
    /// one piece and the timer is disarmed. The list may be empty, where a
    /// flush by size came first; then there is nothing to execute.
    pub fn take_on_timer(&mut self) -> (batch: Vec<BatchRequest<K>>)
        ensures
            batch@ == old(self).pending(),
            final(self).pending() == Seq::<BatchRequest<K>>::empty(),
            !final(self).timer_armed(),
    {
        let mut batch: Vec<BatchRequest<K>> = Vec::new();
        std::mem::swap(&mut self.pending, &mut batch);
        self.timer_armed = false;
        batch
    }
}

impl<K> Default for BatchQueue<K> {
    fn default() -> (queue: Self)
        ensures
            queue.pending() == Seq::<BatchRequest<K>>::empty(),
            !queue.timer_armed(),
    {
        BatchQueue::new()
    }
}

} // verus!
