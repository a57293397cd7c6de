//! The work channel: an ordered, closable mailbox of job tickets.
//!
//! Producers push tickets, consumers pop them; each ticket is delivered to
//! exactly one consumer. Once the channel is closed, pushes fail and a pop
//! on an empty queue reports the closed signal instead of a job.

use vstd::prelude::*;

verus! {

/// Abstract state of a work channel: the pending tickets in delivery
/// order, and whether the producer side is still open.
#[verifier::ext_equal]
pub ghost struct ChannelModel {
    pub queue: Seq<u64>,
    pub open: bool,
}

/// What a consumer's pop reports: one delivered job ticket, or the signal
/// that the channel is closed and drained.
#[derive(Clone, Copy, PartialEq, Eq, Structural, Debug)]
pub enum PopResult {
    Job(u64),
    Closed,
}

/// The failure a push reports when the channel is closed; it hands the
/// undelivered ticket back to the caller.
#[derive(Clone, Copy, PartialEq, Eq, Structural, Debug)]
pub struct SendError {
    pub job: u64,
}

/// A multi-producer, multi-consumer mailbox of job tickets with an
/// explicit closed state.
pub struct WorkChannel {
    queue: Vec<u64>,
    open: bool,
}

impl View for WorkChannel {
    type V = ChannelModel;

    closed spec fn view(&self) -> ChannelModel {
        ChannelModel { queue: self.queue@, open: self.open }
    }
}

impl WorkChannel {
    /// A fresh channel: open, with nothing pending.
    pub fn new() -> (c: WorkChannel)
        ensures
            c@.open,
            c@.queue == Seq::<u64>::empty(),
    {
        WorkChannel { queue: Vec::new(), open: true }
    }

    /// Enqueue a ticket for delivery to exactly one consumer. Fails, and
    /// hands the ticket back, if and only if the channel is closed.
    pub fn push(&mut self, job: u64) -> (r: Result<(), SendError>)
        ensures
            old(self)@.open ==> r is Ok
                && final(self)@.open
                && final(self)@.queue == old(self)@.queue.push(job),
            !old(self)@.open ==> (r matches Err(e) && e.job == job)
                && final(self)@ == old(self)@,
    {
        if self.open {
            self.queue.push(job);
            Ok(())
        } else {
            Err(SendError { job })
        }
    }

    /// Take the oldest pending ticket, or observe the closed signal when
    /// the channel is closed and empty. A consumer of an open, empty
    /// channel blocks instead; that case is excluded by precondition, so a
    /// caller reaches this transition only once a job or closure is there
    /// to observe.
    pub fn pop(&mut self) -> (r: PopResult)
        requires
            old(self)@.queue.len() > 0 || !old(self)@.open,
        ensures
            old(self)@.queue.len() > 0 ==> r == PopResult::Job(old(self)@.queue[0])
                && final(self)@.queue == old(self)@.queue.drop_first()
                && final(self)@.open == old(self)@.open,
            old(self)@.queue.len() == 0 ==> r == PopResult::Closed
                && final(self)@ == old(self)@,
    {
        if self.queue.len() > 0 {
            let j = self.queue.remove(0);
            proof {
                assert(old(self)@.queue.remove(0) =~= old(self)@.queue.drop_first());
            }
            PopResult::Job(j)
        } else {
            PopResult::Closed
        }
    }

    /// Close the channel: no further push is accepted, pending tickets
    /// stay, and every consumer observes the closed signal once the queue
    /// drains. Closing an already-closed channel changes nothing.
    pub fn close(&mut self)
        ensures
            !final(self)@.open,
            final(self)@.queue == old(self)@.queue,
    {
        self.open = false;
    }

    /// Whether the producer side is still open.
    pub fn is_open(&self) -> (b: bool)
        ensures
            b == self@.open,
    {
        self.open
    }

    /// How many tickets are waiting to be delivered.
    pub fn pending(&self) -> (n: usize)
        ensures
            n == self@.queue.len(),
    {
        self.queue.len()
    }
}

} // verus!
