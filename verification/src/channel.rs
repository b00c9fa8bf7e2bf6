//! Lossy broadcast channels for telemetry snapshots.
//!
//! Each channel has one publisher and any number of independent
//! subscribers. Publishing never blocks and never fails: when the ring
//! is full the oldest entry is evicted. A subscriber that has fallen
//! behind the ring is told how many messages it missed and is moved to
//! the oldest retained entry, from which it resumes consuming fresh
//! messages; a lag is a warning, never a dead end. The channel is
//! specified against the ghost log of everything ever published.

use vstd::prelude::*;

verus! {

/// What a subscriber receives: the next message, or the number of
/// messages it missed because the ring evicted them.
#[derive(Clone, Copy, Debug, PartialEq)]
pub enum WaitResult<T> {
    Message(T),
    Lagged(u64),
}

/// A bounded, lossy, single-publisher broadcast channel.
pub struct TelemetryChannel<T: Copy> {
    depth: usize,
    buffer: Vec<T>,
    published: u64,
    cursors: Vec<u64>,
    log: Ghost<Seq<T>>,
}

impl<T: Copy> TelemetryChannel<T> {
    /// Every message ever published on this channel, oldest first.
    pub closed spec fn spec_log(&self) -> Seq<T> {
        self.log@
    }

    /// The ring capacity the channel was created with.
    pub closed spec fn spec_depth(&self) -> int {
        self.depth as int
    }

    pub closed spec fn spec_num_subscribers(&self) -> int {
        self.cursors@.len() as int
    }

    /// Position in the log of the next message this subscriber reads.
    pub closed spec fn spec_cursor(&self, sub: int) -> int {
        self.cursors@[sub] as int
    }

    /// Position in the log of the oldest message the ring still holds;
    /// everything before it has been evicted.
    pub open spec fn spec_oldest_retained(&self) -> int {
        if self.spec_log().len() >= self.spec_depth() {
            self.spec_log().len() - self.spec_depth()
        } else {
            0
        }
    }

    /// The ring holds the newest messages of the log, up to its depth,
    /// and every cursor stays within the log.
    pub closed spec fn wf(&self) -> bool {
        &&& self.depth >= 1
        &&& self.published as int == self.log@.len()
        &&& self.buffer@.len() == self.log@.len() - self.spec_oldest_retained()
        &&& self.buffer@ == self.log@.skip(self.spec_oldest_retained())
        &&& forall|i: int|
            0 <= i < self.cursors@.len() ==> self.cursors@[i] as int <= self.log@.len()
    }

    /// A fresh channel holding up to `depth` messages, with no history
    /// and no subscribers.
    pub fn new(depth: usize) -> (r: Self)
        requires
            depth >= 1,
        ensures
            r.wf(),
            r.spec_log() == Seq::<T>::empty(),
            r.spec_depth() == depth,
            r.spec_num_subscribers() == 0,
    {
        let r = TelemetryChannel {
            depth,
            buffer: Vec::new(),
            published: 0,
            cursors: Vec::new(),
            log: Ghost(Seq::empty()),
        };
        proof {
            assert(r.buffer@ =~= r.log@.skip(r.spec_oldest_retained()));
        }
        r
    }

    pub fn depth(&self) -> (r: usize)
        ensures
            r == self.spec_depth(),
    {
        self.depth
    }

    /// Register a new subscriber. It observes only messages published
    /// after this call.
    pub fn subscriber(&mut self) -> (sub: usize)
        requires
            old(self).wf(),
        ensures
            final(self).wf(),
            final(self).spec_log() == old(self).spec_log(),
            final(self).spec_depth() == old(self).spec_depth(),
            final(self).spec_num_subscribers() == old(self).spec_num_subscribers() + 1,
            sub == old(self).spec_num_subscribers(),
            final(self).spec_cursor(sub as int) == old(self).spec_log().len(),
            forall|i: int|
                0 <= i < old(self).spec_num_subscribers() ==> final(self).spec_cursor(i) == old(
                    self,
                ).spec_cursor(i),
    {
        let sub = self.cursors.len();
        self.cursors.push(self.published);
        sub
    }

    /// Publish a message. Publishing always succeeds from the producer's
    /// point of view: the message is appended to the log, and if the
    /// ring was full its oldest entry is evicted.
    pub fn publish_immediate(&mut self, msg: T)
        requires
            old(self).wf(),
            old(self).spec_log().len() < u64::MAX,
        ensures
            final(self).wf(),
            final(self).spec_log() == old(self).spec_log().push(msg),
            final(self).spec_depth() == old(self).spec_depth(),
            final(self).spec_num_subscribers() == old(self).spec_num_subscribers(),
            forall|i: int|
                0 <= i < old(self).spec_num_subscribers() ==> final(self).spec_cursor(i) == old(
                    self,
                ).spec_cursor(i),
    {
        if self.buffer.len() == self.depth {
            self.buffer.remove(0);
        }
        self.buffer.push(msg);
        self.published = self.published + 1;
        proof {
            self.log@ = self.log@.push(msg);
        }
        proof {
            assert(self.buffer@ =~= self.log@.skip(self.spec_oldest_retained()));
        }
    }

    /// Poll this subscriber's next message. `None` when it has seen
    /// everything published so far; a lagged result moves the subscriber
    /// to the oldest retained message, after which a message is
    /// immediately available.
    pub fn try_next_message(&mut self, sub: usize) -> (r: Option<WaitResult<T>>)
        requires
            old(self).wf(),
            sub < old(self).spec_num_subscribers(),
        ensures
            final(self).wf(),
            final(self).spec_log() == old(self).spec_log(),
            final(self).spec_depth() == old(self).spec_depth(),
            final(self).spec_num_subscribers() == old(self).spec_num_subscribers(),
            forall|i: int|
                0 <= i < old(self).spec_num_subscribers() && i != sub
                    ==> final(self).spec_cursor(i) == old(self).spec_cursor(i),
            old(self).spec_cursor(sub as int) == old(self).spec_log().len()
                ==> r is None
                    && final(self).spec_cursor(sub as int) == old(self).spec_cursor(sub as int),
            old(self).spec_cursor(sub as int) < old(self).spec_oldest_retained()
                ==> r == Some(WaitResult::Lagged::<T>(
                        (old(self).spec_oldest_retained() - old(self).spec_cursor(sub as int)) as u64,
                    ))
                    && final(self).spec_cursor(sub as int) == old(self).spec_oldest_retained(),
            old(self).spec_oldest_retained() <= old(self).spec_cursor(sub as int)
                < old(self).spec_log().len()
                ==> r == Some(WaitResult::Message(
                        old(self).spec_log()[old(self).spec_cursor(sub as int)],
                    ))
                    && final(self).spec_cursor(sub as int) == old(self).spec_cursor(sub as int) + 1,
            r matches Some(WaitResult::Lagged(_))
                ==> final(self).spec_cursor(sub as int) < final(self).spec_log().len(),
    {
        let cursor = self.cursors[sub];
        if cursor == self.published {
            return None;
        }
        let oldest = self.published - self.buffer.len() as u64;
        if cursor < oldest {
            let missed = oldest - cursor;
            self.cursors.set(sub, oldest);
            Some(WaitResult::Lagged(missed))
        } else {
            let idx = (cursor - oldest) as usize;
            let msg = self.buffer[idx];
            self.cursors.set(sub, cursor + 1);
            Some(WaitResult::Message(msg))
        }
    }

    /// Liveness across a lag: wherever a subscriber has fallen behind
    /// the ring, the position it is moved to still lies inside the log,
    /// so the receive after the lagged one yields a message. A lag can
    /// therefore never starve a consumer, and the publisher never waits
    /// on any consumer.
    pub proof fn lemma_lagged_subscriber_resumes(&self, sub: int)
        requires
            self.wf(),
            0 <= sub < self.spec_num_subscribers(),
            self.spec_cursor(sub) < self.spec_oldest_retained(),
        ensures
            self.spec_oldest_retained() < self.spec_log().len(),
    {
    }
}

} // verus!
