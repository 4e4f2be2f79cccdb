//! The bounded queue between the accept loop and the coordinator.
//!
//! Connections wait in arrival order. A full queue takes nothing more and
//! hands the connection back to the accept loop, which holds it until there
//! is room: slow processing throttles acceptance, and no connection is ever
//! dropped.

use std::collections::VecDeque;
use vstd::prelude::*;

verus! {

/// The capacity that the receiver runs with.
pub const QUEUE_CAPACITY: usize = 10;

/// Connections that were accepted and not yet processed, oldest first.
pub struct ConnectionQueue<T> {
    waiting: VecDeque<T>,
    capacity: usize,
}

impl<T> View for ConnectionQueue<T> {
    type V = Seq<T>;

    closed spec fn view(&self) -> Seq<T> {
        self.waiting@
    }
}

/// The queue after `connection` was offered to it.
pub open spec fn after_offer<T>(waiting: Seq<T>, capacity: nat, connection: T) -> Seq<T> {
    if waiting.len() < capacity {
        waiting.push(connection)
    } else {
        waiting
    }
}

/// The queue after one connection was taken from it.
pub open spec fn after_take<T>(waiting: Seq<T>) -> Seq<T> {
    if waiting.len() > 0 {
        waiting.drop_first()
    } else {
        waiting
    }
}

/// What the accept loop and the coordinator do to the queue.
pub enum QueueOp<T> {
    /// The accept loop offers a connection.
    Offer(T),
    /// The coordinator asks for one.
    Take,
}

/// A queue together with all that went through it.
pub struct Intake<T> {
    /// The connections that wait, oldest first.
    pub waiting: Seq<T>,
    /// The connections that the queue took in, in the order of their arrival.
    pub admitted: Seq<T>,
    /// The connections that the coordinator got, in the order in which it got them.
    pub delivered: Seq<T>,
}

/// The queue and its past after `ops`, starting empty.
pub open spec fn intake_after<T>(ops: Seq<QueueOp<T>>, capacity: nat) -> Intake<T>
    decreases ops.len(),
{
    if ops.len() == 0 {
        Intake { waiting: Seq::empty(), admitted: Seq::empty(), delivered: Seq::empty() }
    } else {
        let before = intake_after(ops.drop_last(), capacity);
        match ops.last() {
            QueueOp::Offer(connection) => Intake {
                waiting: after_offer(before.waiting, capacity, connection),
                admitted: if before.waiting.len() < capacity {
                    before.admitted.push(connection)
                } else {
                    before.admitted
                },
                delivered: before.delivered,
            },
            QueueOp::Take => Intake {
                waiting: after_take(before.waiting),
                admitted: before.admitted,
                delivered: if before.waiting.len() > 0 {
                    before.delivered.push(before.waiting[0])
                } else {
                    before.delivered
                },
            },
        }
    }
}

/// Whatever the accept loop and the coordinator do, and in whatever order:
/// never more than `capacity` connections wait, and every connection that
/// the queue took in either waits still or was delivered, each once and in
/// the order of arrival.
pub proof fn lemma_nothing_is_lost<T>(ops: Seq<QueueOp<T>>, capacity: nat)
    ensures
        intake_after(ops, capacity).waiting.len() <= capacity,
        intake_after(ops, capacity).admitted == intake_after(ops, capacity).delivered
            + intake_after(ops, capacity).waiting,
    decreases ops.len(),
{
    let now = intake_after(ops, capacity);
    if ops.len() == 0 {
        assert(now.admitted =~= now.delivered + now.waiting);
    } else {
        lemma_nothing_is_lost(ops.drop_last(), capacity);
        assert(now.admitted =~= now.delivered + now.waiting);
    }
}

/// A full queue refuses: an offer changes it only while fewer than
/// `capacity` connections wait.
pub proof fn lemma_full_queue_refuses<T>(waiting: Seq<T>, capacity: nat, connection: T)
    requires
        waiting.len() >= capacity,
    ensures
        after_offer(waiting, capacity, connection) == waiting,
{
}

/// Room that a take made is room for the next offer.
pub proof fn lemma_take_makes_room<T>(waiting: Seq<T>, capacity: nat, connection: T)
    requires
        0 < waiting.len() <= capacity,
    ensures
        after_offer(after_take(waiting), capacity, connection) == waiting.drop_first().push(
            connection,
        ),
{
}

impl<T> ConnectionQueue<T> {
    #[verifier::type_invariant]
    spec fn within_capacity(&self) -> bool {
        self.waiting@.len() <= self.capacity
    }

    /// The largest number of connections that may wait.
    pub closed spec fn spec_capacity(&self) -> nat {
        self.capacity as nat
    }

    /// An empty queue with room for `capacity` connections.
    pub fn new(capacity: usize) -> (queue: Self)
        ensures
            queue@ == Seq::<T>::empty(),
            queue.spec_capacity() == capacity,
    {
        ConnectionQueue { waiting: VecDeque::new(), capacity }
    }

    /// The largest number of connections that may wait.
    pub fn capacity(&self) -> (capacity: usize)
        ensures
            capacity == self.spec_capacity(),
            self@.len() <= capacity,
    {
        proof {
            use_type_invariant(self);
        }
        self.capacity
    }

    /// The number of connections that wait.
    pub fn len(&self) -> (len: usize)
        ensures
            len == self@.len(),
            len <= self.spec_capacity(),
    {
        proof {
            use_type_invariant(self);
        }
        self.waiting.len()
    }

    /// True if no connection waits.
    pub fn is_empty(&self) -> (empty: bool)
        ensures
            empty == (self@.len() == 0),
    {
        self.waiting.len() == 0
    }

    /// True if the queue takes no more.
    pub fn is_full(&self) -> (full: bool)
        ensures
            full == (self@.len() == self.spec_capacity()),
    {
        proof {
            use_type_invariant(self);
        }
        self.waiting.len() >= self.capacity
    }

    /// Puts `connection` behind those that wait, if there is room. If there
    /// is none the queue stays as it is and the connection comes back.
    pub fn offer(&mut self, connection: T) -> (refused: Result<(), T>)
        ensures
            final(self).spec_capacity() == old(self).spec_capacity(),
            final(self)@ == after_offer(old(self)@, old(self).spec_capacity(), connection),
            final(self)@.len() <= final(self).spec_capacity(),
            refused is Ok <==> old(self)@.len() < old(self).spec_capacity(),
            refused matches Err(back) ==> back == connection,
    {
        proof {
            use_type_invariant(&*self);
        }
        if self.waiting.len() < self.capacity {
            let mut waiting: VecDeque<T> = VecDeque::new();
            std::mem::swap(&mut waiting, &mut self.waiting);
            waiting.push_back(connection);
            self.waiting = waiting;
            Ok(())
        } else {
            Err(connection)
        }
    }

    /// Takes the connection that has waited longest, if any waits.
    pub fn take(&mut self) -> (connection: Option<T>)
        ensures
            final(self).spec_capacity() == old(self).spec_capacity(),
            final(self)@ == after_take(old(self)@),
            connection == if old(self)@.len() > 0 {
                Some(old(self)@[0])
            } else {
                None
            },
    {
        proof {
            use_type_invariant(&*self);
        }
        let mut waiting: VecDeque<T> = VecDeque::new();
        std::mem::swap(&mut waiting, &mut self.waiting);
        let connection = waiting.pop_front();
        assert(old(self)@.len() > 0 ==> waiting@ =~= old(self)@.drop_first());
        self.waiting = waiting;
        connection
    }
}

} // verus!
