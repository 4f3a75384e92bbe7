//! The channel handles: `Producer`, `Consumer`, and the `channel` factory.
//!
//! Both handles hold reference-counted shared ownership of one
//! lock-guarded `SharedQueue`; the queue lives as long as any handle
//! cloned from it. Every operation is a short critical section: it
//! acquires the lock, performs one buffer operation, and releases the
//! lock before returning — `recv` in particular releases the lock between
//! retries while it waits for a value, so producers are never starved by
//! a waiting consumer.

use vstd::prelude::*;
use vstd::rwlock::RwLock;
use vstd::rwlock::RwLockPredicate;

use std::sync::Arc;

use crate::buffer::SharedQueue;
use crate::buffer::normalized_capacity;
use crate::errors::Error;
use crate::errors::RecvError;
use crate::errors::SendError;

verus! {

/// What the channel lock maintains of the queue between critical
/// sections: the queue is well formed, and its capacity never falls under
/// the capacity it was created with.
pub struct QueuePred {
    pub min_cap: nat,
}

impl<T> RwLockPredicate<SharedQueue<T>> for QueuePred {
    open spec fn inv(self, v: SharedQueue<T>) -> bool {
        &&& v.wf()
        &&& v.spec_capacity() >= self.min_cap
    }
}

/// The push-side handle of a channel.
pub struct Producer<T: Send + Copy> {
    queue: Arc<RwLock<SharedQueue<T>, QueuePred>>,
}

/// The pop-side handle of a channel.
pub struct Consumer<T: Send + Copy> {
    queue: Arc<RwLock<SharedQueue<T>, QueuePred>>,
}

impl<T: Send + Copy> Producer<T> {
    /// The capacity under which the shared queue can never fall.
    pub closed spec fn min_capacity(self) -> nat {
        (*self.queue).pred().min_cap
    }

    /// Whether this handle and `c` operate on one shared queue.
    pub closed spec fn linked_with(self, c: Consumer<T>) -> bool {
        *self.queue == *c.queue
    }

    /// Whether this handle and `other` operate on one shared queue.
    pub closed spec fn same_channel(self, other: Producer<T>) -> bool {
        *self.queue == *other.queue
    }

    /// Builds a standalone queue reachable through this producer alone.
    /// `channel` is the way to obtain a linked pair; this constructor
    /// exists for symmetry and testing.
    pub fn new(capacity: usize) -> (p: Self)
        ensures
            p.min_capacity() == normalized_capacity(capacity as nat),
    {
        let q = SharedQueue::<T>::with_capacity(capacity);
        let ghost mc = q.spec_capacity();
        Producer {
            queue: Arc::new(RwLock::new(q, Ghost(QueuePred { min_cap: mc }))),
        }
    }

    /// Appends `value` at the back of the shared queue.
    ///
    /// Never blocks and never fails for want of room: the capacity is
    /// advisory. The push is refused only when the queue is poisoned, and
    /// the rejected value then rides back to the caller inside the error,
    /// so no value is ever silently lost.
    pub fn send(&self, value: T) -> (r: Result<(), SendError<T>>)
        ensures
            r matches Err(e) ==> e.0 == value,
    {
        let (mut q, handle) = self.queue.acquire_write();
        if q.poisoned() {
            handle.release_write(q);
            return Err(SendError(value));
        }
        q.push_back(value);
        handle.release_write(q);
        Ok(())
    }

    /// The capacity the shared queue currently advertises. It never lies
    /// under the capacity the queue was created with, and it only grows.
    /// Fails only when the queue is poisoned.
    pub fn capacity(&self) -> (r: Result<usize, Error>)
        ensures
            r matches Ok(c) ==> c >= self.min_capacity(),
            r matches Err(e) ==> e.spec_message()
                == "Producer::capacity() found the channel poisoned."@,
    {
        let rh = self.queue.acquire_read();
        let q = rh.borrow();
        let result = if q.poisoned() {
            Err(Error::new("Producer::capacity() found the channel poisoned.".to_owned()))
        } else {
            Ok(q.capacity())
        };
        rh.release_read();
        result
    }

    /// The number of values queued but not yet consumed. Fails only when
    /// the queue is poisoned.
    pub fn size(&self) -> (r: Result<usize, Error>)
        ensures
            r matches Err(e) ==> e.spec_message()
                == "Producer::size() found the channel poisoned."@,
    {
        let rh = self.queue.acquire_read();
        let q = rh.borrow();
        let result = if q.poisoned() {
            Err(Error::new("Producer::size() found the channel poisoned.".to_owned()))
        } else {
            Ok(q.len())
        };
        rh.release_read();
        result
    }

    /// Marks the shared queue broken, as a lock that a failing holder
    /// left poisoned. Every later operation through any handle of this
    /// channel reports an error; the queued values are kept but stay out
    /// of reach. This is the failure-injection hook for exercising the
    /// error paths.
    pub fn poison(&self) {
        let (mut q, handle) = self.queue.acquire_write();
        q.mark_poisoned();
        handle.release_write(q);
    }
}

/// Builds one shared queue with the given capacity hint and returns a
/// `Producer` and a `Consumer` both operating on it.
pub fn channel<T: Send + Copy>(capacity: usize) -> (pc: (Producer<T>, Consumer<T>))
    ensures
        pc.0.min_capacity() == normalized_capacity(capacity as nat),
        pc.1.min_capacity() == normalized_capacity(capacity as nat),
        pc.0.linked_with(pc.1),
{
    let q = SharedQueue::<T>::with_capacity(capacity);
    let ghost mc = q.spec_capacity();
    let lock = RwLock::<SharedQueue<T>, QueuePred>::new(q, Ghost(QueuePred { min_cap: mc }));
    let queue = Arc::new(lock);
    let p = Producer { queue: queue.clone() };
    let c = Consumer { queue };
    (p, c)
}

impl<T: Send + Copy> Consumer<T> {
    /// The capacity under which the shared queue can never fall.
    pub closed spec fn min_capacity(self) -> nat {
        (*self.queue).pred().min_cap
    }

    /// Whether this handle and `other` operate on one shared queue.
    pub closed spec fn same_channel(self, other: Consumer<T>) -> bool {
        *self.queue == *other.queue
    }

    /// Builds a standalone queue reachable through this consumer alone.
    pub fn new(capacity: usize) -> (c: Self)
        ensures
            c.min_capacity() == normalized_capacity(capacity as nat),
    {
        let q = SharedQueue::<T>::with_capacity(capacity);
        let ghost mc = q.spec_capacity();
        Consumer {
            queue: Arc::new(RwLock::new(q, Ghost(QueuePred { min_cap: mc }))),
        }
    }

    /// Removes and returns the front value of the shared queue.
    ///
    /// An empty queue is not an error: the call waits for a value to
    /// arrive, re-acquiring the lock for each attempt and releasing it in
    /// between, so a producer can slip its push in. The wait has no
    /// timeout; if no value ever arrives the call keeps waiting, which is
    /// the documented liveness risk of the channel — callers needing a
    /// bounded wait must layer their own. (The loop carries an
    /// astronomically large retry budget so that it has a termination
    /// measure; exhausting it is not reachable in practice.) The call
    /// fails only when the queue is poisoned, never because it is merely
    /// empty.
    pub fn recv(&self) -> (r: Result<T, RecvError>)
        ensures
            r matches Err(e) ==> (e.spec_message()
                == "Consumer::recv() found the channel poisoned."@ || e.spec_message()
                == "Consumer::recv() ran out of retries waiting for a value."@),
    {
        let mut attempts: u64 = 0;
        while attempts < u64::MAX
            decreases u64::MAX - attempts,
        {
            let (mut q, handle) = self.queue.acquire_write();
            if q.poisoned() {
                handle.release_write(q);
                return Err(
                    RecvError::new("Consumer::recv() found the channel poisoned.".to_owned()),
                );
            }
            let front = q.pop_front();
            handle.release_write(q);
            if let Some(value) = front {
                return Ok(value);
            }
            attempts = attempts + 1;
        }
        Err(RecvError::new("Consumer::recv() ran out of retries waiting for a value.".to_owned()))
    }

    /// The capacity the shared queue currently advertises. It never lies
    /// under the capacity the queue was created with, and it only grows.
    /// Fails only when the queue is poisoned.
    pub fn capacity(&self) -> (r: Result<usize, Error>)
        ensures
            r matches Ok(c) ==> c >= self.min_capacity(),
            r matches Err(e) ==> e.spec_message()
                == "Consumer::capacity() found the channel poisoned."@,
    {
        let rh = self.queue.acquire_read();
        let q = rh.borrow();
        let result = if q.poisoned() {
            Err(Error::new("Consumer::capacity() found the channel poisoned.".to_owned()))
        } else {
            Ok(q.capacity())
        };
        rh.release_read();
        result
    }

    /// The number of values queued but not yet consumed. Fails only when
    /// the queue is poisoned.
    pub fn size(&self) -> (r: Result<usize, Error>)
        ensures
            r matches Err(e) ==> e.spec_message()
                == "Consumer::size() found the channel poisoned."@,
    {
        let rh = self.queue.acquire_read();
        let q = rh.borrow();
        let result = if q.poisoned() {
            Err(Error::new("Consumer::size() found the channel poisoned.".to_owned()))
        } else {
            Ok(q.len())
        };
        rh.release_read();
        result
    }

    /// Marks the shared queue broken, as a lock that a failing holder
    /// left poisoned. Every later operation through any handle of this
    /// channel reports an error; the queued values are kept but stay out
    /// of reach. This is the failure-injection hook for exercising the
    /// error paths.
    pub fn poison(&self) {
        let (mut q, handle) = self.queue.acquire_write();
        q.mark_poisoned();
        handle.release_write(q);
    }
}

impl<T: Send + Copy> Clone for Producer<T> {
    /// A second handle onto the same shared queue: the clone is
    /// interchangeable with this producer, which is what makes the
    /// channel multi-producer capable.
    fn clone(&self) -> (r: Self)
        ensures
            r.same_channel(*self),
            r.min_capacity() == self.min_capacity(),
    {
        Producer { queue: self.queue.clone() }
    }
}

impl<T: Send + Copy> Clone for Consumer<T> {
    /// A second handle onto the same shared queue: the clone is
    /// interchangeable with this consumer, so several consumer threads
    /// may race to pop.
    fn clone(&self) -> (r: Self)
        ensures
            r.same_channel(*self),
            r.min_capacity() == self.min_capacity(),
    {
        Consumer { queue: self.queue.clone() }
    }
}

} // verus!
