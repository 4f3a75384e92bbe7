//! A bounded, thread-safe FIFO channel.
//!
//! A `Producer` handle and a `Consumer` handle share one lock-guarded queue.
//! Producers append values at the back; consumers remove values from the
//! front, so values arrive in the order in which the lock admitted their
//! pushes. The capacity given at construction is advisory: it controls
//! pre-allocation and is reported by `capacity`, but pushes never fail for
//! want of room.
//!
//! A `recv` on an empty queue waits for a value instead of failing; the
//! wait has no timeout, so a queue that stays empty forever leaves the
//! caller waiting — callers needing a bound must layer their own. The
//! only failure the channel itself reports is a poisoned (broken) lock,
//! which is fatal for the queue it guards.

mod buffer;
mod chan;
mod errors;
mod laws;

pub use buffer::SharedQueue;
pub use buffer::cap_step;
pub use buffer::grown_capacity;
pub use buffer::lemma_normalized_capacity_at_least;
pub use buffer::lemma_normalized_capacity_at_most_double;
pub use buffer::lemma_normalized_capacity_minimal;
pub use buffer::normalized_capacity;
pub use chan::Consumer;
pub use chan::Producer;
pub use chan::QueuePred;
pub use chan::channel;
pub use errors::Error;
pub use errors::RecvError;
pub use errors::SendError;
pub use laws::after_pops;
pub use laws::after_pushes;
pub use laws::lemma_after_pops_len;
pub use laws::lemma_after_pushes_appends;
pub use laws::lemma_fifo_order;
pub use laws::lemma_pop_results_drain;
pub use laws::lemma_pop_returns_pushed;
pub use laws::lemma_size_accuracy;
pub use laws::lemma_two_producers_no_loss;
pub use laws::pop_results;
pub use laws::popped;
