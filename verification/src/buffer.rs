//! The lock-protected queue state: a FIFO buffer together with its
//! capacity bookkeeping and the poison flag.
//!
//! `SharedQueue` is the value that the channel keeps behind its lock. All
//! operations here are sequential; the handles in `chan` serialize access
//! to a `SharedQueue` through the lock, so every interleaved execution of
//! channel operations is a sequence of these operations.

use vstd::prelude::*;
use vstd::arithmetic::power2::lemma2_to64;
use vstd::arithmetic::power2::lemma_pow2_pos;
use vstd::arithmetic::power2::lemma_pow2_strictly_increases;
use vstd::arithmetic::power2::lemma_pow2_unfold;
use vstd::arithmetic::power2::pow2;

use std::collections::VecDeque;

verus! {

/// One growth step of the capacity bookkeeping: `c` becomes `2*c + 1`,
/// which carries values of the form `2^k - 1` to the next such value,
/// saturating at `usize::MAX` (on every supported platform itself of that
/// form).
pub open spec fn cap_step(c: nat) -> nat {
    if 2 * c + 1 > usize::MAX {
        usize::MAX as nat
    } else {
        2 * c + 1
    }
}

/// The capacity that the bookkeeping settles on when it grows from `c`
/// by doubling steps until it reaches at least `n`, saturating at
/// `usize::MAX`.
pub open spec fn grown_capacity(c: nat, n: nat) -> nat
    recommends
        n <= usize::MAX,
    decreases (if c < n { n - c } else { 0 }),
{
    if c >= n {
        c
    } else if 2 * c + 1 > usize::MAX {
        usize::MAX as nat
    } else {
        grown_capacity(2 * c + 1, n)
    }
}

/// The advertised capacity for a requested capacity `n`: the smallest
/// value of the form `2^k - 1` (0, 1, 3, 7, 15, ...) that is at least
/// `n`. A hint of 100 becomes 127.
pub open spec fn normalized_capacity(n: nat) -> nat
    recommends
        n <= usize::MAX,
{
    grown_capacity(0, n)
}

/// Computes `normalized_capacity(n)`.
fn normalize_capacity(n: usize) -> (r: usize)
    ensures
        r == normalized_capacity(n as nat),
        r >= n,
{
    let mut c: usize = 0;
    while c < n
        invariant
            grown_capacity(c as nat, n as nat) == normalized_capacity(n as nat),
        decreases (if c < n { n - c } else { 0 }),
    {
        if c > (usize::MAX - 1) / 2 {
            return usize::MAX;
        }
        c = 2 * c + 1;
    }
    c
}

proof fn lemma_grown_capacity_at_least(c: nat, n: nat)
    requires
        n <= usize::MAX,
    ensures
        grown_capacity(c, n) >= n,
    decreases (if c < n { n - c } else { 0 }),
{
    if c < n && 2 * c + 1 <= usize::MAX {
        lemma_grown_capacity_at_least(2 * c + 1, n);
    }
}

/// The normalization never shrinks the request: the advertised capacity
/// holds at least the `n` values asked for.
pub proof fn lemma_normalized_capacity_at_least(n: nat)
    requires
        n <= usize::MAX,
    ensures
        normalized_capacity(n) >= n,
{
    lemma_grown_capacity_at_least(0, n);
}

proof fn lemma_grown_capacity_at_most(c: nat, n: nat)
    requires
        c < n,
        n <= usize::MAX,
    ensures
        grown_capacity(c, n) <= 2 * n - 1,
    decreases n - c,
{
    if 2 * c + 1 <= usize::MAX {
        if 2 * c + 1 < n {
            lemma_grown_capacity_at_most(2 * c + 1, n);
        } else {
            assert(grown_capacity(2 * c + 1, n) == 2 * c + 1);
        }
    }
}

/// The normalization at most doubles the request: the advertised
/// capacity stays under `2 * n`.
pub proof fn lemma_normalized_capacity_at_most_double(n: nat)
    requires
        1 <= n <= usize::MAX,
    ensures
        normalized_capacity(n) <= 2 * n - 1,
{
    lemma_grown_capacity_at_most(0, n);
}

proof fn lemma_grown_capacity_minimal(c: nat, j: nat, n: nat, m: nat, k: nat)
    requires
        c == pow2(j) - 1,
        m == pow2(k) - 1,
        c <= m,
        n <= m,
    ensures
        grown_capacity(c, n) <= m,
    decreases (if c < n { n - c } else { 0 }),
{
    if c < n {
        if j >= k {
            if j > k {
                lemma_pow2_strictly_increases(k, j);
            }
            assert(false);
        }
        lemma_pow2_unfold(j + 1);
        assert(2 * c + 1 == pow2(j + 1) - 1);
        if j + 1 < k {
            lemma_pow2_strictly_increases(j + 1, k);
        }
        assert(2 * c + 1 <= m);
        if 2 * c + 1 <= usize::MAX {
            lemma_grown_capacity_minimal(2 * c + 1, j + 1, n, m, k);
        }
    }
}

/// Minimality of the normalization: the advertised capacity is the least
/// value of the form `2^k - 1` with room for the `n` values asked for.
pub proof fn lemma_normalized_capacity_minimal(n: nat, k: nat)
    requires
        n <= pow2(k) - 1,
    ensures
        normalized_capacity(n) <= pow2(k) - 1,
{
    lemma2_to64();
    lemma_pow2_pos(k);
    lemma_grown_capacity_minimal(0, 0, n, (pow2(k) - 1) as nat, k);
}

/// The FIFO buffer with its capacity bookkeeping and poison flag.
pub struct SharedQueue<T> {
    buf: VecDeque<T>,
    cap: usize,
    poisoned: bool,
}

impl<T> View for SharedQueue<T> {
    type V = Seq<T>;

    closed spec fn view(&self) -> Seq<T> {
        self.buf@
    }
}

impl<T> SharedQueue<T> {
    /// The capacity the queue currently advertises.
    pub closed spec fn spec_capacity(&self) -> nat {
        self.cap as nat
    }

    /// Whether the queue has been marked broken.
    pub closed spec fn is_poisoned(&self) -> bool {
        self.poisoned
    }

    /// The queued values never outnumber the advertised capacity.
    pub open spec fn wf(&self) -> bool {
        self@.len() <= self.spec_capacity()
    }

    /// Builds an empty queue. Storage for the normalized capacity is
    /// reserved up front; the capacity is advisory and later pushes may
    /// grow it.
    pub fn with_capacity(capacity: usize) -> (q: Self)
        ensures
            q@ == Seq::<T>::empty(),
            q.spec_capacity() == normalized_capacity(capacity as nat),
            !q.is_poisoned(),
            q.wf(),
    {
        let cap = normalize_capacity(capacity);
        SharedQueue { buf: VecDeque::with_capacity(cap), cap, poisoned: false }
    }

    /// Appends `value` at the back. Never fails: when the new length would
    /// pass the advertised capacity, the capacity takes one growth step and
    /// the matching storage is reserved.
    pub fn push_back(&mut self, value: T)
        requires
            old(self).wf(),
        ensures
            final(self)@ == old(self)@.push(value),
            final(self).spec_capacity() == (if old(self)@.len() + 1 > old(self).spec_capacity() {
                cap_step(old(self).spec_capacity())
            } else {
                old(self).spec_capacity()
            }),
            final(self).spec_capacity() >= old(self).spec_capacity(),
            final(self).is_poisoned() == old(self).is_poisoned(),
            final(self).wf(),
    {
        self.buf.push_back(value);
        let len = self.buf.len();
        if len > self.cap {
            if self.cap > (usize::MAX - 1) / 2 {
                self.cap = usize::MAX;
            } else {
                self.cap = 2 * self.cap + 1;
            }
            let spare = self.cap - len;
            self.buf.reserve(spare);
        }
    }

    /// Removes and returns the front value; `None` when the queue is empty.
    /// The capacity and the poison flag are untouched.
    pub fn pop_front(&mut self) -> (r: Option<T>)
        ensures
            final(self).spec_capacity() == old(self).spec_capacity(),
            final(self).is_poisoned() == old(self).is_poisoned(),
            old(self).wf() ==> final(self).wf(),
            (match r {
                Some(v) => old(self)@.len() > 0 && v == old(self)@[0] && final(self)@ == old(
                    self,
                )@.drop_first(),
                None => old(self)@.len() == 0 && final(self)@ == old(self)@,
            }),
    {
        self.buf.pop_front()
    }

    /// The number of queued values.
    pub fn len(&self) -> (n: usize)
        ensures
            n == self@.len(),
    {
        self.buf.len()
    }

    /// The advertised capacity.
    pub fn capacity(&self) -> (c: usize)
        ensures
            c == self.spec_capacity(),
    {
        self.cap
    }

    /// Whether the queue has been marked broken.
    pub fn poisoned(&self) -> (p: bool)
        ensures
            p == self.is_poisoned(),
    {
        self.poisoned
    }

    /// Marks the queue broken, as a lock left poisoned by a holder that
    /// failed mid-operation. Every later channel operation on the queue
    /// reports an error instead of touching the values.
    pub fn mark_poisoned(&mut self)
        ensures
            final(self)@ == old(self)@,
            final(self).spec_capacity() == old(self).spec_capacity(),
            final(self).is_poisoned(),
    {
        self.poisoned = true;
    }
}

} // verus!
