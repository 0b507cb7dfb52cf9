//! Reusable byte-buffer allocator keyed by required capacity.
//!
//! The pool eliminates per-frame allocation in steady state: a request is
//! served from a retained buffer whenever one of sufficient size is free,
//! and a released buffer is retained unless the pool already holds its
//! bounded maximum, in which case it is discarded.

use vstd::prelude::*;

verus! {

/// How many released buffers the pool retains before discarding.
pub const DEFAULT_POOL_RETENTION: usize = 4;

/// Caps a counter at `u64::MAX` instead of wrapping.
pub open spec fn saturating_inc(n: u64) -> u64 {
    if n == u64::MAX {
        n
    } else {
        (n + 1) as u64
    }
}

/// Relates a pool before and after one `get_or_create` request of `n`
/// bytes: a fitting retained buffer is taken without allocating, otherwise
/// a fresh buffer is counted.
pub open spec fn pool_got_buffer(before: BufferPool, after: BufferPool, n: int) -> bool {
    &&& after.max_retained == before.max_retained
    &&& before.has_fit(n) ==> {
        &&& after.allocations == before.allocations
        &&& exists|i: int|
            #[trigger] before.is_first_fit(n, i) && after.retained@ == before.retained@.remove(i)
    }
    &&& !before.has_fit(n) ==> {
        &&& after.allocations == saturating_inc(before.allocations)
        &&& after.retained@ == before.retained@
    }
}

pub struct BufferPool {
    /// Buffers currently free for reuse.
    pub retained: Vec<Vec<u8>>,
    /// Bound on how many free buffers are kept.
    pub max_retained: usize,
    /// How many fresh buffers have been allocated; lets a caller observe
    /// that a request was served from the pool.
    pub allocations: u64,
}

impl BufferPool {
    /// There is a retained buffer large enough for a request of `n` bytes.
    pub open spec fn has_fit(self, n: int) -> bool {
        exists|i: int| 0 <= i < self.retained@.len() && self.retained@[i]@.len() >= n
    }

    /// `i` is the first retained buffer large enough for `n` bytes.
    pub open spec fn is_first_fit(self, n: int, i: int) -> bool {
        &&& 0 <= i < self.retained@.len()
        &&& self.retained@[i]@.len() >= n
        &&& forall|j: int| 0 <= j < i ==> self.retained@[j]@.len() < n
    }

    pub fn init(max_retained: usize) -> (pool: BufferPool)
        ensures
            pool.retained@.len() == 0,
            pool.max_retained == max_retained,
            pool.allocations == 0,
    {
        BufferPool { retained: Vec::new(), max_retained, allocations: 0 }
    }

    /// Returns a buffer of exactly `min_size` bytes, backed by capacity of at
    /// least `min_size`.
    ///
    /// The first free retained buffer of sufficient size is reused (its
    /// leading bytes are kept; the allocation counter does not move);
    /// otherwise a fresh zeroed buffer is allocated and counted.
    pub fn get_or_create(&mut self, min_size: usize) -> (buf: Vec<u8>)
        ensures
            buf@.len() == min_size,
            old(self).has_fit(min_size as int) ==> {
                &&& exists|i: int|
                    {
                        &&& #[trigger] old(self).is_first_fit(min_size as int, i)
                        &&& final(self).retained@ == old(self).retained@.remove(i)
                        &&& buf@ == old(self).retained@[i]@.take(min_size as int)
                    }
                &&& final(self).allocations == old(self).allocations
            },
            !old(self).has_fit(min_size as int) ==> {
                &&& final(self).retained@ == old(self).retained@
                &&& final(self).allocations == saturating_inc(old(self).allocations)
                &&& buf@ == Seq::new(min_size as nat, |k: int| 0u8)
            },
            final(self).max_retained == old(self).max_retained,
            pool_got_buffer(*old(self), *final(self), min_size as int),
    {
        let ghost n = min_size as int;
        let mut i: usize = 0;
        while i < self.retained.len()
            invariant
                *self == *old(self),
                i <= self.retained@.len(),
                forall|j: int| 0 <= j < i ==> self.retained@[j]@.len() < n,
                n == min_size as int,
            decreases self.retained@.len() - i,
        {
            if self.retained[i].len() >= min_size {
                proof {
                    assert(old(self).is_first_fit(n, i as int));
                }
                let mut buf = self.retained.remove(i);
                buf.truncate(min_size);
                return buf;
            }
            i = i + 1;
        }
        proof {
            assert(!old(self).has_fit(n));
        }
        let mut buf: Vec<u8> = Vec::new();
        let mut k: usize = 0;
        while k < min_size
            invariant
                k <= min_size,
                buf@ =~= Seq::new(k as nat, |j: int| 0u8),
            decreases min_size - k,
        {
            buf.push(0u8);
            k = k + 1;
            proof {
                assert(buf@ =~= Seq::new(k as nat, |j: int| 0u8));
            }
        }
        if self.allocations < u64::MAX {
            self.allocations = self.allocations + 1;
        }
        proof {
            assert(buf@ =~= Seq::new(min_size as nat, |j: int| 0u8));
        }
        buf
    }

    /// Law: a released buffer is reused. After a buffer large enough for a
    /// request of `n` bytes is released into a pool with room to retain it,
    /// the pool can serve a request of `n` bytes, and the next
    /// `get_or_create(n)` is served from the pool — its allocation counter
    /// does not move. (A release into a pool already holding its maximum
    /// discards the buffer instead, and the guarantee does not apply.)
    ///
    /// `with_buffer` is the pool right after the release, as `release`'s
    /// postcondition describes it; `served` is any pool that one
    /// `get_or_create(n)` on it can produce.
    pub proof fn lemma_released_buffer_is_reused(
        self,
        with_buffer: BufferPool,
        served: BufferPool,
        buf: Vec<u8>,
        n: int,
    )
        requires
            buf@.len() >= n,
            self.retained@.len() < self.max_retained,
            with_buffer.retained@ == self.retained@.push(buf),
            with_buffer.allocations == self.allocations,
            pool_got_buffer(with_buffer, served, n),
        ensures
            with_buffer.has_fit(n),
            served.allocations == self.allocations,
    {
        assert(with_buffer.retained@[with_buffer.retained@.len() - 1]@.len() >= n);
    }

    /// Returns a buffer to the pool. The buffer is retained for reuse unless
    /// the pool already holds its maximum retained count, in which case it is
    /// discarded.
    pub fn release(&mut self, buf: Vec<u8>)
        ensures
            old(self).retained@.len() < old(self).max_retained ==> final(self).retained@
                == old(self).retained@.push(buf),
            old(self).retained@.len() >= old(self).max_retained ==> final(self).retained@ == old(
                self,
            ).retained@,
            final(self).max_retained == old(self).max_retained,
            final(self).allocations == old(self).allocations,
    {
        if self.retained.len() < self.max_retained {
            self.retained.push(buf);
        }
    }
}

} // verus!
