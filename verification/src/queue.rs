//! The bounded FIFO that carries interrupt notifications from the
//! interrupt handler to the main loop.
//!
//! A fixed backing store of `N` slots with a read cursor, a write
//! cursor and an occupancy count; both cursors advance modulo `N`.
//! `push` fails (and never overwrites) on a full queue, `pop` fails on
//! an empty one, and `front` peeks at the oldest element. Exclusion
//! between the producer (the interrupt handler) and the consumer (the
//! main loop) is the caller's business: they bracket every access with
//! interrupt disable/enable.

use vstd::prelude::*;

use crate::{KernelError, KernelResult};

verus! {

/// Index `i` reduced into `0 .. n`, for `0 <= i < 2 n`.
pub open spec fn wrap_index(i: int, n: int) -> int {
    if i < n { i } else { i - n }
}

/// A fixed-capacity single-producer/single-consumer ring buffer.
pub struct ArrayQueue<T: Copy, const N: usize> {
    data: Vec<T>,
    read_pos: usize,
    write_pos: usize,
    count: usize,
}

impl<T: Copy, const N: usize> View for ArrayQueue<T, N> {
    type V = Seq<T>;

    /// The queued elements, oldest first.
    closed spec fn view(&self) -> Seq<T> {
        Seq::new(self.count as nat, |i: int| self.data[wrap_index(self.read_pos + i, N as int)])
    }
}

impl<T: Copy, const N: usize> ArrayQueue<T, N> {
    /// The cursor arithmetic every method preserves: the write cursor
    /// sits `count` slots past the read cursor, modulo `N`.
    pub closed spec fn wf(&self) -> bool {
        &&& self.data.len() == N
        &&& self.count <= N
        &&& self.read_pos < N
        &&& self.write_pos < N
        &&& self.write_pos == wrap_index(self.read_pos + self.count, N as int)
    }

    /// An empty queue whose `N` slots all start out as `fill`.
    pub fn new(fill: T) -> (r: Self)
        requires N >= 1,
        ensures
            r.wf(),
            r@ == Seq::<T>::empty(),
    {
        let mut data: Vec<T> = Vec::new();
        let mut i: usize = 0;
        while i < N
            invariant
                i <= N,
                data.len() == i,
            decreases N - i,
        {
            data.push(fill);
            i = i + 1;
        }
        let r = Self { data, read_pos: 0, write_pos: 0, count: 0 };
        proof {
            assert(r@ =~= Seq::<T>::empty());
        }
        r
    }

    /// Appends `value` at the write cursor. A full queue is left
    /// unchanged and reports [`KernelError::QueueFull`].
    pub fn push(&mut self, value: T) -> (r: KernelResult<()>)
        requires old(self).wf(),
        ensures
            final(self).wf(),
            old(self)@.len() == N ==> r == KernelResult::<()>::Err(KernelError::QueueFull)
                && final(self)@ == old(self)@,
            old(self)@.len() < N ==> r == KernelResult::<()>::Ok(())
                && final(self)@ == old(self)@.push(value),
    {
        if self.count == N {
            return Err(KernelError::QueueFull);
        }

        self.data.set(self.write_pos, value);
        self.count = self.count + 1;
        self.write_pos = self.write_pos + 1;
        if self.write_pos == N {
            self.write_pos = 0;
        }
        proof {
            assert(self@ =~= old(self)@.push(value));
        }
        Ok(())
    }

    /// Drops the oldest element. An empty queue is left unchanged and
    /// reports [`KernelError::QueueEmpty`].
    pub fn pop(&mut self) -> (r: KernelResult<()>)
        requires old(self).wf(),
        ensures
            final(self).wf(),
            old(self)@.len() == 0 ==> r == KernelResult::<()>::Err(KernelError::QueueEmpty)
                && final(self)@ == old(self)@,
            old(self)@.len() > 0 ==> r == KernelResult::<()>::Ok(())
                && final(self)@ == old(self)@.skip(1),
    {
        if self.count == 0 {
            return Err(KernelError::QueueEmpty);
        }

        self.count = self.count - 1;
        self.read_pos = self.read_pos + 1;
        if self.read_pos == N {
            self.read_pos = 0;
        }
        proof {
            assert(self@ =~= old(self)@.skip(1));
        }
        Ok(())
    }

    /// The element at the read cursor: the oldest one not yet popped.
    /// On an empty queue this is the stale slot under the cursor.
    pub fn front(&self) -> (r: &T)
        requires
            self.wf(),
            N >= 1,
        ensures
            self@.len() > 0 ==> *r == self@[0],
    {
        &self.data[self.read_pos]
    }

    /// The authoritative occupancy.
    pub fn count(&self) -> (r: usize)
        ensures r == self@.len(),
    {
        self.count
    }

    /// The fixed capacity `N`.
    pub fn capasity(&self) -> (r: usize)
        ensures r == N,
    {
        N
    }

    /// The occupancy never exceeds the capacity; in particular a
    /// nonempty queue implies a nonempty backing store.
    pub proof fn lemma_occupancy_within_capacity(&self)
        requires self.wf(),
        ensures self@.len() <= N,
    {
    }
}


/// One operation of the producer/consumer protocol, as the model sees
/// it.
pub enum QueueOp<T> {
    Push(T),
    Pop,
}

/// How many of `ops` are pushes.
pub open spec fn spec_count_pushes<T>(ops: Seq<QueueOp<T>>) -> int
    decreases ops.len(),
{
    if ops.len() == 0 {
        0
    } else {
        (if ops[0] is Push {
            1int
        } else {
            0int
        }) + spec_count_pushes(ops.skip(1))
    }
}

/// How many of `ops` are pops.
pub open spec fn spec_count_pops<T>(ops: Seq<QueueOp<T>>) -> int
    decreases ops.len(),
{
    if ops.len() == 0 {
        0
    } else {
        (if ops[0] is Pop {
            1int
        } else {
            0int
        }) + spec_count_pops(ops.skip(1))
    }
}

/// The contents after running `ops` against a queue of capacity
/// `cap`, exactly as the contracts of [`ArrayQueue::push`] and
/// [`ArrayQueue::pop`] evolve the view: a push onto a full queue and
/// a pop from an empty one change nothing.
pub open spec fn spec_apply_ops<T>(contents: Seq<T>, ops: Seq<QueueOp<T>>, cap: int) -> Seq<T>
    decreases ops.len(),
{
    if ops.len() == 0 {
        contents
    } else {
        let next = match ops[0] {
            QueueOp::Push(v) => if contents.len() < cap {
                contents.push(v)
            } else {
                contents
            },
            QueueOp::Pop => if contents.len() > 0 {
                contents.skip(1)
            } else {
                contents
            },
        };
        spec_apply_ops(next, ops.skip(1), cap)
    }
}

/// Whether every operation of `ops` stays within capacity: no push
/// meets a full queue and no pop meets an empty one.
pub open spec fn spec_ops_within_capacity<T>(contents: Seq<T>, ops: Seq<QueueOp<T>>, cap: int) -> bool
    decreases ops.len(),
{
    if ops.len() == 0 {
        true
    } else {
        match ops[0] {
            QueueOp::Push(v) => contents.len() < cap && spec_ops_within_capacity(
                contents.push(v),
                ops.skip(1),
                cap,
            ),
            QueueOp::Pop => contents.len() > 0 && spec_ops_within_capacity(
                contents.skip(1),
                ops.skip(1),
                cap,
            ),
        }
    }
}

/// For any sequence of pushes and pops within capacity, the occupancy
/// after running them equals the occupancy before plus pushes minus
/// pops — the count a queue reports is exactly pushes minus pops.
pub proof fn lemma_count_is_pushes_minus_pops<T>(contents: Seq<T>, ops: Seq<QueueOp<T>>, cap: int)
    requires spec_ops_within_capacity(contents, ops, cap),
    ensures
        spec_apply_ops(contents, ops, cap).len() == contents.len() + spec_count_pushes(ops)
            - spec_count_pops(ops),
    decreases ops.len(),
{
    if ops.len() == 0 {
    } else {
        match ops[0] {
            QueueOp::Push(v) => {
                lemma_count_is_pushes_minus_pops(contents.push(v), ops.skip(1), cap);
            },
            QueueOp::Pop => {
                lemma_count_is_pushes_minus_pops(contents.skip(1), ops.skip(1), cap);
            },
        }
    }
}

} // verus!
