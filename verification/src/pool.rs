//! A bounded pool of reusable batch storage.
//!
//! Acquiring a batch for a frame should not cost an allocation, so idle
//! `DrawBatch` values are parked in an `object_pool::Pool` and handed
//! out again on demand. The pool's idle stack is modelled by the
//! uninterpreted `pool_contents`; every operation's contract says how it
//! moves batches on and off that stack. When the pool is empty,
//! acquisition falls back to a fresh allocation; when it is full,
//! a released batch is simply dropped. Neither case blocks or fails.

use vstd::prelude::*;

use crate::batch::DrawBatch;
use crate::command::DrawCommand;
use object_pool::Pool;

verus! {

/// The pool type of the `object_pool` crate, treated as an opaque
/// container of idle objects.
#[verifier::external_type_specification]
#[verifier::external_body]
#[verifier::reject_recursive_types(T)]
pub struct ExPool<T>(Pool<T>);

/// The idle batches a pool currently holds, in stack order: the last
/// element is the next one handed out.
pub uninterp spec fn pool_contents(p: Pool<DrawBatch>) -> Seq<DrawBatch>;

/// Relies on `object_pool::Pool::new`: builds a pool holding `capacity`
/// objects made by the given closure, here empty batches with room for
/// `batch_capacity` commands each.
#[verifier::external_body]
fn pool_make(capacity: usize, batch_capacity: usize) -> (p: Pool<DrawBatch>)
    ensures
        pool_contents(p).len() == capacity,
        forall|k: int| 0 <= k < capacity ==> (#[trigger] pool_contents(p)[k])@.len() == 0,
{
    Pool::new(capacity, || DrawBatch::with_capacity(batch_capacity))
}

/// Relies on `object_pool::Pool::try_pull`, which pops the most recently
/// parked object (`None` when the pool is idle-empty), and on
/// `object_pool::Reusable::detach`, which hands the popped object out of
/// its return-on-drop wrapper.
#[verifier::external_body]
fn pool_take(p: &mut Pool<DrawBatch>) -> (r: Option<DrawBatch>)
    ensures
        pool_contents(*old(p)).len() == 0 ==> r is None && pool_contents(*final(p))
            == pool_contents(*old(p)),
        pool_contents(*old(p)).len() > 0 ==> r == Some(pool_contents(*old(p)).last())
            && pool_contents(*final(p)) == pool_contents(*old(p)).drop_last(),
{
    match p.try_pull() {
        Some(reusable) => Some(reusable.detach().1),
        None => None,
    }
}

/// Relies on `object_pool::Pool::attach`: parks the object on top of the
/// pool's idle stack.
#[verifier::external_body]
fn pool_put(p: &mut Pool<DrawBatch>, b: DrawBatch)
    ensures
        pool_contents(*final(p)) == pool_contents(*old(p)).push(b),
{
    p.attach(b);
}

/// Relies on `object_pool::Pool::len`: the number of idle objects held.
#[verifier::external_body]
fn pool_idle_len(p: &Pool<DrawBatch>) -> (n: usize)
    ensures
        n == pool_contents(*p).len(),
{
    p.len()
}

/// A bounded cache of reusable batches. Producers `acquire` an empty
/// batch at the start of a frame and `release` it when done; between the
/// two they own it exclusively.
pub struct BatchPool {
    capacity: usize,
    batch_capacity: usize,
    inner: Pool<DrawBatch>,
}

impl BatchPool {
    /// The idle batches currently parked in the pool, in stack order.
    pub closed spec fn idle(&self) -> Seq<DrawBatch> {
        pool_contents(self.inner)
    }

    /// The most idle batches the pool will park.
    pub closed spec fn spec_capacity(&self) -> usize {
        self.capacity
    }

    /// A pool pre-filled with `capacity` empty batches, each with room
    /// for `batch_capacity` commands.
    pub fn new(capacity: usize, batch_capacity: usize) -> (r: BatchPool)
        ensures
            r.spec_capacity() == capacity,
            r.idle().len() == capacity,
            forall|k: int| 0 <= k < capacity ==> (#[trigger] r.idle()[k])@.len() == 0,
    {
        BatchPool { capacity, batch_capacity, inner: pool_make(capacity, batch_capacity) }
    }

    /// How many batches are parked right now.
    pub fn idle_len(&self) -> (n: usize)
        ensures
            n == self.idle().len(),
    {
        pool_idle_len(&self.inner)
    }

    /// The pool's capacity.
    pub fn capacity(&self) -> (n: usize)
        ensures
            n == self.spec_capacity(),
    {
        self.capacity
    }

    /// Hands out an empty batch: the most recently parked one when any
    /// is idle (no allocation), a freshly allocated one otherwise.
    pub fn acquire(&mut self) -> (r: DrawBatch)
        ensures
            r@ == Seq::<DrawCommand>::empty(),
            final(self).spec_capacity() == old(self).spec_capacity(),
            old(self).idle().len() > 0 ==> final(self).idle() == old(self).idle().drop_last(),
            old(self).idle().len() == 0 ==> final(self).idle() == old(self).idle(),
    {
        match pool_take(&mut self.inner) {
            Some(mut b) => {
                b.clear();
                b
            },
            None => DrawBatch::with_capacity(self.batch_capacity),
        }
    }

    /// Parks a batch back in the pool, contents and all, unless the pool
    /// already holds its full capacity; a batch over capacity is dropped.
    /// Only the pool changes: nothing a released, unsubmitted batch held
    /// ever reaches the command buffer.
    pub fn release(&mut self, batch: DrawBatch)
        ensures
            final(self).spec_capacity() == old(self).spec_capacity(),
            old(self).idle().len() < old(self).spec_capacity() ==> final(self).idle() == old(
                self,
            ).idle().push(batch),
            old(self).idle().len() >= old(self).spec_capacity() ==> final(self).idle() == old(
                self,
            ).idle(),
    {
        if pool_idle_len(&self.inner) < self.capacity {
            pool_put(&mut self.inner, batch);
        }
    }
}

} // verus!
