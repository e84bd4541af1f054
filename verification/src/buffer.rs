//! A fixed size buffer that keeps the most recent items, newest first.
use std::slice::Iter;
use vstd::prelude::*;
use vstd::std_specs::iter::IteratorSpec;

verus! {

/// A fixed size buffer of `N` items. Inserting puts the new item in front and
/// drops the oldest one.
#[derive(Debug, Clone, Copy, Hash, PartialEq, Eq, PartialOrd, Ord)]
pub struct Buffer<T, const N: usize> {
    inner: [T; N],
}

/// Rotates the array by `k` places to the right, as `slice::rotate_right` does:
/// the last `k` items move to the front, in order, and the others follow.
#[verifier::external_body]
fn rotate_array_right<T, const N: usize>(items: &mut [T; N], k: usize)
    requires
        k <= N,
    ensures
        final(items)@ == old(items)@.subrange(N - k, N as int) + old(items)@.subrange(0, N - k),
{
    items.rotate_right(k);
}

/// The items after inserting `item`: it comes first, and the last item is dropped.
pub open spec fn pushed<T>(items: Seq<T>, item: T) -> Seq<T> {
    seq![item] + items.subrange(0, items.len() - 1)
}

/// The items after inserting each of `inserted` in turn.
pub open spec fn pushed_all<T>(items: Seq<T>, inserted: Seq<T>) -> Seq<T>
    decreases inserted.len(),
{
    if inserted.len() == 0 {
        items
    } else {
        pushed(pushed_all(items, inserted.drop_last()), inserted.last())
    }
}

/// A buffer keeps the most recent items, newest first: after inserting `k` items
/// into a buffer of `n` items, it holds them in reverse order of insertion followed
/// by the first `n - k` items it held before, or, once `k` reaches `n`, only the
/// last `n` items inserted, newest first.
pub proof fn lemma_keeps_most_recent<T>(items: Seq<T>, inserted: Seq<T>)
    requires
        items.len() > 0,
    ensures
        pushed_all(items, inserted).len() == items.len(),
        inserted.len() <= items.len() ==> pushed_all(items, inserted) == inserted.reverse() + items.subrange(
            0,
            items.len() - inserted.len(),
        ),
        inserted.len() >= items.len() ==> pushed_all(items, inserted) == inserted.subrange(
            inserted.len() - items.len(),
            inserted.len() as int,
        ).reverse(),
    decreases inserted.len(),
{
    if inserted.len() > 0 {
        let rest = inserted.drop_last();
        lemma_keeps_most_recent(items, rest);
        let before = pushed_all(items, rest);
        let n = items.len() as int;
        let k = inserted.len() as int;
        if k <= n {
            assert(pushed_all(items, inserted) =~= inserted.reverse() + items.subrange(0, n - k));
        }
        if k >= n {
            if k - 1 >= n {
                assert(pushed_all(items, inserted) =~= inserted.subrange(k - n, k).reverse());
            } else {
                assert(pushed_all(items, inserted) =~= inserted.subrange(k - n, k).reverse());
            }
        }
    }
}

impl<T, const N: usize> View for Buffer<T, N> {
    type V = Seq<T>;

    closed spec fn view(&self) -> Seq<T> {
        self.inner@
    }
}

impl<T, const N: usize> Buffer<T, N> {
    /// The buffer always holds `N` items.
    pub proof fn lemma_len(&self)
        ensures
            self@.len() == N,
    {
    }

    /// A buffer holding the given items, the first of them being the newest.
    pub fn new(inital_data: [T; N]) -> (buffer: Self)
        ensures
            buffer@ == inital_data@,
    {
        Self { inner: inital_data }
    }

    /// Puts the item in front, moves every other item one place back and drops
    /// the last one. The buffer must hold at least one item.
    pub fn insert_data(&mut self, data: T)
        requires
            N > 0,
        ensures
            final(self)@ == pushed(old(self)@, data),
    {
        rotate_array_right(&mut self.inner, 1);
        self.inner[0] = data;
        assert(self@ =~= pushed(old(self)@, data));
    }

    /// Iterates over the items, newest first.
    pub fn iter(&self) -> (it: Iter<'_, T>)
        ensures
            it.remaining() == self@.as_ref(),
    {
        self.inner.as_slice().iter()
    }

    /// The number of items the buffer holds.
    pub fn len(&self) -> (n: usize)
        ensures
            n == N,
    {
        N
    }

    /// The item at the given place, 0 being the newest.
    pub fn get(&self, index: usize) -> (item: &T)
        requires
            index < N,
        ensures
            *item == self@[index as int],
    {
        &self.inner[index]
    }

    /// Mutable access to the item at the given place, 0 being the newest.
    pub fn get_mut(&mut self, index: usize) -> (item: &mut T)
        requires
            index < N,
        ensures
            *item == old(self)@[index as int],
            final(self)@ == old(self)@.update(index as int, *final(item)),
    {
        &mut self.inner[index]
    }
}

impl<T, const N: usize> std::ops::Index<usize> for Buffer<T, N> {
    type Output = T;

    /// The item at the given place, 0 being the newest.
    fn index(&self, index: usize) -> (item: &T)
        ensures
            *item == self@[index as int],
    {
        &self.inner[index]
    }
}

impl<T, const N: usize> vstd::std_specs::core::IndexSpecImpl<usize> for Buffer<T, N> {
    open spec fn index_req(&self, index: &usize) -> bool {
        *index < N
    }
}

} // verus!
