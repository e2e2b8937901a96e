//! Views of one worker's chunk of a larger slice.
use vstd::prelude::*;
use crate::partition::{chunk_bounds, chunk_end, chunk_start};
use vstd::std_specs::slice::into_iter_elts;

verus! {

/// The part of `s` that worker `index` out of `count` works on.
pub open spec fn region_of<T>(s: Seq<T>, index: nat, count: nat) -> Seq<T> {
    s.subrange(
        chunk_start(index, count, s.len()) as int,
        chunk_end(index, count, s.len()) as int,
    )
}

/// `s` with the part of worker `index` out of `count` replaced by `r`.
pub open spec fn with_region<T>(s: Seq<T>, index: nat, count: nat, r: Seq<T>) -> Seq<T> {
    s.subrange(0, chunk_start(index, count, s.len()) as int) + r + s.subrange(
        chunk_end(index, count, s.len()) as int,
        s.len() as int,
    )
}

/// A read-only view of one worker's chunk, with the uniform chunk width.
pub struct SubSlice<'a, T> {
    pub slice: &'a [T],
    pub width: usize,
}

/// A mutable view of one worker's chunk, with the uniform chunk width.
pub struct SubSliceMut<'a, T> {
    pub slice: &'a mut [T],
    pub width: usize,
}

impl<'a, T> View for SubSlice<'a, T> {
    type V = Seq<T>;

    open spec fn view(&self) -> Seq<T> {
        self.slice@
    }
}

impl<'a, T> View for SubSliceMut<'a, T> {
    type V = Seq<T>;

    open spec fn view(&self) -> Seq<T> {
        self.slice@
    }
}

impl<'a, T> SubSlice<'a, T> {
    /// The uniform chunk width: the length of every chunk but the last, which
    /// also holds the remainder.
    pub fn width(&self) -> (r: usize)
        ensures
            r == self.width,
    {
        self.width
    }

    /// Number of elements in this chunk.
    pub fn len(&self) -> (r: usize)
        ensures
            r == self@.len(),
    {
        self.slice.len()
    }

    /// The element at `index` within this chunk.
    pub fn get(&self, index: usize) -> (r: &'a T)
        requires
            index < self@.len(),
        ensures
            *r == self@[index as int],
    {
        &self.slice[index]
    }

    /// The chunk as a slice.
    pub fn as_slice(&self) -> (r: &'a [T])
        ensures
            r@ == self@,
    {
        self.slice
    }

    /// An iterator over the elements of this chunk, in order.
    pub fn iter(&self) -> (r: core::slice::Iter<'a, T>)
        ensures
            into_iter_elts(r) == self@,
    {
        self.slice.iter()
    }
}

/// The iterator that `<[T]>::iter_mut` returns, carried through opaquely.
#[verifier::external_type_specification]
#[verifier::external_body]
#[verifier::reject_recursive_types(T)]
pub struct ExIterMut<'a, T: 'a>(core::slice::IterMut<'a, T>);

/// Relies on `<[T]>::iter_mut`: an iterator that hands out each element of `s` mutably.
#[verifier::external_body]
fn slice_iter_mut<'b, T>(s: &'b mut [T]) -> core::slice::IterMut<'b, T> {
    s.iter_mut()
}

impl<'a, T> SubSliceMut<'a, T> {
    /// The uniform chunk width: the length of every chunk but the last, which
    /// also holds the remainder.
    pub fn width(&self) -> (r: usize)
        ensures
            r == self.width,
    {
        self.width
    }

    /// Number of elements in this chunk.
    pub fn len(&self) -> (r: usize)
        ensures
            r == self@.len(),
    {
        self.slice.len()
    }

    /// The element at `index` within this chunk.
    pub fn get(&self, index: usize) -> (r: &T)
        requires
            index < self@.len(),
        ensures
            *r == self@[index as int],
    {
        &self.slice[index]
    }

    /// Overwrites the element at `index` within this chunk.
    pub fn set(&mut self, index: usize, value: T)
        requires
            index < old(self)@.len(),
        ensures
            final(self)@ == old(self)@.update(index as int, value),
            final(self).width == old(self).width,
            final(final(self).slice)@ == final(old(self).slice)@,
    {
        self.slice[index] = value;
    }

    /// An iterator over the elements of this chunk, in order.
    pub fn iter(&self) -> (r: core::slice::Iter<'_, T>)
        ensures
            into_iter_elts(r) == self@,
    {
        self.slice.iter()
    }

    /// An iterator that hands out each element of this chunk mutably, in order.
    pub fn iter_mut(&mut self) -> core::slice::IterMut<'_, T> {
        slice_iter_mut(self.slice)
    }
}

/// The read-only view of worker `index`'s chunk of `slice`, out of `count` workers.
pub fn split_region<'s, S>(slice: &'s [S], index: usize, count: usize) -> (r: SubSlice<'s, S>)
    requires
        index < count,
    ensures
        r@ == region_of(slice@, index as nat, count as nat),
        r.width == slice@.len() / (count as nat),
{
    let len = slice.len();
    let (start, end) = chunk_bounds(index, count, len);
    SubSlice { slice: &slice[start..end], width: len / count }
}

/// The mutable view of worker `index`'s chunk of `slice`, out of `count` workers.
/// What is written through the view lands in that chunk of `slice`, and the rest
/// of `slice` is left as it was.
pub fn split_region_mut<'s, S>(slice: &'s mut [S], index: usize, count: usize) -> (r: SubSliceMut<
    's,
    S,
>)
    requires
        index < count,
    ensures
        r@ == region_of(old(slice)@, index as nat, count as nat),
        r.width == old(slice)@.len() / (count as nat),
        final(slice)@ == with_region(old(slice)@, index as nat, count as nat, final(r.slice)@),
{
    let len = slice.len();
    let (start, end) = chunk_bounds(index, count, len);
    let (_head, rest) = slice.split_at_mut(start);
    let (mid, _tail) = rest.split_at_mut(end - start);
    SubSliceMut { slice: mid, width: len / count }
}

} // verus!
