//! The double-ended iteration derived from the access trait.

use vstd::prelude::*;

verus! {

use crate::multi_line_string::MultiLineStringTrait;

/// An iterator over the line strings of a multi-line-string, derived from
/// the count and the unchecked indexed access of [`MultiLineStringTrait`].
///
/// It walks the half-open index range `[start, end)` of the borrowed
/// collection and can be consumed from either end. The ghost sequence
/// [`remaining`](MultiLineStringIterator::remaining) holds the elements not
/// yet yielded, in index order; [`len`](MultiLineStringIterator::len)
/// reports its exact length at every point of the traversal.
pub struct MultiLineStringIterator<'a, S: MultiLineStringTrait> {
    /// The borrowed collection whose elements are iterated.
    pub collection: &'a S,
    /// The index of the next element yielded from the front.
    pub start: usize,
    /// One past the index of the next element yielded from the back.
    pub end: usize,
}

impl<'a, S: MultiLineStringTrait> MultiLineStringIterator<'a, S> {
    /// The iterator is well formed: its collection supports access and its
    /// index range lies inside the collection.
    pub open spec fn wf(&self) -> bool {
        &&& self.collection.supported()
        &&& self.start <= self.end
        &&& self.end <= self.collection.line_strings_seq().len()
    }

    /// The elements not yet yielded, in index order.
    pub open spec fn remaining(&self) -> Seq<S::InnerLineStringType> {
        self.collection.line_strings_seq().subrange(self.start as int, self.end as int)
    }

    /// A new iterator over the index range `[start, end)` of `collection`.
    pub fn new(collection: &'a S, start: usize, end: usize) -> (iter: Self)
        requires
            collection.supported(),
            start <= end,
            end <= collection.line_strings_seq().len(),
        ensures
            iter.collection == collection,
            iter.start == start,
            iter.end == end,
    {
        MultiLineStringIterator { collection, start, end }
    }

    /// The exact number of elements not yet yielded.
    pub fn len(&self) -> (n: usize)
        requires
            self.wf(),
        ensures
            n == self.remaining().len(),
    {
        self.end - self.start
    }

    /// Yields the first element not yet yielded, or `None` when the
    /// iteration is exhausted.
    pub fn next(&mut self) -> (r: Option<&'a S::InnerLineStringType>)
        requires
            old(self).wf(),
        ensures
            final(self).wf(),
            old(self).remaining().len() > 0 ==> (r matches Some(ls) && *ls == old(
                self,
            ).remaining().first() && final(self).remaining() == old(self).remaining().drop_first()),
            old(self).remaining().len() == 0 ==> r is None && final(self).remaining() == old(
                self,
            ).remaining(),
    {
        if self.start < self.end {
            let ls = self.collection.line_string_unchecked(self.start);
            self.start = self.start + 1;
            proof {
                assert(self.remaining() =~= old(self).remaining().drop_first());
            }
            Some(ls)
        } else {
            None
        }
    }

    /// Yields the last element not yet yielded, or `None` when the
    /// iteration is exhausted.
    pub fn next_back(&mut self) -> (r: Option<&'a S::InnerLineStringType>)
        requires
            old(self).wf(),
        ensures
            final(self).wf(),
            old(self).remaining().len() > 0 ==> (r matches Some(ls) && *ls == old(
                self,
            ).remaining().last() && final(self).remaining() == old(self).remaining().drop_last()),
            old(self).remaining().len() == 0 ==> r is None && final(self).remaining() == old(
                self,
            ).remaining(),
    {
        if self.start < self.end {
            self.end = self.end - 1;
            let ls = self.collection.line_string_unchecked(self.end);
            proof {
                assert(self.remaining() =~= old(self).remaining().drop_last());
            }
            Some(ls)
        } else {
            None
        }
    }

    /// Consumes the iterator front to back and returns every element not
    /// yet yielded, in index order.
    pub fn collect(self) -> (v: Vec<&'a S::InnerLineStringType>)
        requires
            self.wf(),
        ensures
            v@.len() == self.remaining().len(),
            forall|i: int| 0 <= i < v@.len() ==> *v@[i] == self.remaining()[i],
    {
        let mut iter = self;
        let ghost all = iter.remaining();
        let mut v: Vec<&'a S::InnerLineStringType> = Vec::new();
        loop
            invariant
                iter.wf(),
                v@.len() + iter.remaining().len() == all.len(),
                iter.remaining() == all.subrange(v@.len() as int, all.len() as int),
                forall|i: int| 0 <= i < v@.len() ==> *v@[i] == all[i],
            ensures
                v@.len() == all.len(),
                forall|i: int| 0 <= i < v@.len() ==> *v@[i] == all[i],
            decreases iter.remaining().len(),
        {
            match iter.next() {
                Some(ls) => {
                    v.push(ls);
                    proof {
                        assert(iter.remaining() =~= all.subrange(
                            v@.len() as int,
                            all.len() as int,
                        ));
                    }
                },
                None => {
                    break;
                },
            }
        }
        v
    }

    /// Consumes the iterator back to front and returns every element not
    /// yet yielded, in reverse index order.
    pub fn collect_rev(self) -> (v: Vec<&'a S::InnerLineStringType>)
        requires
            self.wf(),
        ensures
            v@.len() == self.remaining().len(),
            forall|i: int|
                0 <= i < v@.len() ==> *v@[i] == self.remaining()[self.remaining().len() - 1 - i],
    {
        let mut iter = self;
        let ghost all = iter.remaining();
        let mut v: Vec<&'a S::InnerLineStringType> = Vec::new();
        loop
            invariant
                iter.wf(),
                v@.len() + iter.remaining().len() == all.len(),
                iter.remaining() == all.subrange(0, iter.remaining().len() as int),
                forall|i: int| 0 <= i < v@.len() ==> *v@[i] == all[all.len() - 1 - i],
            ensures
                v@.len() == all.len(),
                forall|i: int| 0 <= i < v@.len() ==> *v@[i] == all[all.len() - 1 - i],
            decreases iter.remaining().len(),
        {
            match iter.next_back() {
                Some(ls) => {
                    v.push(ls);
                    proof {
                        assert(iter.remaining() =~= all.subrange(
                            0,
                            iter.remaining().len() as int,
                        ));
                    }
                },
                None => {
                    break;
                },
            }
        }
        v
    }
}

} // verus!
