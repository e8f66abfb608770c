//! The multi-line-string access trait and its placeholder implementation.

use vstd::prelude::*;

verus! {

use core::marker::PhantomData;
use crate::iterator::MultiLineStringIterator;

/// A trait for accessing data from a generic multi-line-string: an ordered
/// collection of line strings, indexed from zero.
///
/// The collection is modelled by the ghost sequence
/// [`line_strings_seq`](MultiLineStringTrait::line_strings_seq): every
/// access method is specified against it. The checked accessor
/// [`line_string`](MultiLineStringTrait::line_string) answers `None` for an
/// out-of-bounds index; the unchecked accessor demands a valid index from its caller
/// instead of testing it, so that iteration over a range already known to be
/// in bounds pays no redundant checks.
pub trait MultiLineStringTrait: Sized {
    /// The type of each underlying line string.
    type InnerLineStringType;

    /// The line strings this collection holds, in index order. Every
    /// implementation overrides this model; the default, an empty sequence,
    /// only spares unverified implementations from naming ghost types.
    open spec fn line_strings_seq(&self) -> Seq<Self::InnerLineStringType> {
        Seq::empty()
    }

    /// Whether the data-access methods of this implementation may be invoked
    /// at all. A placeholder implementation that stands for an absent
    /// capability answers `false`, which bars every call to its accessors.
    open spec fn supported(&self) -> bool {
        true
    }

    /// The number of line strings in this multi-line-string.
    fn num_line_strings(&self) -> (n: usize)
        requires
            self.supported(),
        ensures
            n == self.line_strings_seq().len(),
    ;

    /// Access to the line string at index `i`, which the caller must have
    /// shown to be in bounds.
    fn line_string_unchecked(&self, i: usize) -> (r: &Self::InnerLineStringType)
        requires
            self.supported(),
            i < self.line_strings_seq().len(),
        ensures
            *r == self.line_strings_seq()[i as int],
    ;

    /// Access to the line string at index `i`, or `None` when `i` is out of
    /// bounds.
    fn line_string(&self, i: usize) -> (r: Option<&Self::InnerLineStringType>)
        requires
            self.supported(),
        ensures
            i < self.line_strings_seq().len() ==> (r matches Some(ls) && *ls
                == self.line_strings_seq()[i as int]),
            i >= self.line_strings_seq().len() ==> r is None,
    {
        if i >= self.num_line_strings() {
            None
        } else {
            Some(self.line_string_unchecked(i))
        }
    }

    /// An iterator over the line strings in this multi-line-string, from the
    /// first to the last.
    fn line_strings(&self) -> (iter: MultiLineStringIterator<'_, Self>)
        requires
            self.supported(),
        ensures
            iter.collection == self,
            iter.start == 0,
            iter.end == self.line_strings_seq().len(),
    {
        let n = self.num_line_strings();
        MultiLineStringIterator { collection: self, start: 0, end: n }
    }
}

/// An owned multi-line-string: a backing vector of line strings accessed in
/// index order.
///
/// The element type is left open; any line-string representation, including
/// one of an outside geometry library, can be stored. `size` delegates to
/// the vector's length and the accessors hand out borrowed references to the
/// stored elements, without transformation or copying.
pub struct MultiLineString<L> {
    line_strings: Vec<L>,
}

impl<L> MultiLineString<L> {
    /// A multi-line-string with the given line strings as elements.
    pub fn new(line_strings: Vec<L>) -> (m: Self)
        ensures
            m.line_strings_seq() == line_strings@,
    {
        MultiLineString { line_strings }
    }
}

impl<L> MultiLineStringTrait for MultiLineString<L> {
    type InnerLineStringType = L;

    closed spec fn line_strings_seq(&self) -> Seq<L> {
        self.line_strings@
    }

    open spec fn supported(&self) -> bool {
        true
    }

    fn num_line_strings(&self) -> (n: usize) {
        self.line_strings.len()
    }

    fn line_string_unchecked(&self, i: usize) -> (r: &L) {
        &self.line_strings[i]
    }
}

impl<'a, L> MultiLineStringTrait for &'a MultiLineString<L> {
    type InnerLineStringType = L;

    closed spec fn line_strings_seq(&self) -> Seq<L> {
        (*self).line_strings@
    }

    open spec fn supported(&self) -> bool {
        true
    }

    fn num_line_strings(&self) -> (n: usize) {
        let m: &'a MultiLineString<L> = *self;
        m.num_line_strings()
    }

    fn line_string_unchecked(&self, i: usize) -> (r: &L) {
        let m: &'a MultiLineString<L> = *self;
        m.line_string_unchecked(i)
    }
}

/// The borrowed-reference implementation is semantically equivalent to the
/// owned one: a reference to an owned multi-line-string presents exactly
/// the line strings of the collection it borrows, in the same order.
pub proof fn lemma_reference_matches_owned<L>(m: &MultiLineString<L>)
    ensures
        <&MultiLineString<L> as MultiLineStringTrait>::line_strings_seq(&m)
            == <MultiLineString<L> as MultiLineStringTrait>::line_strings_seq(m),
{
}

/// An empty struct that stands in for a line string where none exists: the
/// inner type of [`UnimplementedMultiLineString`]. It carries no data and
/// offers no operations.
pub struct UnimplementedLineString<T>(PhantomData<T>);

/// An empty struct that implements [`MultiLineStringTrait`] without
/// supporting it.
///
/// It fills the multi-line-string slot of a wider family of geometry
/// accessors for concrete types that have no multi-line-string concept. Its
/// `supported` spec answers `false`, so no data-access method of it can ever
/// be invoked from verified code; an unverified caller that invokes one
/// anyway aborts.
pub struct UnimplementedMultiLineString<T>(PhantomData<T>);

impl<T> MultiLineStringTrait for UnimplementedMultiLineString<T> {
    type InnerLineStringType = UnimplementedLineString<T>;

    closed spec fn line_strings_seq(&self) -> Seq<UnimplementedLineString<T>> {
        Seq::empty()
    }

    closed spec fn supported(&self) -> bool {
        false
    }

    fn num_line_strings(&self) -> (n: usize) {
        vstd::pervasive::unreached()
    }

    fn line_string_unchecked(&self, _i: usize) -> (r: &UnimplementedLineString<T>) {
        vstd::pervasive::unreached()
    }
}

} // verus!
