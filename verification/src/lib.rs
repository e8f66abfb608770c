//! Access traits for multi-line-string geometries.
//!
//! A multi-line-string is an ordered collection of line strings treated as a
//! single geometric value. [`MultiLineStringTrait`] abstracts read-only,
//! index-based access to such a collection so that generic algorithms can
//! traverse any concrete representation uniformly. The trait derives a
//! double-ended, length-reporting iteration from its two access primitives;
//! [`MultiLineStringIterator`] carries that iteration. Implementations are
//! provided for an owned backing collection, for references to it, and as a
//! placeholder for types that have no multi-line-string concept.

pub mod iterator;
pub mod multi_line_string;

pub use iterator::MultiLineStringIterator;
pub use multi_line_string::MultiLineString;
pub use multi_line_string::MultiLineStringTrait;
pub use multi_line_string::UnimplementedLineString;
pub use multi_line_string::UnimplementedMultiLineString;
