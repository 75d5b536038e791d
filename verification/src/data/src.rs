//! References into the source books entries were taken from.

use vstd::prelude::*;


verus! {

/// One span of pages in one printing of a book.
pub struct Occurrence {
    pub first_page: u32,
    pub last_page: Option<u32>,
}

/// Where an entry occurs in a book: once or in several spans.
pub enum Occurrences {
    Single(Occurrence),
    Multiple(Vec<Occurrence>),
}

/// A reference into one source book.
pub struct SourceRef {
    pub id: u32,
    pub occurrences: Occurrences,
}

} // verus!
