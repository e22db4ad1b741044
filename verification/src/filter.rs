//! The list filter: which books a query selects.

use vstd::prelude::*;
use crate::book::{Book, BookView};
use crate::text::{contains_ignore_case, contains_ignoring_case};

verus! {

/// The text of an optional filter.
pub open spec fn text_of(filter: Option<String>) -> Option<Seq<char>> {
    match filter {
        Some(s) => Some(s@),
        None => None,
    }
}

/// Whether the filters select `book`. A name filter asks that the name
/// contain it, case ignored; the two flag filters ask for equality. An
/// absent filter selects every book, and the filters given must all hold.
pub open spec fn accepts(
    book: BookView,
    name: Option<Seq<char>>,
    reading: Option<bool>,
    finished: Option<bool>,
) -> bool {
    &&& name matches Some(n) ==> contains_ignoring_case(book.name, n)
    &&& reading matches Some(r) ==> book.reading == r
    &&& finished matches Some(f) ==> book.finished == f
}

/// Decides whether the filters select `book`.
pub fn matches_filters(
    book: &Book,
    name: &Option<String>,
    reading: Option<bool>,
    finished: Option<bool>,
) -> (r: bool)
    ensures
        r == accepts(book@, text_of(*name), reading, finished),
{
    let name_ok = match name {
        Some(n) => contains_ignore_case(book.name.as_str(), n.as_str()),
        None => true,
    };
    let reading_ok = match reading {
        Some(r) => book.reading == r,
        None => true,
    };
    let finished_ok = match finished {
        Some(f) => book.finished == f,
        None => true,
    };
    name_ok && reading_ok && finished_ok
}

/// Filters combine by conjunction: a book is selected by several filters
/// together exactly when each of them alone selects it.
pub proof fn lemma_filters_conjoin(
    book: BookView,
    name: Option<Seq<char>>,
    reading: Option<bool>,
    finished: Option<bool>,
)
    ensures
        accepts(book, name, reading, finished) <==> accepts(book, name, None, None) && accepts(
            book,
            None,
            reading,
            None,
        ) && accepts(book, None, None, finished),
        accepts(book, None, None, None),
{
}

} // verus!
