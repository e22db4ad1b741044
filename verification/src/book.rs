//! The book record, its list projection and the caller-supplied fields.

use vstd::prelude::*;

verus! {

/// An instant: whole seconds since the Unix epoch and the nanoseconds
/// into that second. Instants are ordered by time.
#[derive(Clone, Copy, Debug, PartialEq, Eq, Structural, PartialOrd, Ord)]
pub struct Timestamp {
    pub secs: i64,
    pub nanos: u32,
}

/// Whether a book counts as finished: it is being read and its last page
/// has been reached.
pub open spec fn finished_of(reading: bool, read_page: int, page_count: int) -> bool {
    reading && read_page == page_count
}

/// Computes the derived `finished` flag.
pub fn derive_finished(reading: bool, read_page: i32, page_count: i32) -> (r: bool)
    ensures
        r == finished_of(reading, read_page as int, page_count as int),
{
    reading && read_page == page_count
}

/// A catalog record. Its identity is `id`.
#[derive(Debug, PartialEq, Eq)]
pub struct Book {
    pub id: u128,
    pub name: String,
    pub year: i32,
    pub author: String,
    pub summary: String,
    pub publisher: String,
    pub page_count: i32,
    pub read_page: i32,
    pub reading: bool,
    pub finished: bool,
    pub updated_at: Timestamp,
    pub inserted_at: Timestamp,
}

/// The mathematical value of a [`Book`].
pub struct BookView {
    pub id: u128,
    pub name: Seq<char>,
    pub year: i32,
    pub author: Seq<char>,
    pub summary: Seq<char>,
    pub publisher: Seq<char>,
    pub page_count: i32,
    pub read_page: i32,
    pub reading: bool,
    pub finished: bool,
    pub updated_at: Timestamp,
    pub inserted_at: Timestamp,
}

impl BookView {
    /// `finished` is what the other fields make it.
    pub open spec fn finished_is_derived(self) -> bool {
        self.finished == finished_of(self.reading, self.read_page as int, self.page_count as int)
    }

    /// What holds of every book that the catalog commits: it has a name,
    /// no more pages are read than it has, and `finished` is derived from
    /// the other fields.
    pub open spec fn well_formed(self) -> bool {
        &&& self.name.len() > 0
        &&& self.read_page <= self.page_count
        &&& self.finished_is_derived()
    }

    /// The projection shown in lists.
    pub open spec fn summary(self) -> SummaryView {
        SummaryView { id: self.id, name: self.name, publisher: self.publisher }
    }
}

/// In a book whose `finished` is derived, and so in every well-formed
/// book: if it is being read, `finished` says whether the last page is
/// reached; if it is not being read, `finished` is false.
pub proof fn lemma_finished_is_derived(book: BookView)
    requires
        book.finished_is_derived(),
    ensures
        book.reading ==> (book.finished <==> book.read_page == book.page_count),
        !book.reading ==> !book.finished,
{
}

impl View for Book {
    type V = BookView;

    open spec fn view(&self) -> BookView {
        BookView {
            id: self.id,
            name: self.name@,
            year: self.year,
            author: self.author@,
            summary: self.summary@,
            publisher: self.publisher@,
            page_count: self.page_count,
            read_page: self.read_page,
            reading: self.reading,
            finished: self.finished,
            updated_at: self.updated_at,
            inserted_at: self.inserted_at,
        }
    }
}

impl Clone for Book {
    fn clone(&self) -> (r: Self)
        ensures
            r == *self,
    {
        Book {
            id: self.id,
            name: self.name.clone(),
            year: self.year,
            author: self.author.clone(),
            summary: self.summary.clone(),
            publisher: self.publisher.clone(),
            page_count: self.page_count,
            read_page: self.read_page,
            reading: self.reading,
            finished: self.finished,
            updated_at: self.updated_at,
            inserted_at: self.inserted_at,
        }
    }
}

impl Book {
    /// The list projection of this book.
    pub fn to_summary(&self) -> (r: BookSummary)
        ensures
            r@ == self@.summary(),
    {
        BookSummary { id: self.id, name: self.name.clone(), publisher: self.publisher.clone() }
    }
}

/// The projection of a book that list results hold.
#[derive(Debug, PartialEq, Eq)]
pub struct BookSummary {
    pub id: u128,
    pub name: String,
    pub publisher: String,
}

/// The mathematical value of a [`BookSummary`].
pub struct SummaryView {
    pub id: u128,
    pub name: Seq<char>,
    pub publisher: Seq<char>,
}

impl View for BookSummary {
    type V = SummaryView;

    open spec fn view(&self) -> SummaryView {
        SummaryView { id: self.id, name: self.name@, publisher: self.publisher@ }
    }
}

impl Clone for BookSummary {
    fn clone(&self) -> (r: Self)
        ensures
            r == *self,
    {
        BookSummary { id: self.id, name: self.name.clone(), publisher: self.publisher.clone() }
    }
}

/// The fields that a caller supplies to create or to update a book.
#[derive(Debug, PartialEq, Eq)]
pub struct BookParams {
    pub name: String,
    pub year: i32,
    pub author: String,
    pub summary: String,
    pub publisher: String,
    pub page_count: i32,
    pub read_page: i32,
    pub reading: bool,
}

/// The mathematical value of a [`BookParams`].
pub struct ParamsView {
    pub name: Seq<char>,
    pub year: i32,
    pub author: Seq<char>,
    pub summary: Seq<char>,
    pub publisher: Seq<char>,
    pub page_count: i32,
    pub read_page: i32,
    pub reading: bool,
}

impl View for BookParams {
    type V = ParamsView;

    open spec fn view(&self) -> ParamsView {
        ParamsView {
            name: self.name@,
            year: self.year,
            author: self.author@,
            summary: self.summary@,
            publisher: self.publisher@,
            page_count: self.page_count,
            read_page: self.read_page,
            reading: self.reading,
        }
    }
}

impl Clone for BookParams {
    fn clone(&self) -> (r: Self)
        ensures
            r == *self,
    {
        BookParams {
            name: self.name.clone(),
            year: self.year,
            author: self.author.clone(),
            summary: self.summary.clone(),
            publisher: self.publisher.clone(),
            page_count: self.page_count,
            read_page: self.read_page,
            reading: self.reading,
        }
    }
}

} // verus!
