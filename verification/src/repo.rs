//! The repository contract: the four operations that every storage
//! backend offers, stated over the books it holds.

use vstd::prelude::*;
use crate::book::{Book, BookSummary, BookView, SummaryView};
use crate::error::AppError;
use crate::filter::{accepts, text_of};

verus! {

/// The ids of the books that the filters select among `books`.
pub open spec fn selected(
    books: Map<u128, BookView>,
    name: Option<Seq<char>>,
    reading: Option<bool>,
    finished: Option<bool>,
) -> Set<u128> {
    Set::new(|id: u128| books.contains_key(id) && accepts(books[id], name, reading, finished))
}

/// The values of a list of summaries.
pub open spec fn summaries(list: Seq<BookSummary>) -> Seq<SummaryView> {
    list.map_values(|s: BookSummary| s@)
}

/// `list` shows the books stored under `ids`, in that order.
pub open spec fn shows(list: Seq<SummaryView>, books: Map<u128, BookView>, ids: Seq<u128>) -> bool {
    list == ids.map_values(|id: u128| books[id].summary())
}

/// `list` is an answer to a list query: it holds the summary of each
/// selected book once, in some order.
pub open spec fn is_listing(
    list: Seq<SummaryView>,
    books: Map<u128, BookView>,
    name: Option<Seq<char>>,
    reading: Option<bool>,
    finished: Option<bool>,
) -> bool {
    exists|ids: Seq<u128>|
        ids.no_duplicates() && ids.to_set() == selected(books, name, reading, finished)
            && #[trigger] shows(list, books, ids)
}

/// The value of an optional book.
pub open spec fn found_view(found: Option<Book>) -> Option<BookView> {
    match found {
        Some(b) => Some(b@),
        None => None,
    }
}

/// What a lookup by id finds among `books`.
pub open spec fn lookup(books: Map<u128, BookView>, id: u128) -> Option<BookView> {
    if books.contains_key(id) {
        Some(books[id])
    } else {
        None
    }
}

/// A storage backend for books. An operation may fail in the backend's
/// own way; what it did when it succeeded is fixed here.
pub trait BookRepo {
    /// The books held, by id.
    spec fn books(&self) -> Map<u128, BookView>;

    /// Whether every operation of this backend succeeds.
    spec fn never_fails(&self) -> bool;

    /// Stores `book` under its id, in place of any book held under it.
    fn save_book(&mut self, book: &Book) -> (r: Result<u128, AppError>)
        ensures
            final(self).never_fails() == old(self).never_fails(),
            old(self).never_fails() ==> r is Ok,
            r matches Ok(id) ==> id == book.id && final(self).books() == old(self).books().insert(
                book.id,
                book@,
            ),
    ;

    /// Lists the summaries of the books that the filters select.
    fn get_books(
        &self,
        name: Option<String>,
        reading: Option<bool>,
        finished: Option<bool>,
    ) -> (r: Result<Vec<BookSummary>, AppError>)
        ensures
            self.never_fails() ==> r is Ok,
            r matches Ok(list) ==> is_listing(
                summaries(list@),
                self.books(),
                text_of(name),
                reading,
                finished,
            ),
    ;

    /// Looks a book up by id. A miss is no failure.
    fn get_book_by_id(&self, id: u128) -> (r: Result<Option<Book>, AppError>)
        ensures
            self.never_fails() ==> r is Ok,
            r matches Ok(found) ==> found_view(found) == lookup(self.books(), id),
    ;

    /// Removes the book held under `id`, if there is one, and hands `id`
    /// back either way.
    fn delete_book(&mut self, id: u128) -> (r: Result<u128, AppError>)
        ensures
            final(self).never_fails() == old(self).never_fails(),
            old(self).never_fails() ==> r is Ok,
            r matches Ok(deleted) ==> deleted == id && final(self).books() == old(
                self,
            ).books().remove(id),
    ;
}

/// Every book is held under its own id.
pub open spec fn keyed_by_id(books: Map<u128, BookView>) -> bool {
    forall|id: u128| books.contains_key(id) ==> (#[trigger] books[id]).id == id
}

/// A book that was saved is found under its id, as it was saved.
pub proof fn lemma_save_then_get(books: Map<u128, BookView>, book: BookView)
    ensures
        lookup(books.insert(book.id, book), book.id) == Some(book),
{
}

/// Saving a book leaves every other book as it was.
pub proof fn lemma_save_keeps_others(books: Map<u128, BookView>, book: BookView, other: u128)
    requires
        other != book.id,
    ensures
        lookup(books.insert(book.id, book), other) == lookup(books, other),
{
}

/// Deleting twice is deleting once, and after a delete the id is absent.
pub proof fn lemma_delete_idempotent(books: Map<u128, BookView>, id: u128)
    ensures
        books.remove(id).remove(id) == books.remove(id),
        lookup(books.remove(id), id) is None,
{
    assert(books.remove(id).remove(id) =~= books.remove(id));
}

/// Saving and deleting keep every book under its own id, and so does the
/// empty store.
pub proof fn lemma_keyed_by_id_kept(books: Map<u128, BookView>, book: BookView, id: u128)
    requires
        keyed_by_id(books),
    ensures
        keyed_by_id(books.insert(book.id, book)),
        keyed_by_id(books.remove(id)),
        keyed_by_id(Map::<u128, BookView>::empty()),
{
}

/// An answer to a list query holds as many summaries as books are
/// selected.
pub proof fn lemma_listing_len(
    books: Map<u128, BookView>,
    name: Option<Seq<char>>,
    reading: Option<bool>,
    finished: Option<bool>,
    list: Seq<SummaryView>,
)
    requires
        is_listing(list, books, name, reading, finished),
    ensures
        list.len() == selected(books, name, reading, finished).len(),
{
    let ids = choose|ids: Seq<u128>|
        ids.no_duplicates() && ids.to_set() == selected(books, name, reading, finished)
            && #[trigger] shows(list, books, ids);
    ids.unique_seq_to_set();
}

/// Filters select by conjunction: the books that several filters select
/// together are those that each of them selects alone.
pub proof fn lemma_selected_conjoin(
    books: Map<u128, BookView>,
    name: Option<Seq<char>>,
    reading: Option<bool>,
    finished: Option<bool>,
)
    ensures
        selected(books, name, reading, finished) == selected(books, name, None, None).intersect(
            selected(books, None, reading, None),
        ).intersect(selected(books, None, None, finished)),
        selected(books, None, None, None) == books.dom(),
{
    assert(selected(books, name, reading, finished) =~= selected(
        books,
        name,
        None,
        None,
    ).intersect(selected(books, None, reading, None)).intersect(
        selected(books, None, None, finished),
    ));
    assert(selected(books, None, None, None) =~= books.dom());
}

/// The summaries that a list holds, as a set.
pub open spec fn shown(list: Seq<SummaryView>) -> Set<SummaryView> {
    list.to_set()
}

/// In a store that holds every book under its own id, the answer to a
/// query with two filters holds exactly the summaries that the answers
/// to the two single-filter queries share.
pub proof fn lemma_listing_conjoin(
    books: Map<u128, BookView>,
    name: Seq<char>,
    reading: bool,
    both: Seq<SummaryView>,
    by_name: Seq<SummaryView>,
    by_reading: Seq<SummaryView>,
)
    requires
        keyed_by_id(books),
        is_listing(both, books, Some(name), Some(reading), None),
        is_listing(by_name, books, Some(name), None, None),
        is_listing(by_reading, books, None, Some(reading), None),
    ensures
        shown(both) == shown(by_name).intersect(shown(by_reading)),
{
    lemma_listing_shows_selected(books, Some(name), Some(reading), None, both);
    lemma_listing_shows_selected(books, Some(name), None, None, by_name);
    lemma_listing_shows_selected(books, None, Some(reading), None, by_reading);
    assert forall|s: SummaryView| shown(both).contains(s) <==> shown(by_name).contains(s) && shown(
        by_reading,
    ).contains(s) by {
        if shown(by_name).contains(s) && shown(by_reading).contains(s) {
            assert(selected(books, Some(name), None, None).contains(s.id));
            assert(selected(books, None, Some(reading), None).contains(s.id));
            assert(selected(books, Some(name), Some(reading), None).contains(s.id));
        }
        if shown(both).contains(s) {
            assert(selected(books, Some(name), Some(reading), None).contains(s.id));
            assert(selected(books, Some(name), None, None).contains(s.id));
            assert(selected(books, None, Some(reading), None).contains(s.id));
        }
    }
    assert(shown(both) =~= shown(by_name).intersect(shown(by_reading)));
}

/// In a store that holds every book under its own id, a summary stands
/// in the answer to a query exactly when it is the summary of a selected
/// book.
pub proof fn lemma_listing_shows_selected(
    books: Map<u128, BookView>,
    name: Option<Seq<char>>,
    reading: Option<bool>,
    finished: Option<bool>,
    list: Seq<SummaryView>,
)
    requires
        keyed_by_id(books),
        is_listing(list, books, name, reading, finished),
    ensures
        forall|s: SummaryView| #[trigger]
            shown(list).contains(s) <==> selected(books, name, reading, finished).contains(s.id)
                && s == books[s.id].summary(),
{
    let ids = choose|ids: Seq<u128>|
        ids.no_duplicates() && ids.to_set() == selected(books, name, reading, finished)
            && #[trigger] shows(list, books, ids);
    assert forall|s: SummaryView| #[trigger]
        shown(list).contains(s) <==> selected(books, name, reading, finished).contains(s.id) && s
            == books[s.id].summary() by {
        if shown(list).contains(s) {
            let i = choose|i: int| 0 <= i < list.len() && list[i] == s;
            assert(ids.to_set().contains(ids[i]));
        }
        if selected(books, name, reading, finished).contains(s.id) && s == books[s.id].summary() {
            assert(ids.to_set().contains(s.id));
            let i = choose|i: int| 0 <= i < ids.len() && ids[i] == s.id;
            assert(list[i] == s);
        }
    }
}

} // verus!
