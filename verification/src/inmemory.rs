//! The in-memory backend: a map from id to book.

use std::collections::HashMap;
use vstd::prelude::*;
use vstd::std_specs::iter::IteratorSpec;
use crate::book::{Book, BookSummary, BookView};
use crate::error::AppError;
use crate::filter::{accepts, matches_filters, text_of};
use crate::repo::{selected, shows, summaries, BookRepo};

verus! {

broadcast use vstd::std_specs::hash::group_hash_axioms;

/// A repository that keeps its books in memory. It never fails.
pub struct InMemoryBookRepo {
    map: HashMap<u128, Book>,
}

/// `ids` holds the keys of those among the first `upto` entries whose
/// book the filters select.
spec fn picked(
    ids: Seq<u128>,
    entries: Seq<(&u128, &Book)>,
    upto: int,
    name: Option<Seq<char>>,
    reading: Option<bool>,
    finished: Option<bool>,
) -> bool {
    forall|id: u128|
        ids.contains(id) <==> exists|j: int|
            0 <= j < upto && *(#[trigger] entries[j]).0 == id && accepts(
                (*entries[j].1)@,
                name,
                reading,
                finished,
            )
}

/// Going one entry further keeps `picked`, with the entry's key added
/// where the filters select its book.
proof fn lemma_picked_next(
    ids: Seq<u128>,
    entries: Seq<(&u128, &Book)>,
    upto: int,
    name: Option<Seq<char>>,
    reading: Option<bool>,
    finished: Option<bool>,
)
    requires
        0 <= upto < entries.len(),
        picked(ids, entries, upto, name, reading, finished),
    ensures
        picked(
            if accepts((*entries[upto].1)@, name, reading, finished) {
                ids.push(*entries[upto].0)
            } else {
                ids
            },
            entries,
            upto + 1,
            name,
            reading,
            finished,
        ),
{
    let key = *entries[upto].0;
    let keep = accepts((*entries[upto].1)@, name, reading, finished);
    let next = if keep {
        ids.push(key)
    } else {
        ids
    };
    assert forall|id: u128|
        next.contains(id) <==> exists|j: int|
            0 <= j < upto + 1 && *(#[trigger] entries[j]).0 == id && accepts(
                (*entries[j].1)@,
                name,
                reading,
                finished,
            ) by {
        if next.contains(id) {
            let i = choose|i: int| 0 <= i < next.len() && next[i] == id;
            if i < ids.len() {
                assert(ids[i] == id);
                assert(ids.contains(id));
                let j = choose|j: int|
                    0 <= j < upto && *(#[trigger] entries[j]).0 == id && accepts(
                        (*entries[j].1)@,
                        name,
                        reading,
                        finished,
                    );
                assert(0 <= j < upto + 1 && *entries[j].0 == id);
            } else {
                assert(*entries[upto].0 == id);
            }
        }
        if exists|j: int|
            0 <= j < upto + 1 && *(#[trigger] entries[j]).0 == id && accepts(
                (*entries[j].1)@,
                name,
                reading,
                finished,
            ) {
            let j = choose|j: int|
                0 <= j < upto + 1 && *(#[trigger] entries[j]).0 == id && accepts(
                    (*entries[j].1)@,
                    name,
                    reading,
                    finished,
                );
            if j < upto {
                assert(ids.contains(id));
                let i = choose|i: int| 0 <= i < ids.len() && ids[i] == id;
                assert(next[i] == id);
            } else {
                assert(next[next.len() - 1] == id);
            }
        }
    }
}

impl InMemoryBookRepo {
    /// A repository that holds no book.
    pub fn new() -> (r: Self)
        ensures
            r.books() == Map::<u128, BookView>::empty(),
    {
        let r = InMemoryBookRepo { map: HashMap::new() };
        assert(r.books() =~= Map::<u128, BookView>::empty());
        r
    }
}

impl Default for InMemoryBookRepo {
    fn default() -> (r: Self)
        ensures
            r.books() == Map::<u128, BookView>::empty(),
    {
        InMemoryBookRepo::new()
    }
}

impl BookRepo for InMemoryBookRepo {
    closed spec fn books(&self) -> Map<u128, BookView> {
        self.map@.map_values(|b: Book| b@)
    }

    open spec fn never_fails(&self) -> bool {
        true
    }

    fn save_book(&mut self, book: &Book) -> (r: Result<u128, AppError>) {
        self.map.insert(book.id, book.clone());
        assert(self.books() =~= old(self).books().insert(book.id, book@));
        Ok(book.id)
    }

    fn get_books(
        &self,
        name: Option<String>,
        reading: Option<bool>,
        finished: Option<bool>,
    ) -> (r: Result<Vec<BookSummary>, AppError>) {
        let mut list: Vec<BookSummary> = Vec::new();
        let ghost mut ids: Seq<u128> = Seq::empty();
        let ghost entries = self.map.iter().remaining();
        for entry in it: self.map.iter()
            invariant
                entries == self.map.iter().remaining(),
                it.seq() == entries,
                entries.no_duplicates(),
                ids.len() == list.len(),
                ids.no_duplicates(),
                picked(ids, entries, it.index(), text_of(name), reading, finished),
                forall|i: int| 0 <= i < ids.len() ==> self.map@.contains_key(#[trigger] ids[i]),
                forall|i: int|
                    0 <= i < ids.len() ==> (#[trigger] list@[i])@ == self.map@[ids[i]]@.summary(),
        {
            let (id, book) = entry;
            let ghost at = it.index();
            assert(self.map@.contains_key(*entries[at].0) && self.map@[*entries[at].0]
                == *entries[at].1);
            proof {
                lemma_picked_next(ids, entries, at, text_of(name), reading, finished);
            }
            if matches_filters(book, &name, reading, finished) {
                proof {
                    if ids.contains(*id) {
                        // An id that was picked before stands in an earlier entry,
                        // and no two entries share a key.
                        let j = choose|j: int|
                            0 <= j < at && *(#[trigger] entries[j]).0 == *id && accepts(
                                (*entries[j].1)@,
                                text_of(name),
                                reading,
                                finished,
                            );
                        assert(self.map@[*entries[j].0] == *entries[j].1);
                        assert(entries[j] == entries[at]);
                    }
                    ids = ids.push(*id);
                }
                list.push(book.to_summary());
            }
        }
        proof {
            let books = self.books();
            let chosen = selected(books, text_of(name), reading, finished);
            assert forall|id: u128| ids.to_set().contains(id) <==> chosen.contains(id) by {
                if chosen.contains(id) {
                    assert(entries.contains((&id, &self.map@[id])));
                    let j = choose|j: int|
                        0 <= j < entries.len() && entries[j] == (&id, &self.map@[id]);
                    assert(*entries[j].0 == id);
                }
                if ids.contains(id) {
                    let j = choose|j: int|
                        0 <= j < entries.len() && *(#[trigger] entries[j]).0 == id && accepts(
                            (*entries[j].1)@,
                            text_of(name),
                            reading,
                            finished,
                        );
                    assert(self.map@[*entries[j].0] == *entries[j].1);
                }
            }
            assert(ids.to_set() =~= chosen);
            assert(summaries(list@) =~= ids.map_values(|id: u128| books[id].summary()));
            assert(shows(summaries(list@), books, ids));
        }
        Ok(list)
    }

    fn get_book_by_id(&self, id: u128) -> (r: Result<Option<Book>, AppError>) {
        match self.map.get(&id) {
            Some(book) => Ok(Some(book.clone())),
            None => Ok(None),
        }
    }

    fn delete_book(&mut self, id: u128) -> (r: Result<u128, AppError>) {
        self.map.remove(&id);
        assert(self.books() =~= old(self).books().remove(id));
        Ok(id)
    }
}

} // verus!
