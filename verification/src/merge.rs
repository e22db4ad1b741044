//! The partial-update merge: a new book from a stored one and a patch in
//! which a zero or an empty text means "leave this field as it is".

use vstd::prelude::*;
use crate::book::{finished_of, Book, BookParams, BookView, ParamsView, Timestamp};

verus! {

/// The text that a merge keeps: the supplied one unless it is empty.
pub open spec fn resolved_text(existing: Seq<char>, supplied: Seq<char>) -> Seq<char> {
    if supplied.len() == 0 {
        existing
    } else {
        supplied
    }
}

/// The number that a merge keeps: the supplied one unless it is zero.
pub open spec fn resolved_number(existing: i32, supplied: i32) -> i32 {
    if supplied == 0 {
        existing
    } else {
        supplied
    }
}

/// The reading flag that a merge keeps: a patch can set it and cannot
/// clear it.
pub open spec fn resolved_reading(existing: bool, supplied: bool) -> bool {
    supplied || existing
}

/// The book that results from applying `patch` to `existing` at `now`.
/// The identity and the creation time stay, `finished` is derived anew
/// from the merged fields, and the update time is `now`.
pub open spec fn merged(existing: BookView, patch: ParamsView, now: Timestamp) -> BookView {
    let page_count = resolved_number(existing.page_count, patch.page_count);
    let read_page = resolved_number(existing.read_page, patch.read_page);
    let reading = resolved_reading(existing.reading, patch.reading);
    BookView {
        id: existing.id,
        name: resolved_text(existing.name, patch.name),
        year: resolved_number(existing.year, patch.year),
        author: resolved_text(existing.author, patch.author),
        summary: resolved_text(existing.summary, patch.summary),
        publisher: resolved_text(existing.publisher, patch.publisher),
        page_count,
        read_page,
        reading,
        finished: finished_of(reading, read_page as int, page_count as int),
        updated_at: now,
        inserted_at: existing.inserted_at,
    }
}

/// After the merge more pages would be read than the book has.
pub open spec fn merge_overreads(existing: BookView, patch: ParamsView) -> bool {
    resolved_number(existing.read_page, patch.read_page) > resolved_number(
        existing.page_count,
        patch.page_count,
    )
}

/// Picks the supplied text unless it is empty.
pub fn resolve_text(existing: String, supplied: String) -> (r: String)
    ensures
        r@ == resolved_text(existing@, supplied@),
{
    if supplied.as_str().is_empty() {
        existing
    } else {
        supplied
    }
}

/// Picks the supplied number unless it is zero.
pub fn resolve_number(existing: i32, supplied: i32) -> (r: i32)
    ensures
        r == resolved_number(existing, supplied),
{
    if supplied == 0 {
        existing
    } else {
        supplied
    }
}

/// Decides whether applying `patch` to `existing` would leave more pages
/// read than the book has.
pub fn overreads_after_merge(existing: &Book, patch: &BookParams) -> (r: bool)
    ensures
        r == merge_overreads(existing@, patch@),
{
    resolve_number(existing.read_page, patch.read_page) > resolve_number(
        existing.page_count,
        patch.page_count,
    )
}

/// Applies `patch` to `existing` at `now`. The input is taken as given:
/// nothing is rejected here.
pub fn merge(existing: Book, patch: BookParams, now: Timestamp) -> (r: Book)
    ensures
        r@ == merged(existing@, patch@, now),
        r@.well_formed() <==> resolved_text(existing@.name, patch@.name).len() > 0
            && !merge_overreads(existing@, patch@),
{
    let page_count = resolve_number(existing.page_count, patch.page_count);
    let read_page = resolve_number(existing.read_page, patch.read_page);
    let reading = patch.reading || existing.reading;
    Book {
        id: existing.id,
        name: resolve_text(existing.name, patch.name),
        year: resolve_number(existing.year, patch.year),
        author: resolve_text(existing.author, patch.author),
        summary: resolve_text(existing.summary, patch.summary),
        publisher: resolve_text(existing.publisher, patch.publisher),
        page_count,
        read_page,
        reading,
        finished: reading && read_page == page_count,
        updated_at: now,
        inserted_at: existing.inserted_at,
    }
}

/// A patch that supplies nothing but a name.
pub open spec fn names_only(patch: ParamsView) -> bool {
    &&& patch.year == 0
    &&& patch.author.len() == 0
    &&& patch.summary.len() == 0
    &&& patch.publisher.len() == 0
    &&& patch.page_count == 0
    &&& patch.read_page == 0
    &&& !patch.reading
}

/// Merging a patch that supplies nothing but a name into a book whose
/// `finished` is derived changes the name and the update time and
/// nothing else.
pub proof fn lemma_merge_name_only(existing: BookView, patch: ParamsView, now: Timestamp)
    requires
        existing.finished_is_derived(),
        names_only(patch),
    ensures
        merged(existing, patch, now) == (BookView {
            name: resolved_text(existing.name, patch.name),
            updated_at: now,
            ..existing
        }),
{
}

/// Whatever is merged, the identity and the creation time stay, the
/// update time is the time of the merge, and `finished` holds exactly
/// when the merged book is being read and its last page is reached.
pub proof fn lemma_merge_derives_finished(existing: BookView, patch: ParamsView, now: Timestamp)
    ensures
        ({
            let m = merged(existing, patch, now);
            &&& m.id == existing.id
            &&& m.inserted_at == existing.inserted_at
            &&& m.updated_at == now
            &&& m.reading ==> (m.finished <==> m.read_page == m.page_count)
            &&& !m.reading ==> !m.finished
        }),
{
}

} // verus!
