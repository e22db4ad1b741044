//! The catalog service: the create, list, detail, update and delete use
//! cases over any repository.
//!
//! Each use case is given twice where it takes something from outside:
//! once as the caller writes it (an id as text, the clock and a fresh id
//! taken here), and once on the values themselves. The steps that the
//! use cases are made of are public as well, for callers that do the
//! storage work in between on their own.

use vstd::prelude::*;
use crate::book::{
    finished_of, Book, BookParams, BookSummary, BookView, ParamsView, Timestamp,
};
use crate::clock::current_time;
use crate::error::{is_client_fail, AppError};
use crate::filter::text_of;
use crate::ident::{parse_id, random_uuid, uuid_value};
use crate::merge::{merge, merge_overreads, merged, overreads_after_merge};
use crate::reply::{success, Payload, PayloadView, Reply, ReplyView};
use crate::repo::{is_listing, lookup, summaries, BookRepo};
use crate::text::{parse_u8, parsed_u8};

verus! {

broadcast use vstd::string::group_string_axioms;

pub const CREATED: &'static str = "Buku berhasil ditambahkan";

pub const CREATE_NEEDS_NAME: &'static str = "Gagal menambahkan buku. Mohon isi nama buku";

pub const CREATE_OVERREAD: &'static str =
    "Gagal menambahkan buku. readPage tidak boleh lebih besar dari pageCount";

pub const NOT_FOUND: &'static str = "Buku tidak ditemukan";

pub const UPDATED: &'static str = "Buku berhasil diperbarui";

pub const UPDATE_NEEDS_NAME: &'static str = "Gagal memperbarui buku. Mohon isi nama buku";

pub const UPDATE_OVERREAD: &'static str =
    "Gagal memperbarui buku. readPage tidak boleh lebih besar dari pageCount";

pub const UPDATE_NOT_FOUND: &'static str = "Gagal memperbarui buku. Id tidak ditemukan";

pub const DELETED: &'static str = "Buku berhasil dihapus";

pub const DELETE_NOT_FOUND: &'static str = "Buku gagal dihapus. Id tidak ditemukan";

/// What the service works on: the repository that holds the books.
pub struct BookState<R: BookRepo> {
    pub repo: R,
}

/// The filters of a list request, as the caller wrote them.
#[derive(Debug, PartialEq, Eq)]
pub struct BooksQuery {
    pub name: Option<String>,
    pub reading: Option<String>,
    pub finished: Option<String>,
}

/// What a request comes to when the repository does its part: the answer,
/// or the status and message of the refusal.
pub type Outcome = Result<ReplyView, (u16, Seq<char>)>;

/// `r` is the outcome `expected`.
pub open spec fn agrees(r: Result<Reply, AppError>, expected: Outcome) -> bool {
    match expected {
        Ok(reply) => r matches Ok(given) && given@ == reply,
        Err((code, message)) => r matches Err(e) && is_client_fail(e, code, message),
    }
}

/// Hands the id on where there is one. No id is refused as not found,
/// with the given message.
pub fn known_id(key: Option<u128>, message: &str) -> (r: Result<u128, AppError>)
    ensures
        match key {
            Some(id) => r == Ok::<u128, AppError>(id),
            None => r matches Err(e) && is_client_fail(e, 404, message@),
        },
{
    match key {
        Some(id) => Ok(id),
        None => Err(AppError::ClientFail(404, message.to_string())),
    }
}

/// Why a creation is refused, if it is: the book has no name, or more
/// pages are read than it has.
pub open spec fn creation_refusal(params: ParamsView) -> Option<Seq<char>> {
    if params.name.len() == 0 {
        Some(CREATE_NEEDS_NAME@)
    } else if params.read_page > params.page_count {
        Some(CREATE_OVERREAD@)
    } else {
        None
    }
}

/// The book that a creation makes: the supplied fields, the derived
/// `finished`, and `now` as both times.
pub open spec fn created(params: ParamsView, id: u128, now: Timestamp) -> BookView {
    BookView {
        id,
        name: params.name,
        year: params.year,
        author: params.author,
        summary: params.summary,
        publisher: params.publisher,
        page_count: params.page_count,
        read_page: params.read_page,
        reading: params.reading,
        finished: finished_of(params.reading, params.read_page as int, params.page_count as int),
        updated_at: now,
        inserted_at: now,
    }
}

/// A created book has the id and the time it was given, the time as
/// both of its times, and is finished exactly when it is being read and
/// its last page is reached.
pub proof fn lemma_created_derives_finished(params: ParamsView, id: u128, now: Timestamp)
    ensures
        ({
            let book = created(params, id, now);
            &&& book.id == id
            &&& book.inserted_at == now
            &&& book.updated_at == now
            &&& book.reading ==> (book.finished <==> book.read_page == book.page_count)
            &&& !book.reading ==> !book.finished
        }),
{
}

/// What creating a book comes to.
pub open spec fn creation_outcome(params: ParamsView, id: u128) -> Outcome {
    match creation_refusal(params) {
        Some(message) => Err((400, message)),
        None => Ok(success(201, Some(CREATED@), PayloadView::BookId(id))),
    }
}

/// What a creation guarantees when the new book gets `id` and the time
/// is `now`. A refusal is decided before the repository is touched and
/// leaves it as it was; an answer means that the book, which is well
/// formed, is stored.
pub open spec fn creation_post<R: BookRepo>(
    before: BookState<R>,
    after: BookState<R>,
    params: ParamsView,
    id: u128,
    now: Timestamp,
    r: Result<Reply, AppError>,
) -> bool {
    let expected = creation_outcome(params, id);
    &&& expected is Err ==> agrees(r, expected) && after == before
    &&& before.repo.never_fails() || r is Ok ==> agrees(r, expected)
    &&& r is Ok ==> {
        &&& created(params, id, now).well_formed()
        &&& after.repo.books() == before.repo.books().insert(id, created(params, id, now))
    }
    &&& after.repo.never_fails() == before.repo.never_fails()
}

/// Checks the fields of a book to create.
pub fn check_creation(params: &BookParams) -> (r: Result<(), AppError>)
    ensures
        match creation_refusal(params@) {
            Some(message) => r matches Err(e) && is_client_fail(e, 400, message),
            None => r is Ok,
        },
{
    if params.name.as_str().is_empty() {
        return Err(AppError::ClientFail(400, CREATE_NEEDS_NAME.to_string()));
    }
    if params.read_page > params.page_count {
        return Err(AppError::ClientFail(400, CREATE_OVERREAD.to_string()));
    }
    Ok(())
}

/// Makes the book that a creation stores.
pub fn new_book(params: BookParams, id: u128, now: Timestamp) -> (r: Book)
    ensures
        r@ == created(params@, id, now),
        r@.well_formed() <==> creation_refusal(params@) is None,
{
    let finished = params.reading && params.read_page == params.page_count;
    Book {
        id,
        name: params.name,
        year: params.year,
        author: params.author,
        summary: params.summary,
        publisher: params.publisher,
        page_count: params.page_count,
        read_page: params.read_page,
        reading: params.reading,
        finished,
        updated_at: now,
        inserted_at: now,
    }
}

/// The answer to a creation that stored the book under `id`.
pub fn created_reply(id: u128) -> (r: Reply)
    ensures
        r@ == success(201, Some(CREATED@), PayloadView::BookId(id)),
{
    Reply::success_with(201, CREATED, Payload::BookId(id))
}

/// Creates a book with the given id at the given time.
pub fn create_book_at<R: BookRepo>(
    state: &mut BookState<R>,
    params: BookParams,
    id: u128,
    now: Timestamp,
) -> (r: Result<Reply, AppError>)
    ensures
        creation_post(*old(state), *final(state), params@, id, now, r),
{
    match check_creation(&params) {
        Err(e) => { return Err(e); },
        Ok(_) => {},
    }
    let book = new_book(params, id, now);
    match state.repo.save_book(&book) {
        Ok(saved) => Ok(created_reply(saved)),
        Err(e) => Err(e),
    }
}

/// Creates a book under a fresh id, at the current time.
pub fn create_book<R: BookRepo>(state: &mut BookState<R>, params: BookParams) -> (r: Result<
    Reply,
    AppError,
>)
    ensures
        exists|id: u128, now: Timestamp|
            creation_post(*old(state), *final(state), params@, id, now, r),
{
    let id = random_uuid();
    let now = current_time();
    create_book_at(state, params, id, now)
}

/// The flag that a query text writes: a `u8` in decimal stands for true
/// where it is 1 and for false elsewhere, and any other text for no
/// filter.
pub open spec fn flag_of(text: Option<Seq<char>>) -> Option<bool> {
    match text {
        Some(t) => match parsed_u8(t) {
            Some(n) => Some(n == 1),
            None => None,
        },
        None => None,
    }
}

/// Reads the flag that a query text writes.
pub fn read_flag(text: &Option<String>) -> (r: Option<bool>)
    ensures
        r == flag_of(text_of(*text)),
{
    match text {
        Some(t) => match parse_u8(t.as_str()) {
            Some(n) => Some(n == 1),
            None => None,
        },
        None => None,
    }
}

/// `reply` answers a list request: status 200, no message, and a list
/// that holds the summary of each selected book once.
pub open spec fn answers_list(
    reply: ReplyView,
    books: Map<u128, BookView>,
    query: BooksQuery,
) -> bool {
    &&& reply.code == 200
    &&& reply.status == "success"@
    &&& reply.message is None
    &&& reply.data matches PayloadView::Books(list) && is_listing(
        list,
        books,
        text_of(query.name),
        flag_of(text_of(query.reading)),
        flag_of(text_of(query.finished)),
    )
}

/// The answer to a list request, given the list.
pub fn listed_reply(list: Vec<BookSummary>) -> (r: Reply)
    ensures
        r@ == success(200, None, PayloadView::Books(summaries(list@))),
{
    Reply::success_plain(200, Payload::Books(list))
}

/// Lists the books that the query selects. No request is refused.
pub fn get_books<R: BookRepo>(state: &BookState<R>, query: BooksQuery) -> (r: Result<
    Reply,
    AppError,
>)
    ensures
        state.repo.never_fails() ==> r is Ok,
        r matches Ok(reply) ==> answers_list(reply@, state.repo.books(), query),
{
    let reading = read_flag(&query.reading);
    let finished = read_flag(&query.finished);
    match state.repo.get_books(query.name, reading, finished) {
        Ok(list) => Ok(listed_reply(list)),
        Err(e) => Err(e),
    }
}

/// What asking for one book comes to: the book, or a refusal where
/// there is no id or no book is held under it.
pub open spec fn detail_outcome(books: Map<u128, BookView>, key: Option<u128>) -> Outcome {
    match key {
        None => Err((404, NOT_FOUND@)),
        Some(id) => match lookup(books, id) {
            None => Err((404, NOT_FOUND@)),
            Some(book) => Ok(success(200, None, PayloadView::Book(book))),
        },
    }
}

/// The answer to a request for one book, given what the repository
/// found.
pub fn detail_reply(found: Option<Book>) -> (r: Result<Reply, AppError>)
    ensures
        match found {
            Some(book) => r matches Ok(reply) && reply@ == success(
                200,
                None,
                PayloadView::Book(book@),
            ),
            None => r matches Err(e) && is_client_fail(e, 404, NOT_FOUND@),
        },
{
    match found {
        Some(book) => Ok(Reply::success_plain(200, Payload::Book(book))),
        None => Err(AppError::ClientFail(404, NOT_FOUND.to_string())),
    }
}

/// Answers with the book held under `key`.
pub fn find_book<R: BookRepo>(state: &BookState<R>, key: Option<u128>) -> (r: Result<
    Reply,
    AppError,
>)
    ensures
        state.repo.never_fails() || r is Ok || key is None ==> agrees(
            r,
            detail_outcome(state.repo.books(), key),
        ),
{
    let id = match known_id(key, NOT_FOUND) {
        Ok(id) => id,
        Err(e) => { return Err(e); },
    };
    match state.repo.get_book_by_id(id) {
        Ok(found) => detail_reply(found),
        Err(e) => Err(e),
    }
}

/// Answers with the book held under the id that `id` writes.
pub fn get_book_by_id<R: BookRepo>(state: &BookState<R>, id: &str) -> (r: Result<Reply, AppError>)
    ensures
        state.repo.never_fails() || r is Ok || uuid_value(id@) is None ==> agrees(
            r,
            detail_outcome(state.repo.books(), uuid_value(id@)),
        ),
{
    find_book(state, parse_id(id))
}

/// The patch itself asks for more pages read than the book is to have.
pub open spec fn patch_overreads(patch: ParamsView) -> bool {
    patch.read_page != 0 && patch.page_count != 0 && patch.read_page > patch.page_count
}

/// Why an update is refused before the repository is asked, if it is:
/// there is no id, the patch has no name, or the patch itself asks for
/// more pages read than the book is to have.
pub open spec fn early_update_refusal(key: Option<u128>, patch: ParamsView) -> Option<
    (u16, Seq<char>),
> {
    if key is None {
        Some((404, UPDATE_NOT_FOUND@))
    } else if patch.name.len() == 0 {
        Some((400, UPDATE_NEEDS_NAME@))
    } else if patch_overreads(patch) {
        Some((400, UPDATE_OVERREAD@))
    } else {
        None
    }
}

/// What updating a book comes to. Past the early refusals, the update is
/// refused where no book is held under the id and where the merged book
/// would have more pages read than it has.
pub open spec fn update_outcome(
    books: Map<u128, BookView>,
    key: Option<u128>,
    patch: ParamsView,
) -> Outcome {
    match early_update_refusal(key, patch) {
        Some(refusal) => Err(refusal),
        None => match lookup(books, key->0) {
            None => Err((404, UPDATE_NOT_FOUND@)),
            Some(existing) => if merge_overreads(existing, patch) {
                Err((400, UPDATE_OVERREAD@))
            } else {
                Ok(success(200, Some(UPDATED@), PayloadView::Empty))
            },
        },
    }
}

/// What an update guarantees when the time is `now`. A refusal leaves
/// the repository as it was; an answer means that the merged book,
/// which is well formed, is stored in place of the one that was found.
pub open spec fn update_post<R: BookRepo>(
    before: BookState<R>,
    after: BookState<R>,
    key: Option<u128>,
    patch: ParamsView,
    now: Timestamp,
    r: Result<Reply, AppError>,
) -> bool {
    let books = before.repo.books();
    let expected = update_outcome(books, key, patch);
    &&& early_update_refusal(key, patch) is Some ==> agrees(r, expected)
    &&& before.repo.never_fails() || r is Ok ==> agrees(r, expected)
    &&& expected is Err ==> after == before
    &&& r is Ok ==> {
        let stored = merged(books[key->0], patch, now);
        &&& stored.well_formed()
        &&& after.repo.books() == books.insert(stored.id, stored)
    }
    &&& after.repo.never_fails() == before.repo.never_fails()
}

/// Checks what of an update can be checked before the repository is
/// asked, and hands the id on.
pub fn check_update(key: Option<u128>, patch: &BookParams) -> (r: Result<u128, AppError>)
    ensures
        match early_update_refusal(key, patch@) {
            Some((code, message)) => r matches Err(e) && is_client_fail(e, code, message),
            None => r == Ok::<u128, AppError>(key->0),
        },
{
    let id = match known_id(key, UPDATE_NOT_FOUND) {
        Ok(id) => id,
        Err(e) => { return Err(e); },
    };
    if patch.name.as_str().is_empty() {
        return Err(AppError::ClientFail(400, UPDATE_NEEDS_NAME.to_string()));
    }
    if patch.read_page != 0 && patch.page_count != 0 && patch.read_page > patch.page_count {
        return Err(AppError::ClientFail(400, UPDATE_OVERREAD.to_string()));
    }
    Ok(id)
}

/// Applies a patch to what the repository found under the id: the merged
/// book to store, or the refusal.
pub fn apply_update(found: Option<Book>, patch: BookParams, now: Timestamp) -> (r: Result<
    Book,
    AppError,
>)
    ensures
        match found {
            None => r matches Err(e) && is_client_fail(e, 404, UPDATE_NOT_FOUND@),
            Some(existing) => if merge_overreads(existing@, patch@) {
                r matches Err(e) && is_client_fail(e, 400, UPDATE_OVERREAD@)
            } else {
                &&& r matches Ok(book) && book@ == merged(existing@, patch@, now)
                &&& patch@.name.len() > 0 ==> merged(existing@, patch@, now).well_formed()
            },
        },
{
    match found {
        None => Err(AppError::ClientFail(404, UPDATE_NOT_FOUND.to_string())),
        Some(existing) => {
            if overreads_after_merge(&existing, &patch) {
                Err(AppError::ClientFail(400, UPDATE_OVERREAD.to_string()))
            } else {
                Ok(merge(existing, patch, now))
            }
        },
    }
}

/// The answer to an update that stored the merged book.
pub fn updated_reply() -> (r: Reply)
    ensures
        r@ == success(200, Some(UPDATED@), PayloadView::Empty),
{
    Reply::success_with(200, UPDATED, Payload::Empty)
}

/// Updates the book held under `key` at the given time.
pub fn update_book_at<R: BookRepo>(
    state: &mut BookState<R>,
    key: Option<u128>,
    patch: BookParams,
    now: Timestamp,
) -> (r: Result<Reply, AppError>)
    ensures
        update_post(*old(state), *final(state), key, patch@, now, r),
{
    let id = match check_update(key, &patch) {
        Ok(id) => id,
        Err(e) => { return Err(e); },
    };
    let found = match state.repo.get_book_by_id(id) {
        Ok(found) => found,
        Err(e) => { return Err(e); },
    };
    let book = match apply_update(found, patch, now) {
        Ok(book) => book,
        Err(e) => { return Err(e); },
    };
    match state.repo.save_book(&book) {
        Ok(_) => Ok(updated_reply()),
        Err(e) => Err(e),
    }
}

/// Updates the book held under the id that `id` writes, at the current
/// time.
pub fn update_book<R: BookRepo>(state: &mut BookState<R>, id: &str, patch: BookParams) -> (r:
    Result<Reply, AppError>)
    ensures
        exists|now: Timestamp|
            update_post(*old(state), *final(state), uuid_value(id@), patch@, now, r),
{
    let key = parse_id(id);
    let now = current_time();
    update_book_at(state, key, patch, now)
}

/// What deleting a book comes to: the id handed back, whether or not a
/// book was held under it, or a refusal where there is no id.
pub open spec fn deletion_outcome(key: Option<u128>) -> Outcome {
    match key {
        None => Err((404, DELETE_NOT_FOUND@)),
        Some(id) => Ok(success(200, Some(DELETED@), PayloadView::BookId(id))),
    }
}

/// What a deletion guarantees. A refusal leaves the repository as it
/// was; an answer means that no book is held under the id any more.
pub open spec fn deletion_post<R: BookRepo>(
    before: BookState<R>,
    after: BookState<R>,
    key: Option<u128>,
    r: Result<Reply, AppError>,
) -> bool {
    &&& key is None ==> after == before
    &&& before.repo.never_fails() || r is Ok || key is None ==> agrees(r, deletion_outcome(key))
    &&& r is Ok ==> after.repo.books() == before.repo.books().remove(key->0)
    &&& after.repo.never_fails() == before.repo.never_fails()
}

/// The answer to a deletion, given the id that the repository handed
/// back.
pub fn deleted_reply(id: u128) -> (r: Reply)
    ensures
        r@ == success(200, Some(DELETED@), PayloadView::BookId(id)),
{
    Reply::success_with(200, DELETED, Payload::BookId(id))
}

/// Deletes the book held under `key`. Deleting an id under which no book
/// is held succeeds as well.
pub fn remove_book<R: BookRepo>(state: &mut BookState<R>, key: Option<u128>) -> (r: Result<
    Reply,
    AppError,
>)
    ensures
        deletion_post(*old(state), *final(state), key, r),
{
    let id = match known_id(key, DELETE_NOT_FOUND) {
        Ok(id) => id,
        Err(e) => { return Err(e); },
    };
    match state.repo.delete_book(id) {
        Ok(deleted) => Ok(deleted_reply(deleted)),
        Err(e) => Err(e),
    }
}

/// Deletes the book held under the id that `id` writes.
pub fn delete_book<R: BookRepo>(state: &mut BookState<R>, id: &str) -> (r: Result<Reply, AppError>)
    ensures
        deletion_post(*old(state), *final(state), uuid_value(id@), r),
{
    remove_book(state, parse_id(id))
}

} // verus!
