//! The SQL backend, as far as it computes: the statements it sends and
//! the rows it reads. Sending a statement to the engine is the caller's
//! part; values reach the engine as parameters only, never inside the
//! statement's text.

use vstd::prelude::*;
use crate::book::{Book, BookSummary, BookView, SummaryView, Timestamp};
use crate::clock::{current_time, read_time, time_text, time_value, write_time};
use crate::error::AppError;
use crate::filter::text_of;
use crate::ident::{format_uuid, parse_id, uuid_text, uuid_value};

verus! {

broadcast use vstd::string::group_string_axioms;

pub const CREATE_TABLE: &'static str =
    "CREATE TABLE IF NOT EXISTS books (id TEXT PRIMARY KEY, name TEXT NOT NULL, year INTEGER NOT NULL, author TEXT NOT NULL, summary TEXT NOT NULL, publisher TEXT NOT NULL, page_count INTEGER NOT NULL, read_page INTEGER NOT NULL, reading BOOLEAN NOT NULL, finished BOOLEAN NOT NULL, updated_at TEXT NOT NULL, inserted_at TEXT NOT NULL);";

pub const UPSERT: &'static str =
    "INSERT OR REPLACE INTO books (id, name, year, author, summary, publisher, page_count, read_page, reading, finished, updated_at, inserted_at) VALUES (?, ?, ?, ?, ?, ?, ?, ?, ?, ?, ?, ?)";

pub const SELECT_SUMMARIES: &'static str = "SELECT id, name, publisher FROM books WHERE 1=1";

pub const AND_NAME: &'static str = " AND name LIKE ?";

pub const AND_READING: &'static str = " AND reading = ?";

pub const AND_FINISHED: &'static str = " AND finished = ?";

pub const SELECT_BY_ID: &'static str = "SELECT * FROM books WHERE id = ?";

pub const DELETE_BY_ID: &'static str = "DELETE FROM books WHERE id = ?";

/// A value bound to a placeholder of a statement.
#[derive(Debug, PartialEq, Eq)]
pub enum SqlValue {
    Text(String),
    Integer(i32),
    Boolean(bool),
}

/// The mathematical value of a [`SqlValue`].
pub enum SqlValueView {
    Text(Seq<char>),
    Integer(i32),
    Boolean(bool),
}

impl View for SqlValue {
    type V = SqlValueView;

    open spec fn view(&self) -> SqlValueView {
        match self {
            SqlValue::Text(t) => SqlValueView::Text(t@),
            SqlValue::Integer(n) => SqlValueView::Integer(*n),
            SqlValue::Boolean(b) => SqlValueView::Boolean(*b),
        }
    }
}

/// A statement and the values for its placeholders, in order.
#[derive(Debug, PartialEq, Eq)]
pub struct Statement {
    pub sql: String,
    pub params: Vec<SqlValue>,
}

/// The mathematical value of a [`Statement`].
pub struct StatementView {
    pub sql: Seq<char>,
    pub params: Seq<SqlValueView>,
}

impl View for Statement {
    type V = StatementView;

    open spec fn view(&self) -> StatementView {
        StatementView { sql: self.sql@, params: self.params@.map_values(|v: SqlValue| v@) }
    }
}

/// The statement that creates the table of books unless it exists.
pub fn create_table_statement() -> (r: Statement)
    ensures
        r@ == (StatementView { sql: CREATE_TABLE@, params: Seq::empty() }),
{
    let r = Statement { sql: CREATE_TABLE.to_string(), params: Vec::new() };
    assert(r@.params =~= Seq::empty());
    r
}

/// The text of a list statement. It depends on which filters are given
/// and not on what they hold.
pub open spec fn list_sql(by_name: bool, by_reading: bool, by_finished: bool) -> Seq<char> {
    SELECT_SUMMARIES@ + (if by_name {
        AND_NAME@
    } else {
        Seq::empty()
    }) + (if by_reading {
        AND_READING@
    } else {
        Seq::empty()
    }) + (if by_finished {
        AND_FINISHED@
    } else {
        Seq::empty()
    })
}

/// The `LIKE` pattern for a name filter: the text between two wildcards.
pub open spec fn like_pattern(name: Seq<char>) -> Seq<char> {
    "%"@ + name + "%"@
}

/// The parameters of a list statement: one for each filter given, in the
/// order of the placeholders.
pub open spec fn list_params(
    name: Option<Seq<char>>,
    reading: Option<bool>,
    finished: Option<bool>,
) -> Seq<SqlValueView> {
    (match name {
        Some(n) => seq![SqlValueView::Text(like_pattern(n))],
        None => Seq::empty(),
    }) + (match reading {
        Some(r) => seq![SqlValueView::Boolean(r)],
        None => Seq::empty(),
    }) + (match finished {
        Some(f) => seq![SqlValueView::Boolean(f)],
        None => Seq::empty(),
    })
}

/// The statement that lists the summaries of the selected books.
pub fn list_statement(name: &Option<String>, reading: Option<bool>, finished: Option<bool>) -> (r:
    Statement)
    ensures
        r@.sql == list_sql(name is Some, reading is Some, finished is Some),
        r@.params == list_params(text_of(*name), reading, finished),
{
    let mut sql = SELECT_SUMMARIES.to_string();
    let mut params: Vec<SqlValue> = Vec::new();
    if let Some(n) = name {
        sql.append(AND_NAME);
        let mut pattern = "%".to_string();
        pattern.append(n.as_str());
        pattern.append("%");
        params.push(SqlValue::Text(pattern));
    }
    if let Some(flag) = reading {
        sql.append(AND_READING);
        params.push(SqlValue::Boolean(flag));
    }
    if let Some(flag) = finished {
        sql.append(AND_FINISHED);
        params.push(SqlValue::Boolean(flag));
    }
    let r = Statement { sql, params };
    assert(r@.sql =~= list_sql(name is Some, reading is Some, finished is Some));
    assert(r@.params =~= list_params(text_of(*name), reading, finished));
    r
}

/// The statement `sql` with the one parameter `id`.
pub fn keyed_statement(sql: &str, id: String) -> (r: Statement)
    ensures
        r@ == (StatementView { sql: sql@, params: seq![SqlValueView::Text(id@)] }),
{
    let mut params: Vec<SqlValue> = Vec::new();
    params.push(SqlValue::Text(id));
    let r = Statement { sql: sql.to_string(), params };
    assert(r@.params =~= seq![SqlValueView::Text(id@)]);
    r
}

/// The statement that fetches the book held under `id`. Its parameter
/// is the text of the id, from which the id is read back.
pub fn get_statement(id: u128) -> (r: Statement)
    ensures
        r@ == (StatementView {
            sql: SELECT_BY_ID@,
            params: seq![SqlValueView::Text(uuid_text(id))],
        }),
        r@.params[0] matches SqlValueView::Text(text) && uuid_value(text) == Some(id),
{
    keyed_statement(SELECT_BY_ID, format_uuid(id))
}

/// The statement that removes the book held under `id`. Its parameter
/// is the text of the id, from which the id is read back.
pub fn delete_statement(id: u128) -> (r: Statement)
    ensures
        r@ == (StatementView {
            sql: DELETE_BY_ID@,
            params: seq![SqlValueView::Text(uuid_text(id))],
        }),
        r@.params[0] matches SqlValueView::Text(text) && uuid_value(text) == Some(id),
{
    keyed_statement(DELETE_BY_ID, format_uuid(id))
}

/// A row of the table of books: one value for each column.
#[derive(Debug, PartialEq, Eq)]
pub struct BookRow {
    pub id: String,
    pub name: String,
    pub year: i32,
    pub author: String,
    pub summary: String,
    pub publisher: String,
    pub page_count: i32,
    pub read_page: i32,
    pub reading: bool,
    pub finished: bool,
    pub updated_at: String,
    pub inserted_at: String,
}

/// The mathematical value of a [`BookRow`].
pub struct RowView {
    pub id: Seq<char>,
    pub name: Seq<char>,
    pub year: i32,
    pub author: Seq<char>,
    pub summary: Seq<char>,
    pub publisher: Seq<char>,
    pub page_count: i32,
    pub read_page: i32,
    pub reading: bool,
    pub finished: bool,
    pub updated_at: Seq<char>,
    pub inserted_at: Seq<char>,
}

impl View for BookRow {
    type V = RowView;

    open spec fn view(&self) -> RowView {
        RowView {
            id: self.id@,
            name: self.name@,
            year: self.year,
            author: self.author@,
            summary: self.summary@,
            publisher: self.publisher@,
            page_count: self.page_count,
            read_page: self.read_page,
            reading: self.reading,
            finished: self.finished,
            updated_at: self.updated_at@,
            inserted_at: self.inserted_at@,
        }
    }
}

/// The row that holds the fields of a book beside the given texts of
/// its id and of its two times: none where a time has no text.
pub open spec fn row_with(
    book: BookView,
    id: Seq<char>,
    updated_at: Option<Seq<char>>,
    inserted_at: Option<Seq<char>>,
) -> Option<RowView> {
    match (updated_at, inserted_at) {
        (Some(updated_at), Some(inserted_at)) => Some(
            RowView {
                id,
                name: book.name,
                year: book.year,
                author: book.author,
                summary: book.summary,
                publisher: book.publisher,
                page_count: book.page_count,
                read_page: book.read_page,
                reading: book.reading,
                finished: book.finished,
                updated_at,
                inserted_at,
            },
        ),
        _ => None,
    }
}

/// The row that stores a book: the id in its text form and the two
/// times as RFC 3339 text. A book with a time that has no text has no
/// row.
pub open spec fn encoded(book: BookView) -> Option<RowView> {
    row_with(book, uuid_text(book.id), time_text(book.updated_at), time_text(book.inserted_at))
}

/// The book that holds the fields of a row beside the given id and
/// times: none where there is no id; a time that is missing is `now`.
pub open spec fn book_with(
    row: RowView,
    id: Option<u128>,
    updated_at: Option<Timestamp>,
    inserted_at: Option<Timestamp>,
    now: Timestamp,
) -> Option<BookView> {
    match id {
        Some(id) => Some(
            BookView {
                id,
                name: row.name,
                year: row.year,
                author: row.author,
                summary: row.summary,
                publisher: row.publisher,
                page_count: row.page_count,
                read_page: row.read_page,
                reading: row.reading,
                finished: row.finished,
                updated_at: match updated_at {
                    Some(t) => t,
                    None => now,
                },
                inserted_at: match inserted_at {
                    Some(t) => t,
                    None => now,
                },
            },
        ),
        None => None,
    }
}

/// The book that a row stores: none where the id column holds no id; a
/// time column that holds no time stands for `now`.
pub open spec fn decoded(row: RowView, now: Timestamp) -> Option<BookView> {
    book_with(row, uuid_value(row.id), time_value(row.updated_at), time_value(row.inserted_at), now)
}

/// `r` is the book `expected`, or a storage failure where there is none.
pub open spec fn reads_as(r: Result<Book, AppError>, expected: Option<BookView>) -> bool {
    match expected {
        Some(book) => r matches Ok(b) && b@ == book,
        None => r == Err::<Book, AppError>(AppError::DatabaseError),
    }
}

/// Puts the fields of a book beside the texts of its id and of its two
/// times.
pub fn row_of(
    book: &Book,
    id: String,
    updated_at: Option<String>,
    inserted_at: Option<String>,
) -> (r: Option<BookRow>)
    ensures
        match r {
            Some(row) => row_with(book@, id@, text_of(updated_at), text_of(inserted_at)) == Some(
                row@,
            ),
            None => row_with(book@, id@, text_of(updated_at), text_of(inserted_at)) is None,
        },
{
    match (updated_at, inserted_at) {
        (Some(updated_at), Some(inserted_at)) => Some(
            BookRow {
                id,
                name: book.name.clone(),
                year: book.year,
                author: book.author.clone(),
                summary: book.summary.clone(),
                publisher: book.publisher.clone(),
                page_count: book.page_count,
                read_page: book.read_page,
                reading: book.reading,
                finished: book.finished,
                updated_at,
                inserted_at,
            },
        ),
        _ => None,
    }
}

/// Writes a book as a row. The book comes back from the row as it went
/// in, wherever the text of each of its two times reads back as that
/// time.
pub fn encode_book(book: &Book) -> (r: Option<BookRow>)
    ensures
        match r {
            Some(row) => encoded(book@) == Some(row@),
            None => encoded(book@) is None,
        },
        r matches Some(row) ==> forall|now: Timestamp|
            time_value(row@.updated_at) == Some(book.updated_at) && time_value(row@.inserted_at)
                == Some(book.inserted_at) ==> #[trigger] decoded(row@, now) == Some(book@),
{
    let id = format_uuid(book.id);
    let updated_at = write_time(book.updated_at);
    let inserted_at = write_time(book.inserted_at);
    row_of(book, id, updated_at, inserted_at)
}

/// Puts the fields of a row beside the id and the times that were read
/// from it, with `now` for a time that could not be read.
pub fn book_of(
    row: BookRow,
    id: Option<u128>,
    updated_at: Option<Timestamp>,
    inserted_at: Option<Timestamp>,
    now: Timestamp,
) -> (r: Result<Book, AppError>)
    ensures
        reads_as(r, book_with(row@, id, updated_at, inserted_at, now)),
{
    let id = match id {
        Some(id) => id,
        None => { return Err(AppError::DatabaseError); },
    };
    Ok(
        Book {
            id,
            name: row.name,
            year: row.year,
            author: row.author,
            summary: row.summary,
            publisher: row.publisher,
            page_count: row.page_count,
            read_page: row.read_page,
            reading: row.reading,
            finished: row.finished,
            updated_at: match updated_at {
                Some(t) => t,
                None => now,
            },
            inserted_at: match inserted_at {
                Some(t) => t,
                None => now,
            },
        },
    )
}

/// Reads a book from a row, with `now` for a time that cannot be read.
pub fn decode_book_at(row: BookRow, now: Timestamp) -> (r: Result<Book, AppError>)
    ensures
        reads_as(r, decoded(row@, now)),
{
    let id = parse_id(row.id.as_str());
    let updated_at = read_time(row.updated_at.as_str());
    let inserted_at = read_time(row.inserted_at.as_str());
    book_of(row, id, updated_at, inserted_at, now)
}

/// The parameters of the statement that stores a row, in the order of
/// its columns.
pub open spec fn row_params(row: RowView) -> Seq<SqlValueView> {
    seq![
        SqlValueView::Text(row.id),
        SqlValueView::Text(row.name),
        SqlValueView::Integer(row.year),
        SqlValueView::Text(row.author),
        SqlValueView::Text(row.summary),
        SqlValueView::Text(row.publisher),
        SqlValueView::Integer(row.page_count),
        SqlValueView::Integer(row.read_page),
        SqlValueView::Boolean(row.reading),
        SqlValueView::Boolean(row.finished),
        SqlValueView::Text(row.updated_at),
        SqlValueView::Text(row.inserted_at),
    ]
}

/// The statement that stores a row in place of any row with its id.
pub fn upsert_statement(row: BookRow) -> (r: Statement)
    ensures
        r@ == (StatementView { sql: UPSERT@, params: row_params(row@) }),
{
    let mut params: Vec<SqlValue> = Vec::new();
    params.push(SqlValue::Text(row.id));
    params.push(SqlValue::Text(row.name));
    params.push(SqlValue::Integer(row.year));
    params.push(SqlValue::Text(row.author));
    params.push(SqlValue::Text(row.summary));
    params.push(SqlValue::Text(row.publisher));
    params.push(SqlValue::Integer(row.page_count));
    params.push(SqlValue::Integer(row.read_page));
    params.push(SqlValue::Boolean(row.reading));
    params.push(SqlValue::Boolean(row.finished));
    params.push(SqlValue::Text(row.updated_at));
    params.push(SqlValue::Text(row.inserted_at));
    let r = Statement { sql: UPSERT.to_string(), params };
    assert(r@.params =~= row_params(row@));
    r
}

/// The statement that stores a book in place of any book with its id.
/// A book that has no row cannot be stored.
pub fn save_statement(book: &Book) -> (r: Result<Statement, AppError>)
    ensures
        match encoded(book@) {
            Some(row) => r matches Ok(s) && s@ == (StatementView {
                sql: UPSERT@,
                params: row_params(row),
            }),
            None => r == Err::<Statement, AppError>(AppError::DatabaseError),
        },
{
    match encode_book(book) {
        Some(row) => Ok(upsert_statement(row)),
        None => Err(AppError::DatabaseError),
    }
}

/// A row of a list result: the three columns that a summary is made of.
#[derive(Debug, PartialEq, Eq)]
pub struct SummaryRow {
    pub id: String,
    pub name: String,
    pub publisher: String,
}

/// The mathematical value of a [`SummaryRow`].
pub struct SummaryRowView {
    pub id: Seq<char>,
    pub name: Seq<char>,
    pub publisher: Seq<char>,
}

impl View for SummaryRow {
    type V = SummaryRowView;

    open spec fn view(&self) -> SummaryRowView {
        SummaryRowView { id: self.id@, name: self.name@, publisher: self.publisher@ }
    }
}

/// The summary that holds the name and the publisher of a list row
/// beside the given id: none where there is no id.
pub open spec fn summary_with(row: SummaryRowView, id: Option<u128>) -> Option<SummaryView> {
    match id {
        Some(id) => Some(SummaryView { id, name: row.name, publisher: row.publisher }),
        None => None,
    }
}

/// The summary that a list row stores: none where the id column holds
/// no id.
pub open spec fn decoded_summary(row: SummaryRowView) -> Option<SummaryView> {
    summary_with(row, uuid_value(row.id))
}

/// The summaries that the rows of a list result store, in the order of
/// the rows: none where some row stores none.
pub open spec fn decoded_summaries(rows: Seq<SummaryRowView>) -> Option<Seq<SummaryView>> {
    if forall|i: int| 0 <= i < rows.len() ==> decoded_summary(#[trigger] rows[i]) is Some {
        Some(rows.map_values(|row: SummaryRowView| decoded_summary(row)->0))
    } else {
        None
    }
}

/// Puts the name and the publisher of a list row beside the id that was
/// read from it. A row without an id is a storage failure.
pub fn summary_of(row: SummaryRow, id: Option<u128>) -> (r: Result<BookSummary, AppError>)
    ensures
        match summary_with(row@, id) {
            Some(summary) => r matches Ok(s) && s@ == summary,
            None => r == Err::<BookSummary, AppError>(AppError::DatabaseError),
        },
{
    match id {
        Some(id) => Ok(BookSummary { id, name: row.name, publisher: row.publisher }),
        None => Err(AppError::DatabaseError),
    }
}

/// Reads a summary from a list row.
pub fn decode_summary(row: SummaryRow) -> (r: Result<BookSummary, AppError>)
    ensures
        match decoded_summary(row@) {
            Some(summary) => r matches Ok(s) && s@ == summary,
            None => r == Err::<BookSummary, AppError>(AppError::DatabaseError),
        },
{
    let id = parse_id(row.id.as_str());
    summary_of(row, id)
}

/// Reads the summaries from the rows of a list result, in the order of
/// the rows. One row without an id makes the whole result a storage
/// failure.
pub fn decode_summaries(rows: Vec<SummaryRow>) -> (r: Result<Vec<BookSummary>, AppError>)
    ensures
        match decoded_summaries(rows@.map_values(|row: SummaryRow| row@)) {
            Some(list) => r matches Ok(out) && out@.map_values(|s: BookSummary| s@) == list,
            None => r == Err::<Vec<BookSummary>, AppError>(AppError::DatabaseError),
        },
{
    let ghost views = rows@.map_values(|row: SummaryRow| row@);
    let mut out: Vec<BookSummary> = Vec::new();
    for row in it: rows
        invariant
            views == rows@.map_values(|row: SummaryRow| row@),
            it.seq() == rows@,
            out.len() == it.index(),
            forall|i: int|
                0 <= i < it.index() ==> decoded_summary(#[trigger] views[i]) == Some(out@[i]@),
    {
        let ghost at = it.index();
        assert(views[at] == row@);
        match decode_summary(row) {
            Ok(summary) => { out.push(summary); },
            Err(e) => { return Err(e); },
        }
    }
    assert(out@.map_values(|s: BookSummary| s@) =~= views.map_values(
        |row: SummaryRowView| decoded_summary(row)->0,
    ));
    Ok(out)
}

/// Reads the book from what a lookup found: no row is no book, and a
/// row is read with the current time for a time that cannot be read.
pub fn decode_found(row: Option<BookRow>) -> (r: Result<Option<Book>, AppError>)
    ensures
        match row {
            None => r == Ok::<Option<Book>, AppError>(None),
            Some(row) => exists|now: Timestamp|
                match #[trigger] decoded(row@, now) {
                    Some(book) => r matches Ok(Some(b)) && b@ == book,
                    None => r == Err::<Option<Book>, AppError>(AppError::DatabaseError),
                },
        },
{
    match row {
        None => Ok(None),
        Some(row) => {
            let now = current_time();
            match decode_book_at(row, now) {
                Ok(book) => Ok(Some(book)),
                Err(e) => Err(e),
            }
        },
    }
}

} // verus!
