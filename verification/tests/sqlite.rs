use bookshelf::book::{Book, BookSummary, Timestamp};
use bookshelf::error::AppError;
use bookshelf::clock::{read_time, write_time};
use bookshelf::sqlite::{
    book_of, create_table_statement, decode_book_at, decode_found, decode_summaries,
    decode_summary, delete_statement, encode_book, get_statement, keyed_statement,
    list_statement, row_of, save_statement, summary_of, upsert_statement, BookRow, SqlValue,
    Statement, SummaryRow,
};

const ID: u128 = 0x936da01f9abd4d9d80c702af85c822a8;
const ID_TEXT: &str = "936da01f-9abd-4d9d-80c7-02af85c822a8";

fn text(s: &str) -> SqlValue {
    SqlValue::Text(s.to_string())
}

fn book() -> Book {
    Book {
        id: ID,
        name: "Buku A".to_string(),
        year: 2010,
        author: "John Doe".to_string(),
        summary: "Lorem ipsum dolor sit amet".to_string(),
        publisher: "Dicoding Indonesia".to_string(),
        page_count: 100,
        read_page: 25,
        reading: true,
        finished: false,
        updated_at: Timestamp { secs: 1431648000, nanos: 453_829_000 },
        inserted_at: Timestamp { secs: 1431648000, nanos: 0 },
    }
}

fn summary_row(id: &str, name: &str) -> SummaryRow {
    SummaryRow { id: id.to_string(), name: name.to_string(), publisher: "Dicoding".to_string() }
}

fn summary(id: u128, name: &str) -> BookSummary {
    BookSummary { id, name: name.to_string(), publisher: "Dicoding".to_string() }
}

fn row() -> BookRow {
    BookRow {
        id: ID_TEXT.to_string(),
        name: "Buku A".to_string(),
        year: 2010,
        author: "John Doe".to_string(),
        summary: "Lorem ipsum dolor sit amet".to_string(),
        publisher: "Dicoding Indonesia".to_string(),
        page_count: 100,
        read_page: 25,
        reading: true,
        finished: false,
        updated_at: "2015-05-15T00:00:00.453829+00:00".to_string(),
        inserted_at: "2015-05-15T00:00:00+00:00".to_string(),
    }
}

#[test]
fn the_table_is_created_unless_it_exists() {
    let statement = create_table_statement();
    assert!(statement.sql.starts_with("CREATE TABLE IF NOT EXISTS books ("));
    assert!(statement.sql.contains("id TEXT PRIMARY KEY"));
    assert_eq!(statement.params, vec![]);
}

#[test]
fn a_list_statement_has_one_clause_for_each_filter_given() {
    let base = "SELECT id, name, publisher FROM books WHERE 1=1";
    let name = Some("Buku".to_string());
    assert_eq!(
        list_statement(&None, None, None),
        Statement { sql: base.to_string(), params: vec![] }
    );
    assert_eq!(
        list_statement(&name, None, None),
        Statement { sql: format!("{} AND name LIKE ?", base), params: vec![text("%Buku%")] }
    );
    assert_eq!(
        list_statement(&None, Some(true), None),
        Statement { sql: format!("{} AND reading = ?", base), params: vec![SqlValue::Boolean(true)] }
    );
    assert_eq!(
        list_statement(&None, None, Some(false)),
        Statement {
            sql: format!("{} AND finished = ?", base),
            params: vec![SqlValue::Boolean(false)]
        }
    );
    assert_eq!(
        list_statement(&name, Some(false), Some(true)),
        Statement {
            sql: format!("{} AND name LIKE ? AND reading = ? AND finished = ?", base),
            params: vec![text("%Buku%"), SqlValue::Boolean(false), SqlValue::Boolean(true)]
        }
    );
    assert_eq!(
        list_statement(&None, Some(true), Some(true)),
        Statement {
            sql: format!("{} AND reading = ? AND finished = ?", base),
            params: vec![SqlValue::Boolean(true), SqlValue::Boolean(true)]
        }
    );
}

#[test]
fn a_filter_value_never_reaches_the_statement_text() {
    let hostile = Some("'; DROP TABLE books; --".to_string());
    let plain = Some("Buku".to_string());
    let a = list_statement(&hostile, Some(true), None);
    let b = list_statement(&plain, Some(false), None);
    assert_eq!(a.sql, b.sql);
    assert_eq!(a.params[0], text("%'; DROP TABLE books; --%"));
    assert_eq!(a.sql.matches('?').count(), a.params.len());
}

#[test]
fn lookups_and_removals_bind_the_id_in_its_text_form() {
    assert_eq!(
        get_statement(ID),
        Statement { sql: "SELECT * FROM books WHERE id = ?".to_string(), params: vec![text(ID_TEXT)] }
    );
    assert_eq!(
        delete_statement(ID),
        Statement { sql: "DELETE FROM books WHERE id = ?".to_string(), params: vec![text(ID_TEXT)] }
    );
    assert_eq!(
        get_statement(0).params,
        vec![text("00000000-0000-0000-0000-000000000000")]
    );
}

#[test]
fn a_book_is_written_as_a_row() {
    assert_eq!(encode_book(&book()), Some(row()));
}

#[test]
fn the_times_are_written_as_chrono_writes_them() {
    let b = book();
    let r = encode_book(&b).unwrap();
    let updated = chrono::DateTime::from_timestamp(b.updated_at.secs, b.updated_at.nanos).unwrap();
    assert_eq!(r.updated_at, updated.to_rfc3339());
    assert_eq!(r.id, uuid::Uuid::from_u128(b.id).to_string());
}

#[test]
fn a_time_outside_the_calendar_has_no_row() {
    let mut b = book();
    b.updated_at = Timestamp { secs: i64::MAX, nanos: 0 };
    assert_eq!(encode_book(&b), None);
    assert_eq!(save_statement(&b), Err(AppError::DatabaseError));
    let mut b = book();
    b.inserted_at = Timestamp { secs: 0, nanos: 2_000_000_000 };
    assert_eq!(encode_book(&b), None);
    assert_eq!(save_statement(&b), Err(AppError::DatabaseError));
}

#[test]
fn a_save_statement_binds_the_columns_in_order() {
    let statement = save_statement(&book()).unwrap();
    assert_eq!(
        statement.sql,
        "INSERT OR REPLACE INTO books (id, name, year, author, summary, publisher, page_count, \
         read_page, reading, finished, updated_at, inserted_at) VALUES (?, ?, ?, ?, ?, ?, ?, ?, \
         ?, ?, ?, ?)"
    );
    assert_eq!(
        statement.params,
        vec![
            text(ID_TEXT),
            text("Buku A"),
            SqlValue::Integer(2010),
            text("John Doe"),
            text("Lorem ipsum dolor sit amet"),
            text("Dicoding Indonesia"),
            SqlValue::Integer(100),
            SqlValue::Integer(25),
            SqlValue::Boolean(true),
            SqlValue::Boolean(false),
            text("2015-05-15T00:00:00.453829+00:00"),
            text("2015-05-15T00:00:00+00:00"),
        ]
    );
    assert_eq!(statement.sql.matches('?').count(), statement.params.len());
}

#[test]
fn a_row_is_read_as_a_book() {
    let now = Timestamp { secs: 5, nanos: 5 };
    assert_eq!(decode_book_at(row(), now), Ok(book()));
}

#[test]
fn a_book_comes_back_from_its_row() {
    let now = Timestamp { secs: 5, nanos: 5 };
    let instants = [
        Timestamp { secs: 0, nanos: 0 },
        Timestamp { secs: 1431648000, nanos: 1 },
        Timestamp { secs: 1431648000, nanos: 999_999_999 },
        Timestamp { secs: -1, nanos: 500_000_000 },
        Timestamp { secs: -62_167_219_200, nanos: 0 },
        Timestamp { secs: 253_402_300_799, nanos: 123_000_000 },
        Timestamp { secs: 253_402_300_800, nanos: 0 },
        Timestamp { secs: -62_167_219_201, nanos: 0 },
        Timestamp { secs: 1_483_228_799, nanos: 1_500_000_000 },
        Timestamp { secs: 8_210_266_876_799, nanos: 999_999_999 },
        Timestamp { secs: -8_334_601_228_800, nanos: 0 },
    ];
    let ids = [0u128, 1, ID, u128::MAX];
    for instant in instants {
        for id in ids {
            let b = Book { id, updated_at: instant, inserted_at: instant, ..book() };
            let r = encode_book(&b).unwrap();
            assert_eq!(decode_book_at(r, now), Ok(b), "{:?}", instant);
        }
    }
}

#[test]
fn a_time_that_cannot_be_read_stands_for_now() {
    let now = Timestamp { secs: 1_700_000_000, nanos: 7 };
    let mut r = row();
    r.updated_at = "yesterday".to_string();
    assert_eq!(decode_book_at(r, now), Ok(Book { updated_at: now, ..book() }));
    let mut r = row();
    r.inserted_at = String::new();
    r.updated_at = "2015-05-15 00:00:00Z".to_string();
    assert_eq!(
        decode_book_at(r, now),
        Ok(Book {
            inserted_at: now,
            updated_at: Timestamp { secs: 1431648000, nanos: 0 },
            ..book()
        })
    );
}

#[test]
fn a_time_with_an_offset_is_read_as_the_same_instant() {
    let now = Timestamp { secs: 0, nanos: 0 };
    let mut r = row();
    r.inserted_at = "2015-05-15T07:00:00+07:00".to_string();
    assert_eq!(decode_book_at(r, now), Ok(book()));
}

#[test]
fn a_time_that_cannot_be_read_stands_for_the_current_time() {
    let before = chrono::Utc::now().timestamp();
    let mut r = row();
    r.updated_at = "not a time".to_string();
    let b = decode_found(Some(r)).unwrap().unwrap();
    let after = chrono::Utc::now().timestamp();
    assert!(before <= b.updated_at.secs && b.updated_at.secs <= after);
    assert_eq!(b.inserted_at, Timestamp { secs: 1431648000, nanos: 0 });
    assert_eq!(b, Book { updated_at: b.updated_at, ..book() });
}

#[test]
fn a_row_without_an_id_is_a_storage_failure() {
    let now = Timestamp { secs: 0, nanos: 0 };
    let mut r = row();
    r.id = "not-an-id".to_string();
    assert_eq!(decode_book_at(r, now), Err(AppError::DatabaseError));
    let mut r = row();
    r.id = String::new();
    assert_eq!(decode_found(Some(r)), Err(AppError::DatabaseError));
    assert_eq!(decode_summary(summary_row("xxxxxx", "Buku A")), Err(AppError::DatabaseError));
    let mut r = row();
    r.id = "xxxxxx".to_string();
    assert_eq!(decode_found(Some(r)), Err(AppError::DatabaseError));
}

#[test]
fn a_list_row_is_read_as_a_summary() {
    assert_eq!(decode_summary(summary_row(ID_TEXT, "Buku A")), Ok(summary(ID, "Buku A")));
}

#[test]
fn the_rows_of_a_list_result_are_read_in_order() {
    assert_eq!(decode_summaries(vec![]), Ok(vec![]));
    assert_eq!(
        decode_summaries(vec![
            summary_row("00000000-0000-0000-0000-000000000002", "b"),
            summary_row(ID_TEXT, "Buku A"),
            summary_row("00000000000000000000000000000001", "a"),
        ]),
        Ok(vec![summary(2, "b"), summary(ID, "Buku A"), summary(1, "a")])
    );
}

#[test]
fn one_row_without_an_id_fails_the_whole_list() {
    for bad in 0..3 {
        let mut rows = vec![
            summary_row("00000000-0000-0000-0000-000000000002", "b"),
            summary_row(ID_TEXT, "Buku A"),
            summary_row("00000000-0000-0000-0000-000000000001", "a"),
        ];
        rows[bad].id = "?".to_string();
        assert_eq!(decode_summaries(rows), Err(AppError::DatabaseError));
    }
}

#[test]
fn what_a_lookup_found_is_read_as_a_book_or_as_none() {
    assert_eq!(decode_found(None), Ok(None));
    assert_eq!(decode_found(Some(row())), Ok(Some(book())));
}

#[test]
fn an_instant_is_written_as_rfc_3339_text() {
    let text = |secs, nanos| write_time(Timestamp { secs, nanos });
    assert_eq!(text(0, 0).as_deref(), Some("1970-01-01T00:00:00+00:00"));
    assert_eq!(text(1431648000, 0).as_deref(), Some("2015-05-15T00:00:00+00:00"));
    assert_eq!(text(1431648000, 500_000_000).as_deref(), Some("2015-05-15T00:00:00.500+00:00"));
    assert_eq!(text(1431648000, 1_000).as_deref(), Some("2015-05-15T00:00:00.000001+00:00"));
    assert_eq!(text(1431648000, 1).as_deref(), Some("2015-05-15T00:00:00.000000001+00:00"));
    assert_eq!(text(-1, 0).as_deref(), Some("1969-12-31T23:59:59+00:00"));
    assert_eq!(text(i64::MIN, 0), None);
    assert_eq!(text(0, u32::MAX), None);
    assert_eq!(text(0, 1_000_000_000), None);
}

#[test]
fn an_instant_is_read_from_rfc_3339_text() {
    let at = |secs, nanos| Some(Timestamp { secs, nanos });
    assert_eq!(read_time("1970-01-01T00:00:00+00:00"), at(0, 0));
    assert_eq!(read_time("2015-05-15T00:00:00Z"), at(1431648000, 0));
    assert_eq!(read_time("2015-05-15T00:00:00.5Z"), at(1431648000, 500_000_000));
    assert_eq!(read_time("2015-05-15T02:00:00+02:00"), at(1431648000, 0));
    assert_eq!(read_time("2015-05-15"), None);
    assert_eq!(read_time("2015-05-15T00:00:00"), None);
    assert_eq!(read_time("1431648000"), None);
    assert_eq!(read_time(""), None);
}

#[test]
fn a_row_is_put_together_from_the_texts() {
    let b = book();
    let some = |s: &str| Some(s.to_string());
    assert_eq!(
        row_of(
            &b,
            ID_TEXT.to_string(),
            some("2015-05-15T00:00:00.453829+00:00"),
            some("2015-05-15T00:00:00+00:00")
        ),
        Some(row())
    );
    assert_eq!(
        row_of(&b, "id".to_string(), some("u"), some("i")),
        Some(BookRow {
            id: "id".to_string(),
            updated_at: "u".to_string(),
            inserted_at: "i".to_string(),
            ..row()
        })
    );
    assert_eq!(row_of(&b, "id".to_string(), None, some("i")), None);
    assert_eq!(row_of(&b, "id".to_string(), some("u"), None), None);
    assert_eq!(row_of(&b, "id".to_string(), None, None), None);
}

#[test]
fn a_book_is_put_together_from_what_was_read() {
    let now = Timestamp { secs: 77, nanos: 7 };
    let updated = Timestamp { secs: 1431648000, nanos: 453_829_000 };
    let inserted = Timestamp { secs: 1431648000, nanos: 0 };
    assert_eq!(book_of(row(), Some(ID), Some(updated), Some(inserted), now), Ok(book()));
    assert_eq!(
        book_of(row(), Some(3), None, Some(inserted), now),
        Ok(Book { id: 3, updated_at: now, ..book() })
    );
    assert_eq!(
        book_of(row(), Some(3), Some(updated), None, now),
        Ok(Book { id: 3, inserted_at: now, ..book() })
    );
    assert_eq!(book_of(row(), None, Some(updated), Some(inserted), now), Err(AppError::DatabaseError));
    assert_eq!(summary_of(summary_row("x", "a"), None), Err(AppError::DatabaseError));
    assert_eq!(summary_of(summary_row("x", "a"), Some(4)), Ok(summary(4, "a")));
}

#[test]
fn a_row_is_stored_by_one_statement() {
    assert_eq!(Ok(upsert_statement(row())), save_statement(&book()));
    assert_eq!(
        keyed_statement("DELETE FROM books WHERE id = ?", "abc".to_string()),
        Statement { sql: "DELETE FROM books WHERE id = ?".to_string(), params: vec![text("abc")] }
    );
}
