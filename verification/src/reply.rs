//! What the catalog answers: a status code, a status word, an optional
//! message and the data that goes with it.

use vstd::prelude::*;
use crate::book::{Book, BookSummary, BookView, SummaryView};
use crate::error::AppError;
use crate::repo::summaries;

verus! {

broadcast use vstd::string::group_string_axioms;

/// The data of an answer.
#[derive(Debug, PartialEq, Eq)]
pub enum Payload {
    Empty,
    BookId(u128),
    Books(Vec<BookSummary>),
    Book(Book),
}

/// The mathematical value of a [`Payload`].
pub enum PayloadView {
    Empty,
    BookId(u128),
    Books(Seq<SummaryView>),
    Book(BookView),
}

impl View for Payload {
    type V = PayloadView;

    open spec fn view(&self) -> PayloadView {
        match self {
            Payload::Empty => PayloadView::Empty,
            Payload::BookId(id) => PayloadView::BookId(*id),
            Payload::Books(list) => PayloadView::Books(summaries(list@)),
            Payload::Book(book) => PayloadView::Book(book@),
        }
    }
}

/// An answer to a request.
#[derive(Debug, PartialEq, Eq)]
pub struct Reply {
    /// The HTTP status code.
    pub code: u16,
    /// `success`, `fail` or `error`.
    pub status: String,
    pub message: Option<String>,
    pub data: Payload,
}

/// The mathematical value of a [`Reply`].
pub struct ReplyView {
    pub code: u16,
    pub status: Seq<char>,
    pub message: Option<Seq<char>>,
    pub data: PayloadView,
}

impl View for Reply {
    type V = ReplyView;

    open spec fn view(&self) -> ReplyView {
        ReplyView {
            code: self.code,
            status: self.status@,
            message: match self.message {
                Some(m) => Some(m@),
                None => None,
            },
            data: self.data@,
        }
    }
}

/// The answer to a request that succeeded.
pub open spec fn success(code: u16, message: Option<Seq<char>>, data: PayloadView) -> ReplyView {
    ReplyView { code, status: "success"@, message, data }
}

impl Reply {
    /// Builds the answer to a request that succeeded, with a message.
    pub fn success_with(code: u16, message: &str, data: Payload) -> (r: Reply)
        ensures
            r@ == success(code, Some(message@), data@),
    {
        Reply {
            code,
            status: "success".to_string(),
            message: Some(message.to_string()),
            data,
        }
    }

    /// Builds the answer to a request that succeeded, without a message.
    pub fn success_plain(code: u16, data: Payload) -> (r: Reply)
        ensures
            r@ == success(code, None, data@),
    {
        Reply { code, status: "success".to_string(), message: None, data }
    }
}

impl AppError {
    /// The HTTP status code that reports this failure.
    pub open spec fn status_code(self) -> u16 {
        match self {
            AppError::ClientFail(code, _) => code,
            AppError::DatabaseError => 500,
            AppError::WrongCredentials => 401,
            AppError::MissingCredentials => 401,
            AppError::TokenCreation => 500,
            AppError::InvalidToken => 401,
        }
    }

    /// The status word that reports this failure: `fail` where the caller
    /// is at fault, `error` where the service is.
    pub open spec fn status_word(self) -> Seq<char> {
        match self {
            AppError::DatabaseError => "error"@,
            AppError::TokenCreation => "error"@,
            _ => "fail"@,
        }
    }

    /// The message that reports this failure: the refusal's own message,
    /// or the text of the failure.
    pub open spec fn report(self) -> Seq<char> {
        match self {
            AppError::ClientFail(_, message) => message@,
            _ => self.text(),
        }
    }

    /// The answer that reports this failure.
    pub fn into_response(self) -> (r: Reply)
        ensures
            r@ == (ReplyView {
                code: self.status_code(),
                status: self.status_word(),
                message: Some(self.report()),
                data: PayloadView::Empty,
            }),
    {
        let (code, word, message) = match self {
            AppError::ClientFail(code, message) => (code, "fail", message),
            AppError::DatabaseError => (500, "error", self.to_string()),
            AppError::WrongCredentials => (401, "fail", self.to_string()),
            AppError::MissingCredentials => (401, "fail", self.to_string()),
            AppError::TokenCreation => (500, "error", self.to_string()),
            AppError::InvalidToken => (401, "fail", self.to_string()),
        };
        Reply { code, status: word.to_string(), message: Some(message), data: Payload::Empty }
    }
}

} // verus!
