//! The failures of the marketplace, their classes, and how each is reported.

use vstd::prelude::*;
use vstd::string::StringExecFns;

verus! {

/// HTTP status of a request that cannot be understood.
pub const BAD_REQUEST: u16 = 400;

/// HTTP status of a request that is understood and refused.
pub const FORBIDDEN: u16 = 403;

/// HTTP status of a request for something that is not there.
pub const NOT_FOUND: u16 = 404;

/// HTTP status of a failure that is not the caller's.
pub const INTERNAL_SERVER_ERROR: u16 = 500;

/// Everything that can go wrong while serving a request.
///
/// `Libsql` and `De` carry the text of a failure of the store and of the
/// decoding of one of its rows; the text is for the log only.
#[derive(Debug, PartialEq, Eq)]
pub enum Error {
    EmptyName,
    Libsql(String),
    De(String),
    CharacterNotFound,
    ItemNotFound,
    ItemInstanceNotFound,
    AuctionNotFound,
    AuctionNotActive,
    InsufficientGold,
    IncorrectBuyer,
}

/// The class of a failure, which decides how a caller should react to it.
#[derive(Debug, Clone, Copy, PartialEq, Eq, Structural)]
pub enum ErrorKind {
    /// Something that the request names does not exist.
    NotFound,
    /// The request itself is malformed.
    Validation,
    /// The auction can no longer be bought.
    PreconditionFailed,
    /// The buyer may not make this purchase.
    Forbidden,
    /// The store failed, or one of its rows could not be decoded.
    Internal,
}

/// A failure, apart from how its text is held in memory.
pub enum ErrorView {
    EmptyName,
    Libsql(Seq<char>),
    De(Seq<char>),
    CharacterNotFound,
    ItemNotFound,
    ItemInstanceNotFound,
    AuctionNotFound,
    AuctionNotActive,
    InsufficientGold,
    IncorrectBuyer,
}

impl View for Error {
    type V = ErrorView;

    open spec fn view(&self) -> ErrorView {
        match self {
            Error::EmptyName => ErrorView::EmptyName,
            Error::Libsql(detail) => ErrorView::Libsql(detail@),
            Error::De(detail) => ErrorView::De(detail@),
            Error::CharacterNotFound => ErrorView::CharacterNotFound,
            Error::ItemNotFound => ErrorView::ItemNotFound,
            Error::ItemInstanceNotFound => ErrorView::ItemInstanceNotFound,
            Error::AuctionNotFound => ErrorView::AuctionNotFound,
            Error::AuctionNotActive => ErrorView::AuctionNotActive,
            Error::InsufficientGold => ErrorView::InsufficientGold,
            Error::IncorrectBuyer => ErrorView::IncorrectBuyer,
        }
    }
}

/// A constraint of the ledger's tables that a write can break.
#[derive(Debug, Clone, Copy, PartialEq, Eq, Structural)]
pub enum Constraint {
    /// A name or an identifier may stand in its table once.
    Unique,
    /// What a row refers to must exist.
    ForeignKey,
    /// All the gold together must fit in one balance.
    Check,
}

impl Constraint {
    /// The text under which the ledger reports the broken constraint.
    pub open spec fn text(self) -> Seq<char> {
        match self {
            Constraint::Unique => "UNIQUE constraint failed"@,
            Constraint::ForeignKey => "FOREIGN KEY constraint failed"@,
            Constraint::Check => "CHECK constraint failed"@,
        }
    }

    /// The failure of the store that reports the broken constraint.
    pub open spec fn failure(self) -> ErrorView {
        ErrorView::Libsql(self.text())
    }

    /// Reports the broken constraint as a failure of the store.
    pub fn into_error(self) -> (e: Error)
        ensures
            e@ == self.failure(),
    {
        match self {
            Constraint::Unique => Error::Libsql("UNIQUE constraint failed".to_string()),
            Constraint::ForeignKey => Error::Libsql("FOREIGN KEY constraint failed".to_string()),
            Constraint::Check => Error::Libsql("CHECK constraint failed".to_string()),
        }
    }
}

/// The reason phrase that the `http` crate knows for a status code, if it
/// knows one.
pub uninterp spec fn reason_phrase(code: u16) -> Option<Seq<char>>;

/// The characters of an optional string.
pub open spec fn text_of(s: Option<String>) -> Option<Seq<char>> {
    match s {
        Some(s) => Some(s@),
        None => None,
    }
}

/// `http::StatusCode::from_u16` followed by `StatusCode::canonical_reason`:
/// the standard reason phrase of `code`, and `None` where `code` is not a
/// status code or has no standard phrase. Of the phrases, the contract gives
/// the one for 500 as the crate's table has it.
#[verifier::external_body]
fn canonical_reason(code: u16) -> (phrase: Option<String>)
    ensures
        text_of(phrase) == reason_phrase(code),
        code == 500 ==> text_of(phrase) == Some("Internal Server Error"@),
{
    match axum::http::StatusCode::from_u16(code) {
        Ok(status) => status.canonical_reason().map(String::from),
        Err(_) => None,
    }
}

impl Error {
    /// Whether the failure lies with the store or with decoding its rows.
    pub open spec fn is_internal(self) -> bool {
        self is Libsql || self is De
    }

    /// The class of each failure.
    pub open spec fn spec_kind(self) -> ErrorKind {
        match self {
            Error::EmptyName => ErrorKind::Validation,
            Error::Libsql(_) | Error::De(_) => ErrorKind::Internal,
            Error::CharacterNotFound
            | Error::ItemNotFound
            | Error::ItemInstanceNotFound
            | Error::AuctionNotFound => ErrorKind::NotFound,
            Error::AuctionNotActive => ErrorKind::PreconditionFailed,
            Error::InsufficientGold | Error::IncorrectBuyer => ErrorKind::Forbidden,
        }
    }

    /// The HTTP status under which each failure is answered.
    pub open spec fn spec_status_code(self) -> u16 {
        match self {
            Error::EmptyName => BAD_REQUEST,
            Error::Libsql(_) | Error::De(_) => INTERNAL_SERVER_ERROR,
            Error::CharacterNotFound
            | Error::ItemNotFound
            | Error::ItemInstanceNotFound
            | Error::AuctionNotFound
            | Error::AuctionNotActive => NOT_FOUND,
            Error::InsufficientGold | Error::IncorrectBuyer => FORBIDDEN,
        }
    }

    /// The text that the caller is shown.
    pub open spec fn body_text(self) -> Seq<char> {
        match self {
            Error::EmptyName => "The name provided is empty."@,
            Error::Libsql(_) | Error::De(_) => "Internal Server Error"@,
            Error::CharacterNotFound => "This character does not exist."@,
            Error::ItemNotFound => "This item does not exist."@,
            Error::ItemInstanceNotFound => "This item instance does not exist."@,
            Error::AuctionNotFound => "This auction does not exist."@,
            Error::AuctionNotActive => "This auction is not active."@,
            Error::InsufficientGold => "The buyer does not have enough gold."@,
            Error::IncorrectBuyer => "The buyer cannot be the auction's owner."@,
        }
    }

    /// The line that goes to the log.
    pub open spec fn log_text(self) -> Seq<char> {
        match self {
            Error::EmptyName => "Empty name"@,
            Error::Libsql(detail) => "Libsql : "@ + detail@,
            Error::De(detail) => "Deserialization : "@ + detail@,
            Error::CharacterNotFound => "Character not found"@,
            Error::ItemNotFound => "Item not found"@,
            Error::ItemInstanceNotFound => "Item instance not found"@,
            Error::AuctionNotFound => "Auction not found"@,
            Error::AuctionNotActive => "Auction not active"@,
            Error::InsufficientGold => "Not enough gold"@,
            Error::IncorrectBuyer => "Incorrect buyer"@,
        }
    }

    /// Classifies the failure.
    pub fn kind(&self) -> (kind: ErrorKind)
        ensures
            kind == self.spec_kind(),
    {
        match self {
            Error::EmptyName => ErrorKind::Validation,
            Error::Libsql(_) | Error::De(_) => ErrorKind::Internal,
            Error::CharacterNotFound
            | Error::ItemNotFound
            | Error::ItemInstanceNotFound
            | Error::AuctionNotFound => ErrorKind::NotFound,
            Error::AuctionNotActive => ErrorKind::PreconditionFailed,
            Error::InsufficientGold | Error::IncorrectBuyer => ErrorKind::Forbidden,
        }
    }

    /// The HTTP status of the answer.
    pub fn status_code(&self) -> (code: u16)
        ensures
            code == self.spec_status_code(),
    {
        match self {
            Error::EmptyName => BAD_REQUEST,
            Error::Libsql(_) | Error::De(_) => INTERNAL_SERVER_ERROR,
            Error::CharacterNotFound
            | Error::ItemNotFound
            | Error::ItemInstanceNotFound
            | Error::AuctionNotFound
            | Error::AuctionNotActive => NOT_FOUND,
            Error::InsufficientGold | Error::IncorrectBuyer => FORBIDDEN,
        }
    }

    /// The body of the answer. An internal failure answers with the standard
    /// phrase of its status and nothing of its own detail.
    pub fn response_body(&self) -> (body: String)
        ensures
            body@ == self.body_text(),
            self.is_internal() ==> Some(body@) == reason_phrase(self.spec_status_code()),
    {
        match self {
            Error::EmptyName => "The name provided is empty.".to_string(),
            Error::Libsql(_) | Error::De(_) => canonical_reason(INTERNAL_SERVER_ERROR).unwrap(),
            Error::CharacterNotFound => "This character does not exist.".to_string(),
            Error::ItemNotFound => "This item does not exist.".to_string(),
            Error::ItemInstanceNotFound => "This item instance does not exist.".to_string(),
            Error::AuctionNotFound => "This auction does not exist.".to_string(),
            Error::AuctionNotActive => "This auction is not active.".to_string(),
            Error::InsufficientGold => "The buyer does not have enough gold.".to_string(),
            Error::IncorrectBuyer => "The buyer cannot be the auction's owner.".to_string(),
        }
    }

    /// The status and the body of the answer, together.
    pub fn into_response(self) -> (answer: (u16, String))
        ensures
            answer.0 == self.spec_status_code(),
            answer.1@ == self.body_text(),
    {
        let code = self.status_code();
        let body = self.response_body();
        (code, body)
    }

    /// The line under which the failure is logged.
    pub fn to_string(&self) -> (line: String)
        ensures
            line@ == self.log_text(),
    {
        match self {
            Error::EmptyName => "Empty name".to_string(),
            Error::Libsql(detail) => String::from_str("Libsql : ").concat(detail.as_str()),
            Error::De(detail) => String::from_str("Deserialization : ").concat(detail.as_str()),
            Error::CharacterNotFound => "Character not found".to_string(),
            Error::ItemNotFound => "Item not found".to_string(),
            Error::ItemInstanceNotFound => "Item instance not found".to_string(),
            Error::AuctionNotFound => "Auction not found".to_string(),
            Error::AuctionNotActive => "Auction not active".to_string(),
            Error::InsufficientGold => "Not enough gold".to_string(),
            Error::IncorrectBuyer => "Incorrect buyer".to_string(),
        }
    }
}

} // verus!
