//! The closed set of failures that the data layer reports, and the
//! conversion of a storage driver's error into it.

use crate::text::{decimal, render_decimal};
use vstd::prelude::*;
use vstd::string::*;

verus! {

/// What an [`ApiError`] holds.
pub enum ApiErrorView {
    ServerFn(Seq<char>),
    Db(Seq<char>),
    DbDeSer(Seq<char>),
    DbNotInContext,
    NotFound(Seq<char>, u32),
    EmptyContent,
    EmptySubject,
    CounterNotProvisioned(Seq<char>),
    CounterExhausted(Seq<char>),
    ClockOutOfRange,
}

/// A failure of the data layer, as handed to its callers.
#[derive(Debug)]
pub enum ApiError {
    /// Something failed between the request and the response; the text is
    /// the transport's own description.
    ServerFn(String),
    /// The store reported a failure of its own (connectivity, server side).
    Db(String),
    /// A document did not have the shape of the entity it was read as or
    /// written from.
    DbDeSer(String),
    /// No store handle was supplied to the caller.
    DbNotInContext,
    /// The entity of the given kind with the given id does not exist.
    NotFound(String, u32),
    /// The content of a post was empty.
    EmptyContent,
    /// The subject of a thread was empty.
    EmptySubject,
    /// No counter record exists for the given kind of entity.
    CounterNotProvisioned(String),
    /// The counter of the given kind stands at the largest identifier.
    CounterExhausted(String),
    /// The system clock stands outside the years that the calendar covers, so
    /// a post could not be given its instant.
    ClockOutOfRange,
}

impl View for ApiError {
    type V = ApiErrorView;

    open spec fn view(&self) -> ApiErrorView {
        match self {
            ApiError::ServerFn(d) => ApiErrorView::ServerFn(d@),
            ApiError::Db(d) => ApiErrorView::Db(d@),
            ApiError::DbDeSer(d) => ApiErrorView::DbDeSer(d@),
            ApiError::DbNotInContext => ApiErrorView::DbNotInContext,
            ApiError::NotFound(kind, id) => ApiErrorView::NotFound(kind@, *id),
            ApiError::EmptyContent => ApiErrorView::EmptyContent,
            ApiError::EmptySubject => ApiErrorView::EmptySubject,
            ApiError::CounterNotProvisioned(c) => ApiErrorView::CounterNotProvisioned(c@),
            ApiError::CounterExhausted(c) => ApiErrorView::CounterExhausted(c@),
            ApiError::ClockOutOfRange => ApiErrorView::ClockOutOfRange,
        }
    }
}

impl Clone for ApiError {
    fn clone(&self) -> (r: Self)
        ensures
            r@ == self@,
    {
        match self {
            ApiError::ServerFn(d) => ApiError::ServerFn(d.clone()),
            ApiError::Db(d) => ApiError::Db(d.clone()),
            ApiError::DbDeSer(d) => ApiError::DbDeSer(d.clone()),
            ApiError::DbNotInContext => ApiError::DbNotInContext,
            ApiError::NotFound(kind, id) => ApiError::NotFound(kind.clone(), *id),
            ApiError::EmptyContent => ApiError::EmptyContent,
            ApiError::EmptySubject => ApiError::EmptySubject,
            ApiError::CounterNotProvisioned(c) => ApiError::CounterNotProvisioned(c.clone()),
            ApiError::CounterExhausted(c) => ApiError::CounterExhausted(c.clone()),
            ApiError::ClockOutOfRange => ApiError::ClockOutOfRange,
        }
    }
}

/// The text that describes a failure.
pub open spec fn message_of(e: ApiErrorView) -> Seq<char> {
    match e {
        ApiErrorView::ServerFn(d) => "server fn error: "@ + d,
        ApiErrorView::Db(d) => "opaque mongodb error: "@ + d,
        ApiErrorView::DbDeSer(d) => "(de)serialization error in db: "@ + d,
        ApiErrorView::DbNotInContext => "database not in leptos context"@,
        ApiErrorView::NotFound(kind, id) => kind + " with id "@ + decimal(id as nat)
            + " doesn't exist in the database"@,
        ApiErrorView::EmptyContent => "content cannot be empty"@,
        ApiErrorView::EmptySubject => "subject cannot be empty"@,
        ApiErrorView::CounterNotProvisioned(c) => "no counter is provisioned for "@ + c,
        ApiErrorView::CounterExhausted(c) => "the counter is exhausted for "@ + c,
        ApiErrorView::ClockOutOfRange => "the system clock is out of range"@,
    }
}

/// How a failure of the store is classified: by whether it arose while a
/// document was written out, while one was read in, or otherwise.
#[derive(Debug, Clone, Copy, PartialEq, Eq, Structural)]
pub enum FailureKind {
    Serialization,
    Deserialization,
    Other,
}

/// The failure that a store error of the given kind and description is
/// reported as.
pub open spec fn classified(kind: FailureKind, details: Seq<char>) -> ApiErrorView {
    match kind {
        FailureKind::Serialization => ApiErrorView::DbDeSer(details),
        FailureKind::Deserialization => ApiErrorView::DbDeSer(details),
        FailureKind::Other => ApiErrorView::Db(details),
    }
}

impl ApiError {
    /// The failure for an entity that was looked up and not found.
    pub fn not_found(kind: &str, id: u32) -> (r: ApiError)
        ensures
            r@ == ApiErrorView::NotFound(kind@, id),
    {
        ApiError::NotFound(String::from_str(kind), id)
    }

    /// Classifies a failure of the store: one that arose in writing out or
    /// reading in a document becomes `DbDeSer`, any other becomes `Db`; the
    /// description is kept.
    pub fn classify(kind: FailureKind, details: String) -> (r: ApiError)
        ensures
            r@ == classified(kind, details@),
    {
        match kind {
            FailureKind::Serialization => ApiError::DbDeSer(details),
            FailureKind::Deserialization => ApiError::DbDeSer(details),
            FailureKind::Other => ApiError::Db(details),
        }
    }

    /// The text that describes this failure.
    pub fn message(&self) -> (r: String)
        ensures
            r@ == message_of(self@),
    {
        match self {
            ApiError::ServerFn(d) => String::from_str("server fn error: ").concat(d.as_str()),
            ApiError::Db(d) => String::from_str("opaque mongodb error: ").concat(d.as_str()),
            ApiError::DbDeSer(d) => String::from_str("(de)serialization error in db: ").concat(
                d.as_str(),
            ),
            ApiError::DbNotInContext => String::from_str("database not in leptos context"),
            ApiError::NotFound(kind, id) => {
                let number = render_decimal(*id);
                kind.clone().concat(" with id ").concat(number.as_str()).concat(
                    " doesn't exist in the database",
                )
            },
            ApiError::EmptyContent => String::from_str("content cannot be empty"),
            ApiError::EmptySubject => String::from_str("subject cannot be empty"),
            ApiError::CounterNotProvisioned(c) => String::from_str(
                "no counter is provisioned for ",
            ).concat(c.as_str()),
            ApiError::CounterExhausted(c) => String::from_str(
                "the counter is exhausted for ",
            ).concat(c.as_str()),
            ApiError::ClockOutOfRange => String::from_str("the system clock is out of range"),
        }
    }
}

/// `mongodb::error::Error`, the driver's error: carried through as it is,
/// with nothing known of what it holds.
#[verifier::external_type_specification]
#[verifier::external_body]
pub struct ExDriverError(mongodb::error::Error);

/// The kind of a driver error: `Serialization` where its
/// `mongodb::error::ErrorKind` is `BsonSerialization`, `Deserialization`
/// where it is `BsonDeserialization`, `Other` for every other kind.
pub uninterp spec fn driver_kind(error: mongodb::error::Error) -> FailureKind;

/// Tells apart the kinds of `mongodb::error::ErrorKind` that the
/// classification reads, by the field `kind` of `mongodb::error::Error`: the
/// two BSON conversion kinds, and all others. The kind is a matter of the
/// error alone, so it has a name; the contract claims no more than that name.
#[verifier::external_body]
fn driver_failure_kind(error: &mongodb::error::Error) -> (kind: FailureKind)
    ensures
        kind == driver_kind(*error),
{
    match *error.kind {
        mongodb::error::ErrorKind::BsonSerialization(_) => FailureKind::Serialization,
        mongodb::error::ErrorKind::BsonDeserialization(_) => FailureKind::Deserialization,
        _ => FailureKind::Other,
    }
}

/// The driver's own rendering of an error, `mongodb::error::Error`'s
/// `to_string`. The text lists the error's labels in the order of a hash
/// set, so nothing is claimed of it.
#[verifier::external_body]
fn driver_failure_text(error: &mongodb::error::Error) -> (text: String) {
    error.to_string()
}

impl vstd::std_specs::convert::FromSpecImpl<mongodb::error::Error> for ApiError {
    open spec fn obeys_from_spec() -> bool {
        false
    }

    open spec fn from_spec(v: mongodb::error::Error) -> Self {
        arbitrary()
    }
}

impl From<mongodb::error::Error> for ApiError {
    /// Converts a driver error: the result is the classification of the
    /// error's kind, with the driver's rendering of the error as its text.
    fn from(value: mongodb::error::Error) -> (r: ApiError)
        ensures
            exists|details: Seq<char>| r@ == classified(driver_kind(value), details),
    {
        let details = driver_failure_text(&value);
        let kind = driver_failure_kind(&value);
        let r = ApiError::classify(kind, details);
        assert(r@ == classified(driver_kind(value), details@));
        r
    }
}

} // verus!
