//! The errors that registry operations report.

use vstd::prelude::*;

verus! {

/// The kinds of failure, each with the HTTP status it stands for.
#[derive(Clone, Copy, Debug, PartialEq, Eq, Structural)]
pub enum ErrorKind {
    /// A row or an entity that was asked for does not exist (404).
    NotFound,
    /// A uniqueness rule of the store would be broken (409).
    Conflict,
    /// A field of the request, or a stored JSON text, is malformed (400).
    Validation,
    /// The caller is not a member or an owner of the group concerned (403).
    Forbidden,
    /// The identity or the notification service failed (500).
    Upstream,
    /// The store cannot take the request (503).
    StoreUnavailable,
}

/// A failed operation: its kind, and a message for the caller.
#[derive(Clone, Debug, PartialEq, Eq)]
pub struct RegistryError {
    pub kind: ErrorKind,
    pub message: String,
}

/// The HTTP status that a kind of error stands for.
pub open spec fn status_code(kind: ErrorKind) -> u16 {
    match kind {
        ErrorKind::NotFound => 404,
        ErrorKind::Conflict => 409,
        ErrorKind::Validation => 400,
        ErrorKind::Forbidden => 403,
        ErrorKind::Upstream => 500,
        ErrorKind::StoreUnavailable => 503,
    }
}

/// Whether `result` is a failure of the given kind.
pub open spec fn fails_with<T>(result: Result<T, RegistryError>, kind: ErrorKind) -> bool {
    match result {
        Ok(_) => false,
        Err(e) => e.kind == kind,
    }
}

impl RegistryError {
    /// An error of the given kind with the given message.
    pub fn new(kind: ErrorKind, message: &str) -> (e: RegistryError)
        ensures
            e.kind == kind,
            e.message@ == message@,
    {
        RegistryError { kind, message: message.to_owned() }
    }

    /// The HTTP status to answer with.
    pub fn http_status(&self) -> (code: u16)
        ensures
            code == status_code(self.kind),
    {
        match self.kind {
            ErrorKind::NotFound => 404,
            ErrorKind::Conflict => 409,
            ErrorKind::Validation => 400,
            ErrorKind::Forbidden => 403,
            ErrorKind::Upstream => 500,
            ErrorKind::StoreUnavailable => 503,
        }
    }
}

} // verus!
