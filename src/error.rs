//! The library's errors, and the status that the service answers with.
use vstd::prelude::*;

verus! {

/// An error of the library.
#[derive(Debug)]
pub enum DbError {
    /// the request or a value in it cannot be used; the reason is attached
    CustomError(String),
    /// the storage engine failed; its cause is attached
    CustomServerError(String),
}

/// The kind of a failed request, as the service reports it.
#[derive(PartialEq, Eq, Structural, Clone, Copy, Debug)]
pub enum Code {
    /// the requested key does not exist
    NotFound,
    /// the request failed on the server's side
    Internal,
    /// the request did not carry the configured token
    Unauthenticated,
}

/// A failed request: its kind and a human-readable message.
#[derive(Debug)]
pub struct Status {
    pub code: Code,
    pub msg: String,
}

impl Status {
    /// A status of the given kind and message.
    pub fn new(code: Code, msg: String) -> (r: Status)
        ensures
            r.code == code,
            r.msg@ == msg@,
    {
        Status { code, msg }
    }
}

/// The message that an error carries.
pub open spec fn error_message(e: DbError) -> Seq<char> {
    match e {
        DbError::CustomError(m) => m@,
        DbError::CustomServerError(m) => m@,
    }
}

impl DbError {
    /// The message that the error carries.
    pub fn message(&self) -> (r: String)
        ensures
            r@ == match self {
                DbError::CustomError(m) => m@,
                DbError::CustomServerError(m) => m@,
            },
    {
        match self {
            DbError::CustomError(m) => m.clone(),
            DbError::CustomServerError(m) => m.clone(),
        }
    }

    /// The status that a failed request answers with: an internal error that
    /// carries the error's message.
    pub fn to_status(&self) -> (r: Status)
        ensures
            r.code == Code::Internal,
            r.msg@ == match self {
                DbError::CustomError(m) => m@,
                DbError::CustomServerError(m) => m@,
            },
    {
        Status { code: Code::Internal, msg: self.message() }
    }
}

} // verus!
