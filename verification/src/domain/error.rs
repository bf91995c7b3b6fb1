//! Core-specific error type.
use vstd::prelude::*;

use crate::text::{join, text};

verus! {

/// Why a Core operation was refused or failed.
#[derive(Debug)]
pub enum CoreError {
    /// The named resource does not exist.
    NotFound(&'static str),
    Validation(String),
    Conflict(String),
    Forbidden(String),
    Unauthorized,
    Internal(String),
}

/// `err` is a `Validation` error carrying exactly `msg`.
pub open spec fn is_validation(err: CoreError, msg: Seq<char>) -> bool {
    err matches CoreError::Validation(m) && m@ == msg
}

/// `err` is a `Conflict` error carrying exactly `msg`.
pub open spec fn is_conflict(err: CoreError, msg: Seq<char>) -> bool {
    err matches CoreError::Conflict(m) && m@ == msg
}

/// `err` is a `Forbidden` error carrying exactly `msg`.
pub open spec fn is_forbidden(err: CoreError, msg: Seq<char>) -> bool {
    err matches CoreError::Forbidden(m) && m@ == msg
}

/// `err` is an `Internal` error carrying exactly `msg`.
pub open spec fn is_internal(err: CoreError, msg: Seq<char>) -> bool {
    err matches CoreError::Internal(m) && m@ == msg
}

/// `err` is a `NotFound` error for the resource named `resource`.
pub open spec fn is_not_found(err: CoreError, resource: Seq<char>) -> bool {
    err matches CoreError::NotFound(r) && r@ == resource
}

impl CoreError {
    pub fn not_found(resource: &'static str) -> (r: Self)
        ensures
            r == CoreError::NotFound(resource),
    {
        CoreError::NotFound(resource)
    }

    pub fn validation(message: &str) -> (r: Self)
        ensures
            is_validation(r, message@),
    {
        CoreError::Validation(text(message))
    }

    pub fn conflict(message: &str) -> (r: Self)
        ensures
            is_conflict(r, message@),
    {
        CoreError::Conflict(text(message))
    }

    pub fn forbidden(message: &str) -> (r: Self)
        ensures
            is_forbidden(r, message@),
    {
        CoreError::Forbidden(text(message))
    }

    pub fn internal(message: &str) -> (r: Self)
        ensures
            is_internal(r, message@),
    {
        CoreError::Internal(text(message))
    }

    /// `Internal` error whose message is `prefix` followed by `detail`.
    pub fn internal_with(prefix: &str, detail: &str) -> (r: Self)
        ensures
            is_internal(r, prefix@ + detail@),
    {
        CoreError::Internal(join(prefix, detail))
    }
}

/// The human-readable text of an error.
pub open spec fn error_text(err: CoreError) -> Seq<char> {
    match err {
        CoreError::NotFound(r) => r@ + " not found"@,
        CoreError::Validation(m) => "validation failed: "@ + m@,
        CoreError::Conflict(m) => "conflict: "@ + m@,
        CoreError::Forbidden(m) => "forbidden: "@ + m@,
        CoreError::Unauthorized => "unauthorized"@,
        CoreError::Internal(m) => "internal error: "@ + m@,
    }
}

impl CoreError {
    /// The human-readable text of the error (see [`error_text`]).
    pub fn message(&self) -> (r: String)
        ensures
            r@ == error_text(*self),
    {
        match self {
            CoreError::NotFound(r) => join(r, " not found"),
            CoreError::Validation(m) => join("validation failed: ", m.as_str()),
            CoreError::Conflict(m) => join("conflict: ", m.as_str()),
            CoreError::Forbidden(m) => join("forbidden: ", m.as_str()),
            CoreError::Unauthorized => text("unauthorized"),
            CoreError::Internal(m) => join("internal error: ", m.as_str()),
        }
    }
}

} // verus!
