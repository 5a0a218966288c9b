//! The error kinds of store operations and the class of response each maps to.
use vstd::prelude::*;

verus! {

/// Why a store operation failed.
#[derive(Clone, Copy, Debug, PartialEq, Eq, Structural)]
pub enum CRUDError {
    NotFound,
    WrongParameters,
    Write,
    Delete,
    JsonError,
    InternalError,
    MaxRetry,
}

/// The class of response that a caller sees for an outcome.
#[derive(Clone, Copy, Debug, PartialEq, Eq, Structural)]
pub enum ResponseClass {
    /// The payload, wrapped as `{ "data": ... }`.
    Success,
    /// A "not found" response naming the request's parameters.
    NotFound,
    /// A "limit exceeded" response.
    LimitExceeded,
    /// A generic internal-fault response.
    InternalFault,
}

/// The response class of an error kind.
pub open spec fn error_class(err: CRUDError) -> ResponseClass {
    match err {
        CRUDError::NotFound | CRUDError::WrongParameters => ResponseClass::NotFound,
        CRUDError::MaxRetry => ResponseClass::LimitExceeded,
        _ => ResponseClass::InternalFault,
    }
}

/// The response class of an error kind: missing entities and malformed
/// parameters answer "not found", an exhausted retry budget "limit exceeded",
/// everything else an internal fault.
pub fn classify_error(err: CRUDError) -> (r: ResponseClass)
    ensures
        r == error_class(err),
{
    match err {
        CRUDError::NotFound => ResponseClass::NotFound,
        CRUDError::MaxRetry => ResponseClass::LimitExceeded,
        CRUDError::WrongParameters => ResponseClass::NotFound,
        CRUDError::Write => ResponseClass::InternalFault,
        CRUDError::Delete => ResponseClass::InternalFault,
        CRUDError::JsonError => ResponseClass::InternalFault,
        CRUDError::InternalError => ResponseClass::InternalFault,
    }
}

/// The response class of an operation's outcome: success on `Ok`, the error's
/// class on `Err`.
pub fn match_error<T>(result: &Result<T, CRUDError>) -> (r: ResponseClass)
    ensures
        r == match result {
            Ok(_) => ResponseClass::Success,
            Err(e) => error_class(*e),
        },
{
    match result {
        Ok(_) => ResponseClass::Success,
        Err(e) => classify_error(*e),
    }
}

} // verus!
