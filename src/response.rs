//! Classification of a response: a success status asks for the body to be
//! decoded as the expected type; any other status asks for it to be decoded
//! as an error payload, and becomes a status failure carrying the code and
//! the exchange's message.

use vstd::prelude::*;
use crate::error::{Error, ErrorKind, ErrorMessage, StatusError};

verus! {

pub open spec fn is_success_status(code: u16) -> bool {
    200 <= code && code < 300
}

/// Whether `status` is a success (2xx) status.
pub fn is_success(status: u16) -> (r: bool)
    ensures
        r == is_success_status(status),
{
    200 <= status && status < 300
}

/// A response body after the decode that its status asked for.
pub enum DecodedBody<T> {
    /// The body of a success response, decoded as the expected type or the
    /// decoder's description of why not.
    Success(Result<T, String>),
    /// The body of a failure response, decoded as an error payload or the
    /// decoder's description of why not.
    Failure(Result<ErrorMessage, String>),
}

/// The outcome that a response with `status` and `decoded` body stands for.
pub open spec fn response_outcome<T>(status: u16, decoded: DecodedBody<T>) -> Result<T, ErrorKind> {
    match decoded {
        DecodedBody::Success(Ok(v)) => Ok(v),
        DecodedBody::Success(Err(e)) => Err(ErrorKind::JSON(e)),
        DecodedBody::Failure(Ok(m)) => Err(
            ErrorKind::Status(StatusError { code: status, message: m.message }),
        ),
        DecodedBody::Failure(Err(e)) => Err(ErrorKind::ErrorPayload(e)),
    }
}

pub open spec fn outcome_matches<T>(r: Result<T, Error>, expected: Result<T, ErrorKind>) -> bool {
    match r {
        Ok(v) => expected == Ok::<T, ErrorKind>(v),
        Err(e) => expected == Err::<T, ErrorKind>(e.spec_kind()),
    }
}

/// Turns a decoded response into the caller's result: the decoded value, a
/// decode failure, or a status failure with the code and message.
pub fn classify_response<T>(status: u16, decoded: DecodedBody<T>) -> (r: Result<T, Error>)
    requires
        (decoded is Success) == is_success_status(status),
    ensures
        outcome_matches(r, response_outcome(status, decoded)),
{
    match decoded {
        DecodedBody::Success(Ok(v)) => Ok(v),
        DecodedBody::Success(Err(e)) => Err(Error::new(ErrorKind::JSON(e))),
        DecodedBody::Failure(Ok(m)) => Err(
            Error::new(ErrorKind::Status(StatusError::new(status, m.message))),
        ),
        DecodedBody::Failure(Err(e)) => Err(Error::new(ErrorKind::ErrorPayload(e))),
    }
}

/// The three failure kinds do not overlap: a success status never yields a
/// status failure, and a failure status yields a status failure carrying its
/// code and the exchange's message exactly when the error payload decoded,
/// and a decode failure otherwise.
pub proof fn lemma_failure_kinds<T>(status: u16, decoded: DecodedBody<T>)
    requires
        (decoded is Success) == is_success_status(status),
    ensures
        is_success_status(status) ==> !(response_outcome(status, decoded) matches Err(
            ErrorKind::Status(_),
        )),
        is_success_status(status) ==> (response_outcome(status, decoded) is Ok
            || response_outcome(status, decoded) matches Err(ErrorKind::JSON(_))),
        !is_success_status(status) ==> match decoded {
            DecodedBody::Failure(Ok(m)) => response_outcome(status, decoded) == Err::<
                T,
                ErrorKind,
            >(ErrorKind::Status(StatusError { code: status, message: m.message })),
            _ => response_outcome(status, decoded) matches Err(ErrorKind::ErrorPayload(_)),
        },
{
}

} // verus!
