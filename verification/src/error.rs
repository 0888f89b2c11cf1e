//! The error channel: why an operation refused its input, as a small integer
//! that can cross a boundary which carries nothing but numbers.

use vstd::prelude::*;

verus! {

/// One class of invalid input.
#[derive(Clone, Copy, Debug, PartialEq, Eq, Structural)]
pub enum ErrorKind {
    /// The private key is zero or not below the curve order.
    BadPrivate,
    /// The public key bytes are not an encoding of a curve point.
    BadPoint,
    /// The tweak is not below the curve order.
    BadTweak,
    /// The message hash is malformed.
    BadHash,
    /// The compact signature has a component that is not below the curve order.
    BadSignature,
    /// The extra entropy is malformed.
    BadExtraData,
}

/// What one operation hands to the boundary: the numeric status to return and,
/// where the input was refused, the kind to notify before returning.
#[derive(Clone, Copy, Debug, PartialEq, Eq, Structural)]
pub struct Report {
    pub status: i32,
    pub notice: Option<ErrorKind>,
}

impl ErrorKind {
    /// The number that stands for this kind on the error channel.
    pub open spec fn spec_code(self) -> usize {
        match self {
            ErrorKind::BadPrivate => 0,
            ErrorKind::BadPoint => 1,
            ErrorKind::BadTweak => 2,
            ErrorKind::BadHash => 3,
            ErrorKind::BadSignature => 4,
            ErrorKind::BadExtraData => 5,
        }
    }

    /// The kind that a number stands for, if any.
    pub open spec fn spec_from_code(code: usize) -> Option<ErrorKind> {
        if code == 0 {
            Some(ErrorKind::BadPrivate)
        } else if code == 1 {
            Some(ErrorKind::BadPoint)
        } else if code == 2 {
            Some(ErrorKind::BadTweak)
        } else if code == 3 {
            Some(ErrorKind::BadHash)
        } else if code == 4 {
            Some(ErrorKind::BadSignature)
        } else if code == 5 {
            Some(ErrorKind::BadExtraData)
        } else {
            None
        }
    }

    #[verifier::when_used_as_spec(spec_code)]
    pub fn code(self) -> (code: usize)
        ensures
            code == self.spec_code(),
    {
        match self {
            ErrorKind::BadPrivate => 0,
            ErrorKind::BadPoint => 1,
            ErrorKind::BadTweak => 2,
            ErrorKind::BadHash => 3,
            ErrorKind::BadSignature => 4,
            ErrorKind::BadExtraData => 5,
        }
    }

    pub fn from_code(code: usize) -> (kind: Option<ErrorKind>)
        ensures
            kind == Self::spec_from_code(code),
    {
        if code == 0 {
            Some(ErrorKind::BadPrivate)
        } else if code == 1 {
            Some(ErrorKind::BadPoint)
        } else if code == 2 {
            Some(ErrorKind::BadTweak)
        } else if code == 3 {
            Some(ErrorKind::BadHash)
        } else if code == 4 {
            Some(ErrorKind::BadSignature)
        } else if code == 5 {
            Some(ErrorKind::BadExtraData)
        } else {
            None
        }
    }
}

/// Splits the outcome of an operation into what the boundary returns and what
/// it notifies: a refused input gives status 0 and its kind, anything else
/// gives the status alone.
pub fn report(outcome: Result<i32, ErrorKind>) -> (r: Report)
    ensures
        outcome matches Ok(status) ==> r == (Report { status, notice: None }),
        outcome matches Err(kind) ==> r == (Report { status: 0, notice: Some(kind) }),
{
    match outcome {
        Ok(status) => Report { status, notice: None },
        Err(kind) => Report { status: 0, notice: Some(kind) },
    }
}

/// Every kind has a code of its own, and the code names the kind again.
pub proof fn law_code_round_trip(kind: ErrorKind)
    ensures
        ErrorKind::spec_from_code(kind.spec_code()) == Some(kind),
        kind.spec_code() < 6,
{
}

/// Only the six codes below 6 name a kind, and each names the kind that has it.
pub proof fn law_codes_are_six(code: usize)
    ensures
        ErrorKind::spec_from_code(code) is Some <==> code < 6,
        ErrorKind::spec_from_code(code) matches Some(kind) ==> kind.spec_code() == code,
{
}

} // verus!
