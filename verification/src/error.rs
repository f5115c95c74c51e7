//! Why an enumeration failed.

use vstd::prelude::*;

verus! {

/// The failures that end an enumeration. Each is fatal: an enumeration that
/// fails returns the error and none of the repositories found so far.
#[derive(Debug, PartialEq, Eq)]
pub enum EnumerationError {
    /// The token cannot be sent as the value of a header. No request was
    /// made.
    InvalidToken,
    /// The request could not be carried out: no response arrived.
    Transport { reason: String },
    /// The platform answered with a status outside 200..=299.
    HttpStatus { status: u16, body: Vec<u8> },
    /// The body of a successful response is not a JSON array.
    MalformedBody,
    /// The record at `index` of a page lacks its name or its clone URL; no
    /// record before it does.
    MalformedRecord { index: usize },
}

/// What an `EnumerationError` holds.
pub enum EnumerationErrorView {
    InvalidToken,
    Transport { reason: Seq<char> },
    HttpStatus { status: u16, body: Seq<u8> },
    MalformedBody,
    MalformedRecord { index: nat },
}

impl View for EnumerationError {
    type V = EnumerationErrorView;

    open spec fn view(&self) -> EnumerationErrorView {
        match *self {
            EnumerationError::InvalidToken => EnumerationErrorView::InvalidToken,
            EnumerationError::Transport { reason } => EnumerationErrorView::Transport {
                reason: reason@,
            },
            EnumerationError::HttpStatus { status, body } => EnumerationErrorView::HttpStatus {
                status,
                body: body@,
            },
            EnumerationError::MalformedBody => EnumerationErrorView::MalformedBody,
            EnumerationError::MalformedRecord { index } => EnumerationErrorView::MalformedRecord {
                index: index as nat,
            },
        }
    }
}

impl Clone for EnumerationError {
    fn clone(&self) -> (r: Self)
        ensures
            r@ == self@,
    {
        match self {
            EnumerationError::InvalidToken => EnumerationError::InvalidToken,
            EnumerationError::Transport { reason } => EnumerationError::Transport {
                reason: reason.clone(),
            },
            EnumerationError::HttpStatus { status, body } => EnumerationError::HttpStatus {
                status: *status,
                body: body.clone(),
            },
            EnumerationError::MalformedBody => EnumerationError::MalformedBody,
            EnumerationError::MalformedRecord { index } => EnumerationError::MalformedRecord {
                index: *index,
            },
        }
    }
}

} // verus!
