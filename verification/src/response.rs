//! The plain-text answer that an error is rendered as.

use vstd::prelude::*;

verus! {

/// The request cannot be served as it was made.
pub const BAD_REQUEST: u16 = 400;

/// The credentials were not accepted.
pub const UNAUTHORIZED: u16 = 401;

/// The operation did not complete, for a reason the client cannot mend.
pub const INTERNAL_SERVER_ERROR: u16 = 500;

/// A status code with a plain-text body.
#[derive(Clone, Debug, PartialEq, Eq)]
pub struct ErrorResponse {
    pub status: u16,
    pub body: String,
}

} // verus!
