//! Envelopes of the engine's answers and the claims of a signed-in account.

use vstd::prelude::*;
use crate::model::User;

verus! {

/// Issuer written into every token's claims.
pub const COMPANY: &'static str = "Backend Parking";

/// A request payload.
pub struct Body<T>(pub T);

/// A successful answer.
pub struct AppSuccess<T>(pub T);

/// A failed answer carrying a message.
pub struct AppFailed<T>(pub T);

/// Envelope of a successful answer.
pub struct SuccessResponse<T> {
    pub success: bool,
    pub data: T,
}

/// Envelope of a failed answer.
pub struct ErrorResponse<T> {
    pub success: bool,
    pub message: T,
}

impl<T> Body<T> {
    /// The payload.
    pub fn into_inner(self) -> (r: T)
        ensures
            r == self.0,
    {
        self.0
    }
}

impl<T> AppSuccess<T> {
    /// The envelope of the answer: marked successful, carrying the data.
    pub fn into_envelope(self) -> (r: SuccessResponse<T>)
        ensures
            r.success,
            r.data == self.0,
    {
        SuccessResponse { success: true, data: self.0 }
    }
}

impl<T> AppFailed<T> {
    /// The envelope of the answer: marked failed, carrying the message.
    pub fn into_envelope(self) -> (r: ErrorResponse<T>)
        ensures
            !r.success,
            r.message == self.0,
    {
        ErrorResponse { success: false, message: self.0 }
    }
}

/// Claims of a signed-in account's token.
#[derive(Clone, Debug, PartialEq, Eq)]
pub struct CurrentUser {
    /// The account's phone number.
    pub sub: String,
    pub company: String,
    /// Expiry, in seconds since the Unix epoch.
    pub exp: usize,
}

impl CurrentUser {
    /// The claims of `u`'s token, expiring at `exp`.
    pub fn for_account(u: &User, exp: usize) -> (r: CurrentUser)
        ensures
            r.sub@ == u.phone_number@,
            r.company@ == COMPANY@,
            r.exp == exp,
    {
        CurrentUser { sub: u.phone_number.clone(), company: COMPANY.to_owned(), exp }
    }
}

} // verus!
