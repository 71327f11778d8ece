//! The typed failures that the authentication core reports to its callers.

use vstd::prelude::*;

verus! {

/// Every failure of the account store, the credential hasher and the API-key
/// gate. Operations never swallow a failure: each surfaces as one of these.
#[derive(Clone, Copy, Debug, PartialEq, Eq, Structural)]
pub enum AuthError {
    /// Signup found another account with the requested email.
    DuplicateEmail,
    /// Signup found another account with the requested username.
    DuplicateUsername,
    /// Login found no account under the identifier, or the password did not
    /// verify. The two causes are deliberately indistinguishable, so a caller
    /// cannot probe which identifiers exist.
    InvalidCredentials,
    /// Login on an account whose session is already open.
    AlreadyLoggedIn,
    /// Logout on an account that is not logged in.
    NotLoggedIn,
    /// The named account does not exist.
    NotFound,
    /// A recovery code is already pending for the account.
    RecoveryAlreadyPending,
    /// The presented API key did not verify against the stored key hash,
    /// or the stored key hash was malformed.
    InvalidKey,
    /// The password hasher itself failed (an algorithm or parameter error).
    HashingError,
}

} // verus!
