//! The API-key gate: every account-mutating operation reachable from the
//! network boundary must pass this check before it touches the store.

use vstd::prelude::*;

use crate::errors::AuthError;
use crate::hash::{is_wellformed_hash, verify_of, verify_password};

verus! {

/// Verifies a caller-supplied API key against the stored hash of the service's
/// shared secret. Succeeds exactly when the stored hash is well-formed and the
/// presented key reproduces it; a malformed stored hash and a mismatching key
/// are alike reported as an invalid key.
pub fn verify_api_key(key: &str, stored_key_hash: &str) -> (r: Result<(), AuthError>)
    ensures
        r is Ok <==> is_wellformed_hash(stored_key_hash@) && verify_of(key@, stored_key_hash@),
        r is Err ==> r->Err_0 == AuthError::InvalidKey,
{
    match verify_password(key, stored_key_hash) {
        Ok(true) => Ok(()),
        Ok(false) => Err(AuthError::InvalidKey),
        Err(_) => Err(AuthError::InvalidKey),
    }
}

} // verus!
