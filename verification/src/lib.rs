//! An account-authentication core: identity records with unique emails and
//! usernames, salted password hashing and verification, a per-account
//! login/logout state machine, one-time recovery-code issuance, and the
//! service bootstrap that gates it all behind a shared API key.

use vstd::prelude::*;

pub mod errors;
pub mod gate;
pub mod hash;
pub mod model;
pub mod models;
pub mod settings;
pub mod store;

verus! {

/// Greeting served at the service root.
pub fn root() -> (r: &'static str)
    ensures
        r@ == "Welcome to the Rust Auth Server created by PyDev19"@,
{
    "Welcome to the Rust Auth Server created by PyDev19"
}

} // verus!
