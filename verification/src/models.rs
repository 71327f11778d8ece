//! The records that the account store holds and the request/response shapes
//! of its operations, together with their mathematical views.

use vstd::prelude::*;

verus! {

/// A stored identity record. `password` holds the credential hash produced by
/// the hasher, never a plaintext secret; `logged_in` is true between a
/// successful login and the matching logout; `recovery_code` is present only
/// while a recovery flow is pending.
#[derive(Debug)]
pub struct User {
    pub email: String,
    pub username: String,
    pub password: String,
    pub logged_in: bool,
    pub recovery_code: Option<i32>,
}

/// The mathematical image of a stored record.
pub ghost struct AccountView {
    pub email: Seq<char>,
    pub username: Seq<char>,
    pub password: Seq<char>,
    pub logged_in: bool,
    pub recovery_code: Option<int>,
}

impl View for User {
    type V = AccountView;

    open spec fn view(&self) -> AccountView {
        AccountView {
            email: self.email@,
            username: self.username@,
            password: self.password@,
            logged_in: self.logged_in,
            recovery_code: match self.recovery_code {
                Some(c) => Some(c as int),
                None => None,
            },
        }
    }
}

impl Clone for User {
    fn clone(&self) -> (r: Self)
        ensures
            r@ == self@,
    {
        User {
            email: self.email.clone(),
            username: self.username.clone(),
            password: self.password.clone(),
            logged_in: self.logged_in,
            recovery_code: self.recovery_code,
        }
    }
}

/// A signup request: the identity pair, the plaintext password to be hashed,
/// and the caller's API key, which the store itself never inspects.
#[derive(Debug)]
pub struct SignUp {
    pub email: String,
    pub username: String,
    pub password: String,
    pub api_key: String,
}

/// A login request that identifies the account by email.
#[derive(Debug)]
pub struct EmailLogin {
    pub email: String,
    pub password: String,
    pub api_key: String,
}

/// A login request that identifies the account by username.
#[derive(Debug)]
pub struct UsernameLogin {
    pub username: String,
    pub password: String,
    pub api_key: String,
}

/// The public identity pair returned by a successful login.
#[derive(Debug)]
pub struct LoginSuccess {
    pub email: String,
    pub username: String,
}

/// The mathematical image of a successful login's identity pair.
pub ghost struct LoginView {
    pub email: Seq<char>,
    pub username: Seq<char>,
}

impl View for LoginSuccess {
    type V = LoginView;

    open spec fn view(&self) -> LoginView {
        LoginView { email: self.email@, username: self.username@ }
    }
}

} // verus!
