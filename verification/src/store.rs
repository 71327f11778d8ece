//! The account store: owns the identity records and implements signup, login
//! by email or username, logout, lookup, deletion and recovery-code issuance.
//! Every operation is verified against the transitions in `model`, and every
//! operation preserves the store invariant: unique emails, unique usernames,
//! well-formed nonempty credential hashes, 6-digit pending recovery codes.
//!
//! The store never inspects API keys itself: it trusts its caller to have
//! verified the shared key beforehand.

use vstd::prelude::*;

use rand::Rng;

use crate::errors::AuthError;
use crate::hash::{generate_salt, hash_password, is_wellformed_hash, verify_of, verify_password};
use crate::model::{
    delete_transition, email_login_transition, has_email, has_username,
    issue_code_transition, lemma_email_index_unique, lemma_remove_preserves_wf,
    lemma_signup_preserves_wf, lemma_update_preserves_wf, lemma_username_index_unique,
    signout_transition, signup_transition, store_wf, username_index, username_login_transition,
};
use crate::models::{AccountView, EmailLogin, LoginSuccess, LoginView, SignUp, User, UsernameLogin};
use vstd::pervasive::unreached;

verus! {

/// The record store. Accounts live in insertion order; the invariant `wf`
/// holds at every observable point.
pub struct Database {
    accounts: Vec<User>,
}

impl View for Database {
    type V = Seq<AccountView>;

    closed spec fn view(&self) -> Seq<AccountView> {
        self.accounts@.map(|i: int, u: User| u@)
    }
}

impl Database {
    /// The store invariant: identities unique, every record well-formed.
    pub open spec fn wf(&self) -> bool {
        store_wf(self@)
    }

    /// An empty store.
    pub fn new() -> (db: Database)
        ensures
            db@ =~= Seq::<AccountView>::empty(),
            db.wf(),
    {
        let db = Database { accounts: Vec::new() };
        assert(db@ =~= Seq::<AccountView>::empty());
        db
    }

    /// The index of the account holding this email, if any.
    fn find_by_email(&self, email: &String) -> (r: Option<usize>)
        ensures
            match r {
                Some(i) => i < self@.len() && self@[i as int].email == email@,
                None => !has_email(self@, email@),
            },
    {
        let mut idx: usize = 0;
        while idx < self.accounts.len()
            invariant
                idx <= self.accounts.len(),
                self@.len() == self.accounts@.len(),
                forall|k: int| 0 <= k < idx ==> self@[k].email != email@,
            decreases self.accounts.len() - idx,
        {
            assert(self@[idx as int] == self.accounts@[idx as int]@);
            if self.accounts[idx].email == *email {
                return Some(idx);
            }
            idx += 1;
        }
        None
    }

    /// The index of the account holding this username, if any.
    fn find_by_username(&self, username: &String) -> (r: Option<usize>)
        ensures
            match r {
                Some(i) => i < self@.len() && self@[i as int].username == username@,
                None => !has_username(self@, username@),
            },
    {
        let mut idx: usize = 0;
        while idx < self.accounts.len()
            invariant
                idx <= self.accounts.len(),
                self@.len() == self.accounts@.len(),
                forall|k: int| 0 <= k < idx ==> self@[k].username != username@,
            decreases self.accounts.len() - idx,
        {
            assert(self@[idx as int] == self.accounts@[idx as int]@);
            if self.accounts[idx].username == *username {
                return Some(idx);
            }
            idx += 1;
        }
        None
    }

    /// Existence probe for an email; absence is `false`, never an error.
    pub fn check_duplicate_email(&self, email: String) -> (r: bool)
        ensures
            r == has_email(self@, email@),
    {
        match self.find_by_email(&email) {
            Some(_) => true,
            None => false,
        }
    }

    /// Existence probe for a username; absence is `false`, never an error.
    pub fn check_duplicate_username(&self, username: String) -> (r: bool)
        ensures
            r == has_username(self@, username@),
    {
        match self.find_by_username(&username) {
            Some(_) => true,
            None => false,
        }
    }

    /// Pure lookup of an account's current snapshot; absence is `None`,
    /// never an error.
    pub fn get_user(&self, username: String) -> (r: Option<User>)
        requires
            self.wf(),
        ensures
            match r {
                Some(u) => has_username(self@, username@) && u@ == self@[username_index(
                    self@,
                    username@,
                )],
                None => !has_username(self@, username@),
            },
    {
        match self.find_by_username(&username) {
            Some(i) => {
                proof {
                    lemma_username_index_unique(self@, username@, i as int);
                }
                Some(self.accounts[i].clone())
            },
            None => None,
        }
    }

    /// Signup once the credential hash is already derived: checks the email
    /// for a duplicate, then the username (so the email error wins when both
    /// collide), and only then appends the record, logged out and with no
    /// recovery code pending. The outcome is exact for every input.
    pub fn signup_with_hash(
        &mut self,
        email: String,
        username: String,
        password_hash: String,
    ) -> (r: Result<User, AuthError>)
        requires
            old(self).wf(),
            is_wellformed_hash(password_hash@),
            password_hash@.len() > 0,
        ensures
            final(self).wf(),
            final(self)@ == signup_transition(old(self)@, email@, username@, password_hash@).0,
            r is Ok ==> signup_transition(old(self)@, email@, username@, password_hash@).1 == Ok::<AccountView, AuthError>(
                r->Ok_0@,
            ),
            r is Err ==> signup_transition(old(self)@, email@, username@, password_hash@).1
                == Err::<AccountView, AuthError>(r->Err_0),
    {
        if self.check_duplicate_email(email.clone()) {
            return Err(AuthError::DuplicateEmail);
        }
        if self.check_duplicate_username(username.clone()) {
            return Err(AuthError::DuplicateUsername);
        }
        proof {
            lemma_signup_preserves_wf(self@, email@, username@, password_hash@);
        }
        let user = User {
            email,
            username,
            password: password_hash,
            logged_in: false,
            recovery_code: None,
        };
        let created = user.clone();
        self.accounts.push(user);
        proof {
            assert(self@ =~= signup_transition(old(self)@, created.email@, created.username@,
            created.password@).0);
        }
        Ok(created)
    }

    /// Signup: after the duplicate checks pass, hashes the password over a
    /// fresh random salt and creates the record. The duplicate errors are
    /// exact; a hashing failure surfaces as `HashingError` and leaves the
    /// store unchanged; on success the created record is returned, and its
    /// stored hash verifies against exactly the password that was signed up.
    pub fn signup(&mut self, user: SignUp) -> (r: Result<User, AuthError>)
        requires
            old(self).wf(),
        ensures
            final(self).wf(),
            r is Err ==> final(self)@ == old(self)@,
            r == Err::<User, AuthError>(AuthError::DuplicateEmail) <==> has_email(
                old(self)@,
                user.email@,
            ),
            !has_email(old(self)@, user.email@) ==> (r == Err::<User, AuthError>(
                AuthError::DuplicateUsername,
            ) <==> has_username(old(self)@, user.username@)),
            r is Err ==> r->Err_0 == AuthError::DuplicateEmail || r->Err_0
                == AuthError::DuplicateUsername || r->Err_0 == AuthError::HashingError,
            r is Ok ==> signup_transition(old(self)@, user.email@, user.username@,
            r->Ok_0.password@).1 == Ok::<AccountView, AuthError>(r->Ok_0@),
            r is Ok ==> final(self)@ == signup_transition(old(self)@, user.email@, user.username@,
            r->Ok_0.password@).0,
            r is Ok ==> verify_of(user.password@, r->Ok_0.password@),
            r is Ok ==> forall|other: Seq<char>| other != user.password@ ==> !verify_of(
                other,
                r->Ok_0.password@,
            ),
    {
        if self.check_duplicate_email(user.email.clone()) {
            return Err(AuthError::DuplicateEmail);
        }
        if self.check_duplicate_username(user.username.clone()) {
            return Err(AuthError::DuplicateUsername);
        }
        let salt = generate_salt();
        let hashed = match hash_password(user.password.as_str(), salt.as_str()) {
            Ok(h) => h,
            Err(_) => {
                return Err(AuthError::HashingError);
            },
        };
        self.signup_with_hash(user.email, user.username, hashed)
    }

    /// Login by email: an absent email and a wrong password yield the same
    /// `InvalidCredentials`, a caller cannot tell which field was wrong; a
    /// second login before logout is `AlreadyLoggedIn`; the flag is set only
    /// after verification succeeds, and the identity pair is returned.
    pub fn email_login(&mut self, credentials: EmailLogin) -> (r: Result<LoginSuccess, AuthError>)
        requires
            old(self).wf(),
        ensures
            final(self).wf(),
            final(self)@ == email_login_transition(
                old(self)@,
                credentials.email@,
                credentials.password@,
            ).0,
            r is Ok ==> email_login_transition(old(self)@, credentials.email@,
            credentials.password@).1 == Ok::<LoginView, AuthError>(r->Ok_0@),
            r is Err ==> email_login_transition(old(self)@, credentials.email@,
            credentials.password@).1 == Err::<LoginView, AuthError>(r->Err_0),
    {
        let i = match self.find_by_email(&credentials.email) {
            Some(i) => i,
            None => {
                return Err(AuthError::InvalidCredentials);
            },
        };
        proof {
            lemma_email_index_unique(self@, credentials.email@, i as int);
            assert(self@[i as int] == self.accounts@[i as int]@);
        }
        let verified = match verify_password(
            credentials.password.as_str(),
            self.accounts[i].password.as_str(),
        ) {
            Ok(b) => b,
            Err(_) => unreached(),
        };
        if !verified {
            return Err(AuthError::InvalidCredentials);
        }
        if self.accounts[i].logged_in {
            return Err(AuthError::AlreadyLoggedIn);
        }
        let mut user = self.accounts[i].clone();
        user.logged_in = true;
        let success = LoginSuccess { email: user.email.clone(), username: user.username.clone() };
        self.accounts[i] = user;
        proof {
            assert(self@ =~= email_login_transition(
                old(self)@,
                credentials.email@,
                credentials.password@,
            ).0);
            lemma_update_preserves_wf(old(self)@, i as int, self@[i as int]);
        }
        Ok(success)
    }

    /// Login by username: the same state machine as `email_login`, reached
    /// through the other unique identifier.
    pub fn username_login(&mut self, credentials: UsernameLogin) -> (r: Result<
        LoginSuccess,
        AuthError,
    >)
        requires
            old(self).wf(),
        ensures
            final(self).wf(),
            final(self)@ == username_login_transition(
                old(self)@,
                credentials.username@,
                credentials.password@,
            ).0,
            r is Ok ==> username_login_transition(old(self)@, credentials.username@,
            credentials.password@).1 == Ok::<LoginView, AuthError>(r->Ok_0@),
            r is Err ==> username_login_transition(old(self)@, credentials.username@,
            credentials.password@).1 == Err::<LoginView, AuthError>(r->Err_0),
    {
        let i = match self.find_by_username(&credentials.username) {
            Some(i) => i,
            None => {
                return Err(AuthError::InvalidCredentials);
            },
        };
        proof {
            lemma_username_index_unique(self@, credentials.username@, i as int);
            assert(self@[i as int] == self.accounts@[i as int]@);
        }
        let verified = match verify_password(
            credentials.password.as_str(),
            self.accounts[i].password.as_str(),
        ) {
            Ok(b) => b,
            Err(_) => unreached(),
        };
        if !verified {
            return Err(AuthError::InvalidCredentials);
        }
        if self.accounts[i].logged_in {
            return Err(AuthError::AlreadyLoggedIn);
        }
        let mut user = self.accounts[i].clone();
        user.logged_in = true;
        let success = LoginSuccess { email: user.email.clone(), username: user.username.clone() };
        self.accounts[i] = user;
        proof {
            assert(self@ =~= username_login_transition(
                old(self)@,
                credentials.username@,
                credentials.password@,
            ).0);
            lemma_update_preserves_wf(old(self)@, i as int, self@[i as int]);
        }
        Ok(success)
    }

    /// Logout: `NotFound` for an absent account, `NotLoggedIn` when no session
    /// is open, and otherwise the one place that clears `logged_in`.
    pub fn signout(&mut self, username: String) -> (r: Result<String, AuthError>)
        requires
            old(self).wf(),
        ensures
            final(self).wf(),
            final(self)@ == signout_transition(old(self)@, username@).0,
            r is Ok <==> signout_transition(old(self)@, username@).1 is Ok,
            r is Ok ==> r->Ok_0@ == "User successfully logged out"@,
            r is Err ==> signout_transition(old(self)@, username@).1 == Err::<(), AuthError>(
                r->Err_0,
            ),
    {
        let i = match self.find_by_username(&username) {
            Some(i) => i,
            None => {
                return Err(AuthError::NotFound);
            },
        };
        proof {
            lemma_username_index_unique(self@, username@, i as int);
            assert(self@[i as int] == self.accounts@[i as int]@);
        }
        if !self.accounts[i].logged_in {
            return Err(AuthError::NotLoggedIn);
        }
        let mut user = self.accounts[i].clone();
        user.logged_in = false;
        self.accounts[i] = user;
        proof {
            assert(self@ =~= signout_transition(old(self)@, username@).0);
            lemma_update_preserves_wf(old(self)@, i as int, self@[i as int]);
        }
        Ok("User successfully logged out".to_owned())
    }

    /// Deletion: `NotFound` for an absent account; otherwise the record is
    /// removed and its final snapshot returned.
    pub fn delete_user(&mut self, username: String) -> (r: Result<User, AuthError>)
        requires
            old(self).wf(),
        ensures
            final(self).wf(),
            final(self)@ == delete_transition(old(self)@, username@).0,
            r is Ok ==> delete_transition(old(self)@, username@).1 == Ok::<AccountView, AuthError>(
                r->Ok_0@,
            ),
            r is Err ==> delete_transition(old(self)@, username@).1 == Err::<
                AccountView,
                AuthError,
            >(r->Err_0),
    {
        let i = match self.find_by_username(&username) {
            Some(i) => i,
            None => {
                return Err(AuthError::NotFound);
            },
        };
        proof {
            lemma_username_index_unique(self@, username@, i as int);
            lemma_remove_preserves_wf(self@, i as int);
        }
        let removed = self.accounts.remove(i);
        proof {
            assert(self@ =~= delete_transition(old(self)@, username@).0);
        }
        Ok(removed)
    }

    /// Stores a freshly drawn recovery code on an existing account and returns
    /// the updated snapshot.
    fn add_code(&mut self, username: String, code: i32) -> (r: User)
        requires
            old(self).wf(),
            has_username(old(self)@, username@),
            100000 <= code < 1000000,
        ensures
            final(self).wf(),
            final(self)@ == old(self)@.update(username_index(old(self)@, username@), r@),
            r@ == (AccountView {
                recovery_code: Some(code as int),
                ..old(self)@[username_index(old(self)@, username@)]
            }),
    {
        let i = match self.find_by_username(&username) {
            Some(i) => i,
            None => unreached(),
        };
        proof {
            lemma_username_index_unique(self@, username@, i as int);
            assert(self@[i as int] == self.accounts@[i as int]@);
        }
        let mut user = self.accounts[i].clone();
        user.recovery_code = Some(code);
        let updated = user.clone();
        self.accounts[i] = user;
        proof {
            assert(self@ =~= old(self)@.update(i as int, updated@));
            lemma_update_preserves_wf(old(self)@, i as int, updated@);
        }
        updated
    }

    /// Recovery-code issuance: `NotFound` for an absent account; a pending
    /// code is never overwritten and yields `RecoveryAlreadyPending`;
    /// otherwise a uniformly random 6-digit code is stored and the updated
    /// record returned.
    pub fn check_code(&mut self, username: String) -> (r: Result<User, AuthError>)
        requires
            old(self).wf(),
        ensures
            final(self).wf(),
            r is Err ==> final(self)@ == old(self)@,
            r == Err::<User, AuthError>(AuthError::NotFound) <==> !has_username(
                old(self)@,
                username@,
            ),
            has_username(old(self)@, username@) ==> (r == Err::<User, AuthError>(
                AuthError::RecoveryAlreadyPending,
            ) <==> old(self)@[username_index(old(self)@, username@)].recovery_code is Some),
            r is Err ==> r->Err_0 == AuthError::NotFound || r->Err_0
                == AuthError::RecoveryAlreadyPending,
            r is Ok ==> r->Ok_0.recovery_code is Some,
            r is Ok ==> 100000 <= r->Ok_0.recovery_code->0 < 1000000,
            r is Ok ==> issue_code_transition(old(self)@, username@,
            r->Ok_0.recovery_code->0 as int).1 == Ok::<AccountView, AuthError>(r->Ok_0@),
            r is Ok ==> final(self)@ == issue_code_transition(old(self)@, username@,
            r->Ok_0.recovery_code->0 as int).0,
    {
        let user = match self.get_user(username.clone()) {
            Some(u) => u,
            None => {
                return Err(AuthError::NotFound);
            },
        };
        if user.recovery_code.is_some() {
            return Err(AuthError::RecoveryAlreadyPending);
        }
        let code = random_recovery_code();
        let updated = self.add_code(username, code);
        Ok(updated)
    }
}

/// Relies on rand's `thread_rng` and `Rng::gen_range`: a number drawn
/// uniformly from the given nonempty range. The draw is random, so only its
/// bounds are assumed.
#[verifier::external_body]
fn random_recovery_code() -> (code: i32)
    ensures
        100000 <= code < 1000000,
{
    rand::thread_rng().gen_range(100_000..1_000_000)
}

} // verus!
