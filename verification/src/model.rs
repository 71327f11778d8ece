//! The mathematical model of the account store: its well-formedness
//! invariant, and one transition function per operation. Each executable
//! store operation promises that the store it leaves behind and the value it
//! returns are exactly what the matching transition says.

use vstd::prelude::*;

use crate::errors::AuthError;
use crate::hash::{is_wellformed_hash, verify_of};
use crate::models::{AccountView, LoginView};

verus! {

/// Some account holds this email.
pub open spec fn has_email(s: Seq<AccountView>, email: Seq<char>) -> bool {
    exists|i: int| 0 <= i < s.len() && s[i].email == email
}

/// Some account holds this username.
pub open spec fn has_username(s: Seq<AccountView>, username: Seq<char>) -> bool {
    exists|i: int| 0 <= i < s.len() && s[i].username == username
}

/// The index of the account with this email. Under `unique_identities` the
/// witness is unique, so this picks the only one.
pub open spec fn email_index(s: Seq<AccountView>, email: Seq<char>) -> int {
    choose|i: int| 0 <= i < s.len() && s[i].email == email
}

/// The index of the account with this username.
pub open spec fn username_index(s: Seq<AccountView>, username: Seq<char>) -> int {
    choose|i: int| 0 <= i < s.len() && s[i].username == username
}

/// No two accounts share an email, and none share a username.
pub open spec fn unique_identities(s: Seq<AccountView>) -> bool {
    forall|i: int, j: int|
        0 <= i < j < s.len() ==> s[i].email != s[j].email && s[i].username != s[j].username
}

/// A single record is well-formed: its credential hash is a nonempty,
/// well-formed hash string, and a pending recovery code is a 6-digit number.
pub open spec fn account_wf(a: AccountView) -> bool {
    &&& a.password.len() > 0
    &&& is_wellformed_hash(a.password)
    &&& (a.recovery_code matches Some(c) ==> 100000 <= c < 1000000)
}

/// The store invariant: identities are unique and every record is well-formed.
pub open spec fn store_wf(s: Seq<AccountView>) -> bool {
    &&& unique_identities(s)
    &&& forall|i: int| 0 <= i < s.len() ==> account_wf(#[trigger] s[i])
}

/// Signup with an already-derived credential hash: the duplicate-email check
/// precedes the duplicate-username check (so the email error wins when both
/// collide), and on success the record is appended logged out, with no
/// recovery code pending.
pub open spec fn signup_transition(
    s: Seq<AccountView>,
    email: Seq<char>,
    username: Seq<char>,
    hash: Seq<char>,
) -> (Seq<AccountView>, Result<AccountView, AuthError>) {
    if has_email(s, email) {
        (s, Err(AuthError::DuplicateEmail))
    } else if has_username(s, username) {
        (s, Err(AuthError::DuplicateUsername))
    } else {
        let a = AccountView {
            email,
            username,
            password: hash,
            logged_in: false,
            recovery_code: None,
        };
        (s.push(a), Ok(a))
    }
}

/// Login against the account at index `i`: an absent account and a password
/// that does not verify are the same error, a caller cannot tell which field
/// was wrong; a second login without an intervening logout is refused; only a
/// successful login sets `logged_in`.
pub open spec fn login_at_transition(s: Seq<AccountView>, i: int, password: Seq<char>) -> (
    Seq<AccountView>,
    Result<LoginView, AuthError>,
)
    recommends
        0 <= i < s.len(),
{
    let a = s[i];
    if !verify_of(password, a.password) {
        (s, Err(AuthError::InvalidCredentials))
    } else if a.logged_in {
        (s, Err(AuthError::AlreadyLoggedIn))
    } else {
        (
            s.update(i, AccountView { logged_in: true, ..a }),
            Ok(LoginView { email: a.email, username: a.username }),
        )
    }
}

/// Login by email.
pub open spec fn email_login_transition(
    s: Seq<AccountView>,
    email: Seq<char>,
    password: Seq<char>,
) -> (Seq<AccountView>, Result<LoginView, AuthError>) {
    if !has_email(s, email) {
        (s, Err(AuthError::InvalidCredentials))
    } else {
        login_at_transition(s, email_index(s, email), password)
    }
}

/// Login by username.
pub open spec fn username_login_transition(
    s: Seq<AccountView>,
    username: Seq<char>,
    password: Seq<char>,
) -> (Seq<AccountView>, Result<LoginView, AuthError>) {
    if !has_username(s, username) {
        (s, Err(AuthError::InvalidCredentials))
    } else {
        login_at_transition(s, username_index(s, username), password)
    }
}

/// Logout: absent accounts and accounts that are not logged in are distinct
/// errors; only an explicit logout clears `logged_in`.
pub open spec fn signout_transition(s: Seq<AccountView>, username: Seq<char>) -> (
    Seq<AccountView>,
    Result<(), AuthError>,
) {
    if !has_username(s, username) {
        (s, Err(AuthError::NotFound))
    } else {
        let i = username_index(s, username);
        let a = s[i];
        if !a.logged_in {
            (s, Err(AuthError::NotLoggedIn))
        } else {
            (s.update(i, AccountView { logged_in: false, ..a }), Ok(()))
        }
    }
}

/// Deletion: the record is removed and its final snapshot returned.
pub open spec fn delete_transition(s: Seq<AccountView>, username: Seq<char>) -> (
    Seq<AccountView>,
    Result<AccountView, AuthError>,
) {
    if !has_username(s, username) {
        (s, Err(AuthError::NotFound))
    } else {
        let i = username_index(s, username);
        (s.remove(i), Ok(s[i]))
    }
}

/// Recovery-code issuance with the drawn code as a parameter: at most one
/// code may be outstanding per account, and issuance never overwrites a
/// pending one.
pub open spec fn issue_code_transition(s: Seq<AccountView>, username: Seq<char>, code: int) -> (
    Seq<AccountView>,
    Result<AccountView, AuthError>,
) {
    if !has_username(s, username) {
        (s, Err(AuthError::NotFound))
    } else {
        let i = username_index(s, username);
        let a = s[i];
        if a.recovery_code is Some {
            (s, Err(AuthError::RecoveryAlreadyPending))
        } else {
            let b = AccountView { recovery_code: Some(code), ..a };
            (s.update(i, b), Ok(b))
        }
    }
}

/// Under unique identities, any index whose account holds the email is the
/// one `email_index` picks.
pub proof fn lemma_email_index_unique(s: Seq<AccountView>, email: Seq<char>, i: int)
    requires
        unique_identities(s),
        0 <= i < s.len(),
        s[i].email == email,
    ensures
        has_email(s, email),
        email_index(s, email) == i,
{
    assert(has_email(s, email));
    let j = email_index(s, email);
    if i < j {
        assert(s[i].email != s[j].email);
    } else if j < i {
        assert(s[j].email != s[i].email);
    }
}

/// Under unique identities, any index whose account holds the username is the
/// one `username_index` picks.
pub proof fn lemma_username_index_unique(s: Seq<AccountView>, username: Seq<char>, i: int)
    requires
        unique_identities(s),
        0 <= i < s.len(),
        s[i].username == username,
    ensures
        has_username(s, username),
        username_index(s, username) == i,
{
    assert(has_username(s, username));
    let j = username_index(s, username);
    if i < j {
        assert(s[i].username != s[j].username);
    } else if j < i {
        assert(s[j].username != s[i].username);
    }
}

/// Appending a record with a fresh identity and a well-formed nonempty hash
/// keeps the store well-formed.
pub proof fn lemma_signup_preserves_wf(
    s: Seq<AccountView>,
    email: Seq<char>,
    username: Seq<char>,
    hash: Seq<char>,
)
    requires
        store_wf(s),
        is_wellformed_hash(hash),
        hash.len() > 0,
    ensures
        store_wf(signup_transition(s, email, username, hash).0),
{
    if !has_email(s, email) && !has_username(s, username) {
        let t = signup_transition(s, email, username, hash).0;
        assert forall|i: int, j: int| 0 <= i < j < t.len() implies t[i].email != t[j].email
            && t[i].username != t[j].username by {
            if j == s.len() {
                assert(t[i] == s[i]);
            }
        }
        assert forall|i: int| 0 <= i < t.len() implies account_wf(#[trigger] t[i]) by {
            if i < s.len() {
                assert(t[i] == s[i]);
            }
        }
    }
}

/// Replacing a record with one that keeps its email and username and is
/// itself well-formed keeps the store well-formed.
pub proof fn lemma_update_preserves_wf(s: Seq<AccountView>, i: int, a: AccountView)
    requires
        store_wf(s),
        0 <= i < s.len(),
        a.email == s[i].email,
        a.username == s[i].username,
        account_wf(a),
    ensures
        store_wf(s.update(i, a)),
{
    let t = s.update(i, a);
    assert forall|p: int, q: int| 0 <= p < q < t.len() implies t[p].email != t[q].email
        && t[p].username != t[q].username by {
        assert(s[p].email != s[q].email && s[p].username != s[q].username);
    }
}

/// Law: no two accounts ever share an email or a username. Every store
/// operation requires and re-establishes `store_wf`, so this holds at every
/// observable point, after any sequence of signups and other operations.
pub proof fn lemma_identities_unique(s: Seq<AccountView>, i: int, j: int)
    requires
        store_wf(s),
        0 <= i < s.len(),
        0 <= j < s.len(),
        i != j,
    ensures
        s[i].email != s[j].email,
        s[i].username != s[j].username,
{
}

/// Law: login never succeeds twice in a row without an intervening logout.
/// After a successful login by email, a second login attempt on the same
/// email with the same password is refused with `AlreadyLoggedIn`, and the
/// store is left as the first login left it.
pub proof fn lemma_no_double_email_login(s: Seq<AccountView>, email: Seq<char>, password: Seq<char>)
    requires
        store_wf(s),
        email_login_transition(s, email, password).1 is Ok,
    ensures
        email_login_transition(email_login_transition(s, email, password).0, email, password).1
            == Err::<LoginView, AuthError>(AuthError::AlreadyLoggedIn),
        email_login_transition(email_login_transition(s, email, password).0, email, password).0
            == email_login_transition(s, email, password).0,
{
    let i = email_index(s, email);
    let t = email_login_transition(s, email, password).0;
    assert(account_wf(s[i]));
    lemma_update_preserves_wf(s, i, t[i]);
    lemma_email_index_unique(t, email, i);
}

/// Law: login never succeeds twice in a row without an intervening logout,
/// stated for login by username.
pub proof fn lemma_no_double_username_login(
    s: Seq<AccountView>,
    username: Seq<char>,
    password: Seq<char>,
)
    requires
        store_wf(s),
        username_login_transition(s, username, password).1 is Ok,
    ensures
        username_login_transition(
            username_login_transition(s, username, password).0,
            username,
            password,
        ).1 == Err::<LoginView, AuthError>(AuthError::AlreadyLoggedIn),
        username_login_transition(
            username_login_transition(s, username, password).0,
            username,
            password,
        ).0 == username_login_transition(s, username, password).0,
{
    let i = username_index(s, username);
    let t = username_login_transition(s, username, password).0;
    assert(account_wf(s[i]));
    lemma_update_preserves_wf(s, i, t[i]);
    lemma_username_index_unique(t, username, i);
}

/// Law: an issued recovery code is never overwritten. Once issuance has
/// stored a 6-digit code, issuing again before the code is cleared is refused
/// with `RecoveryAlreadyPending`, the store is unchanged, and the pending
/// code is still the one first issued.
pub proof fn lemma_no_code_overwrite(
    s: Seq<AccountView>,
    username: Seq<char>,
    first: int,
    second: int,
)
    requires
        store_wf(s),
        100000 <= first < 1000000,
        issue_code_transition(s, username, first).1 is Ok,
    ensures
        issue_code_transition(issue_code_transition(s, username, first).0, username, second).1
            == Err::<AccountView, AuthError>(AuthError::RecoveryAlreadyPending),
        issue_code_transition(issue_code_transition(s, username, first).0, username, second).0
            == issue_code_transition(s, username, first).0,
        issue_code_transition(s, username, first).0[username_index(s, username)].recovery_code
            == Some(first),
{
    let i = username_index(s, username);
    let t = issue_code_transition(s, username, first).0;
    assert(account_wf(s[i]));
    lemma_update_preserves_wf(s, i, t[i]);
    lemma_username_index_unique(t, username, i);
}

/// Removing a record keeps the store well-formed.
pub proof fn lemma_remove_preserves_wf(s: Seq<AccountView>, i: int)
    requires
        store_wf(s),
        0 <= i < s.len(),
    ensures
        store_wf(s.remove(i)),
{
    let t = s.remove(i);
    assert forall|p: int, q: int| 0 <= p < q < t.len() implies t[p].email != t[q].email
        && t[p].username != t[q].username by {
        let p0 = if p < i { p } else { p + 1 };
        let q0 = if q < i { q } else { q + 1 };
        assert(t[p] == s[p0]);
        assert(t[q] == s[q0]);
        assert(s[p0].email != s[q0].email && s[p0].username != s[q0].username);
    }
    assert forall|p: int| 0 <= p < t.len() implies account_wf(#[trigger] t[p]) by {
        let p0 = if p < i { p } else { p + 1 };
        assert(t[p] == s[p0]);
    }
}

} // verus!
