//! The service configuration and the decisions of the one-time startup flow:
//! which required field is still missing and must be prompted for, how a
//! prompted value is merged in (secrets are hashed the moment they are
//! entered, plaintext is never kept), and whether an operator's root-password
//! attempt is accepted, retried or fatal.
//!
//! The prompting itself, the configuration file and the process exit are the
//! caller's: this module only decides.

use vstd::prelude::*;

use crate::errors::AuthError;
use crate::hash::{generate_salt, hash_password, is_wellformed_hash, verify_of, verify_password};

verus! {

/// Where the record store lives.
#[derive(Clone, Copy, Debug, PartialEq, Eq, Structural)]
pub enum DatabaseType {
    Remote,
    Local,
}

/// Process-wide configuration, assembled once at startup and immutable
/// thereafter. `root_password` and `api_key` hold credential hashes, never
/// plaintext secrets.
#[derive(Debug)]
pub struct Settings {
    pub root_user: Option<String>,
    pub root_password: Option<String>,
    pub api_key: Option<String>,
    pub database_type: Option<DatabaseType>,
    pub database_endpoint: Option<String>,
}

/// One required configuration field, in the order the startup flow asks for
/// them.
#[derive(Clone, Copy, Debug, PartialEq, Eq, Structural)]
pub enum SettingsField {
    RootUser,
    RootPassword,
    DatabaseType,
    DatabaseEndpoint,
    ApiKey,
}

/// The verdict on one root-password attempt.
#[derive(Clone, Copy, Debug, PartialEq, Eq, Structural)]
pub enum OperatorCheck {
    /// The password reproduces the stored hash: the operator is trusted.
    Verified,
    /// The password does not verify, and attempts remain.
    Retry,
    /// The stored hash is malformed, or the last attempt failed: the process
    /// must terminate rather than keep taking guesses.
    Fatal,
}

impl Clone for Settings {
    fn clone(&self) -> (r: Self)
        ensures
            r.root_user == self.root_user,
            r.root_password == self.root_password,
            r.api_key == self.api_key,
            r.database_type == self.database_type,
            r.database_endpoint == self.database_endpoint,
    {
        Settings {
            root_user: clone_field(&self.root_user),
            root_password: clone_field(&self.root_password),
            api_key: clone_field(&self.api_key),
            database_type: self.database_type,
            database_endpoint: clone_field(&self.database_endpoint),
        }
    }
}

impl Default for Settings {
    /// A configuration with every required field still missing.
    fn default() -> (r: Self)
        ensures
            r.root_user is None,
            r.root_password is None,
            r.api_key is None,
            r.database_type is None,
            r.database_endpoint is None,
    {
        Settings {
            root_user: None,
            root_password: None,
            api_key: None,
            database_type: None,
            database_endpoint: None,
        }
    }
}

fn clone_field(o: &Option<String>) -> (r: Option<String>)
    ensures
        r == *o,
{
    match o {
        Some(s) => Some(s.clone()),
        None => None,
    }
}

impl Settings {
    /// Every required field is present.
    pub open spec fn complete_spec(&self) -> bool {
        &&& self.root_user is Some
        &&& self.root_password is Some
        &&& self.api_key is Some
        &&& self.database_type is Some
        &&& self.database_endpoint is Some
    }

    /// The first required field that is still missing, in prompting order:
    /// root username, root password, database type, database endpoint,
    /// API key.
    pub open spec fn next_missing_spec(&self) -> Option<SettingsField> {
        if self.root_user is None {
            Some(SettingsField::RootUser)
        } else if self.root_password is None {
            Some(SettingsField::RootPassword)
        } else if self.database_type is None {
            Some(SettingsField::DatabaseType)
        } else if self.database_endpoint is None {
            Some(SettingsField::DatabaseEndpoint)
        } else if self.api_key is None {
            Some(SettingsField::ApiKey)
        } else {
            None
        }
    }

    /// Whether the configuration is complete.
    pub fn is_complete(&self) -> (r: bool)
        ensures
            r == self.complete_spec(),
    {
        self.root_user.is_some() && self.root_password.is_some() && self.api_key.is_some()
            && self.database_type.is_some() && self.database_endpoint.is_some()
    }

    /// The next field the startup flow must prompt for, if any.
    pub fn next_missing_field(&self) -> (r: Option<SettingsField>)
        ensures
            r == self.next_missing_spec(),
            r is None <==> self.complete_spec(),
    {
        if self.root_user.is_none() {
            Some(SettingsField::RootUser)
        } else if self.root_password.is_none() {
            Some(SettingsField::RootPassword)
        } else if self.database_type.is_none() {
            Some(SettingsField::DatabaseType)
        } else if self.database_endpoint.is_none() {
            Some(SettingsField::DatabaseEndpoint)
        } else if self.api_key.is_none() {
            Some(SettingsField::ApiKey)
        } else {
            None
        }
    }

    /// Merges one prompted value. The root username and the database endpoint
    /// are stored as entered; the root password and the API key are hashed
    /// over a fresh random salt at once (an absent entry counts as the empty
    /// secret), so no plaintext outlives this call; the database type accepts
    /// exactly "remote" and "local" and stays missing on anything else. A
    /// hashing failure changes nothing and surfaces as `HashingError`.
    pub fn fill_field(&mut self, field: SettingsField, raw: Option<String>) -> (r: Result<
        (),
        AuthError,
    >)
        ensures
            r is Err ==> r->Err_0 == AuthError::HashingError && *final(self) == *old(self) && (field
                == SettingsField::RootPassword || field == SettingsField::ApiKey),
            field == SettingsField::RootUser ==> r is Ok && final(self).root_user == raw
                && unchanged_but_root_user(old(self), final(self)),
            field == SettingsField::DatabaseEndpoint ==> r is Ok && final(self).database_endpoint
                == raw && unchanged_but_endpoint(old(self), final(self)),
            field == SettingsField::DatabaseType ==> r is Ok && final(self).database_type
                == parse_database_type(raw) && unchanged_but_database_type(old(self), final(self)),
            field == SettingsField::RootPassword && r is Ok ==> unchanged_but_root_password(
                old(self),
                final(self),
            ) && hashes_secret(entered_secret(raw), final(self).root_password),
            field == SettingsField::ApiKey && r is Ok ==> unchanged_but_api_key(
                old(self),
                final(self),
            ) && hashes_secret(entered_secret(raw), final(self).api_key),
    {
        match field {
            SettingsField::RootUser => {
                self.root_user = raw;
                Ok(())
            },
            SettingsField::DatabaseEndpoint => {
                self.database_endpoint = raw;
                Ok(())
            },
            SettingsField::DatabaseType => {
                self.database_type = parse_database_type_exec(&raw);
                Ok(())
            },
            SettingsField::RootPassword => {
                let hashed = hash_entered_secret(raw)?;
                self.root_password = Some(hashed);
                Ok(())
            },
            SettingsField::ApiKey => {
                let hashed = hash_entered_secret(raw)?;
                self.api_key = Some(hashed);
                Ok(())
            },
        }
    }
}

/// The secret the operator entered: an absent entry counts as the empty
/// secret, exactly as the prompt treats it.
pub open spec fn entered_secret(raw: Option<String>) -> Seq<char> {
    match raw {
        Some(s) => s@,
        None => Seq::empty(),
    }
}

/// The stored field holds a well-formed hash that verifies against the entered
/// secret and against nothing else.
pub open spec fn hashes_secret(secret: Seq<char>, stored: Option<String>) -> bool {
    &&& stored matches Some(h)
    &&& is_wellformed_hash(stored->0@)
    &&& verify_of(secret, stored->0@)
    &&& forall|other: Seq<char>| other != secret ==> !verify_of(other, stored->0@)
}

/// How the prompted database type reads: exactly "remote" and "local" are
/// accepted, anything else leaves the field missing.
pub open spec fn parse_database_type(raw: Option<String>) -> Option<DatabaseType> {
    match raw {
        Some(s) => if s@ == "remote"@ {
            Some(DatabaseType::Remote)
        } else if s@ == "local"@ {
            Some(DatabaseType::Local)
        } else {
            None
        },
        None => None,
    }
}

pub open spec fn unchanged_but_root_user(a: &Settings, b: &Settings) -> bool {
    &&& a.root_password == b.root_password
    &&& a.api_key == b.api_key
    &&& a.database_type == b.database_type
    &&& a.database_endpoint == b.database_endpoint
}

pub open spec fn unchanged_but_root_password(a: &Settings, b: &Settings) -> bool {
    &&& a.root_user == b.root_user
    &&& a.api_key == b.api_key
    &&& a.database_type == b.database_type
    &&& a.database_endpoint == b.database_endpoint
}

pub open spec fn unchanged_but_api_key(a: &Settings, b: &Settings) -> bool {
    &&& a.root_user == b.root_user
    &&& a.root_password == b.root_password
    &&& a.database_type == b.database_type
    &&& a.database_endpoint == b.database_endpoint
}

pub open spec fn unchanged_but_database_type(a: &Settings, b: &Settings) -> bool {
    &&& a.root_user == b.root_user
    &&& a.root_password == b.root_password
    &&& a.api_key == b.api_key
    &&& a.database_endpoint == b.database_endpoint
}

pub open spec fn unchanged_but_endpoint(a: &Settings, b: &Settings) -> bool {
    &&& a.root_user == b.root_user
    &&& a.root_password == b.root_password
    &&& a.api_key == b.api_key
    &&& a.database_type == b.database_type
}

fn parse_database_type_exec(raw: &Option<String>) -> (r: Option<DatabaseType>)
    ensures
        r == parse_database_type(*raw),
{
    match raw {
        Some(s) => {
            if *s == "remote".to_owned() {
                Some(DatabaseType::Remote)
            } else if *s == "local".to_owned() {
                Some(DatabaseType::Local)
            } else {
                None
            }
        },
        None => None,
    }
}

fn hash_entered_secret(raw: Option<String>) -> (r: Result<String, AuthError>)
    ensures
        r is Ok ==> hashes_secret(entered_secret(raw), Some(r->Ok_0)),
        r is Err ==> r->Err_0 == AuthError::HashingError,
{
    let secret = match raw {
        Some(s) => s,
        None => String::new(),
    };
    let salt = generate_salt();
    match hash_password(secret.as_str(), salt.as_str()) {
        Ok(h) => Ok(h),
        Err(_) => Err(AuthError::HashingError),
    }
}

/// One root-password attempt of the startup operator check: accepted when the
/// entered password reproduces the stored hash; fatal when the stored hash is
/// malformed or this was the last attempt; otherwise the operator may retry.
/// Three attempts in all, then the caller must terminate the process — by
/// design, a local bootstrap prompt is not worth brute-forcing.
pub fn check_root_password(entered: &str, stored_hash: &str, attempts_remaining: u32) -> (d:
    OperatorCheck)
    ensures
        d == OperatorCheck::Verified <==> is_wellformed_hash(stored_hash@) && verify_of(
            entered@,
            stored_hash@,
        ),
        d == OperatorCheck::Fatal <==> !is_wellformed_hash(stored_hash@) || (!verify_of(
            entered@,
            stored_hash@,
        ) && attempts_remaining <= 1),
{
    match verify_password(entered, stored_hash) {
        Ok(true) => OperatorCheck::Verified,
        Ok(false) => {
            if attempts_remaining <= 1 {
                OperatorCheck::Fatal
            } else {
                OperatorCheck::Retry
            }
        },
        Err(_) => OperatorCheck::Fatal,
    }
}

} // verus!
