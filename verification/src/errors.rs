//! What the store reports when an operation does not succeed.

use vstd::prelude::*;
use crate::ident::UserId;

verus! {

/// A failure of the datastore or of the transport to it. Whether the caller
/// may try again is a property of the failure itself.
#[derive(Debug, PartialEq)]
pub struct DatabaseFault {
    pub retryable: bool,
    pub detail: String,
}

pub struct DatabaseFaultView {
    pub retryable: bool,
    pub detail: Seq<char>,
}

impl View for DatabaseFault {
    type V = DatabaseFaultView;

    open spec fn view(&self) -> DatabaseFaultView {
        DatabaseFaultView { retryable: self.retryable, detail: self.detail@ }
    }
}

/// Errors of the create, read, update and delete operations.
#[derive(Debug, PartialEq)]
pub enum UserManagerError {
    /// No row for the supplied key.
    UserNotFound,
    /// Another account owns this username.
    UsernameTaken(String),
    /// Another account owns this email address.
    EmailTaken(String),
    /// The conditional inserts were refused, yet neither lookup found the
    /// owner: a concurrent writer lost its own race in between.
    UsernameOrEmailTaken,
    /// A lookup row points at an account whose canonical row is missing.
    InconsistentData(UserId),
    /// A stored row did not have the shape of its table.
    RowDecodeError(String),
    /// Any other failure of the datastore.
    DatabaseError(DatabaseFault),
}

pub enum UserManagerErrorView {
    UserNotFound,
    UsernameTaken(Seq<char>),
    EmailTaken(Seq<char>),
    UsernameOrEmailTaken,
    InconsistentData(UserId),
    RowDecodeError(Seq<char>),
    DatabaseError(DatabaseFaultView),
}

impl View for UserManagerError {
    type V = UserManagerErrorView;

    open spec fn view(&self) -> UserManagerErrorView {
        match self {
            UserManagerError::UserNotFound => UserManagerErrorView::UserNotFound,
            UserManagerError::UsernameTaken(s) => UserManagerErrorView::UsernameTaken(s@),
            UserManagerError::EmailTaken(s) => UserManagerErrorView::EmailTaken(s@),
            UserManagerError::UsernameOrEmailTaken => UserManagerErrorView::UsernameOrEmailTaken,
            UserManagerError::InconsistentData(id) => UserManagerErrorView::InconsistentData(*id),
            UserManagerError::RowDecodeError(s) => UserManagerErrorView::RowDecodeError(s@),
            UserManagerError::DatabaseError(f) => UserManagerErrorView::DatabaseError(f@),
        }
    }
}

/// Errors of the authentication lookup. The store itself never reports an
/// inactive or unverified account: those two are for callers that enforce
/// such a policy on the details they were handed.
#[derive(Debug, PartialEq)]
pub enum AuthenticationError {
    UserNotFound,
    AccountNotActive,
    EmailNotVerified,
    DatabaseError(UserManagerError),
}

pub enum AuthenticationErrorView {
    UserNotFound,
    AccountNotActive,
    EmailNotVerified,
    DatabaseError(UserManagerErrorView),
}

impl View for AuthenticationError {
    type V = AuthenticationErrorView;

    open spec fn view(&self) -> AuthenticationErrorView {
        match self {
            AuthenticationError::UserNotFound => AuthenticationErrorView::UserNotFound,
            AuthenticationError::AccountNotActive => AuthenticationErrorView::AccountNotActive,
            AuthenticationError::EmailNotVerified => AuthenticationErrorView::EmailNotVerified,
            AuthenticationError::DatabaseError(e) => AuthenticationErrorView::DatabaseError(e@),
        }
    }
}

impl UserManagerError {
    /// Whether trying the operation again can help: only a failure of the
    /// datastore that itself says so.
    pub fn is_retryable(&self) -> (b: bool)
        ensures
            b == match self@ {
                UserManagerErrorView::DatabaseError(f) => f.retryable,
                _ => false,
            },
    {
        match self {
            UserManagerError::DatabaseError(f) => f.retryable,
            _ => false,
        }
    }
}

} // verus!
