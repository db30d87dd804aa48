//! Accounts and the projection handed out for authentication.

use vstd::prelude::*;
use crate::clock::Timestamp;
use crate::ident::UserId;

verus! {

/// What an optional text holds, as a sequence of characters.
pub open spec fn opt_text(o: Option<String>) -> Option<Seq<char>> {
    match o {
        Some(s) => Some(s@),
        None => None,
    }
}

/// What an optional borrowed text holds.
pub open spec fn opt_str(o: Option<&str>) -> Option<Seq<char>> {
    match o {
        Some(s) => Some(s@),
        None => None,
    }
}

pub fn clone_opt_text(o: &Option<String>) -> (r: Option<String>)
    ensures
        opt_text(r) == opt_text(*o),
{
    match o {
        Some(s) => Some(s.clone()),
        None => None,
    }
}

pub fn own_opt_str(o: Option<&str>) -> (r: Option<String>)
    ensures
        opt_text(r) == opt_str(o),
{
    match o {
        Some(s) => Some(s.to_owned()),
        None => None,
    }
}

/// The canonical row of an account.
#[derive(Debug, PartialEq)]
pub struct User {
    pub user_id: UserId,
    pub username: String,
    pub email: String,
    pub hashed_password: String,
    pub first_name: Option<String>,
    pub last_name: Option<String>,
    pub is_active: bool,
    pub email_verified: bool,
    pub last_login_at: Option<Timestamp>,
    pub created_at: Timestamp,
    pub updated_at: Timestamp,
}

/// An account as a mathematical value.
pub struct UserView {
    pub user_id: UserId,
    pub username: Seq<char>,
    pub email: Seq<char>,
    pub hashed_password: Seq<char>,
    pub first_name: Option<Seq<char>>,
    pub last_name: Option<Seq<char>>,
    pub is_active: bool,
    pub email_verified: bool,
    pub last_login_at: Option<Timestamp>,
    pub created_at: Timestamp,
    pub updated_at: Timestamp,
}

impl UserView {
    /// Every timestamp lies on a millisecond boundary, and the account was
    /// not updated before it was created.
    pub open spec fn wf(self) -> bool {
        &&& self.created_at.wf() && self.created_at.is_ms_truncated()
        &&& self.updated_at.wf() && self.updated_at.is_ms_truncated()
        &&& self.created_at@ <= self.updated_at@
        &&& match self.last_login_at {
            Some(t) => t.wf() && t.is_ms_truncated(),
            None => true,
        }
    }

    /// The projection that authentication needs.
    pub open spec fn auth_details(self) -> AuthDetailsView {
        AuthDetailsView {
            user_id: self.user_id,
            username: self.username,
            email: self.email,
            hashed_password: self.hashed_password,
            is_active: self.is_active,
            email_verified: self.email_verified,
        }
    }
}

impl View for User {
    type V = UserView;

    open spec fn view(&self) -> UserView {
        UserView {
            user_id: self.user_id,
            username: self.username@,
            email: self.email@,
            hashed_password: self.hashed_password@,
            first_name: opt_text(self.first_name),
            last_name: opt_text(self.last_name),
            is_active: self.is_active,
            email_verified: self.email_verified,
            last_login_at: self.last_login_at,
            created_at: self.created_at,
            updated_at: self.updated_at,
        }
    }
}

impl Clone for User {
    fn clone(&self) -> (r: User)
        ensures
            r@ == self@,
    {
        User {
            user_id: self.user_id,
            username: self.username.clone(),
            email: self.email.clone(),
            hashed_password: self.hashed_password.clone(),
            first_name: clone_opt_text(&self.first_name),
            last_name: clone_opt_text(&self.last_name),
            is_active: self.is_active,
            email_verified: self.email_verified,
            last_login_at: self.last_login_at,
            created_at: self.created_at,
            updated_at: self.updated_at,
        }
    }
}

/// What a caller needs to verify a password and apply its own policy on
/// inactive or unverified accounts.
#[derive(Debug, PartialEq)]
pub struct AuthDetails {
    pub user_id: UserId,
    pub username: String,
    pub email: String,
    pub hashed_password: String,
    pub is_active: bool,
    pub email_verified: bool,
}

pub struct AuthDetailsView {
    pub user_id: UserId,
    pub username: Seq<char>,
    pub email: Seq<char>,
    pub hashed_password: Seq<char>,
    pub is_active: bool,
    pub email_verified: bool,
}

impl View for AuthDetails {
    type V = AuthDetailsView;

    open spec fn view(&self) -> AuthDetailsView {
        AuthDetailsView {
            user_id: self.user_id,
            username: self.username@,
            email: self.email@,
            hashed_password: self.hashed_password@,
            is_active: self.is_active,
            email_verified: self.email_verified,
        }
    }
}

impl Clone for AuthDetails {
    fn clone(&self) -> (r: AuthDetails)
        ensures
            r@ == self@,
    {
        AuthDetails {
            user_id: self.user_id,
            username: self.username.clone(),
            email: self.email.clone(),
            hashed_password: self.hashed_password.clone(),
            is_active: self.is_active,
            email_verified: self.email_verified,
        }
    }
}

impl User {
    /// Reduces the account to what authentication needs. The password hash
    /// is handed over as stored: it is not inspected here.
    pub fn into_auth_details(self) -> (d: AuthDetails)
        ensures
            d@ == self@.auth_details(),
    {
        AuthDetails {
            user_id: self.user_id,
            username: self.username,
            email: self.email,
            hashed_password: self.hashed_password,
            is_active: self.is_active,
            email_verified: self.email_verified,
        }
    }
}

} // verus!
