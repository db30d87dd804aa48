//! What the store asks of the datastore, and what the datastore answers.
//!
//! The store never talks to the datastore itself. It hands out a
//! [`Request`]; whoever holds the session performs it and hands back the
//! [`Response`].

use vstd::prelude::*;
use crate::clock::Timestamp;
use crate::errors::{DatabaseFault, DatabaseFaultView, UserManagerError, UserManagerErrorView};
use crate::ident::UserId;
use crate::models::{opt_text, User, UserView};

verus! {

/// One of the thirteen statements that the repository keeps prepared.
#[derive(Clone, Copy, Debug, PartialEq, Eq, Structural, Hash)]
pub enum StatementKind {
    InsertUser,
    InsertUserByUsername,
    InsertUserByEmail,
    GetUserById,
    GetUserIdByUsername,
    GetUserIdByEmail,
    UpdateUserProfile,
    UpdateUserPassword,
    UpdateLastLogin,
    GetUserDetailsForDelete,
    DeleteUserByUsername,
    DeleteUserByEmail,
    DeleteUser,
}

/// The consistency at which the conditions of a batch are decided.
#[derive(Clone, Copy, Debug, PartialEq, Eq, Structural)]
pub enum SerialConsistency {
    Serial,
    LocalSerial,
}

/// A logged batch applies all of its statements or none, also across
/// partitions; an unlogged batch promises that within one partition only.
#[derive(Clone, Copy, Debug, PartialEq, Eq, Structural)]
pub enum BatchKind {
    Logged,
    Unlogged,
}

/// A write with its bound values, as it stands in a batch.
#[derive(Debug, PartialEq)]
pub enum Statement {
    /// Writes the canonical row, unconditionally.
    InsertUser(User),
    /// Claims the username, if no row holds it yet.
    InsertUserByUsername { username: String, user_id: UserId },
    /// Claims the email address, if no row holds it yet.
    InsertUserByEmail { email: String, user_id: UserId },
    DeleteUserByUsername { username: String },
    DeleteUserByEmail { email: String },
    DeleteUser { user_id: UserId },
}

pub enum StatementView {
    InsertUser(UserView),
    InsertUserByUsername { username: Seq<char>, user_id: UserId },
    InsertUserByEmail { email: Seq<char>, user_id: UserId },
    DeleteUserByUsername { username: Seq<char> },
    DeleteUserByEmail { email: Seq<char> },
    DeleteUser { user_id: UserId },
}

impl StatementView {
    pub open spec fn kind(self) -> StatementKind {
        match self {
            StatementView::InsertUser(_) => StatementKind::InsertUser,
            StatementView::InsertUserByUsername { .. } => StatementKind::InsertUserByUsername,
            StatementView::InsertUserByEmail { .. } => StatementKind::InsertUserByEmail,
            StatementView::DeleteUserByUsername { .. } => StatementKind::DeleteUserByUsername,
            StatementView::DeleteUserByEmail { .. } => StatementKind::DeleteUserByEmail,
            StatementView::DeleteUser { .. } => StatementKind::DeleteUser,
        }
    }
}

impl View for Statement {
    type V = StatementView;

    open spec fn view(&self) -> StatementView {
        match self {
            Statement::InsertUser(u) => StatementView::InsertUser(u@),
            Statement::InsertUserByUsername { username, user_id } => {
                StatementView::InsertUserByUsername { username: username@, user_id: *user_id }
            },
            Statement::InsertUserByEmail { email, user_id } => {
                StatementView::InsertUserByEmail { email: email@, user_id: *user_id }
            },
            Statement::DeleteUserByUsername { username } => {
                StatementView::DeleteUserByUsername { username: username@ }
            },
            Statement::DeleteUserByEmail { email } => {
                StatementView::DeleteUserByEmail { email: email@ }
            },
            Statement::DeleteUser { user_id } => StatementView::DeleteUser { user_id: *user_id },
        }
    }
}

impl Statement {
    /// The prepared statement that carries this write.
    pub fn kind(&self) -> (k: StatementKind)
        ensures
            k == self@.kind(),
    {
        match self {
            Statement::InsertUser(_) => StatementKind::InsertUser,
            Statement::InsertUserByUsername { .. } => StatementKind::InsertUserByUsername,
            Statement::InsertUserByEmail { .. } => StatementKind::InsertUserByEmail,
            Statement::DeleteUserByUsername { .. } => StatementKind::DeleteUserByUsername,
            Statement::DeleteUserByEmail { .. } => StatementKind::DeleteUserByEmail,
            Statement::DeleteUser { .. } => StatementKind::DeleteUser,
        }
    }
}

/// Statements that go to the datastore in one round trip, in this order.
#[derive(Debug, PartialEq)]
pub struct Batch {
    pub kind: BatchKind,
    pub serial_consistency: Option<SerialConsistency>,
    pub statements: Vec<Statement>,
}

pub struct BatchView {
    pub kind: BatchKind,
    pub serial_consistency: Option<SerialConsistency>,
    pub statements: Seq<StatementView>,
}

impl View for Batch {
    type V = BatchView;

    open spec fn view(&self) -> BatchView {
        BatchView {
            kind: self.kind,
            serial_consistency: self.serial_consistency,
            statements: Seq::new(self.statements@.len(), |i: int| self.statements@[i]@),
        }
    }
}

impl Batch {
    /// An empty batch of the given kind, with no serial consistency set.
    pub fn new(kind: BatchKind) -> (b: Batch)
        ensures
            b@.kind == kind,
            b@.serial_consistency is None,
            b@.statements == Seq::<StatementView>::empty(),
    {
        let b = Batch { kind, serial_consistency: None, statements: Vec::new() };
        assert(b@.statements =~= Seq::<StatementView>::empty());
        b
    }

    pub fn set_serial_consistency(&mut self, serial_consistency: Option<SerialConsistency>)
        ensures
            final(self)@.kind == old(self)@.kind,
            final(self)@.statements == old(self)@.statements,
            final(self)@.serial_consistency == serial_consistency,
    {
        self.serial_consistency = serial_consistency;
    }

    pub fn get_serial_consistency(&self) -> (sc: Option<SerialConsistency>)
        ensures
            sc == self@.serial_consistency,
    {
        self.serial_consistency
    }

    /// Puts a statement at the end of the batch.
    pub fn append_statement(&mut self, statement: Statement)
        ensures
            final(self)@.kind == old(self)@.kind,
            final(self)@.serial_consistency == old(self)@.serial_consistency,
            final(self)@.statements == old(self)@.statements.push(statement@),
    {
        self.statements.push(statement);
        assert(self@.statements =~= old(self)@.statements.push(statement@));
    }
}

/// One round trip to the datastore.
#[derive(Debug, PartialEq)]
pub enum Request {
    ExecuteBatch(Batch),
    FindUserById { user_id: UserId },
    FindUserIdByUsername { username: String },
    FindUserIdByEmail { email: String },
    FindUserDetailsForDelete { user_id: UserId },
    UpdateProfile {
        user_id: UserId,
        first_name: Option<String>,
        last_name: Option<String>,
        is_active: bool,
        email_verified: bool,
        updated_at: Timestamp,
    },
    UpdatePassword { user_id: UserId, hashed_password: String, updated_at: Timestamp },
    UpdateLastLogin { user_id: UserId, login_time: Timestamp, updated_at: Timestamp },
}

pub enum RequestView {
    ExecuteBatch(BatchView),
    FindUserById { user_id: UserId },
    FindUserIdByUsername { username: Seq<char> },
    FindUserIdByEmail { email: Seq<char> },
    FindUserDetailsForDelete { user_id: UserId },
    UpdateProfile {
        user_id: UserId,
        first_name: Option<Seq<char>>,
        last_name: Option<Seq<char>>,
        is_active: bool,
        email_verified: bool,
        updated_at: Timestamp,
    },
    UpdatePassword { user_id: UserId, hashed_password: Seq<char>, updated_at: Timestamp },
    UpdateLastLogin { user_id: UserId, login_time: Timestamp, updated_at: Timestamp },
}

impl View for Request {
    type V = RequestView;

    open spec fn view(&self) -> RequestView {
        match self {
            Request::ExecuteBatch(b) => RequestView::ExecuteBatch(b@),
            Request::FindUserById { user_id } => RequestView::FindUserById { user_id: *user_id },
            Request::FindUserIdByUsername { username } => {
                RequestView::FindUserIdByUsername { username: username@ }
            },
            Request::FindUserIdByEmail { email } => {
                RequestView::FindUserIdByEmail { email: email@ }
            },
            Request::FindUserDetailsForDelete { user_id } => {
                RequestView::FindUserDetailsForDelete { user_id: *user_id }
            },
            Request::UpdateProfile {
                user_id,
                first_name,
                last_name,
                is_active,
                email_verified,
                updated_at,
            } => RequestView::UpdateProfile {
                user_id: *user_id,
                first_name: opt_text(*first_name),
                last_name: opt_text(*last_name),
                is_active: *is_active,
                email_verified: *email_verified,
                updated_at: *updated_at,
            },
            Request::UpdatePassword { user_id, hashed_password, updated_at } => {
                RequestView::UpdatePassword {
                    user_id: *user_id,
                    hashed_password: hashed_password@,
                    updated_at: *updated_at,
                }
            },
            Request::UpdateLastLogin { user_id, login_time, updated_at } => {
                RequestView::UpdateLastLogin {
                    user_id: *user_id,
                    login_time: *login_time,
                    updated_at: *updated_at,
                }
            },
        }
    }
}

/// What came back from one round trip.
#[derive(Debug, PartialEq)]
pub enum Response {
    /// The round trip failed.
    Failed(DatabaseFault),
    /// A row came back that does not have the shape of its table.
    Undecodable(String),
    /// The batch was executed; `false` when one of its conditions was not met,
    /// in which case none of its statements was applied.
    BatchApplied(bool),
    /// The first row of a read of `users`, if there is one.
    UserRow(Option<User>),
    /// The first row of a read of a lookup table, if there is one.
    UserIdRow(Option<UserId>),
    /// Username and email of an account, if its row is there.
    IdentifiersRow(Option<(String, String)>),
    /// The write was executed.
    Written,
}

pub enum ResponseView {
    Failed(DatabaseFaultView),
    Undecodable(Seq<char>),
    BatchApplied(bool),
    UserRow(Option<UserView>),
    UserIdRow(Option<UserId>),
    IdentifiersRow(Option<(Seq<char>, Seq<char>)>),
    Written,
}

impl View for Response {
    type V = ResponseView;

    open spec fn view(&self) -> ResponseView {
        match self {
            Response::Failed(f) => ResponseView::Failed(f@),
            Response::Undecodable(d) => ResponseView::Undecodable(d@),
            Response::BatchApplied(b) => ResponseView::BatchApplied(*b),
            Response::UserRow(row) => ResponseView::UserRow(
                match row {
                    Some(u) => Some(u@),
                    None => None,
                },
            ),
            Response::UserIdRow(row) => ResponseView::UserIdRow(*row),
            Response::IdentifiersRow(row) => ResponseView::IdentifiersRow(
                match row {
                    Some(pair) => Some((pair.0@, pair.1@)),
                    None => None,
                },
            ),
            Response::Written => ResponseView::Written,
        }
    }
}

/// The error for an answer that does not belong to the request it is given
/// for.
pub open spec fn unexpected_response() -> UserManagerErrorView {
    UserManagerErrorView::DatabaseError(
        DatabaseFaultView { retryable: false, detail: "unexpected response"@ },
    )
}

impl ResponseView {
    /// The error that the answer itself carries, if it carries one.
    pub open spec fn error(self) -> Option<UserManagerErrorView> {
        match self {
            ResponseView::Failed(f) => Some(UserManagerErrorView::DatabaseError(f)),
            ResponseView::Undecodable(d) => Some(UserManagerErrorView::RowDecodeError(d)),
            _ => None,
        }
    }

    /// Read as the answer to a batch.
    pub open spec fn applied(self) -> Result<bool, UserManagerErrorView> {
        match self {
            ResponseView::BatchApplied(b) => Ok(b),
            _ => Err(
                match self.error() {
                    Some(e) => e,
                    None => unexpected_response(),
                },
            ),
        }
    }

    /// Read as the answer to a read of `users`.
    pub open spec fn user_row(self) -> Result<Option<UserView>, UserManagerErrorView> {
        match self {
            ResponseView::UserRow(row) => Ok(row),
            _ => Err(
                match self.error() {
                    Some(e) => e,
                    None => unexpected_response(),
                },
            ),
        }
    }

    /// Read as the answer to a read of a lookup table.
    pub open spec fn user_id_row(self) -> Result<Option<UserId>, UserManagerErrorView> {
        match self {
            ResponseView::UserIdRow(row) => Ok(row),
            _ => Err(
                match self.error() {
                    Some(e) => e,
                    None => unexpected_response(),
                },
            ),
        }
    }

    /// Read as the answer to a read of an account's username and email.
    pub open spec fn identifiers_row(self) -> Result<
        Option<(Seq<char>, Seq<char>)>,
        UserManagerErrorView,
    > {
        match self {
            ResponseView::IdentifiersRow(row) => Ok(row),
            _ => Err(
                match self.error() {
                    Some(e) => e,
                    None => unexpected_response(),
                },
            ),
        }
    }

    /// Read as the answer to a single write.
    pub open spec fn written(self) -> Result<(), UserManagerErrorView> {
        match self {
            ResponseView::Written => Ok(()),
            _ => Err(
                match self.error() {
                    Some(e) => e,
                    None => unexpected_response(),
                },
            ),
        }
    }
}

impl Response {
    /// The error of an answer that is not the one asked for: the failure it
    /// reports, or that it does not belong to the request.
    fn into_error(self) -> (e: UserManagerError)
        ensures
            e@ == match self@.error() {
                Some(e) => e,
                None => unexpected_response(),
            },
    {
        match self {
            Response::Failed(f) => UserManagerError::DatabaseError(f),
            Response::Undecodable(d) => UserManagerError::RowDecodeError(d),
            _ => UserManagerError::DatabaseError(
                DatabaseFault { retryable: false, detail: "unexpected response".to_owned() },
            ),
        }
    }

    /// Reads the answer to a batch: whether it was applied.
    pub fn into_applied(self) -> (r: Result<bool, UserManagerError>)
        ensures
            match r {
                Ok(b) => self@.applied() == Ok::<bool, UserManagerErrorView>(b),
                Err(e) => self@.applied() == Err::<bool, UserManagerErrorView>(e@),
            },
    {
        match self {
            Response::BatchApplied(b) => Ok(b),
            other => Err(other.into_error()),
        }
    }

    /// Reads the answer to a read of `users`: its first row, if any.
    pub fn into_user_row(self) -> (r: Result<Option<User>, UserManagerError>)
        ensures
            match r {
                Ok(Some(u)) => self@.user_row() == Ok::<Option<UserView>, UserManagerErrorView>(
                    Some(u@),
                ),
                Ok(None) => self@.user_row() == Ok::<Option<UserView>, UserManagerErrorView>(None),
                Err(e) => self@.user_row() == Err::<Option<UserView>, UserManagerErrorView>(e@),
            },
    {
        match self {
            Response::UserRow(row) => Ok(row),
            other => Err(other.into_error()),
        }
    }

    /// Reads the answer to a read of a lookup table: the owner, if any.
    pub fn into_user_id_row(self) -> (r: Result<Option<UserId>, UserManagerError>)
        ensures
            match r {
                Ok(row) => self@.user_id_row() == Ok::<Option<UserId>, UserManagerErrorView>(row),
                Err(e) => self@.user_id_row() == Err::<Option<UserId>, UserManagerErrorView>(e@),
            },
    {
        match self {
            Response::UserIdRow(row) => Ok(row),
            other => Err(other.into_error()),
        }
    }

    /// Reads the answer to a read of an account's username and email.
    pub fn into_identifiers_row(self) -> (r: Result<Option<(String, String)>, UserManagerError>)
        ensures
            match r {
                Ok(Some(pair)) => self@.identifiers_row() == Ok::<
                    Option<(Seq<char>, Seq<char>)>,
                    UserManagerErrorView,
                >(Some((pair.0@, pair.1@))),
                Ok(None) => self@.identifiers_row() == Ok::<
                    Option<(Seq<char>, Seq<char>)>,
                    UserManagerErrorView,
                >(None),
                Err(e) => self@.identifiers_row() == Err::<
                    Option<(Seq<char>, Seq<char>)>,
                    UserManagerErrorView,
                >(e@),
            },
    {
        match self {
            Response::IdentifiersRow(row) => Ok(row),
            other => Err(other.into_error()),
        }
    }

    /// Reads the answer to a single write.
    pub fn into_written(self) -> (r: Result<(), UserManagerError>)
        ensures
            match r {
                Ok(_) => self@.written() == Ok::<(), UserManagerErrorView>(()),
                Err(e) => self@.written() == Err::<(), UserManagerErrorView>(e@),
            },
    {
        match self {
            Response::Written => Ok(()),
            other => Err(other.into_error()),
        }
    }
}

} // verus!
