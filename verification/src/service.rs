//! The account service: every operation as a sequence of round trips.
//!
//! An operation starts with a [`Step`] that asks for a round trip. The caller
//! performs it and resumes the operation with the answer, until the step
//! says that the operation has finished. Between two steps the service keeps
//! nothing: what an operation still needs travels in its [`Pending`] value.

use vstd::prelude::*;
use crate::clock::{now_millis, Timestamp};
use crate::errors::{
    AuthenticationError,
    AuthenticationErrorView,
    UserManagerError,
    UserManagerErrorView,
};
use crate::gateway::{
    Batch,
    BatchKind,
    BatchView,
    Request,
    RequestView,
    Response,
    ResponseView,
    SerialConsistency,
    StatementView,
};
use crate::ident::UserId;
use crate::models::{opt_str, opt_text, own_opt_str, AuthDetails, AuthDetailsView, User, UserView};
use crate::repository::UserRepository;
use crate::text::contains_char;

verus! {

/// The keyspace of the account tables.
pub const KEYSPACE: &'static str = "collaborate_core";

/// How an operation ended.
#[derive(Debug, PartialEq)]
pub enum Outcome {
    /// The account as it now stands: after a create or a profile update.
    Account(User),
    /// The account that a read found, if there is one.
    Found(Option<User>),
    /// The details for authentication.
    Authenticated(AuthDetails),
    /// The write went through.
    Done,
    Failed(UserManagerError),
    AuthenticationFailed(AuthenticationError),
}

pub enum OutcomeView {
    Account(UserView),
    Found(Option<UserView>),
    Authenticated(AuthDetailsView),
    Done,
    Failed(UserManagerErrorView),
    AuthenticationFailed(AuthenticationErrorView),
}

impl View for Outcome {
    type V = OutcomeView;

    open spec fn view(&self) -> OutcomeView {
        match self {
            Outcome::Account(u) => OutcomeView::Account(u@),
            Outcome::Found(row) => OutcomeView::Found(
                match row {
                    Some(u) => Some(u@),
                    None => None,
                },
            ),
            Outcome::Authenticated(d) => OutcomeView::Authenticated(d@),
            Outcome::Done => OutcomeView::Done,
            Outcome::Failed(e) => OutcomeView::Failed(e@),
            Outcome::AuthenticationFailed(e) => OutcomeView::AuthenticationFailed(e@),
        }
    }
}

/// What an operation waits for, and what it needs to go on.
#[derive(Debug, PartialEq)]
pub enum Pending {
    /// The create batch is out.
    CreateBatch { user: User },
    /// The create batch was refused; the owner of the username is asked for.
    CreateUsernameLookup { username: String, email: String },
    /// Nobody owns the username; the owner of the email is asked for.
    CreateEmailLookup { email: String },
    /// A canonical row is asked for by its key.
    ReadUser,
    /// The owner of a username or an email is asked for.
    ReadOwner { for_authentication: bool },
    /// The canonical row of the owner that a lookup named is asked for.
    ReadOwned { user_id: UserId, for_authentication: bool },
    /// The account that a patch applies to is asked for.
    ProfileRead {
        user_id: UserId,
        first_name: Option<String>,
        last_name: Option<String>,
        is_active: Option<bool>,
        email_verified: Option<bool>,
    },
    /// The patched profile is being written.
    ProfileWrite { user: User },
    /// A single write is out.
    Write,
    /// The username and email of the account to delete are asked for.
    DeleteIdentifiers { user_id: UserId },
    /// The delete batch is out.
    DeleteBatch,
}

pub enum PendingView {
    CreateBatch { user: UserView },
    CreateUsernameLookup { username: Seq<char>, email: Seq<char> },
    CreateEmailLookup { email: Seq<char> },
    ReadUser,
    ReadOwner { for_authentication: bool },
    ReadOwned { user_id: UserId, for_authentication: bool },
    ProfileRead {
        user_id: UserId,
        first_name: Option<Seq<char>>,
        last_name: Option<Seq<char>>,
        is_active: Option<bool>,
        email_verified: Option<bool>,
    },
    ProfileWrite { user: UserView },
    Write,
    DeleteIdentifiers { user_id: UserId },
    DeleteBatch,
}

impl View for Pending {
    type V = PendingView;

    open spec fn view(&self) -> PendingView {
        match self {
            Pending::CreateBatch { user } => PendingView::CreateBatch { user: user@ },
            Pending::CreateUsernameLookup { username, email } => {
                PendingView::CreateUsernameLookup { username: username@, email: email@ }
            },
            Pending::CreateEmailLookup { email } => PendingView::CreateEmailLookup {
                email: email@,
            },
            Pending::ReadUser => PendingView::ReadUser,
            Pending::ReadOwner { for_authentication } => PendingView::ReadOwner {
                for_authentication: *for_authentication,
            },
            Pending::ReadOwned { user_id, for_authentication } => PendingView::ReadOwned {
                user_id: *user_id,
                for_authentication: *for_authentication,
            },
            Pending::ProfileRead { user_id, first_name, last_name, is_active, email_verified } => {
                PendingView::ProfileRead {
                    user_id: *user_id,
                    first_name: opt_text(*first_name),
                    last_name: opt_text(*last_name),
                    is_active: *is_active,
                    email_verified: *email_verified,
                }
            },
            Pending::ProfileWrite { user } => PendingView::ProfileWrite { user: user@ },
            Pending::Write => PendingView::Write,
            Pending::DeleteIdentifiers { user_id } => PendingView::DeleteIdentifiers {
                user_id: *user_id,
            },
            Pending::DeleteBatch => PendingView::DeleteBatch,
        }
    }
}

/// Where an operation stands: it asks for a round trip, or it has finished.
#[derive(Debug, PartialEq)]
pub enum Step {
    Ask { request: Request, pending: Pending },
    Finished(Outcome),
}

pub enum StepView {
    Ask { request: RequestView, pending: PendingView },
    Finished(OutcomeView),
}

impl View for Step {
    type V = StepView;

    open spec fn view(&self) -> StepView {
        match self {
            Step::Ask { request, pending } => StepView::Ask {
                request: request@,
                pending: pending@,
            },
            Step::Finished(outcome) => StepView::Finished(outcome@),
        }
    }
}

/// The account that a create writes: no login yet, created and updated at
/// the same instant.
pub open spec fn new_account(
    user_id: UserId,
    now: Timestamp,
    username: Seq<char>,
    email: Seq<char>,
    hashed_password: Seq<char>,
    first_name: Option<Seq<char>>,
    last_name: Option<Seq<char>>,
    is_active: bool,
    email_verified: bool,
) -> UserView {
    UserView {
        user_id,
        username,
        email,
        hashed_password,
        first_name,
        last_name,
        is_active,
        email_verified,
        last_login_at: None,
        created_at: now.truncated(),
        updated_at: now.truncated(),
    }
}

/// The batch of a create: both claims, each conditional on its key being
/// free, then the canonical row; logged, so that all three apply or none.
pub open spec fn create_batch(user: UserView) -> BatchView {
    BatchView {
        kind: BatchKind::Logged,
        serial_consistency: Some(SerialConsistency::LocalSerial),
        statements: seq![
            StatementView::InsertUserByUsername { username: user.username, user_id: user.user_id },
            StatementView::InsertUserByEmail { email: user.email, user_id: user.user_id },
            StatementView::InsertUser(user),
        ],
    }
}

/// The batch of a delete: both lookup rows, then the canonical row.
pub open spec fn delete_batch(username: Seq<char>, email: Seq<char>, user_id: UserId) -> BatchView {
    BatchView {
        kind: BatchKind::Unlogged,
        serial_consistency: None,
        statements: seq![
            StatementView::DeleteUserByUsername { username },
            StatementView::DeleteUserByEmail { email },
            StatementView::DeleteUser { user_id },
        ],
    }
}

/// An account with a patch laid over it: a field that the patch names takes
/// the patch's value, every other field stays.
pub open spec fn patched(
    user: UserView,
    first_name: Option<Seq<char>>,
    last_name: Option<Seq<char>>,
    is_active: Option<bool>,
    email_verified: Option<bool>,
    updated_at: Timestamp,
) -> UserView {
    UserView {
        first_name: if first_name is Some {
            first_name
        } else {
            user.first_name
        },
        last_name: if last_name is Some {
            last_name
        } else {
            user.last_name
        },
        is_active: match is_active {
            Some(b) => b,
            None => user.is_active,
        },
        email_verified: match email_verified {
            Some(b) => b,
            None => user.email_verified,
        },
        updated_at,
        ..user
    }
}

/// How a read ends on an error, for a plain read and for authentication.
pub open spec fn read_failed(for_authentication: bool, e: UserManagerErrorView) -> OutcomeView {
    if for_authentication {
        OutcomeView::AuthenticationFailed(AuthenticationErrorView::DatabaseError(e))
    } else {
        OutcomeView::Failed(e)
    }
}

/// How a read ends when nobody owns the key.
pub open spec fn read_missed(for_authentication: bool) -> OutcomeView {
    if for_authentication {
        OutcomeView::AuthenticationFailed(AuthenticationErrorView::UserNotFound)
    } else {
        OutcomeView::Found(None)
    }
}

/// How a read ends on the account it found.
pub open spec fn read_hit(for_authentication: bool, user: UserView) -> OutcomeView {
    if for_authentication {
        OutcomeView::Authenticated(user.auth_details())
    } else {
        OutcomeView::Found(Some(user))
    }
}

/// The step that follows when an operation that waits in `pending` is given
/// `response`, with the clock reading `now`.
pub open spec fn resume_spec(pending: PendingView, response: ResponseView, now: Timestamp) -> StepView {
    match pending {
        PendingView::CreateBatch { user } => match response.applied() {
            Err(e) => StepView::Finished(OutcomeView::Failed(e)),
            Ok(true) => StepView::Finished(OutcomeView::Account(user)),
            Ok(false) => StepView::Ask {
                request: RequestView::FindUserIdByUsername { username: user.username },
                pending: PendingView::CreateUsernameLookup {
                    username: user.username,
                    email: user.email,
                },
            },
        },
        PendingView::CreateUsernameLookup { username, email } => match response.user_id_row() {
            Err(e) => StepView::Finished(OutcomeView::Failed(e)),
            Ok(Some(_)) => StepView::Finished(
                OutcomeView::Failed(UserManagerErrorView::UsernameTaken(username)),
            ),
            Ok(None) => StepView::Ask {
                request: RequestView::FindUserIdByEmail { email },
                pending: PendingView::CreateEmailLookup { email },
            },
        },
        PendingView::CreateEmailLookup { email } => match response.user_id_row() {
            Err(e) => StepView::Finished(OutcomeView::Failed(e)),
            Ok(Some(_)) => StepView::Finished(
                OutcomeView::Failed(UserManagerErrorView::EmailTaken(email)),
            ),
            Ok(None) => StepView::Finished(
                OutcomeView::Failed(UserManagerErrorView::UsernameOrEmailTaken),
            ),
        },
        PendingView::ReadUser => match response.user_row() {
            Err(e) => StepView::Finished(OutcomeView::Failed(e)),
            Ok(row) => StepView::Finished(OutcomeView::Found(row)),
        },
        PendingView::ReadOwner { for_authentication } => match response.user_id_row() {
            Err(e) => StepView::Finished(read_failed(for_authentication, e)),
            Ok(None) => StepView::Finished(read_missed(for_authentication)),
            Ok(Some(user_id)) => StepView::Ask {
                request: RequestView::FindUserById { user_id },
                pending: PendingView::ReadOwned { user_id, for_authentication },
            },
        },
        PendingView::ReadOwned { user_id, for_authentication } => match response.user_row() {
            Err(e) => StepView::Finished(read_failed(for_authentication, e)),
            Ok(None) => StepView::Finished(
                read_failed(for_authentication, UserManagerErrorView::InconsistentData(user_id)),
            ),
            Ok(Some(user)) => StepView::Finished(read_hit(for_authentication, user)),
        },
        PendingView::ProfileRead { user_id, first_name, last_name, is_active, email_verified } => {
            match response.user_row() {
                Err(e) => StepView::Finished(OutcomeView::Failed(e)),
                Ok(None) => StepView::Finished(
                    OutcomeView::Failed(UserManagerErrorView::UserNotFound),
                ),
                Ok(Some(current)) => {
                    let user = patched(
                        current,
                        first_name,
                        last_name,
                        is_active,
                        email_verified,
                        now.truncated(),
                    );
                    StepView::Ask {
                        request: RequestView::UpdateProfile {
                            user_id,
                            first_name: user.first_name,
                            last_name: user.last_name,
                            is_active: user.is_active,
                            email_verified: user.email_verified,
                            updated_at: user.updated_at,
                        },
                        pending: PendingView::ProfileWrite { user },
                    }
                },
            }
        },
        PendingView::ProfileWrite { user } => match response.written() {
            Err(e) => StepView::Finished(OutcomeView::Failed(e)),
            Ok(_) => StepView::Finished(OutcomeView::Account(user)),
        },
        PendingView::Write => match response.written() {
            Err(e) => StepView::Finished(OutcomeView::Failed(e)),
            Ok(_) => StepView::Finished(OutcomeView::Done),
        },
        PendingView::DeleteIdentifiers { user_id } => match response.identifiers_row() {
            Err(e) => StepView::Finished(OutcomeView::Failed(e)),
            Ok(None) => StepView::Finished(OutcomeView::Failed(UserManagerErrorView::UserNotFound)),
            Ok(Some(pair)) => StepView::Ask {
                request: RequestView::ExecuteBatch(delete_batch(pair.0, pair.1, user_id)),
                pending: PendingView::DeleteBatch,
            },
        },
        PendingView::DeleteBatch => match response.applied() {
            Err(e) => StepView::Finished(OutcomeView::Failed(e)),
            Ok(_) => StepView::Finished(OutcomeView::Done),
        },
    }
}

/// The first step of a create.
pub open spec fn create_step(user: UserView) -> StepView {
    StepView::Ask {
        request: RequestView::ExecuteBatch(create_batch(user)),
        pending: PendingView::CreateBatch { user },
    }
}

/// The first step of a read by identifier.
pub open spec fn read_by_id_step(user_id: UserId) -> StepView {
    StepView::Ask { request: RequestView::FindUserById { user_id }, pending: PendingView::ReadUser }
}

/// The first step of a read by username.
pub open spec fn read_by_username_step(username: Seq<char>, for_authentication: bool) -> StepView {
    StepView::Ask {
        request: RequestView::FindUserIdByUsername { username },
        pending: PendingView::ReadOwner { for_authentication },
    }
}

/// The first step of a read by email.
pub open spec fn read_by_email_step(email: Seq<char>, for_authentication: bool) -> StepView {
    StepView::Ask {
        request: RequestView::FindUserIdByEmail { email },
        pending: PendingView::ReadOwner { for_authentication },
    }
}

/// The first step of an authentication lookup: an identifier that holds an
/// `@` is an email address, any other is a username.
pub open spec fn authentication_step(identifier: Seq<char>) -> StepView {
    if identifier.contains('@') {
        read_by_email_step(identifier, true)
    } else {
        read_by_username_step(identifier, true)
    }
}

/// The first step of a profile update.
pub open spec fn update_profile_step(
    user_id: UserId,
    first_name: Option<Seq<char>>,
    last_name: Option<Seq<char>>,
    is_active: Option<bool>,
    email_verified: Option<bool>,
) -> StepView {
    StepView::Ask {
        request: RequestView::FindUserById { user_id },
        pending: PendingView::ProfileRead {
            user_id,
            first_name,
            last_name,
            is_active,
            email_verified,
        },
    }
}

/// The only step of a password update.
pub open spec fn update_password_step(
    user_id: UserId,
    hashed_password: Seq<char>,
    now: Timestamp,
) -> StepView {
    StepView::Ask {
        request: RequestView::UpdatePassword {
            user_id,
            hashed_password,
            updated_at: now.truncated(),
        },
        pending: PendingView::Write,
    }
}

/// The only step of a login stamp.
pub open spec fn update_last_login_step(user_id: UserId, now: Timestamp) -> StepView {
    StepView::Ask {
        request: RequestView::UpdateLastLogin {
            user_id,
            login_time: now.truncated(),
            updated_at: now.truncated(),
        },
        pending: PendingView::Write,
    }
}

/// The first step of a delete.
pub open spec fn delete_step(user_id: UserId) -> StepView {
    StepView::Ask {
        request: RequestView::FindUserDetailsForDelete { user_id },
        pending: PendingView::DeleteIdentifiers { user_id },
    }
}

fn finish_read_failed(for_authentication: bool, e: UserManagerError) -> (step: Step)
    ensures
        step@ == StepView::Finished(read_failed(for_authentication, e@)),
{
    if for_authentication {
        Step::Finished(Outcome::AuthenticationFailed(AuthenticationError::DatabaseError(e)))
    } else {
        Step::Finished(Outcome::Failed(e))
    }
}

/// The account service.
#[derive(Debug)]
pub struct UserManager {
    repository: UserRepository,
}

impl Clone for UserManager {
    fn clone(&self) -> (manager: UserManager)
        ensures
            manager.keyspace_view() == self.keyspace_view(),
    {
        UserManager { repository: self.repository.clone() }
    }
}

impl UserManager {
    /// The keyspace of the tables that the service addresses.
    pub closed spec fn keyspace_view(&self) -> Seq<char> {
        self.repository.keyspace_view()
    }

    /// The service over the tables of [`KEYSPACE`].
    pub fn new() -> (manager: UserManager)
        ensures
            manager.keyspace_view() == KEYSPACE@,
    {
        UserManager { repository: UserRepository::new(KEYSPACE) }
    }

    /// The service over the tables that a repository addresses.
    pub fn with_repository(repository: UserRepository) -> (manager: UserManager)
        ensures
            manager.keyspace_view() == repository.keyspace_view(),
    {
        UserManager { repository }
    }

    /// The statements that the service composes its round trips from.
    pub fn repository(&self) -> (repository: &UserRepository)
        ensures
            repository.keyspace_view() == self.keyspace_view(),
    {
        &self.repository
    }

    /// Starts a create with a given identifier and clock reading.
    pub fn create_user_at(
        &self,
        user_id: UserId,
        now: Timestamp,
        username: &str,
        email: &str,
        hashed_password: &str,
        first_name: Option<&str>,
        last_name: Option<&str>,
        is_active: bool,
        email_verified: bool,
    ) -> (step: Step)
        ensures
            step@ == create_step(
                new_account(
                    user_id,
                    now,
                    username@,
                    email@,
                    hashed_password@,
                    opt_str(first_name),
                    opt_str(last_name),
                    is_active,
                    email_verified,
                ),
            ),
    {
        let created_at = now.trunc_to_millis();
        let mut batch = Batch::new(BatchKind::Logged);
        batch.set_serial_consistency(Some(SerialConsistency::LocalSerial));
        self.repository.add_insert_user_by_username_to_batch(&mut batch, username, user_id);
        self.repository.add_insert_user_by_email_to_batch(&mut batch, email, user_id);
        self.repository.add_insert_user_to_batch(
            &mut batch,
            user_id,
            username,
            email,
            hashed_password,
            first_name,
            last_name,
            is_active,
            email_verified,
            created_at,
            created_at,
            None,
        );
        let user = User {
            user_id,
            username: username.to_owned(),
            email: email.to_owned(),
            hashed_password: hashed_password.to_owned(),
            first_name: own_opt_str(first_name),
            last_name: own_opt_str(last_name),
            is_active,
            email_verified,
            last_login_at: None,
            created_at,
            updated_at: created_at,
        };
        proof {
            assert(batch@.statements =~= create_batch(user@).statements);
        }
        Step::Ask {
            request: self.repository.execute_batch(batch),
            pending: Pending::CreateBatch { user },
        }
    }

    /// Starts a create: draws a fresh random identifier, reads the clock, and
    /// asks for the batch that claims the username and the email and writes
    /// the account.
    pub fn create_user(
        &self,
        username: &str,
        email: &str,
        hashed_password: &str,
        first_name: Option<&str>,
        last_name: Option<&str>,
        is_active: bool,
        email_verified: bool,
    ) -> (step: Step)
        ensures
            exists|user_id: UserId, now: Timestamp|
                crate::ident::is_random_uuid(user_id.value) && now.wf() && step@ == create_step(
                    #[trigger] new_account(
                        user_id,
                        now,
                        username@,
                        email@,
                        hashed_password@,
                        opt_str(first_name),
                        opt_str(last_name),
                        is_active,
                        email_verified,
                    ),
                ),
    {
        let user_id = UserId::generate();
        let now = now_millis();
        self.create_user_at(
            user_id,
            now,
            username,
            email,
            hashed_password,
            first_name,
            last_name,
            is_active,
            email_verified,
        )
    }

    /// Starts the read of an account by its identifier.
    pub fn get_user_by_id(&self, user_id: UserId) -> (step: Step)
        ensures
            step@ == read_by_id_step(user_id),
    {
        Step::Ask { request: self.repository.find_user_by_id(user_id), pending: Pending::ReadUser }
    }

    /// Starts the read of an account by its username.
    pub fn get_user_by_username(&self, username: &str) -> (step: Step)
        ensures
            step@ == read_by_username_step(username@, false),
    {
        Step::Ask {
            request: self.repository.find_user_id_by_username(username),
            pending: Pending::ReadOwner { for_authentication: false },
        }
    }

    /// Starts the read of an account by its email address.
    pub fn get_user_by_email(&self, email: &str) -> (step: Step)
        ensures
            step@ == read_by_email_step(email@, false),
    {
        Step::Ask {
            request: self.repository.find_user_id_by_email(email),
            pending: Pending::ReadOwner { for_authentication: false },
        }
    }

    /// Starts the lookup of what authentication needs, by username or by
    /// email address.
    pub fn get_user_for_authentication(&self, identifier: &str) -> (step: Step)
        ensures
            step@ == authentication_step(identifier@),
    {
        if contains_char(identifier, '@') {
            Step::Ask {
                request: self.repository.find_user_id_by_email(identifier),
                pending: Pending::ReadOwner { for_authentication: true },
            }
        } else {
            Step::Ask {
                request: self.repository.find_user_id_by_username(identifier),
                pending: Pending::ReadOwner { for_authentication: true },
            }
        }
    }

    /// Starts a profile update: the fields that are given replace the
    /// account's, the others stay.
    pub fn update_user_profile(
        &self,
        user_id: UserId,
        first_name: Option<String>,
        last_name: Option<String>,
        is_active: Option<bool>,
        email_verified: Option<bool>,
    ) -> (step: Step)
        ensures
            step@ == update_profile_step(
                user_id,
                opt_text(first_name),
                opt_text(last_name),
                is_active,
                email_verified,
            ),
    {
        Step::Ask {
            request: self.repository.find_user_by_id(user_id),
            pending: Pending::ProfileRead {
                user_id,
                first_name,
                last_name,
                is_active,
                email_verified,
            },
        }
    }

    /// Starts a password update with a given clock reading.
    pub fn update_user_password_at(
        &self,
        user_id: UserId,
        new_hashed_password: &str,
        now: Timestamp,
    ) -> (step: Step)
        ensures
            step@ == update_password_step(user_id, new_hashed_password@, now),
    {
        Step::Ask {
            request: self.repository.update_password_direct(
                user_id,
                new_hashed_password,
                now.trunc_to_millis(),
            ),
            pending: Pending::Write,
        }
    }

    /// Starts a password update. The hash is written as given: whether the
    /// caller knew the old password is the caller's matter.
    pub fn update_user_password(&self, user_id: UserId, new_hashed_password: &str) -> (step: Step)
        ensures
            exists|now: Timestamp|
                now.wf() && step@ == #[trigger] update_password_step(
                    user_id,
                    new_hashed_password@,
                    now,
                ),
    {
        let now = now_millis();
        self.update_user_password_at(user_id, new_hashed_password, now)
    }

    /// Starts a login stamp with a given clock reading.
    pub fn update_last_login_at(&self, user_id: UserId, now: Timestamp) -> (step: Step)
        ensures
            step@ == update_last_login_step(user_id, now),
    {
        let at = now.trunc_to_millis();
        Step::Ask {
            request: self.repository.update_last_login_direct(user_id, at, at),
            pending: Pending::Write,
        }
    }

    /// Starts a login stamp.
    pub fn update_last_login(&self, user_id: UserId) -> (step: Step)
        ensures
            exists|now: Timestamp|
                now.wf() && step@ == #[trigger] update_last_login_step(user_id, now),
    {
        let now = now_millis();
        self.update_last_login_at(user_id, now)
    }

    /// Starts a delete.
    pub fn delete_user(&self, user_id: UserId) -> (step: Step)
        ensures
            step@ == delete_step(user_id),
    {
        Step::Ask {
            request: self.repository.find_user_details_for_delete(user_id),
            pending: Pending::DeleteIdentifiers { user_id },
        }
    }

    /// Takes an operation one step on, with a given clock reading.
    pub fn resume_at(&self, pending: Pending, response: Response, now: Timestamp) -> (step: Step)
        ensures
            step@ == resume_spec(pending@, response@, now),
    {
        match pending {
            Pending::CreateBatch { user } => match response.into_applied() {
                Err(e) => Step::Finished(Outcome::Failed(e)),
                Ok(true) => Step::Finished(Outcome::Account(user)),
                Ok(false) => Step::Ask {
                    request: self.repository.find_user_id_by_username(user.username.as_str()),
                    pending: Pending::CreateUsernameLookup {
                        username: user.username,
                        email: user.email,
                    },
                },
            },
            Pending::CreateUsernameLookup { username, email } => match response.into_user_id_row() {
                Err(e) => Step::Finished(Outcome::Failed(e)),
                Ok(Some(_)) => Step::Finished(
                    Outcome::Failed(UserManagerError::UsernameTaken(username)),
                ),
                Ok(None) => Step::Ask {
                    request: self.repository.find_user_id_by_email(email.as_str()),
                    pending: Pending::CreateEmailLookup { email },
                },
            },
            Pending::CreateEmailLookup { email } => match response.into_user_id_row() {
                Err(e) => Step::Finished(Outcome::Failed(e)),
                Ok(Some(_)) => Step::Finished(Outcome::Failed(UserManagerError::EmailTaken(email))),
                Ok(None) => Step::Finished(Outcome::Failed(UserManagerError::UsernameOrEmailTaken)),
            },
            Pending::ReadUser => match response.into_user_row() {
                Err(e) => Step::Finished(Outcome::Failed(e)),
                Ok(row) => Step::Finished(Outcome::Found(row)),
            },
            Pending::ReadOwner { for_authentication } => match response.into_user_id_row() {
                Err(e) => finish_read_failed(for_authentication, e),
                Ok(None) => {
                    if for_authentication {
                        Step::Finished(
                            Outcome::AuthenticationFailed(AuthenticationError::UserNotFound),
                        )
                    } else {
                        Step::Finished(Outcome::Found(None))
                    }
                },
                Ok(Some(user_id)) => Step::Ask {
                    request: self.repository.find_user_by_id(user_id),
                    pending: Pending::ReadOwned { user_id, for_authentication },
                },
            },
            Pending::ReadOwned { user_id, for_authentication } => match response.into_user_row() {
                Err(e) => finish_read_failed(for_authentication, e),
                Ok(None) => finish_read_failed(
                    for_authentication,
                    UserManagerError::InconsistentData(user_id),
                ),
                Ok(Some(user)) => {
                    if for_authentication {
                        Step::Finished(Outcome::Authenticated(user.into_auth_details()))
                    } else {
                        Step::Finished(Outcome::Found(Some(user)))
                    }
                },
            },
            Pending::ProfileRead { user_id, first_name, last_name, is_active, email_verified } => {
                match response.into_user_row() {
                    Err(e) => Step::Finished(Outcome::Failed(e)),
                    Ok(None) => Step::Finished(Outcome::Failed(UserManagerError::UserNotFound)),
                    Ok(Some(current)) => {
                        let user = User {
                            user_id: current.user_id,
                            username: current.username,
                            email: current.email,
                            hashed_password: current.hashed_password,
                            first_name: if first_name.is_some() {
                                first_name
                            } else {
                                current.first_name
                            },
                            last_name: if last_name.is_some() {
                                last_name
                            } else {
                                current.last_name
                            },
                            is_active: match is_active {
                                Some(b) => b,
                                None => current.is_active,
                            },
                            email_verified: match email_verified {
                                Some(b) => b,
                                None => current.email_verified,
                            },
                            last_login_at: current.last_login_at,
                            created_at: current.created_at,
                            updated_at: now.trunc_to_millis(),
                        };
                        let request = self.repository.update_profile_direct(
                            user_id,
                            match &user.first_name {
                                Some(s) => Some(s.as_str()),
                                None => None,
                            },
                            match &user.last_name {
                                Some(s) => Some(s.as_str()),
                                None => None,
                            },
                            user.is_active,
                            user.email_verified,
                            user.updated_at,
                        );
                        Step::Ask { request, pending: Pending::ProfileWrite { user } }
                    },
                }
            },
            Pending::ProfileWrite { user } => match response.into_written() {
                Err(e) => Step::Finished(Outcome::Failed(e)),
                Ok(_) => Step::Finished(Outcome::Account(user)),
            },
            Pending::Write => match response.into_written() {
                Err(e) => Step::Finished(Outcome::Failed(e)),
                Ok(_) => Step::Finished(Outcome::Done),
            },
            Pending::DeleteIdentifiers { user_id } => match response.into_identifiers_row() {
                Err(e) => Step::Finished(Outcome::Failed(e)),
                Ok(None) => Step::Finished(Outcome::Failed(UserManagerError::UserNotFound)),
                Ok(Some(pair)) => {
                    let mut batch = Batch::new(BatchKind::Unlogged);
                    self.repository.add_delete_user_by_username_to_batch(
                        &mut batch,
                        pair.0.as_str(),
                    );
                    self.repository.add_delete_user_by_email_to_batch(&mut batch, pair.1.as_str());
                    self.repository.add_delete_user_to_batch(&mut batch, user_id);
                    proof {
                        assert(batch@.statements =~= delete_batch(
                            pair.0@,
                            pair.1@,
                            user_id,
                        ).statements);
                    }
                    Step::Ask {
                        request: self.repository.execute_batch(batch),
                        pending: Pending::DeleteBatch,
                    }
                },
            },
            Pending::DeleteBatch => match response.into_applied() {
                Err(e) => Step::Finished(Outcome::Failed(e)),
                Ok(_) => Step::Finished(Outcome::Done),
            },
        }
    }

    /// Takes an operation one step on. The clock is read for the step: a
    /// step that stamps a row stamps it with that reading.
    pub fn resume(&self, pending: Pending, response: Response) -> (step: Step)
        ensures
            exists|now: Timestamp|
                now.wf() && step@ == #[trigger] resume_spec(pending@, response@, now),
    {
        let now = now_millis();
        self.resume_at(pending, response, now)
    }
}

} // verus!
