//! The statements against the three account tables.
//!
//! The repository owns the text of every statement, built once for its
//! keyspace, and offers each write as a contributor to a caller's batch and
//! each direct operation as a request. It executes nothing: how statements
//! are batched, and at which consistency, is the service's decision.

use vstd::prelude::*;
use crate::clock::Timestamp;
use crate::gateway::{Batch, Request, RequestView, Statement, StatementKind, StatementView};
use crate::ident::UserId;
use crate::models::{opt_str, own_opt_str, User, UserView};

verus! {

/// The text of a statement in the given keyspace.
pub open spec fn cql_text(kind: StatementKind, keyspace: Seq<char>) -> Seq<char> {
    match kind {
        StatementKind::InsertUser => "INSERT INTO "@ + keyspace
            + ".users (user_id, username, email, hashed_password, first_name, last_name, is_active, email_verified, created_at, updated_at, last_login_at) VALUES (?, ?, ?, ?, ?, ?, ?, ?, ?, ?, ?)"@,
        StatementKind::InsertUserByUsername => "INSERT INTO "@ + keyspace
            + ".users_by_username (username, user_id) VALUES (?, ?) IF NOT EXISTS"@,
        StatementKind::InsertUserByEmail => "INSERT INTO "@ + keyspace
            + ".users_by_email (email, user_id) VALUES (?, ?) IF NOT EXISTS"@,
        StatementKind::GetUserById => "SELECT * FROM "@ + keyspace + ".users WHERE user_id = ?"@,
        StatementKind::GetUserIdByUsername => "SELECT user_id FROM "@ + keyspace
            + ".users_by_username WHERE username = ?"@,
        StatementKind::GetUserIdByEmail => "SELECT user_id FROM "@ + keyspace
            + ".users_by_email WHERE email = ?"@,
        StatementKind::UpdateUserProfile => "UPDATE "@ + keyspace
            + ".users SET first_name = ?, last_name = ?, is_active = ?, email_verified = ?, updated_at = ? WHERE user_id = ?"@,
        StatementKind::UpdateUserPassword => "UPDATE "@ + keyspace
            + ".users SET hashed_password = ?, updated_at = ? WHERE user_id = ?"@,
        StatementKind::UpdateLastLogin => "UPDATE "@ + keyspace
            + ".users SET last_login_at = ?, updated_at = ? WHERE user_id = ?"@,
        StatementKind::GetUserDetailsForDelete => "SELECT username, email FROM "@ + keyspace
            + ".users WHERE user_id = ?"@,
        StatementKind::DeleteUserByUsername => "DELETE FROM "@ + keyspace
            + ".users_by_username WHERE username = ?"@,
        StatementKind::DeleteUserByEmail => "DELETE FROM "@ + keyspace
            + ".users_by_email WHERE email = ?"@,
        StatementKind::DeleteUser => "DELETE FROM "@ + keyspace + ".users WHERE user_id = ?"@,
    }
}

fn statement_text(head: &str, keyspace: &str, tail: &str) -> (text: String)
    ensures
        text@ == head@ + keyspace@ + tail@,
{
    let mut text = head.to_owned();
    text.append(keyspace);
    text.append(tail);
    text
}

/// The account tables of one keyspace.
#[derive(Debug)]
pub struct UserRepository {
    keyspace: String,
    insert_user: String,
    insert_user_by_username: String,
    insert_user_by_email: String,
    get_user_by_id: String,
    get_user_id_by_username: String,
    get_user_id_by_email: String,
    update_user_profile: String,
    update_user_password: String,
    update_last_login: String,
    get_user_details_for_delete: String,
    delete_user_by_username: String,
    delete_user_by_email: String,
    delete_user: String,
}

impl UserRepository {
    /// The keyspace that the statements address.
    pub closed spec fn keyspace_view(&self) -> Seq<char> {
        self.keyspace@
    }

    /// The text that the repository holds for a statement.
    pub closed spec fn text_of(&self, kind: StatementKind) -> Seq<char> {
        match kind {
            StatementKind::InsertUser => self.insert_user@,
            StatementKind::InsertUserByUsername => self.insert_user_by_username@,
            StatementKind::InsertUserByEmail => self.insert_user_by_email@,
            StatementKind::GetUserById => self.get_user_by_id@,
            StatementKind::GetUserIdByUsername => self.get_user_id_by_username@,
            StatementKind::GetUserIdByEmail => self.get_user_id_by_email@,
            StatementKind::UpdateUserProfile => self.update_user_profile@,
            StatementKind::UpdateUserPassword => self.update_user_password@,
            StatementKind::UpdateLastLogin => self.update_last_login@,
            StatementKind::GetUserDetailsForDelete => self.get_user_details_for_delete@,
            StatementKind::DeleteUserByUsername => self.delete_user_by_username@,
            StatementKind::DeleteUserByEmail => self.delete_user_by_email@,
            StatementKind::DeleteUser => self.delete_user@,
        }
    }

    /// Every statement is the one for this repository's keyspace.
    #[verifier::type_invariant]
    closed spec fn texts_match_keyspace(&self) -> bool {
        forall|kind: StatementKind| #[trigger]
            self.text_of(kind) == cql_text(kind, self.keyspace@)
    }

    /// Builds the statements for a keyspace.
    pub fn new(keyspace_name: &str) -> (repository: UserRepository)
        ensures
            repository.keyspace_view() == keyspace_name@,
            forall|kind: StatementKind| #[trigger]
                repository.text_of(kind) == cql_text(kind, keyspace_name@),
    {
        let ks = keyspace_name;
        UserRepository {
            keyspace: ks.to_owned(),
            insert_user: statement_text(
                "INSERT INTO ",
                ks,
                ".users (user_id, username, email, hashed_password, first_name, last_name, is_active, email_verified, created_at, updated_at, last_login_at) VALUES (?, ?, ?, ?, ?, ?, ?, ?, ?, ?, ?)",
            ),
            insert_user_by_username: statement_text(
                "INSERT INTO ",
                ks,
                ".users_by_username (username, user_id) VALUES (?, ?) IF NOT EXISTS",
            ),
            insert_user_by_email: statement_text(
                "INSERT INTO ",
                ks,
                ".users_by_email (email, user_id) VALUES (?, ?) IF NOT EXISTS",
            ),
            get_user_by_id: statement_text("SELECT * FROM ", ks, ".users WHERE user_id = ?"),
            get_user_id_by_username: statement_text(
                "SELECT user_id FROM ",
                ks,
                ".users_by_username WHERE username = ?",
            ),
            get_user_id_by_email: statement_text(
                "SELECT user_id FROM ",
                ks,
                ".users_by_email WHERE email = ?",
            ),
            update_user_profile: statement_text(
                "UPDATE ",
                ks,
                ".users SET first_name = ?, last_name = ?, is_active = ?, email_verified = ?, updated_at = ? WHERE user_id = ?",
            ),
            update_user_password: statement_text(
                "UPDATE ",
                ks,
                ".users SET hashed_password = ?, updated_at = ? WHERE user_id = ?",
            ),
            update_last_login: statement_text(
                "UPDATE ",
                ks,
                ".users SET last_login_at = ?, updated_at = ? WHERE user_id = ?",
            ),
            get_user_details_for_delete: statement_text(
                "SELECT username, email FROM ",
                ks,
                ".users WHERE user_id = ?",
            ),
            delete_user_by_username: statement_text(
                "DELETE FROM ",
                ks,
                ".users_by_username WHERE username = ?",
            ),
            delete_user_by_email: statement_text(
                "DELETE FROM ",
                ks,
                ".users_by_email WHERE email = ?",
            ),
            delete_user: statement_text("DELETE FROM ", ks, ".users WHERE user_id = ?"),
        }
    }

    pub fn keyspace(&self) -> (keyspace: &str)
        ensures
            keyspace@ == self.keyspace_view(),
    {
        self.keyspace.as_str()
    }

    /// The text to prepare for a statement.
    pub fn cql(&self, kind: StatementKind) -> (text: &str)
        ensures
            text@ == cql_text(kind, self.keyspace_view()),
    {
        proof {
            use_type_invariant(self);
            assert(self.text_of(kind) == cql_text(kind, self.keyspace@));
        }
        match kind {
            StatementKind::InsertUser => self.insert_user.as_str(),
            StatementKind::InsertUserByUsername => self.insert_user_by_username.as_str(),
            StatementKind::InsertUserByEmail => self.insert_user_by_email.as_str(),
            StatementKind::GetUserById => self.get_user_by_id.as_str(),
            StatementKind::GetUserIdByUsername => self.get_user_id_by_username.as_str(),
            StatementKind::GetUserIdByEmail => self.get_user_id_by_email.as_str(),
            StatementKind::UpdateUserProfile => self.update_user_profile.as_str(),
            StatementKind::UpdateUserPassword => self.update_user_password.as_str(),
            StatementKind::UpdateLastLogin => self.update_last_login.as_str(),
            StatementKind::GetUserDetailsForDelete => self.get_user_details_for_delete.as_str(),
            StatementKind::DeleteUserByUsername => self.delete_user_by_username.as_str(),
            StatementKind::DeleteUserByEmail => self.delete_user_by_email.as_str(),
            StatementKind::DeleteUser => self.delete_user.as_str(),
        }
    }
}

impl UserRepository {
    /// Appends the unconditional insert of the canonical row.
    pub fn add_insert_user_to_batch(
        &self,
        batch: &mut Batch,
        user_id: UserId,
        username: &str,
        email: &str,
        hashed_password: &str,
        first_name: Option<&str>,
        last_name: Option<&str>,
        is_active: bool,
        email_verified: bool,
        created_at: Timestamp,
        updated_at: Timestamp,
        last_login_at: Option<Timestamp>,
    )
        ensures
            final(batch)@.kind == old(batch)@.kind,
            final(batch)@.serial_consistency == old(batch)@.serial_consistency,
            final(batch)@.statements == old(batch)@.statements.push(
                StatementView::InsertUser(
                    UserView {
                        user_id,
                        username: username@,
                        email: email@,
                        hashed_password: hashed_password@,
                        first_name: opt_str(first_name),
                        last_name: opt_str(last_name),
                        is_active,
                        email_verified,
                        last_login_at,
                        created_at,
                        updated_at,
                    },
                ),
            ),
    {
        let user = User {
            user_id,
            username: username.to_owned(),
            email: email.to_owned(),
            hashed_password: hashed_password.to_owned(),
            first_name: own_opt_str(first_name),
            last_name: own_opt_str(last_name),
            is_active,
            email_verified,
            last_login_at,
            created_at,
            updated_at,
        };
        batch.append_statement(Statement::InsertUser(user));
    }

    /// Appends the claim of a username, which holds only if no row has it.
    pub fn add_insert_user_by_username_to_batch(
        &self,
        batch: &mut Batch,
        username: &str,
        user_id: UserId,
    )
        ensures
            final(batch)@.kind == old(batch)@.kind,
            final(batch)@.serial_consistency == old(batch)@.serial_consistency,
            final(batch)@.statements == old(batch)@.statements.push(
                StatementView::InsertUserByUsername { username: username@, user_id },
            ),
    {
        batch.append_statement(
            Statement::InsertUserByUsername { username: username.to_owned(), user_id },
        );
    }

    /// Appends the claim of an email address, which holds only if no row has
    /// it.
    pub fn add_insert_user_by_email_to_batch(&self, batch: &mut Batch, email: &str, user_id: UserId)
        ensures
            final(batch)@.kind == old(batch)@.kind,
            final(batch)@.serial_consistency == old(batch)@.serial_consistency,
            final(batch)@.statements == old(batch)@.statements.push(
                StatementView::InsertUserByEmail { email: email@, user_id },
            ),
    {
        batch.append_statement(Statement::InsertUserByEmail { email: email.to_owned(), user_id });
    }

    pub fn add_delete_user_by_username_to_batch(&self, batch: &mut Batch, username: &str)
        ensures
            final(batch)@.kind == old(batch)@.kind,
            final(batch)@.serial_consistency == old(batch)@.serial_consistency,
            final(batch)@.statements == old(batch)@.statements.push(
                StatementView::DeleteUserByUsername { username: username@ },
            ),
    {
        batch.append_statement(Statement::DeleteUserByUsername { username: username.to_owned() });
    }

    pub fn add_delete_user_by_email_to_batch(&self, batch: &mut Batch, email: &str)
        ensures
            final(batch)@.kind == old(batch)@.kind,
            final(batch)@.serial_consistency == old(batch)@.serial_consistency,
            final(batch)@.statements == old(batch)@.statements.push(
                StatementView::DeleteUserByEmail { email: email@ },
            ),
    {
        batch.append_statement(Statement::DeleteUserByEmail { email: email.to_owned() });
    }

    pub fn add_delete_user_to_batch(&self, batch: &mut Batch, user_id: UserId)
        ensures
            final(batch)@.kind == old(batch)@.kind,
            final(batch)@.serial_consistency == old(batch)@.serial_consistency,
            final(batch)@.statements == old(batch)@.statements.push(
                StatementView::DeleteUser { user_id },
            ),
    {
        batch.append_statement(Statement::DeleteUser { user_id });
    }

    /// The round trip that executes a batch as it was assembled: its kind,
    /// its serial consistency and its statements in their order.
    pub fn execute_batch(&self, batch: Batch) -> (request: Request)
        ensures
            request@ == RequestView::ExecuteBatch(batch@),
    {
        Request::ExecuteBatch(batch)
    }

    /// The read of the canonical row of an account.
    pub fn find_user_by_id(&self, user_id: UserId) -> (request: Request)
        ensures
            request@ == (RequestView::FindUserById { user_id }),
    {
        Request::FindUserById { user_id }
    }

    /// The read of the owner of a username.
    pub fn find_user_id_by_username(&self, username: &str) -> (request: Request)
        ensures
            request@ == (RequestView::FindUserIdByUsername { username: username@ }),
    {
        Request::FindUserIdByUsername { username: username.to_owned() }
    }

    /// The read of the owner of an email address.
    pub fn find_user_id_by_email(&self, email: &str) -> (request: Request)
        ensures
            request@ == (RequestView::FindUserIdByEmail { email: email@ }),
    {
        Request::FindUserIdByEmail { email: email.to_owned() }
    }

    /// The read of the username and email under which an account stands in
    /// the lookup tables.
    pub fn find_user_details_for_delete(&self, user_id: UserId) -> (request: Request)
        ensures
            request@ == (RequestView::FindUserDetailsForDelete { user_id }),
    {
        Request::FindUserDetailsForDelete { user_id }
    }

    /// The write of the four profile fields and of `updated_at`.
    pub fn update_profile_direct(
        &self,
        user_id: UserId,
        first_name: Option<&str>,
        last_name: Option<&str>,
        is_active: bool,
        email_verified: bool,
        updated_at: Timestamp,
    ) -> (request: Request)
        ensures
            request@ == (RequestView::UpdateProfile {
                user_id,
                first_name: opt_str(first_name),
                last_name: opt_str(last_name),
                is_active,
                email_verified,
                updated_at,
            }),
    {
        Request::UpdateProfile {
            user_id,
            first_name: own_opt_str(first_name),
            last_name: own_opt_str(last_name),
            is_active,
            email_verified,
            updated_at,
        }
    }

    /// The write of a new password hash and of `updated_at`.
    pub fn update_password_direct(
        &self,
        user_id: UserId,
        new_hashed_password: &str,
        updated_at: Timestamp,
    ) -> (request: Request)
        ensures
            request@ == (RequestView::UpdatePassword {
                user_id,
                hashed_password: new_hashed_password@,
                updated_at,
            }),
    {
        Request::UpdatePassword {
            user_id,
            hashed_password: new_hashed_password.to_owned(),
            updated_at,
        }
    }

    /// The write of `last_login_at` and of `updated_at`.
    pub fn update_last_login_direct(
        &self,
        user_id: UserId,
        login_time: Timestamp,
        updated_at: Timestamp,
    ) -> (request: Request)
        ensures
            request@ == (RequestView::UpdateLastLogin { user_id, login_time, updated_at }),
    {
        Request::UpdateLastLogin { user_id, login_time, updated_at }
    }
}

impl Clone for UserRepository {
    fn clone(&self) -> (repository: UserRepository)
        ensures
            repository.keyspace_view() == self.keyspace_view(),
    {
        proof {
            use_type_invariant(self);
        }
        let repository = UserRepository {
            keyspace: self.keyspace.clone(),
            insert_user: self.insert_user.clone(),
            insert_user_by_username: self.insert_user_by_username.clone(),
            insert_user_by_email: self.insert_user_by_email.clone(),
            get_user_by_id: self.get_user_by_id.clone(),
            get_user_id_by_username: self.get_user_id_by_username.clone(),
            get_user_id_by_email: self.get_user_id_by_email.clone(),
            update_user_profile: self.update_user_profile.clone(),
            update_user_password: self.update_user_password.clone(),
            update_last_login: self.update_last_login.clone(),
            get_user_details_for_delete: self.get_user_details_for_delete.clone(),
            delete_user_by_username: self.delete_user_by_username.clone(),
            delete_user_by_email: self.delete_user_by_email.clone(),
            delete_user: self.delete_user.clone(),
        };
        proof {
            assert forall|kind: StatementKind| #[trigger]
                repository.text_of(kind) == cql_text(kind, repository.keyspace@) by {
                assert(self.text_of(kind) == cql_text(kind, self.keyspace@));
            }
        }
        repository
    }
}

} // verus!
