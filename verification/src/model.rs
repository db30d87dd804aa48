//! A model of the datastore, for stating what the service's protocol
//! achieves.
//!
//! The model is the datastore as the protocol relies on it, seen by a single
//! writer and without faults: three tables, conditional inserts that hold
//! only where the key is free, and batches that apply all of their
//! statements or, where a condition is not met, none. Nothing here runs; the
//! laws of the store are stated and proved over it.

use vstd::prelude::*;
use crate::clock::Timestamp;
use crate::gateway::{BatchView, RequestView, ResponseView, StatementView};
use crate::ident::UserId;
use crate::models::UserView;
use crate::service::{resume_spec, StepView};

verus! {

/// The three account tables.
pub struct Store {
    /// `users`: the canonical rows, by identifier.
    pub users: Map<UserId, UserView>,
    /// `users_by_username`: the owner of each username.
    pub by_username: Map<Seq<char>, UserId>,
    /// `users_by_email`: the owner of each email address.
    pub by_email: Map<Seq<char>, UserId>,
}

impl Store {
    /// The store with no account.
    pub open spec fn empty() -> Store {
        Store { users: Map::empty(), by_username: Map::empty(), by_email: Map::empty() }
    }

    /// The three tables agree: every account is well formed, stands under
    /// its own identifier and owns its username and its email; every lookup
    /// row names an account that is there and that carries the row's key.
    pub open spec fn wf(self) -> bool {
        &&& forall|id: UserId| #[trigger]
            self.users.contains_key(id) ==> {
                let u = self.users[id];
                &&& u.user_id == id
                &&& u.wf()
                &&& self.by_username.contains_key(u.username)
                &&& self.by_username[u.username] == id
                &&& self.by_email.contains_key(u.email)
                &&& self.by_email[u.email] == id
            }
        &&& forall|name: Seq<char>| #[trigger]
            self.by_username.contains_key(name) ==> {
                &&& self.users.contains_key(self.by_username[name])
                &&& self.users[self.by_username[name]].username == name
            }
        &&& forall|email: Seq<char>| #[trigger]
            self.by_email.contains_key(email) ==> {
                &&& self.users.contains_key(self.by_email[email])
                &&& self.users[self.by_email[email]].email == email
            }
    }

    /// Whether the condition of a statement is met.
    pub open spec fn condition_met(self, statement: StatementView) -> bool {
        match statement {
            StatementView::InsertUserByUsername { username, .. } => !self.by_username.contains_key(
                username,
            ),
            StatementView::InsertUserByEmail { email, .. } => !self.by_email.contains_key(email),
            _ => true,
        }
    }

    /// The store after one statement of a batch was applied.
    pub open spec fn apply(self, statement: StatementView) -> Store {
        match statement {
            StatementView::InsertUser(user) => Store {
                users: self.users.insert(user.user_id, user),
                ..self
            },
            StatementView::InsertUserByUsername { username, user_id } => Store {
                by_username: self.by_username.insert(username, user_id),
                ..self
            },
            StatementView::InsertUserByEmail { email, user_id } => Store {
                by_email: self.by_email.insert(email, user_id),
                ..self
            },
            StatementView::DeleteUserByUsername { username } => Store {
                by_username: self.by_username.remove(username),
                ..self
            },
            StatementView::DeleteUserByEmail { email } => Store {
                by_email: self.by_email.remove(email),
                ..self
            },
            StatementView::DeleteUser { user_id } => Store {
                users: self.users.remove(user_id),
                ..self
            },
        }
    }

    /// The store after the statements were applied in their order.
    pub open spec fn apply_all(self, statements: Seq<StatementView>) -> Store
        decreases statements.len(),
    {
        if statements.len() == 0 {
            self
        } else {
            self.apply(statements[0]).apply_all(statements.drop_first())
        }
    }

    /// Whether a batch is applied: the condition of each of its statements
    /// is met by the store as it stands before the batch.
    pub open spec fn accepts(self, batch: BatchView) -> bool {
        forall|i: int|
            0 <= i < batch.statements.len() ==> self.condition_met(#[trigger] batch.statements[i])
    }

    /// The store after a round trip, and the answer to it.
    ///
    /// A write to an account that has no row leaves the tables as they are:
    /// the rows of this model are whole accounts.
    pub open spec fn serve(self, request: RequestView) -> (Store, ResponseView) {
        match request {
            RequestView::ExecuteBatch(batch) => {
                if self.accepts(batch) {
                    (self.apply_all(batch.statements), ResponseView::BatchApplied(true))
                } else {
                    (self, ResponseView::BatchApplied(false))
                }
            },
            RequestView::FindUserById { user_id } => (
                self,
                ResponseView::UserRow(
                    if self.users.contains_key(user_id) {
                        Some(self.users[user_id])
                    } else {
                        None
                    },
                ),
            ),
            RequestView::FindUserIdByUsername { username } => (
                self,
                ResponseView::UserIdRow(
                    if self.by_username.contains_key(username) {
                        Some(self.by_username[username])
                    } else {
                        None
                    },
                ),
            ),
            RequestView::FindUserIdByEmail { email } => (
                self,
                ResponseView::UserIdRow(
                    if self.by_email.contains_key(email) {
                        Some(self.by_email[email])
                    } else {
                        None
                    },
                ),
            ),
            RequestView::FindUserDetailsForDelete { user_id } => (
                self,
                ResponseView::IdentifiersRow(
                    if self.users.contains_key(user_id) {
                        Some((self.users[user_id].username, self.users[user_id].email))
                    } else {
                        None
                    },
                ),
            ),
            RequestView::UpdateProfile {
                user_id,
                first_name,
                last_name,
                is_active,
                email_verified,
                updated_at,
            } => (
                if self.users.contains_key(user_id) {
                    Store {
                        users: self.users.insert(
                            user_id,
                            UserView {
                                first_name,
                                last_name,
                                is_active,
                                email_verified,
                                updated_at,
                                ..self.users[user_id]
                            },
                        ),
                        ..self
                    }
                } else {
                    self
                },
                ResponseView::Written,
            ),
            RequestView::UpdatePassword { user_id, hashed_password, updated_at } => (
                if self.users.contains_key(user_id) {
                    Store {
                        users: self.users.insert(
                            user_id,
                            UserView { hashed_password, updated_at, ..self.users[user_id] },
                        ),
                        ..self
                    }
                } else {
                    self
                },
                ResponseView::Written,
            ),
            RequestView::UpdateLastLogin { user_id, login_time, updated_at } => (
                if self.users.contains_key(user_id) {
                    Store {
                        users: self.users.insert(
                            user_id,
                            UserView {
                                last_login_at: Some(login_time),
                                updated_at,
                                ..self.users[user_id]
                            },
                        ),
                        ..self
                    }
                } else {
                    self
                },
                ResponseView::Written,
            ),
        }
    }

    /// The store and the step after the round trip that a step asks for. A
    /// finished step stays as it is.
    pub open spec fn advance(self, step: StepView, now: Timestamp) -> (Store, StepView) {
        match step {
            StepView::Ask { request, pending } => {
                let served = self.serve(request);
                (served.0, resume_spec(pending, served.1, now))
            },
            StepView::Finished(_) => (self, step),
        }
    }

    /// The store and the step after an operation was taken through three
    /// round trips: no operation of the service needs more.
    pub open spec fn run(self, step: StepView, now: Timestamp) -> (Store, StepView) {
        let first = self.advance(step, now);
        let second = first.0.advance(first.1, now);
        second.0.advance(second.1, now)
    }
}

} // verus!
