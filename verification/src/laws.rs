//! What the protocol achieves on a datastore that behaves as the model
//! says: the laws of the account store.

use vstd::prelude::*;
use crate::clock::{lemma_trunc_ms_monotonic, lemma_truncated, trunc_ms, Timestamp};
use crate::errors::{AuthenticationErrorView, UserManagerErrorView};
use crate::gateway::{RequestView, ResponseView, StatementView};
use crate::ident::UserId;
use crate::model::Store;
use crate::models::UserView;
use crate::service::{
    authentication_step,
    read_failed,
    read_hit,
    read_missed,
    resume_spec,
    PendingView,
    create_batch,
    create_step,
    delete_batch,
    delete_step,
    new_account,
    read_by_email_step,
    read_by_id_step,
    read_by_username_step,
    update_last_login_step,
    update_password_step,
    update_profile_step,
    OutcomeView,
    StepView,
};

verus! {

/// The tables after the batch of a create was applied.
pub open spec fn with_account(store: Store, user: UserView) -> Store {
    Store {
        users: store.users.insert(user.user_id, user),
        by_username: store.by_username.insert(user.username, user.user_id),
        by_email: store.by_email.insert(user.email, user.user_id),
    }
}

/// The tables after the batch of a delete was applied.
pub open spec fn without_account(
    store: Store,
    username: Seq<char>,
    email: Seq<char>,
    user_id: UserId,
) -> Store {
    Store {
        users: store.users.remove(user_id),
        by_username: store.by_username.remove(username),
        by_email: store.by_email.remove(email),
    }
}

/// The tables with no account agree.
pub proof fn law_empty_tables_agree()
    ensures
        Store::empty().wf(),
{
}

/// The batch of a create is applied exactly where both keys are free, and
/// then writes the three rows of the account.
pub proof fn lemma_create_batch(store: Store, user: UserView)
    ensures
        store.accepts(create_batch(user)) <==> (!store.by_username.contains_key(user.username)
            && !store.by_email.contains_key(user.email)),
        store.apply_all(create_batch(user).statements) == with_account(store, user),
{
    let statements = create_batch(user).statements;
    assert(statements.len() == 3);
    assert(statements[0] == StatementView::InsertUserByUsername {
        username: user.username,
        user_id: user.user_id,
    });
    assert(statements[1] == StatementView::InsertUserByEmail {
        email: user.email,
        user_id: user.user_id,
    });
    assert(statements[2] == StatementView::InsertUser(user));
    if store.accepts(create_batch(user)) {
        assert(store.condition_met(statements[0]));
        assert(store.condition_met(statements[1]));
    }
    let rest1 = statements.drop_first();
    let rest2 = rest1.drop_first();
    let rest3 = rest2.drop_first();
    assert(rest1[0] == statements[1]);
    assert(rest2[0] == statements[2]);
    assert(rest3.len() == 0);
    reveal_with_fuel(Store::apply_all, 4);
    let s1 = store.apply(statements[0]);
    let s2 = s1.apply(statements[1]);
    let s3 = s2.apply(statements[2]);
    assert(store.apply_all(statements) == s3);
    assert(s3 == with_account(store, user));
}

/// The batch of a delete is always applied, and removes the three rows.
pub proof fn lemma_delete_batch(store: Store, username: Seq<char>, email: Seq<char>, user_id: UserId)
    ensures
        store.accepts(delete_batch(username, email, user_id)),
        store.apply_all(delete_batch(username, email, user_id).statements) == without_account(
            store,
            username,
            email,
            user_id,
        ),
{
    let statements = delete_batch(username, email, user_id).statements;
    assert(statements.len() == 3);
    assert(statements[0] == StatementView::DeleteUserByUsername { username });
    assert(statements[1] == StatementView::DeleteUserByEmail { email });
    assert(statements[2] == StatementView::DeleteUser { user_id });
    let rest1 = statements.drop_first();
    let rest2 = rest1.drop_first();
    let rest3 = rest2.drop_first();
    assert(rest1[0] == statements[1]);
    assert(rest2[0] == statements[2]);
    assert(rest3.len() == 0);
    reveal_with_fuel(Store::apply_all, 4);
    let s1 = store.apply(statements[0]);
    let s2 = s1.apply(statements[1]);
    let s3 = s2.apply(statements[2]);
    assert(store.apply_all(statements) == s3);
    assert(s3 == without_account(store, username, email, user_id));
}

/// A create ends in one of three ways, and the tables decide which: the
/// account is written where both keys are free; the username is reported
/// where it is owned; the email is reported where only it is owned. A
/// refused create leaves the tables as they were.
pub proof fn law_create(store: Store, user: UserView, now: Timestamp)
    ensures
        ({
            let end = store.run(create_step(user), now);
            if store.by_username.contains_key(user.username) {
                &&& end.0 == store
                &&& end.1 == StepView::Finished(
                    OutcomeView::Failed(UserManagerErrorView::UsernameTaken(user.username)),
                )
            } else if store.by_email.contains_key(user.email) {
                &&& end.0 == store
                &&& end.1 == StepView::Finished(
                    OutcomeView::Failed(UserManagerErrorView::EmailTaken(user.email)),
                )
            } else {
                &&& end.0 == with_account(store, user)
                &&& end.1 == StepView::Finished(OutcomeView::Account(user))
            }
        }),
{
    lemma_create_batch(store, user);
}

/// Uniqueness. Of two creates that both succeed, the second right after the
/// first, the accounts differ in username and in email.
pub proof fn law_uniqueness(
    store: Store,
    a: UserView,
    b: UserView,
    now_a: Timestamp,
    now_b: Timestamp,
)
    requires
        store.run(create_step(a), now_a).1 == StepView::Finished(OutcomeView::Account(a)),
        store.run(create_step(a), now_a).0.run(create_step(b), now_b).1 == StepView::Finished(
            OutcomeView::Account(b),
        ),
    ensures
        a.username != b.username,
        a.email != b.email,
{
    law_create(store, a, now_a);
    law_create(with_account(store, a), b, now_b);
}

/// Uniqueness among the accounts that are there. In tables that agree, a
/// create that succeeds wrote a username and an email that no account of the
/// tables had, whatever happened since that account was created.
pub proof fn law_uniqueness_among_live(store: Store, live: UserId, b: UserView, now: Timestamp)
    requires
        store.wf(),
        store.users.contains_key(live),
        store.run(create_step(b), now).1 == StepView::Finished(OutcomeView::Account(b)),
    ensures
        store.users[live].username != b.username,
        store.users[live].email != b.email,
{
    law_create(store, b, now);
}

/// Round trip. A read by identifier right after a successful create returns
/// the account that the create returned and changes nothing; the account has
/// never logged in, was updated when it was created, and each of its
/// timestamps is its own truncation to milliseconds.
pub proof fn law_round_trip(
    store: Store,
    user_id: UserId,
    now: Timestamp,
    username: Seq<char>,
    email: Seq<char>,
    hashed_password: Seq<char>,
    first_name: Option<Seq<char>>,
    last_name: Option<Seq<char>>,
    is_active: bool,
    email_verified: bool,
    later: Timestamp,
)
    requires
        now.wf(),
    ensures
        ({
            let user = new_account(
                user_id,
                now,
                username,
                email,
                hashed_password,
                first_name,
                last_name,
                is_active,
                email_verified,
            );
            let created = store.run(create_step(user), now);
            created.1 == StepView::Finished(OutcomeView::Account(user)) ==> {
                &&& created.0.run(read_by_id_step(user_id), later) == (
                    created.0,
                    StepView::Finished(OutcomeView::Found(Some(user))),
                )
                &&& user.wf()
                &&& user.last_login_at is None
                &&& user.created_at == user.updated_at
                &&& user.created_at@ == trunc_ms(user.created_at@)
                &&& user.is_active == is_active
                &&& user.email_verified == email_verified
            }
        }),
{
    let user = new_account(
        user_id,
        now,
        username,
        email,
        hashed_password,
        first_name,
        last_name,
        is_active,
        email_verified,
    );
    law_create(store, user, now);
    lemma_truncated(now);
    lemma_truncated(now.truncated());
}

/// Lookup integrity. Right after a successful create, both lookup tables
/// name the new account as the owner of its username and of its email, and
/// a read by either key returns the account.
pub proof fn law_lookup_integrity(store: Store, user: UserView, now: Timestamp, later: Timestamp)
    requires
        store.run(create_step(user), now).1 == StepView::Finished(OutcomeView::Account(user)),
    ensures
        ({
            let after = store.run(create_step(user), now).0;
            &&& after.serve(RequestView::FindUserIdByUsername { username: user.username }) == (
                after,
                ResponseView::UserIdRow(Some(user.user_id)),
            )
            &&& after.serve(RequestView::FindUserIdByEmail { email: user.email }) == (
                after,
                ResponseView::UserIdRow(Some(user.user_id)),
            )
            &&& after.run(read_by_username_step(user.username, false), later) == (
                after,
                StepView::Finished(OutcomeView::Found(Some(user))),
            )
            &&& after.run(read_by_email_step(user.email, false), later) == (
                after,
                StepView::Finished(OutcomeView::Found(Some(user))),
            )
        }),
{
    law_create(store, user, now);
}

/// Delete completeness. In tables that agree, the delete of an account that
/// is there succeeds, after it none of the three tables has a row of the
/// account, and every other account stands as before. The delete of an
/// account that is not there reports so and changes nothing.
pub proof fn law_delete_completeness(store: Store, user_id: UserId, now: Timestamp)
    requires
        store.wf(),
    ensures
        ({
            let end = store.run(delete_step(user_id), now);
            if store.users.contains_key(user_id) {
                let user = store.users[user_id];
                &&& end.1 == StepView::Finished(OutcomeView::Done)
                &&& end.0 == without_account(store, user.username, user.email, user_id)
                &&& end.0.serve(RequestView::FindUserById { user_id }).1 == ResponseView::UserRow(
                    None,
                )
                &&& end.0.serve(RequestView::FindUserIdByUsername { username: user.username }).1
                    == ResponseView::UserIdRow(None)
                &&& end.0.serve(RequestView::FindUserIdByEmail { email: user.email }).1
                    == ResponseView::UserIdRow(None)
                &&& forall|name: Seq<char>| #[trigger]
                    end.0.by_username.contains_key(name) ==> end.0.by_username[name] != user_id
                &&& forall|email: Seq<char>| #[trigger]
                    end.0.by_email.contains_key(email) ==> end.0.by_email[email] != user_id
                &&& forall|other: UserId|
                    other != user_id && store.users.contains_key(other) ==> #[trigger]
                    end.0.users.contains_key(other) && end.0.users[other] == store.users[other]
                &&& end.0.wf()
            } else {
                &&& end.0 == store
                &&& end.1 == StepView::Finished(
                    OutcomeView::Failed(UserManagerErrorView::UserNotFound),
                )
            }
        }),
{
    if store.users.contains_key(user_id) {
        let user = store.users[user_id];
        lemma_delete_batch(store, user.username, user.email, user_id);
        let after = without_account(store, user.username, user.email, user_id);
        assert(after.wf()) by {
            assert forall|id: UserId| #[trigger] after.users.contains_key(id) implies ({
                let u = after.users[id];
                &&& u.user_id == id
                &&& u.wf()
                &&& after.by_username.contains_key(u.username)
                &&& after.by_username[u.username] == id
                &&& after.by_email.contains_key(u.email)
                &&& after.by_email[u.email] == id
            }) by {
                assert(store.users.contains_key(id));
            }
            assert forall|name: Seq<char>| #[trigger] after.by_username.contains_key(name) implies ({
                &&& after.users.contains_key(after.by_username[name])
                &&& after.users[after.by_username[name]].username == name
            }) by {
                assert(store.by_username.contains_key(name));
            }
            assert forall|email: Seq<char>| #[trigger] after.by_email.contains_key(email) implies ({
                &&& after.users.contains_key(after.by_email[email])
                &&& after.users[after.by_email[email]].email == email
            }) by {
                assert(store.by_email.contains_key(email));
            }
        }
        assert forall|name: Seq<char>| #[trigger]
            after.by_username.contains_key(name) implies after.by_username[name] != user_id by {
            assert(store.by_username.contains_key(name));
        }
        assert forall|email: Seq<char>| #[trigger]
            after.by_email.contains_key(email) implies after.by_email[email] != user_id by {
            assert(store.by_email.contains_key(email));
        }
    }
}

/// In tables that agree, a create under an identifier that no account has
/// leaves tables that agree, whether it succeeds or not.
pub proof fn law_create_keeps_tables_consistent(store: Store, user: UserView, now: Timestamp)
    requires
        store.wf(),
        user.wf(),
        !store.users.contains_key(user.user_id),
    ensures
        store.run(create_step(user), now).0.wf(),
{
    law_create(store, user, now);
    if !store.by_username.contains_key(user.username) && !store.by_email.contains_key(
        user.email,
    ) {
        let after = with_account(store, user);
        assert forall|id: UserId| #[trigger] after.users.contains_key(id) implies ({
            let u = after.users[id];
            &&& u.user_id == id
            &&& u.wf()
            &&& after.by_username.contains_key(u.username)
            &&& after.by_username[u.username] == id
            &&& after.by_email.contains_key(u.email)
            &&& after.by_email[u.email] == id
        }) by {
            if id != user.user_id {
                assert(store.users.contains_key(id));
            }
        }
        assert forall|name: Seq<char>| #[trigger] after.by_username.contains_key(name) implies ({
            &&& after.users.contains_key(after.by_username[name])
            &&& after.users[after.by_username[name]].username == name
        }) by {
            if name != user.username {
                assert(store.by_username.contains_key(name));
            }
        }
        assert forall|email: Seq<char>| #[trigger] after.by_email.contains_key(email) implies ({
            &&& after.users.contains_key(after.by_email[email])
            &&& after.users[after.by_email[email]].email == email
        }) by {
            if email != user.email {
                assert(store.by_email.contains_key(email));
            }
        }
    }
}

/// One of the three updates of an account.
pub enum Update {
    Profile {
        first_name: Option<Seq<char>>,
        last_name: Option<Seq<char>>,
        is_active: Option<bool>,
        email_verified: Option<bool>,
    },
    Password { hashed_password: Seq<char> },
    LastLogin,
}

/// The first step of an update.
pub open spec fn update_step(user_id: UserId, update: Update, now: Timestamp) -> StepView {
    match update {
        Update::Profile { first_name, last_name, is_active, email_verified } => {
            update_profile_step(user_id, first_name, last_name, is_active, email_verified)
        },
        Update::Password { hashed_password } => update_password_step(
            user_id,
            hashed_password,
            now,
        ),
        Update::LastLogin => update_last_login_step(user_id, now),
    }
}

/// The account that an update leaves.
pub open spec fn updated(user: UserView, update: Update, now: Timestamp) -> UserView {
    match update {
        Update::Profile { first_name, last_name, is_active, email_verified } => {
            crate::service::patched(
                user,
                first_name,
                last_name,
                is_active,
                email_verified,
                now.truncated(),
            )
        },
        Update::Password { hashed_password } => UserView {
            hashed_password,
            updated_at: now.truncated(),
            ..user
        },
        Update::LastLogin => UserView {
            last_login_at: Some(now.truncated()),
            updated_at: now.truncated(),
            ..user
        },
    }
}

/// An update of an account that is there rewrites its row and nothing else:
/// the fields that the update names, and `updated_at`, which becomes the
/// clock reading truncated to milliseconds. A profile update returns the
/// account as it then stands.
pub proof fn law_update(store: Store, user_id: UserId, update: Update, now: Timestamp)
    requires
        store.users.contains_key(user_id),
    ensures
        ({
            let end = store.run(update_step(user_id, update, now), now);
            let user = updated(store.users[user_id], update, now);
            &&& end.0 == Store { users: store.users.insert(user_id, user), ..store }
            &&& end.1 == StepView::Finished(
                if update is Profile {
                    OutcomeView::Account(user)
                } else {
                    OutcomeView::Done
                },
            )
            &&& user.updated_at == now.truncated()
            &&& user.user_id == store.users[user_id].user_id
            &&& user.username == store.users[user_id].username
            &&& user.email == store.users[user_id].email
            &&& user.created_at == store.users[user_id].created_at
        }),
{
}

/// In tables that agree, an update stamped not before the account was
/// created leaves tables that agree.
pub proof fn law_update_keeps_tables_consistent(
    store: Store,
    user_id: UserId,
    update: Update,
    now: Timestamp,
)
    requires
        store.wf(),
        now.wf(),
        store.users.contains_key(user_id),
        store.users[user_id].created_at@ <= now@,
    ensures
        store.run(update_step(user_id, update, now), now).0.wf(),
{
    law_update(store, user_id, update, now);
    lemma_truncated(now);
    let before = store.users[user_id];
    let user = updated(before, update, now);
    let after = Store { users: store.users.insert(user_id, user), ..store };
    assert(before.wf());
    assert(before.created_at@ <= now.truncated()@) by {
        lemma_trunc_ms_monotonic(before.created_at@, now@);
        lemma_truncated(before.created_at);
    }
    assert(user.wf());
    assert forall|id: UserId| #[trigger] after.users.contains_key(id) implies ({
        let u = after.users[id];
        &&& u.user_id == id
        &&& u.wf()
        &&& after.by_username.contains_key(u.username)
        &&& after.by_username[u.username] == id
        &&& after.by_email.contains_key(u.email)
        &&& after.by_email[u.email] == id
    }) by {
        assert(store.users.contains_key(id));
    }
    assert forall|name: Seq<char>| #[trigger] after.by_username.contains_key(name) implies ({
        &&& after.users.contains_key(after.by_username[name])
        &&& after.users[after.by_username[name]].username == name
    }) by {
        assert(store.by_username.contains_key(name));
    }
    assert forall|email: Seq<char>| #[trigger] after.by_email.contains_key(email) implies ({
        &&& after.users.contains_key(after.by_email[email])
        &&& after.users[after.by_email[email]].email == email
    }) by {
        assert(store.by_email.contains_key(email));
    }
}

/// The tables after the first `count` of a sequence of updates to one
/// account, each run to its end with its own clock reading.
pub open spec fn after_updates(
    store: Store,
    user_id: UserId,
    updates: Seq<Update>,
    clock: Seq<Timestamp>,
    count: nat,
) -> Store
    decreases count,
{
    if count == 0 {
        store
    } else {
        let before = after_updates(store, user_id, updates, clock, (count - 1) as nat);
        before.run(
            update_step(user_id, updates[count - 1], clock[count - 1]),
            clock[count - 1],
        ).0
    }
}

/// After each update of a sequence the account is still there, and its
/// `updated_at` is the clock reading of that update, truncated.
pub proof fn lemma_after_updates(
    store: Store,
    user_id: UserId,
    updates: Seq<Update>,
    clock: Seq<Timestamp>,
    count: nat,
)
    requires
        store.users.contains_key(user_id),
        count <= updates.len(),
        updates.len() == clock.len(),
    ensures
        after_updates(store, user_id, updates, clock, count).users.contains_key(user_id),
        count > 0 ==> after_updates(store, user_id, updates, clock, count).users[user_id].updated_at
            == clock[count - 1].truncated(),
    decreases count,
{
    if count > 0 {
        lemma_after_updates(store, user_id, updates, clock, (count - 1) as nat);
        let before = after_updates(store, user_id, updates, clock, (count - 1) as nat);
        law_update(before, user_id, updates[count - 1], clock[count - 1]);
    }
}

/// Monotonic update. Where the clock readings of a sequence of updates to
/// one account do not go back, neither do the values of `updated_at` that a
/// read of the account shows after each of them.
pub proof fn law_monotonic_updates(
    store: Store,
    user_id: UserId,
    updates: Seq<Update>,
    clock: Seq<Timestamp>,
    earlier: nat,
    later: nat,
)
    requires
        store.users.contains_key(user_id),
        updates.len() == clock.len(),
        forall|i: int| 0 <= i < clock.len() ==> (#[trigger] clock[i]).wf(),
        forall|i: int, j: int| 0 <= i <= j < clock.len() ==> clock[i]@ <= clock[j]@,
        1 <= earlier <= later <= updates.len(),
    ensures
        after_updates(store, user_id, updates, clock, earlier).users[user_id].updated_at@
            <= after_updates(store, user_id, updates, clock, later).users[user_id].updated_at@,
        after_updates(store, user_id, updates, clock, later).serve(
            RequestView::FindUserById { user_id },
        ).1 == ResponseView::UserRow(
            Some(after_updates(store, user_id, updates, clock, later).users[user_id]),
        ),
{
    lemma_after_updates(store, user_id, updates, clock, earlier);
    lemma_after_updates(store, user_id, updates, clock, later);
    lemma_truncated(clock[earlier - 1]);
    lemma_truncated(clock[later - 1]);
    lemma_trunc_ms_monotonic(clock[earlier - 1]@, clock[later - 1]@);
}

/// How a read by a lookup key ends: on nothing where nobody owns the key, on
/// the owner's account where its row is there, and on the inconsistency
/// where the lookup row names an account that has no row.
pub open spec fn read_through(
    store: Store,
    owner: Option<UserId>,
    for_authentication: bool,
) -> OutcomeView {
    match owner {
        None => read_missed(for_authentication),
        Some(user_id) => if store.users.contains_key(user_id) {
            read_hit(for_authentication, store.users[user_id])
        } else {
            read_failed(for_authentication, UserManagerErrorView::InconsistentData(user_id))
        },
    }
}

/// Reads change nothing, and return what the tables hold. A read by
/// username or by email follows the lookup row to the canonical row, and
/// reports a lookup row that leads nowhere.
pub proof fn law_reads(
    store: Store,
    user_id: UserId,
    key: Seq<char>,
    for_authentication: bool,
    now: Timestamp,
)
    ensures
        store.run(read_by_id_step(user_id), now) == (
            store,
            StepView::Finished(
                OutcomeView::Found(
                    if store.users.contains_key(user_id) {
                        Some(store.users[user_id])
                    } else {
                        None
                    },
                ),
            ),
        ),
        store.run(read_by_username_step(key, for_authentication), now) == (
            store,
            StepView::Finished(
                read_through(
                    store,
                    if store.by_username.contains_key(key) {
                        Some(store.by_username[key])
                    } else {
                        None
                    },
                    for_authentication,
                ),
            ),
        ),
        store.run(read_by_email_step(key, for_authentication), now) == (
            store,
            StepView::Finished(
                read_through(
                    store,
                    if store.by_email.contains_key(key) {
                        Some(store.by_email[key])
                    } else {
                        None
                    },
                    for_authentication,
                ),
            ),
        ),
{
}

/// Authentication lookup. In tables that agree, the lookup by the username
/// of an account and the lookup by its email return the same details: those
/// of the account, with the password hash as stored. This holds of a
/// username without `@` and an email with one.
pub proof fn law_authentication(store: Store, user_id: UserId, now: Timestamp)
    requires
        store.wf(),
        store.users.contains_key(user_id),
        !store.users[user_id].username.contains('@'),
        store.users[user_id].email.contains('@'),
    ensures
        store.run(authentication_step(store.users[user_id].username), now) == (
            store,
            StepView::Finished(OutcomeView::Authenticated(store.users[user_id].auth_details())),
        ),
        store.run(authentication_step(store.users[user_id].email), now) == (
            store,
            StepView::Finished(OutcomeView::Authenticated(store.users[user_id].auth_details())),
        ),
{
    let user = store.users[user_id];
    law_reads(store, user_id, user.username, true, now);
    law_reads(store, user_id, user.email, true, now);
}

/// The most round trips that an operation can still ask for.
pub open spec fn round_trips_left(pending: PendingView) -> nat {
    match pending {
        PendingView::CreateBatch { .. } => 2,
        PendingView::CreateUsernameLookup { .. } => 1,
        PendingView::ReadOwner { .. } => 1,
        PendingView::ProfileRead { .. } => 1,
        PendingView::DeleteIdentifiers { .. } => 1,
        _ => 0,
    }
}

/// Progress. Whatever the datastore answers, an operation that goes on asks
/// for fewer round trips than before: every operation ends, a create after
/// three round trips at most and every other after two.
pub proof fn law_progress(pending: PendingView, response: ResponseView, now: Timestamp)
    ensures
        match resume_spec(pending, response, now) {
            StepView::Ask { pending: next, .. } => round_trips_left(next) < round_trips_left(
                pending,
            ),
            StepView::Finished(_) => true,
        },
{
}

/// The store leaves the policy on inactive and unverified accounts to the
/// caller: whatever the datastore answers, no operation ends on either of
/// the two errors that stand for such a policy.
pub proof fn law_policy_is_the_callers(pending: PendingView, response: ResponseView, now: Timestamp)
    ensures
        resume_spec(pending, response, now) != StepView::Finished(
            OutcomeView::AuthenticationFailed(AuthenticationErrorView::AccountNotActive),
        ),
        resume_spec(pending, response, now) != StepView::Finished(
            OutcomeView::AuthenticationFailed(AuthenticationErrorView::EmailNotVerified),
        ),
{
}

} // verus!
