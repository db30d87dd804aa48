//! Statement texts, batch contributors and requests of the repository.

use account_store::clock::Timestamp;
use account_store::errors::{DatabaseFault, UserManagerError};
use account_store::gateway::{
    Batch, BatchKind, Request, Response, SerialConsistency, Statement, StatementKind,
};
use account_store::ident::UserId;
use account_store::models::{clone_opt_text, own_opt_str, User};
use account_store::repository::UserRepository;
use account_store::text::contains_char;

fn sample_user() -> User {
    User {
        user_id: UserId::new(5),
        username: "alice".to_string(),
        email: "a@x.io".to_string(),
        hashed_password: "h1".to_string(),
        first_name: Some("Alice".to_string()),
        last_name: None,
        is_active: true,
        email_verified: false,
        last_login_at: Some(Timestamp::new(3, 0)),
        created_at: Timestamp::new(1, 0),
        updated_at: Timestamp::new(2, 0),
    }
}

#[test]
fn statement_texts_name_the_keyspace() {
    let repository = UserRepository::new("ks1");
    assert_eq!(repository.keyspace(), "ks1");
    assert_eq!(
        repository.cql(StatementKind::InsertUser),
        "INSERT INTO ks1.users (user_id, username, email, hashed_password, first_name, last_name, is_active, email_verified, created_at, updated_at, last_login_at) VALUES (?, ?, ?, ?, ?, ?, ?, ?, ?, ?, ?)"
    );
    assert_eq!(
        repository.cql(StatementKind::InsertUserByUsername),
        "INSERT INTO ks1.users_by_username (username, user_id) VALUES (?, ?) IF NOT EXISTS"
    );
    assert_eq!(
        repository.cql(StatementKind::InsertUserByEmail),
        "INSERT INTO ks1.users_by_email (email, user_id) VALUES (?, ?) IF NOT EXISTS"
    );
    assert_eq!(
        repository.cql(StatementKind::GetUserById),
        "SELECT * FROM ks1.users WHERE user_id = ?"
    );
    assert_eq!(
        repository.cql(StatementKind::GetUserIdByUsername),
        "SELECT user_id FROM ks1.users_by_username WHERE username = ?"
    );
    assert_eq!(
        repository.cql(StatementKind::GetUserIdByEmail),
        "SELECT user_id FROM ks1.users_by_email WHERE email = ?"
    );
    assert_eq!(
        repository.cql(StatementKind::UpdateUserProfile),
        "UPDATE ks1.users SET first_name = ?, last_name = ?, is_active = ?, email_verified = ?, updated_at = ? WHERE user_id = ?"
    );
    assert_eq!(
        repository.cql(StatementKind::UpdateUserPassword),
        "UPDATE ks1.users SET hashed_password = ?, updated_at = ? WHERE user_id = ?"
    );
    assert_eq!(
        repository.cql(StatementKind::UpdateLastLogin),
        "UPDATE ks1.users SET last_login_at = ?, updated_at = ? WHERE user_id = ?"
    );
    assert_eq!(
        repository.cql(StatementKind::GetUserDetailsForDelete),
        "SELECT username, email FROM ks1.users WHERE user_id = ?"
    );
    assert_eq!(
        repository.cql(StatementKind::DeleteUserByUsername),
        "DELETE FROM ks1.users_by_username WHERE username = ?"
    );
    assert_eq!(
        repository.cql(StatementKind::DeleteUserByEmail),
        "DELETE FROM ks1.users_by_email WHERE email = ?"
    );
    assert_eq!(repository.cql(StatementKind::DeleteUser), "DELETE FROM ks1.users WHERE user_id = ?");
}

#[test]
fn cloned_repository_holds_the_same_texts() {
    let repository = UserRepository::new("other");
    let copy = repository.clone();
    assert_eq!(copy.keyspace(), "other");
    assert_eq!(
        copy.cql(StatementKind::GetUserById),
        "SELECT * FROM other.users WHERE user_id = ?"
    );
}

#[test]
fn empty_batch_has_no_serial_consistency() {
    let batch = Batch::new(BatchKind::Logged);
    assert_eq!(batch.kind, BatchKind::Logged);
    assert_eq!(batch.get_serial_consistency(), None);
    assert!(batch.statements.is_empty());
    let batch = Batch::new(BatchKind::Unlogged);
    assert_eq!(batch.kind, BatchKind::Unlogged);
}

#[test]
fn contributors_append_in_call_order_and_keep_the_consistency() {
    let repository = UserRepository::new("ks");
    let mut batch = Batch::new(BatchKind::Logged);
    batch.set_serial_consistency(Some(SerialConsistency::Serial));
    repository.add_insert_user_by_username_to_batch(&mut batch, "alice", UserId::new(5));
    repository.add_insert_user_by_email_to_batch(&mut batch, "a@x.io", UserId::new(5));
    repository.add_insert_user_to_batch(
        &mut batch,
        UserId::new(5),
        "alice",
        "a@x.io",
        "h1",
        Some("Alice"),
        None,
        true,
        false,
        Timestamp::new(1, 0),
        Timestamp::new(2, 0),
        Some(Timestamp::new(3, 0)),
    );
    repository.add_delete_user_by_username_to_batch(&mut batch, "bob");
    repository.add_delete_user_by_email_to_batch(&mut batch, "b@x.io");
    repository.add_delete_user_to_batch(&mut batch, UserId::new(6));
    assert_eq!(batch.get_serial_consistency(), Some(SerialConsistency::Serial));
    assert_eq!(batch.kind, BatchKind::Logged);
    assert_eq!(
        batch.statements,
        vec![
            Statement::InsertUserByUsername {
                username: "alice".to_string(),
                user_id: UserId::new(5)
            },
            Statement::InsertUserByEmail { email: "a@x.io".to_string(), user_id: UserId::new(5) },
            Statement::InsertUser(sample_user()),
            Statement::DeleteUserByUsername { username: "bob".to_string() },
            Statement::DeleteUserByEmail { email: "b@x.io".to_string() },
            Statement::DeleteUser { user_id: UserId::new(6) },
        ]
    );
    let kinds: Vec<StatementKind> = batch.statements.iter().map(|s| s.kind()).collect();
    assert_eq!(
        kinds,
        vec![
            StatementKind::InsertUserByUsername,
            StatementKind::InsertUserByEmail,
            StatementKind::InsertUser,
            StatementKind::DeleteUserByUsername,
            StatementKind::DeleteUserByEmail,
            StatementKind::DeleteUser,
        ]
    );
}

#[test]
fn execute_batch_keeps_the_batch_as_assembled() {
    let repository = UserRepository::new("ks");
    let mut batch = Batch::new(BatchKind::Unlogged);
    batch.set_serial_consistency(Some(SerialConsistency::LocalSerial));
    batch.append_statement(Statement::DeleteUser { user_id: UserId::new(1) });
    let request = repository.execute_batch(batch);
    assert_eq!(
        request,
        Request::ExecuteBatch(Batch {
            kind: BatchKind::Unlogged,
            serial_consistency: Some(SerialConsistency::LocalSerial),
            statements: vec![Statement::DeleteUser { user_id: UserId::new(1) }],
        })
    );
}

#[test]
fn direct_operations_bind_their_values() {
    let repository = UserRepository::new("ks");
    assert_eq!(
        repository.find_user_by_id(UserId::new(1)),
        Request::FindUserById { user_id: UserId::new(1) }
    );
    assert_eq!(
        repository.find_user_id_by_username("alice"),
        Request::FindUserIdByUsername { username: "alice".to_string() }
    );
    assert_eq!(
        repository.find_user_id_by_email("a@x.io"),
        Request::FindUserIdByEmail { email: "a@x.io".to_string() }
    );
    assert_eq!(
        repository.find_user_details_for_delete(UserId::new(2)),
        Request::FindUserDetailsForDelete { user_id: UserId::new(2) }
    );
    assert_eq!(
        repository.update_profile_direct(
            UserId::new(3),
            Some("A"),
            None,
            false,
            true,
            Timestamp::new(9, 1_000_000)
        ),
        Request::UpdateProfile {
            user_id: UserId::new(3),
            first_name: Some("A".to_string()),
            last_name: None,
            is_active: false,
            email_verified: true,
            updated_at: Timestamp::new(9, 1_000_000),
        }
    );
    assert_eq!(
        repository.update_password_direct(UserId::new(4), "h2", Timestamp::new(9, 0)),
        Request::UpdatePassword {
            user_id: UserId::new(4),
            hashed_password: "h2".to_string(),
            updated_at: Timestamp::new(9, 0),
        }
    );
    assert_eq!(
        repository.update_last_login_direct(
            UserId::new(5),
            Timestamp::new(8, 0),
            Timestamp::new(9, 0)
        ),
        Request::UpdateLastLogin {
            user_id: UserId::new(5),
            login_time: Timestamp::new(8, 0),
            updated_at: Timestamp::new(9, 0),
        }
    );
}

#[test]
fn answers_are_read_as_what_was_asked_for() {
    assert_eq!(Response::BatchApplied(true).into_applied(), Ok(true));
    assert_eq!(Response::BatchApplied(false).into_applied(), Ok(false));
    assert_eq!(Response::UserRow(Some(sample_user())).into_user_row(), Ok(Some(sample_user())));
    assert_eq!(Response::UserRow(None).into_user_row(), Ok(None));
    assert_eq!(
        Response::UserIdRow(Some(UserId::new(7))).into_user_id_row(),
        Ok(Some(UserId::new(7)))
    );
    assert_eq!(
        Response::IdentifiersRow(Some(("a".to_string(), "b".to_string()))).into_identifiers_row(),
        Ok(Some(("a".to_string(), "b".to_string())))
    );
    assert_eq!(Response::Written.into_written(), Ok(()));
}

#[test]
fn answers_that_carry_an_error_give_it() {
    let failure = DatabaseFault { retryable: true, detail: "timeout".to_string() };
    assert_eq!(
        Response::Failed(DatabaseFault { retryable: true, detail: "timeout".to_string() })
            .into_user_row(),
        Err(UserManagerError::DatabaseError(failure))
    );
    assert_eq!(
        Response::Undecodable("bad".to_string()).into_user_id_row(),
        Err(UserManagerError::RowDecodeError("bad".to_string()))
    );
    let unexpected = UserManagerError::DatabaseError(DatabaseFault {
        retryable: false,
        detail: "unexpected response".to_string(),
    });
    assert_eq!(Response::Written.into_applied(), Err(unexpected));
    assert!(Response::BatchApplied(true).into_written().is_err());
    assert!(Response::UserIdRow(None).into_user_row().is_err());
    assert!(Response::UserRow(None).into_user_id_row().is_err());
    assert!(Response::UserRow(None).into_identifiers_row().is_err());
}

#[test]
fn account_reduces_to_its_authentication_details() {
    let details = sample_user().into_auth_details();
    assert_eq!(details.user_id, UserId::new(5));
    assert_eq!(details.username, "alice");
    assert_eq!(details.email, "a@x.io");
    assert_eq!(details.hashed_password, "h1");
    assert!(details.is_active);
    assert!(!details.email_verified);
    assert_eq!(details.clone(), details);
    assert_eq!(sample_user().clone(), sample_user());
}

#[test]
fn optional_texts_are_copied() {
    assert_eq!(clone_opt_text(&Some("x".to_string())), Some("x".to_string()));
    assert_eq!(clone_opt_text(&None), None);
    assert_eq!(own_opt_str(Some("y")), Some("y".to_string()));
    assert_eq!(own_opt_str(None), None);
}

#[test]
fn character_search() {
    assert!(contains_char("a@x.io", '@'));
    assert!(contains_char("@", '@'));
    assert!(contains_char("trailing@", '@'));
    assert!(!contains_char("erin", '@'));
    assert!(!contains_char("", '@'));
    assert!(contains_char("héllo@wörld", '@'));
    assert!(contains_char("héllo", 'é'));
    assert!(!contains_char("hello", 'é'));
}
