use communityvi::database_error::{classify_constraint_violation, DatabaseError, LibSqlError, PoolError, TursoError};
use communityvi::model::{collect_room_users, OptionalUser, User, Uuid};
use communityvi::pool::{check_ping_first_row, check_ping_no_more_rows, RecycleError};
use communityvi::repository::{LibSqlRepository, SqliteRepository, TursoRepository};
use communityvi::transaction::{rollback_reason_string, OperationStep, TransactionAttempts, TransactionError, MAXIMUM_ATTEMPTS};

fn sqlite_failure(code: i32) -> LibSqlError {
    LibSqlError::SqliteFailure {
        code,
        message: format!("message {code}"),
        text: format!("SQLite failure: {code}"),
    }
}

#[test]
fn check_constraint_failures_are_other_constraint_violations() {
    // An empty chat message violates a check constraint (SQLITE_CONSTRAINT_CHECK).
    match DatabaseError::from(sqlite_failure(275)) {
        DatabaseError::OtherConstraintViolation(_) => {}
        error => panic!("Unexpected error: {error:?}"),
    }
}

#[test]
fn unique_constraint_failures_are_unique_violations() {
    // A duplicate name violates a unique constraint (SQLITE_CONSTRAINT_UNIQUE).
    match DatabaseError::from(sqlite_failure(2067)) {
        DatabaseError::UniqueViolation(message) => assert_eq!("message 2067", message),
        error => panic!("Expected UniqueViolation, got: {error:?}"),
    }
}

#[test]
fn sqlite_failure_codes_are_classified() {
    assert!(matches!(DatabaseError::from(sqlite_failure(1555)), DatabaseError::UniqueViolation(_)));
    assert!(matches!(DatabaseError::from(sqlite_failure(787)), DatabaseError::ForeignKeyViolation(_)));
    for code in [275, 531, 3091, 1043, 1299, 2835, 2579, 1811] {
        assert!(matches!(
            DatabaseError::from(sqlite_failure(code)),
            DatabaseError::OtherConstraintViolation(_)
        ));
    }
    assert!(matches!(DatabaseError::from(sqlite_failure(773)), DatabaseError::Timeout(_)));
    assert!(matches!(DatabaseError::from(sqlite_failure(3338)), DatabaseError::Connection(_)));
    assert_eq!(
        DatabaseError::Database("SQLite failure: 1".to_string()),
        DatabaseError::from(sqlite_failure(1))
    );
    assert_eq!(
        DatabaseError::NotFound("no rows".to_string()),
        DatabaseError::from(LibSqlError::QueryReturnedNoRows("no rows".to_string()))
    );
    assert_eq!(
        DatabaseError::Decode("bad column".to_string()),
        DatabaseError::from(LibSqlError::InvalidColumnType("bad column".to_string()))
    );
}

#[test]
fn constraint_violations_are_classified_by_message() {
    let unique = classify_constraint_violation("UNIQUE constraint failed: user.name", "cause".to_string());
    assert_eq!(DatabaseError::UniqueViolation("cause".to_string()), unique);
    let primary = classify_constraint_violation("PRIMARY KEY constraint failed: test.number", "cause".to_string());
    assert_eq!(DatabaseError::UniqueViolation("cause".to_string()), primary);
    let foreign = classify_constraint_violation("FOREIGN KEY constraint failed", "cause".to_string());
    assert_eq!(DatabaseError::ForeignKeyViolation("cause".to_string()), foreign);
    let other = classify_constraint_violation("CHECK constraint failed: length(message) > 0", "cause".to_string());
    assert_eq!(DatabaseError::OtherConstraintViolation("cause".to_string()), other);
}

#[test]
fn turso_and_pool_errors_are_classified() {
    assert_eq!(
        DatabaseError::TransactionSerialization("snapshot".to_string()),
        DatabaseError::from(TursoError::BusySnapshot("snapshot".to_string()))
    );
    assert_eq!(
        DatabaseError::UniqueViolation("text".to_string()),
        DatabaseError::from(TursoError::Constraint {
            message: "UNIQUE constraint failed: user.normalized_name".to_string(),
            text: "text".to_string(),
        })
    );
    assert_eq!(
        DatabaseError::Timeout("waited".to_string()),
        DatabaseError::from(PoolError::<TursoError>::Timeout("waited".to_string()))
    );
    assert_eq!(
        DatabaseError::Connection("closed".to_string()),
        DatabaseError::from(PoolError::<LibSqlError>::Closed("closed".to_string()))
    );
    assert_eq!(
        DatabaseError::Timeout("busy".to_string()),
        DatabaseError::from(PoolError::Backend(TursoError::Busy("busy".to_string())))
    );
}

#[test]
fn database_errors_are_shown_with_their_cause() {
    assert_eq!("Entity not found", DatabaseError::NotFound("x".to_string()).to_display_string());
    assert_eq!(
        "Unique constraint violation: user.name",
        DatabaseError::UniqueViolation("user.name".to_string()).to_display_string()
    );
    assert_eq!(
        "Repository and connection are for different databases: Expected Turso connection",
        DatabaseError::DatabaseMismatch("Expected Turso connection".to_string()).to_display_string()
    );
}

#[test]
fn room_users_are_read_from_complete_rows() {
    let alice = User {
        uuid: Uuid { value: 1 },
        name: "Alice".to_string(),
        normalized_name: "alice".to_string(),
    };
    let bob = User {
        uuid: Uuid { value: 2 },
        name: "Bob".to_string(),
        normalized_name: "bob".to_string(),
    };
    let row = |user: &User| OptionalUser {
        uuid: Some(user.uuid),
        name: Some(user.name.clone()),
        normalized_name: Some(user.normalized_name.clone()),
    };
    let empty_row = OptionalUser {
        uuid: None,
        name: None,
        normalized_name: None,
    };
    assert_eq!(
        Ok(vec![alice.clone(), bob.clone()]),
        collect_room_users(vec![row(&alice), row(&bob)])
    );
    assert_eq!(Ok(vec![]), SqliteRepository.room_users_from_rows(vec![empty_row.clone()]));
    assert_eq!(
        Err(DatabaseError::NotFound("Room not found".to_string())),
        LibSqlRepository.room_users_from_rows(vec![])
    );
    assert_eq!(Ok(vec![bob.clone()]), TursoRepository.room_users_from_rows(vec![empty_row, row(&bob)]));
}

#[test]
fn successful_operations_are_committed() {
    let mut attempts = TransactionAttempts::new();
    assert!(attempts.begin_attempt());
    match attempts.after_operation::<i32, ()>(Ok(42)) {
        OperationStep::Commit(output) => assert_eq!(42, output),
        step => panic!("Unexpected step {step:?}"),
    }
}

#[test]
fn transactions_retry_serialization_errors_until_attempts_are_exhausted() {
    let mut attempts = TransactionAttempts::new();
    let mut retries = 0;
    loop {
        assert!(attempts.begin_attempt());
        let outcome: Result<(), TransactionError<()>> =
            Err(DatabaseError::TransactionSerialization("busy snapshot".to_string()).into());
        match attempts.after_operation(outcome) {
            OperationStep::RollbackAndRetry(cause) => {
                assert_eq!("busy snapshot", cause);
                retries += 1;
            }
            OperationStep::RollbackAndGiveUp => break,
            step => panic!("Unexpected step {step:?}"),
        }
    }
    assert_eq!(MAXIMUM_ATTEMPTS - 1, retries);
    assert!(!attempts.begin_attempt());
    assert_eq!(
        TransactionError::<()>::AttemptsExhausted { limit: 5 },
        TransactionAttempts::exhausted::<()>()
    );
}

#[test]
fn transactions_return_other_errors_after_rollback() {
    let mut attempts = TransactionAttempts::new();
    assert!(attempts.begin_attempt());
    match attempts.after_operation::<(), &str>(Err(TransactionError::Application("nope"))) {
        OperationStep::RollbackAndFail(TransactionError::Application(error)) => assert_eq!("nope", error),
        step => panic!("Unexpected step {step:?}"),
    }
}

#[test]
fn transaction_errors_are_shown() {
    assert_eq!(": reason", rollback_reason_string(Some("reason")));
    assert_eq!("", rollback_reason_string(None));
    assert_eq!(
        Some("Transaction rolled back: too late".to_string()),
        TransactionError::<()>::Rollback(Some("too late".to_string())).to_display_string()
    );
    assert_eq!(
        Some("Transaction rolled back".to_string()),
        TransactionError::<()>::Rollback(None).to_display_string()
    );
    assert_eq!(
        Some("Maximum attempts exceeded (5)".to_string()),
        TransactionError::<()>::AttemptsExhausted { limit: 5 }.to_display_string()
    );
    assert_eq!(
        Some("Database error: Timeout: busy".to_string()),
        TransactionError::<()>::Database(DatabaseError::Timeout("busy".to_string())).to_display_string()
    );
    assert_eq!(None, TransactionError::Application(()).to_display_string());
}

#[test]
fn ping_answers_are_checked() {
    assert_eq!(Ok(()), check_ping_first_row::<()>(Some(Ok(1))));
    assert_eq!(
        Err(RecycleError::Message("Ping query returned zero results".to_string())),
        check_ping_first_row::<()>(None)
    );
    assert_eq!(
        Err(RecycleError::Message("Ping query returned unexpected result".to_string())),
        check_ping_first_row::<()>(Some(Ok(2)))
    );
    assert_eq!(Err(RecycleError::Backend("io")), check_ping_first_row(Some(Err("io"))));
    assert_eq!(Ok(()), check_ping_no_more_rows::<()>(Ok(false)));
    assert_eq!(
        Err(RecycleError::Message("Ping query returned more than one result".to_string())),
        check_ping_no_more_rows::<()>(Ok(true))
    );
}
