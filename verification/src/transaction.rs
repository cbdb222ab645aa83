use vstd::prelude::*;
use vstd::string::StringExecFns;
use vstd::std_specs::convert::FromSpecImpl;
use crate::database_error::{database_error_text, DatabaseError};
use crate::text::{decimal, u64_to_decimal};

verus! {

/// How often a transaction is attempted before giving up on serialization errors.
pub const MAXIMUM_ATTEMPTS: usize = 5;

/// Why running an operation in a transaction failed.
#[derive(Clone, Debug, PartialEq, Eq)]
pub enum TransactionError<ApplicationError> {
    Database(DatabaseError),
    Application(ApplicationError),
    Rollback(Option<String>),
    AttemptsExhausted { limit: usize },
}

impl<ApplicationError> From<DatabaseError> for TransactionError<ApplicationError> {
    fn from(error: DatabaseError) -> (transaction_error: Self) {
        TransactionError::Database(error)
    }
}

impl<ApplicationError> FromSpecImpl<DatabaseError> for TransactionError<ApplicationError> {
    open spec fn obeys_from_spec() -> bool {
        true
    }

    open spec fn from_spec(error: DatabaseError) -> Self {
        TransactionError::Database(error)
    }
}

/// The suffix that shows the reason of a rollback: `": <reason>"`, or nothing.
pub open spec fn rollback_reason_text(reason: Option<Seq<char>>) -> Seq<char> {
    match reason {
        Some(reason) => ": "@ + reason,
        None => Seq::empty(),
    }
}

/// Writes the suffix that shows the reason of a rollback.
pub fn rollback_reason_string(reason: Option<&str>) -> (text: String)
    ensures
        text@ == rollback_reason_text(match reason {
            Some(reason) => Some(reason@),
            None => None,
        }),
{
    match reason {
        Some(reason) => {
            let mut text = String::from_str(": ");
            text.append(reason);
            text
        },
        None => String::new(),
    }
}

/// How a transaction error is shown, unless it is an application error, which
/// shows as the application error itself.
pub open spec fn transaction_error_text<E>(error: TransactionError<E>) -> Option<Seq<char>> {
    match error {
        TransactionError::Database(database_error) => Some("Database error: "@ + database_error_text(database_error)),
        TransactionError::Application(_) => None,
        TransactionError::Rollback(reason) => Some("Transaction rolled back"@ + rollback_reason_text(match reason {
            Some(reason) => Some(reason@),
            None => None,
        })),
        TransactionError::AttemptsExhausted { limit } =>
            Some("Maximum attempts exceeded ("@ + decimal(limit as nat) + ")"@),
    }
}

impl<ApplicationError> TransactionError<ApplicationError> {
    /// The text by which the error is shown; `None` for an application error,
    /// which is shown as the application error itself.
    pub fn to_display_string(&self) -> (text: Option<String>)
        ensures
            match (text, transaction_error_text(*self)) {
                (Some(text), Some(expected)) => text@ == expected,
                (None, None) => true,
                _ => false,
            },
    {
        match self {
            TransactionError::Database(database_error) => {
                let mut text = String::from_str("Database error: ");
                let cause = database_error.to_display_string();
                text.append(cause.as_str());
                Some(text)
            },
            TransactionError::Application(_) => None,
            TransactionError::Rollback(reason) => {
                let mut text = String::from_str("Transaction rolled back");
                let suffix = match reason {
                    Some(reason) => rollback_reason_string(Some(reason.as_str())),
                    None => rollback_reason_string(None),
                };
                text.append(suffix.as_str());
                Some(text)
            },
            TransactionError::AttemptsExhausted { limit } => {
                let mut text = String::from_str("Maximum attempts exceeded (");
                let shown = u64_to_decimal(*limit as u64);
                text.append(shown.as_str());
                text.append(")");
                Some(text)
            },
        }
    }
}

/// What to do once the operation inside a transaction has finished.
#[derive(Debug)]
pub enum OperationStep<Output, ApplicationError> {
    /// Commit the transaction, then return the output.
    Commit(Output),
    /// Roll back, then begin another attempt; the serialization error that caused it.
    RollbackAndRetry(String),
    /// Roll back, then give up with `AttemptsExhausted`.
    RollbackAndGiveUp,
    /// Roll back, then return this error.
    RollbackAndFail(TransactionError<ApplicationError>),
}

/// Counts the attempts of running an operation in a transaction.
pub struct TransactionAttempts {
    started: usize,
}

impl TransactionAttempts {
    /// How many attempts have begun.
    pub closed spec fn started(&self) -> nat {
        self.started as nat
    }

    /// No attempt has begun yet.
    pub fn new() -> (attempts: Self)
        ensures
            attempts.started() == 0,
    {
        TransactionAttempts { started: 0 }
    }

    /// Begins the next attempt, if one is left.
    pub fn begin_attempt(&mut self) -> (begun: bool)
        requires
            old(self).started() <= MAXIMUM_ATTEMPTS,
        ensures
            begun == (old(self).started() < MAXIMUM_ATTEMPTS),
            final(self).started() == (if begun { old(self).started() + 1 } else { old(self).started() }),
            final(self).started() <= MAXIMUM_ATTEMPTS,
    {
        if self.started < MAXIMUM_ATTEMPTS {
            self.started = self.started + 1;
            true
        } else {
            false
        }
    }

    /// Decides how to end the current attempt: a result is committed, a
    /// serialization error is rolled back and retried while attempts are left,
    /// every other error is rolled back and returned.
    pub fn after_operation<Output, ApplicationError>(
        &self,
        outcome: Result<Output, TransactionError<ApplicationError>>,
    ) -> (step: OperationStep<Output, ApplicationError>)
        ensures
            match outcome {
                Ok(output) => step == OperationStep::<Output, ApplicationError>::Commit(output),
                Err(TransactionError::Database(DatabaseError::TransactionSerialization(cause))) =>
                    if self.started() < MAXIMUM_ATTEMPTS {
                        step == OperationStep::<Output, ApplicationError>::RollbackAndRetry(cause)
                    } else {
                        step == OperationStep::<Output, ApplicationError>::RollbackAndGiveUp
                    },
                Err(error) => step == OperationStep::<Output, ApplicationError>::RollbackAndFail(error),
            },
    {
        match outcome {
            Ok(output) => OperationStep::Commit(output),
            Err(TransactionError::Database(DatabaseError::TransactionSerialization(cause))) => {
                if self.started < MAXIMUM_ATTEMPTS {
                    OperationStep::RollbackAndRetry(cause)
                } else {
                    OperationStep::RollbackAndGiveUp
                }
            },
            Err(error) => OperationStep::RollbackAndFail(error),
        }
    }

    /// The error returned once all attempts failed with serialization errors.
    pub fn exhausted<ApplicationError>() -> (error: TransactionError<ApplicationError>)
        ensures
            error == (TransactionError::<ApplicationError>::AttemptsExhausted { limit: MAXIMUM_ATTEMPTS }),
    {
        TransactionError::AttemptsExhausted { limit: MAXIMUM_ATTEMPTS }
    }
}

} // verus!
