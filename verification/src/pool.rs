use vstd::prelude::*;
use vstd::string::StringExecFns;

verus! {

/// Why a pooled connection cannot be reused.
#[derive(Clone, Debug, PartialEq, Eq)]
pub enum RecycleError<E> {
    Message(String),
    Backend(E),
}

/// Checks the first row that the ping query `SELECT 1` returned: there must be
/// one, and its value must be 1.
pub fn check_ping_first_row<E>(first: Option<Result<i64, E>>) -> (checked: Result<(), RecycleError<E>>)
    ensures
        match first {
            None => checked matches Err(RecycleError::Message(message))
                && message@ == "Ping query returned zero results"@,
            Some(Err(error)) => checked == Err::<(), RecycleError<E>>(RecycleError::Backend(error)),
            Some(Ok(value)) => if value == 1 {
                checked == Ok::<(), RecycleError<E>>(())
            } else {
                checked matches Err(RecycleError::Message(message))
                    && message@ == "Ping query returned unexpected result"@
            },
        },
{
    match first {
        None => Err(RecycleError::Message(String::from_str("Ping query returned zero results"))),
        Some(Err(error)) => Err(RecycleError::Backend(error)),
        Some(Ok(value)) => if value == 1 {
            Ok(())
        } else {
            Err(RecycleError::Message(String::from_str("Ping query returned unexpected result")))
        },
    }
}

/// Checks what fetching one more row of the ping query gave: there must be no
/// further row.
pub fn check_ping_no_more_rows<E>(next: Result<bool, E>) -> (checked: Result<(), RecycleError<E>>)
    ensures
        match next {
            Err(error) => checked == Err::<(), RecycleError<E>>(RecycleError::Backend(error)),
            Ok(true) => checked matches Err(RecycleError::Message(message))
                && message@ == "Ping query returned more than one result"@,
            Ok(false) => checked == Ok::<(), RecycleError<E>>(()),
        },
{
    match next {
        Err(error) => Err(RecycleError::Backend(error)),
        Ok(true) => Err(RecycleError::Message(String::from_str("Ping query returned more than one result"))),
        Ok(false) => Ok(()),
    }
}

} // verus!
