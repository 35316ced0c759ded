use vstd::prelude::*;

verus! {

#[verifier::external_type_specification]
#[verifier::external_body]
pub struct ExDatabaseError(sqlx::Error);

/// What a failed insert of an account is told apart by: whether the
/// username or the email is already taken.
#[derive(Debug, Clone, Copy, PartialEq, Eq, Structural)]
pub enum SqlError {
    /// The username or the email is already registered.
    UniqueConstraintViolation,
    /// Any other failure of the storage.
    Other,
}

/// What an error of the storage reports: `None` where it did not come from
/// the database, and else whether a uniqueness constraint was violated.
pub uninterp spec fn reported_violation(error: sqlx::Error) -> Option<bool>;

/// Calls `Error::as_database_error` of `sqlx` and, on an error that the
/// database returned, `DatabaseError::is_unique_violation`. The contract
/// names the outcome `reported_violation`, a function of the error alone.
#[verifier::external_body]
fn unique_violation(error: &sqlx::Error) -> (violation: Option<bool>)
    ensures
        violation == reported_violation(*error),
{
    error.as_database_error().map(|e| e.is_unique_violation())
}

/// The error that stands for a failed insert, from what was reported of it:
/// a conflict exactly where a uniqueness constraint was violated.
pub open spec fn error_of(violation: Option<bool>) -> SqlError {
    if violation == Some(true) {
        SqlError::UniqueConstraintViolation
    } else {
        SqlError::Other
    }
}

impl SqlError {
    /// The error that stands for a failed insert: `violation` is `None`
    /// where the failure did not come from the database, and else says
    /// whether a uniqueness constraint was violated.
    pub fn from_violation(violation: Option<bool>) -> (error: SqlError)
        ensures
            error == error_of(violation),
    {
        match violation {
            Some(true) => SqlError::UniqueConstraintViolation,
            _ => SqlError::Other,
        }
    }
}

impl From<sqlx::Error> for SqlError {
    /// The error that stands for an error of the storage: a conflict exactly
    /// where the database reports a violated uniqueness constraint.
    fn from(value: sqlx::Error) -> (r: SqlError)
        ensures
            r == error_of(reported_violation(value)),
    {
        SqlError::from_violation(unique_violation(&value))
    }
}

impl vstd::std_specs::convert::FromSpecImpl<sqlx::Error> for SqlError {
    open spec fn obeys_from_spec() -> bool {
        true
    }

    open spec fn from_spec(value: sqlx::Error) -> SqlError {
        error_of(reported_violation(value))
    }
}

} // verus!
