use vstd::prelude::*;

verus! {

/// Errors of the crate. Driver diagnostics are reduced to a message; the
/// policy variant names a violated connection policy.
#[derive(Debug, Clone)]
pub enum OrmError {
    /// The database or its driver failed.
    Database(String),
    /// A connection did not meet the schema or read-only policy.
    Policy(String),
}

impl OrmError {
    /// A policy violation with the given message.
    pub fn policy(message: &str) -> (e: OrmError)
        ensures
            e matches OrmError::Policy(m) && m@ == message@,
    {
        OrmError::Policy(message.to_owned())
    }

    /// A database failure with the given message.
    pub fn database(message: &str) -> (e: OrmError)
        ensures
            e matches OrmError::Database(m) && m@ == message@,
    {
        OrmError::Database(message.to_owned())
    }

    /// The message carried by the error.
    pub fn message(&self) -> (m: &str)
        ensures
            m@ == match self {
                OrmError::Database(s) => s@,
                OrmError::Policy(s) => s@,
            },
    {
        match self {
            OrmError::Database(s) => s.as_str(),
            OrmError::Policy(s) => s.as_str(),
        }
    }
}

} // verus!
