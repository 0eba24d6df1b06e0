use crate::connection::{same_text, state_view, InternalConnectionState};
use crate::error::OrmError;
use crate::policy::{duration_is_zero, duration_nanos};
use crate::schema::{org_schema, ORG_SCHEMA};
use std::time::Duration;
use vstd::prelude::*;

verus! {

/// The row that the Diesel companion reads back after it has installed the
/// schema and read-only settings on its connection.
pub struct StateRow {
    pub schema_name: Option<String>,
    pub transaction_read_only: String,
}

/// The message of the error for a Diesel connection that did not take the
/// policy.
pub open spec fn diesel_mismatch_message() -> Seq<char> {
    "Diesel schema or read-only policy does not match"@
}

/// Whether a row shows the organization schema and read-only transactions.
pub open spec fn row_meets_policy(row: &StateRow) -> bool {
    &&& row.schema_name matches Some(s) && s@ == org_schema()
    &&& row.transaction_read_only@ == "on"@
}

/// Accepts the row only where the connection sits in the organization
/// schema with read-only transactions, and then reports exactly that state.
pub fn verify(row: StateRow) -> (r: Result<InternalConnectionState, OrmError>)
    ensures
        row_meets_policy(&row) ==> (r matches Ok(s) && state_view(&s) == (org_schema(), true)),
        !row_meets_policy(&row) ==> (r matches Err(OrmError::Policy(m)) && m@ == diesel_mismatch_message()),
        r is Ok <==> (row.schema_name matches Some(s) && s@ == ORG_SCHEMA@ && row.transaction_read_only@ == "on"@),
        r matches Ok(s) ==> (s.schema@ == ORG_SCHEMA@ && s.transaction_read_only),
{
    let schema_ok = match &row.schema_name {
        Some(s) => same_text(s.as_str(), ORG_SCHEMA),
        None => false,
    };
    if !schema_ok || !same_text(row.transaction_read_only.as_str(), "on") {
        return Err(OrmError::policy("Diesel schema or read-only policy does not match"));
    }
    Ok(InternalConnectionState { schema: ORG_SCHEMA.to_owned(), transaction_read_only: true })
}

/// The message of the error that stands for any Diesel driver failure.
pub open spec fn unavailable_message() -> Seq<char> {
    "Diesel read connection unavailable"@
}

/// The error for any failure of the Diesel companion; driver diagnostics can
/// carry URLs or server identity data, so none of them is kept.
pub fn unavailable() -> (e: OrmError)
    ensures
        e matches OrmError::Database(m) && m@ == unavailable_message(),
{
    OrmError::database("Diesel read connection unavailable")
}

/// The message of the error for a zero acquisition timeout.
pub open spec fn zero_timeout_message() -> Seq<char> {
    "Diesel acquisition timeout must be positive"@
}

/// The Diesel companion only accepts a positive acquisition timeout.
pub fn check_acquire_timeout(timeout: Duration) -> (r: Result<(), OrmError>)
    ensures
        duration_nanos(timeout) == 0 <==> r is Err,
        r matches Err(e) ==> (e matches OrmError::Policy(m) && m@ == zero_timeout_message()),
{
    if duration_is_zero(&timeout) {
        return Err(OrmError::policy("Diesel acquisition timeout must be positive"));
    }
    Ok(())
}

} // verus!
