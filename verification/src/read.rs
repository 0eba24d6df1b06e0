//! Read-only, policy-aware evidence about the active connection. Business
//! reads added here must carry tenant/user scope and apply redaction; raw
//! query builders stay private to this crate.

use crate::connection::{state_view, InternalConnectionState};
use crate::error::OrmError;
use vstd::prelude::*;

verus! {

/// Safe, implementation-independent evidence about the active connection.
#[derive(Debug, Clone, Eq)]
pub struct ConnectionState {
    schema: String,
    transaction_read_only: bool,
}

impl View for ConnectionState {
    type V = (Seq<char>, bool);

    /// The schema's characters and whether transactions start read-only.
    closed spec fn view(&self) -> (Seq<char>, bool) {
        (self.schema@, self.transaction_read_only)
    }
}

impl PartialEq for ConnectionState {
    fn eq(&self, other: &Self) -> (r: bool) {
        self.schema == other.schema && self.transaction_read_only == other.transaction_read_only
    }
}

impl vstd::std_specs::cmp::PartialEqSpecImpl for ConnectionState {
    open spec fn obeys_eq_spec() -> bool {
        true
    }

    open spec fn eq_spec(&self, other: &Self) -> bool {
        self@ == other@
    }
}

impl ConnectionState {
    /// The evidence that a reported connection state gives.
    pub fn from_internal(state: InternalConnectionState) -> (s: Self)
        ensures
            s@ == state_view(&state),
            s@ == (state.schema@, state.transaction_read_only),
    {
        ConnectionState { schema: state.schema, transaction_read_only: state.transaction_read_only }
    }

    /// The schema the connection resolved.
    pub fn schema(&self) -> (s: &str)
        ensures
            s@ == self@.0,
    {
        self.schema.as_str()
    }

    /// Whether the connection starts every transaction read-only.
    pub fn transaction_read_only(&self) -> (b: bool)
        ensures
            b == self@.1,
    {
        self.transaction_read_only
    }
}

/// The message of the error for drivers whose policies disagree.
pub open spec fn disagreement_message() -> Seq<char> {
    "Diesel and SeaORM read policies disagree"@
}

/// The evidence of a read context whose two drivers reported `sea` and
/// `diesel`: accepted only where both report the same schema and the same
/// transaction policy, and then that state.
pub fn agreed_state(sea: InternalConnectionState, diesel: InternalConnectionState) -> (r: Result<ConnectionState, OrmError>)
    ensures
        state_view(&sea) == state_view(&diesel) ==> (r matches Ok(s) && s@ == state_view(&sea)),
        state_view(&sea) != state_view(&diesel) ==> (r matches Err(OrmError::Policy(m)) && m@ == disagreement_message()),
        r is Ok <==> (sea.schema@ == diesel.schema@ && sea.transaction_read_only == diesel.transaction_read_only),
        r matches Ok(s) ==> s@ == (sea.schema@, sea.transaction_read_only),
{
    if sea != diesel {
        return Err(OrmError::policy("Diesel and SeaORM read policies disagree"));
    }
    Ok(ConnectionState::from_internal(sea))
}

/// The message of the error for a read context that lost its read-only
/// transaction policy.
pub open spec fn lost_read_only_message() -> Seq<char> {
    "read context lost its read-only transaction policy"@
}

/// The readiness verdict on the evidence of a read context: ready exactly
/// when its transactions start read-only.
pub fn ping_verdict(state: &ConnectionState) -> (r: Result<(), OrmError>)
    ensures
        state@.1 ==> r is Ok,
        !state@.1 ==> (r matches Err(OrmError::Policy(m)) && m@ == lost_read_only_message()),
{
    if state.transaction_read_only() {
        Ok(())
    } else {
        Err(OrmError::policy("read context lost its read-only transaction policy"))
    }
}

} // verus!
