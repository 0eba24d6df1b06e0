//! What holds across the functions of the crate: the two drivers of a read
//! context are held to one and the same policy, and the roles never accept
//! the same connection.

use crate::connection::{
    connection_verdict, options_join, startup_options_spec, state_from_settings_spec, state_view,
    InternalConnectionState, Role,
};
use crate::diesel_connection::{row_meets_policy, StateRow};
use crate::schema::{org_schema, ORG_SCHEMA};
use vstd::prelude::*;

verus! {

/// Both roles pin the search path to the organization schema first; a read
/// role adds exactly `default_transaction_read_only=on`, and a write role
/// names no transaction policy at all.
pub proof fn lemma_startup_options_pin_policy()
    ensures
        startup_options_spec(Role::ReadWrite) == seq![("search_path"@, ORG_SCHEMA@)],
        startup_options_spec(Role::ReadOnly) == seq![
            ("search_path"@, ORG_SCHEMA@),
            ("default_transaction_read_only"@, "on"@),
        ],
        startup_options_spec(Role::ReadOnly)[0] == ("search_path"@, org_schema()),
        startup_options_spec(Role::ReadWrite)[0] == ("search_path"@, org_schema()),
        startup_options_spec(Role::ReadOnly) == startup_options_spec(Role::ReadWrite).push(
            ("default_transaction_read_only"@, "on"@),
        ),
        forall|i: int|
            0 <= i < startup_options_spec(Role::ReadWrite).len()
                ==> (#[trigger] startup_options_spec(Role::ReadWrite)[i]).0 != "default_transaction_read_only"@,
{
    reveal_strlit("search_path");
    reveal_strlit("default_transaction_read_only");
    assert(startup_options_spec(Role::ReadWrite).len() == 1);
    assert("search_path"@ != "default_transaction_read_only"@) by {
        assert("search_path"@[0] != "default_transaction_read_only"@[0]);
    }
}

/// A connection that a read context accepts sits in the organization schema
/// with read-only transactions: exactly the state the Diesel companion
/// reports once it accepts its own connection, so the two drivers of an
/// accepted read context agree.
pub proof fn lemma_accepted_read_state_is_canonical(state: (Seq<char>, bool))
    requires
        connection_verdict(state, Role::ReadOnly) is Ok,
    ensures
        state == (org_schema(), true),
{
}

/// No connection is accepted both as a read connection and as a write
/// connection.
pub proof fn lemma_roles_exclusive(state: (Seq<char>, bool))
    ensures
        !(connection_verdict(state, Role::ReadOnly) is Ok && connection_verdict(state, Role::ReadWrite) is Ok),
{
}

/// A connection in the organization schema whose
/// `default_transaction_read_only` reads `on` is accepted as a read
/// connection, and refused as one when it reads anything else.
pub proof fn lemma_read_verdict_follows_setting(read_only: Seq<char>)
    ensures
        connection_verdict(state_from_settings_spec(org_schema(), read_only), Role::ReadOnly) is Ok
            <==> read_only == "on"@,
{
}

/// A read context whose SeaORM connection was accepted, and whose Diesel
/// companion accepted its own connection (and so reports the organization
/// schema with read-only transactions), has drivers that report the same
/// state, and that state is read-only: the evidence is handed out and the
/// context is ready.
pub proof fn lemma_accepted_context_is_ready(sea: (Seq<char>, bool), diesel: (Seq<char>, bool))
    requires
        connection_verdict(sea, Role::ReadOnly) is Ok,
        diesel == (org_schema(), true),
    ensures
        sea == diesel,
        sea.1,
{
}

/// Whatever startup-options text a URL brings, a read connection is opened
/// with the text of a write connection followed by exactly
/// ` -c default_transaction_read_only=on`, and a write connection with the
/// URL's text followed by the pinned search path alone.
pub proof fn lemma_read_options_add_only_read_only(base: Seq<char>)
    ensures
        options_join(base, startup_options_spec(Role::ReadWrite)) == (if base.len() == 0 {
            base
        } else {
            base + " "@
        }) + "-c "@ + "search_path"@ + "="@ + org_schema(),
        options_join(base, startup_options_spec(Role::ReadOnly)) == options_join(
            base,
            startup_options_spec(Role::ReadWrite),
        ) + " "@ + "-c "@ + "default_transaction_read_only"@ + "="@ + "on"@,
{
    let w = startup_options_spec(Role::ReadWrite);
    let r = startup_options_spec(Role::ReadOnly);
    assert(w.drop_last() =~= Seq::<(Seq<char>, Seq<char>)>::empty());
    assert(options_join(base, w.drop_last()) == base);
    assert(w.last() == ("search_path"@, org_schema()));
    assert(r.drop_last() =~= w);
    assert(r.last() == ("default_transaction_read_only"@, "on"@));
    let written = options_join(base, w);
    reveal_strlit("-c ");
    assert(written.len() > 0);
}

/// A freshly opened connection is accepted only in exactly the organization
/// schema, whatever the role: a read connection exactly when its
/// transactions start read-only, a write connection exactly when they do
/// not. Any other schema, one that merely starts with the organization's
/// name included, is refused.
pub proof fn lemma_verdict_accepts_only_the_org_schema(state: (Seq<char>, bool), role: Role)
    ensures
        connection_verdict(state, role) is Ok ==> state.0 == ORG_SCHEMA@,
        connection_verdict(state, Role::ReadOnly) is Ok <==> state == (ORG_SCHEMA@, true),
        connection_verdict(state, Role::ReadWrite) is Ok <==> state == (ORG_SCHEMA@, false),
        state.0 != ORG_SCHEMA@ ==> connection_verdict(state, role) is Err,
{
}

/// The Diesel companion's row meets the policy exactly when it names the
/// organization schema itself and reads `on` for read-only transactions.
pub proof fn lemma_row_policy_is_exact(row: &StateRow)
    ensures
        row_meets_policy(row) <==> (row.schema_name matches Some(s) && s@ == ORG_SCHEMA@
            && row.transaction_read_only@ == "on"@),
        row.schema_name is None ==> !row_meets_policy(row),
{
}

/// A reported state keeps the schema exactly as the connection reported it,
/// whatever it is, and is read-only exactly when the setting reads `on`.
pub proof fn lemma_settings_keep_reported_schema(schema: Seq<char>, read_only: Seq<char>)
    ensures
        state_from_settings_spec(schema, read_only).0 == schema,
        state_from_settings_spec(schema, read_only).1 <==> read_only == "on"@,
{
}

/// The view of a reported state is its schema's characters and its flag.
pub proof fn lemma_state_view_is_faithful(s: &InternalConnectionState)
    ensures
        state_view(s).0 == s.schema@,
        state_view(s).1 == s.transaction_read_only,
{
}

} // verus!
