use crate::error::OrmError;
use crate::schema::{org_schema, ORG_SCHEMA};
use sea_orm::sqlx::postgres::PgConnectOptions;
use vstd::prelude::*;

verus! {

/// The capability a context is opened with.
#[derive(Debug, Clone, Copy, PartialEq, Eq, Structural)]
pub enum Role {
    /// Every transaction starts read-only.
    ReadOnly,
    /// Transactions may write.
    ReadWrite,
}

/// The session settings, as (name, value) pairs, that a role's connections
/// are opened with: the schema search path is always pinned to the
/// organization schema, and read-only connections also start every
/// transaction read-only.
pub open spec fn startup_options_spec(role: Role) -> Seq<(Seq<char>, Seq<char>)> {
    let pinned = seq![("search_path"@, org_schema())];
    match role {
        Role::ReadOnly => pinned.push(("default_transaction_read_only"@, "on"@)),
        Role::ReadWrite => pinned,
    }
}

/// The characters of each (name, value) pair of a list of options.
pub open spec fn options_view(options: Seq<(&str, String)>) -> Seq<(Seq<char>, Seq<char>)> {
    options.map_values(|o: (&str, String)| (o.0@, o.1@))
}

/// The session settings that connections of `role` start with.
pub fn startup_options(role: Role) -> (options: Vec<(&'static str, String)>)
    ensures
        options@.len() == startup_options_spec(role).len(),
        options_view(options@) == startup_options_spec(role),
{
    let mut options: Vec<(&'static str, String)> = Vec::new();
    options.push(("search_path", ORG_SCHEMA.to_owned()));
    if role == Role::ReadOnly {
        options.push(("default_transaction_read_only", "on".to_owned()));
    }
    assert(options_view(options@) =~= startup_options_spec(role));
    options
}


/// What `format!("{:?}", s)` writes for a string whose characters are `s`:
/// the string quoted, with its special characters escaped.
pub uninterp spec fn str_debug(s: Seq<char>) -> Seq<char>;

/// Calls the `Debug` formatting of `str` through `format!`. Trusted: the
/// result is the value of `str_debug` on the characters of `s`; what that
/// quoting and escaping is, is left unstated.
#[verifier::external_body]
pub(crate) fn debug_quoted(s: &str) -> (r: String)
    ensures
        r@ == str_debug(s@),
{
    format!("{:?}", s)
}

/// Whether two strings hold the same characters.
pub(crate) fn same_text(a: &str, b: &str) -> (r: bool)
    ensures
        r == (a@ == b@),
{
    let x = a.to_owned();
    let y = b.to_owned();
    x == y
}

/// The schema and transaction policy that a connection reports.
#[derive(Debug, Clone, Eq)]
pub struct InternalConnectionState {
    pub schema: String,
    pub transaction_read_only: bool,
}

/// The view of a reported connection state: its schema's characters and
/// whether transactions start read-only.
pub open spec fn state_view(s: &InternalConnectionState) -> (Seq<char>, bool) {
    (s.schema@, s.transaction_read_only)
}

impl PartialEq for InternalConnectionState {
    fn eq(&self, other: &Self) -> (r: bool) {
        self.schema == other.schema && self.transaction_read_only == other.transaction_read_only
    }
}

impl vstd::std_specs::cmp::PartialEqSpecImpl for InternalConnectionState {
    open spec fn obeys_eq_spec() -> bool {
        true
    }

    open spec fn eq_spec(&self, other: &Self) -> bool {
        self.schema@ == other.schema@ && self.transaction_read_only == other.transaction_read_only
    }
}

/// The state a connection reports from its settings: its current schema,
/// and whether `default_transaction_read_only` reads exactly `on`.
pub open spec fn state_from_settings_spec(schema: Seq<char>, read_only: Seq<char>) -> (Seq<char>, bool) {
    (schema, read_only == "on"@)
}

impl InternalConnectionState {
    /// The state a connection reports, from its current schema and its
    /// `default_transaction_read_only` setting.
    pub fn from_settings(schema: String, transaction_read_only: &str) -> (s: Self)
        ensures
            state_view(&s) == state_from_settings_spec(schema@, transaction_read_only@),
            s.schema@ == schema@,
            s.transaction_read_only <==> transaction_read_only@ == "on"@,
    {
        let read_only = same_text(transaction_read_only, "on");
        InternalConnectionState { schema, transaction_read_only: read_only }
    }
}

/// The message of the error for a policy query that returned no row.
pub open spec fn no_row_message() -> Seq<char> {
    "connection policy query returned no row"@
}

/// The error for a policy query that returned no row.
pub fn no_row_error() -> (e: OrmError)
    ensures
        e matches OrmError::Policy(m) && m@ == no_row_message(),
{
    OrmError::policy("connection policy query returned no row")
}

/// The message of the error for a connection without a usable schema.
pub open spec fn no_schema_message() -> Seq<char> {
    "no usable current_schema(); expected schema "@ + str_debug(org_schema()) + " with USAGE"@
}

/// The connection's current schema, or a policy error where the connection
/// has none it may use.
pub fn require_current_schema(schema: Option<String>) -> (r: Result<String, OrmError>)
    ensures
        match schema {
            Some(s) => r matches Ok(t) && t@ == s@,
            None => r matches Err(OrmError::Policy(m)) && m@ == no_schema_message(),
        },
{
    match schema {
        Some(s) => Ok(s),
        None => {
            let mut message = "no usable current_schema(); expected schema ".to_owned();
            let quoted = debug_quoted(ORG_SCHEMA);
            message.append(quoted.as_str());
            message.append(" with USAGE");
            Err(OrmError::Policy(message))
        },
    }
}

/// The message of the error for a search path that resolved elsewhere.
pub open spec fn wrong_schema_message(found: Seq<char>) -> Seq<char> {
    "search_path resolved to schema "@ + str_debug(found) + "; expected "@ + str_debug(org_schema())
}

/// The message of the error for a read context that is not read-only.
pub open spec fn not_read_only_message() -> Seq<char> {
    "read context did not verify default_transaction_read_only=on"@
}

/// The message of the error for a write context that is read-only.
pub open spec fn read_only_writer_message() -> Seq<char> {
    "write context resolved to a read-only transaction policy"@
}

/// The verdict on a freshly opened connection of `role` that reports
/// `state`: its schema must be the organization schema, a read context must
/// start transactions read-only, and a write context must not.
pub open spec fn connection_verdict(state: (Seq<char>, bool), role: Role) -> Result<(), Seq<char>> {
    if state.0 != org_schema() {
        Err(wrong_schema_message(state.0))
    } else if role == Role::ReadOnly && !state.1 {
        Err(not_read_only_message())
    } else if role == Role::ReadWrite && state.1 {
        Err(read_only_writer_message())
    } else {
        Ok(())
    }
}

/// Checks the state a freshly opened connection of `role` reports; every
/// refusal is a policy error.
pub fn check_connection_state(state: &InternalConnectionState, role: Role) -> (r: Result<(), OrmError>)
    ensures
        match connection_verdict(state_view(state), role) {
            Ok(()) => r is Ok,
            Err(msg) => r matches Err(OrmError::Policy(m)) && m@ == msg,
        },
        r is Ok <==> (state.schema@ == ORG_SCHEMA@ && state.transaction_read_only == (role == Role::ReadOnly)),
        state.schema@ != ORG_SCHEMA@ ==> (r matches Err(OrmError::Policy(m))
            && m@ == "search_path resolved to schema "@ + str_debug(state.schema@) + "; expected "@ + str_debug(ORG_SCHEMA@)),
{
    if !same_text(state.schema.as_str(), ORG_SCHEMA) {
        let mut message = "search_path resolved to schema ".to_owned();
        let found = debug_quoted(state.schema.as_str());
        message.append(found.as_str());
        message.append("; expected ");
        let expected = debug_quoted(ORG_SCHEMA);
        message.append(expected.as_str());
        return Err(OrmError::Policy(message));
    }
    match role {
        Role::ReadOnly => {
            if !state.transaction_read_only {
                return Err(OrmError::policy("read context did not verify default_transaction_read_only=on"));
            }
        },
        Role::ReadWrite => {
            if state.transaction_read_only {
                return Err(OrmError::policy("write context resolved to a read-only transaction policy"));
            }
        },
    }
    Ok(())
}


/// The options of a Postgres connection, as sqlx holds them.
#[verifier::external_type_specification]
#[verifier::external_body]
pub struct ExPgConnectOptions(PgConnectOptions);

/// An error of the sqlx driver.
#[verifier::external_type_specification]
#[verifier::external_body]
pub struct ExSqlxError(sea_orm::sqlx::Error);

/// Whether sqlx accepts a connection URL: it parses as a URL and its
/// percent-encoded parts and recognized query parameters decode.
pub uninterp spec fn pg_url_accepted(url: Seq<char>) -> bool;

/// Calls `<PgConnectOptions as FromStr>::from_str`. Trusted: whether it
/// succeeds depends on the URL alone. Left unstated: what the options hold,
/// which also depends on `PG*` environment variables and the pgpass file.
#[verifier::external_body]
fn parse_connect_options(url: &str) -> (r: Result<PgConnectOptions, sea_orm::sqlx::Error>)
    ensures
        r is Ok <==> pg_url_accepted(url@),
{
    url.parse::<PgConnectOptions>()
}

/// The startup-options text that connection options carry, as
/// `PgConnectOptions::get_options` reports it (`None` where none was set).
pub uninterp spec fn pg_options_text(o: PgConnectOptions) -> Option<Seq<char>>;

/// The startup-options text after (name, value) pairs are added to `base`:
/// each pair is written as `-c name=value`, separated by a space from any
/// text before it.
pub open spec fn options_join(base: Seq<char>, pairs: Seq<(Seq<char>, Seq<char>)>) -> Seq<char>
    decreases pairs.len(),
{
    if pairs.len() == 0 {
        base
    } else {
        let before = options_join(base, pairs.drop_last());
        let separated = if before.len() == 0 { before } else { before + " "@ };
        separated + "-c "@ + pairs.last().0 + "="@ + pairs.last().1
    }
}

/// The text that startup options start from: what they already carry, or
/// nothing.
pub open spec fn options_base(o: PgConnectOptions) -> Seq<char> {
    match pg_options_text(o) {
        Some(t) => t,
        None => Seq::empty(),
    }
}

/// Calls `PgConnectOptions::options`. Trusted, as its source shows: the
/// options text afterwards is the text before (or empty) with each
/// (name, value) pair appended as `-c name=value`, space-separated.
#[verifier::external_body]
fn with_startup_options(options: PgConnectOptions, settings: Vec<(&'static str, String)>) -> (r: PgConnectOptions)
    ensures
        pg_options_text(r) == Some(options_join(options_base(options), options_view(settings@))),
{
    options.options(settings)
}

/// Calls the `Display` formatting of a sqlx error. Nothing is stated of the
/// text, which is the driver's.
#[verifier::external_body]
fn driver_error_text(e: &sea_orm::sqlx::Error) -> String {
    e.to_string()
}

/// The options that a connection of `role` is opened with, from the options
/// its URL parsed to: their startup-options text followed by
/// [`startup_options`] of the role, and nothing else added.
pub fn options_for_role(options: PgConnectOptions, role: Role) -> (o: PgConnectOptions)
    ensures
        pg_options_text(o) == Some(options_join(options_base(options), startup_options_spec(role))),
{
    with_startup_options(options, startup_options(role))
}

/// The sqlx options that a connection of `role` to `database_url` is opened
/// with: what sqlx parses the URL to, passed through [`options_for_role`].
/// A URL that sqlx refuses is a database error.
pub fn connect_options(database_url: &str, role: Role) -> (r: Result<PgConnectOptions, OrmError>)
    ensures
        r is Ok <==> pg_url_accepted(database_url@),
        r matches Err(e) ==> e is Database,
        r matches Ok(o) ==> exists|base: Seq<char>|
            pg_options_text(o) == Some(#[trigger] options_join(base, startup_options_spec(role))),
{
    match parse_connect_options(database_url) {
        Ok(options) => {
            let ghost base = options_base(options);
            let opened = options_for_role(options, role);
            assert(pg_options_text(opened) == Some(options_join(base, startup_options_spec(role))));
            Ok(opened)
        },
        Err(e) => Err(OrmError::Database(driver_error_text(&e))),
    }
}

} // verus!
