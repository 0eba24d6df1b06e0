use sea_orm::sqlx::postgres::PgConnectOptions;
use zed_orm_core::connection::{
    check_connection_state, connect_options, no_row_error, options_for_role, require_current_schema,
    InternalConnectionState,
};
use zed_orm_core::{startup_options, OrmError, Role, ORG_SCHEMA};

#[test]
fn read_only_startup_options_pin_schema_and_transaction_policy() {
    let options = startup_options(Role::ReadOnly);
    assert!(options.contains(&("search_path", ORG_SCHEMA.to_owned())));
    assert!(options.contains(&("default_transaction_read_only", "on".to_owned())));
}

#[test]
fn read_write_startup_options_do_not_claim_read_only() {
    let options = startup_options(Role::ReadWrite);
    assert!(options.contains(&("search_path", ORG_SCHEMA.to_owned())));
    assert!(!options
        .iter()
        .any(|(key, _)| *key == "default_transaction_read_only"));
}

#[test]
fn startup_options_are_exactly_the_pinned_settings() {
    assert_eq!(
        startup_options(Role::ReadOnly),
        vec![
            ("search_path", "zed_pkg".to_owned()),
            ("default_transaction_read_only", "on".to_owned()),
        ]
    );
    assert_eq!(
        startup_options(Role::ReadWrite),
        vec![("search_path", "zed_pkg".to_owned())]
    );
}

fn state(schema: &str, read_only: &str) -> InternalConnectionState {
    InternalConnectionState::from_settings(schema.to_owned(), read_only)
}

#[test]
fn settings_read_only_only_when_exactly_on() {
    assert!(state("zed_pkg", "on").transaction_read_only);
    assert!(!state("zed_pkg", "off").transaction_read_only);
    assert!(!state("zed_pkg", "ON").transaction_read_only);
    assert!(!state("zed_pkg", "").transaction_read_only);
    assert_eq!(state("public", "on").schema, "public");
}

#[test]
fn read_context_accepts_only_pinned_read_only_connections() {
    assert!(check_connection_state(&state("zed_pkg", "on"), Role::ReadOnly).is_ok());

    match check_connection_state(&state("zed_pkg", "off"), Role::ReadOnly) {
        Err(OrmError::Policy(m)) => {
            assert_eq!(m, "read context did not verify default_transaction_read_only=on")
        }
        other => panic!("unexpected {other:?}"),
    }
}

#[test]
fn write_context_refuses_read_only_connections() {
    assert!(check_connection_state(&state("zed_pkg", "off"), Role::ReadWrite).is_ok());
    match check_connection_state(&state("zed_pkg", "on"), Role::ReadWrite) {
        Err(OrmError::Policy(m)) => {
            assert_eq!(m, "write context resolved to a read-only transaction policy")
        }
        other => panic!("unexpected {other:?}"),
    }
}

#[test]
fn wrong_schema_is_reported_with_both_names_quoted() {
    for role in [Role::ReadOnly, Role::ReadWrite] {
        match check_connection_state(&state("public", "on"), role) {
            Err(OrmError::Policy(m)) => assert_eq!(
                m,
                "search_path resolved to schema \"public\"; expected \"zed_pkg\""
            ),
            other => panic!("unexpected {other:?}"),
        }
    }
    match check_connection_state(&state("a\"b", "off"), Role::ReadWrite) {
        Err(OrmError::Policy(m)) => assert_eq!(
            m,
            "search_path resolved to schema \"a\\\"b\"; expected \"zed_pkg\""
        ),
        other => panic!("unexpected {other:?}"),
    }
}

#[test]
fn no_role_accepts_the_same_connection_twice() {
    for read_only in ["on", "off"] {
        let s = state("zed_pkg", read_only);
        let read = check_connection_state(&s, Role::ReadOnly).is_ok();
        let write = check_connection_state(&s, Role::ReadWrite).is_ok();
        assert!(!(read && write));
        assert!(read || write);
    }
}

#[test]
fn error_message_is_the_carried_text() {
    assert_eq!(OrmError::policy("p").message(), "p");
    assert_eq!(OrmError::database("d").message(), "d");
    assert!(matches!(OrmError::policy("p"), OrmError::Policy(_)));
    assert!(matches!(OrmError::database("d"), OrmError::Database(_)));
}

#[test]
fn missing_schema_and_missing_row_are_policy_errors() {
    match require_current_schema(None) {
        Err(OrmError::Policy(m)) => assert_eq!(
            m,
            "no usable current_schema(); expected schema \"zed_pkg\" with USAGE"
        ),
        other => panic!("unexpected {other:?}"),
    }
    assert_eq!(require_current_schema(Some("zed_pkg".to_owned())).unwrap(), "zed_pkg");
    match no_row_error() {
        OrmError::Policy(m) => assert_eq!(m, "connection policy query returned no row"),
        other => panic!("unexpected {other:?}"),
    }
}

#[test]
fn connect_options_accept_postgres_urls_and_refuse_garbage() {
    assert!(connect_options("postgres://reader@localhost:5432/zed", Role::ReadOnly).is_ok());
    assert!(connect_options("postgres://writer@db/zed?sslmode=disable", Role::ReadWrite).is_ok());
    match connect_options("not a url", Role::ReadOnly) {
        Err(OrmError::Database(m)) => assert!(!m.is_empty()),
        other => panic!("unexpected {:?}", other.map(|_| ())),
    }
    match connect_options("postgres://h/db?sslmode=sometimes", Role::ReadOnly) {
        Err(OrmError::Database(m)) => assert!(!m.is_empty()),
        other => panic!("unexpected {:?}", other.map(|_| ())),
    }
}

#[test]
fn connect_options_carry_the_role_startup_options() {
    let read = connect_options("postgres://reader@localhost/zed", Role::ReadOnly).unwrap();
    let text = read.get_options().unwrap();
    assert!(text.ends_with("-c search_path=zed_pkg -c default_transaction_read_only=on"));

    let write = connect_options("postgres://writer@localhost/zed", Role::ReadWrite).unwrap();
    let text = write.get_options().unwrap();
    assert!(text.ends_with("-c search_path=zed_pkg"));
    assert!(!text.contains("default_transaction_read_only"));

    let with_url_options =
        connect_options("postgres://h/zed?options=-c%20geqo%3Doff", Role::ReadOnly).unwrap();
    assert!(with_url_options
        .get_options()
        .unwrap()
        .ends_with("-c geqo=off -c search_path=zed_pkg -c default_transaction_read_only=on"));
}

#[test]
fn options_for_role_append_exactly_the_role_settings() {
    let base = PgConnectOptions::new_without_pgpass().options([("geqo", "off")]);
    let before = base.get_options().unwrap().to_owned();
    let write = options_for_role(base.clone(), Role::ReadWrite);
    assert_eq!(
        write.get_options().unwrap(),
        format!("{before} -c search_path=zed_pkg")
    );
    let read = options_for_role(base, Role::ReadOnly);
    assert_eq!(
        read.get_options().unwrap(),
        format!("{before} -c search_path=zed_pkg -c default_transaction_read_only=on")
    );
}
