use zed_orm_core::connection::InternalConnectionState;
use zed_orm_core::diesel_connection::{verify, StateRow};
use zed_orm_core::read::{agreed_state, ping_verdict, ConnectionState};
use zed_orm_core::OrmError;

fn state(schema: &str, read_only: bool) -> InternalConnectionState {
    InternalConnectionState { schema: schema.to_owned(), transaction_read_only: read_only }
}

#[test]
fn evidence_repeats_the_reported_state() {
    let evidence = ConnectionState::from_internal(state("zed_pkg", true));
    assert_eq!(evidence.schema(), "zed_pkg");
    assert!(evidence.transaction_read_only());
    assert!(!ConnectionState::from_internal(state("x", false)).transaction_read_only());
}

#[test]
fn agreeing_drivers_give_their_state() {
    let evidence = agreed_state(state("zed_pkg", true), state("zed_pkg", true)).unwrap();
    assert_eq!(evidence, ConnectionState::from_internal(state("zed_pkg", true)));
}

#[test]
fn disagreeing_drivers_are_refused() {
    for (sea, diesel) in [
        (state("zed_pkg", true), state("zed_pkg", false)),
        (state("public", true), state("zed_pkg", true)),
    ] {
        match agreed_state(sea, diesel) {
            Err(OrmError::Policy(m)) => assert_eq!(m, "Diesel and SeaORM read policies disagree"),
            other => panic!("unexpected {other:?}"),
        }
    }
}

#[test]
fn ping_requires_read_only_transactions() {
    assert!(ping_verdict(&ConnectionState::from_internal(state("zed_pkg", true))).is_ok());
    match ping_verdict(&ConnectionState::from_internal(state("zed_pkg", false))) {
        Err(OrmError::Policy(m)) => {
            assert_eq!(m, "read context lost its read-only transaction policy")
        }
        other => panic!("unexpected {other:?}"),
    }
}

#[test]
fn accepted_read_context_is_ready() {
    let sea = InternalConnectionState::from_settings("zed_pkg".to_owned(), "on");
    assert!(zed_orm_core::connection::check_connection_state(&sea, zed_orm_core::Role::ReadOnly).is_ok());
    let diesel = verify(StateRow { schema_name: Some("zed_pkg".into()), transaction_read_only: "on".into() }).unwrap();
    let evidence = agreed_state(sea, diesel).unwrap();
    assert!(ping_verdict(&evidence).is_ok());
}
