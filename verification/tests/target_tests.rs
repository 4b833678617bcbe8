use fastmssql::errors::Error;
use fastmssql::target::{build_target, parse_intent, ConnectionTarget};

#[test]
fn a_connection_string_is_taken_as_it_is() {
    let r = build_target(
        Some("Server=tcp:localhost,1433;Database=db".to_string()),
        None, None, None, None, None, None, None, None, None,
    );
    match r {
        Ok(ConnectionTarget::AdoString(s)) => {
            assert_eq!(s, "Server=tcp:localhost,1433;Database=db");
        },
        _ => panic!("a connection string must win"),
    }
}

#[test]
fn missing_both_target_forms_is_refused() {
    let r = build_target(None, None, None, None, None, None, None, None, None, None);
    match r {
        Err(Error::Configuration(msg)) => {
            assert!(msg.contains("connection_string") || msg.contains("server"));
        },
        _ => panic!("no target form must be a configuration error"),
    }
}

#[test]
fn sql_authentication_needs_both_user_and_password() {
    let r = build_target(
        None,
        Some("db.example".to_string()),
        None,
        Some("sa".to_string()),
        None,
        None, None, None, None, None,
    );
    assert!(r.is_err());
}

#[test]
fn integrated_authentication_is_refused() {
    // no username and trusted_connection defaulting to true
    let r = build_target(
        None,
        Some("db.example".to_string()),
        None, None, None, None, None, None, None, None,
    );
    assert!(r.is_err());
    // and explicitly requested
    let r2 = build_target(
        None,
        Some("db.example".to_string()),
        None, None, None,
        Some(true),
        None, None, None, None,
    );
    assert!(r2.is_err());
}

#[test]
fn an_unauthenticated_dial_needs_an_explicit_opt_out() {
    let r = build_target(
        None,
        Some("db.example".to_string()),
        None, None, None,
        Some(false),
        None, None, None, None,
    );
    match r {
        Ok(ConnectionTarget::Params(p)) => {
            assert_eq!(p.server, "db.example");
            assert!(p.auth.is_none());
        },
        _ => panic!("an explicit opt-out must be accepted"),
    }
}

#[test]
fn structured_parameters_carry_over() {
    let r = build_target(
        None,
        Some("db.example".to_string()),
        Some("warehouse".to_string()),
        Some("sa".to_string()),
        Some("pw".to_string()),
        None,
        Some(1433),
        Some("inst".to_string()),
        Some("app".to_string()),
        Some("readonly".to_string()),
    );
    match r {
        Ok(ConnectionTarget::Params(p)) => {
            assert_eq!(p.server, "db.example");
            assert_eq!(p.database.as_deref(), Some("warehouse"));
            let auth = p.auth.unwrap();
            assert_eq!(auth.username, "sa");
            assert_eq!(auth.password, "pw");
            assert_eq!(p.port, Some(1433));
            assert_eq!(p.instance_name.as_deref(), Some("inst"));
            assert_eq!(p.application_name.as_deref(), Some("app"));
            assert_eq!(p.readonly, Some(true));
        },
        _ => panic!("structured parameters must be accepted"),
    }
}

#[test]
fn intent_spellings() {
    assert_eq!(parse_intent("readonly"), Some(true));
    assert_eq!(parse_intent(" Read_Only\t"), Some(true));
    assert_eq!(parse_intent("READWRITE"), Some(false));
    assert_eq!(parse_intent("read_write"), Some(false));
    assert_eq!(parse_intent(""), Some(false));
    assert_eq!(parse_intent("   "), Some(false));
    assert_eq!(parse_intent("bogus"), None);
}

#[test]
fn a_bogus_intent_is_refused_with_its_text() {
    let r = build_target(
        None,
        Some("db.example".to_string()),
        None,
        Some("sa".to_string()),
        Some("pw".to_string()),
        None, None, None, None,
        Some("sideways".to_string()),
    );
    match r {
        Err(Error::Configuration(msg)) => assert!(msg.contains("sideways")),
        _ => panic!("an unknown intent must be refused"),
    }
}
