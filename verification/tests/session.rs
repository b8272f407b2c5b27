use bot_engine::action::{classify_action, ActionResult};
use bot_engine::engine::{Account, Website};
use bot_engine::errors::EngineError;
use bot_engine::machine::{AuthSessionMachine, HttpResponse, SessionState, TransportOutcome};

fn amakna_machine() -> AuthSessionMachine {
    AuthSessionMachine::new(
        Account::new("u1".to_string(), "p1".to_string()),
        Website::amakna(),
    )
}

fn response(status: u16, headers: &[(&str, &str)], body: &str) -> TransportOutcome {
    TransportOutcome::Response(HttpResponse {
        status,
        headers: headers.iter().map(|(n, v)| (n.to_string(), v.to_string())).collect(),
        body: body.to_string(),
    })
}

#[test]
fn resolve_is_deterministic() {
    let website = Website::amakna();
    let first = website.resolve("vote").expect("valid host must resolve");
    let second = website.resolve("vote").expect("valid host must resolve");
    assert_eq!(first, second);
    assert_eq!(first, "https://ganymede.ws/vote");
}

#[test]
fn resolve_rejects_bad_host() {
    let website = Website::new(
        "broken".to_string(),
        "not an absolute url".to_string(),
        "connected".to_string(),
        "vote".to_string(),
        "index".to_string(),
    );
    assert_eq!(website.resolve("vote"), Err(EngineError::ConfigurationError));
}

#[test]
fn login_rejected_status_is_terminal_authentication_error() {
    let mut machine = amakna_machine();
    machine.on_login(&response(403, &[], ""));
    assert_eq!(machine.state, SessionState::Failed(EngineError::AuthenticationError));
    assert_eq!(machine.cookie_header(), "");
    // The action executor refuses to build any further request for this
    // session, so nothing past the single login call can go out.
    assert!(machine.action_request().is_err());
}

#[test]
fn login_server_error_and_transport_failure_fail_the_same_way() {
    let mut machine = amakna_machine();
    machine.on_login(&response(500, &[], ""));
    assert_eq!(machine.state, SessionState::Failed(EngineError::AuthenticationError));

    let mut machine = amakna_machine();
    machine.on_login(&TransportOutcome::TransportFailure("timeout".to_string()));
    assert_eq!(machine.state, SessionState::Failed(EngineError::AuthenticationError));
}

#[test]
fn login_redirect_class_is_accepted() {
    let mut machine = amakna_machine();
    machine.on_login(&response(302, &[("Set-Cookie", "sid=abc; Path=/")], ""));
    assert_eq!(machine.state, SessionState::PendingVerification);
    assert_eq!(machine.cookie_header(), "sid=abc");
}

#[test]
fn verify_with_marker_authenticates() {
    let mut machine = amakna_machine();
    machine.on_login(&response(200, &[("Set-Cookie", "sid=abc; Path=/")], ""));
    assert_eq!(machine.state, SessionState::PendingVerification);
    machine.on_verify(&response(200, &[], "<html><div id=\"member\">u1</div></html>"));
    assert_eq!(machine.state, SessionState::Authenticated);
}

#[test]
fn verify_without_marker_is_protocol_error() {
    let mut machine = amakna_machine();
    machine.on_login(&response(200, &[("Set-Cookie", "sid=abc")], ""));
    machine.on_verify(&response(200, &[], "<html>please log in</html>"));
    assert_eq!(machine.state, SessionState::Failed(EngineError::ProtocolError));
}

#[test]
fn verify_failing_status_or_transport_is_protocol_error() {
    let mut machine = amakna_machine();
    machine.on_login(&response(200, &[], ""));
    machine.on_verify(&response(500, &[], "<div id=\"member\">"));
    assert_eq!(machine.state, SessionState::Failed(EngineError::ProtocolError));

    let mut machine = amakna_machine();
    machine.on_login(&response(200, &[], ""));
    machine.on_verify(&TransportOutcome::TransportFailure("timeout".to_string()));
    assert_eq!(machine.state, SessionState::Failed(EngineError::ProtocolError));
}

#[test]
fn action_outside_authenticated_is_precondition_error() {
    // Unauthenticated.
    let machine = amakna_machine();
    match machine.action_request() {
        Err(EngineError::PreconditionError) => {},
        other => panic!("unexpected: {:?}", other),
    }

    // PendingVerification.
    let mut machine = amakna_machine();
    machine.on_login(&response(200, &[], ""));
    match machine.action_request() {
        Err(EngineError::PreconditionError) => {},
        other => panic!("unexpected: {:?}", other),
    }

    // Failed.
    let mut machine = amakna_machine();
    machine.on_login(&response(403, &[], ""));
    match machine.action_request() {
        Err(EngineError::PreconditionError) => {},
        other => panic!("unexpected: {:?}", other),
    }
}

#[test]
fn full_session_succeeds() {
    let mut machine = amakna_machine();
    machine.on_login(&response(200, &[("Set-Cookie", "sid=abc; Path=/")], ""));
    assert_eq!(machine.state, SessionState::PendingVerification);
    assert_eq!(machine.cookie_header(), "sid=abc");

    machine.on_verify(&response(200, &[], "<div id=\"member\">"));
    assert_eq!(machine.state, SessionState::Authenticated);

    let request = machine.action_request().expect("authenticated session must build a request");
    assert_eq!(request.url, "https://ganymede.ws/vote?true=rpg");
    assert_eq!(request.cookie, "sid=abc");

    match classify_action(&response(200, &[], "")) {
        ActionResult::Success => {},
        ActionResult::Failure(reason) => panic!("unexpected failure: {}", reason),
    }
}

#[test]
fn action_rejection_and_timeout_stay_distinguishable() {
    match classify_action(&response(409, &[], "")) {
        ActionResult::Failure(reason) => assert_eq!(reason, "409"),
        ActionResult::Success => panic!("a rejected action must not be a success"),
    }
    match classify_action(&TransportOutcome::TransportFailure("timeout".to_string())) {
        ActionResult::Failure(reason) => assert_eq!(reason, "timeout"),
        ActionResult::Success => panic!("a transport failure must not be a success"),
    }
}

#[test]
fn login_form_carries_credentials_and_submit_marker() {
    let machine = amakna_machine();
    let form = machine.login_form();
    assert_eq!(
        form,
        vec![
            ("user_name".to_string(), "u1".to_string()),
            ("user_password".to_string(), "p1".to_string()),
            ("login".to_string(), "Connexion".to_string()),
        ]
    );
    let url = machine.login_url().expect("login url must resolve");
    assert_eq!(url, "https://ganymede.ws/connected");
    let verify = machine.verify_url().expect("verify url must resolve");
    assert_eq!(verify, "https://ganymede.ws/index");
}
