use auth_session::session::Auth;
use auth_session::session::HeartbeatAction;
use auth_session::session::Message;
use auth_session::session::MessageHandler;
use auth_session::session::Response;
use auth_session::store::CredentialStore;

fn login(u: &str, p: &str) -> Message {
    Message::Login { username: u.to_string(), password: p.to_string() }
}

#[test]
fn scenario_a_register_then_success_with_new_token() {
    let store = CredentialStore::new();
    let mut conn1 = Auth::new(store, 0);
    let r1 = conn1.handle_request(login("alice", "pw1"), 1_000);
    let (t1, e1) = match r1 {
        Response::Registered(s) => (s.token, s.expires_at),
        _ => panic!("expected Registered"),
    };
    let mut conn2 = Auth::new(conn1.users, 0);
    let r2 = conn2.handle_request(login("alice", "pw1"), 1_001);
    let (t2, e2) = match r2 {
        Response::Success(s) => (s.token, s.expires_at),
        _ => panic!("expected Success"),
    };
    assert_ne!(t2, t1);
    assert!(e2 > e1);
}

#[test]
fn scenario_b_login_while_authenticated_takes_precedence() {
    let mut conn = Auth::new(CredentialStore::new(), 0);
    match conn.handle_request(login("alice", "pw1"), 10) {
        Response::Registered(_) => {},
        _ => panic!("expected Registered"),
    }
    match conn.handle_request(login("alice", "wrong"), 11) {
        Response::AlreadyAuthorized { username } => assert_eq!(username, "alice"),
        _ => panic!("expected AlreadyAuthorized"),
    }
    assert_eq!(conn.users.lookup("alice"), Some("pw1".to_string()));
}

#[test]
fn scenario_c_logout_with_no_login_is_not_logged_in() {
    let mut conn = Auth::new(CredentialStore::new(), 0);
    match conn.handle_request(Message::Logout, 5) {
        Response::NotLoggedIn => {},
        _ => panic!("expected NotLoggedIn"),
    }
    assert!(conn.claims.is_none());
}

#[test]
fn scenario_d_logout_does_not_revoke_the_token() {
    let mut conn = Auth::new(CredentialStore::new(), 0);
    let token = match conn.handle_request(login("bob", "pw2"), 100) {
        Response::Registered(s) => s.token,
        _ => panic!("expected Registered"),
    };
    match conn.handle_request(Message::Logout, 101) {
        Response::LoggedOut => {},
        _ => panic!("expected LoggedOut"),
    }
    assert!(conn.claims.is_none());
    match conn.handle_request(Message::RefreshToken { token }, 105) {
        Response::Success(s) => assert_eq!(s.expires_at, 125),
        _ => panic!("expected Success"),
    }
    assert!(conn.claims.is_some());
}

#[test]
fn refresh_works_from_a_fresh_anonymous_connection() {
    let mut conn1 = Auth::new(CredentialStore::new(), 0);
    let token = match conn1.handle_request(login("erin", "pw"), 200) {
        Response::Registered(s) => s.token,
        _ => panic!("expected Registered"),
    };
    let mut conn2 = Auth::new(CredentialStore::new(), 0);
    match conn2.handle_request(Message::RefreshToken { token }, 210) {
        Response::Success(_) => {},
        _ => panic!("expected Success"),
    }
}

#[test]
fn refresh_with_expired_or_garbage_token_changes_nothing() {
    let mut conn = Auth::new(CredentialStore::new(), 0);
    let token = match conn.handle_request(login("frank", "pw"), 300) {
        Response::Registered(s) => s.token,
        _ => panic!("expected Registered"),
    };
    match conn.handle_request(Message::Logout, 301) {
        Response::LoggedOut => {},
        _ => panic!("expected LoggedOut"),
    }
    match conn.handle_request(Message::RefreshToken { token }, 320) {
        Response::InvalidToken => {},
        _ => panic!("expected InvalidToken: token expired at 320"),
    }
    assert!(conn.claims.is_none());
    match conn.handle_request(Message::RefreshToken { token: "junk".to_string() }, 321) {
        Response::InvalidToken => {},
        _ => panic!("expected InvalidToken"),
    }
    assert!(conn.claims.is_none());
}

#[test]
fn scenario_e_concurrent_first_logins_register_exactly_once() {
    // Differing passwords, in both arrival orders: the winner registers,
    // the loser sees a mismatch, and the stored password is the winner's.
    let mut first = Auth::new(CredentialStore::new(), 0);
    match first.handle_request(login("carol", "pwA"), 10) {
        Response::Registered(_) => {},
        _ => panic!("expected Registered"),
    }
    let mut second = Auth::new(first.users, 0);
    match second.handle_request(login("carol", "pwB"), 10) {
        Response::InvalidPassword => {},
        _ => panic!("expected InvalidPassword"),
    }
    assert_eq!(second.users.lookup("carol"), Some("pwA".to_string()));

    let mut first = Auth::new(CredentialStore::new(), 0);
    match first.handle_request(login("carol", "pwB"), 10) {
        Response::Registered(_) => {},
        _ => panic!("expected Registered"),
    }
    let mut second = Auth::new(first.users, 0);
    match second.handle_request(login("carol", "pwB"), 10) {
        Response::Success(_) => {},
        _ => panic!("expected Success: equal passwords"),
    }
    assert_eq!(second.users.lookup("carol"), Some("pwB".to_string()));
}

#[test]
fn scenario_f_idle_authenticated_connection_is_renewed_unsolicited() {
    let mut conn = Auth::new(CredentialStore::new(), 0);
    let e0 = match conn.handle_request(login("gail", "pw"), 1_000) {
        Response::Registered(s) => s.expires_at,
        _ => panic!("expected Registered"),
    };
    assert_eq!(e0, 1_020);
    // First firing: plenty of remaining life, probe only.
    match conn.heartbeat_tick(5_000, 1_005) {
        HeartbeatAction::Probe { renewal: None } => {},
        _ => panic!("expected a bare probe"),
    }
    conn.record_liveness(5_000);
    // Token would lapse before the next probe: unsolicited renewal.
    let e1 = match conn.heartbeat_tick(10_000, 1_016) {
        HeartbeatAction::Probe { renewal: Some(s) } => s.expires_at,
        _ => panic!("expected a renewal push"),
    };
    assert!(e1 > e0);
    conn.record_liveness(10_000);
    // And again one interval later, without any new login.
    let e2 = match conn.heartbeat_tick(15_000, 1_032) {
        HeartbeatAction::Probe { renewal: Some(s) } => s.expires_at,
        _ => panic!("expected a second renewal push"),
    };
    assert!(e2 > e1);
}

#[test]
fn heartbeat_timeout_disconnects_and_changes_nothing() {
    let mut conn = Auth::new(CredentialStore::new(), 0);
    match conn.handle_request(login("hank", "pw"), 50) {
        Response::Registered(_) => {},
        _ => panic!("expected Registered"),
    }
    match conn.heartbeat_tick(10_001, 55) {
        HeartbeatAction::Disconnect => {},
        _ => panic!("expected Disconnect"),
    }
    assert!(conn.claims.is_some());
}

#[test]
fn heartbeat_at_the_exact_timeout_still_probes() {
    let mut conn = Auth::new(CredentialStore::new(), 0);
    match conn.heartbeat_tick(10_000, 5) {
        HeartbeatAction::Probe { renewal: None } => {},
        _ => panic!("expected a bare probe at the boundary"),
    }
}

#[test]
fn heartbeat_on_anonymous_connection_only_probes() {
    let mut conn = Auth::new(CredentialStore::new(), 0);
    match conn.heartbeat_tick(5_000, 1_000_000) {
        HeartbeatAction::Probe { renewal: None } => {},
        _ => panic!("expected a bare probe"),
    }
}

#[test]
fn malformed_payload_is_rejected_idempotently() {
    let mut conn = Auth::new(CredentialStore::new(), 0);
    let r1 = conn.handle_message_at("not json", 100);
    let r2 = conn.handle_message_at("not json", 100);
    let r3 = conn.handle_message_at("not json", 100);
    assert_eq!(r1, "{\"type\":\"InvalidRequest\"}");
    assert_eq!(r2, r1);
    assert_eq!(r3, r1);
    assert!(conn.claims.is_none());
    assert_eq!(conn.users.lookup("x"), None);
}

#[test]
fn raw_frames_drive_the_whole_pipeline() {
    let mut conn = Auth::new(CredentialStore::new(), 0);
    let r = conn.handle_message_at(
        "{\"type\":\"Login\",\"username\":\"ivy\",\"password\":\"pw\"}",
        1_000,
    );
    assert!(r.starts_with("{\"type\":\"Registered\",\"token\":\""));
    assert!(r.ends_with("\",\"expires_at\":1020}"));
    let r2 = conn.handle_message_at("{\"type\":\"Logout\"}", 1_001);
    assert_eq!(r2, "{\"type\":\"LoggedOut\"}");
}

#[test]
fn trait_handler_answers_raw_frames() {
    let mut conn = Auth::new(CredentialStore::new(), 0);
    let r = conn.handle_message("{\"type\":\"Logout\"}".to_string());
    assert_eq!(r, "{\"type\":\"NotLoggedIn\"}");
    let r2 = conn.handle_message("{\"type\":\"Login\",\"username\":\"joe\",\"password\":\"p\"}".to_string());
    assert!(r2.starts_with("{\"type\":\"Registered\",\"token\":\""));
}
