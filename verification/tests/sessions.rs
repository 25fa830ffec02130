use telemesh::auth::{is_authorized, token_header};
use telemesh::login::{password_required_message, CodeOutcome, CodeReply, LoginError, LoginSession};
use telemesh::socket::{greeting, socket_step, SocketAction, SocketInput};
use telemesh::tickets::{TicketStore, TICKET_TTL_MS};
use telemesh::protocol::Event;

fn is_uuid_shaped(t: &str) -> bool {
    t.len() == 36
        && t.chars().enumerate().all(|(i, c)| {
            if [8, 13, 18, 23].contains(&i) { c == '-' } else { c.is_ascii_hexdigit() && !c.is_ascii_uppercase() }
        })
        && t.as_bytes()[14] == b'4'
        && [b'8', b'9', b'a', b'b'].contains(&t.as_bytes()[19])
}

#[test]
fn ticket_opens_stream_once() {
    let mut store = TicketStore::new();
    let t = store.issue(1_000);
    assert!(is_uuid_shaped(&t));
    assert!(store.redeem(&t, 1_500));
    assert!(!store.redeem(&t, 1_600));
}

#[test]
fn ticket_expires_after_a_minute() {
    let mut store = TicketStore::new();
    let t = store.issue(0);
    assert!(!store.redeem(&t, TICKET_TTL_MS));
    // refused tickets are removed too
    assert!(!store.redeem(&t, 0));
    let u = store.issue(0);
    assert!(store.redeem(&u, TICKET_TTL_MS - 1));
}

#[test]
fn unknown_ticket_refused_and_others_kept() {
    let mut store = TicketStore::new();
    let a = store.issue(10);
    let b = store.issue(10);
    assert_ne!(a, b);
    assert!(!store.redeem("not-a-ticket", 10));
    assert!(store.redeem(&b, 20));
    assert!(store.redeem(&a, 20));
}

#[test]
fn inserted_ticket_replaces_older_record() {
    let mut store = TicketStore::new();
    store.insert("t".to_string(), 5);
    store.insert("t".to_string(), 50);
    assert!(store.redeem("t", 10));
    assert!(!store.redeem("t", 10));
}

#[test]
fn login_with_code() {
    let mut s: LoginSession<&str, &str> = LoginSession::new();
    assert_eq!(s.code_token().err(), Some(LoginError::NoPendingLogin));
    s.start("tok");
    assert_eq!(s.code_token().ok().copied(), Some("tok"));
    assert_eq!(s.finish_code(CodeOutcome::Rejected), CodeReply::Rejected);
    assert_eq!(s.code_token().ok().copied(), Some("tok"));
    assert_eq!(s.finish_code(CodeOutcome::SignedIn), CodeReply::SignedIn);
    assert_eq!(s.code_token().err(), Some(LoginError::NoPendingLogin));
}

#[test]
fn login_with_password() {
    let mut s: LoginSession<&str, &str> = LoginSession::new();
    assert_eq!(s.take_password(), Err(LoginError::NoPending2fa));
    s.start("tok");
    assert_eq!(s.take_password(), Err(LoginError::TwoFactorNotPending));
    let reply = s.finish_code(CodeOutcome::PasswordRequired("pw"));
    assert_eq!(reply, CodeReply::PasswordRequired);
    assert_eq!(reply.status(), 202);
    assert_eq!(s.take_password(), Ok("pw"));
    assert_eq!(s.take_password(), Err(LoginError::TwoFactorNotPending));
    s.finish_password(false);
    assert_eq!(s.code_token().ok().copied(), Some("tok"));
    s.finish_password(true);
    assert_eq!(s.take_password(), Err(LoginError::NoPending2fa));
}

#[test]
fn login_messages() {
    assert_eq!(LoginError::NoPendingLogin.message(), "no pending login");
    assert_eq!(LoginError::NoPending2fa.message(), "no pending 2FA login");
    assert_eq!(LoginError::TwoFactorNotPending.message(), "2FA not pending");
    assert_eq!(LoginError::NoPendingLogin.status(), 409);
    assert_eq!(CodeReply::Rejected.status(), 401);
    assert_eq!(CodeReply::SignedIn.status(), 200);
    assert_eq!(password_required_message(), "2FA password required");
}

#[test]
fn restarting_login_forgets_password() {
    let mut s: LoginSession<u32, u32> = LoginSession::new();
    s.start(1);
    s.finish_code(CodeOutcome::PasswordRequired(2));
    s.start(3);
    assert_eq!(s.take_password(), Err(LoginError::TwoFactorNotPending));
    assert_eq!(s.code_token().ok().copied(), Some(3));
}

#[test]
fn token_check() {
    assert!(is_authorized(Some("secret"), "secret"));
    assert!(!is_authorized(Some("secret "), "secret"));
    assert!(!is_authorized(Some(""), "secret"));
    assert!(!is_authorized(None, "secret"));
    assert_eq!(token_header(), "x-telemesh-token");
}

#[test]
fn socket_decisions() {
    assert_eq!(greeting(), Event::Connected);
    assert_eq!(socket_step(SocketInput::Event(Event::Reconnecting)), SocketAction::Forward(Event::Reconnecting));
    assert_eq!(socket_step(SocketInput::Lagged(3)), SocketAction::Resync(Event::Status { authorized: true }));
    assert_eq!(socket_step(SocketInput::FeedClosed), SocketAction::Stop);
    assert_eq!(socket_step(SocketInput::ClientClosed), SocketAction::Stop);
    assert_eq!(socket_step(SocketInput::ClientError), SocketAction::Stop);
    assert_eq!(socket_step(SocketInput::ClientPing(vec![1, 2])), SocketAction::Pong(vec![1, 2]));
    assert_eq!(socket_step(SocketInput::ClientMessage), SocketAction::Continue);
}
