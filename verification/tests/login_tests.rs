use qa_lab_launcher::login::{device_code_refusal, DeviceLogin, LoginStep};

fn s(x: &str) -> Option<String> {
    Some(x.to_string())
}

fn poll_after(step: &LoginStep) -> Option<u64> {
    match step {
        LoginStep::PollAfter(w) => Some(*w),
        _ => None,
    }
}

fn failed(step: LoginStep) -> String {
    match step {
        LoginStep::Fail(m) => m,
        _ => panic!("expected a failure"),
    }
}

#[test]
fn first_poll_waits_at_least_one_second() {
    let (_, step) = DeviceLogin::start(0, 900);
    assert_eq!(poll_after(&step), Some(1));
    let (_, step) = DeviceLogin::start(5, 900);
    assert_eq!(poll_after(&step), Some(5));
}

#[test]
fn token_ends_sign_in() {
    let (mut l, _) = DeviceLogin::start(5, 900);
    match l.on_reply(s("gho_x"), s("authorization_pending")) {
        LoginStep::Store(t) => assert_eq!(t, "gho_x"),
        _ => panic!("expected the token"),
    }
}

#[test]
fn pending_and_slow_down() {
    let (mut l, _) = DeviceLogin::start(5, 900);
    assert_eq!(poll_after(&l.on_reply(None, s("authorization_pending"))), Some(5));
    assert_eq!(poll_after(&l.on_reply(None, s("slow_down"))), Some(10));
    assert_eq!(poll_after(&l.on_reply(None, None)), Some(10));
    assert_eq!(poll_after(&l.on_reply(None, s("slow_down"))), Some(15));
}

#[test]
fn terminal_errors() {
    let (mut l, _) = DeviceLogin::start(5, 900);
    assert_eq!(failed(l.on_reply(None, s("access_denied"))), "Accesso annullato su GitHub.");
    let (mut l, _) = DeviceLogin::start(5, 900);
    assert_eq!(failed(l.on_reply(None, s("expired_token"))), "Il codice è scaduto. Riprova.");
    let (mut l, _) = DeviceLogin::start(5, 900);
    assert_eq!(
        failed(l.on_reply(None, s("unsupported_grant_type"))),
        "Login GitHub non riuscito: unsupported_grant_type"
    );
}

#[test]
fn times_out_after_attempts() {
    // 12 / 5 = 2 polls.
    let (mut l, _) = DeviceLogin::start(5, 12);
    assert_eq!(poll_after(&l.on_reply(None, s("authorization_pending"))), Some(5));
    assert_eq!(
        failed(l.on_reply(None, s("authorization_pending"))),
        "Tempo scaduto. Avvia nuovamente l'accesso."
    );
    // A code that expires before the first interval still gets one poll.
    let (mut l, step) = DeviceLogin::start(10, 3);
    assert_eq!(poll_after(&step), Some(10));
    assert_eq!(failed(l.on_reply(None, None)), "Tempo scaduto. Avvia nuovamente l'accesso.");
}

#[test]
fn slow_down_does_not_add_polls() {
    let (mut l, _) = DeviceLogin::start(1, 3);
    assert_eq!(poll_after(&l.on_reply(None, s("slow_down"))), Some(6));
    assert_eq!(poll_after(&l.on_reply(None, s("slow_down"))), Some(11));
    assert_eq!(failed(l.on_reply(None, s("slow_down"))), "Tempo scaduto. Avvia nuovamente l'accesso.");
}

#[test]
fn device_code_request_refused() {
    assert_eq!(device_code_refusal(200, "200 OK"), None);
    assert_eq!(
        device_code_refusal(422, "422 Unprocessable Entity"),
        Some("GitHub ha rifiutato l'avvio del login (422 Unprocessable Entity)".to_string())
    );
}
