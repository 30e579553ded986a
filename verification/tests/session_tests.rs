use qa_lab_launcher::session::{
    client_id, default_headers, err, has_session, logout, token, token_stored, CredentialDelete,
    CredentialRead, CredentialWrite,
};

const NO_ID: &str = "GitHub OAuth Client ID non configurato. Imposta GITHUB_CLIENT_ID prima della build.";

#[test]
fn client_id_prefers_build_value() {
    assert_eq!(client_id(Some("Iv1_a".into()), Some("Iv1_b".into())), Ok("Iv1_a".to_string()));
    assert_eq!(client_id(None, Some("Iv1_b".into())), Ok("Iv1_b".to_string()));
    assert_eq!(client_id(None, None), Err(NO_ID.to_string()));
}

#[test]
fn client_id_blank_is_refused() {
    // A blank build value is refused without looking at the environment.
    assert_eq!(client_id(Some("  ".into()), Some("Iv1_b".into())), Err(NO_ID.to_string()));
    assert_eq!(client_id(None, Some("\n\t".into())), Err(NO_ID.to_string()));
    assert_eq!(client_id(None, Some("".into())), Err(NO_ID.to_string()));
    assert_eq!(client_id(None, Some(" id ".into())), Ok(" id ".to_string()));
}

#[test]
fn token_reads() {
    assert_eq!(token(CredentialRead::Secret("t0k".into())), Ok("t0k".to_string()));
    assert_eq!(
        token(CredentialRead::Unreadable),
        Err("Sessione GitHub non disponibile. Accedi di nuovo.".to_string())
    );
    assert_eq!(token(CredentialRead::NoStore("no store".into())), Err("no store".to_string()));
}

#[test]
fn session_presence() {
    assert!(has_session(&CredentialRead::Secret("t".into())));
    assert!(!has_session(&CredentialRead::Unreadable));
    assert!(!has_session(&CredentialRead::NoStore("x".into())));
}

#[test]
fn logout_outcomes() {
    assert_eq!(logout(CredentialDelete::Deleted), Ok(()));
    assert_eq!(logout(CredentialDelete::NotFound), Ok(()));
    assert_eq!(logout(CredentialDelete::Failed("denied".into())), Err("denied".to_string()));
    assert_eq!(logout(CredentialDelete::NoStore("gone".into())), Err("gone".to_string()));
}

#[test]
fn store_outcomes() {
    assert_eq!(token_stored(CredentialWrite::Stored), Ok(()));
    assert_eq!(token_stored(CredentialWrite::Failed("x".into())), Err("x".to_string()));
    assert_eq!(token_stored(CredentialWrite::NoStore("y".into())), Err("y".to_string()));
}

#[test]
fn headers_without_token() {
    let h = default_headers(None).unwrap();
    assert_eq!(
        h,
        vec![
            ("user-agent".to_string(), "QA-Lab-Launcher/0.1".to_string()),
            ("accept".to_string(), "application/vnd.github+json".to_string()),
            ("x-github-api-version".to_string(), "2022-11-28".to_string()),
        ]
    );
}

#[test]
fn headers_with_token() {
    let h = default_headers(Some("gho_abc")).unwrap();
    assert_eq!(h.len(), 4);
    assert_eq!(h[3], ("authorization".to_string(), "Bearer gho_abc".to_string()));
    // Characters above ASCII and tabs are accepted by the header value parser.
    assert!(default_headers(Some("gho_è\t")).is_ok());
}

#[test]
fn headers_reject_control_characters() {
    assert_eq!(default_headers(Some("abc\ndef")), Err("Token non valido".to_string()));
    assert_eq!(default_headers(Some("abc\u{7f}")), Err("Token non valido".to_string()));
}

#[test]
fn error_text() {
    assert_eq!(err("plain"), "plain");
    assert_eq!(err(42), "42");
}
