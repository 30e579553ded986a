use qa_lab_launcher::checks::{
    check_external_url, checksum_matches, digest_matches, first_word_of, interpreter,
    launch_error, launcher_for, url_allowed, zip_entry_plan, Launcher, ZipEntryPlan,
};

const ABC_SHA256: &str = "ba7816bf8f01cfea414140de5dae2223b00361a396177a9cb410ff61f20015ad";

#[test]
fn first_word() {
    assert_eq!(first_word_of("  abc def"), "abc");
    assert_eq!(first_word_of("abc"), "abc");
    assert_eq!(first_word_of("hash\u{a0}file.zip"), "hash");
    assert_eq!(first_word_of(" \n\t"), "");
    assert_eq!(first_word_of(""), "");
}

#[test]
fn digests() {
    assert!(digest_matches("00ff10", &[0x00, 0xff, 0x10]));
    assert!(!digest_matches("00FF10", &[0x00, 0xff, 0x10]));
    assert!(digest_matches("", &[]));
}

#[test]
fn checksum_file_forms() {
    assert!(checksum_matches(ABC_SHA256, b"abc"));
    assert!(checksum_matches(&format!("{}  tool.zip\n", ABC_SHA256.to_uppercase()), b"abc"));
    assert!(checksum_matches(&format!("\n{}\n", ABC_SHA256), b"abc"));
    assert!(!checksum_matches(ABC_SHA256, b"abd"));
    assert!(!checksum_matches("", b"abc"));
}

#[test]
fn launchers() {
    assert!(matches!(launcher_for(Some("cmd")), Launcher::Cmd));
    assert!(matches!(launcher_for(Some("BAT")), Launcher::Cmd));
    assert!(matches!(launcher_for(Some("Ps1")), Launcher::PowerShell));
    assert!(matches!(launcher_for(Some("exe")), Launcher::Direct));
    assert!(matches!(launcher_for(Some("")), Launcher::Direct));
    assert!(matches!(launcher_for(None), Launcher::Direct));
    let (p, a) = interpreter(&Launcher::Cmd).unwrap();
    assert_eq!(p, "cmd.exe");
    assert_eq!(a, vec!["/d".to_string(), "/c".to_string()]);
    let (p, a) = interpreter(&Launcher::PowerShell).unwrap();
    assert_eq!(p, "powershell.exe");
    assert_eq!(a, vec!["-NoProfile".to_string(), "-File".to_string()]);
    assert!(interpreter(&Launcher::Direct).is_none());
    assert_eq!(launch_error("not found"), "Impossibile avviare lo strumento: not found");
}

#[test]
fn external_addresses() {
    assert_eq!(check_external_url("https://github.com/login/device"), Ok(()));
    assert_eq!(check_external_url("HTTPS://GitHub.com/x"), Ok(()));
    assert_eq!(
        check_external_url("http://github.com/"),
        Err("URL esterno non consentito".to_string())
    );
    assert_eq!(
        check_external_url("https://evil.example/github.com"),
        Err("URL esterno non consentito".to_string())
    );
    assert_eq!(
        check_external_url("https://github.com.evil.example/"),
        Err("URL esterno non consentito".to_string())
    );
    assert_eq!(check_external_url("not a url"), Err("relative URL without a base".to_string()));
}

#[test]
fn parsed_address_verdicts() {
    assert_eq!(url_allowed(Ok(("https".into(), Some("github.com".into())))), Ok(()));
    assert!(url_allowed(Ok(("https".into(), None))).is_err());
    assert!(url_allowed(Ok(("file".into(), Some("github.com".into())))).is_err());
    assert_eq!(url_allowed(Err("bad".into())), Err("bad".to_string()));
}

#[test]
fn zip_entries() {
    assert_eq!(
        zip_entry_plan(false, false).err(),
        Some("Archivio non sicuro: percorso non valido".to_string())
    );
    assert!(matches!(zip_entry_plan(true, true), Ok(ZipEntryPlan::CreateDir)));
    assert!(matches!(zip_entry_plan(true, false), Ok(ZipEntryPlan::WriteFile)));
}
