use qa_lab_launcher::registry::{Installed, Registry};

fn inst(v: &str) -> Installed {
    Installed { version: v.into(), entrypoint: "t.exe".into(), installed_at: "2024-01-01T00:00:00+00:00".into() }
}

#[test]
fn read_after_write() {
    let mut r = Registry::new();
    assert_eq!(r.len(), 0);
    assert!(r.get("o/a").is_none());
    r.insert("o/a".into(), inst("1"));
    r.insert("o/b".into(), inst("2"));
    assert_eq!(r.get("o/a").unwrap().version, "1");
    assert_eq!(r.get("o/b").unwrap().version, "2");
    r.insert("o/a".into(), inst("3"));
    assert_eq!(r.get("o/a").unwrap().version, "3");
    assert_eq!(r.get("o/b").unwrap().version, "2");
    assert_eq!(r.len(), 2);
    assert!(r.get("o/c").is_none());
}
