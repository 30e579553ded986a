use qa_lab_launcher::paths::{log_dir, registry_path, root, safe_segment, AppPath, PathBase};

fn names(p: &AppPath) -> Vec<&str> {
    p.segments.iter().map(|s| s.as_str()).collect()
}

#[test]
fn data_paths() {
    let r = root(true).unwrap();
    assert!(r.base == PathBase::LocalData);
    assert_eq!(names(&r), vec!["QALab"]);
    let p = registry_path(true).unwrap();
    assert_eq!(names(&p), vec!["QALab", "registry.json"]);
    assert_eq!(root(false).err(), Some("Impossibile trovare LOCALAPPDATA".to_string()));
    assert_eq!(registry_path(false).err(), Some("Impossibile trovare LOCALAPPDATA".to_string()));
}

#[test]
fn log_paths() {
    let l = log_dir(true);
    assert!(l.base == PathBase::LocalData);
    assert_eq!(names(&l), vec!["QALab", "logs"]);
    let l = log_dir(false);
    assert!(l.base == PathBase::WorkingDir);
    assert_eq!(names(&l), vec!["logs"]);
}

#[test]
fn unsafe_segments() {
    assert!(safe_segment("v1.4.0"));
    assert!(safe_segment("My_Tool-2"));
    assert!(!safe_segment(""));
    assert!(!safe_segment("."));
    assert!(!safe_segment(".."));
    assert!(safe_segment("..."));
    assert!(!safe_segment("a\\b"));
    assert!(!safe_segment("C:"));
    assert!(!safe_segment("tööl"));
    assert!(!safe_segment("a b"));
}
