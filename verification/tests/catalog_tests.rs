use qa_lab_launcher::catalog::{
    assemble_catalog, catalog_entry, check_manifest, choose_asset, icon_url, install_status,
    normalize_tag, registry_key, repo_warning, ManifestFetch, RepoScan,
};
use qa_lab_launcher::model::{AssetRule, Manifest, Release, ReleaseAsset, Tool};
use qa_lab_launcher::registry::{Installed, Registry};

fn asset(name: &str) -> ReleaseAsset {
    ReleaseAsset { name: name.into(), browser_download_url: format!("https://dl/{name}") }
}

fn manifest(name: &str, entrypoint: &str, pattern: &str) -> Manifest {
    Manifest {
        name: name.into(),
        description: "desc".into(),
        entrypoint: entrypoint.into(),
        icon: "".into(),
        asset: AssetRule { pattern: pattern.into(), sha256_asset: "".into() },
    }
}

fn tool(name: &str) -> Tool {
    Tool {
        owner: "o".into(),
        repo: name.into(),
        name: name.into(),
        description: "".into(),
        icon_url: None,
        remote_version: "v1".into(),
        local_version: None,
        status: "not_installed".into(),
        asset_name: "a.zip".into(),
    }
}

#[test]
fn choose_asset_ignores_case_and_takes_first() {
    let m = manifest("x", "x.exe", "");
    let a = vec![asset("Tool-WIN-X64.ZIP"), asset("other-win-x64.zip")];
    assert_eq!(choose_asset(&m, &a).unwrap().name, "Tool-WIN-X64.ZIP");
}

#[test]
fn choose_asset_uses_manifest_pattern() {
    let m = manifest("x", "x.exe", "-Portable.zip");
    let a = vec![asset("t-win-x64.zip"), asset("t-portable.zip")];
    assert_eq!(choose_asset(&m, &a).unwrap().name, "t-portable.zip");
}

#[test]
fn choose_asset_requires_zip() {
    let m = manifest("x", "x.exe", "-win-x64.exe");
    let a = vec![asset("t-win-x64.exe")];
    assert!(choose_asset(&m, &a).is_none());
    let m = manifest("x", "x.exe", "");
    assert!(choose_asset(&m, &[]).is_none());
}

#[test]
fn normalize_tag_strips_one_v() {
    assert_eq!(normalize_tag("v1.4.0"), "1.4.0");
    assert_eq!(normalize_tag("1.4.0"), "1.4.0");
    assert_eq!(normalize_tag("vv2"), "v2");
    assert_eq!(normalize_tag("V3"), "V3");
    assert_eq!(normalize_tag(""), "");
    assert_eq!(normalize_tag("v"), "");
}

#[test]
fn status_of_versions() {
    assert_eq!(install_status(None, "v1.0"), "not_installed");
    assert_eq!(install_status(Some("v1.0"), "1.0"), "updated");
    assert_eq!(install_status(Some("1.0"), "v1.0"), "updated");
    assert_eq!(install_status(Some("v1.0"), "v1.1"), "update_available");
}

#[test]
fn icon_address() {
    assert_eq!(icon_url("o", "r", "main", ""), None);
    assert_eq!(
        icon_url("o", "r", "main", "launcher/icon.png"),
        Some("https://raw.githubusercontent.com/o/r/main/launcher/icon.png".to_string())
    );
}

#[test]
fn key_and_warning_texts() {
    assert_eq!(registry_key("acme", "tool"), "acme/tool");
    assert_eq!(repo_warning("acme", "tool", "boom"), "acme/tool: boom");
}

#[test]
fn manifest_checks() {
    assert!(matches!(check_manifest("o", "r", ManifestFetch::NotPublished), Err(RepoScan::Unconfigured)));
    match check_manifest("o", "r", ManifestFetch::Failed("404 Not Found".into())) {
        Err(RepoScan::Warning(w)) => assert_eq!(w, "o/r: 404 Not Found"),
        _ => panic!("expected a warning"),
    }
    match check_manifest("o", "r", ManifestFetch::Malformed) {
        Err(RepoScan::Warning(w)) => assert_eq!(w, "o/r: launcher.json non valido"),
        _ => panic!("expected a warning"),
    }
    match check_manifest("o", "r", ManifestFetch::Parsed(manifest(" \t", "x.exe", ""))) {
        Err(RepoScan::Warning(w)) => assert_eq!(w, "o/r: launcher.json non valido"),
        _ => panic!("expected a warning"),
    }
    match check_manifest("o", "r", ManifestFetch::Parsed(manifest("Tool", "\u{3000}", ""))) {
        Err(RepoScan::Warning(w)) => assert_eq!(w, "o/r: launcher.json non valido"),
        _ => panic!("expected a warning"),
    }
    match check_manifest("o", "r", ManifestFetch::Parsed(manifest(" Tool ", "x.exe", ""))) {
        Ok(m) => assert_eq!(m.name, " Tool "),
        _ => panic!("expected the manifest"),
    }
}

#[test]
fn entry_without_release_or_asset_warns() {
    let reg = Registry::new();
    match catalog_entry("o".into(), "r".into(), "main", manifest("T", "t.exe", ""), None, &reg) {
        RepoScan::Warning(w) => assert_eq!(w, "o/r: nessuna latest release"),
        _ => panic!("expected a warning"),
    }
    let rel = Release { tag_name: "v1".into(), assets: vec![asset("t-linux.zip")] };
    match catalog_entry("o".into(), "r".into(), "main", manifest("T", "t.exe", ""), Some(rel), &reg) {
        RepoScan::Warning(w) => assert_eq!(w, "o/r: asset Windows ZIP non trovato"),
        _ => panic!("expected a warning"),
    }
}

#[test]
fn entry_lists_tool_with_local_version() {
    let mut reg = Registry::new();
    reg.insert(
        "o/r".into(),
        Installed { version: "1.0".into(), entrypoint: "t.exe".into(), installed_at: "now".into() },
    );
    let mut m = manifest("Tool", "t.exe", "");
    m.icon = "icon.png".into();
    let rel = Release { tag_name: "v1.0".into(), assets: vec![asset("a.txt"), asset("t-win-x64.zip")] };
    match catalog_entry("o".into(), "r".into(), "dev", m, Some(rel), &reg) {
        RepoScan::Listed(t) => {
            assert_eq!(t.owner, "o");
            assert_eq!(t.repo, "r");
            assert_eq!(t.name, "Tool");
            assert_eq!(t.description, "desc");
            assert_eq!(t.remote_version, "v1.0");
            assert_eq!(t.local_version.as_deref(), Some("1.0"));
            assert_eq!(t.status, "updated");
            assert_eq!(t.asset_name, "t-win-x64.zip");
            assert_eq!(
                t.icon_url.as_deref(),
                Some("https://raw.githubusercontent.com/o/r/dev/icon.png")
            );
        },
        _ => panic!("expected a tool"),
    }
    let rel = Release { tag_name: "v2.0".into(), assets: vec![asset("t-win-x64.zip")] };
    match catalog_entry("o".into(), "r".into(), "dev", manifest("Tool", "t.exe", ""), Some(rel), &reg) {
        RepoScan::Listed(t) => assert_eq!(t.status, "update_available"),
        _ => panic!("expected a tool"),
    }
    let rel = Release { tag_name: "v2.0".into(), assets: vec![asset("t-win-x64.zip")] };
    match catalog_entry("x".into(), "y".into(), "dev", manifest("Tool", "t.exe", ""), Some(rel), &reg) {
        RepoScan::Listed(t) => {
            assert_eq!(t.status, "not_installed");
            assert_eq!(t.local_version, None);
        },
        _ => panic!("expected a tool"),
    }
}

#[test]
fn catalog_counts_and_sorts() {
    let scans = vec![
        RepoScan::Listed(tool("beta")),
        RepoScan::Unconfigured,
        RepoScan::Warning("w1".into()),
        RepoScan::Listed(tool("Alpha")),
        RepoScan::Unconfigured,
        RepoScan::Listed(tool("alpha")),
        RepoScan::Warning("w2".into()),
        RepoScan::Listed(tool("Gamma")),
    ];
    let c = assemble_catalog(scans);
    assert_eq!(c.unconfigured, 2);
    assert_eq!(c.warnings, vec!["w1".to_string(), "w2".to_string()]);
    let names: Vec<&str> = c.tools.iter().map(|t| t.name.as_str()).collect();
    // Equal lowercase names keep their order.
    assert_eq!(names, vec!["Alpha", "alpha", "beta", "Gamma"]);
}

#[test]
fn catalog_of_nothing() {
    let c = assemble_catalog(vec![]);
    assert_eq!(c.unconfigured, 0);
    assert!(c.warnings.is_empty());
    assert!(c.tools.is_empty());
}

#[test]
fn catalog_sort_by_code_point() {
    let scans = vec![
        RepoScan::Listed(tool("zeta")),
        RepoScan::Listed(tool("Éclair")),
        RepoScan::Listed(tool("ab")),
        RepoScan::Listed(tool("a")),
        RepoScan::Listed(tool("B")),
    ];
    let c = assemble_catalog(scans);
    let names: Vec<&str> = c.tools.iter().map(|t| t.name.as_str()).collect();
    assert_eq!(names, vec!["a", "ab", "B", "zeta", "Éclair"]);
}
