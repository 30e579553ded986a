use qa_lab_launcher::install::{entrypoint_missing, installed_entrypoint, InstallFlow, InstallStep};
use qa_lab_launcher::model::{AssetRule, Manifest, Release, ReleaseAsset, Tool};
use qa_lab_launcher::paths::AppPath;
use qa_lab_launcher::registry::{Installed, Registry};

const ABC_SHA256: &str = "ba7816bf8f01cfea414140de5dae2223b00361a396177a9cb410ff61f20015ad";

fn tool(owner: &str, repo: &str, version: &str) -> Tool {
    Tool {
        owner: owner.into(),
        repo: repo.into(),
        name: "Tool".into(),
        description: "".into(),
        icon_url: None,
        remote_version: version.into(),
        local_version: None,
        status: "not_installed".into(),
        asset_name: "tool-win-x64.zip".into(),
    }
}

fn asset(name: &str) -> ReleaseAsset {
    ReleaseAsset { name: name.into(), browser_download_url: format!("https://dl/{name}") }
}

fn manifest(sha: &str) -> Manifest {
    Manifest {
        name: "Tool".into(),
        description: "".into(),
        entrypoint: "app/Tool.exe".into(),
        icon: "".into(),
        asset: AssetRule { pattern: "".into(), sha256_asset: sha.into() },
    }
}

fn names(p: &AppPath) -> Vec<&str> {
    p.segments.iter().map(|s| s.as_str()).collect()
}

fn message(step: InstallStep) -> String {
    match step {
        InstallStep::Fail { message, .. } => message,
        _ => panic!("expected a failure"),
    }
}

fn release() -> Option<Release> {
    Some(Release {
        tag_name: "v1.0".into(),
        assets: vec![asset("tool-win-x64.zip"), asset("tool-win-x64.zip.sha256")],
    })
}

/// Runs the flow up to the download, returning the flow.
fn to_download(sha: &str) -> InstallFlow {
    let (mut f, step) = InstallFlow::start(tool("acme", "tool", "v1.0"));
    match step {
        InstallStep::FetchRelease(u) => assert_eq!(u, "https://api.github.com/repos/acme/tool/releases/latest"),
        _ => panic!("expected the release fetch"),
    }
    match f.on_release(release()) {
        InstallStep::FetchManifestMeta(u) => {
            assert_eq!(u, "https://api.github.com/repos/acme/tool/contents/launcher.json")
        },
        _ => panic!("expected the manifest metadata fetch"),
    }
    match f.on_manifest_meta(Some(Some("https://raw/launcher.json".into()))) {
        InstallStep::FetchManifest(u) => assert_eq!(u, "https://raw/launcher.json"),
        _ => panic!("expected the manifest fetch"),
    }
    match f.on_manifest(manifest(sha), true) {
        InstallStep::Download { url, dir, archive } => {
            assert_eq!(url, "https://dl/tool-win-x64.zip");
            assert_eq!(names(&dir), vec!["QALab", "tools", "tool", "v1.0"]);
            assert_eq!(names(&archive), vec!["QALab", "tools", "tool", "v1.0", ".download.zip"]);
        },
        _ => panic!("expected the download"),
    }
    f
}

#[test]
fn install_without_checksum() {
    let mut f = to_download("");
    match f.on_download(Ok(())) {
        InstallStep::Extract { archive, dest } => {
            assert_eq!(names(&archive), vec!["QALab", "tools", "tool", "v1.0", ".download.zip"]);
            assert_eq!(names(&dest), vec!["QALab", "tools", "tool", "v1.0"]);
        },
        _ => panic!("expected the extraction"),
    }
    match f.on_extracted() {
        InstallStep::CheckEntrypoint(p) => {
            assert_eq!(names(&p), vec!["QALab", "tools", "tool", "v1.0", "app/Tool.exe"])
        },
        _ => panic!("expected the entry point check"),
    }
    match f.on_entrypoint(true, "2024-05-01T10:00:00+00:00".into()) {
        InstallStep::Record { key, installed } => {
            assert_eq!(key, "acme/tool");
            assert_eq!(installed.version, "v1.0");
            assert_eq!(installed.entrypoint, "app/Tool.exe");
            assert_eq!(installed.installed_at, "2024-05-01T10:00:00+00:00");
        },
        _ => panic!("expected the record"),
    }
}

#[test]
fn install_with_checksum() {
    let mut f = to_download("tool-win-x64.zip.sha256");
    match f.on_download(Ok(())) {
        InstallStep::FetchChecksum { url, to, archive } => {
            assert_eq!(url, "https://dl/tool-win-x64.zip.sha256");
            assert_eq!(names(&to), vec!["QALab", "tools", "tool", "v1.0", ".sha256"]);
            assert_eq!(names(&archive), vec!["QALab", "tools", "tool", "v1.0", ".download.zip"]);
        },
        _ => panic!("expected the checksum fetch"),
    }
    assert!(matches!(f.on_checksum(&format!("{ABC_SHA256}  tool.zip"), b"abc"), InstallStep::Extract { .. }));
    assert!(matches!(f.on_extracted(), InstallStep::CheckEntrypoint(_)));
    assert_eq!(
        message(f.on_entrypoint(false, "now".into())),
        "Installazione incompleta: app/Tool.exe non trovato nel pacchetto"
    );
}

#[test]
fn checksum_mismatch_stops() {
    let mut f = to_download("tool-win-x64.zip.sha256");
    assert!(matches!(f.on_download(Ok(())), InstallStep::FetchChecksum { .. }));
    assert_eq!(
        message(f.on_checksum(ABC_SHA256, b"tampered")),
        "Verifica SHA-256 fallita: il pacchetto potrebbe essere danneggiato."
    );
}

#[test]
fn checksum_asset_missing() {
    let mut f = to_download("other.sha256");
    assert_eq!(message(f.on_download(Ok(()))), "Asset checksum dichiarato ma assente");
}

#[test]
fn download_failure_discards_package() {
    let mut f = to_download("");
    match f.on_download(Err("timeout".into())) {
        InstallStep::Fail { message, discard } => {
            assert_eq!(message, "Download non riuscito: timeout");
            assert_eq!(names(&discard.unwrap()), vec!["QALab", "tools", "tool", "v1.0", ".download.zip"]);
        },
        _ => panic!("expected a failure"),
    }
}

#[test]
fn unsafe_request_refused() {
    let (_, step) = InstallFlow::start(tool("acme", "../evil", "v1"));
    assert_eq!(message(step), "Nome repository o versione non sicuri");
    let (_, step) = InstallFlow::start(tool("acme", "tool", "v1/.."));
    assert_eq!(message(step), "Nome repository o versione non sicuri");
    let (_, step) = InstallFlow::start(tool("", "tool", "v1"));
    assert_eq!(message(step), "Nome repository o versione non sicuri");
}

#[test]
fn release_checks() {
    let (mut f, _) = InstallFlow::start(tool("acme", "tool", "v1.0"));
    assert_eq!(message(f.on_release(None)), "Release non trovata");
    let (mut f, _) = InstallFlow::start(tool("acme", "tool", "v0.9"));
    assert_eq!(
        message(f.on_release(release())),
        "È disponibile una release più recente. Aggiorna il catalogo."
    );
    let (mut f, _) = InstallFlow::start(tool("acme", "tool", "v1.0"));
    let rel = Release { tag_name: "v1.0".into(), assets: vec![asset("tool-win-x64.ZIP")] };
    assert_eq!(message(f.on_release(Some(rel))), "Asset non più disponibile");
}

#[test]
fn install_manifest_checks() {
    let (mut f, _) = InstallFlow::start(tool("acme", "tool", "v1.0"));
    assert!(matches!(f.on_release(release()), InstallStep::FetchManifestMeta(_)));
    assert_eq!(message(f.on_manifest_meta(None)), "Manifest non trovato");
    let (mut f, _) = InstallFlow::start(tool("acme", "tool", "v1.0"));
    assert!(matches!(f.on_release(release()), InstallStep::FetchManifestMeta(_)));
    assert_eq!(message(f.on_manifest_meta(Some(None))), "Manifest non scaricabile");
    let (mut f, _) = InstallFlow::start(tool("acme", "tool", "v1.0"));
    assert!(matches!(f.on_release(release()), InstallStep::FetchManifestMeta(_)));
    assert!(matches!(f.on_manifest_meta(Some(Some("u".into()))), InstallStep::FetchManifest(_)));
    assert_eq!(message(f.on_manifest(manifest(""), false)), "Impossibile trovare LOCALAPPDATA");
}

#[test]
fn open_installed_tool() {
    let mut reg = Registry::new();
    assert_eq!(installed_entrypoint(&reg, "acme", "tool", true).err(), Some("Tool non installato".to_string()));
    reg.insert(
        "acme/tool".into(),
        Installed { version: "v1.0".into(), entrypoint: "Tool.exe".into(), installed_at: "t".into() },
    );
    let p = installed_entrypoint(&reg, "acme", "tool", true).unwrap();
    assert_eq!(names(&p), vec!["QALab", "tools", "tool", "v1.0", "Tool.exe"]);
    assert_eq!(
        installed_entrypoint(&reg, "acme", "tool", false).err(),
        Some("Impossibile trovare LOCALAPPDATA".to_string())
    );
    assert_eq!(entrypoint_missing(true), None);
    assert_eq!(
        entrypoint_missing(false),
        Some("Entrypoint non trovato. Reinstalla lo strumento.".to_string())
    );
}
