//! Installing a tool: the decisions between the downloads, from the check of
//! the request to the record in the registry.

use vstd::prelude::*;
use crate::catalog::{registry_key, repo_label};
use crate::checks::{checksum_accepted, checksum_matches};
use crate::github::{install_manifest_meta_url, latest_release_url, repo_base_text};
use crate::model::{Manifest, Release, ReleaseAsset, Tool};
use crate::paths::{is_safe_segment, root, safe_segment, AppPath, PathBase};
use crate::registry::{Installed, Registry};
use crate::text::same_text;

verus! {

/// Where an install stands.
#[derive(PartialEq, Eq, Structural, Clone, Copy)]
pub enum InstallPhase {
    AwaitRelease,
    AwaitManifestMeta,
    AwaitManifest,
    AwaitDownload,
    AwaitChecksum,
    AwaitExtract,
    AwaitEntrypoint,
    Done,
}

/// What the app does next in an install.
pub enum InstallStep {
    /// Read the latest release at this address; hand it to `on_release`.
    FetchRelease(String),
    /// Read the manifest's metadata at this address; hand its download
    /// address to `on_manifest_meta`.
    FetchManifestMeta(String),
    /// Download the manifest from this address; hand it to `on_manifest`.
    FetchManifest(String),
    /// Create `dir`, download `url` into `archive`; hand the outcome to `on_download`.
    Download { url: String, dir: AppPath, archive: AppPath },
    /// Download `url` into `to`, read it as text and read the package at
    /// `archive`; hand both to `on_checksum`.
    FetchChecksum { url: String, to: AppPath, archive: AppPath },
    /// Extract `archive` into `dest`, then delete `archive`; call `on_extracted`.
    Extract { archive: AppPath, dest: AppPath },
    /// Tell `on_entrypoint` whether this file exists.
    CheckEntrypoint(AppPath),
    /// Record this tool in the registry under `key`; the install is done.
    Record { key: String, installed: Installed },
    /// The install failed with `message`, after deleting `discard` if given.
    Fail { message: String, discard: Option<AppPath> },
}

/// The install of one tool.
pub struct InstallFlow {
    tool: Tool,
    phase: InstallPhase,
    asset: Option<ReleaseAsset>,
    assets: Vec<ReleaseAsset>,
    manifest: Option<Manifest>,
    dest: Option<AppPath>,
    verified: Ghost<Option<(Seq<char>, Seq<u8>)>>,
}

/// The directory a version of a tool is installed in.
pub open spec fn install_dir_view(repo: Seq<char>, version: Seq<char>) -> (PathBase, Seq<Seq<char>>) {
    (PathBase::LocalData, seq!["QALab"@, "tools"@, repo, version])
}

/// `path` is `dir` with `name` below it.
pub open spec fn below(dir: (PathBase, Seq<Seq<char>>), name: Seq<char>) -> (PathBase, Seq<Seq<char>>) {
    (dir.0, dir.1.push(name))
}

/// The names and download addresses of assets.
pub open spec fn asset_views(s: Seq<ReleaseAsset>) -> Seq<(Seq<char>, Seq<char>)> {
    s.map_values(|a: ReleaseAsset| (a.name@, a.browser_download_url@))
}

/// The first asset called `name`, among names and addresses.
pub open spec fn is_first_named_view(assets: Seq<(Seq<char>, Seq<char>)>, name: Seq<char>, i: int) -> bool {
    &&& 0 <= i < assets.len()
    &&& assets[i].0 == name
    &&& forall|j: int| 0 <= j < i ==> (#[trigger] assets[j]).0 != name
}

/// The first asset called `name`.
pub open spec fn is_first_named(assets: Seq<ReleaseAsset>, name: Seq<char>, i: int) -> bool {
    &&& 0 <= i < assets.len()
    &&& assets[i].name@ == name
    &&& forall|j: int| 0 <= j < i ==> (#[trigger] assets[j]).name@ != name
}

fn find_named(assets: &Vec<ReleaseAsset>, name: &str) -> (r: Option<usize>)
    ensures
        match r {
            Some(i) => is_first_named(assets@, name@, i as int),
            None => forall|j: int| 0 <= j < assets@.len() ==> (#[trigger] assets@[j]).name@ != name@,
        },
{
    let n = assets.len();
    let mut i: usize = 0;
    while i < n
        invariant
            n == assets@.len(),
            i <= n,
            forall|j: int| 0 <= j < i ==> (#[trigger] assets@[j]).name@ != name@,
        decreases n - i,
    {
        if same_text(assets[i].name.as_str(), name) {
            return Some(i);
        }
        i = i + 1;
    }
    None
}

fn install_dir(repo: &str, version: &str) -> (r: AppPath)
    ensures
        r@ == install_dir_view(repo@, version@),
{
    let d = root(true).unwrap().join("tools").join(repo).join(version);
    assert(d@.1 =~= seq!["QALab"@, "tools"@, repo@, version@]);
    d
}

fn fail(message: &str) -> (r: InstallStep)
    ensures
        r matches InstallStep::Fail { message: m, discard: None } && m@ == message@,
{
    InstallStep::Fail { message: String::from_str(message), discard: None }
}

fn copy_path(p: &AppPath) -> (r: AppPath)
    ensures
        r@ == p@,
{
    let mut segments: Vec<String> = Vec::new();
    let n = p.segments.len();
    let mut i: usize = 0;
    while i < n
        invariant
            n == p.segments@.len(),
            i <= n,
            segments@.len() == i,
            forall|j: int| 0 <= j < i ==> (#[trigger] segments@[j])@ == p.segments@[j]@,
        decreases n - i,
    {
        segments.push(p.segments[i].clone());
        i = i + 1;
    }
    let r = AppPath { base: p.base, segments };
    assert(r@.1 =~= p@.1);
    r
}

impl InstallFlow {
    /// The tool being installed.
    pub closed spec fn tool(&self) -> Tool {
        self.tool
    }

    /// The names and addresses of the release's assets, once read.
    pub closed spec fn release_assets(&self) -> Seq<(Seq<char>, Seq<char>)> {
        asset_views(self.assets@)
    }

    /// Where the install stands.
    pub closed spec fn phase(&self) -> InstallPhase {
        self.phase
    }

    /// The asset chosen for download, once the release has been read.
    pub closed spec fn asset(&self) -> Option<ReleaseAsset> {
        self.asset
    }

    /// The manifest, once it has been read.
    pub closed spec fn manifest(&self) -> Option<Manifest> {
        self.manifest
    }

    /// The checksum text and package bytes that passed the check, if one was made.
    pub closed spec fn verified(&self) -> Option<(Seq<char>, Seq<u8>)> {
        self.verified@
    }

    /// The install directory, once known.
    pub closed spec fn dest(&self) -> Option<(PathBase, Seq<Seq<char>>)> {
        match self.dest {
            Some(d) => Some(d@),
            None => None,
        }
    }

    /// Whether the manifest asks for a checksum.
    pub open spec fn checksum_declared(&self) -> bool {
        self.manifest() matches Some(m) && m.asset.sha256_asset@.len() > 0
    }

    /// What each phase has established so far.
    #[verifier::type_invariant]
    closed spec fn wf(&self) -> bool {
        let p = self.phase;
        let past_release = p != InstallPhase::AwaitRelease;
        let past_manifest = past_release && p != InstallPhase::AwaitManifestMeta && p
            != InstallPhase::AwaitManifest;
        &&& past_release && p != InstallPhase::Done ==> (self.asset matches Some(a) && a.name@
            == self.tool.asset_name@)
        &&& past_manifest && p != InstallPhase::Done ==> self.manifest is Some && (self.dest matches Some(
            d,
        ) && d@ == install_dir_view(self.tool.repo@, self.tool.remote_version@))
        &&& (p == InstallPhase::AwaitExtract || p == InstallPhase::AwaitEntrypoint)
            && self.checksum_declared() ==> (self.verified@ matches Some((t, b))
            && checksum_accepted(t, b))
    }

    /// Starts the install of `tool`: its owner, repository and version must be
    /// safe path segments, then the latest release is read.
    pub fn start(tool: Tool) -> (r: (InstallFlow, InstallStep))
        ensures
            r.0.tool() == tool,
            if is_safe_segment(tool.owner@) && is_safe_segment(tool.repo@) && is_safe_segment(
                tool.remote_version@,
            ) {
                &&& r.0.phase() == InstallPhase::AwaitRelease
                &&& r.1 matches InstallStep::FetchRelease(u) && u@ == repo_base_text(
                    tool.owner@,
                    tool.repo@,
                ) + "/releases/latest"@
            } else {
                &&& r.0.phase() == InstallPhase::Done
                &&& r.1 matches InstallStep::Fail { message: m, discard: None } && m@
                    == "Nome repository o versione non sicuri"@
            },
    {
        let safe = safe_segment(tool.owner.as_str()) && safe_segment(tool.repo.as_str())
            && safe_segment(tool.remote_version.as_str());
        let step = if safe {
            InstallStep::FetchRelease(latest_release_url(tool.owner.as_str(), tool.repo.as_str()))
        } else {
            fail("Nome repository o versione non sicuri")
        };
        let flow = InstallFlow {
            tool,
            phase: if safe {
                InstallPhase::AwaitRelease
            } else {
                InstallPhase::Done
            },
            asset: None,
            assets: Vec::new(),
            manifest: None,
            dest: None,
            verified: Ghost(None),
        };
        (flow, step)
    }

    /// Checks the latest release: it must exist, carry the version the
    /// catalog showed, and still offer the asset the catalog chose.
    pub fn on_release(&mut self, release: Option<Release>) -> (r: InstallStep)
        requires
            old(self).phase() == InstallPhase::AwaitRelease,
        ensures
            final(self).tool() == old(self).tool(),
            match release {
                None => final(self).phase() == InstallPhase::Done && (r matches InstallStep::Fail {
                    message: m,
                    discard: None,
                } && m@ == "Release non trovata"@),
                Some(rel) => if rel.tag_name@ != old(self).tool().remote_version@ {
                    final(self).phase() == InstallPhase::Done && (r matches InstallStep::Fail {
                        message: m,
                        discard: None,
                    } && m@ == "È disponibile una release più recente. Aggiorna il catalogo."@)
                } else if forall|j: int|
                    0 <= j < rel.assets@.len() ==> (#[trigger] rel.assets@[j]).name@ != old(
                        self,
                    ).tool().asset_name@ {
                    final(self).phase() == InstallPhase::Done && (r matches InstallStep::Fail {
                        message: m,
                        discard: None,
                    } && m@ == "Asset non più disponibile"@)
                } else {
                    &&& final(self).phase() == InstallPhase::AwaitManifestMeta
                    &&& final(self).release_assets() == asset_views(rel.assets@)
                    &&& exists|i: int|
                        is_first_named(rel.assets@, old(self).tool().asset_name@, i)
                            && final(self).asset() == Some(#[trigger] rel.assets@[i])
                    &&& r matches InstallStep::FetchManifestMeta(u) && u@ == repo_base_text(
                        old(self).tool().owner@,
                        old(self).tool().repo@,
                    ) + "/contents/launcher.json"@
                }
            },
    {
        proof {
            use_type_invariant(&*self);
        }
        match release {
            None => {
                self.phase = InstallPhase::Done;
                fail("Release non trovata")
            },
            Some(rel) => {
                let Release { tag_name, assets } = rel;
                if !same_text(tag_name.as_str(), self.tool.remote_version.as_str()) {
                    self.phase = InstallPhase::Done;
                    return fail("È disponibile una release più recente. Aggiorna il catalogo.");
                }
                match find_named(&assets, self.tool.asset_name.as_str()) {
                    None => {
                        self.phase = InstallPhase::Done;
                        fail("Asset non più disponibile")
                    },
                    Some(i) => {
                        let ghost all = assets@;
                        let mut assets = assets;
                        let chosen = assets.remove(i);
                        let ghost rest = assets@;
                        // Keep the asset list whole for the checksum lookup.
                        assets.insert(i, ReleaseAsset {
                            name: chosen.name.clone(),
                            browser_download_url: chosen.browser_download_url.clone(),
                        });
                        proof {
                            assert(chosen == all[i as int]);
                            assert forall|j: int| 0 <= j < all.len() implies (#[trigger] assets@[j]).name@
                                == all[j].name@ by {
                                if j < i {
                                    assert(assets@[j] == rest[j]);
                                    assert(rest[j] == all[j]);
                                } else if j > i {
                                    assert(assets@[j] == rest[j - 1]);
                                    assert(rest[j - 1] == all[j]);
                                }
                            }
                            assert(asset_views(assets@) =~= asset_views(all)) by {
                                assert forall|j: int| 0 <= j < all.len() implies asset_views(assets@)[j]
                                    == asset_views(all)[j] by {
                                    if j < i {
                                        assert(assets@[j] == rest[j]);
                                        assert(rest[j] == all[j]);
                                    } else if j > i {
                                        assert(assets@[j] == rest[j - 1]);
                                        assert(rest[j - 1] == all[j]);
                                    }
                                }
                            }
                        }
                        let u = install_manifest_meta_url(
                            self.tool.owner.as_str(),
                            self.tool.repo.as_str(),
                        );
                        self.asset = Some(chosen);
                        self.assets = assets;
                        self.phase = InstallPhase::AwaitManifestMeta;
                        InstallStep::FetchManifestMeta(u)
                    },
                }
            },
        }
    }

    /// Reads the manifest's metadata: the manifest must exist and have a
    /// download address. `meta` is `None` when GitHub has no manifest, and
    /// `Some(None)` when it gives no download address.
    pub fn on_manifest_meta(&mut self, meta: Option<Option<String>>) -> (r: InstallStep)
        requires
            old(self).phase() == InstallPhase::AwaitManifestMeta,
        ensures
            final(self).tool() == old(self).tool(),
            final(self).release_assets() == old(self).release_assets(),
            final(self).asset() == old(self).asset(),
            match meta {
                None => final(self).phase() == InstallPhase::Done && (r matches InstallStep::Fail {
                    message: m,
                    discard: None,
                } && m@ == "Manifest non trovato"@),
                Some(None) => final(self).phase() == InstallPhase::Done && (r matches InstallStep::Fail {
                    message: m,
                    discard: None,
                } && m@ == "Manifest non scaricabile"@),
                Some(Some(u)) => final(self).phase() == InstallPhase::AwaitManifest && (r matches InstallStep::FetchManifest(
                    v,
                ) && v@ == u@),
            },
    {
        proof {
            use_type_invariant(&*self);
        }
        match meta {
            None => {
                self.phase = InstallPhase::Done;
                fail("Manifest non trovato")
            },
            Some(None) => {
                self.phase = InstallPhase::Done;
                fail("Manifest non scaricabile")
            },
            Some(Some(u)) => {
                self.phase = InstallPhase::AwaitManifest;
                InstallStep::FetchManifest(u)
            },
        }
    }

    /// With the manifest read, downloads the chosen asset into the install
    /// directory `tools/<repo>/<version>` of the data directory, as
    /// `.download.zip`.
    pub fn on_manifest(&mut self, manifest: Manifest, local_data_found: bool) -> (r: InstallStep)
        requires
            old(self).phase() == InstallPhase::AwaitManifest,
        ensures
            final(self).tool() == old(self).tool(),
            final(self).release_assets() == old(self).release_assets(),
            final(self).asset() == old(self).asset(),
            if !local_data_found {
                final(self).phase() == InstallPhase::Done && (r matches InstallStep::Fail {
                    message: m,
                    discard: None,
                } && m@ == "Impossibile trovare LOCALAPPDATA"@)
            } else {
                let dir = install_dir_view(old(self).tool().repo@, old(self).tool().remote_version@);
                &&& final(self).phase() == InstallPhase::AwaitDownload
                &&& final(self).manifest() == Some(manifest)
                &&& final(self).dest() == Some(dir)
                &&& r matches InstallStep::Download { url, dir: d, archive } && url@
                    == old(self).asset().unwrap().browser_download_url@ && d@ == dir && archive@
                    == below(dir, ".download.zip"@)
            },
    {
        proof {
            use_type_invariant(&*self);
        }
        if !local_data_found {
            self.phase = InstallPhase::Done;
            return fail("Impossibile trovare LOCALAPPDATA");
        }
        let dest = install_dir(self.tool.repo.as_str(), self.tool.remote_version.as_str());
        let archive = copy_path(&dest).join(".download.zip");
        let dir = copy_path(&dest);
        let url = self.asset.as_ref().unwrap().browser_download_url.clone();
        self.manifest = Some(manifest);
        self.dest = Some(dest);
        self.phase = InstallPhase::AwaitDownload;
        InstallStep::Download { url, dir, archive }
    }

    /// After the download: a failure deletes the partial package; otherwise
    /// the checksum is fetched when the manifest names one (it must be among
    /// the release's assets), or the package is extracted.
    pub fn on_download(&mut self, outcome: Result<(), String>) -> (r: InstallStep)
        requires
            old(self).phase() == InstallPhase::AwaitDownload,
        ensures
            outcome is Ok && old(self).manifest().unwrap().asset.sha256_asset@.len() == 0 ==> r is Extract,
            outcome is Ok && old(self).manifest().unwrap().asset.sha256_asset@.len() > 0 ==> (r is FetchChecksum || (r matches InstallStep::Fail { message: m, discard: None } && m@
                == "Asset checksum dichiarato ma assente"@)),
            final(self).tool() == old(self).tool(),
            final(self).manifest() == old(self).manifest(),
            final(self).dest() == old(self).dest(),
            match outcome {
                Err(e) => final(self).phase() == InstallPhase::Done && (r matches InstallStep::Fail {
                    message: m,
                    discard: Some(p),
                } && m@ == "Download non riuscito: "@ + e@ && p@ == below(
                    old(self).dest().unwrap(),
                    ".download.zip"@,
                )),
                Ok(()) => if !old(self).checksum_declared() {
                    final(self).phase() == InstallPhase::AwaitExtract && (r matches InstallStep::Extract {
                        archive,
                        dest,
                    } && archive@ == below(old(self).dest().unwrap(), ".download.zip"@) && dest@
                        == old(self).dest().unwrap())
                } else {
                    let sha = old(self).manifest().unwrap().asset.sha256_asset@;
                    if forall|j: int|
                        0 <= j < old(self).release_assets().len() ==> (#[trigger] old(
                            self,
                        ).release_assets()[j]).0 != sha {
                        final(self).phase() == InstallPhase::Done && (r matches InstallStep::Fail {
                            message: m,
                            discard: None,
                        } && m@ == "Asset checksum dichiarato ma assente"@)
                    } else {
                        &&& final(self).phase() == InstallPhase::AwaitChecksum
                        &&& r matches InstallStep::FetchChecksum { url, to, archive } && to@ == below(
                            old(self).dest().unwrap(),
                            ".sha256"@,
                        ) && archive@ == below(old(self).dest().unwrap(), ".download.zip"@)
                            && exists|i: int|
                            is_first_named_view(old(self).release_assets(), sha, i) && url@
                                == (#[trigger] old(self).release_assets()[i]).1
                    }
                },
            },
    {
        proof {
            use_type_invariant(&*self);
        }
        let dest = copy_path(self.dest.as_ref().unwrap());
        match outcome {
            Err(e) => {
                let mut m = String::from_str("Download non riuscito: ");
                m.append(e.as_str());
                self.phase = InstallPhase::Done;
                InstallStep::Fail { message: m, discard: Some(dest.join(".download.zip")) }
            },
            Ok(()) => {
                let sha_name = self.manifest.as_ref().unwrap().asset.sha256_asset.clone();
                if sha_name.as_str().is_empty() {
                    let archive = copy_path(&dest).join(".download.zip");
                    self.phase = InstallPhase::AwaitExtract;
                    InstallStep::Extract { archive, dest }
                } else {
                    let found = find_named(&self.assets, sha_name.as_str());
                    proof {
                        assert forall|j: int| 0 <= j < self.assets@.len() implies #[trigger] self.release_assets()[j]
                            == (self.assets@[j].name@, self.assets@[j].browser_download_url@) by {}
                    }
                    match found {
                        None => {
                            self.phase = InstallPhase::Done;
                            fail("Asset checksum dichiarato ma assente")
                        },
                        Some(i) => {
                            assert(self.release_assets()[i as int].1 == self.assets@[i as int].browser_download_url@);
                            let url = self.assets[i].browser_download_url.clone();
                            self.phase = InstallPhase::AwaitChecksum;
                            let archive = copy_path(&dest).join(".download.zip");
                            InstallStep::FetchChecksum { url, to: dest.join(".sha256"), archive }
                        },
                    }
                }
            },
        }
    }

    /// Checks the package against the checksum file; a mismatch stops the install.
    pub fn on_checksum(&mut self, checksum_text: &str, package: &[u8]) -> (r: InstallStep)
        requires
            old(self).phase() == InstallPhase::AwaitChecksum,
        ensures
            final(self).tool() == old(self).tool(),
            final(self).manifest() == old(self).manifest(),
            final(self).dest() == old(self).dest(),
            if checksum_accepted(checksum_text@, package@) {
                &&& final(self).phase() == InstallPhase::AwaitExtract
                &&& final(self).verified() == Some((checksum_text@, package@))
                &&& r matches InstallStep::Extract { archive, dest } && archive@ == below(
                    old(self).dest().unwrap(),
                    ".download.zip"@,
                ) && dest@ == old(self).dest().unwrap()
            } else {
                final(self).phase() == InstallPhase::Done && (r matches InstallStep::Fail {
                    message: m,
                    discard: None,
                } && m@ == "Verifica SHA-256 fallita: il pacchetto potrebbe essere danneggiato."@)
            },
    {
        proof {
            use_type_invariant(&*self);
        }
        if checksum_matches(checksum_text, package) {
            let dest = copy_path(self.dest.as_ref().unwrap());
            let archive = copy_path(&dest).join(".download.zip");
            self.verified = Ghost(Some((checksum_text@, package@)));
            self.phase = InstallPhase::AwaitExtract;
            InstallStep::Extract { archive, dest }
        } else {
            self.phase = InstallPhase::Done;
            fail("Verifica SHA-256 fallita: il pacchetto potrebbe essere danneggiato.")
        }
    }

    /// After the extraction, checks that the entry point is there.
    pub fn on_extracted(&mut self) -> (r: InstallStep)
        requires
            old(self).phase() == InstallPhase::AwaitExtract,
        ensures
            final(self).tool() == old(self).tool(),
            final(self).manifest() == old(self).manifest(),
            final(self).dest() == old(self).dest(),
            final(self).verified() == old(self).verified(),
            final(self).phase() == InstallPhase::AwaitEntrypoint,
            r matches InstallStep::CheckEntrypoint(p) && p@ == below(
                old(self).dest().unwrap(),
                old(self).manifest().unwrap().entrypoint@,
            ),
    {
        proof {
            use_type_invariant(&*self);
        }
        let dest = copy_path(self.dest.as_ref().unwrap());
        let exe = dest.join(self.manifest.as_ref().unwrap().entrypoint.as_str());
        self.phase = InstallPhase::AwaitEntrypoint;
        InstallStep::CheckEntrypoint(exe)
    }

    /// With the entry point present, records the tool under `owner/repo` with
    /// its version, entry point and the install time; without it, the
    /// install is incomplete.
    pub fn on_entrypoint(&mut self, present: bool, installed_at: String) -> (r: InstallStep)
        requires
            old(self).phase() == InstallPhase::AwaitEntrypoint,
        ensures
            final(self).phase() == InstallPhase::Done,
            final(self).tool() == old(self).tool(),
            !present ==> (r matches InstallStep::Fail { message: m, discard: None } && m@
                == "Installazione incompleta: "@ + old(self).manifest().unwrap().entrypoint@
                + " non trovato nel pacchetto"@),
            present ==> (r matches InstallStep::Record { key, installed } && key@ == repo_label(
                old(self).tool().owner@,
                old(self).tool().repo@,
            ) && installed.version@ == old(self).tool().remote_version@ && installed.entrypoint@
                == old(self).manifest().unwrap().entrypoint@ && installed.installed_at
                == installed_at),
            r is Record ==> old(self).checksum_declared() ==> (old(self).verified() matches Some(
                (t, b),
            ) && checksum_accepted(t, b)),
            r is Record && old(self).manifest().unwrap().asset.sha256_asset@.len() > 0 ==> (old(
                self,
            ).verified() matches Some((t, b)) && checksum_accepted(t, b)),
    {
        proof {
            use_type_invariant(&*self);
        }
        let entrypoint = self.manifest.as_ref().unwrap().entrypoint.clone();
        self.phase = InstallPhase::Done;
        if !present {
            let mut m = String::from_str("Installazione incompleta: ");
            m.append(entrypoint.as_str());
            m.append(" non trovato nel pacchetto");
            return InstallStep::Fail { message: m, discard: None };
        }
        let key = registry_key(self.tool.owner.as_str(), self.tool.repo.as_str());
        InstallStep::Record {
            key,
            installed: Installed {
                version: self.tool.remote_version.clone(),
                entrypoint,
                installed_at,
            },
        }
    }
}

/// The entry point of an installed tool: `tools/<repo>/<version>/<entry
/// point>` in the data directory, with the version and entry point that the
/// registry records under `owner/repo`.
pub fn installed_entrypoint(registry: &Registry, owner: &str, repo: &str, local_data_found: bool) -> (r: Result<AppPath, String>)
    ensures
        !registry.view().contains_key(repo_label(owner@, repo@)) ==> (r matches Err(e) && e@
            == "Tool non installato"@),
        registry.view().contains_key(repo_label(owner@, repo@)) && !local_data_found ==> (r matches Err(e) && e@
            == "Impossibile trovare LOCALAPPDATA"@),
        registry.view().contains_key(repo_label(owner@, repo@)) && local_data_found ==> (r matches Ok(p) && {
            let i = registry.view()[repo_label(owner@, repo@)];
            p@ == below(install_dir_view(repo@, i.version@), i.entrypoint@)
        }),
{
    let key = registry_key(owner, repo);
    match registry.get(key.as_str()) {
        None => Err(String::from_str("Tool non installato")),
        Some(i) => {
            if !local_data_found {
                return Err(String::from_str("Impossibile trovare LOCALAPPDATA"));
            }
            Ok(install_dir(repo, i.version.as_str()).join(i.entrypoint.as_str()))
        },
    }
}

/// The error when an installed entry point is gone, or nothing when it is there.
pub fn entrypoint_missing(present: bool) -> (r: Option<String>)
    ensures
        present ==> r is None,
        !present ==> (r matches Some(e) && e@ == "Entrypoint non trovato. Reinstalla lo strumento."@),
{
    if present {
        None
    } else {
        Some(String::from_str("Entrypoint non trovato. Reinstalla lo strumento."))
    }
}


/// Each version of a tool has its own directory, so installing a new one
/// leaves the older ones in place.
pub proof fn law_versions_apart(repo: Seq<char>, v1: Seq<char>, v2: Seq<char>)
    requires
        v1 != v2,
    ensures
        install_dir_view(repo, v1) != install_dir_view(repo, v2),
{
    assert(install_dir_view(repo, v1).1[3] == v1);
    assert(install_dir_view(repo, v2).1[3] == v2);
}

/// Opening an installed tool looks for the very file whose presence its
/// install checked: the recorded entry point in the directory of the recorded
/// version.
pub proof fn law_open_finds_installed(
    registry: Registry,
    owner: Seq<char>,
    repo: Seq<char>,
    version: Seq<char>,
    entrypoint: Seq<char>,
)
    requires
        registry.view().contains_key(repo_label(owner, repo)),
        registry.view()[repo_label(owner, repo)].version@ == version,
        registry.view()[repo_label(owner, repo)].entrypoint@ == entrypoint,
    ensures
        below(
            install_dir_view(repo, registry.view()[repo_label(owner, repo)].version@),
            registry.view()[repo_label(owner, repo)].entrypoint@,
        ) == below(install_dir_view(repo, version), entrypoint),
{
}

/// A checksum is asked for exactly when the manifest names a checksum asset.
pub proof fn law_checksum_declared(f: InstallFlow)
    ensures
        f.checksum_declared() <==> (f.manifest() matches Some(m) && m.asset.sha256_asset@.len() > 0),
{
}

} // verus!
