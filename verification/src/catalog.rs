//! Which asset a release offers, how versions compare, and how the catalog of
//! tools is put together.

use vstd::prelude::*;
use crate::external::{lowercase, unicode_lowercase};
use crate::model::{Manifest, Release, ReleaseAsset, Tool};
use crate::registry::Registry;
use crate::text::{
    chars_of, ends_with, ends_with_chars, is_blank, is_blank_text, lemma_text_le_reflexive,
    lemma_text_le_total, lemma_text_le_transitive, same_text, tag_without_v, text_le, text_le_chars,
};

verus! {

/// The suffix that a manifest asks for: its own pattern, or `-win-x64.zip`.
pub open spec fn asset_pattern(m: &Manifest) -> Seq<char> {
    if m.asset.pattern@.len() == 0 {
        "-win-x64.zip"@
    } else {
        m.asset.pattern@
    }
}

/// The characters `.zip`.
pub open spec fn zip_suffix() -> Seq<char> {
    seq!['.', 'z', 'i', 'p']
}

/// An asset named `name` is a candidate for `pattern` when its lowercase name
/// ends with the lowercase pattern and with `.zip`.
pub open spec fn asset_matches(name: Seq<char>, pattern: Seq<char>) -> bool {
    &&& ends_with(unicode_lowercase(name), unicode_lowercase(pattern))
    &&& ends_with(unicode_lowercase(name), zip_suffix())
}

/// `i` is the first asset that matches `pattern`.
pub open spec fn is_first_match(assets: Seq<ReleaseAsset>, pattern: Seq<char>, i: int) -> bool {
    &&& 0 <= i < assets.len()
    &&& asset_matches(assets[i].name@, pattern)
    &&& forall|j: int| 0 <= j < i ==> !asset_matches(#[trigger] assets[j].name@, pattern)
}

/// Whether an asset name, already lowercased, ends with the lowercased
/// pattern and with `.zip`.
pub fn lowered_name_matches(name_lower: &str, pattern_lower: &str) -> (r: bool)
    ensures
        r == (ends_with(name_lower@, pattern_lower@) && ends_with(name_lower@, zip_suffix())),
{
    let name = chars_of(name_lower);
    let pat = chars_of(pattern_lower);
    let zip = vec!['.', 'z', 'i', 'p'];
    assert(zip@ =~= zip_suffix());
    ends_with_chars(&name, &pat) && ends_with_chars(&name, &zip)
}

/// The index of the first asset that matches `pattern`, if any.
fn first_matching_asset(pattern: &str, assets: &[ReleaseAsset]) -> (r: Option<usize>)
    ensures
        match r {
            Some(i) => is_first_match(assets@, pattern@, i as int),
            None => forall|j: int|
                0 <= j < assets@.len() ==> !asset_matches(#[trigger] assets@[j].name@, pattern@),
        },
{
    let pat = lowercase(pattern);
    let n = assets.len();
    let mut i: usize = 0;
    while i < n
        invariant
            n == assets@.len(),
            i <= n,
            pat@ == unicode_lowercase(pattern@),
            forall|j: int| 0 <= j < i ==> !asset_matches(#[trigger] assets@[j].name@, pattern@),
        decreases n - i,
    {
        let name = lowercase(assets[i].name.as_str());
        if lowered_name_matches(name.as_str(), pat.as_str()) {
            return Some(i);
        }
        i = i + 1;
    }
    None
}

/// The release asset to install: the first, in release order, whose name
/// ends (ignoring case) with the manifest's pattern and with `.zip`.
pub fn choose_asset<'a>(m: &Manifest, assets: &'a [ReleaseAsset]) -> (r: Option<&'a ReleaseAsset>)
    ensures
        match r {
            Some(a) => exists|i: int|
                is_first_match(assets@, asset_pattern(m), i) && *a == #[trigger] assets@[i],
            None => forall|j: int|
                0 <= j < assets@.len() ==> !asset_matches(
                    #[trigger] assets@[j].name@,
                    asset_pattern(m),
                ),
        },
        m.asset.pattern@.len() == 0 ==> match r {
            Some(a) => ends_with(unicode_lowercase(a.name@), unicode_lowercase("-win-x64.zip"@))
                && ends_with(unicode_lowercase(a.name@), seq!['.', 'z', 'i', 'p']),
            None => forall|j: int|
                0 <= j < assets@.len() ==> !(ends_with(
                    unicode_lowercase((#[trigger] assets@[j]).name@),
                    unicode_lowercase("-win-x64.zip"@),
                ) && ends_with(unicode_lowercase(assets@[j].name@), seq!['.', 'z', 'i', 'p'])),
        },
        m.asset.pattern@.len() > 0 ==> match r {
            Some(a) => ends_with(unicode_lowercase(a.name@), unicode_lowercase(m.asset.pattern@))
                && ends_with(unicode_lowercase(a.name@), seq!['.', 'z', 'i', 'p']),
            None => forall|j: int|
                0 <= j < assets@.len() ==> !(ends_with(
                    unicode_lowercase((#[trigger] assets@[j]).name@),
                    unicode_lowercase(m.asset.pattern@),
                ) && ends_with(unicode_lowercase(assets@[j].name@), seq!['.', 'z', 'i', 'p'])),
        },
{
    let pattern: &str = if m.asset.pattern.as_str().is_empty() {
        "-win-x64.zip"
    } else {
        m.asset.pattern.as_str()
    };
    assert(pattern@ == asset_pattern(m)) by {
        if m.asset.pattern@.len() != 0 {
        }
    }
    match first_matching_asset(pattern, assets) {
        Some(i) => Some(&assets[i]),
        None => None,
    }
}

/// A release tag without its leading `v`, so that `v1.4.0` and `1.4.0` agree.
pub fn normalize_tag(s: &str) -> (r: &str)
    ensures
        r@ == tag_without_v(s@),
        s@.len() > 0 && s@[0] == 'v' ==> r@ == s@.subrange(1, s@.len() as int),
        !(s@.len() > 0 && s@[0] == 'v') ==> r@ == s@,
{
    let n = s.unicode_len();
    if n > 0 && s.get_char(0) == 'v' {
        s.substring_char(1, n)
    } else {
        s
    }
}

/// The sort key of a tool: its lowercase name.
pub open spec fn tool_key(t: Tool) -> Seq<char> {
    unicode_lowercase(t.name@)
}

/// `out` holds the tools of `input` rearranged by `perm` (`out[k]` is
/// `input[perm[k]]`), ordered by key, with tools of equal key in their
/// original order: what a stable sort by key gives.
pub open spec fn is_stable_sort(perm: Seq<int>, input: Seq<Tool>, out: Seq<Tool>) -> bool {
    &&& perm.len() == input.len()
    &&& out.len() == input.len()
    &&& forall|k: int| 0 <= k < out.len() ==> 0 <= #[trigger] perm[k] < input.len()
    &&& forall|k: int| 0 <= k < out.len() ==> #[trigger] out[k] == input[perm[k]]
    &&& forall|k: int, l: int| 0 <= k < l < out.len() ==> #[trigger] perm[k] != #[trigger] perm[l]
    &&& forall|k: int, l: int|
        0 <= k < l < out.len() ==> text_le(tool_key(#[trigger] out[k]), tool_key(#[trigger] out[l]))
    &&& forall|k: int, l: int|
        0 <= k < l < out.len() && tool_key(#[trigger] out[k]) == tool_key(#[trigger] out[l])
            ==> perm[k] < perm[l]
}

/// `s` with its element at `i` moved to position `p`.
pub open spec fn moved<A>(s: Seq<A>, i: int, p: int) -> Seq<A> {
    s.remove(i).insert(p, s[i])
}

proof fn lemma_moved<A>(s: Seq<A>, i: int, p: int)
    requires
        0 <= p <= i < s.len(),
    ensures
        moved(s, i, p).len() == s.len(),
        forall|k: int| 0 <= k < p ==> #[trigger] moved(s, i, p)[k] == s[k],
        moved(s, i, p)[p] == s[i],
        forall|k: int| p < k <= i ==> #[trigger] moved(s, i, p)[k] == s[k - 1],
        forall|k: int| i < k < s.len() ==> #[trigger] moved(s, i, p)[k] == s[k],
{
    s.remove_ensures(i);
    s.remove(i).insert_ensures(p, s[i]);
    assert forall|k: int| p < k <= i implies #[trigger] moved(s, i, p)[k] == s[k - 1] by {
        assert(moved(s, i, p)[(k - 1) + 1] == s.remove(i)[k - 1]);
    }
    assert forall|k: int| i < k < s.len() implies #[trigger] moved(s, i, p)[k] == s[k] by {
        assert(moved(s, i, p)[(k - 1) + 1] == s.remove(i)[k - 1]);
    }
}

/// Sorts tools by lowercase name, keeping the order of tools whose names
/// compare equal (a stable sort, as `sort_by` is).
pub fn sort_tools(tools: Vec<Tool>) -> (out: Vec<Tool>)
    ensures
        exists|perm: Seq<int>| is_stable_sort(perm, tools@, out@),
        forall|k: int, l: int|
            0 <= k < l < out@.len() ==> text_le(
                unicode_lowercase((#[trigger] out@[k]).name@),
                unicode_lowercase((#[trigger] out@[l]).name@),
            ),
{
    let ghost input = tools@;
    let mut v = tools;
    let n = v.len();
    let mut keys: Vec<Vec<char>> = Vec::new();
    let mut j: usize = 0;
    while j < n
        invariant
            n == v@.len(),
            v@ == input,
            j <= n,
            keys@.len() == j,
            forall|k: int| 0 <= k < j ==> #[trigger] keys@[k]@ == tool_key(v@[k]),
        decreases n - j,
    {
        keys.push(chars_of(lowercase(v[j].name.as_str()).as_str()));
        j = j + 1;
    }
    let ghost mut perm: Seq<int> = Seq::new(n as nat, |k: int| k);
    let mut i: usize = 0;
    while i < n
        invariant
            n == v@.len(),
            n == keys@.len(),
            n == input.len(),
            i <= n,
            perm.len() == n,
            forall|k: int| 0 <= k < n ==> #[trigger] keys@[k]@ == tool_key(v@[k]),
            forall|k: int| 0 <= k < n ==> 0 <= #[trigger] perm[k] < n,
            forall|k: int| 0 <= k < n ==> #[trigger] v@[k] == input[perm[k]],
            forall|k: int, l: int| 0 <= k < l < n ==> #[trigger] perm[k] != #[trigger] perm[l],
            forall|k: int| i <= k < n ==> #[trigger] perm[k] == k,
            forall|k: int| 0 <= k < i ==> #[trigger] perm[k] < i,
            forall|k: int, l: int|
                0 <= k < l < i ==> text_le(#[trigger] keys@[k]@, #[trigger] keys@[l]@),
            forall|k: int, l: int|
                0 <= k < l < i && #[trigger] keys@[k]@ == #[trigger] keys@[l]@ ==> perm[k] < perm[l],
        decreases n - i,
    {
        let mut p: usize = 0;
        while p < i && text_le_chars(&keys[p], &keys[i])
            invariant
                n == keys@.len(),
                i < n,
                p <= i,
                forall|a: int| 0 <= a < p ==> text_le(#[trigger] keys@[a]@, keys@[i as int]@),
            decreases i - p,
        {
            p = p + 1;
        }
        let ghost kk = keys@[i as int]@;
        let ghost old_keys = keys@;
        let ghost old_v = v@;
        let ghost old_perm = perm;
        proof {
            lemma_moved(old_keys, i as int, p as int);
            lemma_moved(old_v, i as int, p as int);
            lemma_moved(old_perm, i as int, p as int);
        }
        let t = v.remove(i);
        v.insert(p, t);
        let kv = keys.remove(i);
        keys.insert(p, kv);
        proof {
            perm = moved(old_perm, i as int, p as int);
            assert(v@ =~= moved(old_v, i as int, p as int));
            assert(keys@ =~= moved(old_keys, i as int, p as int));
            // Keys after the insertion point are greater than the new key.
            assert forall|b: int| p < b <= i implies text_le(kk, #[trigger] keys@[b]@) && keys@[b]@
                != kk by {
                assert(keys@[b] == old_keys[b - 1]);
                assert(!text_le(old_keys[p as int]@, kk));
                lemma_text_le_total(old_keys[p as int]@, kk);
                if b - 1 > p {
                    assert(text_le(old_keys[p as int]@, old_keys[b - 1]@));
                    lemma_text_le_transitive(kk, old_keys[p as int]@, old_keys[b - 1]@);
                    if old_keys[b - 1]@ == kk {
                        assert(text_le(old_keys[p as int]@, kk));
                    }
                } else {
                    lemma_text_le_reflexive(kk);
                }
            }
            assert forall|k: int, l: int| 0 <= k < l < i + 1 implies text_le(
                #[trigger] keys@[k]@,
                #[trigger] keys@[l]@,
            ) by {
                if l < p {
                } else if l == p {
                } else if k < p {
                    assert(keys@[l] == old_keys[l - 1]);
                } else if k == p {
                } else {
                    assert(keys@[l] == old_keys[l - 1]);
                    assert(keys@[k] == old_keys[k - 1]);
                }
            }
            assert forall|k: int, l: int|
                0 <= k < l < i + 1 && #[trigger] keys@[k]@ == #[trigger] keys@[l]@ implies perm[k]
                < perm[l] by {
                if l < p {
                } else if l == p {
                    assert(perm[l] == i);
                } else if k < p {
                    assert(perm[l] == old_perm[l - 1]);
                } else if k == p {
                } else {
                    assert(perm[l] == old_perm[l - 1]);
                    assert(perm[k] == old_perm[k - 1]);
                }
            }
            assert forall|k: int, l: int| 0 <= k < l < n implies #[trigger] perm[k]
                != #[trigger] perm[l] by {
                if k < p {
                } else if k == p {
                } else if k <= i {
                    assert(perm[k] == old_perm[k - 1]);
                } else {
                }
                if l < p {
                } else if l == p {
                } else if l <= i {
                    assert(perm[l] == old_perm[l - 1]);
                } else {
                }
            }
            assert forall|k: int| 0 <= k < n implies #[trigger] v@[k] == input[perm[k]] by {
                if p < k <= i {
                    assert(v@[k] == old_v[k - 1]);
                    assert(perm[k] == old_perm[k - 1]);
                }
            }
            assert forall|k: int| 0 <= k < i + 1 implies #[trigger] perm[k] < i + 1 by {
                if p < k <= i {
                    assert(perm[k] == old_perm[k - 1]);
                }
            }
            assert forall|k: int| 0 <= k < n implies 0 <= #[trigger] perm[k] < n by {
                if p < k <= i {
                    assert(perm[k] == old_perm[k - 1]);
                }
            }
        }
        i = i + 1;
    }
    assert forall|k: int, l: int| 0 <= k < l < n implies text_le(
        tool_key(#[trigger] v@[k]),
        tool_key(#[trigger] v@[l]),
    ) by {
        assert(keys@[k]@ == tool_key(v@[k]));
        assert(keys@[l]@ == tool_key(v@[l]));
    }
    assert forall|k: int, l: int|
        0 <= k < l < n && tool_key(#[trigger] v@[k]) == tool_key(#[trigger] v@[l]) implies perm[k]
        < perm[l] by {
        assert(keys@[k]@ == tool_key(v@[k]));
        assert(keys@[l]@ == tool_key(v@[l]));
    }
    assert(is_stable_sort(perm, input, v@));
    v
}

/// `owner/repo`, the name a repository goes by.
pub open spec fn repo_label(owner: Seq<char>, repo: Seq<char>) -> Seq<char> {
    owner + "/"@ + repo
}

/// A catalog warning about a repository: `owner/repo: detail`.
pub open spec fn repo_warning_text(owner: Seq<char>, repo: Seq<char>, detail: Seq<char>) -> Seq<
    char,
> {
    repo_label(owner, repo) + ": "@ + detail
}

/// The registry key of a repository: `owner/repo`.
pub fn registry_key(owner: &str, repo: &str) -> (r: String)
    ensures
        r@ == repo_label(owner@, repo@),
{
    let mut k = String::from_str(owner);
    k.append("/");
    k.append(repo);
    k
}

/// The warning `owner/repo: detail`.
pub fn repo_warning(owner: &str, repo: &str, detail: &str) -> (r: String)
    ensures
        r@ == repo_warning_text(owner@, repo@, detail@),
{
    let mut w = registry_key(owner, repo);
    w.append(": ");
    w.append(detail);
    w
}

/// The status of a tool: `not_installed` when no version is installed,
/// `updated` when the installed version is the remote one (a leading `v`
/// ignored on both sides), `update_available` otherwise.
pub open spec fn status_text(local: Option<Seq<char>>, remote: Seq<char>) -> Seq<char> {
    match local {
        None => "not_installed"@,
        Some(v) => if tag_without_v(v) == tag_without_v(remote) {
            "updated"@
        } else {
            "update_available"@
        },
    }
}

/// Computes `status_text`.
pub fn install_status(local: Option<&str>, remote: &str) -> (r: String)
    ensures
        r@ == status_text(
            match local {
                Some(v) => Some(v@),
                None => None,
            },
            remote@,
        ),
        local is None ==> r@ == "not_installed"@,
        local matches Some(v) ==> {
            let a = if v@.len() > 0 && v@[0] == 'v' { v@.drop_first() } else { v@ };
            let b = if remote@.len() > 0 && remote@[0] == 'v' { remote@.drop_first() } else { remote@ };
            &&& a == b ==> r@ == "updated"@
            &&& a != b ==> r@ == "update_available"@
        },
{
    match local {
        None => String::from_str("not_installed"),
        Some(v) => {
            if same_text(normalize_tag(v), normalize_tag(remote)) {
                String::from_str("updated")
            } else {
                String::from_str("update_available")
            }
        },
    }
}

/// Where a tool's icon is served: the raw file in the repository's default
/// branch, or nothing when the manifest names no icon.
pub open spec fn icon_url_text(owner: Seq<char>, repo: Seq<char>, branch: Seq<char>, icon: Seq<
    char,
>) -> Option<Seq<char>> {
    if icon.len() == 0 {
        None
    } else {
        Some(
            "https://raw.githubusercontent.com/"@ + owner + "/"@ + repo + "/"@ + branch + "/"@
                + icon,
        )
    }
}

/// The view of an optional text.
pub open spec fn opt_view(o: Option<String>) -> Option<Seq<char>> {
    match o {
        Some(s) => Some(s@),
        None => None,
    }
}

/// Computes `icon_url_text`.
pub fn icon_url(owner: &str, repo: &str, branch: &str, icon: &str) -> (r: Option<String>)
    ensures
        opt_view(r) == icon_url_text(owner@, repo@, branch@, icon@),
{
    if icon.is_empty() {
        None
    } else {
        let mut u = String::from_str("https://raw.githubusercontent.com/");
        u.append(owner);
        u.append("/");
        u.append(repo);
        u.append("/");
        u.append(branch);
        u.append("/");
        u.append(icon);
        Some(u)
    }
}

/// What came of fetching a repository's `launcher.json`.
pub enum ManifestFetch {
    /// The repository has no `launcher.json`, or GitHub gives no download URL for it.
    NotPublished,
    /// The download failed; the text says why.
    Failed(String),
    /// The file is not a manifest.
    Malformed,
    /// The manifest as read.
    Parsed(Manifest),
}

/// What the catalog makes of one repository.
pub enum RepoScan {
    /// The repository is not set up for the launcher.
    Unconfigured,
    /// The repository is skipped; the text says why.
    Warning(String),
    /// The repository offers this tool.
    Listed(Tool),
}

/// A manifest is usable when its name and entry point are not blank.
pub open spec fn manifest_usable(m: Manifest) -> bool {
    !is_blank_text(m.name@) && !is_blank_text(m.entrypoint@)
}

/// Decides what a fetched manifest means for the catalog: no manifest makes
/// the repository unconfigured; a failed download or an unusable manifest
/// makes a warning; a usable manifest goes on.
pub fn check_manifest(owner: &str, repo: &str, fetched: ManifestFetch) -> (r: Result<
    Manifest,
    RepoScan,
>)
    ensures
        match fetched {
            ManifestFetch::NotPublished => r matches Err(RepoScan::Unconfigured),
            ManifestFetch::Failed(e) => r matches Err(RepoScan::Warning(w)) && w@
                == repo_warning_text(owner@, repo@, e@),
            ManifestFetch::Malformed => r matches Err(RepoScan::Warning(w)) && w@
                == repo_warning_text(owner@, repo@, "launcher.json non valido"@),
            ManifestFetch::Parsed(m) => if manifest_usable(m) {
                r == Ok::<Manifest, RepoScan>(m)
            } else {
                r matches Err(RepoScan::Warning(w)) && w@ == repo_warning_text(
                    owner@,
                    repo@,
                    "launcher.json non valido"@,
                )
            },
        },
{
    match fetched {
        ManifestFetch::NotPublished => Err(RepoScan::Unconfigured),
        ManifestFetch::Failed(e) => Err(RepoScan::Warning(repo_warning(owner, repo, e.as_str()))),
        ManifestFetch::Malformed => Err(
            RepoScan::Warning(repo_warning(owner, repo, "launcher.json non valido")),
        ),
        ManifestFetch::Parsed(m) => {
            if !is_blank(m.name.as_str()) && !is_blank(m.entrypoint.as_str()) {
                Ok(m)
            } else {
                Err(RepoScan::Warning(repo_warning(owner, repo, "launcher.json non valido")))
            }
        },
    }
}

/// The version recorded for `key`, if any.
pub open spec fn recorded_version(reg: Registry, key: Seq<char>) -> Option<Seq<char>> {
    if reg.view().contains_key(key) {
        Some(reg.view()[key].version@)
    } else {
        None
    }
}

/// The catalog entry of a repository with a usable manifest: a warning when
/// it has no latest release or no matching asset, else the tool, with its
/// remote version from the release tag and its local version from the registry.
pub fn catalog_entry(
    owner: String,
    repo: String,
    branch: &str,
    manifest: Manifest,
    release: Option<Release>,
    registry: &Registry,
) -> (r: RepoScan)
    ensures
        match release {
            None => r matches RepoScan::Warning(w) && w@ == repo_warning_text(
                owner@,
                repo@,
                "nessuna latest release"@,
            ),
            Some(rel) => {
                let pattern = asset_pattern(&manifest);
                if forall|j: int|
                    0 <= j < rel.assets@.len() ==> !asset_matches(
                        #[trigger] rel.assets@[j].name@,
                        pattern,
                    ) {
                    r matches RepoScan::Warning(w) && w@ == repo_warning_text(
                        owner@,
                        repo@,
                        "asset Windows ZIP non trovato"@,
                    )
                } else {
                    r matches RepoScan::Listed(t) && {
                        let local = recorded_version(*registry, repo_label(owner@, repo@));
                        &&& t.owner@ == owner@
                        &&& t.repo@ == repo@
                        &&& t.name == manifest.name
                        &&& t.description == manifest.description
                        &&& opt_view(t.icon_url) == icon_url_text(
                            owner@,
                            repo@,
                            branch@,
                            manifest.icon@,
                        )
                        &&& t.remote_version == rel.tag_name
                        &&& opt_view(t.local_version) == local
                        &&& t.status@ == status_text(local, rel.tag_name@)
                        &&& exists|i: int|
                            is_first_match(rel.assets@, pattern, i) && t.asset_name@
                                == #[trigger] rel.assets@[i].name@
                    }
                }
            },
        },
{
    match release {
        None => RepoScan::Warning(
            repo_warning(owner.as_str(), repo.as_str(), "nessuna latest release"),
        ),
        Some(rel) => {
            let Release { tag_name, assets } = rel;
            let asset_name = match choose_asset(&manifest, assets.as_slice()) {
                Some(a) => a.name.clone(),
                None => {
                    return RepoScan::Warning(
                        repo_warning(owner.as_str(), repo.as_str(), "asset Windows ZIP non trovato"),
                    );
                },
            };
            let key = registry_key(owner.as_str(), repo.as_str());
            let local_version = match registry.get(key.as_str()) {
                Some(i) => Some(i.version.clone()),
                None => None,
            };
            let status = match &local_version {
                Some(v) => install_status(Some(v.as_str()), tag_name.as_str()),
                None => install_status(None, tag_name.as_str()),
            };
            let icon_url = icon_url(
                owner.as_str(),
                repo.as_str(),
                branch,
                manifest.icon.as_str(),
            );
            let Manifest { name, description, .. } = manifest;
            RepoScan::Listed(
                Tool {
                    owner,
                    repo,
                    name,
                    description,
                    icon_url,
                    remote_version: tag_name,
                    local_version,
                    status,
                    asset_name,
                },
            )
        },
    }
}

/// The catalog: the listed tools sorted by name, how many repositories are
/// not set up for the launcher, and a warning for each one that was skipped.
pub struct Catalog {
    pub tools: Vec<Tool>,
    pub unconfigured: usize,
    pub warnings: Vec<String>,
}

/// How many scans found an unconfigured repository.
pub open spec fn count_unconfigured(s: Seq<RepoScan>) -> nat
    decreases s.len(),
{
    if s.len() == 0 {
        0
    } else {
        count_unconfigured(s.drop_last()) + if s.last() is Unconfigured {
            1nat
        } else {
            0nat
        }
    }
}

/// The warnings of the scans, in order.
pub open spec fn warnings_of(s: Seq<RepoScan>) -> Seq<String>
    decreases s.len(),
{
    if s.len() == 0 {
        Seq::empty()
    } else {
        match s.last() {
            RepoScan::Warning(w) => warnings_of(s.drop_last()).push(w),
            _ => warnings_of(s.drop_last()),
        }
    }
}

/// The listed tools of the scans, in order.
pub open spec fn listed_of(s: Seq<RepoScan>) -> Seq<Tool>
    decreases s.len(),
{
    if s.len() == 0 {
        Seq::empty()
    } else {
        match s.last() {
            RepoScan::Listed(t) => listed_of(s.drop_last()).push(t),
            _ => listed_of(s.drop_last()),
        }
    }
}

proof fn lemma_count_bounded(s: Seq<RepoScan>)
    ensures
        count_unconfigured(s) <= s.len(),
    decreases s.len(),
{
    if s.len() > 0 {
        lemma_count_bounded(s.drop_last());
    }
}

/// Puts the catalog together from the scans of all repositories, in the
/// order in which the repositories were listed.
pub fn assemble_catalog(scans: Vec<RepoScan>) -> (c: Catalog)
    ensures
        c.unconfigured == count_unconfigured(scans@),
        c.warnings@ == warnings_of(scans@),
        exists|perm: Seq<int>| is_stable_sort(perm, listed_of(scans@), c.tools@),
        forall|k: int, l: int|
            0 <= k < l < c.tools@.len() ==> text_le(
                unicode_lowercase((#[trigger] c.tools@[k]).name@),
                unicode_lowercase((#[trigger] c.tools@[l]).name@),
            ),
{
    let ghost all = scans@;
    let mut tools: Vec<Tool> = Vec::new();
    let mut warnings: Vec<String> = Vec::new();
    let mut unconfigured: usize = 0;
    let total = scans.len();
    for x in it: scans.into_iter()
        invariant
            it.seq() == all,
            total == all.len(),
            unconfigured == count_unconfigured(all.take(it.index())),
            warnings@ == warnings_of(all.take(it.index())),
            tools@ == listed_of(all.take(it.index())),
    {
        let ghost k = it.index();
        proof {
            assert(all.take(k + 1).drop_last() =~= all.take(k));
            assert(all.take(k + 1).last() == x);
            lemma_count_bounded(all.take(k));
        }
        match x {
            RepoScan::Unconfigured => {
                unconfigured = unconfigured + 1;
            },
            RepoScan::Warning(w) => {
                warnings.push(w);
            },
            RepoScan::Listed(t) => {
                tools.push(t);
            },
        }
    }
    assert(all.take(total as int) =~= all);
    assert(tools@ == listed_of(all));
    let ghost listed = tools@;
    let sorted = sort_tools(tools);
    let c = Catalog { tools: sorted, unconfigured, warnings };
    proof {
        let perm = choose|perm: Seq<int>| is_stable_sort(perm, listed, c.tools@);
        assert(is_stable_sort(perm, listed_of(all), c.tools@));
    }
    c
}


/// An installed version equal to the remote one is up to date.
pub proof fn law_same_version_is_updated(v: Seq<char>)
    ensures
        status_text(Some(v), v) == "updated"@,
{
}

/// A leading `v` on the installed version does not make an update available,
/// unless the remote tag itself starts with `v` (then only one `v` is dropped
/// from each side).
pub proof fn law_leading_v_ignored(t: Seq<char>)
    requires
        !(t.len() > 0 && t[0] == 'v'),
    ensures
        status_text(Some(seq!['v'] + t), t) == "updated"@,
        status_text(Some(t), seq!['v'] + t) == "updated"@,
{
    assert((seq!['v'] + t).drop_first() =~= t);
}

/// The catalog lists every listed tool once, in name order, with tools of the
/// same name in the order in which their repositories were listed.
pub proof fn law_catalog_order(scans: Seq<RepoScan>, perm: Seq<int>, tools: Seq<Tool>)
    requires
        is_stable_sort(perm, listed_of(scans), tools),
    ensures
        tools.len() == listed_of(scans).len(),
        forall|k: int, l: int|
            0 <= k < l < tools.len() ==> text_le(tool_key(#[trigger] tools[k]), tool_key(#[trigger] tools[l])),
        forall|t: Tool| tools.contains(t) ==> listed_of(scans).contains(t),
        forall|t: Tool| listed_of(scans).contains(t) ==> tools.contains(t),
{
    let input = listed_of(scans);
    assert forall|t: Tool| tools.contains(t) implies input.contains(t) by {
        let k = choose|k: int| 0 <= k < tools.len() && tools[k] == t;
        assert(input[perm[k]] == t);
    }
    assert forall|t: Tool| input.contains(t) implies tools.contains(t) by {
        let j = choose|j: int| 0 <= j < input.len() && input[j] == t;
        lemma_perm_onto(perm, input.len() as int, j);
        let k = choose|k: int| 0 <= k < perm.len() && perm[k] == j;
        assert(tools[k] == t);
    }
}

/// A sequence of distinct values below `n`, `n` of them, takes every value below `n`.
proof fn lemma_perm_onto(perm: Seq<int>, n: int, j: int)
    requires
        perm.len() == n,
        forall|k: int| 0 <= k < n ==> 0 <= #[trigger] perm[k] < n,
        forall|k: int, l: int| 0 <= k < l < n ==> #[trigger] perm[k] != #[trigger] perm[l],
        0 <= j < n,
    ensures
        exists|k: int| 0 <= k < n && perm[k] == j,
{
    let s = perm.to_set();
    let full = Set::new(|x: int| 0 <= x < n);
    assert(perm.no_duplicates()) by {
        assert forall|a: int, b: int| 0 <= a < perm.len() && 0 <= b < perm.len() && a != b implies perm[a] != perm[b] by {
            if a < b {
            } else {
            }
        }
    }
    perm.unique_seq_to_set();
    assert(s.subset_of(full));
    vstd::set_lib::lemma_int_range(0, n);
    assert(full =~= vstd::set_lib::set_int_range(0, n));
    vstd::set_lib::lemma_subset_equality(s, full);
    assert(full.contains(j));
    assert(s.contains(j));
}

/// The catalog is ordered by the tools' display names, lowercased: a tool
/// never comes after one whose lowercase name is smaller, and tools whose
/// lowercase names are equal keep the order of the input.
pub proof fn law_sorted_by_name(input: Seq<Tool>, perm: Seq<int>, out: Seq<Tool>)
    requires
        is_stable_sort(perm, input, out),
    ensures
        forall|k: int, l: int|
            0 <= k < l < out.len() ==> text_le(
                unicode_lowercase((#[trigger] out[k]).name@),
                unicode_lowercase((#[trigger] out[l]).name@),
            ),
        forall|k: int, l: int|
            0 <= k < l < out.len() && unicode_lowercase((#[trigger] out[k]).name@)
                == unicode_lowercase((#[trigger] out[l]).name@) ==> perm[k] < perm[l],
{
}

/// Without a pattern in the manifest, the asset chosen is a ZIP whose name
/// ends, ignoring case, with `-win-x64.zip`; an asset whose name does not is
/// never chosen, and one is chosen whenever some asset qualifies.
pub proof fn law_default_pattern(m: Manifest, assets: Seq<ReleaseAsset>)
    requires
        m.asset.pattern@.len() == 0,
    ensures
        forall|i: int| #[trigger] is_first_match(assets, asset_pattern(&m), i) ==> ends_with(
            unicode_lowercase(assets[i].name@),
            unicode_lowercase("-win-x64.zip"@),
        ) && ends_with(unicode_lowercase(assets[i].name@), seq!['.', 'z', 'i', 'p']),
        forall|j: int|
            0 <= j < assets.len() && !ends_with(
                unicode_lowercase((#[trigger] assets[j]).name@),
                unicode_lowercase("-win-x64.zip"@),
            ) ==> !asset_matches(assets[j].name@, asset_pattern(&m)),
        forall|j: int|
            0 <= j < assets.len() && ends_with(
                unicode_lowercase((#[trigger] assets[j]).name@),
                unicode_lowercase("-win-x64.zip"@),
            ) && ends_with(unicode_lowercase(assets[j].name@), seq!['.', 'z', 'i', 'p'])
                ==> asset_matches(assets[j].name@, asset_pattern(&m)),
{
}

/// The status of an installed tool is `updated` exactly when its version and
/// the remote tag agree once one leading `v` is dropped from each, and
/// `update_available` otherwise; with nothing installed it is `not_installed`.
pub proof fn law_status_by_version(v: Seq<char>, t: Seq<char>)
    ensures
        status_text(None, t) == "not_installed"@,
        ({
            let a = if v.len() > 0 && v[0] == 'v' { v.drop_first() } else { v };
            let b = if t.len() > 0 && t[0] == 'v' { t.drop_first() } else { t };
            &&& a == b ==> status_text(Some(v), t) == "updated"@
            &&& a != b ==> status_text(Some(v), t) == "update_available"@
        }),
{
}

} // verus!
