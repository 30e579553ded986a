//! The data that the launcher reads from GitHub and shows to its user.

use vstd::prelude::*;

verus! {

/// The reply of GitHub's device-code request (OAuth Device Flow).
pub struct DeviceCode {
    pub device_code: String,
    pub user_code: String,
    pub verification_uri: String,
    pub expires_in: u64,
    pub interval: u64,
}

/// How a repository names the asset to install and its checksum.
pub struct AssetRule {
    /// Case-insensitive suffix of the ZIP asset; empty means `-win-x64.zip`.
    pub pattern: String,
    /// Exact name of the asset that holds the SHA-256; empty means none.
    pub sha256_asset: String,
}

impl Default for AssetRule {
    fn default() -> (r: AssetRule)
        ensures
            r.pattern@ == Seq::<char>::empty(),
            r.sha256_asset@ == Seq::<char>::empty(),
    {
        AssetRule { pattern: String::new(), sha256_asset: String::new() }
    }
}

/// The `launcher.json` manifest at the root of a repository.
pub struct Manifest {
    pub name: String,
    pub description: String,
    pub entrypoint: String,
    pub icon: String,
    pub asset: AssetRule,
}

/// One asset of a GitHub release.
pub struct ReleaseAsset {
    pub name: String,
    pub browser_download_url: String,
}

/// The latest release of a repository.
pub struct Release {
    pub tag_name: String,
    pub assets: Vec<ReleaseAsset>,
}

/// A tool as the catalog shows it.
pub struct Tool {
    pub owner: String,
    pub repo: String,
    pub name: String,
    pub description: String,
    pub icon_url: Option<String>,
    pub remote_version: String,
    pub local_version: Option<String>,
    pub status: String,
    pub asset_name: String,
}

} // verus!
