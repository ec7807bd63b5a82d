//! Picking the release asset to download: the latest-release address of a
//! GitHub repository, and the first Linux amd64v3 tarball among its assets.

use vstd::prelude::*;
use crate::json::{json_as_array, json_as_str, json_field, Json};
use crate::text::{contains_text, str_contains};

verus! {

/// Why no asset could be picked.
#[derive(Debug, Clone, Copy, PartialEq, Eq, Structural)]
pub enum AssetError {
    NoAssets,
    NoValidAsset,
    NoDownloadUrl,
    NoAssetName,
}

/// The text of each error.
pub open spec fn asset_error_text(e: AssetError) -> Seq<char> {
    match e {
        AssetError::NoAssets => "No assets found"@,
        AssetError::NoValidAsset => "No valid asset in the url"@,
        AssetError::NoDownloadUrl => "No download URL found"@,
        AssetError::NoAssetName => "No asset name found"@,
    }
}

impl AssetError {
    /// The error's text.
    pub fn message(&self) -> (res: String)
        ensures
            res@ == asset_error_text(*self),
    {
        match self {
            AssetError::NoAssets => String::from_str("No assets found"),
            AssetError::NoValidAsset => String::from_str("No valid asset in the url"),
            AssetError::NoDownloadUrl => String::from_str("No download URL found"),
            AssetError::NoAssetName => String::from_str("No asset name found"),
        }
    }
}

/// The asset to download: where from, and under which file name.
#[derive(Debug)]
pub struct Asset {
    pub url: String,
    pub name: String,
}

/// The latest-release address of a repository.
pub open spec fn release_url_text(owner: Seq<char>, name: Seq<char>) -> Seq<char> {
    "https://api.github.com/repos/"@ + owner + "/"@ + name + "/releases/latest"@
}

/// The latest-release address of `owner`'s repository `name`.
pub fn release_url(owner: &str, name: &str) -> (res: String)
    ensures
        res@ == release_url_text(owner@, name@),
{
    let mut url = String::from_str("https://api.github.com/repos/");
    url.append(owner);
    url.append("/");
    url.append(name);
    url.append("/releases/latest");
    url
}

/// Whether downloads go through a proxy: exactly when a proxy address is set
/// (not empty).
pub fn uses_proxy(proxy_url: &str) -> (res: bool)
    ensures
        res == (proxy_url@.len() != 0),
{
    !proxy_url.is_empty()
}

/// A download address for a Linux amd64v3 tarball.
pub open spec fn is_wanted_url(url: Seq<char>) -> bool {
    contains_text(url, "tar.gz"@) && contains_text(url, "linux"@) && contains_text(url, "amd64v3"@)
}

/// An asset whose download address is a Linux amd64v3 tarball.
pub open spec fn is_wanted_asset(asset: Json) -> bool {
    match json_as_str(json_field(asset, "browser_download_url"@)) {
        Some(url) => is_wanted_url(url),
        None => false,
    }
}

/// The index of the first wanted asset.
pub open spec fn first_wanted(assets: Seq<Json>) -> Option<int>
    decreases assets.len(),
{
    if assets.len() == 0 {
        None
    } else if is_wanted_asset(assets[0]) {
        Some(0)
    } else {
        match first_wanted(assets.drop_first()) {
            Some(i) => Some(i + 1),
            None => None,
        }
    }
}

/// Whether a download address is a Linux amd64v3 tarball.
pub fn is_wanted_asset_url(url: &str) -> (res: bool)
    ensures
        res == is_wanted_url(url@),
{
    str_contains(url, "tar.gz") && str_contains(url, "linux") && str_contains(url, "amd64v3")
}

fn download_url(asset: &Json) -> (res: Option<&str>)
    ensures
        match res {
            Some(u) => json_as_str(json_field(*asset, "browser_download_url"@)) == Some(u@),
            None => json_as_str(json_field(*asset, "browser_download_url"@)) is None,
        },
{
    match asset.get("browser_download_url") {
        Some(v) => v.as_str(),
        None => None,
    }
}

proof fn lemma_first_wanted_skip(assets: Seq<Json>, i: int)
    requires
        0 <= i < assets.len(),
        forall|j: int| 0 <= j < i ==> !is_wanted_asset(#[trigger] assets[j]),
    ensures
        first_wanted(assets) == (match first_wanted(assets.skip(i)) {
            Some(k) => Some(k + i),
            None => None,
        }),
    decreases i,
{
    if i > 0 {
        assert(assets.drop_first().skip(i - 1) =~= assets.skip(i));
        assert forall|j: int| 0 <= j < i - 1 implies !is_wanted_asset(
            #[trigger] assets.drop_first()[j],
        ) by {
            assert(assets.drop_first()[j] == assets[j + 1]);
        }
        assert(!is_wanted_asset(assets[0]));
        lemma_first_wanted_skip(assets.drop_first(), i - 1);
    } else {
        assert(assets.skip(0) =~= assets);
    }
}

proof fn lemma_first_wanted_none(assets: Seq<Json>)
    requires
        forall|j: int| 0 <= j < assets.len() ==> !is_wanted_asset(#[trigger] assets[j]),
    ensures
        first_wanted(assets) is None,
    decreases assets.len(),
{
    if assets.len() > 0 {
        assert forall|j: int| 0 <= j < assets.len() - 1 implies !is_wanted_asset(
            #[trigger] assets.drop_first()[j],
        ) by {
            assert(assets.drop_first()[j] == assets[j + 1]);
        }
        lemma_first_wanted_none(assets.drop_first());
    }
}

/// The asset that is picked is a Linux amd64v3 tarball (its download address
/// holds "tar.gz", "linux" and "amd64v3"), and no asset before it is one; when
/// none is picked, no asset is one.
pub proof fn lemma_picked_asset_is_first_amd64v3_tarball(assets: Seq<Json>)
    ensures
        match first_wanted(assets) {
            Some(i) => {
                &&& 0 <= i < assets.len()
                &&& json_as_str(json_field(assets[i], "browser_download_url"@)) matches Some(u)
                    && contains_text(u, "tar.gz"@) && contains_text(u, "linux"@)
                    && contains_text(u, "amd64v3"@)
                &&& forall|j: int|
                    0 <= j < i ==> !(json_as_str(json_field(#[trigger] assets[j], "browser_download_url"@))
                        matches Some(u) && contains_text(u, "tar.gz"@) && contains_text(u, "linux"@)
                        && contains_text(u, "amd64v3"@))
            },
            None => forall|j: int|
                0 <= j < assets.len() ==> !(json_as_str(
                    json_field(#[trigger] assets[j], "browser_download_url"@),
                ) matches Some(u) && contains_text(u, "tar.gz"@) && contains_text(u, "linux"@)
                    && contains_text(u, "amd64v3"@)),
        },
    decreases assets.len(),
{
    if assets.len() > 0 {
        lemma_picked_asset_is_first_amd64v3_tarball(assets.drop_first());
        assert forall|j: int| 0 < j < assets.len() implies assets.drop_first()[j - 1] == assets[j] by {}
    }
}

/// Picks, from a latest-release document, the first asset whose download
/// address is a Linux amd64v3 tarball, with its address and file name.
pub fn select_asset(release_info: &Json) -> (res: Result<Asset, AssetError>)
    ensures
        match json_as_array(json_field(*release_info, "assets"@)) {
            None => res == Err::<Asset, AssetError>(AssetError::NoAssets),
            Some(assets) => match first_wanted(assets) {
                None => res == Err::<Asset, AssetError>(AssetError::NoValidAsset),
                Some(i) => match json_as_str(json_field(assets[i], "name"@)) {
                    None => res == Err::<Asset, AssetError>(AssetError::NoAssetName),
                    Some(name) => res matches Ok(a) && Some(a.url@) == json_as_str(
                        json_field(assets[i], "browser_download_url"@),
                    ) && a.name@ == name,
                },
            },
        },
{
    let assets = match release_info.get("assets") {
        Some(v) => match v.as_array() {
            Some(items) => items,
            None => {
                return Err(AssetError::NoAssets);
            },
        },
        None => {
            return Err(AssetError::NoAssets);
        },
    };
    let mut i: usize = 0;
    while i < assets.len()
        invariant
            i <= assets.len(),
            json_as_array(json_field(*release_info, "assets"@)) == Some(assets@),
            forall|j: int| 0 <= j < i ==> !is_wanted_asset(#[trigger] assets@[j]),
        decreases assets.len() - i,
    {
        let asset = &assets[i];
        let wanted = match download_url(asset) {
            Some(url) => is_wanted_asset_url(url),
            None => false,
        };
        if wanted {
            proof {
                lemma_first_wanted_skip(assets@, i as int);
            }
            let url = match download_url(asset) {
                Some(u) => u,
                None => {
                    return Err(AssetError::NoDownloadUrl);
                },
            };
            let name = match asset.get("name") {
                Some(v) => match v.as_str() {
                    Some(n) => n,
                    None => {
                        return Err(AssetError::NoAssetName);
                    },
                },
                None => {
                    return Err(AssetError::NoAssetName);
                },
            };
            return Ok(Asset { url: String::from_str(url), name: String::from_str(name) });
        }
        i += 1;
    }
    proof {
        lemma_first_wanted_none(assets@);
    }
    Err(AssetError::NoValidAsset)
}

} // verus!
