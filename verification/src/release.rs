//! What the launcher reads from the latest release on GitHub.
//!
//! A release carries a tag and a list of assets; each asset may carry a name
//! and a download URL. Fields that are missing, or are not text, are absent.

use vstd::prelude::*;
use crate::steam_roots::option_string_view;

verus! {

/// One file attached to a release.
#[derive(Debug)]
pub struct ReleaseAsset {
    pub name: Option<String>,
    pub browser_download_url: Option<String>,
}

/// The parts of a release that the launcher reads. `assets` is absent when
/// the release has no list of assets.
#[derive(Debug)]
pub struct Release {
    pub tag_name: Option<String>,
    pub assets: Option<Vec<ReleaseAsset>>,
}

pub struct AssetView {
    pub name: Option<Seq<char>>,
    pub url: Option<Seq<char>>,
}

pub struct ReleaseView {
    pub tag_name: Option<Seq<char>>,
    pub assets: Option<Seq<AssetView>>,
}

impl View for ReleaseAsset {
    type V = AssetView;

    open spec fn view(&self) -> AssetView {
        AssetView {
            name: option_string_view(self.name),
            url: option_string_view(self.browser_download_url),
        }
    }
}

pub open spec fn assets_view(v: Seq<ReleaseAsset>) -> Seq<AssetView> {
    v.map_values(|a: ReleaseAsset| a@)
}

impl View for Release {
    type V = ReleaseView;

    open spec fn view(&self) -> ReleaseView {
        ReleaseView {
            tag_name: option_string_view(self.tag_name),
            assets: match self.assets {
                Some(v) => Some(assets_view(v@)),
                None => None,
            },
        }
    }
}

/// The file name of the mod.
pub open spec fn mod_dll_name() -> Seq<char> {
    "WTSAPI32.dll"@
}

pub open spec fn no_assets_message() -> Seq<char> {
    "Release contains no assets"@
}

pub open spec fn no_mod_asset_message() -> Seq<char> {
    "WTSAPI32.dll was not found in the latest release"@
}

pub open spec fn no_url_message() -> Seq<char> {
    "Release asset has no download URL"@
}

pub open spec fn no_tag_message() -> Seq<char> {
    "Release has no tag name"@
}

/// Index of the first asset, from `i` on, named like the mod.
pub open spec fn first_mod_asset(assets: Seq<AssetView>, i: int) -> Option<int>
    decreases assets.len() - i,
{
    if i < 0 || i >= assets.len() {
        None
    } else if assets[i].name == Some(mod_dll_name()) {
        Some(i)
    } else {
        first_mod_asset(assets, i + 1)
    }
}

/// Where to download the mod from: the URL of the first asset named like the
/// mod, or the reason why there is none.
pub open spec fn mod_download_url(r: ReleaseView) -> Result<Seq<char>, Seq<char>> {
    match r.assets {
        None => Err(no_assets_message()),
        Some(assets) => match first_mod_asset(assets, 0) {
            None => Err(no_mod_asset_message()),
            Some(k) => match assets[k].url {
                Some(u) => Ok(u),
                None => Err(no_url_message()),
            },
        },
    }
}

/// The version of the latest mod release, or why it is unknown.
pub open spec fn mod_version(r: ReleaseView) -> Result<Seq<char>, Seq<char>> {
    match r.tag_name {
        Some(t) => Ok(t),
        None => Err(no_tag_message()),
    }
}

pub open spec fn string_result_view(r: Result<String, String>) -> Result<Seq<char>, Seq<char>> {
    match r {
        Ok(s) => Ok(s@),
        Err(e) => Err(e@),
    }
}

/// The download URL of the mod in `release`.
pub fn release_asset_download_url(release: &Release) -> (res: Result<String, String>)
    ensures
        string_result_view(res) == mod_download_url(release@),
{
    match &release.assets {
        None => Err(String::from_str("Release contains no assets")),
        Some(assets) => {
            let ghost av = assets_view(assets@);
            assert(release@.assets == Some(av));
            let dll = String::from_str("WTSAPI32.dll");
            let n = assets.len();
            let mut i: usize = 0;
            while i < n
                invariant
                    i <= n,
                    n == assets.len(),
                    av == assets_view(assets@),
                    release@.assets == Some(av),
                    dll@ == mod_dll_name(),
                    first_mod_asset(av, 0) == first_mod_asset(av, i as int),
                decreases n - i,
            {
                let matches_name = match &assets[i].name {
                    Some(name) => *name == dll,
                    None => false,
                };
                assert(av[i as int] == assets@[i as int]@);
                if matches_name {
                    assert(av[i as int].name == Some(mod_dll_name()));
                    assert(first_mod_asset(av, i as int) == Some(i as int));
                    return match &assets[i].browser_download_url {
                        Some(u) => Ok(u.clone()),
                        None => Err(String::from_str("Release asset has no download URL")),
                    };
                }
                i += 1;
            }
            Err(String::from_str("WTSAPI32.dll was not found in the latest release"))
        },
    }
}

/// The tag of the latest mod release.
pub fn latest_mod_version(release: &Release) -> (res: Result<String, String>)
    ensures
        string_result_view(res) == mod_version(release@),
{
    match &release.tag_name {
        Some(t) => Ok(t.clone()),
        None => Err(String::from_str("Release has no tag name")),
    }
}

proof fn lemma_first_mod_asset(assets: Seq<AssetView>, i: int)
    requires
        0 <= i,
    ensures
        match first_mod_asset(assets, i) {
            Some(k) => {
                &&& i <= k < assets.len()
                &&& assets[k].name == Some("WTSAPI32.dll"@)
                &&& forall|j: int| i <= j < k ==> assets[j].name != Some("WTSAPI32.dll"@)
            },
            None => forall|j: int| i <= j < assets.len() ==> assets[j].name != Some("WTSAPI32.dll"@),
        },
    decreases assets.len() - i,
{
    if i < assets.len() && assets[i].name != Some(mod_dll_name()) {
        lemma_first_mod_asset(assets, i + 1);
    }
}

/// The mod is downloaded from the first asset named exactly `WTSAPI32.dll`:
/// a URL is returned exactly when such an asset exists and carries one, and
/// it is that asset's URL; an asset with any other name is never chosen.
pub proof fn law_download_url_is_first_dll_asset(r: ReleaseView, assets: Seq<AssetView>, u: Seq<char>)
    ensures
        r.assets == Some(assets) ==> (mod_download_url(r) == Ok::<Seq<char>, Seq<char>>(u) <==> exists|k: int| {
            &&& 0 <= k < assets.len()
            &&& #[trigger] assets[k].name == Some("WTSAPI32.dll"@)
            &&& assets[k].url == Some(u)
            &&& forall|j: int| 0 <= j < k ==> assets[j].name != Some("WTSAPI32.dll"@)
        }),
        r.assets == Some(assets) && (forall|j: int| 0 <= j < assets.len() ==> assets[j].name != Some("WTSAPI32.dll"@))
            ==> mod_download_url(r) == Err::<Seq<char>, Seq<char>>("WTSAPI32.dll was not found in the latest release"@),
        r.assets is None ==> mod_download_url(r) == Err::<Seq<char>, Seq<char>>("Release contains no assets"@),
{
    if r.assets == Some(assets) {
        lemma_first_mod_asset(assets, 0);
        match first_mod_asset(assets, 0) {
            Some(k) => {
                assert forall|k2: int| {
                    &&& 0 <= k2 < assets.len()
                    &&& #[trigger] assets[k2].name == Some("WTSAPI32.dll"@)
                    &&& assets[k2].url == Some(u)
                    &&& forall|j: int| 0 <= j < k2 ==> assets[j].name != Some("WTSAPI32.dll"@)
                } implies mod_download_url(r) == Ok::<Seq<char>, Seq<char>>(u) by {
                    if k2 < k {
                        assert(assets[k2].name != Some("WTSAPI32.dll"@));
                    } else if k2 > k {
                        assert(assets[k].name != Some("WTSAPI32.dll"@));
                    }
                }
                if mod_download_url(r) == Ok::<Seq<char>, Seq<char>>(u) {
                    assert(assets[k].name == Some("WTSAPI32.dll"@));
                }
            },
            None => {},
        }
    }
}

} // verus!
