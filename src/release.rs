//! Release metadata and the choice of the asset to install.
use vstd::prelude::*;
use crate::text::{ends_with, has_suffix};

verus! {

/// One downloadable file attached to a release.
#[derive(Debug, PartialEq, Eq)]
pub struct AssetInfo {
    pub name: String,
    pub download_url: String,
}

pub ghost struct AssetView {
    pub name: Seq<char>,
    pub download_url: Seq<char>,
}

impl View for AssetInfo {
    type V = AssetView;

    open spec fn view(&self) -> AssetView {
        AssetView { name: self.name@, download_url: self.download_url@ }
    }
}

impl AssetInfo {
    /// A copy of this asset.
    pub fn duplicate(&self) -> (r: AssetInfo)
        ensures
            r@ == self@,
    {
        AssetInfo { name: self.name.clone(), download_url: self.download_url.clone() }
    }
}

/// One published release: its tag and its assets in the order given.
#[derive(Debug, PartialEq, Eq)]
pub struct ReleaseInfo {
    pub tag: String,
    pub assets: Vec<AssetInfo>,
}

pub ghost struct ReleaseView {
    pub tag: Seq<char>,
    pub assets: Seq<AssetView>,
}

impl View for ReleaseInfo {
    type V = ReleaseView;

    open spec fn view(&self) -> ReleaseView {
        ReleaseView { tag: self.tag@, assets: self.assets@.map_values(|a: AssetInfo| a@) }
    }
}

/// Where releases come from and how the installed file is recognised and
/// exposed: the project's owner and repository, the suffix of the asset's
/// name, and the name of the symlink kept beside it.
#[derive(Debug, PartialEq, Eq)]
pub struct Target {
    pub owner: String,
    pub repo: String,
    pub asset_suffix: String,
    pub link_name: String,
}

pub ghost struct TargetView {
    pub owner: Seq<char>,
    pub repo: Seq<char>,
    pub asset_suffix: Seq<char>,
    pub link_name: Seq<char>,
}

impl View for Target {
    type V = TargetView;

    open spec fn view(&self) -> TargetView {
        TargetView {
            owner: self.owner@,
            repo: self.repo@,
            asset_suffix: self.asset_suffix@,
            link_name: self.link_name@,
        }
    }
}

impl Target {
    /// The Joplin desktop application, installed as an AppImage and exposed
    /// as `joplin`.
    pub fn joplin() -> (r: Target)
        ensures
            r@ == (TargetView {
                owner: "laurent22"@,
                repo: "joplin"@,
                asset_suffix: ".AppImage"@,
                link_name: "joplin"@,
            }),
    {
        Target {
            owner: String::from_str("laurent22"),
            repo: String::from_str("joplin"),
            asset_suffix: String::from_str(".AppImage"),
            link_name: String::from_str("joplin"),
        }
    }
}

/// The address of the metadata of the latest release of `owner/repo`.
pub open spec fn latest_release_url(owner: Seq<char>, repo: Seq<char>) -> Seq<char> {
    "https://api.github.com/repos/"@ + owner + "/"@ + repo + "/releases/latest"@
}

/// Builds the address of the metadata of the target's latest release.
pub fn release_url(target: &Target) -> (r: String)
    ensures
        r@ == latest_release_url(target.owner@, target.repo@),
{
    let mut r = String::from_str("https://api.github.com/repos/");
    r.append(target.owner.as_str());
    r.append("/");
    r.append(target.repo.as_str());
    r.append("/releases/latest");
    r
}

pub open spec fn is_wanted(a: AssetView, suffix: Seq<char>) -> bool {
    has_suffix(a.name, suffix)
}

/// Index of the first asset at or after `k` whose name ends with `suffix`.
pub open spec fn first_match_from(assets: Seq<AssetView>, suffix: Seq<char>, k: int) -> Option<int>
    decreases assets.len() - k,
{
    if k < 0 || k >= assets.len() {
        None
    } else if is_wanted(assets[k], suffix) {
        Some(k)
    } else {
        first_match_from(assets, suffix, k + 1)
    }
}

/// Index of the first asset whose name ends with `suffix`, if any.
pub open spec fn first_match(assets: Seq<AssetView>, suffix: Seq<char>) -> Option<int> {
    first_match_from(assets, suffix, 0)
}

/// `first_match` finds a wanted asset with none before it, and finds none only
/// where no asset is wanted.
pub proof fn lemma_first_match(assets: Seq<AssetView>, suffix: Seq<char>)
    ensures
        first_match(assets, suffix) matches Some(i) ==> {
            &&& 0 <= i < assets.len()
            &&& is_wanted(assets[i], suffix)
            &&& forall|j: int| 0 <= j < i ==> !is_wanted(#[trigger] assets[j], suffix)
        },
        first_match(assets, suffix) is None ==> forall|j: int|
            0 <= j < assets.len() ==> !is_wanted(#[trigger] assets[j], suffix),
{
    lemma_first_match_from(assets, suffix, 0);
}

proof fn lemma_first_match_from(assets: Seq<AssetView>, suffix: Seq<char>, k: int)
    requires
        0 <= k <= assets.len(),
    ensures
        first_match_from(assets, suffix, k) matches Some(i) ==> {
            &&& k <= i < assets.len()
            &&& is_wanted(assets[i], suffix)
            &&& forall|j: int| k <= j < i ==> !is_wanted(#[trigger] assets[j], suffix)
        },
        first_match_from(assets, suffix, k) is None ==> forall|j: int|
            k <= j < assets.len() ==> !is_wanted(#[trigger] assets[j], suffix),
    decreases assets.len() - k,
{
    if k < assets.len() && !is_wanted(assets[k], suffix) {
        lemma_first_match_from(assets, suffix, k + 1);
    }
}

/// Picks the first asset, in the order given, whose name ends with `suffix`.
pub fn select_asset(release: &ReleaseInfo, suffix: &str) -> (r: Option<usize>)
    ensures
        r matches Some(i) ==> first_match(release@.assets, suffix@) == Some(i as int),
        r is None ==> first_match(release@.assets, suffix@) is None,
{
    let ghost assets = release@.assets;
    let n = release.assets.len();
    let mut i: usize = 0;
    while i < n
        invariant
            n == assets.len(),
            assets == release@.assets,
            i <= n,
            first_match(assets, suffix@) == first_match_from(assets, suffix@, i as int),
        decreases n - i,
    {
        let a = &release.assets[i];
        assert(assets[i as int] == a@);
        if ends_with(a.name.as_str(), suffix) {
            return Some(i);
        }
        i = i + 1;
    }
    None
}

} // verus!
