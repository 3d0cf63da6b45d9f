//! A release of the tool, as the release index describes it.

use vstd::prelude::*;
use vstd::string::*;

verus! {

/// One file that can be downloaded from a release.
#[derive(Debug, PartialEq, Eq)]
pub struct GithubReleaseAsset {
    pub name: String,
    pub download_url: String,
}

/// A [`GithubReleaseAsset`] with its texts as sequences of characters.
pub struct GithubReleaseAssetView {
    pub name: Seq<char>,
    pub download_url: Seq<char>,
}

impl View for GithubReleaseAsset {
    type V = GithubReleaseAssetView;

    open spec fn view(&self) -> GithubReleaseAssetView {
        GithubReleaseAssetView { name: self.name@, download_url: self.download_url@ }
    }
}

/// A release: its version, which is only ever compared and put into paths,
/// and the files that belong to it.
#[derive(Debug, PartialEq, Eq)]
pub struct GithubRelease {
    pub version: String,
    pub assets: Vec<GithubReleaseAsset>,
}

/// A [`GithubRelease`] with its texts as sequences of characters.
pub struct GithubReleaseView {
    pub version: Seq<char>,
    pub assets: Seq<GithubReleaseAssetView>,
}

impl View for GithubRelease {
    type V = GithubReleaseView;

    open spec fn view(&self) -> GithubReleaseView {
        GithubReleaseView {
            version: self.version@,
            assets: self.assets@.map_values(|asset: GithubReleaseAsset| asset@),
        }
    }
}

/// Whether `assets[index]` is the first asset that is called `name`.
pub open spec fn is_first_named(
    assets: Seq<GithubReleaseAssetView>,
    name: Seq<char>,
    index: int,
) -> bool {
    &&& 0 <= index < assets.len()
    &&& assets[index].name == name
    &&& forall|earlier: int| 0 <= earlier < index ==> (#[trigger] assets[earlier]).name != name
}

/// The first asset that is called exactly `name`, if there is one.
pub open spec fn matching_asset(
    assets: Seq<GithubReleaseAssetView>,
    name: Seq<char>,
) -> Option<GithubReleaseAssetView> {
    if exists|index: int| is_first_named(assets, name, index) {
        Some(assets[choose|index: int| is_first_named(assets, name, index)])
    } else {
        None
    }
}

/// At most one asset is the first of its name.
pub proof fn first_named_is_unique(
    assets: Seq<GithubReleaseAssetView>,
    name: Seq<char>,
    one: int,
    other: int,
)
    requires
        is_first_named(assets, name, one),
        is_first_named(assets, name, other),
    ensures
        one == other,
{
    if one < other {
        assert(assets[one].name != name);
    } else if other < one {
        assert(assets[other].name != name);
    }
}

impl GithubRelease {
    /// The first asset of the release that is called exactly `name`. The
    /// result is `None` if and only if no asset has that name.
    pub fn find_asset(&self, name: &String) -> (r: Option<&GithubReleaseAsset>)
        ensures
            (match r {
                Some(asset) => matching_asset(self@.assets, name@) == Some(asset@),
                None => matching_asset(self@.assets, name@) is None,
            }),
            r is None <==> forall|index: int|
                0 <= index < self@.assets.len() ==> (#[trigger] self@.assets[index]).name != name@,
    {
        let ghost assets = self@.assets;
        let mut i: usize = 0;
        while i < self.assets.len()
            invariant
                i <= self.assets.len(),
                assets == self@.assets,
                forall|earlier: int|
                    0 <= earlier < i ==> (#[trigger] assets[earlier]).name != name@,
            decreases self.assets.len() - i,
        {
            if self.assets[i].name == *name {
                proof {
                    assert(is_first_named(assets, name@, i as int));
                    let chosen = choose|index: int| is_first_named(assets, name@, index);
                    first_named_is_unique(assets, name@, i as int, chosen);
                }
                return Some(&self.assets[i]);
            }
            i += 1;
        }
        assert forall|index: int| !is_first_named(assets, name@, index) by {
            if 0 <= index < assets.len() {
                assert(assets[index].name != name@);
            }
        }
        None
    }
}

} // verus!
