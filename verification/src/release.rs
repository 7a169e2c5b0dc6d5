//! Releases as the registry lists them, and the versions made from them.

use vstd::prelude::*;
use vstd::std_specs::convert::FromSpecImpl;

verus! {

/// What the contracts say of an asset: its three texts.
pub struct AssetView {
    pub name: Seq<char>,
    pub url: Seq<char>,
    pub content_type: Seq<char>,
}

/// What the contracts say of a release as the registry lists it.
pub struct ReleaseView {
    pub name: Option<Seq<char>>,
    pub tag_name: Seq<char>,
    pub published_at: Option<i64>,
    pub prerelease: bool,
    pub assets: Seq<AssetView>,
}

/// What the contracts say of a version.
pub struct VersionView {
    pub tag: Seq<char>,
    pub version: Seq<char>,
    pub uploaded_at: Option<i64>,
    pub assets: Seq<AssetView>,
    pub prerelease: bool,
}

/// One file of a release, with the fields of the registry's record.
#[derive(Debug, PartialEq, Eq)]
pub struct RawAsset {
    pub name: String,
    pub browser_download_url: String,
    pub content_type: String,
}

/// One release, with the fields of the registry's record. `published_at`
/// counts seconds since the Unix epoch.
#[derive(Debug, PartialEq, Eq)]
pub struct RawRelease {
    pub name: Option<String>,
    pub tag_name: String,
    pub published_at: Option<i64>,
    pub prerelease: bool,
    pub assets: Vec<RawAsset>,
}

/// A published version of the engine.
///
/// `tag` is the registry's identifier, `version` the name shown to the user.
/// `uploaded_at` counts seconds since the Unix epoch.
#[derive(Debug, PartialEq, Eq)]
pub struct GodotVersion {
    pub tag: String,
    pub version: String,
    pub uploaded_at: Option<i64>,
    pub assets: Vec<RawAsset>,
    pub prerelease: bool,
}

/// One downloadable file of a version.
#[derive(Debug, PartialEq, Eq)]
pub struct GodotVersionDownload {
    pub name: String,
    pub url: String,
    pub content_type: String,
}

/// The views of the assets of a list, in its order.
pub open spec fn asset_views(assets: Seq<RawAsset>) -> Seq<AssetView> {
    assets.map_values(|a: RawAsset| a@)
}

/// The views of the downloads of a list, in its order.
pub open spec fn download_views(downloads: Seq<GodotVersionDownload>) -> Seq<AssetView> {
    downloads.map_values(|d: GodotVersionDownload| d@)
}

/// The name shown for a release: its name where it has a non-empty one,
/// else its tag.
pub open spec fn display_name(name: Option<Seq<char>>, tag_name: Seq<char>) -> Seq<char> {
    match name {
        Some(text) => if text.len() > 0 {
            text
        } else {
            tag_name
        },
        None => tag_name,
    }
}

/// The version that a release stands for.
pub open spec fn normalize(release: ReleaseView) -> VersionView {
    VersionView {
        tag: release.tag_name,
        version: display_name(release.name, release.tag_name),
        uploaded_at: release.published_at,
        assets: release.assets,
        prerelease: release.prerelease,
    }
}

/// An asset has a file name and an address.
pub open spec fn asset_well_formed(asset: AssetView) -> bool {
    asset.name.len() > 0 && asset.url.len() > 0
}

/// A release has a tag, and each of its assets is well formed.
pub open spec fn release_well_formed(release: ReleaseView) -> bool {
    &&& release.tag_name.len() > 0
    &&& forall|i: int| 0 <= i < release.assets.len() ==> asset_well_formed(#[trigger] release.assets[i])
}

/// A version has a tag and a name to show, and each of its assets is well formed.
pub open spec fn version_well_formed(version: VersionView) -> bool {
    &&& version.tag.len() > 0
    &&& version.version.len() > 0
    &&& forall|i: int| 0 <= i < version.assets.len() ==> asset_well_formed(#[trigger] version.assets[i])
}

impl View for RawAsset {
    type V = AssetView;

    open spec fn view(&self) -> AssetView {
        AssetView {
            name: self.name@,
            url: self.browser_download_url@,
            content_type: self.content_type@,
        }
    }
}

impl View for GodotVersionDownload {
    type V = AssetView;

    open spec fn view(&self) -> AssetView {
        AssetView { name: self.name@, url: self.url@, content_type: self.content_type@ }
    }
}

impl View for RawRelease {
    type V = ReleaseView;

    open spec fn view(&self) -> ReleaseView {
        ReleaseView {
            name: match self.name {
                Some(text) => Some(text@),
                None => None,
            },
            tag_name: self.tag_name@,
            published_at: self.published_at,
            prerelease: self.prerelease,
            assets: asset_views(self.assets@),
        }
    }
}

impl View for GodotVersion {
    type V = VersionView;

    open spec fn view(&self) -> VersionView {
        VersionView {
            tag: self.tag@,
            version: self.version@,
            uploaded_at: self.uploaded_at,
            assets: asset_views(self.assets@),
            prerelease: self.prerelease,
        }
    }
}

impl Clone for RawAsset {
    fn clone(&self) -> (copy: Self)
        ensures
            copy == *self,
    {
        RawAsset {
            name: self.name.clone(),
            browser_download_url: self.browser_download_url.clone(),
            content_type: self.content_type.clone(),
        }
    }
}

impl Clone for GodotVersionDownload {
    fn clone(&self) -> (copy: Self)
        ensures
            copy == *self,
    {
        GodotVersionDownload {
            name: self.name.clone(),
            url: self.url.clone(),
            content_type: self.content_type.clone(),
        }
    }
}

/// A copy of a list of assets, one by one.
fn clone_assets(assets: &Vec<RawAsset>) -> (copy: Vec<RawAsset>)
    ensures
        copy@ == assets@,
{
    let mut copy: Vec<RawAsset> = Vec::new();
    let mut i: usize = 0;
    while i < assets.len()
        invariant
            i <= assets.len(),
            copy@ == assets@.take(i as int),
        decreases assets.len() - i,
    {
        copy.push(assets[i].clone());
        assert(copy@ =~= assets@.take(i + 1));
        i = i + 1;
    }
    assert(copy@ =~= assets@);
    copy
}

impl Clone for RawRelease {
    fn clone(&self) -> (copy: Self)
        ensures
            copy@ == self@,
    {
        RawRelease {
            name: match &self.name {
                Some(text) => Some(text.clone()),
                None => None,
            },
            tag_name: self.tag_name.clone(),
            published_at: self.published_at,
            prerelease: self.prerelease,
            assets: clone_assets(&self.assets),
        }
    }
}

impl Clone for GodotVersion {
    fn clone(&self) -> (copy: Self)
        ensures
            copy@ == self@,
    {
        GodotVersion {
            tag: self.tag.clone(),
            version: self.version.clone(),
            uploaded_at: self.uploaded_at,
            assets: clone_assets(&self.assets),
            prerelease: self.prerelease,
        }
    }
}

impl FromSpecImpl<RawRelease> for GodotVersion {
    open spec fn obeys_from_spec() -> bool {
        true
    }

    open spec fn from_spec(r: RawRelease) -> GodotVersion {
        GodotVersion {
            tag: r.tag_name,
            version: match r.name {
                Some(text) => if text@.len() > 0 {
                    text
                } else {
                    r.tag_name
                },
                None => r.tag_name,
            },
            uploaded_at: r.published_at,
            assets: r.assets,
            prerelease: r.prerelease,
        }
    }
}

impl From<RawRelease> for GodotVersion {
    /// The version that a release stands for: named by the release's name
    /// where that is not empty, else by its tag; everything else is taken
    /// over as it is, the assets in their order.
    fn from(r: RawRelease) -> (version: Self)
        ensures
            version@ == normalize(r@),
    {
        let tag = r.tag_name.clone();
        GodotVersion {
            tag,
            version: if let Some(version_name) = r.name {
                if !version_name.as_str().is_empty() {
                    version_name
                } else {
                    r.tag_name
                }
            } else {
                r.tag_name
            },
            uploaded_at: r.published_at,
            assets: r.assets,
            prerelease: r.prerelease,
        }
    }
}

impl FromSpecImpl<RawAsset> for GodotVersionDownload {
    open spec fn obeys_from_spec() -> bool {
        true
    }

    open spec fn from_spec(p: RawAsset) -> GodotVersionDownload {
        GodotVersionDownload {
            name: p.name,
            url: p.browser_download_url,
            content_type: p.content_type,
        }
    }
}

impl From<RawAsset> for GodotVersionDownload {
    /// The download that an asset stands for: the same three texts.
    fn from(p: RawAsset) -> (download: Self)
        ensures
            download@ == p@,
    {
        GodotVersionDownload {
            url: p.browser_download_url,
            name: p.name,
            content_type: p.content_type,
        }
    }
}

/// The versions of one page of releases, in the registry's order.
pub fn get_godot_versions(page: Vec<RawRelease>) -> (versions: Vec<GodotVersion>)
    ensures
        versions@.len() == page@.len(),
        forall|i: int| 0 <= i < page@.len() ==> (#[trigger] versions@[i])@ == normalize(page@[i]@),
{
    let ghost all = page@;
    let mut versions: Vec<GodotVersion> = Vec::new();
    for release in it: page.into_iter()
        invariant
            it.seq() == all,
            versions@.len() == it.index(),
            forall|i: int| 0 <= i < it.index() ==> (#[trigger] versions@[i])@ == normalize(all[i]@),
    {
        versions.push(GodotVersion::from(release));
    }
    versions
}

/// The downloads of a version, in the registry's order.
pub fn get_godot_version_downloads(version: &GodotVersion) -> (downloads: Vec<GodotVersionDownload>)
    ensures
        download_views(downloads@) == version@.assets,
{
    let mut downloads: Vec<GodotVersionDownload> = Vec::new();
    let mut i: usize = 0;
    while i < version.assets.len()
        invariant
            i <= version.assets.len(),
            downloads@.len() == i,
            forall|k: int| 0 <= k < i ==> (#[trigger] downloads@[k])@ == version.assets@[k]@,
        decreases version.assets.len() - i,
    {
        downloads.push(GodotVersionDownload::from(version.assets[i].clone()));
        i = i + 1;
    }
    assert(download_views(downloads@) =~= version@.assets);
    downloads
}

/// A release without a name, or with an empty one, is shown under its tag.
pub proof fn law_unnamed_release_shows_tag(release: ReleaseView)
    requires
        release.name is None || release.name->0.len() == 0,
    ensures
        normalize(release).version == release.tag_name,
{
}

/// A release with a non-empty name is shown under that name.
pub proof fn law_named_release_shows_name(release: ReleaseView)
    requires
        release.name is Some,
        release.name->0.len() > 0,
    ensures
        normalize(release).version == release.name->0,
{
}

/// The name shown is empty only where the tag is.
pub proof fn law_display_name_not_empty(release: ReleaseView)
    requires
        release.tag_name.len() > 0,
    ensures
        normalize(release).version.len() > 0,
{
}

/// A version keeps the tag and the assets of its release, the assets in
/// their order, and is well formed where the release is.
pub proof fn law_normalize_keeps_release(release: ReleaseView)
    ensures
        normalize(release).tag == release.tag_name,
        normalize(release).assets == release.assets,
        normalize(release).uploaded_at == release.published_at,
        normalize(release).prerelease == release.prerelease,
        release_well_formed(release) ==> version_well_formed(normalize(release)),
{
}

} // verus!
