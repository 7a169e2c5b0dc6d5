//! Choosing the download of a version for a platform and a variant.
//!
//! The choice is an ordered filter over the downloads of a version: the first
//! one, in the registry's order, that is an archive, names the platform and
//! fits the variant.

use vstd::prelude::*;

use crate::error::PipelineError;
use crate::platform::{mono_marker, PlatformTarget, Variant};
use crate::release::{download_views, AssetView, GodotVersionDownload};
use crate::text::{contains, contains_text};

verus! {

/// The content type of the archives that hold a build.
pub open spec fn archive_content_type() -> Seq<char> {
    "application/zip"@
}

/// A build for `variant` carries the Mono marker in its file name exactly
/// where the variant is the extended one.
pub open spec fn variant_matches(name: Seq<char>, variant: Variant) -> bool {
    match variant {
        Variant::Extended => contains_text(name, mono_marker()),
        Variant::Standard => !contains_text(name, mono_marker()),
    }
}

/// An asset can be chosen: it is an archive, its file name carries the
/// platform's token, and it fits the variant.
pub open spec fn eligible(asset: AssetView, token: Seq<char>, variant: Variant) -> bool {
    &&& asset.content_type == archive_content_type()
    &&& contains_text(asset.name, token)
    &&& variant_matches(asset.name, variant)
}

/// Position of the first asset from `start` on that can be chosen.
pub open spec fn first_eligible_from(
    assets: Seq<AssetView>,
    token: Seq<char>,
    variant: Variant,
    start: int,
) -> Option<int>
    decreases assets.len() - start,
{
    if start < 0 || start >= assets.len() {
        None
    } else if eligible(assets[start], token, variant) {
        Some(start)
    } else {
        first_eligible_from(assets, token, variant, start + 1)
    }
}

/// The asset chosen among `assets` for `platform` and `variant`.
///
/// A platform without a file name rule is refused whatever the assets are.
/// Otherwise the first asset that can be chosen wins; where there is none,
/// nothing is found.
pub open spec fn select_asset(
    assets: Seq<AssetView>,
    platform: PlatformTarget,
    variant: Variant,
) -> Result<AssetView, PipelineError> {
    match platform.file_token() {
        None => Err(PipelineError::UnsupportedPlatform),
        Some(token) => match first_eligible_from(assets, token, variant, 0) {
            Some(i) => Ok(assets[i]),
            None => Err(PipelineError::NotFound),
        },
    }
}

/// Position of the asset chosen among `assets`, where one is chosen.
pub open spec fn chosen_position(
    assets: Seq<AssetView>,
    platform: PlatformTarget,
    variant: Variant,
) -> Option<int> {
    match platform.file_token() {
        None => None,
        Some(token) => first_eligible_from(assets, token, variant, 0),
    }
}

/// Number of the first `upto` assets that can be chosen.
pub open spec fn eligible_before(
    assets: Seq<AssetView>,
    token: Seq<char>,
    variant: Variant,
    upto: int,
) -> nat
    decreases upto,
{
    if upto <= 0 {
        0
    } else {
        let earlier = eligible_before(assets, token, variant, upto - 1);
        if eligible(assets[upto - 1], token, variant) {
            earlier + 1
        } else {
            earlier
        }
    }
}

/// Number of assets that can be chosen for `platform` and `variant`: none
/// for a platform without a file name rule. More than one is an anomaly of
/// the registry, worth a warning.
pub open spec fn candidates(assets: Seq<AssetView>, platform: PlatformTarget, variant: Variant) -> nat {
    match platform.file_token() {
        None => 0,
        Some(token) => eligible_before(assets, token, variant, assets.len() as int),
    }
}

/// What `first_eligible_from` finds is the earliest asset from `start` on
/// that can be chosen, and it finds one where there is one.
pub proof fn lemma_first_eligible_from(
    assets: Seq<AssetView>,
    token: Seq<char>,
    variant: Variant,
    start: int,
)
    requires
        0 <= start,
    ensures
        match first_eligible_from(assets, token, variant, start) {
            Some(i) => {
                &&& start <= i < assets.len()
                &&& eligible(assets[i], token, variant)
                &&& forall|j: int| start <= j < i ==> !eligible(#[trigger] assets[j], token, variant)
            },
            None => forall|j: int|
                start <= j < assets.len() ==> !eligible(#[trigger] assets[j], token, variant),
        },
    decreases assets.len() - start,
{
    if start < assets.len() && !eligible(assets[start], token, variant) {
        lemma_first_eligible_from(assets, token, variant, start + 1);
    }
}

/// Whether a file of this name is a build of the variant asked for: with the
/// Mono marker for the extended variant, without it for the standard one.
pub fn filter_mono_and_download_godot(name: &str, variant: Variant) -> (wanted: bool)
    ensures
        wanted == variant_matches(name@, variant),
{
    let marked = contains(name, "mono");
    match variant {
        Variant::Extended => marked,
        Variant::Standard => !marked,
    }
}

/// Whether `download` can be chosen for the platform token and the variant.
pub fn is_eligible(download: &GodotVersionDownload, token: &str, variant: Variant) -> (r: bool)
    ensures
        r == eligible(download@, token@, variant),
{
    let archive_type = "application/zip".to_owned();
    if download.content_type != archive_type {
        return false;
    }
    if !contains(download.name.as_str(), token) {
        return false;
    }
    filter_mono_and_download_godot(download.name.as_str(), variant)
}

/// Chooses the download for `platform` and `variant`.
///
/// The answer depends on nothing but the three arguments: it is
/// `select_asset` of their views, and where a download is chosen it is the one
/// of the list at the first position that can be chosen.
pub fn filter_download_links_and_download<'a>(
    downloads: &'a Vec<GodotVersionDownload>,
    platform: PlatformTarget,
    variant: Variant,
) -> (chosen: Result<&'a GodotVersionDownload, PipelineError>)
    ensures
        match chosen {
            Ok(download) => {
                &&& select_asset(download_views(downloads@), platform, variant) == Ok::<
                    AssetView,
                    PipelineError,
                >(download@)
                &&& chosen_position(download_views(downloads@), platform, variant) is Some
                &&& *download == downloads@[chosen_position(
                    download_views(downloads@),
                    platform,
                    variant,
                )->0]
            },
            Err(e) => select_asset(download_views(downloads@), platform, variant) == Err::<
                AssetView,
                PipelineError,
            >(e),
        },
{
    let token = match platform.token() {
        Some(token) => token,
        None => {
            return Err(PipelineError::UnsupportedPlatform);
        },
    };
    let ghost views = download_views(downloads@);
    let mut i: usize = 0;
    while i < downloads.len()
        invariant
            i <= downloads.len(),
            views == download_views(downloads@),
            platform.file_token() == Some(token@),
            first_eligible_from(views, token@, variant, 0) == first_eligible_from(
                views,
                token@,
                variant,
                i as int,
            ),
        decreases downloads.len() - i,
    {
        let download = &downloads[i];
        assert(views[i as int] == download@);
        if is_eligible(download, token, variant) {
            return Ok(download);
        }
        i = i + 1;
    }
    Err(PipelineError::NotFound)
}

/// The choice is a function of the list, the platform and the variant: two
/// calls with the same three give the same answer.
pub proof fn law_choice_is_deterministic<'a>(
    downloads: &'a Vec<GodotVersionDownload>,
    platform: PlatformTarget,
    variant: Variant,
    first: Result<&'a GodotVersionDownload, PipelineError>,
    second: Result<&'a GodotVersionDownload, PipelineError>,
)
    requires
        call_ensures(filter_download_links_and_download, (downloads, platform, variant), first),
        call_ensures(filter_download_links_and_download, (downloads, platform, variant), second),
    ensures
        first == second,
{
}

/// The number of downloads that can be chosen for `platform` and `variant`.
pub fn count_candidates(
    downloads: &Vec<GodotVersionDownload>,
    platform: PlatformTarget,
    variant: Variant,
) -> (n: usize)
    ensures
        n == candidates(download_views(downloads@), platform, variant),
{
    let token = match platform.token() {
        Some(token) => token,
        None => {
            return 0;
        },
    };
    let ghost views = download_views(downloads@);
    let mut n: usize = 0;
    let mut i: usize = 0;
    while i < downloads.len()
        invariant
            i <= downloads.len(),
            views == download_views(downloads@),
            n <= i,
            n == eligible_before(views, token@, variant, i as int),
        decreases downloads.len() - i,
    {
        assert(views[i as int] == downloads@[i as int]@);
        if is_eligible(&downloads[i], token, variant) {
            n = n + 1;
        }
        i = i + 1;
    }
    n
}

/// No asset can be chosen among the first `upto` exactly where none of them
/// can.
pub proof fn lemma_eligible_before_zero(
    assets: Seq<AssetView>,
    token: Seq<char>,
    variant: Variant,
    upto: int,
)
    requires
        0 <= upto <= assets.len(),
    ensures
        eligible_before(assets, token, variant, upto) == 0 <==> forall|j: int|
            0 <= j < upto ==> !eligible(#[trigger] assets[j], token, variant),
    decreases upto,
{
    if upto > 0 {
        lemma_eligible_before_zero(assets, token, variant, upto - 1);
    }
}

/// A download is chosen exactly where at least one can be.
pub proof fn law_found_iff_candidate(assets: Seq<AssetView>, platform: PlatformTarget, variant: Variant)
    ensures
        select_asset(assets, platform, variant) is Ok <==> candidates(assets, platform, variant) > 0,
{
    if platform.file_token() is Some {
        let token = platform.file_token()->0;
        lemma_first_eligible_from(assets, token, variant, 0);
        lemma_eligible_before_zero(assets, token, variant, assets.len() as int);
    }
}

/// The download chosen is the earliest of the list that can be chosen, and
/// nothing is found only where none can be.
pub proof fn law_first_match_wins(assets: Seq<AssetView>, platform: PlatformTarget, variant: Variant)
    requires
        platform.file_token() is Some,
    ensures
        match select_asset(assets, platform, variant) {
            Ok(asset) => exists|i: int|
                {
                    &&& 0 <= i < assets.len()
                    &&& asset == #[trigger] assets[i]
                    &&& eligible(assets[i], platform.file_token()->0, variant)
                    &&& forall|j: int|
                        0 <= j < i ==> !eligible(
                            #[trigger] assets[j],
                            platform.file_token()->0,
                            variant,
                        )
                },
            Err(e) => {
                &&& e == PipelineError::NotFound
                &&& forall|j: int|
                    0 <= j < assets.len() ==> !eligible(
                        #[trigger] assets[j],
                        platform.file_token()->0,
                        variant,
                    )
            },
        },
{
    lemma_first_eligible_from(assets, platform.file_token()->0, variant, 0);
}

/// A platform without a file name rule is refused, whatever the assets are.
pub proof fn law_unsupported_platform_is_refused(
    assets: Seq<AssetView>,
    platform: PlatformTarget,
    variant: Variant,
)
    ensures
        platform.file_token() is None <==> select_asset(assets, platform, variant) == Err::<
            AssetView,
            PipelineError,
        >(PipelineError::UnsupportedPlatform),
{
    if platform.file_token() is Some {
        lemma_first_eligible_from(assets, platform.file_token()->0, variant, 0);
    }
}

/// Only an archive is ever chosen.
pub proof fn law_chosen_is_archive(assets: Seq<AssetView>, platform: PlatformTarget, variant: Variant)
    ensures
        select_asset(assets, platform, variant) is Ok ==> select_asset(
            assets,
            platform,
            variant,
        )->Ok_0.content_type == archive_content_type(),
{
    if platform.file_token() is Some {
        lemma_first_eligible_from(assets, platform.file_token()->0, variant, 0);
    }
}

/// For the extended variant only a file with the Mono marker in its name is
/// chosen, for the standard variant only one without it.
pub proof fn law_chosen_fits_variant(assets: Seq<AssetView>, platform: PlatformTarget, variant: Variant)
    ensures
        select_asset(assets, platform, variant) is Ok ==> (variant == Variant::Extended
            <==> contains_text(select_asset(assets, platform, variant)->Ok_0.name, mono_marker())),
{
    if platform.file_token() is Some {
        lemma_first_eligible_from(assets, platform.file_token()->0, variant, 0);
    }
}

/// The file name of what is chosen carries the platform's token.
pub proof fn law_chosen_names_platform(assets: Seq<AssetView>, platform: PlatformTarget, variant: Variant)
    ensures
        select_asset(assets, platform, variant) is Ok ==> platform.file_token() is Some
            && contains_text(
            select_asset(assets, platform, variant)->Ok_0.name,
            platform.file_token()->0,
        ),
{
    if platform.file_token() is Some {
        lemma_first_eligible_from(assets, platform.file_token()->0, variant, 0);
    }
}

} // verus!
