use vstd::prelude::*;
use vstd::string::*;

use crate::errors::ToolError;
use crate::textutil::str_eq;

verus! {

/// One downloadable attachment of a published release.
pub struct AssetInfo {
    pub name: String,
    pub download_url: String,
}

/// What a release-source query returns: the version and its assets.
pub struct ReleaseDescriptor {
    pub version: String,
    pub assets: Vec<AssetInfo>,
}

/// The fixed association of one tool family with its release source: where
/// to look, how the asset is named, and where the entry point lives inside
/// the unpacked archive.
pub struct ReleaseSource {
    pub repository: String,
    pub asset_prefix: String,
    pub asset_suffix: String,
    pub dir_prefix: String,
    pub entry_rel: String,
}

/// The asset name expected for a version: the template with the version
/// substituted.
pub open spec fn expected_asset_name_text(src: ReleaseSource, version: Seq<char>) -> Seq<char> {
    src.asset_prefix@ + version + src.asset_suffix@
}

/// The cache directory for a version, named deterministically from it.
pub open spec fn version_dir_text(src: ReleaseSource, version: Seq<char>) -> Seq<char> {
    src.dir_prefix@ + version
}

/// The entry-point path inside a version's cache directory.
pub open spec fn entry_path_text(src: ReleaseSource, version: Seq<char>) -> Seq<char> {
    version_dir_text(src, version) + "/"@ + src.entry_rel@
}

/// Builds the expected asset name for a version.
pub fn expected_asset_name(src: &ReleaseSource, version: &str) -> (r: String)
    ensures
        r@ == expected_asset_name_text(*src, version@),
{
    let mut m = src.asset_prefix.clone();
    m.append(version);
    m.append(src.asset_suffix.as_str());
    m
}

/// Builds the cache-directory name for a version.
pub fn version_directory(src: &ReleaseSource, version: &str) -> (r: String)
    ensures
        r@ == version_dir_text(*src, version@),
{
    let mut m = src.dir_prefix.clone();
    m.append(version);
    m
}

/// Builds the entry-point path for a version.
pub fn entry_path(src: &ReleaseSource, version: &str) -> (r: String)
    ensures
        r@ == entry_path_text(*src, version@),
{
    let mut m = version_directory(src, version);
    m.append("/");
    m.append(src.entry_rel.as_str());
    m
}

/// Finds the first asset bearing exactly the given name, case-sensitively.
pub fn find_asset(assets: &Vec<AssetInfo>, name: &str) -> (r: Option<usize>)
    ensures
        r matches Some(i) ==> i < assets@.len() && assets@[i as int].name@ == name@ && (forall|
            t: int,
        |
            0 <= t < i ==> assets@[t].name@ != name@),
        r is None ==> forall|t: int| 0 <= t < assets@.len() ==> assets@[t].name@ != name@,
{
    let mut i: usize = 0;
    while i < assets.len()
        invariant
            i <= assets@.len(),
            forall|t: int| 0 <= t < i ==> assets@[t].name@ != name@,
        decreases assets@.len() - i,
    {
        if str_eq(assets[i].name.as_str(), name) {
            return Some(i);
        }
        i += 1;
    }
    None
}

/// Everything a cache check and a download need for one version.
pub struct FetchPlan {
    pub download_url: String,
    pub version_dir: String,
    pub entry_path: String,
}

/// Whether the release carries an asset under the expected name.
pub open spec fn has_expected_asset(src: ReleaseSource, release: ReleaseDescriptor) -> bool {
    exists|i: int|
        0 <= i < release.assets@.len() && release.assets@[i].name@ == expected_asset_name_text(
            src,
            release.version@,
        )
}

/// Plans the fetch for a located release: succeeds exactly when the release
/// carries the expected asset, and then names the version-keyed directory,
/// the entry-point path inside it, and the first matching asset's URL.
pub fn plan_fetch(src: &ReleaseSource, release: &ReleaseDescriptor) -> (r: Result<
    FetchPlan,
    ToolError,
>)
    ensures
        r is Ok <==> has_expected_asset(*src, *release),
        r matches Ok(p) ==> p.version_dir@ == version_dir_text(*src, release.version@)
            && p.entry_path@ == entry_path_text(*src, release.version@) && (exists|i: int|
            0 <= i < release.assets@.len() && release.assets@[i].name@ == expected_asset_name_text(
                *src,
                release.version@,
            ) && (forall|t: int|
                0 <= t < i ==> release.assets@[t].name@ != expected_asset_name_text(
                    *src,
                    release.version@,
                )) && p.download_url@ == release.assets@[i].download_url@),
        r matches Err(e) ==> (match e {
            ToolError::AssetNotFound { asset_name } => asset_name@ == expected_asset_name_text(
                *src,
                release.version@,
            ),
            _ => false,
        }),
{
    let name = expected_asset_name(src, release.version.as_str());
    match find_asset(&release.assets, name.as_str()) {
        Some(i) => {
            let download_url = release.assets[i].download_url.clone();
            let version_dir = version_directory(src, release.version.as_str());
            let entry = entry_path(src, release.version.as_str());
            Ok(FetchPlan { download_url, version_dir, entry_path: entry })
        },
        None => Err(ToolError::AssetNotFound { asset_name: name }),
    }
}

/// What to do once the entry point's presence is known.
#[derive(Clone, Copy, Debug, PartialEq, Eq, Structural)]
pub enum CacheDecision {
    UseCached,
    Download,
}

/// The cache rule: a present entry point is used as it stands; only its
/// absence calls for a download.
pub open spec fn spec_cache_decision(entry_is_file: bool) -> CacheDecision {
    if entry_is_file {
        CacheDecision::UseCached
    } else {
        CacheDecision::Download
    }
}

/// Decides between the cached copy and a fresh download.
pub fn next_step(entry_is_file: bool) -> (d: CacheDecision)
    ensures
        d == spec_cache_decision(entry_is_file),
{
    if entry_is_file {
        CacheDecision::UseCached
    } else {
        CacheDecision::Download
    }
}

/// Resolution is idempotent per version: the entry point lies inside the
/// directory named deterministically from the version, and once that entry
/// point exists a later resolution of the same version decides to use the
/// cache, so it performs no second download.
pub proof fn lemma_resolution_idempotent(src: ReleaseSource, version: Seq<char>)
    ensures
        entry_path_text(src, version).take(version_dir_text(src, version).len() as int)
            == version_dir_text(src, version),
        spec_cache_decision(true) == CacheDecision::UseCached,
{
    assert(entry_path_text(src, version).take(version_dir_text(src, version).len() as int)
        =~= version_dir_text(src, version));
}

} // verus!
