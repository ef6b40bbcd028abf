//! Looking a version up in the catalog, and where the documents of a
//! version are found and kept.

use crate::errors::{ProtonError, ProtonErrorView};
use crate::text::{concat, join, spec_join};
use crate::types::{
    versions_view,
    FetchTarget,
    FetchTargetView,
    MinecraftVersion,
    MinecraftVersionView,
    NormalizedVersion,
    VersionManifest,
    VERSION_INDEX_URL,
};
use vstd::prelude::*;

verus! {

/// Whether `at` is the first position of the catalog whose entry has the
/// identifier `version_id`.
pub open spec fn is_first_match(
    versions: Seq<MinecraftVersionView>,
    version_id: Seq<char>,
    at: int,
) -> bool {
    &&& 0 <= at < versions.len()
    &&& versions[at].id == version_id
    &&& forall|i: int| 0 <= i < at ==> (#[trigger] versions[i]).id != version_id
}

/// Whether the catalog has an entry with the identifier `version_id`.
pub open spec fn lists_version(versions: Seq<MinecraftVersionView>, version_id: Seq<char>) -> bool {
    exists|i: int| 0 <= i < versions.len() && (#[trigger] versions[i]).id == version_id
}

/// Finds the entry of the catalog with the identifier `version_id`: the
/// first one, if several have it. Fails with `VersionNotFound` exactly if
/// none has it.
pub fn resolve_version_in_manifest(manifest: &VersionManifest, version_id: String) -> (result:
    Result<MinecraftVersion, ProtonError>)
    ensures
        match result {
            Ok(version) => exists|at: int|
                is_first_match(versions_view(manifest.versions@), version_id@, at)
                    && version@ == #[trigger] versions_view(manifest.versions@)[at],
            Err(e) => !lists_version(versions_view(manifest.versions@), version_id@) && e@
                == ProtonErrorView::VersionNotFound(version_id@),
        },
        result is Ok <==> lists_version(versions_view(manifest.versions@), version_id@),
{
    let ghost versions = versions_view(manifest.versions@);
    let mut at: usize = 0;
    while at < manifest.versions.len()
        invariant
            at <= manifest.versions@.len(),
            versions == versions_view(manifest.versions@),
            forall|i: int| 0 <= i < at ==> (#[trigger] versions[i]).id != version_id@,
        decreases manifest.versions@.len() - at,
    {
        if manifest.versions[at].id == version_id {
            let found = manifest.versions[at].clone();
            assert(versions[at as int].id == version_id@);
            return Ok(found);
        }
        at += 1;
    }
    Err(ProtonError::VersionNotFound(version_id))
}

/// Where the descriptor of a version is published.
pub open spec fn spec_version_data_url(version_id: Seq<char>) -> Seq<char> {
    spec_join(VERSION_INDEX_URL@, version_id)
}

/// Where the descriptor of the version `version_id` is published.
pub fn version_data_url(version_id: &str) -> (url: String)
    ensures
        url@ == spec_version_data_url(version_id@),
{
    join(VERSION_INDEX_URL, version_id)
}

/// Where the catalog entry of a version is kept below the game directory:
/// `versions/<id>/<id>.json`.
pub open spec fn spec_version_json_path(gamedir: Seq<char>, version_id: Seq<char>) -> Seq<char> {
    spec_join(spec_join(spec_join(gamedir, "versions"@), version_id), version_id + ".json"@)
}

/// What to fetch to keep the catalog entry of a version on disk.
pub fn version_json_target(version: &MinecraftVersion, version_id: &str, gamedir: &str) -> (target:
    FetchTarget)
    ensures
        target@ == (FetchTargetView {
            source_url: version.url@,
            destination_path: spec_version_json_path(gamedir@, version_id@),
            expected_hash: version.sha1@,
        }),
{
    let directory = join(join(gamedir, "versions").as_str(), version_id);
    let file = concat(version_id, ".json");
    FetchTarget {
        source_url: version.url.clone(),
        destination_path: join(directory.as_str(), file.as_str()),
        expected_hash: version.sha1.clone(),
    }
}

/// Where the asset index of a version is kept below the game directory:
/// `assets/indexes/<index id>.json`.
pub open spec fn spec_asset_index_path(gamedir: Seq<char>, index_id: Seq<char>) -> Seq<char> {
    spec_join(spec_join(spec_join(gamedir, "assets"@), "indexes"@), index_id + ".json"@)
}

/// What to fetch to keep the asset index of a version on disk.
pub fn asset_index_target(version: &NormalizedVersion, gamedir: &str) -> (target: FetchTarget)
    ensures
        target@ == (FetchTargetView {
            source_url: version.asset_index.url@,
            destination_path: spec_asset_index_path(gamedir@, version.asset_index.id@),
            expected_hash: version.asset_index.sha1@,
        }),
{
    let directory = join(join(gamedir, "assets").as_str(), "indexes");
    let file = concat(version.asset_index.id.as_str(), ".json");
    FetchTarget {
        source_url: version.asset_index.url.clone(),
        destination_path: join(directory.as_str(), file.as_str()),
        expected_hash: version.asset_index.sha1.clone(),
    }
}

} // verus!
