//! Workspace layout: the fixed playground directory under an
//! application-private base directory, the manifest path inside it, and the
//! fixed document written when the manifest is first bootstrapped.

use vstd::prelude::*;
use vstd::string::*;

verus! {

/// The path of the workspace directory under `base`, as a sequence of
/// characters: `base` followed by `/playground`.
pub open spec fn workspace_dir_text(base: Seq<char>) -> Seq<char> {
    base + "/playground"@
}

/// The path of the manifest file inside the workspace under `base`.
pub open spec fn manifest_path_text(base: Seq<char>) -> Seq<char> {
    workspace_dir_text(base) + "/package.json"@
}

/// The fixed document written into a freshly bootstrapped manifest: a name,
/// a version and a privacy flag, nothing else.
pub open spec fn bootstrap_manifest_text() -> Seq<char> {
    "{\"name\":\"sketchjs-playground\",\"version\":\"1.0.0\",\"private\":true}"@
}

/// Resolves the workspace directory for `base`.
pub fn workspace_dir(base: &str) -> (r: String)
    ensures
        r@ == workspace_dir_text(base@),
{
    base.to_owned().concat("/playground")
}

/// Resolves the manifest path for `base`.
pub fn manifest_path(base: &str) -> (r: String)
    ensures
        r@ == manifest_path_text(base@),
{
    workspace_dir(base).concat("/package.json")
}

/// The fixed document a bootstrap writes into a fresh manifest.
pub fn bootstrap_manifest() -> (r: String)
    ensures
        r@ == bootstrap_manifest_text(),
{
    "{\"name\":\"sketchjs-playground\",\"version\":\"1.0.0\",\"private\":true}".to_owned()
}

} // verus!
