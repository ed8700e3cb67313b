//! Canonical filesystem paths of the install layout.
//!
//! Every installed version of a candidate lives at
//! `<root>/candidates/<candidate>/<version>`, the `current` link of a
//! candidate at `<root>/candidates/<candidate>/current`, and the candidates
//! manifest at `<root>/var/candidates`. Path construction is pure: nothing
//! here touches the filesystem.

use vstd::prelude::*;

verus! {

/// `base` extended with a separator and `name`.
pub open spec fn spec_joined(base: Seq<char>, name: Seq<char>) -> Seq<char> {
    base + "/"@ + name
}

/// The directory holding every installed version of `candidate`.
pub open spec fn spec_candidate_dir(root: Seq<char>, candidate: Seq<char>) -> Seq<char> {
    spec_joined(spec_joined(root, "candidates"@), candidate)
}

/// The directory of one installed version of `candidate`.
pub open spec fn spec_version_dir(
    root: Seq<char>,
    candidate: Seq<char>,
    version: Seq<char>,
) -> Seq<char> {
    spec_joined(spec_candidate_dir(root, candidate), version)
}

/// The `current` link of `candidate`.
pub open spec fn spec_current_link(root: Seq<char>, candidate: Seq<char>) -> Seq<char> {
    spec_joined(spec_candidate_dir(root, candidate), "current"@)
}

/// The candidates manifest file under `root`.
pub open spec fn spec_manifest_path(root: Seq<char>) -> Seq<char> {
    spec_joined(spec_joined(root, "var"@), "candidates"@)
}

/// A version directory under an already-known candidates base directory, as
/// the resolver checks it: `<candidates_dir>/<candidate>/<version>`.
pub open spec fn spec_version_dir_in(
    candidates_dir: Seq<char>,
    candidate: Seq<char>,
    version: Seq<char>,
) -> Seq<char> {
    spec_joined(spec_joined(candidates_dir, candidate), version)
}

/// `base` extended with a separator and `name`.
pub fn joined(base: &str, name: &str) -> (r: String)
    ensures
        r@ == spec_joined(base@, name@),
{
    let mut r = base.to_owned();
    r.append("/");
    r.append(name);
    r
}

/// The path of the directory holding every installed version of `candidate`.
pub fn candidate_dir(root: &str, candidate: &str) -> (r: String)
    ensures
        r@ == spec_candidate_dir(root@, candidate@),
{
    let base = joined(root, "candidates");
    joined(base.as_str(), candidate)
}

/// The path of the directory of one installed version of `candidate`.
pub fn version_dir(root: &str, candidate: &str, version: &str) -> (r: String)
    ensures
        r@ == spec_version_dir(root@, candidate@, version@),
{
    let base = candidate_dir(root, candidate);
    joined(base.as_str(), version)
}

/// The path of the `current` link of `candidate`.
pub fn current_link(root: &str, candidate: &str) -> (r: String)
    ensures
        r@ == spec_current_link(root@, candidate@),
{
    let base = candidate_dir(root, candidate);
    joined(base.as_str(), "current")
}

/// The path of the candidates manifest file under `root`.
pub fn manifest_path(root: &str) -> (r: String)
    ensures
        r@ == spec_manifest_path(root@),
{
    let base = joined(root, "var");
    joined(base.as_str(), "candidates")
}

/// The path of a version directory under an already-known candidates base
/// directory.
pub fn version_dir_in(candidates_dir: &str, candidate: &str, version: &str) -> (r: String)
    ensures
        r@ == spec_version_dir_in(candidates_dir@, candidate@, version@),
{
    let base = joined(candidates_dir, candidate);
    joined(base.as_str(), version)
}

} // verus!
