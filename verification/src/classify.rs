//! Classifying a unit as library or application from its build targets.

use vstd::prelude::*;
use crate::errors::ClassificationError;
use crate::strings::str_eq;

verus! {

/// The kind tags of one build target, e.g. `["lib"]` or `["bin"]`.
pub type TargetKinds = Vec<String>;

/// A unit is a library exactly when no target of it carries the `bin`
/// kind; a single executable target dominates any library targets.
pub open spec fn spec_is_library(kinds: Seq<Seq<Seq<char>>>) -> bool {
    forall|i: int| 0 <= i < kinds.len() ==> !kinds[i].contains("bin"@)
}

/// Whether any of the given kind tags is `bin`.
fn kinds_contain_bin(kinds: &TargetKinds) -> (r: bool)
    ensures
        r == kinds.deep_view().contains("bin"@),
{
    let mut i: usize = 0;
    while i < kinds.len()
        invariant
            i <= kinds@.len(),
            forall|j: int| 0 <= j < i ==> kinds.deep_view()[j] != "bin"@,
        decreases kinds@.len() - i,
    {
        if str_eq(kinds[i].as_str(), "bin") {
            proof {
                assert(kinds.deep_view()[i as int] == "bin"@);
            }
            return true;
        }
        i = i + 1;
    }
    proof {
        assert(forall|j: int|
            0 <= j < kinds.deep_view().len() ==> kinds.deep_view()[j] != "bin"@);
    }
    false
}

/// The classifier's decision rule over plain target kinds: `true` exactly
/// when no target carries a `bin` kind.
pub fn is_library_targets(targets: &Vec<TargetKinds>) -> (r: bool)
    ensures
        r == spec_is_library(targets.deep_view()),
{
    let mut i: usize = 0;
    while i < targets.len()
        invariant
            i <= targets@.len(),
            forall|j: int| 0 <= j < i ==> !targets.deep_view()[j].contains("bin"@),
        decreases targets@.len() - i,
    {
        let has_bin = kinds_contain_bin(&targets[i]);
        proof {
            assert(targets.deep_view()[i as int] == targets@[i as int].deep_view());
        }
        if has_bin {
            return false;
        }
        i = i + 1;
    }
    true
}

/// A target whose kinds include `bin` forces the application verdict, no
/// matter what other kinds stand beside it.
pub proof fn lemma_bin_target_forces_application(kinds: Seq<Seq<Seq<char>>>, i: int)
    requires
        0 <= i < kinds.len(),
        kinds[i].contains("bin"@),
    ensures
        !spec_is_library(kinds),
{
}

/// A unit with only non-`bin` targets, or none at all, is a library.
pub proof fn lemma_no_bin_target_is_library(kinds: Seq<Seq<Seq<char>>>)
    requires
        forall|i: int| 0 <= i < kinds.len() ==> !kinds[i].contains("bin"@),
    ensures
        spec_is_library(kinds),
{
}

/// Relies on `cargo_metadata::MetadataCommand`: runs the external
/// build-metadata provider for the given manifest and hands back each root
/// package target's kind tags as plain strings, or the provider's report
/// when the query fails or resolves no root package. The outcome depends
/// on the repository on disk, so nothing more is promised of it.
#[verifier::external_body]
fn query_target_kinds(manifest_path: &str) -> (r: Result<Vec<TargetKinds>, String>) {
    let metadata = match cargo_metadata::MetadataCommand::new().manifest_path(
        manifest_path,
    ).exec() {
        Ok(m) => m,
        Err(e) => return Err(format!("{:#?}", e)),
    };
    let package = match metadata.root_package() {
        Some(p) => p,
        None => return Err(format!("no root package for {}", manifest_path)),
    };
    Ok(
        package.targets.iter().map(
            |t| t.kind.iter().map(|k| k.to_string()).collect(),
        ).collect(),
    )
}

/// Queries the build-metadata provider for the manifest at `manifest_path`
/// and applies the decision rule of [`is_library_targets`] to whatever
/// targets came back. Which verdict that is depends on the repository on
/// disk; the rule itself is stated and proved on `is_library_targets`.
pub fn is_crate_lib(manifest_path: &str) -> (r: Result<bool, ClassificationError>) {
    match query_target_kinds(manifest_path) {
        Ok(targets) => Ok(is_library_targets(&targets)),
        Err(message) => Err(ClassificationError { message }),
    }
}

} // verus!
