//! Locating manifest files within a bounded depth window.

use vstd::prelude::*;
use crate::strings::str_eq;

verus! {

/// One entry met while walking the repository tree: its path and its final
/// path segment.
#[derive(Debug, Clone)]
pub struct WalkEntry {
    pub path: String,
    pub file_name: String,
}

/// The manifest filename that marks a buildable unit.
pub open spec fn spec_manifest_name() -> Seq<char> {
    "Cargo.toml"@
}

/// The depth window the locator searches, measured from the repository
/// root: `{1, 2}` when a manifest sits directly under the root (a simple
/// project or a depth-1 workspace), `{2, 3}` for an `owner/project`
/// nesting without a root manifest.
pub open spec fn spec_depth_window(has_root_manifest: bool) -> (usize, usize) {
    if has_root_manifest {
        (1usize, 2usize)
    } else {
        (2usize, 3usize)
    }
}

/// Chooses the depth window to search from whether the root itself holds a
/// manifest.
pub fn choose_depth_window(has_root_manifest: bool) -> (r: (usize, usize))
    ensures
        r == spec_depth_window(has_root_manifest),
{
    if has_root_manifest {
        (1, 2)
    } else {
        (2, 3)
    }
}

/// The locator's depth policy: a manifest directly under the root selects
/// the window `{1, 2}`; the absence of a root manifest selects `{2, 3}`.
pub proof fn lemma_depth_window_policy(root_file_names: Seq<Seq<char>>)
    ensures
        root_file_names.contains(spec_manifest_name()) ==> spec_depth_window(
            root_file_names.contains(spec_manifest_name()),
        ) == (1usize, 2usize),
        !root_file_names.contains(spec_manifest_name()) ==> spec_depth_window(
            root_file_names.contains(spec_manifest_name()),
        ) == (2usize, 3usize),
{
}

/// Whether a manifest stands directly under the repository root, decided
/// from the names of the files found there.
pub fn exists_cargo_toml(root_file_names: &Vec<String>) -> (r: bool)
    ensures
        r == root_file_names.deep_view().contains(spec_manifest_name()),
{
    let mut i: usize = 0;
    while i < root_file_names.len()
        invariant
            i <= root_file_names@.len(),
            forall|j: int| 0 <= j < i ==> root_file_names.deep_view()[j] != spec_manifest_name(),
        decreases root_file_names@.len() - i,
    {
        if str_eq(root_file_names[i].as_str(), "Cargo.toml") {
            proof {
                assert(root_file_names.deep_view()[i as int] == spec_manifest_name());
            }
            return true;
        }
        i = i + 1;
    }
    proof {
        assert(forall|j: int|
            0 <= j < root_file_names.deep_view().len() ==> root_file_names.deep_view()[j]
                != spec_manifest_name());
    }
    false
}

/// The paths of the walked entries whose final segment is the manifest
/// filename, in walk order.
pub open spec fn spec_manifest_paths(entries: Seq<WalkEntry>) -> Seq<Seq<char>>
    decreases entries.len(),
{
    if entries.len() == 0 {
        Seq::empty()
    } else {
        let init = spec_manifest_paths(entries.drop_last());
        if entries.last().file_name@ == spec_manifest_name() {
            init.push(entries.last().path@)
        } else {
            init
        }
    }
}

/// Keeps, in order, the paths of exactly those entries named like a
/// manifest.
pub fn filter_manifest_entries(entries: &Vec<WalkEntry>) -> (r: Vec<String>)
    ensures
        r.deep_view() == spec_manifest_paths(entries@),
{
    let mut r: Vec<String> = Vec::new();
    let mut i: usize = 0;
    while i < entries.len()
        invariant
            i <= entries@.len(),
            r.deep_view() == spec_manifest_paths(entries@.take(i as int)),
        decreases entries@.len() - i,
    {
        proof {
            assert(entries@.take(i + 1).drop_last() =~= entries@.take(i as int));
            assert(entries@.take(i + 1).last() == entries@[i as int]);
        }
        if str_eq(entries[i].file_name.as_str(), "Cargo.toml") {
            r.push(entries[i].path.clone());
            proof {
                assert(r.deep_view() =~= spec_manifest_paths(entries@.take(i + 1)));
            }
        } else {
            proof {
                assert(r.deep_view() =~= spec_manifest_paths(entries@.take(i + 1)));
            }
        }
        i = i + 1;
    }
    proof {
        assert(entries@.take(entries@.len() as int) =~= entries@);
    }
    r
}

/// Relies on `walkdir::WalkDir`: walks the tree under `root` between the
/// two depth bounds, skipping entries that error during traversal, and
/// hands each entry back as its path and final segment in plain strings.
/// What comes back depends on the directory tree on disk, so nothing more
/// is promised of it.
#[verifier::external_body]
fn walk_entries(root: &str, min_depth: usize, max_depth: usize) -> (r: Vec<WalkEntry>) {
    walkdir::WalkDir::new(root).min_depth(min_depth).max_depth(max_depth).into_iter().filter_map(
        |x| x.ok(),
    ).map(
        |e| WalkEntry {
            path: e.path().to_string_lossy().into_owned(),
            file_name: e.file_name().to_string_lossy().into_owned(),
        },
    ).collect()
}

/// Walks the repository under `root` within the depth window chosen by
/// [`choose_depth_window`] and yields the paths of the entries named like
/// a manifest, in walk order. Which paths those are depends on the tree on
/// disk; the selection rule is stated and proved on
/// [`filter_manifest_entries`].
pub fn locate_manifests(root: &str, has_root_manifest: bool) -> (r: Vec<String>) {
    let window = choose_depth_window(has_root_manifest);
    let entries = walk_entries(root, window.0, window.1);
    filter_manifest_entries(&entries)
}

} // verus!
