//! Assembling the paired records for each discovered manifest.

use vstd::prelude::*;
use crate::classify::is_crate_lib;
use crate::manifest::from_cargo_toml;
use crate::manifest::parse_crate_name;
use crate::manifest::toml_package_fields;
use crate::records::Application;
use crate::records::Library;
use crate::records::Program;
use crate::records::UProgram;

verus! {

/// The usage-counter sentinel a fresh library record starts with.
pub open spec fn spec_unknown_usage() -> i64 {
    -1i64
}

/// What an assembled pair must satisfy for a given document text, run
/// token and library/application answer: the descriptor holds the fields
/// the document declares; the variant record agrees with the answer,
/// repeats the descriptor's name and `id`, and a fresh library starts at
/// the usage sentinel with no registry reference.
pub open spec fn spec_pair_ok(
    pair: (Program, UProgram),
    text: Seq<char>,
    id: Seq<char>,
    is_library: bool,
) -> bool {
    &&& toml_package_fields(text) matches Some(f) && f.name matches Some(n)
        && pair.0.name@ == n && pair.0.description.deep_view() == f.description
        && pair.0.version.deep_view() == f.version
    &&& pair.0.id@ == id
    &&& pair.0.namespace is None
    &&& pair.0.repo_url is None
    &&& pair.0.doc_url is None
    &&& pair.0.origin is None
    &&& pair.1.spec_id() == pair.0.id@
    &&& pair.1.spec_name() == pair.0.name@
    &&& pair.1.spec_is_library() == is_library
    &&& (pair.1 matches UProgram::Library(l) ==> l.usage_count == spec_unknown_usage()
        && l.registry is None)
}

/// Whether a manifest text yields no record at all: invalid document
/// syntax, or no declared package name.
pub open spec fn spec_manifest_rejected(text: Seq<char>) -> bool {
    ||| toml_package_fields(text) is None
    ||| toml_package_fields(text) matches Some(f) && f.name is None
}

/// Round trip of identity: the two records of any assembled pair carry
/// the same unit name and the same run identifier.
pub proof fn lemma_pair_shares_identity(
    pair: (Program, UProgram),
    text: Seq<char>,
    id: Seq<char>,
    is_library: bool,
)
    requires
        spec_pair_ok(pair, text, id, is_library),
    ensures
        pair.1.spec_id() == pair.0.id@,
        pair.1.spec_name() == pair.0.name@,
        pair.0.id@ == id,
{
}

/// Assembles the record pair for one manifest text, given the run
/// identifier and the classifier's verdict. Pure construction: yields
/// `None` exactly when the text is rejected, and otherwise one pair that
/// satisfies [`spec_pair_ok`].
pub fn assemble_for_manifest(content: &str, id: &str, is_library: bool) -> (r: Option<
    (Program, UProgram),
>)
    ensures
        match r {
            Some(pair) => spec_pair_ok(pair, content@, id@, is_library),
            None => spec_manifest_rejected(content@),
        },
{
    let name = match parse_crate_name(content) {
        Ok(n) => n,
        Err(_) => {
            return None;
        },
    };
    let program = match from_cargo_toml(content, id) {
        Ok(p) => p,
        Err(_) => {
            proof {
                assert(false);
            }
            return None;
        },
    };
    let uprogram = if is_library {
        UProgram::Library(Library::new(id, name.as_str(), -1, None))
    } else {
        UProgram::Application(Application::new(id.to_owned(), name.as_str()))
    };
    Some((program, uprogram))
}

/// Assembles the record pair for one manifest, querying the external
/// build-metadata provider at `manifest_path` for the verdict. Yields
/// `None` when the text is rejected — so one bad manifest never aborts a
/// batch — or when the metadata query fails, which depends on the
/// repository on disk; any pair produced is consistent with the verdict
/// that came back.
pub fn extract_from_manifest(content: &str, manifest_path: &str, id: &str) -> (r: Option<
    (Program, UProgram),
>)
    ensures
        spec_manifest_rejected(content@) ==> r is None,
        r matches Some(pair) ==> spec_pair_ok(
            pair,
            content@,
            id@,
            pair.1.spec_is_library(),
        ),
{
    match parse_crate_name(content) {
        Ok(_) => (),
        Err(_) => {
            return None;
        },
    }
    let is_library = match is_crate_lib(manifest_path) {
        Ok(b) => b,
        Err(_) => {
            return None;
        },
    };
    assemble_for_manifest(content, id, is_library)
}

/// One manifest already read and classified: its text and the verdict the
/// build-metadata provider gave for it.
#[derive(Debug, Clone)]
pub struct ManifestSource {
    pub content: String,
    pub is_library: bool,
}

/// The record pairs owed for a batch of read-and-classified manifests, in
/// order: one per accepted manifest, none for a rejected one.
pub open spec fn spec_batch_len(inputs: Seq<ManifestSource>) -> nat
    decreases inputs.len(),
{
    if inputs.len() == 0 {
        0
    } else {
        spec_batch_len(inputs.drop_last()) + if spec_manifest_rejected(
            inputs.last().content@,
        ) {
            0nat
        } else {
            1nat
        }
    }
}

/// The index into a batch that produced output position `j`: the `j`-th
/// accepted input.
pub open spec fn spec_batch_source(inputs: Seq<ManifestSource>, j: int) -> int
    decreases inputs.len(),
{
    if inputs.len() == 0 {
        0
    } else if spec_batch_len(inputs.drop_last()) <= j {
        inputs.len() - 1
    } else {
        spec_batch_source(inputs.drop_last(), j)
    }
}

/// The source of every output position lies inside the batch.
pub proof fn lemma_batch_source_in_range(inputs: Seq<ManifestSource>, j: int)
    requires
        0 <= j < spec_batch_len(inputs),
    ensures
        0 <= spec_batch_source(inputs, j) < inputs.len(),
    decreases inputs.len(),
{
    if inputs.len() > 0 && spec_batch_len(inputs.drop_last()) > j {
        lemma_batch_source_in_range(inputs.drop_last(), j);
    }
}

/// Later output positions come from later inputs: a batch keeps the
/// order its manifests came in.
pub proof fn lemma_batch_keeps_order(inputs: Seq<ManifestSource>, j1: int, j2: int)
    requires
        0 <= j1 < j2 < spec_batch_len(inputs),
    ensures
        spec_batch_source(inputs, j1) < spec_batch_source(inputs, j2),
    decreases inputs.len(),
{
    let front_len = spec_batch_len(inputs.drop_last());
    if front_len <= j2 {
        assert(j1 < front_len);
        lemma_batch_source_in_range(inputs.drop_last(), j1);
    } else {
        lemma_batch_keeps_order(inputs.drop_last(), j1, j2);
    }
}

/// Extracts the record pairs for a whole batch of read-and-classified
/// manifests under one run identifier. A rejected manifest is dropped in
/// isolation: the batch always completes, yielding exactly one pair per
/// accepted manifest, in input order.
pub fn extract_from_contents(inputs: &Vec<ManifestSource>, id: &str) -> (r: Vec<
    (Program, UProgram),
>)
    ensures
        r@.len() == spec_batch_len(inputs@),
        forall|j: int|
            0 <= j < r@.len() ==> {
                let k = #[trigger] spec_batch_source(inputs@, j);
                &&& 0 <= k < inputs@.len()
                &&& !spec_manifest_rejected(inputs@[k].content@)
                &&& spec_pair_ok(r@[j], inputs@[k].content@, id@, inputs@[k].is_library)
            },
{
    let mut r: Vec<(Program, UProgram)> = Vec::new();
    let mut i: usize = 0;
    while i < inputs.len()
        invariant
            i <= inputs@.len(),
            r@.len() == spec_batch_len(inputs@.take(i as int)),
            forall|j: int|
                0 <= j < r@.len() ==> {
                    let k = #[trigger] spec_batch_source(inputs@.take(i as int), j);
                    &&& 0 <= k < i
                    &&& !spec_manifest_rejected(inputs@[k].content@)
                    &&& spec_pair_ok(r@[j], inputs@[k].content@, id@, inputs@[k].is_library)
                },
        decreases inputs@.len() - i,
    {
        proof {
            assert(inputs@.take(i + 1).drop_last() =~= inputs@.take(i as int));
            assert(inputs@.take(i + 1).last() == inputs@[i as int]);
            lemma_batch_source_extend(inputs@, i as int);
        }
        match assemble_for_manifest(
            inputs[i].content.as_str(),
            id,
            inputs[i].is_library,
        ) {
            Some(pair) => {
                proof {
                    assert(!spec_manifest_rejected(inputs@[i as int].content@));
                }
                r.push(pair);
            },
            None => (),
        }
        proof {
            assert forall|j: int| 0 <= j < r@.len() implies {
                let k = #[trigger] spec_batch_source(inputs@.take(i + 1), j);
                &&& 0 <= k < i + 1
                &&& !spec_manifest_rejected(inputs@[k].content@)
                &&& spec_pair_ok(r@[j], inputs@[k].content@, id@, inputs@[k].is_library)
            } by {
                if j < spec_batch_len(inputs@.take(i as int)) {
                    assert(spec_batch_source(inputs@.take(i + 1), j) == spec_batch_source(
                        inputs@.take(i as int),
                        j,
                    ));
                    assert({
                        let k = spec_batch_source(inputs@.take(i as int), j);
                        &&& 0 <= k < i
                        &&& !spec_manifest_rejected(inputs@[k].content@)
                        &&& spec_pair_ok(r@[j], inputs@[k].content@, id@, inputs@[k].is_library)
                    });
                } else {
                    assert(spec_batch_source(inputs@.take(i + 1), j) == i);
                }
            }
        }
        i = i + 1;
    }
    proof {
        assert(inputs@.take(inputs@.len() as int) =~= inputs@);
    }
    r
}

/// Growing a batch by one input leaves the sources of the existing output
/// positions unchanged.
proof fn lemma_batch_source_extend(inputs: Seq<ManifestSource>, i: int)
    requires
        0 <= i < inputs.len(),
    ensures
        forall|j: int|
            0 <= j < spec_batch_len(inputs.take(i)) ==> spec_batch_source(
                inputs.take(i + 1),
                j,
            ) == #[trigger] spec_batch_source(inputs.take(i), j),
        !spec_manifest_rejected(inputs[i].content@) ==> spec_batch_source(
            inputs.take(i + 1),
            spec_batch_len(inputs.take(i)) as int,
        ) == i,
{
    assert(inputs.take(i + 1).drop_last() =~= inputs.take(i));
}

} // verus!
