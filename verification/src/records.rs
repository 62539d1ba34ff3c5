//! The paired descriptor records produced for each discovered unit.

use vstd::prelude::*;

verus! {

/// Generic descriptor of one buildable unit. All units discovered in one
/// extraction run share the same `id`; the three trailing optional fields
/// are reserved for provenance data not derivable from the manifest.
#[derive(Debug, Clone)]
pub struct Program {
    pub id: String,
    pub name: String,
    pub description: Option<String>,
    pub namespace: Option<String>,
    pub version: Option<String>,
    pub repo_url: Option<String>,
    pub doc_url: Option<String>,
    pub origin: Option<String>,
}

impl Program {
    /// Plain construction; every field comes from the arguments.
    #[allow(clippy::too_many_arguments)]
    pub fn new(
        id: String,
        name: String,
        description: Option<String>,
        namespace: Option<String>,
        version: Option<String>,
        repo_url: Option<String>,
        doc_url: Option<String>,
        origin: Option<String>,
    ) -> (r: Program)
        ensures
            r.id == id,
            r.name == name,
            r.description == description,
            r.namespace == namespace,
            r.version == version,
            r.repo_url == repo_url,
            r.doc_url == doc_url,
            r.origin == origin,
    {
        Program { id, name, description, namespace, version, repo_url, doc_url, origin }
    }
}

/// The variant record of a unit that produces only non-executable artifacts.
#[derive(Debug, Clone)]
pub struct Library {
    pub id: String,
    pub name: String,
    /// Usage counter; `-1` is the sentinel for "not yet known".
    pub usage_count: i64,
    /// Auxiliary registry reference, absent at discovery time.
    pub registry: Option<String>,
}

impl Library {
    /// Plain construction; every field comes from the arguments.
    pub fn new(id: &str, name: &str, usage_count: i64, registry: Option<String>) -> (r: Library)
        ensures
            r.id@ == id@,
            r.name@ == name@,
            r.usage_count == usage_count,
            r.registry == registry,
    {
        Library { id: id.to_owned(), name: name.to_owned(), usage_count, registry }
    }
}

/// The variant record of a unit that produces at least one executable.
#[derive(Debug, Clone)]
pub struct Application {
    pub id: String,
    pub name: String,
}

impl Application {
    /// Plain construction; every field comes from the arguments.
    pub fn new(id: String, name: &str) -> (r: Application)
        ensures
            r.id == id,
            r.name@ == name@,
    {
        Application { id, name: name.to_owned() }
    }
}

/// The tagged variant record: exactly one is produced per manifest, and its
/// tag agrees with the classifier's verdict for that manifest.
#[derive(Debug, Clone)]
pub enum UProgram {
    Library(Library),
    Application(Application),
}

impl UProgram {
    /// The run identifier carried by either variant.
    pub open spec fn spec_id(&self) -> Seq<char> {
        match self {
            UProgram::Library(l) => l.id@,
            UProgram::Application(a) => a.id@,
        }
    }

    /// The unit name carried by either variant.
    pub open spec fn spec_name(&self) -> Seq<char> {
        match self {
            UProgram::Library(l) => l.name@,
            UProgram::Application(a) => a.name@,
        }
    }

    /// Whether the record is tagged as a library.
    pub open spec fn spec_is_library(&self) -> bool {
        self matches UProgram::Library(_)
    }

    /// The run identifier carried by either variant.
    pub fn id(&self) -> (r: &str)
        ensures
            r@ == self.spec_id(),
    {
        match self {
            UProgram::Library(l) => l.id.as_str(),
            UProgram::Application(a) => a.id.as_str(),
        }
    }

    /// The unit name carried by either variant.
    pub fn name(&self) -> (r: &str)
        ensures
            r@ == self.spec_name(),
    {
        match self {
            UProgram::Library(l) => l.name.as_str(),
            UProgram::Application(a) => a.name.as_str(),
        }
    }

    /// Whether the record is tagged as a library.
    pub fn is_library(&self) -> (r: bool)
        ensures
            r == self.spec_is_library(),
    {
        match self {
            UProgram::Library(_) => true,
            UProgram::Application(_) => false,
        }
    }
}

} // verus!
