//! Parsing a manifest text into plain package fields.

use vstd::prelude::*;
use crate::errors::ParseError;
use crate::records::Program;

verus! {

/// The plain package fields read from one manifest document. Each field is
/// present exactly when the document declares it as a string.
#[derive(Debug, Clone)]
pub struct ManifestFields {
    pub name: Option<String>,
    pub version: Option<String>,
    pub description: Option<String>,
}

/// Ghost image of [`ManifestFields`], character sequences in place of
/// strings.
pub ghost struct ManifestFieldsView {
    pub name: Option<Seq<char>>,
    pub version: Option<Seq<char>>,
    pub description: Option<Seq<char>>,
}

impl View for ManifestFields {
    type V = ManifestFieldsView;

    open spec fn view(&self) -> ManifestFieldsView {
        ManifestFieldsView {
            name: self.name.deep_view(),
            version: self.version.deep_view(),
            description: self.description.deep_view(),
        }
    }
}

impl DeepView for ManifestFields {
    type V = ManifestFieldsView;

    open spec fn deep_view(&self) -> ManifestFieldsView {
        self.view()
    }
}

/// What the document parser yields for a manifest text: `None` when the
/// text is not valid document syntax; otherwise the three package fields,
/// each present exactly when `package.<field>` exists and is a string.
pub uninterp spec fn toml_package_fields(text: Seq<char>) -> Option<ManifestFieldsView>;

/// Relies on `toml`: `str::parse::<toml::Table>` rejects invalid document
/// syntax, and `Table::get` / `Value::get` / `Value::as_str` read the
/// `package` table's `name`, `version` and `description` entries. The
/// outcome depends on the text alone.
#[verifier::external_body]
fn read_package_fields(content: &str) -> (r: Option<ManifestFields>)
    ensures
        r.deep_view() == toml_package_fields(content@),
{
    let table: toml::Table = match content.parse() {
        Ok(t) => t,
        Err(_) => return None,
    };
    let pkg = table.get("package");
    Some(ManifestFields {
        name: pkg.and_then(|p| p.get("name")).and_then(|v| v.as_str()).map(|s| s.to_owned()),
        version: pkg.and_then(|p| p.get("version")).and_then(|v| v.as_str()).map(
            |s| s.to_owned(),
        ),
        description: pkg.and_then(|p| p.get("description")).and_then(|v| v.as_str()).map(
            |s| s.to_owned(),
        ),
    })
}

/// Reads the declared package name of a manifest text: the name of the
/// unit, whether it builds a library or a binary.
pub fn parse_crate_name(content: &str) -> (r: Result<String, ParseError>)
    ensures
        match r {
            Ok(name) => toml_package_fields(content@) matches Some(f) && f.name == Some(
                name@,
            ),
            Err(e) => match e {
                ParseError::InvalidSyntax => toml_package_fields(content@) is None,
                ParseError::MissingPackageName => toml_package_fields(content@) matches Some(f)
                    && f.name is None,
            },
        },
{
    match read_package_fields(content) {
        None => Err(ParseError::InvalidSyntax),
        Some(f) => match f.name {
            Some(n) => Ok(n),
            None => Err(ParseError::MissingPackageName),
        },
    }
}

/// Builds the generic descriptor for one manifest text: the declared name,
/// version and description, under the given run identifier. Fields the
/// document omits stay absent; a document without a package name is
/// rejected.
pub fn from_cargo_toml(content: &str, id: &str) -> (r: Result<Program, ParseError>)
    ensures
        match r {
            Ok(p) => toml_package_fields(content@) matches Some(f) && f.name matches Some(n)
                && p.id@ == id@ && p.name@ == n && p.description.deep_view() == f.description
                && p.version.deep_view() == f.version && p.namespace is None
                && p.repo_url is None && p.doc_url is None && p.origin is None,
            Err(e) => match e {
                ParseError::InvalidSyntax => toml_package_fields(content@) is None,
                ParseError::MissingPackageName => toml_package_fields(content@) matches Some(f)
                    && f.name is None,
            },
        },
{
    match read_package_fields(content) {
        None => Err(ParseError::InvalidSyntax),
        Some(f) => match f.name {
            Some(n) => Ok(
                Program::new(
                    id.to_owned(),
                    n,
                    f.description,
                    None,
                    f.version,
                    None,
                    None,
                    None,
                ),
            ),
            None => Err(ParseError::MissingPackageName),
        },
    }
}

} // verus!
