//! Error taxonomy of the pipeline.

use vstd::prelude::*;

verus! {

/// A manifest could not be turned into package fields.
#[derive(Debug, Clone, PartialEq, Eq, Structural)]
pub enum ParseError {
    /// The manifest text is not a valid document.
    InvalidSyntax,
    /// The document carries no package name.
    MissingPackageName,
}

/// A remote URL could not be turned into an `owner/repo` namespace.
#[derive(Debug, Clone, PartialEq, Eq, Structural)]
pub enum FormatError {
    /// The text is not a valid URL, or its path cannot be split into segments.
    InvalidUrl,
    /// The URL has fewer than two path segments.
    MissingSegments,
}

/// The build-metadata query for a manifest failed.
#[derive(Debug, Clone)]
pub struct ClassificationError {
    /// What the metadata provider reported.
    pub message: String,
}

} // verus!
