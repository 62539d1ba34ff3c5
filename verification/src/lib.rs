//! Discovery and classification of buildable units in a repository checkout.
//!
//! The crate locates build manifests within a bounded depth window, parses
//! them into plain package fields, classifies each unit as a library or an
//! application from its build-target kinds, assembles paired descriptor
//! records, and renders homogeneous record lists to CSV. A small utility
//! derives an `owner/repo` namespace from a remote URL.

pub mod classify;
pub mod csvout;
pub mod errors;
pub mod extract;
pub mod locator;
pub mod manifest;
pub mod namespace;
pub mod records;
pub mod strings;
