//! Package descriptors.
use vstd::prelude::*;

verus! {

/// An owned snapshot of one header's descriptive fields.
#[derive(Clone, Debug)]
pub struct Package {
    /// The package name.
    pub name: String,
    /// The version of the packaged software.
    pub version: String,
    /// The license it is distributed under.
    pub license: String,
    /// A one-line summary.
    pub summary: String,
    /// The longer description.
    pub description: String,
}

} // verus!
