use vstd::prelude::*;

pub mod wizard;
pub mod wtfm;

verus! {

/// The descriptor of the first format: a license by name and a count of
/// authors beside their list.
pub struct WtfmConfig {
    pub project_name: String,
    pub description: String,
    pub version: String,
    pub license: String,
    pub setup_ci: bool,
    pub author_quantity: u32,
    pub authors: Vec<Author>,
}

/// An author in the first format.
pub struct Author {
    pub name: String,
    pub email: String,
}

} // verus!
