//! Legacy package compatibility: metadata of an installed editor package.

use vstd::prelude::*;

verus! {

/// Metadata of a legacy editor package, as its manifest declares it.
/// Dependency maps are key/value pairs with unique keys.
#[derive(Debug, Clone, PartialEq)]
pub struct AtomPackage {
    pub name: String,
    pub version: String,
    pub description: Option<String>,
    pub main: Option<String>,
    pub keywords: Option<Vec<String>>,
    pub repository: Option<String>,
    pub dependencies: Option<Vec<(String, String)>>,
    pub engines: Option<Vec<(String, String)>>,
}

} // verus!
