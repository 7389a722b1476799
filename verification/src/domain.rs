//! Mail domains.

use vstd::prelude::*;

verus! {

/// A domain under which addresses can be created.
#[derive(Debug, PartialEq, Eq)]
pub struct Domain {
    pub id: i32,
    pub name: String,
    pub enabled: bool,
}

} // verus!
