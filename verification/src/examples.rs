//! Worked example requests attached to each tool for caller-facing
//! documentation. They are static data consumed by a rendering facility
//! outside this core; nothing here executes them.

use vstd::prelude::*;

verus! {

/// One worked example: a description and the request it describes.
pub struct Example<T> {
    pub description: String,
    pub item: T,
}

} // verus!
