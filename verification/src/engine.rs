//! What is known of the program that renders.

use vstd::prelude::*;

verus! {

/// The program that the renderer works for.
#[derive(Debug, PartialEq, Eq)]
pub struct Info {
    pub app_name: String,
}

} // verus!
