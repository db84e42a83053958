use vstd::prelude::*;

verus! {

/// Settings kept in the application's data folder.
#[derive(Debug, Clone, Copy, PartialEq, Eq, Structural)]
pub struct Settings {
    pub version: Option<i32>,
}

} // verus!
