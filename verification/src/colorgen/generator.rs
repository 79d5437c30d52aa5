//! The colours of a generated theme.

use vstd::prelude::*;

verus! {

/// A theme generated from album art.
#[derive(Debug, Clone, Copy)]
pub struct Theme {
    pub main: [u8; 3],
    pub accent: [u8; 3],
    /// The colour of lines already sung, where the theme has one.
    pub inactive: Option<[u8; 3]>,
    /// The colour of lines still to come, where the theme has one.
    pub upcoming: Option<[u8; 3]>,
}

} // verus!
