//! Settings that outlive a power cycle.

use vstd::prelude::*;

pub mod channel_settings;

verus! {

/// A semantic version number.
#[derive(Clone, Copy, Debug, PartialEq, Eq, Structural)]
pub struct SemVersion {
    pub major: u8,
    pub minor: u8,
    pub patch: u8,
}

} // verus!
