//! The provenance marker of facts that this extension proposes.
use vstd::prelude::*;

verus! {

/// Marker identifying facts emitted by this extension.
#[derive(Debug, Clone, Copy, PartialEq, Eq, Hash, Structural)]
pub struct Soter;

/// The canonical provenance value.
pub const SOTER_PROVENANCE: Soter = Soter;

impl Soter {
    /// The stable provenance string, `soter`.
    pub fn as_str(&self) -> (r: &'static str)
        ensures
            r@ == "soter"@,
    {
        "soter"
    }
}

} // verus!
