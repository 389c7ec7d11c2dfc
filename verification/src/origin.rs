//! A custom dispatch origin and its filter, separate from the asset
//! registry: callers may be dispatched under the `Dumbo` origin, and
//! `EnsureDumbo` is the check that admits exactly that origin.

use vstd::prelude::*;

verus! {

/// The custom origin recognised by this module.
#[derive(Clone, Copy, Debug, PartialEq, Eq, Structural)]
pub enum RawOrigin {
    Dumbo,
}

/// Origin filter that admits the `Dumbo` origin and hands any other
/// origin back to the caller unconsumed.
pub struct EnsureDumbo;

impl EnsureDumbo {
    /// Accepts an origin when it is `Dumbo`. As `RawOrigin` has that one
    /// variant, every origin of this type is admitted.
    pub fn try_origin(o: RawOrigin) -> (r: Result<(), RawOrigin>)
        ensures
            r == Ok::<(), RawOrigin>(()),
    {
        match o {
            RawOrigin::Dumbo => Ok(()),
        }
    }
}

} // verus!
