use vstd::prelude::*;

verus! {

/// Unit of measure for a grid dimension.
///
/// The grid format encodes units as a code drawn from a closed set; the
/// decoder rejects any other code, so a decoded grid always carries one of
/// exactly these two members.
#[derive(Copy, Clone, Debug, PartialEq, Eq, Structural)]
pub enum UnitOfMeasure {
    /// feet
    Feet,
    /// meters
    Meters,
}

} // verus!
