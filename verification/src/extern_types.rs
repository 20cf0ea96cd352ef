//! Declarations that let verified signatures carry the decoder's types.
//! Both are opaque to the verifier; the trusted converters in the decode
//! module are the only code that looks inside them.

use vstd::prelude::*;

verus! {

#[verifier::external_type_specification]
#[verifier::external_body]
pub struct ExPetraGrid(petra_grid::Grid);

#[verifier::external_type_specification]
#[verifier::external_body]
pub struct ExPetraError(petra_grid::Error);

} // verus!
