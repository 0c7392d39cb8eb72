//! Declaration of the outside identifier type that runs through the
//! engine's contracts. The value is opaque here: the library stores and
//! compares it but never looks inside.

use vstd::prelude::*;

verus! {

#[verifier::external_type_specification]
#[verifier::external_body]
pub struct ExUuid(uuid::Uuid);

} // verus!
