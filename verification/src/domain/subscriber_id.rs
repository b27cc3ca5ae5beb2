//! The identifier of a subscriber.

use vstd::prelude::*;

verus! {

/// `uuid::Uuid`, the identifier under which the store keeps a subscriber.
/// The workflows hand it on and never look inside.
#[verifier::external_type_specification]
#[verifier::external_body]
pub struct ExUuid(uuid::Uuid);

} // verus!
