//! Fresh identifiers.

use vstd::prelude::*;

verus! {

/// How many characters an identifier has when it is written out.
pub const UUID_LENGTH: usize = 36;

/// Calls `uuid::Uuid::new_v4` and writes the identifier out with `to_string`, which
/// goes through the hyphenated form. The identifier is random: all that is claimed of
/// it is the length of that form, 36 characters.
#[verifier::external_body]
pub(crate) fn new_uuid() -> (r: String)
    ensures
        r@.len() == UUID_LENGTH,
{
    uuid::Uuid::new_v4().to_string()
}

} // verus!
