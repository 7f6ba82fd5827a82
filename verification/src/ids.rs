//! Fresh identifiers.

use vstd::prelude::*;

verus! {

/// Makes a fresh random id with `uuid::Uuid::new_v4` and prints it through
/// the id's `Display`. Trusted: the text is in the hyphenated form, 36
/// characters long; which id comes is open.
#[verifier::external_body]
pub(crate) fn fresh_id() -> (r: String)
    ensures
        r@.len() == 36,
{
    uuid::Uuid::new_v4().to_string()
}

} // verus!
