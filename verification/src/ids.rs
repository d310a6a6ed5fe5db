//! Fresh identifiers for new rows.

use vstd::prelude::*;

verus! {

/// Calls `uuid::Uuid::new_v4` and writes the identifier out as text. The
/// identifier is random: nothing is claimed of the text.
#[verifier::external_body]
pub(crate) fn fresh_id() -> String {
    uuid::Uuid::new_v4().to_string()
}

} // verus!
