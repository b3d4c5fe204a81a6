//! Time spans as ntex counts them.
use vstd::prelude::*;

verus! {

/// `ntex::time::Seconds` is a plain span of whole seconds: its one field is public.
#[verifier::external_type_specification]
pub struct ExSeconds(ntex::time::Seconds);

} // verus!
