//! The type of the `toml` crate that passes through the library unopened.

use vstd::prelude::*;

verus! {

#[verifier::external_type_specification]
#[verifier::external_body]
pub struct ExTomlValue(toml::Value);

} // verus!
