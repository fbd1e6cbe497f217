//! Host types that pass through the library's interfaces.
use vstd::prelude::*;

verus! {

/// The contract environment. The library carries it through its
/// signatures so that host-side callers can pass their environment along;
/// no verified routine reads from it.
#[verifier::external_type_specification]
#[verifier::external_body]
pub struct ExEnv(soroban_sdk::Env);

} // verus!
