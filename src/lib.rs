//! Policy core of a token-issuance platform: validation of allocation
//! policies, an oracle-driven treasury rebalancer and a symbol registry.
use vstd::prelude::*;

pub mod factory;
pub mod law;
pub mod oim;

verus! {

} // verus!
