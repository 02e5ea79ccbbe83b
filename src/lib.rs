//! Accounting core of a concentrated-liquidity market maker: pool state, a
//! paged tick ledger, owner positions, and the add-liquidity operation.
use vstd::prelude::*;

pub mod errors;
pub mod mint;
pub mod pool;
pub mod position;
pub mod tick;

verus! {

/// The account identifier of the host chain. Values of it are only carried
/// through and never inspected by the logic here.
#[verifier::external_type_specification]
#[verifier::external_body]
pub struct ExPubkey(anchor_lang::prelude::Pubkey);

} // verus!
