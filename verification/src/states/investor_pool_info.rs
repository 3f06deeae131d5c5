use vstd::prelude::*;
use crate::key::AccountKey;

verus! {

/// An investor's record in one pool: who invested, in which pool, and how
/// much of the pool's profit in each token has already been paid out.
#[derive(Clone, Copy, Debug)]
pub struct InvestorPoolInfo {
    pub investor: AccountKey,
    pub swap_pool: AccountKey,
    pub profit_for_token_a_withdrawn: u64,
    pub profit_for_token_b_withdrawn: u64,
}

impl Default for InvestorPoolInfo {
    /// The record of a freshly created account: all zero.
    fn default() -> (r: InvestorPoolInfo)
        ensures
            r.investor@ == Seq::new(32, |j: int| 0u8),
            r.swap_pool@ == Seq::new(32, |j: int| 0u8),
            r.profit_for_token_a_withdrawn == 0,
            r.profit_for_token_b_withdrawn == 0,
    {
        InvestorPoolInfo {
            investor: AccountKey::zeroed(),
            swap_pool: AccountKey::zeroed(),
            profit_for_token_a_withdrawn: 0,
            profit_for_token_b_withdrawn: 0,
        }
    }
}

} // verus!
