use vstd::prelude::*;
use crate::error::SwapverseError;
use crate::key::AccountKey;

verus! {

/// The number of stable-coin mints that the program accepts.
pub const NUM_TOKEN_MINTS: usize = 5;

/// The program-wide state: the accepted stable-coin mints, the bump of the
/// program's signing authority, and how many pools have been created.
#[derive(Clone, Copy, Debug)]
pub struct GlobalState {
    pub token_mints: [AccountKey; 5],
    pub signing_authority_bump: u8,
    pub no_of_swap_pools: u64,
}

impl GlobalState {
    /// Whether `mint` is one of the accepted stable-coin mints.
    pub open spec fn lists_mint(self, mint: Seq<u8>) -> bool {
        exists|i: int| 0 <= i < NUM_TOKEN_MINTS && #[trigger] self.token_mints@[i]@ == mint
    }

    /// Records the accepted mints and the signing authority's bump, and
    /// starts the pool count at zero.
    pub fn initialize(&mut self, token_mints: [AccountKey; 5], signing_authority_bump: &u8) -> (r: Result<(), SwapverseError>)
        ensures
            r is Ok,
            final(self).token_mints@ == token_mints@,
            final(self).signing_authority_bump == *signing_authority_bump,
            final(self).no_of_swap_pools == 0,
    {
        self.token_mints = token_mints;
        self.signing_authority_bump = *signing_authority_bump;
        self.no_of_swap_pools = 0;
        Ok(())
    }
}

impl Default for GlobalState {
    fn default() -> (r: GlobalState)
        ensures
            r.signing_authority_bump == 0,
            r.no_of_swap_pools == 0,
            forall|i: int| 0 <= i < NUM_TOKEN_MINTS ==> #[trigger] r.token_mints@[i]@ == Seq::new(32, |j: int| 0u8),
    {
        let z = AccountKey::zeroed();
        GlobalState { token_mints: [z, z, z, z, z], signing_authority_bump: 0, no_of_swap_pools: 0 }
    }
}

/// Whether `mint_address` is one of the stable-coin mints that the global
/// state accepts.
pub fn is_mint_valid(global_state: &GlobalState, mint_address: AccountKey) -> (r: bool)
    ensures
        r == global_state.lists_mint(mint_address@),
{
    let mut i: usize = 0;
    while i < NUM_TOKEN_MINTS
        invariant
            i <= NUM_TOKEN_MINTS,
            forall|j: int| 0 <= j < i ==> #[trigger] global_state.token_mints@[j]@ != mint_address@,
        decreases NUM_TOKEN_MINTS - i,
    {
        if global_state.token_mints[i].same_as(&mint_address) {
            return true;
        }
        i = i + 1;
    }
    false
}

} // verus!
