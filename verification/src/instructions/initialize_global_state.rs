use vstd::prelude::*;
use crate::error::SwapverseError;
use crate::key::AccountKey;
use crate::states::GlobalState;

verus! {

/// What the set-up of the program reads and writes: the global state and the
/// five stable-coin mints.
#[derive(Clone, Copy, Debug)]
pub struct InitializeGlobalState {
    pub global_state: GlobalState,
    pub usdc_token_mint: AccountKey,
    pub usdt_token_mint: AccountKey,
    pub uxd_token_mint: AccountKey,
    pub pai_token_mint: AccountKey,
    pub usdh_token_mint: AccountKey,
}

impl InitializeGlobalState {
    /// Records the five stable-coin mints, in this order, and the signing
    /// authority's bump; no pool exists yet.
    pub fn initialize_global_state(&mut self, signing_authority_bump: &u8) -> (r: Result<(), SwapverseError>)
        ensures
            r is Ok,
            final(self).global_state.token_mints@ == seq![
                old(self).usdc_token_mint,
                old(self).usdt_token_mint,
                old(self).uxd_token_mint,
                old(self).pai_token_mint,
                old(self).usdh_token_mint,
            ],
            final(self).global_state.signing_authority_bump == *signing_authority_bump,
            final(self).global_state.no_of_swap_pools == 0,
            (*final(self) == InitializeGlobalState { global_state: final(self).global_state, ..*old(self) }),
    {
        let token_mints = [
            self.usdc_token_mint,
            self.usdt_token_mint,
            self.uxd_token_mint,
            self.pai_token_mint,
            self.usdh_token_mint,
        ];
        let r = self.global_state.initialize(token_mints, signing_authority_bump);
        assert(self.global_state.token_mints@ =~= seq![
            self.usdc_token_mint,
            self.usdt_token_mint,
            self.uxd_token_mint,
            self.pai_token_mint,
            self.usdh_token_mint,
        ]);
        r
    }
}

} // verus!
