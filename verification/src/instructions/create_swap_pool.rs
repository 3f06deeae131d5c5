use vstd::prelude::*;
use crate::error::SwapverseError;
use crate::key::AccountKey;
use crate::states::global_state::is_mint_valid;
use crate::states::{GlobalState, SwapPool};

verus! {

/// What the creation of a pool reads and writes: the global state, the new
/// pool, its two stable-coin mints and its two pool-share mints.
#[derive(Clone, Copy, Debug)]
pub struct CreateSwapPool {
    pub global_state: GlobalState,
    pub swap_pool: SwapPool,
    pub token_a_mint: AccountKey,
    pub token_b_mint: AccountKey,
    pub pool_share_token_a_mint: AccountKey,
    pub pool_share_token_b_mint: AccountKey,
}

impl CreateSwapPool {
    /// The first account rule that the request breaks: both mints must be
    /// accepted stable coins, and they must differ.
    pub open spec fn accounts_error(self) -> Option<SwapverseError> {
        if !self.global_state.lists_mint(self.token_a_mint@) {
            Some(SwapverseError::InvalidTokenMint)
        } else if !self.global_state.lists_mint(self.token_b_mint@) {
            Some(SwapverseError::InvalidTokenMint)
        } else if self.token_b_mint@ == self.token_a_mint@ {
            Some(SwapverseError::SameTokenMints)
        } else {
            None
        }
    }

    /// Checks the mints of a pool creation request.
    pub fn check_accounts(&self) -> (r: Result<(), SwapverseError>)
        ensures
            r == (match self.accounts_error() {
                Some(e) => Err(e),
                None => Ok(()),
            }),
    {
        if !is_mint_valid(&self.global_state, self.token_a_mint) {
            Err(SwapverseError::InvalidTokenMint)
        } else if !is_mint_valid(&self.global_state, self.token_b_mint) {
            Err(SwapverseError::InvalidTokenMint)
        } else if self.token_b_mint.same_as(&self.token_a_mint) {
            Err(SwapverseError::SameTokenMints)
        } else {
            Ok(())
        }
    }

    /// Whether creating a pool with these initial amounts would overflow the
    /// pool count.
    pub fn create_would_abort(&self, initial_amount_a: u64, initial_amount_b: u64) -> (r: bool)
        ensures
            r == !(initial_amount_a == initial_amount_b ==> self.global_state.no_of_swap_pools < u64::MAX),
    {
        initial_amount_a == initial_amount_b && self.global_state.no_of_swap_pools.checked_add(1).is_none()
    }

    /// Creates the next pool at time `now`: it takes the current pool count as
    /// its number, and the count goes up by one. Both initial amounts must be
    /// the same.
    pub fn create_swap_pool(
        &mut self,
        initial_amount_a: u64,
        initial_amount_b: u64,
        swap_fee_percentage: u8,
        swapverse_fee_percentage: u8,
        min_investment_amount: u64,
        max_days_to_fill: u8,
        swap_life_in_days: u64,
        now: i64,
    ) -> (r: Result<(), SwapverseError>)
        requires
            initial_amount_a == initial_amount_b ==> old(self).global_state.no_of_swap_pools < u64::MAX,
        ensures
            initial_amount_a != initial_amount_b ==> r == Err::<(), SwapverseError>(SwapverseError::InitialAmountsNotSame),
            initial_amount_a == initial_amount_b ==> r is Ok,
            r is Err ==> *final(self) == *old(self),
            r is Ok ==> final(self).swap_pool.phase_is_consistent(),
            r is Ok ==> {
                &&& final(self).global_state == GlobalState {
                    no_of_swap_pools: (old(self).global_state.no_of_swap_pools + 1) as u64,
                    ..old(self).global_state
                }
                &&& final(self).swap_pool.is_fresh(
                    old(self).global_state.no_of_swap_pools,
                    old(self).token_a_mint,
                    old(self).token_b_mint,
                    old(self).pool_share_token_a_mint,
                    old(self).pool_share_token_b_mint,
                    initial_amount_a,
                    initial_amount_b,
                    swap_fee_percentage,
                    swapverse_fee_percentage,
                    min_investment_amount,
                    max_days_to_fill,
                    swap_life_in_days,
                    now,
                )
                &&& (*final(self) == CreateSwapPool {
                    global_state: final(self).global_state,
                    swap_pool: final(self).swap_pool,
                    ..*old(self)
                })
            },
    {
        if initial_amount_a != initial_amount_b {
            return Err(SwapverseError::InitialAmountsNotSame);
        }

        let pool_number = self.global_state.no_of_swap_pools;
        self.global_state.no_of_swap_pools = self.global_state.no_of_swap_pools + 1;

        self.swap_pool.initialize(
            pool_number,
            self.token_a_mint,
            self.token_b_mint,
            self.pool_share_token_a_mint,
            self.pool_share_token_b_mint,
            initial_amount_a,
            initial_amount_b,
            swap_fee_percentage,
            swapverse_fee_percentage,
            min_investment_amount,
            max_days_to_fill,
            swap_life_in_days,
            now,
        )
    }
}

} // verus!
