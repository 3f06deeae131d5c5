use vstd::prelude::*;
use crate::error::SwapverseError;
use crate::key::AccountKey;

verus! {

/// The `activated_at` of a pool that has not been activated yet.
pub const NOT_ACTIVATED: i64 = i64::MAX;

/// A swap pool between two stable coins: its life-cycle flags, its mints, its
/// terms, its times, and what it holds for its investors.
#[derive(Clone, Copy, Debug)]
pub struct SwapPool {
    pub pool_number: u64,
    pub active_for_swap: bool,
    pub open_for_investment: bool,
    pub open_for_withdrawal: bool,
    pub token_a_mint: AccountKey,
    pub token_b_mint: AccountKey,
    /// Mints of the tokens given to investors for their deposits.
    pub pool_share_token_a_mint: AccountKey,
    pub pool_share_token_b_mint: AccountKey,
    pub initial_amount_a: u64,
    pub initial_amount_b: u64,
    /// Percentage of a swap's output levied as fee.
    pub swap_fee_percentage: u8,
    /// Percentage of the collected fees that goes to the platform's treasury.
    pub swapverse_fee_percentage: u8,
    pub min_investment_amount: u64,
    /// Days from creation within which the pool must be filled.
    pub max_days_to_fill: u8,
    pub swap_life_in_days: u64,
    pub created_at: i64,
    pub activated_at: i64,
    pub token_a_amount_to_be_distributed: u64,
    pub token_b_amount_to_be_distributed: u64,
    pub profit_of_token_a_amount_to_be_distributed: u64,
    pub profit_of_token_b_amount_to_be_distributed: u64,
}

impl SwapPool {
    /// Whether the pool's life-cycle flags agree: a pool that takes
    /// investments is neither open for swapping nor for withdrawal.
    pub open spec fn phase_is_consistent(self) -> bool {
        self.open_for_investment ==> !self.active_for_swap && !self.open_for_withdrawal
    }

    /// Whether the pool has been activated for swapping.
    pub open spec fn is_activated(self) -> bool {
        self.activated_at != NOT_ACTIVATED
    }

    /// Whether this is a pool just set up at time `now` with the given number,
    /// mints and terms: open for investment only, not yet activated, with
    /// nothing to distribute.
    pub open spec fn is_fresh(
        self,
        pool_number: u64,
        token_a_mint: AccountKey,
        token_b_mint: AccountKey,
        pool_share_token_a_mint: AccountKey,
        pool_share_token_b_mint: AccountKey,
        initial_amount_a: u64,
        initial_amount_b: u64,
        swap_fee_percentage: u8,
        swapverse_fee_percentage: u8,
        min_investment_amount: u64,
        max_days_to_fill: u8,
        swap_life_in_days: u64,
        now: i64,
    ) -> bool {
        &&& self.pool_number == pool_number
        &&& !self.active_for_swap
        &&& self.open_for_investment
        &&& !self.open_for_withdrawal
        &&& self.token_a_mint@ == token_a_mint@
        &&& self.token_b_mint@ == token_b_mint@
        &&& self.pool_share_token_a_mint@ == pool_share_token_a_mint@
        &&& self.pool_share_token_b_mint@ == pool_share_token_b_mint@
        &&& self.initial_amount_a == initial_amount_a
        &&& self.initial_amount_b == initial_amount_b
        &&& self.swap_fee_percentage == swap_fee_percentage
        &&& self.swapverse_fee_percentage == swapverse_fee_percentage
        &&& self.min_investment_amount == min_investment_amount
        &&& self.max_days_to_fill == max_days_to_fill
        &&& self.swap_life_in_days == swap_life_in_days
        &&& self.created_at == now
        &&& self.activated_at == NOT_ACTIVATED
        &&& self.token_a_amount_to_be_distributed == 0
        &&& self.token_b_amount_to_be_distributed == 0
        &&& self.profit_of_token_a_amount_to_be_distributed == 0
        &&& self.profit_of_token_b_amount_to_be_distributed == 0
    }

    /// Sets up a new pool at time `now`: open for investment only, not yet
    /// activated, with nothing to distribute.
    pub fn initialize(
        &mut self,
        pool_number: u64,
        token_a_mint: AccountKey,
        token_b_mint: AccountKey,
        pool_share_token_a_mint: AccountKey,
        pool_share_token_b_mint: AccountKey,
        initial_amount_a: u64,
        initial_amount_b: u64,
        swap_fee_percentage: u8,
        swapverse_fee_percentage: u8,
        min_investment_amount: u64,
        max_days_to_fill: u8,
        swap_life_in_days: u64,
        now: i64,
    ) -> (r: Result<(), SwapverseError>)
        ensures
            r is Ok,
            final(self).is_fresh(
                pool_number,
                token_a_mint,
                token_b_mint,
                pool_share_token_a_mint,
                pool_share_token_b_mint,
                initial_amount_a,
                initial_amount_b,
                swap_fee_percentage,
                swapverse_fee_percentage,
                min_investment_amount,
                max_days_to_fill,
                swap_life_in_days,
                now,
            ),
    {
        self.pool_number = pool_number;
        self.active_for_swap = false;
        self.open_for_investment = true;
        self.open_for_withdrawal = false;

        self.token_a_mint = token_a_mint;
        self.token_b_mint = token_b_mint;
        self.pool_share_token_a_mint = pool_share_token_a_mint;
        self.pool_share_token_b_mint = pool_share_token_b_mint;

        self.initial_amount_a = initial_amount_a;
        self.initial_amount_b = initial_amount_b;

        self.swap_fee_percentage = swap_fee_percentage;
        self.swapverse_fee_percentage = swapverse_fee_percentage;

        self.min_investment_amount = min_investment_amount;
        self.max_days_to_fill = max_days_to_fill;
        self.swap_life_in_days = swap_life_in_days;

        self.created_at = now;
        self.activated_at = NOT_ACTIVATED;

        self.token_a_amount_to_be_distributed = 0;
        self.token_b_amount_to_be_distributed = 0;
        self.profit_of_token_a_amount_to_be_distributed = 0;
        self.profit_of_token_b_amount_to_be_distributed = 0;

        Ok(())
    }
}

impl Default for SwapPool {
    /// The state of a freshly created pool account: all zero and false.
    fn default() -> (r: SwapPool)
        ensures
            r.pool_number == 0,
            !r.active_for_swap,
            !r.open_for_investment,
            !r.open_for_withdrawal,
            r.initial_amount_a == 0,
            r.initial_amount_b == 0,
            r.swap_fee_percentage == 0,
            r.swapverse_fee_percentage == 0,
            r.min_investment_amount == 0,
            r.max_days_to_fill == 0,
            r.swap_life_in_days == 0,
            r.created_at == 0,
            r.activated_at == 0,
            r.token_a_amount_to_be_distributed == 0,
            r.token_b_amount_to_be_distributed == 0,
            r.profit_of_token_a_amount_to_be_distributed == 0,
            r.profit_of_token_b_amount_to_be_distributed == 0,
            r.token_a_mint@ == Seq::new(32, |i: int| 0u8),
            r.token_b_mint@ == Seq::new(32, |i: int| 0u8),
            r.pool_share_token_a_mint@ == Seq::new(32, |i: int| 0u8),
            r.pool_share_token_b_mint@ == Seq::new(32, |i: int| 0u8),
    {
        let z = AccountKey::zeroed();
        SwapPool {
            pool_number: 0,
            active_for_swap: false,
            open_for_investment: false,
            open_for_withdrawal: false,
            token_a_mint: z,
            token_b_mint: z,
            pool_share_token_a_mint: z,
            pool_share_token_b_mint: z,
            initial_amount_a: 0,
            initial_amount_b: 0,
            swap_fee_percentage: 0,
            swapverse_fee_percentage: 0,
            min_investment_amount: 0,
            max_days_to_fill: 0,
            swap_life_in_days: 0,
            created_at: 0,
            activated_at: 0,
            token_a_amount_to_be_distributed: 0,
            token_b_amount_to_be_distributed: 0,
            profit_of_token_a_amount_to_be_distributed: 0,
            profit_of_token_b_amount_to_be_distributed: 0,
        }
    }
}

} // verus!
