use vstd::prelude::*;
use crate::error::SwapverseError;
use crate::key::AccountKey;
use crate::pool_math::{compute_percent, compute_profit_entitlement, profit_entitlement, profit_share_is_defined};
use crate::states::{InvestorPoolInfo, SwapPool, TokenAccountState};

verus! {

/// What a profit claim reads: the investor, the pool, the mint in which the
/// profit is claimed, the pool's two mints, the investor's token account of
/// the claimed mint, the pool-share mint, the investor's pool-share token
/// account, and the investor's record in the pool.
#[derive(Clone, Copy, Debug)]
pub struct ClaimProfit {
    pub investor: AccountKey,
    pub swap_pool: SwapPool,
    pub withdraw_token_mint: AccountKey,
    pub token_a_mint: AccountKey,
    pub token_b_mint: AccountKey,
    pub investor_token_account: TokenAccountState,
    pub pool_share_token_mint: AccountKey,
    pub investor_pool_share_token_account: TokenAccountState,
    pub investor_pool_info: InvestorPoolInfo,
}

/// A payout of profit: from which treasury of the pool, and how much.
#[derive(Clone, Copy, Debug, PartialEq, Eq, Structural)]
pub struct ProfitClaim {
    pub from_token_a_treasury: bool,
    pub amount: u64,
}

impl ClaimProfit {
    /// The first account rule that the request breaks, in the order in which
    /// the accounts are checked.
    pub open spec fn accounts_error(self) -> Option<SwapverseError> {
        let pool = self.swap_pool;
        if self.withdraw_token_mint@ != pool.token_a_mint@ && self.withdraw_token_mint@ != pool.token_b_mint@ {
            Some(SwapverseError::InvalidPoolTokenMint)
        } else if self.token_a_mint@ != pool.token_a_mint@ {
            Some(SwapverseError::InvalidPoolTokenMint)
        } else if self.token_b_mint@ != pool.token_b_mint@ {
            Some(SwapverseError::InvalidPoolTokenMint)
        } else if self.token_b_mint@ == self.token_a_mint@ {
            Some(SwapverseError::SameTokenMints)
        } else if self.investor_token_account.owner@ != self.investor@ {
            Some(SwapverseError::InvalidInvestorTokenAccountOwner)
        } else if self.investor_token_account.mint@ != self.withdraw_token_mint@ {
            Some(SwapverseError::InvalidInvestorTokenAccountMint)
        } else if !((self.pool_share_token_mint@ == pool.pool_share_token_a_mint@ && self.withdraw_token_mint@ == pool.token_a_mint@)
            || (self.pool_share_token_mint@ == pool.pool_share_token_b_mint@ && self.withdraw_token_mint@ == pool.token_b_mint@)) {
            Some(SwapverseError::InvalidPoolShareTokenMint)
        } else {
            None
        }
    }

    /// Checks the accounts of a profit claim against the pool.
    pub fn check_accounts(&self) -> (r: Result<(), SwapverseError>)
        ensures
            r == (match self.accounts_error() {
                Some(e) => Err(e),
                None => Ok(()),
            }),
    {
        let pool = &self.swap_pool;
        if !self.withdraw_token_mint.same_as(&pool.token_a_mint) && !self.withdraw_token_mint.same_as(&pool.token_b_mint) {
            Err(SwapverseError::InvalidPoolTokenMint)
        } else if !self.token_a_mint.same_as(&pool.token_a_mint) {
            Err(SwapverseError::InvalidPoolTokenMint)
        } else if !self.token_b_mint.same_as(&pool.token_b_mint) {
            Err(SwapverseError::InvalidPoolTokenMint)
        } else if self.token_b_mint.same_as(&self.token_a_mint) {
            Err(SwapverseError::SameTokenMints)
        } else if !self.investor_token_account.owner.same_as(&self.investor) {
            Err(SwapverseError::InvalidInvestorTokenAccountOwner)
        } else if !self.investor_token_account.mint.same_as(&self.withdraw_token_mint) {
            Err(SwapverseError::InvalidInvestorTokenAccountMint)
        } else if !((self.pool_share_token_mint.same_as(&pool.pool_share_token_a_mint) && self.withdraw_token_mint.same_as(&pool.token_a_mint))
            || (self.pool_share_token_mint.same_as(&pool.pool_share_token_b_mint) && self.withdraw_token_mint.same_as(&pool.token_b_mint))) {
            Err(SwapverseError::InvalidPoolShareTokenMint)
        } else {
            Ok(())
        }
    }

    /// Whether the profit is claimed in the pool's token A.
    pub open spec fn is_token_a(self) -> bool {
        self.withdraw_token_mint@ == self.swap_pool.token_a_mint@
    }

    /// The pool's profit counter of the claimed token.
    pub open spec fn profit(self) -> u64 {
        if self.is_token_a() {
            self.swap_pool.profit_of_token_a_amount_to_be_distributed
        } else {
            self.swap_pool.profit_of_token_b_amount_to_be_distributed
        }
    }

    /// The pool's initial amount of the claimed token.
    pub open spec fn initial_amount(self) -> u64 {
        if self.is_token_a() {
            self.swap_pool.initial_amount_a
        } else {
            self.swap_pool.initial_amount_b
        }
    }

    /// What the investor has already been paid of the claimed token's profit.
    pub open spec fn withdrawn(self) -> u64 {
        if self.is_token_a() {
            self.investor_pool_info.profit_for_token_a_withdrawn
        } else {
            self.investor_pool_info.profit_for_token_b_withdrawn
        }
    }

    /// What the investor is owed in all of the claimed token's profit.
    pub open spec fn entitlement(self) -> int {
        profit_entitlement(
            self.profit(),
            self.swap_pool.swapverse_fee_percentage,
            self.investor_pool_share_token_account.amount,
            self.initial_amount(),
        )
    }

    /// Whether a claim on an activated pool can be computed: the entitlement
    /// is defined and no less than what was already paid.
    pub open spec fn claim_is_defined(self) -> bool {
        self.swap_pool.is_activated() ==> {
            &&& profit_share_is_defined(self.profit(), self.swap_pool.swapverse_fee_percentage, self.initial_amount())
            &&& self.withdrawn() <= self.entitlement()
        }
    }

    /// Whether a profit claim would stop on an arithmetic fault.
    pub fn claim_would_abort(&self) -> (r: bool)
        ensures
            r == !self.claim_is_defined(),
    {
        if self.swap_pool.activated_at == i64::MAX {
            return false;
        }
        let is_token_a = self.withdraw_token_mint.same_as(&self.swap_pool.token_a_mint);
        let (profit, initial, withdrawn) = if is_token_a {
            (
                self.swap_pool.profit_of_token_a_amount_to_be_distributed,
                self.swap_pool.initial_amount_a,
                self.investor_pool_info.profit_for_token_a_withdrawn,
            )
        } else {
            (
                self.swap_pool.profit_of_token_b_amount_to_be_distributed,
                self.swap_pool.initial_amount_b,
                self.investor_pool_info.profit_for_token_b_withdrawn,
            )
        };
        if compute_percent(profit, self.swap_pool.swapverse_fee_percentage) > profit as u128 || initial == 0 {
            return true;
        }
        let entitlement = compute_profit_entitlement(
            profit,
            self.swap_pool.swapverse_fee_percentage,
            self.investor_pool_share_token_account.amount,
            initial,
        );
        withdrawn > entitlement
    }

    /// The answer to a profit claim.
    pub open spec fn claim_outcome(self) -> Result<ProfitClaim, SwapverseError> {
        if !self.swap_pool.is_activated() {
            Err(SwapverseError::SwapPoolNotActivated)
        } else if self.entitlement() == self.withdrawn() {
            Err(SwapverseError::WithdrawAmountIsZero)
        } else {
            Ok(ProfitClaim { from_token_a_treasury: self.is_token_a(), amount: (self.entitlement() - self.withdrawn()) as u64 })
        }
    }

    /// The request after a successful claim: the investor's record shows the
    /// whole entitlement of the claimed token as paid.
    pub open spec fn after_claim(self) -> ClaimProfit {
        if self.is_token_a() {
            ClaimProfit {
                investor_pool_info: InvestorPoolInfo {
                    profit_for_token_a_withdrawn: self.entitlement() as u64,
                    ..self.investor_pool_info
                },
                ..self
            }
        } else {
            ClaimProfit {
                investor_pool_info: InvestorPoolInfo {
                    profit_for_token_b_withdrawn: self.entitlement() as u64,
                    ..self.investor_pool_info
                },
                ..self
            }
        }
    }

    /// Pays the investor what is owed and not yet paid of the pool's profit
    /// in the claimed token, from the pool's treasury of that token.
    pub fn claim_profit(&mut self) -> (r: Result<ProfitClaim, SwapverseError>)
        requires
            old(self).claim_is_defined(),
        ensures
            r == old(self).claim_outcome(),
            r is Err ==> *final(self) == *old(self),
            r is Ok ==> *final(self) == old(self).after_claim(),
            final(self).swap_pool == old(self).swap_pool,
    {
        if self.swap_pool.activated_at == i64::MAX {
            return Err(SwapverseError::SwapPoolNotActivated);
        }

        let is_token_a = self.withdraw_token_mint.same_as(&self.swap_pool.token_a_mint);
        let investor_pool_share_amount = self.investor_pool_share_token_account.amount;
        let pool_distribution_token_amount = if is_token_a {
            self.swap_pool.profit_of_token_a_amount_to_be_distributed
        } else {
            self.swap_pool.profit_of_token_b_amount_to_be_distributed
        };
        let initial_token_amount = if is_token_a {
            self.swap_pool.initial_amount_a
        } else {
            self.swap_pool.initial_amount_b
        };

        let investor_share = compute_profit_entitlement(
            pool_distribution_token_amount,
            self.swap_pool.swapverse_fee_percentage,
            investor_pool_share_amount,
            initial_token_amount,
        );

        let withdraw_amount = if is_token_a {
            investor_share - self.investor_pool_info.profit_for_token_a_withdrawn
        } else {
            investor_share - self.investor_pool_info.profit_for_token_b_withdrawn
        };

        if withdraw_amount == 0 {
            return Err(SwapverseError::WithdrawAmountIsZero);
        }

        if is_token_a {
            self.investor_pool_info.profit_for_token_a_withdrawn =
                self.investor_pool_info.profit_for_token_a_withdrawn + withdraw_amount;
        } else {
            self.investor_pool_info.profit_for_token_b_withdrawn =
                self.investor_pool_info.profit_for_token_b_withdrawn + withdraw_amount;
        }

        Ok(ProfitClaim { from_token_a_treasury: is_token_a, amount: withdraw_amount })
    }
}

/// A claim on an activated pool, on the pool's fields: of the claimed
/// side's profit counter `P`, the platform keeps `P * f / 100`; the investor
/// is owed that remainder times the pool-share balance over the side's
/// initial amount (cut to 64 bits), less what was already paid. Token A is
/// claimed with the pool's token-A mint, token B with any other.
pub proof fn lemma_claim_on_pool_fields(c: ClaimProfit)
    requires
        c.swap_pool.activated_at != i64::MAX,
    ensures
        ({
            let is_a = c.withdraw_token_mint@ == c.swap_pool.token_a_mint@;
            let p: int = if is_a {
                c.swap_pool.profit_of_token_a_amount_to_be_distributed as int
            } else {
                c.swap_pool.profit_of_token_b_amount_to_be_distributed as int
            };
            let initial: int = if is_a {
                c.swap_pool.initial_amount_a as int
            } else {
                c.swap_pool.initial_amount_b as int
            };
            let paid: int = if is_a {
                c.investor_pool_info.profit_for_token_a_withdrawn as int
            } else {
                c.investor_pool_info.profit_for_token_b_withdrawn as int
            };
            let f = c.swap_pool.swapverse_fee_percentage as int;
            let owed = ((p - p * f / 100) * c.investor_pool_share_token_account.amount / initial)
                % 0x1_0000_0000_0000_0000;
            c.claim_outcome() == if owed == paid {
                Err::<ProfitClaim, SwapverseError>(SwapverseError::WithdrawAmountIsZero)
            } else {
                Ok::<ProfitClaim, SwapverseError>(ProfitClaim { from_token_a_treasury: is_a, amount: (owed - paid) as u64 })
            }
        }),
{
}

/// A claim reads only the claimed side: the other side's profit counter and
/// paid-out amount, and the amounts recorded for distribution at withdrawal,
/// do not change its answer.
pub proof fn lemma_claim_reads_only_claimed_side(c: ClaimProfit, d: ClaimProfit)
    requires
        d.swap_pool == (SwapPool {
            profit_of_token_a_amount_to_be_distributed: d.swap_pool.profit_of_token_a_amount_to_be_distributed,
            profit_of_token_b_amount_to_be_distributed: d.swap_pool.profit_of_token_b_amount_to_be_distributed,
            token_a_amount_to_be_distributed: d.swap_pool.token_a_amount_to_be_distributed,
            token_b_amount_to_be_distributed: d.swap_pool.token_b_amount_to_be_distributed,
            ..c.swap_pool
        }),
        d.investor_pool_info == (InvestorPoolInfo {
            profit_for_token_a_withdrawn: d.investor_pool_info.profit_for_token_a_withdrawn,
            profit_for_token_b_withdrawn: d.investor_pool_info.profit_for_token_b_withdrawn,
            ..c.investor_pool_info
        }),
        d == (ClaimProfit { swap_pool: d.swap_pool, investor_pool_info: d.investor_pool_info, ..c }),
        c.withdraw_token_mint@ == c.swap_pool.token_a_mint@ ==> {
            &&& d.swap_pool.profit_of_token_a_amount_to_be_distributed == c.swap_pool.profit_of_token_a_amount_to_be_distributed
            &&& d.investor_pool_info.profit_for_token_a_withdrawn == c.investor_pool_info.profit_for_token_a_withdrawn
        },
        c.withdraw_token_mint@ != c.swap_pool.token_a_mint@ ==> {
            &&& d.swap_pool.profit_of_token_b_amount_to_be_distributed == c.swap_pool.profit_of_token_b_amount_to_be_distributed
            &&& d.investor_pool_info.profit_for_token_b_withdrawn == c.investor_pool_info.profit_for_token_b_withdrawn
        },
    ensures
        d.claim_outcome() == c.claim_outcome(),
{
}

/// Claiming twice pays nothing the second time: after a successful claim,
/// an immediate second claim of the same token is refused as a zero payout.
pub proof fn lemma_claim_twice_pays_nothing(c: ClaimProfit)
    requires
        c.claim_is_defined(),
        c.claim_outcome() is Ok,
    ensures
        c.after_claim().claim_is_defined(),
        c.after_claim().claim_outcome() == Err::<ProfitClaim, SwapverseError>(SwapverseError::WithdrawAmountIsZero),
{
    let e = c.entitlement();
    assert(0 <= e < 0x1_0000_0000_0000_0000) by {
        vstd::arithmetic::div_mod::lemma_mod_bound(
            crate::pool_math::investors_profit(c.profit(), c.swap_pool.swapverse_fee_percentage)
                * c.investor_pool_share_token_account.amount / c.initial_amount() as int,
            0x1_0000_0000_0000_0000,
        );
    }
}

} // verus!
