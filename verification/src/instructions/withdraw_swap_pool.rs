use vstd::prelude::*;
use crate::error::SwapverseError;
use crate::key::AccountKey;
use crate::pool_math::{compute_withdrawal_amount, withdrawal_amount};
use crate::states::{SwapPool, TokenAccountState};

verus! {

/// Seconds in a day.
pub const SECONDS_PER_DAY: i64 = 86_400;

/// A `u64` read as the `i64` with the same 64 bits.
pub open spec fn as_signed(x: u64) -> int {
    if x <= i64::MAX {
        x as int
    } else {
        x - 0x1_0000_0000_0000_0000
    }
}

/// The end of the time within which a pool must be filled.
pub open spec fn fill_deadline(pool: SwapPool) -> int {
    pool.created_at + pool.max_days_to_fill * SECONDS_PER_DAY
}

/// The end of an activated pool's life.
pub open spec fn life_deadline(pool: SwapPool) -> int {
    pool.created_at + as_signed(pool.swap_life_in_days) * SECONDS_PER_DAY
}

/// Whether the deadline that applies to a pool not yet open for withdrawal
/// can be computed in 64 bits.
pub open spec fn deadline_is_defined(pool: SwapPool) -> bool {
    !pool.open_for_withdrawal ==> if !pool.active_for_swap {
        fill_deadline(pool) <= i64::MAX
    } else {
        &&& i64::MIN <= as_signed(pool.swap_life_in_days) * SECONDS_PER_DAY <= i64::MAX
        &&& i64::MIN <= life_deadline(pool) <= i64::MAX
    }
}

/// Whether a pool is due to open for withdrawal at `now`: it is not open yet,
/// and either it was never filled and its fill deadline has passed, or it was
/// activated and its life has ended.
pub open spec fn withdrawal_due(pool: SwapPool, now: i64) -> bool {
    &&& !pool.open_for_withdrawal
    &&& if !pool.active_for_swap {
        now > fill_deadline(pool)
    } else {
        now > life_deadline(pool)
    }
}

/// What a withdrawal reads: the investor, the pool, the two mints, the pool's
/// two token accounts, the investor's two token accounts, the two pool-share
/// mints, and the investor's two pool-share token accounts.
#[derive(Clone, Copy, Debug)]
pub struct WithdrawSwapPool {
    pub investor: AccountKey,
    pub swap_pool: SwapPool,
    pub token_a_mint: AccountKey,
    pub token_b_mint: AccountKey,
    pub swap_pool_token_a_account: TokenAccountState,
    pub swap_pool_token_b_account: TokenAccountState,
    pub investor_token_a_account: TokenAccountState,
    pub investor_token_b_account: TokenAccountState,
    pub pool_share_token_a_mint: AccountKey,
    pub pool_share_token_b_mint: AccountKey,
    pub investor_pool_share_token_a_account: TokenAccountState,
    pub investor_pool_share_token_b_account: TokenAccountState,
}

/// The two payouts of a withdrawal, one from each side of the pool.
#[derive(Clone, Copy, Debug, PartialEq, Eq, Structural)]
pub struct WithdrawAmounts {
    pub token_a_amount: u64,
    pub token_b_amount: u64,
}

impl WithdrawSwapPool {
    /// The first account rule that the request breaks, in the order in which
    /// the accounts are checked.
    pub open spec fn accounts_error(self) -> Option<SwapverseError> {
        let pool = self.swap_pool;
        if self.token_a_mint@ != pool.token_a_mint@ {
            Some(SwapverseError::InvalidPoolTokenMint)
        } else if self.token_b_mint@ != pool.token_b_mint@ {
            Some(SwapverseError::InvalidPoolTokenMint)
        } else if self.token_b_mint@ == self.token_a_mint@ {
            Some(SwapverseError::SameTokenMints)
        } else if self.investor_token_a_account.owner@ != self.investor@ {
            Some(SwapverseError::InvalidInvestorTokenAccountOwner)
        } else if self.investor_token_a_account.mint@ != self.token_a_mint@ {
            Some(SwapverseError::InvalidInvestorTokenAccountMint)
        } else if self.investor_token_b_account.owner@ != self.investor@ {
            Some(SwapverseError::InvalidInvestorTokenAccountOwner)
        } else if self.investor_token_b_account.mint@ != self.token_b_mint@ {
            Some(SwapverseError::InvalidInvestorTokenAccountMint)
        } else if self.pool_share_token_a_mint@ != pool.pool_share_token_a_mint@ {
            Some(SwapverseError::InvalidPoolShareTokenMint)
        } else if self.pool_share_token_b_mint@ != pool.pool_share_token_b_mint@ {
            Some(SwapverseError::InvalidPoolShareTokenMint)
        } else {
            None
        }
    }

    /// Checks the accounts of a withdrawal request against the pool.
    pub fn check_accounts(&self) -> (r: Result<(), SwapverseError>)
        ensures
            r == (match self.accounts_error() {
                Some(e) => Err(e),
                None => Ok(()),
            }),
    {
        let pool = &self.swap_pool;
        if !self.token_a_mint.same_as(&pool.token_a_mint) {
            Err(SwapverseError::InvalidPoolTokenMint)
        } else if !self.token_b_mint.same_as(&pool.token_b_mint) {
            Err(SwapverseError::InvalidPoolTokenMint)
        } else if self.token_b_mint.same_as(&self.token_a_mint) {
            Err(SwapverseError::SameTokenMints)
        } else if !self.investor_token_a_account.owner.same_as(&self.investor) {
            Err(SwapverseError::InvalidInvestorTokenAccountOwner)
        } else if !self.investor_token_a_account.mint.same_as(&self.token_a_mint) {
            Err(SwapverseError::InvalidInvestorTokenAccountMint)
        } else if !self.investor_token_b_account.owner.same_as(&self.investor) {
            Err(SwapverseError::InvalidInvestorTokenAccountOwner)
        } else if !self.investor_token_b_account.mint.same_as(&self.token_b_mint) {
            Err(SwapverseError::InvalidInvestorTokenAccountMint)
        } else if !self.pool_share_token_a_mint.same_as(&pool.pool_share_token_a_mint) {
            Err(SwapverseError::InvalidPoolShareTokenMint)
        } else if !self.pool_share_token_b_mint.same_as(&pool.pool_share_token_b_mint) {
            Err(SwapverseError::InvalidPoolShareTokenMint)
        } else {
            Ok(())
        }
    }

    /// The request after the pool has been opened for withdrawal, if it was
    /// due at `now`: closed for investment, open for withdrawal, and with the
    /// pool's two balances recorded for distribution.
    pub open spec fn opened_at(self, now: i64) -> WithdrawSwapPool {
        if withdrawal_due(self.swap_pool, now) {
            WithdrawSwapPool {
                swap_pool: SwapPool {
                    open_for_investment: false,
                    open_for_withdrawal: true,
                    token_a_amount_to_be_distributed: self.swap_pool_token_a_account.amount,
                    token_b_amount_to_be_distributed: self.swap_pool_token_b_account.amount,
                    ..self.swap_pool
                },
                ..self
            }
        } else {
            self
        }
    }

    /// Records the pool's two balances as what is to be distributed.
    pub fn set_withdrawable_values(&mut self)
        ensures
            (*final(self) == WithdrawSwapPool {
                swap_pool: SwapPool {
                    token_a_amount_to_be_distributed: old(self).swap_pool_token_a_account.amount,
                    token_b_amount_to_be_distributed: old(self).swap_pool_token_b_account.amount,
                    ..old(self).swap_pool
                },
                ..*old(self)
            }),
    {
        self.swap_pool.token_a_amount_to_be_distributed = self.swap_pool_token_a_account.amount;
        self.swap_pool.token_b_amount_to_be_distributed = self.swap_pool_token_b_account.amount;
    }

    /// Opens the pool for withdrawal at `now` if it is due: when it was not
    /// filled in time, or when its life has ended.
    pub fn check_for_withdrawal_open(&mut self, now: i64)
        requires
            deadline_is_defined(old(self).swap_pool),
        ensures
            *final(self) == old(self).opened_at(now),
    {
        if !self.swap_pool.open_for_withdrawal {
            if !self.swap_pool.active_for_swap {
                let fill_seconds: i64 = (self.swap_pool.max_days_to_fill as i64) * 24 * 60 * 60;
                let max_activation_time = self.swap_pool.created_at + fill_seconds;
                if now > max_activation_time {
                    self.swap_pool.open_for_investment = false;
                    self.swap_pool.open_for_withdrawal = true;
                    self.set_withdrawable_values();
                }
            } else {
                let life_in_days = self.swap_pool.swap_life_in_days;
                let days: i64 = #[verifier::truncate] (life_in_days as i64);
                assert(days as int == as_signed(life_in_days)) by (bit_vector)
                    requires
                        days == #[verifier::truncate] (life_in_days as i64),
                ;
                let life_seconds: i64 = days * 24 * 60 * 60;
                let max_pool_life = self.swap_pool.created_at + life_seconds;
                if now > max_pool_life {
                    self.swap_pool.open_for_investment = false;
                    self.swap_pool.open_for_withdrawal = true;
                    self.set_withdrawable_values();
                }
            }
        }
    }

    /// The investor's pool-share balance of the chosen side.
    pub open spec fn share_amount(self, is_token_a: bool) -> u64 {
        if is_token_a {
            self.investor_pool_share_token_a_account.amount
        } else {
            self.investor_pool_share_token_b_account.amount
        }
    }

    /// What the pool has recorded for distribution on the chosen side.
    pub open spec fn distributable_amount(self, is_token_a: bool) -> u64 {
        if is_token_a {
            self.swap_pool.token_a_amount_to_be_distributed
        } else {
            self.swap_pool.token_b_amount_to_be_distributed
        }
    }

    /// What the investor's share is measured against: the pool's initial
    /// amount on the chosen side if the pool was activated, else what is to be
    /// distributed on that side.
    pub open spec fn share_base(self, is_token_a: bool) -> u64 {
        if self.swap_pool.is_activated() {
            if is_token_a {
                self.swap_pool.initial_amount_a
            } else {
                self.swap_pool.initial_amount_b
            }
        } else {
            self.distributable_amount(is_token_a)
        }
    }

    /// What the investor is paid on the chosen side.
    pub open spec fn chosen_side_amount(self, is_token_a: bool) -> int {
        withdrawal_amount(self.distributable_amount(is_token_a), self.share_amount(is_token_a), self.share_base(is_token_a))
    }

    /// Whether the payouts can be computed: the base is not zero and the payout
    /// on the chosen side is no more than the investor's share.
    pub open spec fn payout_is_defined(self, is_token_a: bool) -> bool {
        &&& self.share_base(is_token_a) > 0
        &&& self.chosen_side_amount(is_token_a) <= self.share_amount(is_token_a)
    }

    /// Whether a withdrawal at `now` runs to its end without an arithmetic
    /// fault: the deadline can be computed, and once the pool is open for
    /// withdrawal, the payouts can be computed.
    pub open spec fn withdrawal_runs_to_end(self, is_token_a: bool, now: i64) -> bool {
        &&& deadline_is_defined(self.swap_pool)
        &&& self.opened_at(now).swap_pool.open_for_withdrawal ==> self.opened_at(now).payout_is_defined(is_token_a)
    }

    /// Whether a withdrawal at `now` would stop on an arithmetic fault.
    pub fn withdraw_would_abort(&self, is_token_a: bool, now: i64) -> (r: bool)
        ensures
            r == !self.withdrawal_runs_to_end(is_token_a, now),
    {
        let pool = &self.swap_pool;
        if !pool.open_for_withdrawal {
            if !pool.active_for_swap {
                let fill_seconds: i64 = (pool.max_days_to_fill as i64) * SECONDS_PER_DAY;
                if pool.created_at.checked_add(fill_seconds).is_none() {
                    return true;
                }
            } else {
                let life_in_days = pool.swap_life_in_days;
                let days: i64 = #[verifier::truncate] (life_in_days as i64);
                assert(days as int == as_signed(life_in_days)) by (bit_vector)
                    requires
                        days == #[verifier::truncate] (life_in_days as i64),
                ;
                let life_seconds = match days.checked_mul(SECONDS_PER_DAY) {
                    Some(v) => v,
                    None => {
                        return true;
                    },
                };
                if pool.created_at.checked_add(life_seconds).is_none() {
                    return true;
                }
            }
        }
        let mut opened = *self;
        opened.check_for_withdrawal_open(now);
        if !opened.swap_pool.open_for_withdrawal {
            return false;
        }
        let share = if is_token_a {
            opened.investor_pool_share_token_a_account.amount
        } else {
            opened.investor_pool_share_token_b_account.amount
        };
        let distributable = if is_token_a {
            opened.swap_pool.token_a_amount_to_be_distributed
        } else {
            opened.swap_pool.token_b_amount_to_be_distributed
        };
        let base = if opened.swap_pool.activated_at != i64::MAX {
            if is_token_a {
                opened.swap_pool.initial_amount_a
            } else {
                opened.swap_pool.initial_amount_b
            }
        } else {
            distributable
        };
        if base == 0 {
            return true;
        }
        compute_withdrawal_amount(distributable, share, base) > share
    }

    /// The answer to a withdrawal at `now`: refused while the pool is not
    /// open for withdrawal; otherwise the chosen side pays in proportion to
    /// the investor's share on that side, and the other side pays the rest of
    /// that share.
    pub open spec fn withdraw_outcome(self, is_token_a: bool, now: i64) -> Result<WithdrawAmounts, SwapverseError> {
        let s = self.opened_at(now);
        let chosen = s.chosen_side_amount(is_token_a);
        let rest = s.share_amount(is_token_a) - chosen;
        if !s.swap_pool.open_for_withdrawal {
            Err(SwapverseError::SwapPoolNotOpenForWithdrawal)
        } else if is_token_a {
            Ok(WithdrawAmounts { token_a_amount: chosen as u64, token_b_amount: rest as u64 })
        } else {
            Ok(WithdrawAmounts { token_a_amount: rest as u64, token_b_amount: chosen as u64 })
        }
    }

    /// Withdraws the investor's share at time `now`, after opening the pool
    /// for withdrawal if it is due. On the chosen side the investor is paid in
    /// proportion to the share; on the other side, the rest of the share.
    pub fn withdraw_swap_pool(&mut self, is_token_a: bool, now: i64) -> (r: Result<WithdrawAmounts, SwapverseError>)
        requires
            old(self).withdrawal_runs_to_end(is_token_a, now),
        ensures
            r == old(self).withdraw_outcome(is_token_a, now),
            !old(self).opened_at(now).swap_pool.open_for_withdrawal
                ==> r == Err::<WithdrawAmounts, SwapverseError>(SwapverseError::SwapPoolNotOpenForWithdrawal),
            r is Err ==> *final(self) == *old(self),
            old(self).opened_at(now).swap_pool.open_for_withdrawal ==> r is Ok,
            r is Ok ==> *final(self) == old(self).opened_at(now),
            old(self).swap_pool.open_for_withdrawal ==> *final(self) == *old(self),
            old(self).swap_pool.phase_is_consistent() ==> final(self).swap_pool.phase_is_consistent(),
            r matches Ok(w) ==> {
                let s = old(self).opened_at(now);
                &&& w.token_a_amount + w.token_b_amount == s.share_amount(is_token_a)
                &&& is_token_a ==> w.token_a_amount == s.chosen_side_amount(is_token_a)
                &&& !is_token_a ==> w.token_b_amount == s.chosen_side_amount(is_token_a)
            },
    {
        self.check_for_withdrawal_open(now);

        if !self.swap_pool.open_for_withdrawal {
            return Err(SwapverseError::SwapPoolNotOpenForWithdrawal);
        }

        let investor_pool_share_amount = if is_token_a {
            self.investor_pool_share_token_a_account.amount
        } else {
            self.investor_pool_share_token_b_account.amount
        };
        let pool_distribution_token_amount = if is_token_a {
            self.swap_pool.token_a_amount_to_be_distributed
        } else {
            self.swap_pool.token_b_amount_to_be_distributed
        };
        let initial_token_amount = if self.swap_pool.activated_at != i64::MAX {
            if is_token_a {
                self.swap_pool.initial_amount_a
            } else {
                self.swap_pool.initial_amount_b
            }
        } else {
            pool_distribution_token_amount
        };

        let withdraw_amount = compute_withdrawal_amount(
            pool_distribution_token_amount,
            investor_pool_share_amount,
            initial_token_amount,
        );

        let withdraw_a_amount = if is_token_a {
            withdraw_amount
        } else {
            investor_pool_share_amount - withdraw_amount
        };
        let withdraw_b_amount = if is_token_a {
            investor_pool_share_amount - withdraw_amount
        } else {
            withdraw_amount
        };

        Ok(WithdrawAmounts { token_a_amount: withdraw_a_amount, token_b_amount: withdraw_b_amount })
    }
}

/// A withdrawal from an open pool, on the fields: on the chosen side the
/// investor gets the amount recorded for distribution on that side times the
/// pool-share balance of that side, over the side's initial amount if the pool
/// was activated and over the recorded amount otherwise (cut to 64 bits); the
/// other side pays the rest of that pool-share balance.
pub proof fn lemma_withdrawal_on_fields(w: WithdrawSwapPool, is_token_a: bool, now: i64)
    requires
        w.opened_at(now).swap_pool.open_for_withdrawal,
    ensures
        ({
            let o = w.opened_at(now).swap_pool;
            let share: int = if is_token_a {
                w.investor_pool_share_token_a_account.amount as int
            } else {
                w.investor_pool_share_token_b_account.amount as int
            };
            let recorded: int = if is_token_a {
                o.token_a_amount_to_be_distributed as int
            } else {
                o.token_b_amount_to_be_distributed as int
            };
            let base: int = if o.activated_at != i64::MAX {
                if is_token_a {
                    o.initial_amount_a as int
                } else {
                    o.initial_amount_b as int
                }
            } else {
                recorded
            };
            let chosen = (recorded * share / base) % 0x1_0000_0000_0000_0000;
            w.withdraw_outcome(is_token_a, now) == if is_token_a {
                Ok::<WithdrawAmounts, SwapverseError>(WithdrawAmounts { token_a_amount: chosen as u64, token_b_amount: (share - chosen) as u64 })
            } else {
                Ok::<WithdrawAmounts, SwapverseError>(WithdrawAmounts { token_a_amount: (share - chosen) as u64, token_b_amount: chosen as u64 })
            }
        }),
{
}

/// A withdrawal reads only the chosen side's pool-share balance: two requests
/// that differ only in the other side's pool-share account get the same answer.
pub proof fn lemma_withdrawal_ignores_other_side_share(
    w: WithdrawSwapPool,
    v: WithdrawSwapPool,
    is_token_a: bool,
    now: i64,
)
    requires
        v == (WithdrawSwapPool {
            investor_pool_share_token_a_account: v.investor_pool_share_token_a_account,
            investor_pool_share_token_b_account: v.investor_pool_share_token_b_account,
            ..w
        }),
        is_token_a ==> v.investor_pool_share_token_a_account == w.investor_pool_share_token_a_account,
        !is_token_a ==> v.investor_pool_share_token_b_account == w.investor_pool_share_token_b_account,
    ensures
        v.withdraw_outcome(is_token_a, now) == w.withdraw_outcome(is_token_a, now),
{
}

/// Opening a pool for withdrawal twice at the same time is the same as
/// opening it once; and where the deadline of the first check can be
/// computed, so can that of the second.
pub proof fn lemma_opening_for_withdrawal_is_idempotent(w: WithdrawSwapPool, now: i64)
    ensures
        w.opened_at(now).opened_at(now) == w.opened_at(now),
        deadline_is_defined(w.swap_pool) ==> deadline_is_defined(w.opened_at(now).swap_pool),
{
}

} // verus!
