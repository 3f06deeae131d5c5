use vstd::prelude::*;
use crate::error::SwapverseError;
use crate::key::AccountKey;
use crate::states::{InvestorPoolInfo, SwapPool, TokenAccountState};

verus! {

/// Whether both sides of the pool hold all that the pool was created to raise.
pub open spec fn pool_is_filled(pool: SwapPool) -> bool {
    &&& pool.token_a_amount_to_be_distributed == pool.initial_amount_a
    &&& pool.token_b_amount_to_be_distributed == pool.initial_amount_b
}

/// A filled pool, as it is activated at `now`: closed for investment, open
/// for swapping; anything else is left as it is.
pub open spec fn activate_if_filled(pool: SwapPool, now: i64) -> SwapPool {
    if pool_is_filled(pool) {
        SwapPool { open_for_investment: false, active_for_swap: true, activated_at: now, ..pool }
    } else {
        pool
    }
}

/// The pool after `deposit` tokens of one side have been invested in it.
pub open spec fn pool_after_deposit(pool: SwapPool, is_token_a: bool, deposit: int) -> SwapPool {
    if is_token_a {
        SwapPool { token_a_amount_to_be_distributed: (pool.token_a_amount_to_be_distributed + deposit) as u64, ..pool }
    } else {
        SwapPool { token_b_amount_to_be_distributed: (pool.token_b_amount_to_be_distributed + deposit) as u64, ..pool }
    }
}

/// What an investment reads: the investor, the pool and its address, the mint
/// invested, the pool's and the investor's token accounts of that mint, the
/// pool-share mint, and the investor's record in the pool.
#[derive(Clone, Copy, Debug)]
pub struct InvestSwapPool {
    pub investor: AccountKey,
    pub swap_pool: SwapPool,
    pub swap_pool_key: AccountKey,
    pub token_mint: AccountKey,
    pub swap_pool_token_account: TokenAccountState,
    pub investor_token_account: TokenAccountState,
    pub pool_share_token_mint: AccountKey,
    pub investor_pool_info: InvestorPoolInfo,
}

impl InvestSwapPool {
    /// The first account rule that an investment of `amount` breaks, in the
    /// order in which the accounts are checked.
    pub open spec fn accounts_error(self, amount: u64) -> Option<SwapverseError> {
        let pool = self.swap_pool;
        if !pool.open_for_investment {
            Some(SwapverseError::SwapPoolNotOpenForInvestment)
        } else if amount <= pool.min_investment_amount {
            Some(SwapverseError::InsufficientAmount)
        } else if self.token_mint@ != pool.token_a_mint@ && self.token_mint@ != pool.token_b_mint@ {
            Some(SwapverseError::InvalidPoolTokenMint)
        } else if self.investor_token_account.owner@ != self.investor@ {
            Some(SwapverseError::InvalidInvestorTokenAccountOwner)
        } else if self.investor_token_account.mint@ != self.token_mint@ {
            Some(SwapverseError::InvalidInvestorTokenAccountMint)
        } else if !((self.pool_share_token_mint@ == pool.pool_share_token_a_mint@ && self.token_mint@ == pool.token_a_mint@)
            || (self.pool_share_token_mint@ == pool.pool_share_token_b_mint@ && self.token_mint@ == pool.token_b_mint@)) {
            Some(SwapverseError::InvalidPoolShareTokenMint)
        } else {
            None
        }
    }

    /// Checks the accounts of an investment of `amount` against the pool.
    pub fn check_accounts(&self, amount: u64) -> (r: Result<(), SwapverseError>)
        ensures
            r == (match self.accounts_error(amount) {
                Some(e) => Err(e),
                None => Ok(()),
            }),
    {
        let pool = &self.swap_pool;
        if !pool.open_for_investment {
            Err(SwapverseError::SwapPoolNotOpenForInvestment)
        } else if amount <= pool.min_investment_amount {
            Err(SwapverseError::InsufficientAmount)
        } else if !self.token_mint.same_as(&pool.token_a_mint) && !self.token_mint.same_as(&pool.token_b_mint) {
            Err(SwapverseError::InvalidPoolTokenMint)
        } else if !self.investor_token_account.owner.same_as(&self.investor) {
            Err(SwapverseError::InvalidInvestorTokenAccountOwner)
        } else if !self.investor_token_account.mint.same_as(&self.token_mint) {
            Err(SwapverseError::InvalidInvestorTokenAccountMint)
        } else if !((self.pool_share_token_mint.same_as(&pool.pool_share_token_a_mint) && self.token_mint.same_as(&pool.token_a_mint))
            || (self.pool_share_token_mint.same_as(&pool.pool_share_token_b_mint) && self.token_mint.same_as(&pool.token_b_mint))) {
            Err(SwapverseError::InvalidPoolShareTokenMint)
        } else {
            Ok(())
        }
    }

    /// Whether the invested mint is the pool's token A.
    pub open spec fn is_token_a(self) -> bool {
        self.token_mint@ == self.swap_pool.token_a_mint@
    }

    /// What the pool was created to raise of the invested token.
    pub open spec fn initial_amount(self) -> u64 {
        if self.is_token_a() {
            self.swap_pool.initial_amount_a
        } else {
            self.swap_pool.initial_amount_b
        }
    }

    /// What the pool has recorded for distribution of the invested token.
    pub open spec fn distributed_amount(self) -> u64 {
        if self.is_token_a() {
            self.swap_pool.token_a_amount_to_be_distributed
        } else {
            self.swap_pool.token_b_amount_to_be_distributed
        }
    }

    /// What is still to be raised of the invested token, by the pool's balance.
    pub open spec fn amount_remaining(self) -> int {
        self.initial_amount() - self.swap_pool_token_account.amount
    }

    /// What an investment of `amount` deposits: the amount, capped at what is
    /// still to be raised.
    pub open spec fn deposit_amount(self, amount: u64) -> int {
        if amount <= self.amount_remaining() {
            amount as int
        } else {
            self.amount_remaining()
        }
    }

    /// Whether the pool takes investments at all at the moment.
    pub open spec fn takes_investment(self) -> bool {
        self.swap_pool.open_for_investment && !pool_is_filled(self.swap_pool)
    }

    /// Whether an investment of `amount` runs to its end without an
    /// arithmetic fault: the pool's balance is at most what it is to raise,
    /// and a deposit fits on the distribution counter.
    pub open spec fn investment_runs_to_end(self, amount: u64) -> bool {
        &&& self.swap_pool_token_account.amount <= self.initial_amount()
        &&& self.takes_investment() && self.deposit_amount(amount) > 0
            ==> self.distributed_amount() + self.deposit_amount(amount) <= u64::MAX
    }

    /// Whether an investment of `amount` would stop on an arithmetic fault.
    pub fn invest_would_abort(&self, amount: u64) -> (r: bool)
        ensures
            r == !self.investment_runs_to_end(amount),
    {
        let is_token_a = self.token_mint.same_as(&self.swap_pool.token_a_mint);
        let (initial, distributed) = if is_token_a {
            (self.swap_pool.initial_amount_a, self.swap_pool.token_a_amount_to_be_distributed)
        } else {
            (self.swap_pool.initial_amount_b, self.swap_pool.token_b_amount_to_be_distributed)
        };
        if self.swap_pool_token_account.amount > initial {
            return true;
        }
        let remaining = initial - self.swap_pool_token_account.amount;
        let deposit = if amount <= remaining { amount } else { remaining };
        let filled = self.swap_pool.token_a_amount_to_be_distributed == self.swap_pool.initial_amount_a
            && self.swap_pool.token_b_amount_to_be_distributed == self.swap_pool.initial_amount_b;
        self.swap_pool.open_for_investment && !filled && deposit > 0 && distributed.checked_add(deposit).is_none()
    }

    /// The pool after a successful investment of `amount` at `now`: the
    /// deposit recorded on the invested side, and the pool activated if that
    /// filled it.
    pub open spec fn pool_after_investment(self, amount: u64, now: i64) -> SwapPool {
        activate_if_filled(pool_after_deposit(self.swap_pool, self.is_token_a(), self.deposit_amount(amount)), now)
    }

    /// Invests up to `amount` tokens of one side in the pool at time `now`.
    /// The deposit, which the investor pays into the pool and for which as
    /// many pool-share tokens are minted to the investor, is returned; the
    /// pool records it for distribution and is activated once both sides are
    /// filled.
    pub fn invest_swap_pool(&mut self, amount: u64, now: i64) -> (r: Result<u64, SwapverseError>)
        requires
            old(self).investment_runs_to_end(amount),
        ensures
            !old(self).takes_investment() ==> r == Err::<u64, SwapverseError>(SwapverseError::SwapPoolNotOpenForInvestment),
            old(self).takes_investment() && old(self).deposit_amount(amount) == 0
                ==> r == Err::<u64, SwapverseError>(SwapverseError::DepositAmountIsZero),
            r is Err ==> *final(self) == *old(self),
            old(self).takes_investment() && old(self).deposit_amount(amount) > 0 ==> r is Ok,
            old(self).swap_pool.phase_is_consistent() ==> final(self).swap_pool.phase_is_consistent(),
            r matches Ok(deposit) ==> old(self).swap_pool_token_account.amount + deposit <= old(self).initial_amount(),
            r is Ok && pool_is_filled(final(self).swap_pool) ==> {
                &&& !final(self).swap_pool.open_for_investment
                &&& final(self).swap_pool.active_for_swap
                &&& final(self).swap_pool.activated_at == now
            },
            r is Ok ==> final(self).swap_pool == old(self).pool_after_investment(amount, now),
            r is Ok && (final(self).swap_pool.token_a_amount_to_be_distributed != final(self).swap_pool.initial_amount_a
                || final(self).swap_pool.token_b_amount_to_be_distributed != final(self).swap_pool.initial_amount_b) ==> {
                &&& final(self).swap_pool.open_for_investment == old(self).swap_pool.open_for_investment
                &&& final(self).swap_pool.active_for_swap == old(self).swap_pool.active_for_swap
                &&& final(self).swap_pool.activated_at == old(self).swap_pool.activated_at
            },
            r matches Ok(deposit) ==> {
                &&& deposit == old(self).deposit_amount(amount)
                &&& final(self).swap_pool == activate_if_filled(
                    pool_after_deposit(old(self).swap_pool, old(self).is_token_a(), deposit as int),
                    now,
                )
                &&& final(self).investor_pool_info == (InvestorPoolInfo {
                    investor: old(self).investor,
                    swap_pool: old(self).swap_pool_key,
                    ..old(self).investor_pool_info
                })
                &&& (*final(self) == InvestSwapPool {
                    swap_pool: final(self).swap_pool,
                    investor_pool_info: final(self).investor_pool_info,
                    ..*old(self)
                })
            },
    {
        let pool_token_amount = self.swap_pool_token_account.amount;
        let is_token_a = self.token_mint.same_as(&self.swap_pool.token_a_mint);
        let pool_token_initial_amount = if is_token_a {
            self.swap_pool.initial_amount_a
        } else {
            self.swap_pool.initial_amount_b
        };
        let amount_remaining = pool_token_initial_amount - pool_token_amount;

        let filled = self.swap_pool.token_a_amount_to_be_distributed == self.swap_pool.initial_amount_a
            && self.swap_pool.token_b_amount_to_be_distributed == self.swap_pool.initial_amount_b;
        if filled || !self.swap_pool.open_for_investment {
            return Err(SwapverseError::SwapPoolNotOpenForInvestment);
        }

        let deposit_amount = if amount <= amount_remaining { amount } else { amount_remaining };
        if deposit_amount == 0 {
            return Err(SwapverseError::DepositAmountIsZero);
        }

        if is_token_a {
            self.swap_pool.token_a_amount_to_be_distributed = self.swap_pool.token_a_amount_to_be_distributed + deposit_amount;
        } else {
            self.swap_pool.token_b_amount_to_be_distributed = self.swap_pool.token_b_amount_to_be_distributed + deposit_amount;
        }

        self.investor_pool_info.investor = self.investor;
        self.investor_pool_info.swap_pool = self.swap_pool_key;

        if self.swap_pool.token_a_amount_to_be_distributed == self.swap_pool.initial_amount_a
            && self.swap_pool.token_b_amount_to_be_distributed == self.swap_pool.initial_amount_b {
            self.swap_pool.open_for_investment = false;
            self.swap_pool.active_for_swap = true;
            self.swap_pool.activated_at = now;
        }

        Ok(deposit_amount)
    }
}

/// An investment, on the pool's fields: the deposit is the amount, capped at
/// the invested side's initial amount less the pool's balance of that token;
/// it is added to that side's recorded amount and the other side's is left as
/// it was. The pool is activated at `now` (closed for investment, open for
/// swapping) exactly when both sides' recorded amounts then equal their
/// initial amounts; otherwise its flags and activation time stay as they were.
pub proof fn lemma_investment_on_fields(c: InvestSwapPool, amount: u64, now: i64)
    requires
        c.investment_runs_to_end(amount),
        c.takes_investment(),
        c.deposit_amount(amount) > 0,
    ensures
        ({
            let p = c.swap_pool;
            let n = c.pool_after_investment(amount, now);
            let is_a = c.token_mint@ == p.token_a_mint@;
            let initial: int = if is_a { p.initial_amount_a as int } else { p.initial_amount_b as int };
            let room = initial - c.swap_pool_token_account.amount;
            let deposit: int = if amount <= room { amount as int } else { room };
            let both_filled = n.token_a_amount_to_be_distributed == p.initial_amount_a
                && n.token_b_amount_to_be_distributed == p.initial_amount_b;
            &&& c.deposit_amount(amount) == deposit
            &&& is_a ==> n.token_a_amount_to_be_distributed == p.token_a_amount_to_be_distributed + deposit
            &&& is_a ==> n.token_b_amount_to_be_distributed == p.token_b_amount_to_be_distributed
            &&& !is_a ==> n.token_b_amount_to_be_distributed == p.token_b_amount_to_be_distributed + deposit
            &&& !is_a ==> n.token_a_amount_to_be_distributed == p.token_a_amount_to_be_distributed
            &&& both_filled ==> !n.open_for_investment && n.active_for_swap && n.activated_at == now
            &&& !both_filled ==> {
                &&& n.open_for_investment == p.open_for_investment
                &&& n.active_for_swap == p.active_for_swap
                &&& n.activated_at == p.activated_at
            }
            &&& n.initial_amount_a == p.initial_amount_a
            &&& n.initial_amount_b == p.initial_amount_b
        }),
{
}

} // verus!
