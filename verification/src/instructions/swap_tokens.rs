use vstd::prelude::*;
use crate::error::SwapverseError;
use crate::key::AccountKey;
use crate::pool_math::{compute_percent, reserve_after, lemma_swap_respects_invariant, pool_invariant, percent_of, quote_swap, swap_is_defined, swap_output, SwapQuote};
use crate::states::{SwapPool, TokenAccountState};

verus! {

/// What a swap reads: the user, the pool, the two mints named in the request,
/// the user's two token accounts and the pool's two token accounts.
#[derive(Clone, Copy, Debug)]
pub struct SwapToken {
    pub user: AccountKey,
    pub swap_pool: SwapPool,
    pub token_a_mint: AccountKey,
    pub token_b_mint: AccountKey,
    pub user_token_a_account: TokenAccountState,
    pub user_token_b_account: TokenAccountState,
    pub swap_pool_token_a_account: TokenAccountState,
    pub swap_pool_token_b_account: TokenAccountState,
}

impl SwapToken {
    /// The first account rule that the request breaks, in the order in which
    /// the accounts are checked.
    pub open spec fn accounts_error(self) -> Option<SwapverseError> {
        if self.token_a_mint@ != self.swap_pool.token_a_mint@ {
            Some(SwapverseError::InvalidPoolTokenMint)
        } else if self.token_b_mint@ != self.swap_pool.token_b_mint@ {
            Some(SwapverseError::InvalidPoolTokenMint)
        } else if self.token_b_mint@ == self.token_a_mint@ {
            Some(SwapverseError::SameTokenMints)
        } else if self.user_token_a_account.owner@ != self.user@ {
            Some(SwapverseError::InvalidInvestorTokenAccountOwner)
        } else if self.user_token_a_account.mint@ != self.token_a_mint@ {
            Some(SwapverseError::InvalidInvestorTokenAccountMint)
        } else if self.user_token_b_account.owner@ != self.user@ {
            Some(SwapverseError::InvalidInvestorTokenAccountOwner)
        } else if self.user_token_b_account.mint@ != self.token_b_mint@ {
            Some(SwapverseError::InvalidInvestorTokenAccountMint)
        } else {
            None
        }
    }

    /// Checks the accounts of a swap request against the pool.
    pub fn check_accounts(&self) -> (r: Result<(), SwapverseError>)
        ensures
            r == (match self.accounts_error() {
                Some(e) => Err(e),
                None => Ok(()),
            }),
    {
        if !self.token_a_mint.same_as(&self.swap_pool.token_a_mint) {
            Err(SwapverseError::InvalidPoolTokenMint)
        } else if !self.token_b_mint.same_as(&self.swap_pool.token_b_mint) {
            Err(SwapverseError::InvalidPoolTokenMint)
        } else if self.token_b_mint.same_as(&self.token_a_mint) {
            Err(SwapverseError::SameTokenMints)
        } else if !self.user_token_a_account.owner.same_as(&self.user) {
            Err(SwapverseError::InvalidInvestorTokenAccountOwner)
        } else if !self.user_token_a_account.mint.same_as(&self.token_a_mint) {
            Err(SwapverseError::InvalidInvestorTokenAccountMint)
        } else if !self.user_token_b_account.owner.same_as(&self.user) {
            Err(SwapverseError::InvalidInvestorTokenAccountOwner)
        } else if !self.user_token_b_account.mint.same_as(&self.token_b_mint) {
            Err(SwapverseError::InvalidInvestorTokenAccountMint)
        } else {
            Ok(())
        }
    }

    /// The user's balance of the token paid in.
    pub open spec fn user_in_balance(self, is_token_in_token_a: bool) -> u64 {
        if is_token_in_token_a {
            self.user_token_a_account.amount
        } else {
            self.user_token_b_account.amount
        }
    }

    /// The pool's balance of the token paid in.
    pub open spec fn pool_in_balance(self, is_token_in_token_a: bool) -> u64 {
        if is_token_in_token_a {
            self.swap_pool_token_a_account.amount
        } else {
            self.swap_pool_token_b_account.amount
        }
    }

    /// The pool's balance of the token paid out.
    pub open spec fn pool_out_balance(self, is_token_in_token_a: bool) -> u64 {
        if is_token_in_token_a {
            self.swap_pool_token_b_account.amount
        } else {
            self.swap_pool_token_a_account.amount
        }
    }

    /// Whether the quote of this swap is defined.
    pub open spec fn quote_is_defined(self, amount: u64, is_token_in_token_a: bool) -> bool {
        swap_is_defined(
            self.swap_pool.initial_amount_a,
            self.swap_pool.initial_amount_b,
            self.pool_in_balance(is_token_in_token_a),
            self.pool_out_balance(is_token_in_token_a),
            amount,
            self.swap_pool.swap_fee_percentage,
        )
    }

    /// What leaves the pool's output side in this swap, fee included.
    pub open spec fn output_amount(self, amount: u64, is_token_in_token_a: bool) -> int {
        swap_output(
            self.swap_pool.initial_amount_a,
            self.swap_pool.initial_amount_b,
            self.pool_in_balance(is_token_in_token_a),
            self.pool_out_balance(is_token_in_token_a),
            amount,
        )
    }

    /// The fee of this swap, kept for the pool's treasury.
    pub open spec fn treasury_share(self, amount: u64, is_token_in_token_a: bool) -> int {
        percent_of(self.output_amount(amount, is_token_in_token_a), self.swap_pool.swap_fee_percentage as int)
    }

    /// What this swap pays the user.
    pub open spec fn user_share(self, amount: u64, is_token_in_token_a: bool) -> int {
        self.output_amount(amount, is_token_in_token_a) - self.treasury_share(amount, is_token_in_token_a)
    }

    /// The profit counter that a swap adds its fee to: the token-A counter
    /// when token A is paid in, the token-B counter otherwise.
    pub open spec fn profit_counter(self, is_token_in_token_a: bool) -> u64 {
        if is_token_in_token_a {
            self.swap_pool.profit_of_token_a_amount_to_be_distributed
        } else {
            self.swap_pool.profit_of_token_b_amount_to_be_distributed
        }
    }

    /// Whether the swap passes the user's balance check and limit.
    pub open spec fn swap_goes_through(self, amount: u64, min_amount_out: u64, is_token_in_token_a: bool) -> bool {
        &&& self.user_in_balance(is_token_in_token_a) >= amount
        &&& self.user_share(amount, is_token_in_token_a) >= min_amount_out
    }

    /// Whether a swap runs to its end without an arithmetic fault: once the
    /// user's balance suffices, the quote is defined, and once the user's
    /// limit is met, the fee fits on the profit counter.
    pub open spec fn swap_runs_to_end(self, amount: u64, min_amount_out: u64, is_token_in_token_a: bool) -> bool {
        &&& self.user_in_balance(is_token_in_token_a) >= amount ==> self.quote_is_defined(amount, is_token_in_token_a)
        &&& self.swap_goes_through(amount, min_amount_out, is_token_in_token_a) ==> self.profit_counter(is_token_in_token_a)
            + self.treasury_share(amount, is_token_in_token_a) <= u64::MAX
    }

    /// Whether a swap would stop on an arithmetic fault (an overflow, a
    /// division by zero, or an output side too small for what it must keep).
    pub fn swap_would_abort(&self, amount: u64, min_amount_out: u64, is_token_in_token_a: bool) -> (r: bool)
        ensures
            r == !self.swap_runs_to_end(amount, min_amount_out, is_token_in_token_a),
    {
        let (user_in, pool_in, pool_out, profit) = if is_token_in_token_a {
            (
                self.user_token_a_account.amount,
                self.swap_pool_token_a_account.amount,
                self.swap_pool_token_b_account.amount,
                self.swap_pool.profit_of_token_a_amount_to_be_distributed,
            )
        } else {
            (
                self.user_token_b_account.amount,
                self.swap_pool_token_b_account.amount,
                self.swap_pool_token_a_account.amount,
                self.swap_pool.profit_of_token_b_amount_to_be_distributed,
            )
        };
        if user_in < amount {
            return false;
        }
        let effective_in = match pool_in.checked_add(amount) {
            Some(v) => v,
            None => {
                return true;
            },
        };
        if effective_in == 0 {
            return true;
        }
        let reserve = reserve_after(self.swap_pool.initial_amount_a, self.swap_pool.initial_amount_b, pool_in, amount);
        if reserve > pool_out {
            return true;
        }
        let output: u64 = pool_out - reserve;
        let treasury = compute_percent(output, self.swap_pool.swap_fee_percentage);
        if treasury > output as u128 {
            return true;
        }
        let treasury_share = treasury as u64;
        if output - treasury_share < min_amount_out {
            return false;
        }
        profit.checked_add(treasury_share).is_none()
    }

    /// The answer to a swap request: refused when the user holds too little of
    /// the token paid in, or when the user's share falls below the limit;
    /// otherwise the quote.
    pub open spec fn swap_outcome(self, amount: u64, min_amount_out: u64, is_token_in_token_a: bool) -> Result<SwapQuote, SwapverseError> {
        if self.user_in_balance(is_token_in_token_a) < amount {
            Err(SwapverseError::NotEnoughTokens)
        } else if self.user_share(amount, is_token_in_token_a) < min_amount_out {
            Err(SwapverseError::NotEnoughOutput)
        } else {
            Ok(SwapQuote {
                output_amount: self.output_amount(amount, is_token_in_token_a) as u64,
                treasury_share: self.treasury_share(amount, is_token_in_token_a) as u64,
                user_share: self.user_share(amount, is_token_in_token_a) as u64,
            })
        }
    }

    /// Swaps `amount` tokens of one side of the pool for tokens of the other.
    /// The user pays `amount` into the pool's input side; the pool pays
    /// `user_share` to the user and `treasury_share` to its treasury from its
    /// output side; the fee is added to the pool's profit counter.
    pub fn swap_token(&mut self, amount: u64, min_amount_out: u64, is_token_in_token_a: bool) -> (r: Result<SwapQuote, SwapverseError>)
        requires
            old(self).swap_runs_to_end(amount, min_amount_out, is_token_in_token_a),
        ensures
            r == old(self).swap_outcome(amount, min_amount_out, is_token_in_token_a),
            is_token_in_token_a ==> (r == Err::<SwapQuote, SwapverseError>(SwapverseError::NotEnoughTokens)
                <==> old(self).user_token_a_account.amount < amount),
            !is_token_in_token_a ==> (r == Err::<SwapQuote, SwapverseError>(SwapverseError::NotEnoughTokens)
                <==> old(self).user_token_b_account.amount < amount),
            old(self).user_in_balance(is_token_in_token_a) < amount ==> r == Err::<SwapQuote, SwapverseError>(SwapverseError::NotEnoughTokens),
            old(self).user_in_balance(is_token_in_token_a) >= amount && old(self).user_share(amount, is_token_in_token_a) < min_amount_out
                ==> r == Err::<SwapQuote, SwapverseError>(SwapverseError::NotEnoughOutput),
            r is Err ==> *final(self) == *old(self),
            old(self).swap_goes_through(amount, min_amount_out, is_token_in_token_a) ==> r is Ok,
            old(self).swap_pool.phase_is_consistent() ==> final(self).swap_pool.phase_is_consistent(),
            r matches Ok(q) ==> {
                &&& q.user_share + q.treasury_share == q.output_amount
                &&& q.output_amount <= old(self).pool_out_balance(is_token_in_token_a)
                &&& q.output_amount == old(self).output_amount(amount, is_token_in_token_a)
                &&& q.treasury_share == old(self).treasury_share(amount, is_token_in_token_a)
                &&& q.user_share == old(self).user_share(amount, is_token_in_token_a)
                &&& final(self).profit_counter(is_token_in_token_a) == old(self).profit_counter(is_token_in_token_a) + q.treasury_share
                &&& final(self).profit_counter(!is_token_in_token_a) == old(self).profit_counter(!is_token_in_token_a)
                &&& (*final(self) == SwapToken { swap_pool: final(self).swap_pool, ..*old(self) })
                &&& (final(self).swap_pool == SwapPool {
                    profit_of_token_a_amount_to_be_distributed: final(self).swap_pool.profit_of_token_a_amount_to_be_distributed,
                    profit_of_token_b_amount_to_be_distributed: final(self).swap_pool.profit_of_token_b_amount_to_be_distributed,
                    ..old(self).swap_pool
                })
            },
    {
        let user_in: u64 = if is_token_in_token_a {
            self.user_token_a_account.amount
        } else {
            self.user_token_b_account.amount
        };
        if user_in < amount {
            return Err(SwapverseError::NotEnoughTokens);
        }
        let (pool_in, pool_out) = if is_token_in_token_a {
            (self.swap_pool_token_a_account.amount, self.swap_pool_token_b_account.amount)
        } else {
            (self.swap_pool_token_b_account.amount, self.swap_pool_token_a_account.amount)
        };
        let q = quote_swap(
            self.swap_pool.initial_amount_a,
            self.swap_pool.initial_amount_b,
            pool_in,
            pool_out,
            amount,
            self.swap_pool.swap_fee_percentage,
        );
        if q.user_share < min_amount_out {
            return Err(SwapverseError::NotEnoughOutput);
        }
        if is_token_in_token_a {
            self.swap_pool.profit_of_token_a_amount_to_be_distributed =
                self.swap_pool.profit_of_token_a_amount_to_be_distributed + q.treasury_share;
        } else {
            self.swap_pool.profit_of_token_b_amount_to_be_distributed =
                self.swap_pool.profit_of_token_b_amount_to_be_distributed + q.treasury_share;
        }
        Ok(q)
    }
}

/// A swap is refused for lack of tokens exactly when the user's account of
/// the token paid in holds less than the amount: token A's account when A is
/// paid in, token B's account when B is paid in.
pub proof fn lemma_swap_refused_for_lack_of_tokens_exactly(
    s: SwapToken,
    amount: u64,
    min_amount_out: u64,
    is_token_in_token_a: bool,
)
    ensures
        is_token_in_token_a ==> (s.swap_outcome(amount, min_amount_out, is_token_in_token_a)
            == Err::<SwapQuote, SwapverseError>(SwapverseError::NotEnoughTokens)
            <==> s.user_token_a_account.amount < amount),
        !is_token_in_token_a ==> (s.swap_outcome(amount, min_amount_out, is_token_in_token_a)
            == Err::<SwapQuote, SwapverseError>(SwapverseError::NotEnoughTokens)
            <==> s.user_token_b_account.amount < amount),
{
}

/// The user's account of the token received plays no part in a swap: two
/// requests that differ only in it get the same answer.
pub proof fn lemma_swap_ignores_balance_of_token_received(
    s: SwapToken,
    t: SwapToken,
    amount: u64,
    min_amount_out: u64,
    is_token_in_token_a: bool,
)
    requires
        t == (SwapToken {
            user_token_a_account: t.user_token_a_account,
            user_token_b_account: t.user_token_b_account,
            ..s
        }),
        is_token_in_token_a ==> t.user_token_a_account == s.user_token_a_account,
        !is_token_in_token_a ==> t.user_token_b_account == s.user_token_b_account,
    ensures
        t.swap_outcome(amount, min_amount_out, is_token_in_token_a) == s.swap_outcome(
            amount,
            min_amount_out,
            is_token_in_token_a,
        ),
{
}

/// The quote of a swap that goes through, on the accounts: the output side
/// keeps the product of the initial amounts divided by the input side's new
/// balance (cut to 64 bits); the rest leaves it, of which the fee percentage
/// (rounded down) goes to the treasury and the remainder to the user.
pub proof fn lemma_swap_quote_on_accounts(s: SwapToken, amount: u64, min_amount_out: u64, is_token_in_token_a: bool)
    requires
        s.swap_outcome(amount, min_amount_out, is_token_in_token_a) is Ok,
    ensures
        ({
            let q = s.swap_outcome(amount, min_amount_out, is_token_in_token_a)->Ok_0;
            let inv = s.swap_pool.initial_amount_a * s.swap_pool.initial_amount_b;
            let pool_in = if is_token_in_token_a {
                s.swap_pool_token_a_account.amount
            } else {
                s.swap_pool_token_b_account.amount
            };
            let pool_out = if is_token_in_token_a {
                s.swap_pool_token_b_account.amount
            } else {
                s.swap_pool_token_a_account.amount
            };
            let out = pool_out - (inv / (pool_in + amount)) % 0x1_0000_0000_0000_0000;
            let fee = out * s.swap_pool.swap_fee_percentage / 100;
            &&& q.output_amount == out as u64
            &&& q.treasury_share == fee as u64
            &&& q.user_share == (out - fee) as u64
        }),
{
}

/// A swap keeps the pool on its price curve: once the user's payment has
/// reached the input side and the user's share and the fee have left the
/// output side, the product of the two balances is at most the product of the
/// pool's initial amounts; and the payout never exceeds the output side's
/// balance.
pub proof fn lemma_swap_token_respects_invariant(s: SwapToken, amount: u64, is_token_in_token_a: bool)
    requires
        s.quote_is_defined(amount, is_token_in_token_a),
    ensures
        0 <= s.treasury_share(amount, is_token_in_token_a),
        0 <= s.user_share(amount, is_token_in_token_a),
        s.user_share(amount, is_token_in_token_a) + s.treasury_share(amount, is_token_in_token_a)
            <= s.pool_out_balance(is_token_in_token_a),
        (s.pool_in_balance(is_token_in_token_a) + amount) * (s.pool_out_balance(is_token_in_token_a)
            - s.user_share(amount, is_token_in_token_a) - s.treasury_share(amount, is_token_in_token_a))
            <= pool_invariant(s.swap_pool.initial_amount_a, s.swap_pool.initial_amount_b),
{
    lemma_swap_respects_invariant(
        s.swap_pool.initial_amount_a,
        s.swap_pool.initial_amount_b,
        s.pool_in_balance(is_token_in_token_a),
        s.pool_out_balance(is_token_in_token_a),
        amount,
        s.swap_pool.swap_fee_percentage,
    );
    let out = s.output_amount(amount, is_token_in_token_a);
    let fee = s.swap_pool.swap_fee_percentage as int;
    assert(out >= 0);
    assert(out * fee >= 0) by (nonlinear_arith)
        requires
            out >= 0,
            fee >= 0,
    ;
}

} // verus!
