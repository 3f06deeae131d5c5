use vstd::prelude::*;
use crate::error::SwapverseError;
use crate::key::AccountKey;
use crate::states::global_state::is_mint_valid;
use crate::states::GlobalState;

verus! {

/// The faucet mints at most this many tokens at once.
pub const TEST_TOKEN_LIMIT: u64 = 10_000_000;

/// What a faucet request reads: the global state and the mint asked for.
#[derive(Clone, Copy, Debug)]
pub struct GetTestTokens {
    pub global_state: GlobalState,
    pub token_mint: AccountKey,
}

impl GetTestTokens {
    /// The account rule that the request breaks, if any: the mint must be an
    /// accepted stable coin.
    pub open spec fn accounts_error(self) -> Option<SwapverseError> {
        if !self.global_state.lists_mint(self.token_mint@) {
            Some(SwapverseError::InvalidTokenMint)
        } else {
            None
        }
    }

    /// Checks the mint of a faucet request.
    pub fn check_accounts(&self) -> (r: Result<(), SwapverseError>)
        ensures
            r == (match self.accounts_error() {
                Some(e) => Err(e),
                None => Ok(()),
            }),
    {
        if !is_mint_valid(&self.global_state, self.token_mint) {
            Err(SwapverseError::InvalidTokenMint)
        } else {
            Ok(())
        }
    }

    /// The number of test tokens to mint to the requester: `amount`, if it is
    /// within the faucet's limit.
    pub fn get_test_tokens(&self, amount: u64) -> (r: Result<u64, SwapverseError>)
        ensures
            amount <= TEST_TOKEN_LIMIT ==> r == Ok::<u64, SwapverseError>(amount),
            amount > TEST_TOKEN_LIMIT ==> r == Err::<u64, SwapverseError>(SwapverseError::TokenAmountLimitExceeded),
    {
        if amount > TEST_TOKEN_LIMIT {
            return Err(SwapverseError::TokenAmountLimitExceeded);
        }
        Ok(amount)
    }
}

} // verus!
