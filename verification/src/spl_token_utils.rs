use vstd::prelude::*;
use crate::error::SwapverseError;
use crate::states::TokenAccountState;

verus! {

/// Which of the token accounts of an operation a step applies to.
#[derive(Clone, Copy, Debug, PartialEq, Eq, Structural)]
pub enum TokenAccountSide {
    Source,
    Destination,
}

/// One call to the token program, as the program's helpers issue them.
#[derive(Clone, Copy, Debug, PartialEq, Eq, Structural)]
pub enum TokenOp {
    Thaw(TokenAccountSide),
    Freeze(TokenAccountSide),
    MintTo(u64),
    Burn(u64),
    Transfer(u64),
}

/// A thaw of `side`, if its account is frozen, and nothing otherwise.
pub open spec fn thaw_if_frozen(is_frozen: bool, side: TokenAccountSide) -> Seq<TokenOp> {
    if is_frozen {
        seq![TokenOp::Thaw(side)]
    } else {
        Seq::empty()
    }
}

/// The calls that mint `amount` pool-share tokens to an account that is kept
/// frozen: thaw it if it is frozen, mint, freeze it.
pub fn plan_mint_frozen_tokens(amount: u64, to: &TokenAccountState) -> (r: Vec<TokenOp>)
    ensures
        r@ == thaw_if_frozen(to.is_frozen, TokenAccountSide::Destination) + seq![
            TokenOp::MintTo(amount),
            TokenOp::Freeze(TokenAccountSide::Destination),
        ],
{
    let mut ops: Vec<TokenOp> = Vec::new();
    if to.is_frozen {
        ops.push(TokenOp::Thaw(TokenAccountSide::Destination));
    }
    ops.push(TokenOp::MintTo(amount));
    ops.push(TokenOp::Freeze(TokenAccountSide::Destination));
    assert(ops@ =~= thaw_if_frozen(to.is_frozen, TokenAccountSide::Destination) + seq![
        TokenOp::MintTo(amount),
        TokenOp::Freeze(TokenAccountSide::Destination),
    ]);
    ops
}

/// The calls that burn `amount` tokens of an account that is kept frozen:
/// thaw it if it is frozen, burn, freeze it. A burn of more than the
/// account's balance is refused.
pub fn plan_burn_tokens(amount: u64, from: &TokenAccountState) -> (r: Result<Vec<TokenOp>, SwapverseError>)
    ensures
        amount > from.amount ==> r == Err::<Vec<TokenOp>, SwapverseError>(SwapverseError::NotEnoughTokens),
        amount <= from.amount ==> r is Ok,
        r matches Ok(ops) ==> ops@ == thaw_if_frozen(from.is_frozen, TokenAccountSide::Source) + seq![
            TokenOp::Burn(amount),
            TokenOp::Freeze(TokenAccountSide::Source),
        ],
{
    let mut ops: Vec<TokenOp> = Vec::new();
    if from.is_frozen {
        ops.push(TokenOp::Thaw(TokenAccountSide::Source));
    }
    if amount > from.amount {
        return Err(SwapverseError::NotEnoughTokens);
    }
    ops.push(TokenOp::Burn(amount));
    ops.push(TokenOp::Freeze(TokenAccountSide::Source));
    assert(ops@ =~= thaw_if_frozen(from.is_frozen, TokenAccountSide::Source) + seq![
        TokenOp::Burn(amount),
        TokenOp::Freeze(TokenAccountSide::Source),
    ]);
    Ok(ops)
}

/// The calls that move `amount` tokens between two accounts that are kept
/// frozen: thaw each that is frozen, transfer, freeze both.
pub fn plan_signed_transfer_frozen_tokens(
    amount: u64,
    from: &TokenAccountState,
    to: &TokenAccountState,
) -> (r: Vec<TokenOp>)
    ensures
        r@ == thaw_if_frozen(from.is_frozen, TokenAccountSide::Source) + thaw_if_frozen(
            to.is_frozen,
            TokenAccountSide::Destination,
        ) + seq![
            TokenOp::Transfer(amount),
            TokenOp::Freeze(TokenAccountSide::Source),
            TokenOp::Freeze(TokenAccountSide::Destination),
        ],
{
    let mut ops: Vec<TokenOp> = Vec::new();
    if from.is_frozen {
        ops.push(TokenOp::Thaw(TokenAccountSide::Source));
    }
    if to.is_frozen {
        ops.push(TokenOp::Thaw(TokenAccountSide::Destination));
    }
    ops.push(TokenOp::Transfer(amount));
    ops.push(TokenOp::Freeze(TokenAccountSide::Source));
    ops.push(TokenOp::Freeze(TokenAccountSide::Destination));
    assert(ops@ =~= thaw_if_frozen(from.is_frozen, TokenAccountSide::Source) + thaw_if_frozen(
        to.is_frozen,
        TokenAccountSide::Destination,
    ) + seq![
        TokenOp::Transfer(amount),
        TokenOp::Freeze(TokenAccountSide::Source),
        TokenOp::Freeze(TokenAccountSide::Destination),
    ]);
    ops
}

} // verus!
