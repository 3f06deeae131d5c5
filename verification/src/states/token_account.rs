use vstd::prelude::*;
use crate::key::AccountKey;

verus! {

/// What the program reads of an SPL token account: its mint, its owner, its
/// balance and whether it is frozen.
#[derive(Clone, Copy, Debug)]
pub struct TokenAccountState {
    pub mint: AccountKey,
    pub owner: AccountKey,
    pub amount: u64,
    pub is_frozen: bool,
}

} // verus!
