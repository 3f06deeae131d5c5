use swapverse::error::SwapverseError;
use swapverse::pool_math::{compute_profit_entitlement, compute_withdrawal_amount, quote_swap};

#[test]
fn quote_swap_balanced_pool() {
    // invariant 1_000_000; new input balance 1_100; kept 909; output 91.
    let q = quote_swap(1_000, 1_000, 1_000, 1_000, 100, 3);
    assert_eq!(q.output_amount, 91);
    assert_eq!(q.treasury_share, 2);
    assert_eq!(q.user_share, 89);
}

#[test]
fn quote_swap_without_fee_pays_whole_output() {
    let q = quote_swap(1_000, 1_000, 1_000, 1_000, 1_000, 0);
    assert_eq!(q.output_amount, 500);
    assert_eq!(q.treasury_share, 0);
    assert_eq!(q.user_share, 500);
}

#[test]
fn quote_swap_full_fee_pays_user_nothing() {
    let q = quote_swap(1_000, 1_000, 1_000, 1_000, 1_000, 100);
    assert_eq!(q.output_amount, 500);
    assert_eq!(q.treasury_share, 500);
    assert_eq!(q.user_share, 0);
}

#[test]
fn quote_swap_kept_balance_is_cut_to_64_bits() {
    // invariant 2^64 over a new input balance of 1 is 2^64, which the cast
    // to u64 turns into 0: the whole output side leaves the pool.
    let q = quote_swap(1u64 << 32, 1u64 << 32, 0, 5, 1, 0);
    assert_eq!(q.output_amount, 5);
    assert_eq!(q.user_share, 5);
}

#[test]
fn quote_swap_respects_invariant_on_values() {
    let (ia, ib, pool_in, pool_out, amount) = (5_000u64, 5_000u64, 4_000u64, 6_000u64, 700u64);
    let q = quote_swap(ia, ib, pool_in, pool_out, amount, 5);
    let new_in = (pool_in + amount) as u128;
    let new_out = (pool_out - q.user_share - q.treasury_share) as u128;
    assert!(new_in * new_out <= (ia as u128) * (ib as u128));
    assert!(new_in * (new_out + 1) > (ia as u128) * (ib as u128));
    assert_eq!(q.user_share + q.treasury_share, q.output_amount);
}

#[test]
fn withdrawal_amount_is_proportional() {
    assert_eq!(compute_withdrawal_amount(500, 200, 1_000), 100);
    assert_eq!(compute_withdrawal_amount(999, 1, 1_000), 0);
    assert_eq!(compute_withdrawal_amount(1_000, 1_000, 1_000), 1_000);
}

#[test]
fn withdrawal_amount_is_cut_to_64_bits() {
    // (2^63 * 4) / 1 = 2^65, whose low 64 bits are zero.
    assert_eq!(compute_withdrawal_amount(1u64 << 63, 4, 1), 0);
}

#[test]
fn profit_entitlement_takes_platform_cut_first() {
    // profit 1000, platform cut 10% = 100, investors' 900, a quarter of it.
    assert_eq!(compute_profit_entitlement(1_000, 10, 250, 1_000), 225);
    assert_eq!(compute_profit_entitlement(1_000, 0, 1_000, 1_000), 1_000);
    assert_eq!(compute_profit_entitlement(1_000, 100, 1_000, 1_000), 0);
    // holding the whole initial amount in shares: the whole investors' part.
    assert_eq!(compute_profit_entitlement(1_000, 10, 1_000, 1_000), 900);
}

#[test]
fn error_codes_follow_declaration_order() {
    assert_eq!(SwapverseError::UnauthorizedSigner.code(), 6000);
    assert_eq!(SwapverseError::InvalidTokenMint.code(), 6001);
    assert_eq!(SwapverseError::SwapPoolNotActivated.code(), 6013);
    assert_eq!(SwapverseError::NotEnoughOutput.code(), 6016);
}

#[test]
fn error_messages() {
    assert_eq!(SwapverseError::DepositAmountIsZero.message(), "Deposit amount is zero");
    assert_eq!(
        SwapverseError::TokenAmountLimitExceeded.message(),
        "Maximum 10_000_000 tokens can be minted at once"
    );
    assert_eq!(
        SwapverseError::SameTokenMints.message(),
        "Token a mint and token b mint can not be same"
    );
}

#[test]
fn swap_round_trip_never_gains() {
    let first = quote_swap(1_000, 1_000, 1_000, 1_000, 100, 3);
    assert_eq!(first.user_share, 89);
    // the output side kept 909; the input side now holds 1_100.
    let back = quote_swap(1_000, 1_000, 909, 1_100, first.user_share, 3);
    assert_eq!((back.output_amount, back.treasury_share, back.user_share), (98, 2, 96));
    assert!(back.user_share <= 100);
    let free = quote_swap(1_000, 1_000, 1_000, 1_000, 250, 0);
    let free_back = quote_swap(1_000, 1_000, 800, 1_250, free.user_share, 0);
    assert!(free_back.user_share <= 250);
}
