use swapverse::error::SwapverseError;
use swapverse::instructions::{
    ClaimProfit, CreateSwapPool, GetTestTokens, InitializeGlobalState, InvestSwapPool, ProfitClaim, SwapToken,
    WithdrawAmounts, WithdrawSwapPool,
};
use swapverse::key::AccountKey;
use swapverse::spl_token_utils::{
    plan_burn_tokens, plan_mint_frozen_tokens, plan_signed_transfer_frozen_tokens, TokenAccountSide, TokenOp,
};
use swapverse::states::global_state::is_mint_valid;
use swapverse::states::{GlobalState, InvestorPoolInfo, SwapPool, TokenAccountState};

const DAY: i64 = 86_400;

fn key(n: u8) -> AccountKey {
    AccountKey::new([n; 32])
}

fn same(a: &AccountKey, b: &AccountKey) -> bool {
    a.bytes == b.bytes
}

fn token_account(mint: u8, owner: u8, amount: u64) -> TokenAccountState {
    TokenAccountState { mint: key(mint), owner: key(owner), amount, is_frozen: false }
}

// Mints 1..=5 are the accepted stable coins; 11 and 12 the pool-share mints;
// 20 the investor; 30 the pool's address.
fn global_state() -> GlobalState {
    let mut init = InitializeGlobalState {
        global_state: GlobalState::default(),
        usdc_token_mint: key(1),
        usdt_token_mint: key(2),
        uxd_token_mint: key(3),
        pai_token_mint: key(4),
        usdh_token_mint: key(5),
    };
    assert_eq!(init.initialize_global_state(&254), Ok(()));
    init.global_state
}

fn created_pool(created_at: i64) -> SwapPool {
    let mut create = CreateSwapPool {
        global_state: global_state(),
        swap_pool: SwapPool::default(),
        token_a_mint: key(1),
        token_b_mint: key(2),
        pool_share_token_a_mint: key(11),
        pool_share_token_b_mint: key(12),
    };
    assert_eq!(create.check_accounts(), Ok(()));
    assert_eq!(create.create_swap_pool(1_000, 1_000, 3, 10, 10, 2, 30, created_at), Ok(()));
    create.swap_pool
}

fn invest_ctx(pool: SwapPool, mint: u8, share_mint: u8, pool_balance: u64) -> InvestSwapPool {
    InvestSwapPool {
        investor: key(20),
        swap_pool: pool,
        swap_pool_key: key(30),
        token_mint: key(mint),
        swap_pool_token_account: token_account(mint, 40, pool_balance),
        investor_token_account: token_account(mint, 20, 5_000),
        pool_share_token_mint: key(share_mint),
        investor_pool_info: InvestorPoolInfo::default(),
    }
}

fn active_pool() -> SwapPool {
    let pool = created_pool(100);
    let mut a = invest_ctx(pool, 1, 11, 0);
    assert_eq!(a.invest_swap_pool(1_000, 200), Ok(1_000));
    let mut b = invest_ctx(a.swap_pool, 2, 12, 0);
    assert_eq!(b.invest_swap_pool(1_000, 300), Ok(1_000));
    b.swap_pool
}

fn swap_ctx(pool: SwapPool, pool_a: u64, pool_b: u64) -> SwapToken {
    SwapToken {
        user: key(21),
        swap_pool: pool,
        token_a_mint: key(1),
        token_b_mint: key(2),
        user_token_a_account: token_account(1, 21, 500),
        user_token_b_account: token_account(2, 21, 500),
        swap_pool_token_a_account: token_account(1, 40, pool_a),
        swap_pool_token_b_account: token_account(2, 40, pool_b),
    }
}

fn claim_ctx(pool: SwapPool, mint: u8, share_mint: u8, share: u64) -> ClaimProfit {
    ClaimProfit {
        investor: key(20),
        swap_pool: pool,
        withdraw_token_mint: key(mint),
        token_a_mint: key(1),
        token_b_mint: key(2),
        investor_token_account: token_account(mint, 20, 0),
        pool_share_token_mint: key(share_mint),
        investor_pool_share_token_account: token_account(share_mint, 20, share),
        investor_pool_info: InvestorPoolInfo::default(),
    }
}

fn withdraw_ctx(pool: SwapPool, pool_a: u64, pool_b: u64, share_a: u64, share_b: u64) -> WithdrawSwapPool {
    WithdrawSwapPool {
        investor: key(20),
        swap_pool: pool,
        token_a_mint: key(1),
        token_b_mint: key(2),
        swap_pool_token_a_account: token_account(1, 40, pool_a),
        swap_pool_token_b_account: token_account(2, 40, pool_b),
        investor_token_a_account: token_account(1, 20, 0),
        investor_token_b_account: token_account(2, 20, 0),
        pool_share_token_a_mint: key(11),
        pool_share_token_b_mint: key(12),
        investor_pool_share_token_a_account: token_account(11, 20, share_a),
        investor_pool_share_token_b_account: token_account(12, 20, share_b),
    }
}

#[test]
fn initialize_global_state_records_mints_in_order() {
    let g = global_state();
    for i in 0..5 {
        assert!(same(&g.token_mints[i], &key(i as u8 + 1)));
    }
    assert_eq!(g.signing_authority_bump, 254);
    assert_eq!(g.no_of_swap_pools, 0);
}

#[test]
fn is_mint_valid_accepts_only_listed_mints() {
    let g = global_state();
    assert!(is_mint_valid(&g, key(3)));
    assert!(is_mint_valid(&g, key(5)));
    assert!(!is_mint_valid(&g, key(6)));
    let mut k = key(1);
    k.bytes[31] = 9;
    assert!(!is_mint_valid(&g, k));
}

#[test]
fn key_comparison_is_bytewise() {
    let mut k = key(7);
    assert!(k.same_as(&key(7)));
    k.bytes[0] = 8;
    assert!(!k.same_as(&key(7)));
    assert!(AccountKey::zeroed().same_as(&key(0)));
}

#[test]
fn create_swap_pool_numbers_pools_in_sequence() {
    let mut create = CreateSwapPool {
        global_state: global_state(),
        swap_pool: SwapPool::default(),
        token_a_mint: key(1),
        token_b_mint: key(2),
        pool_share_token_a_mint: key(11),
        pool_share_token_b_mint: key(12),
    };
    create.global_state.no_of_swap_pools = 7;
    assert_eq!(create.create_swap_pool(500, 500, 1, 2, 3, 4, 5, 1_234), Ok(()));
    let p = create.swap_pool;
    assert_eq!(p.pool_number, 7);
    assert_eq!(create.global_state.no_of_swap_pools, 8);
    assert!(p.open_for_investment && !p.active_for_swap && !p.open_for_withdrawal);
    assert_eq!(p.created_at, 1_234);
    assert_eq!(p.activated_at, i64::MAX);
    assert_eq!((p.initial_amount_a, p.initial_amount_b), (500, 500));
    assert_eq!((p.swap_fee_percentage, p.swapverse_fee_percentage), (1, 2));
    assert_eq!((p.min_investment_amount, p.max_days_to_fill, p.swap_life_in_days), (3, 4, 5));
    assert!(same(&p.pool_share_token_b_mint, &key(12)));
}

#[test]
fn create_swap_pool_refuses_unequal_amounts() {
    let mut create = CreateSwapPool {
        global_state: global_state(),
        swap_pool: SwapPool::default(),
        token_a_mint: key(1),
        token_b_mint: key(2),
        pool_share_token_a_mint: key(11),
        pool_share_token_b_mint: key(12),
    };
    assert_eq!(create.create_swap_pool(500, 501, 1, 2, 3, 4, 5, 0), Err(SwapverseError::InitialAmountsNotSame));
    assert_eq!(create.global_state.no_of_swap_pools, 0);
}

#[test]
fn create_swap_pool_account_errors() {
    let mut create = CreateSwapPool {
        global_state: global_state(),
        swap_pool: SwapPool::default(),
        token_a_mint: key(9),
        token_b_mint: key(2),
        pool_share_token_a_mint: key(11),
        pool_share_token_b_mint: key(12),
    };
    assert_eq!(create.check_accounts(), Err(SwapverseError::InvalidTokenMint));
    create.token_a_mint = key(2);
    assert_eq!(create.check_accounts(), Err(SwapverseError::SameTokenMints));
    create.token_b_mint = key(8);
    assert_eq!(create.check_accounts(), Err(SwapverseError::InvalidTokenMint));
}

#[test]
fn get_test_tokens_limit() {
    let faucet = GetTestTokens { global_state: global_state(), token_mint: key(4) };
    assert_eq!(faucet.check_accounts(), Ok(()));
    assert_eq!(faucet.get_test_tokens(9_999_999), Ok(9_999_999));
    assert_eq!(faucet.get_test_tokens(10_000_000), Ok(10_000_000));
    assert_eq!(faucet.get_test_tokens(10_000_001), Err(SwapverseError::TokenAmountLimitExceeded));
    let other = GetTestTokens { global_state: global_state(), token_mint: key(6) };
    assert_eq!(other.check_accounts(), Err(SwapverseError::InvalidTokenMint));
}

#[test]
fn invest_caps_deposit_at_remaining_amount() {
    let pool = created_pool(100);
    let mut ctx = invest_ctx(pool, 1, 11, 700);
    ctx.swap_pool.token_a_amount_to_be_distributed = 700;
    assert_eq!(ctx.check_accounts(1_000), Ok(()));
    assert_eq!(ctx.invest_swap_pool(1_000, 150), Ok(300));
    assert_eq!(ctx.swap_pool.token_a_amount_to_be_distributed, 1_000);
    assert!(same(&ctx.investor_pool_info.investor, &key(20)));
    assert!(same(&ctx.investor_pool_info.swap_pool, &key(30)));
    // side B is still empty: the pool keeps taking investments.
    assert!(ctx.swap_pool.open_for_investment);
    assert!(!ctx.swap_pool.active_for_swap);
}

#[test]
fn invest_activates_pool_when_both_sides_filled() {
    let pool = active_pool();
    assert!(!pool.open_for_investment);
    assert!(pool.active_for_swap);
    assert_eq!(pool.activated_at, 300);
    assert_eq!(pool.token_a_amount_to_be_distributed, 1_000);
    assert_eq!(pool.token_b_amount_to_be_distributed, 1_000);
}

#[test]
fn invest_refuses_filled_side_and_closed_pool() {
    let pool = created_pool(100);
    let mut ctx = invest_ctx(pool, 1, 11, 1_000);
    assert_eq!(ctx.invest_swap_pool(50, 150), Err(SwapverseError::DepositAmountIsZero));
    let mut closed = invest_ctx(active_pool(), 1, 11, 0);
    assert_eq!(closed.invest_swap_pool(50, 400), Err(SwapverseError::SwapPoolNotOpenForInvestment));
    assert_eq!(closed.check_accounts(50), Err(SwapverseError::SwapPoolNotOpenForInvestment));
}

#[test]
fn invest_account_errors() {
    let pool = created_pool(100);
    let mut ctx = invest_ctx(pool, 1, 11, 0);
    assert_eq!(ctx.check_accounts(9), Err(SwapverseError::InsufficientAmount));
    // the amount must be greater than the minimum, not equal to it.
    assert_eq!(ctx.check_accounts(10), Err(SwapverseError::InsufficientAmount));
    assert_eq!(ctx.check_accounts(11), Ok(()));
    ctx.token_mint = key(3);
    assert_eq!(ctx.check_accounts(11), Err(SwapverseError::InvalidPoolTokenMint));
    ctx.token_mint = key(1);
    ctx.investor_token_account.owner = key(22);
    assert_eq!(ctx.check_accounts(11), Err(SwapverseError::InvalidInvestorTokenAccountOwner));
    ctx.investor_token_account.owner = key(20);
    ctx.investor_token_account.mint = key(2);
    assert_eq!(ctx.check_accounts(11), Err(SwapverseError::InvalidInvestorTokenAccountMint));
    ctx.investor_token_account.mint = key(1);
    ctx.pool_share_token_mint = key(12);
    assert_eq!(ctx.check_accounts(11), Err(SwapverseError::InvalidPoolShareTokenMint));
}

#[test]
fn swap_token_a_for_b() {
    let mut ctx = swap_ctx(active_pool(), 1_000, 1_000);
    assert_eq!(ctx.check_accounts(), Ok(()));
    let q = ctx.swap_token(100, 80, true).unwrap();
    assert_eq!((q.output_amount, q.treasury_share, q.user_share), (91, 2, 89));
    // the fee is counted on the token-A profit counter.
    assert_eq!(ctx.swap_pool.profit_of_token_a_amount_to_be_distributed, 2);
    assert_eq!(ctx.swap_pool.profit_of_token_b_amount_to_be_distributed, 0);
}

#[test]
fn swap_token_b_for_a() {
    let mut ctx = swap_ctx(active_pool(), 800, 1_250);
    let q = ctx.swap_token(250, 0, false).unwrap();
    // invariant 1_000_000 / 1_500 = 666; output 800 - 666 = 134.
    assert_eq!((q.output_amount, q.treasury_share, q.user_share), (134, 4, 130));
    assert_eq!(ctx.swap_pool.profit_of_token_b_amount_to_be_distributed, 4);
}

#[test]
fn swap_token_errors() {
    let mut ctx = swap_ctx(active_pool(), 1_000, 1_000);
    assert_eq!(ctx.swap_token(501, 0, true), Err(SwapverseError::NotEnoughTokens));
    assert_eq!(ctx.swap_token(100, 90, true), Err(SwapverseError::NotEnoughOutput));
    assert_eq!(ctx.swap_pool.profit_of_token_a_amount_to_be_distributed, 0);
    ctx.token_b_mint = key(1);
    assert_eq!(ctx.check_accounts(), Err(SwapverseError::InvalidPoolTokenMint));
    ctx.swap_pool.token_b_mint = key(1);
    assert_eq!(ctx.check_accounts(), Err(SwapverseError::SameTokenMints));
}

#[test]
fn claim_profit_pays_share_once() {
    let mut pool = active_pool();
    pool.profit_of_token_a_amount_to_be_distributed = 1_000;
    let mut ctx = claim_ctx(pool, 1, 11, 250);
    assert_eq!(ctx.check_accounts(), Ok(()));
    assert_eq!(ctx.claim_profit(), Ok(ProfitClaim { from_token_a_treasury: true, amount: 225 }));
    assert_eq!(ctx.investor_pool_info.profit_for_token_a_withdrawn, 225);
    assert_eq!(ctx.claim_profit(), Err(SwapverseError::WithdrawAmountIsZero));
    // more profit arrives: only the difference is paid.
    ctx.swap_pool.profit_of_token_a_amount_to_be_distributed = 2_000;
    assert_eq!(ctx.claim_profit(), Ok(ProfitClaim { from_token_a_treasury: true, amount: 225 }));
    assert_eq!(ctx.investor_pool_info.profit_for_token_a_withdrawn, 450);
}

#[test]
fn claim_profit_refused_before_activation() {
    let mut ctx = claim_ctx(created_pool(100), 2, 12, 250);
    assert_eq!(ctx.claim_profit(), Err(SwapverseError::SwapPoolNotActivated));
}

#[test]
fn claim_profit_account_errors() {
    let mut ctx = claim_ctx(active_pool(), 3, 11, 250);
    assert_eq!(ctx.check_accounts(), Err(SwapverseError::InvalidPoolTokenMint));
    ctx = claim_ctx(active_pool(), 2, 11, 250);
    assert_eq!(ctx.check_accounts(), Err(SwapverseError::InvalidPoolShareTokenMint));
}

#[test]
fn withdraw_refused_while_pool_runs() {
    let mut ctx = withdraw_ctx(active_pool(), 1_000, 1_000, 500, 0);
    assert_eq!(ctx.check_accounts(), Ok(()));
    assert_eq!(ctx.withdraw_swap_pool(true, 100 + 30 * DAY), Err(SwapverseError::SwapPoolNotOpenForWithdrawal));
    assert!(!ctx.swap_pool.open_for_withdrawal);
}

#[test]
fn withdraw_after_pool_life_splits_share() {
    let mut ctx = withdraw_ctx(active_pool(), 800, 1_200, 500, 0);
    let w = ctx.withdraw_swap_pool(true, 100 + 30 * DAY + 1).unwrap();
    // 800 * 500 / 1_000 = 400 of token A; the rest of the share in token B.
    assert!(ctx.swap_pool.open_for_withdrawal);
    assert!(!ctx.swap_pool.open_for_investment);
    assert_eq!(ctx.swap_pool.token_a_amount_to_be_distributed, 800);
    assert_eq!(ctx.swap_pool.token_b_amount_to_be_distributed, 1_200);
    assert_eq!(w, WithdrawAmounts { token_a_amount: 400, token_b_amount: 100 });
}

#[test]
fn withdraw_total_equals_share() {
    let mut ctx = withdraw_ctx(active_pool(), 1_100, 900, 0, 400);
    let w = ctx.withdraw_swap_pool(false, 100 + 31 * DAY).unwrap();
    // 900 * 400 / 1_000 = 360 of token B; 40 of token A.
    assert_eq!(w, WithdrawAmounts { token_a_amount: 40, token_b_amount: 360 });
    assert_eq!(w.token_a_amount + w.token_b_amount, 400);
}

#[test]
fn withdraw_unfilled_pool_after_fill_deadline() {
    let pool = created_pool(100);
    let mut a = invest_ctx(pool, 1, 11, 0);
    assert_eq!(a.invest_swap_pool(400, 150), Ok(400));
    let mut ctx = withdraw_ctx(a.swap_pool, 400, 0, 400, 0);
    assert_eq!(ctx.withdraw_swap_pool(true, 100 + 2 * DAY), Err(SwapverseError::SwapPoolNotOpenForWithdrawal));
    let w = ctx.withdraw_swap_pool(true, 100 + 2 * DAY + 1).unwrap();
    assert_eq!(w, WithdrawAmounts { token_a_amount: 400, token_b_amount: 0 });
    // once open, a later withdrawal keeps the recorded distribution.
    ctx.swap_pool_token_a_account.amount = 0;
    let again = ctx.withdraw_swap_pool(true, 100 + 9 * DAY).unwrap();
    assert_eq!(again, WithdrawAmounts { token_a_amount: 400, token_b_amount: 0 });
    assert_eq!(ctx.swap_pool.token_a_amount_to_be_distributed, 400);
}

#[test]
fn withdraw_account_errors() {
    let mut ctx = withdraw_ctx(active_pool(), 1_000, 1_000, 1, 1);
    ctx.pool_share_token_b_mint = key(11);
    assert_eq!(ctx.check_accounts(), Err(SwapverseError::InvalidPoolShareTokenMint));
    ctx.investor_token_b_account.owner = key(1);
    assert_eq!(ctx.check_accounts(), Err(SwapverseError::InvalidInvestorTokenAccountOwner));
}

#[test]
fn token_plans_end_frozen() {
    let mut acct = token_account(11, 20, 50);
    assert_eq!(
        plan_mint_frozen_tokens(7, &acct),
        vec![TokenOp::MintTo(7), TokenOp::Freeze(TokenAccountSide::Destination)]
    );
    acct.is_frozen = true;
    assert_eq!(
        plan_mint_frozen_tokens(7, &acct),
        vec![
            TokenOp::Thaw(TokenAccountSide::Destination),
            TokenOp::MintTo(7),
            TokenOp::Freeze(TokenAccountSide::Destination)
        ]
    );
    assert_eq!(
        plan_burn_tokens(50, &acct),
        Ok(vec![TokenOp::Thaw(TokenAccountSide::Source), TokenOp::Burn(50), TokenOp::Freeze(TokenAccountSide::Source)])
    );
    assert_eq!(plan_burn_tokens(51, &acct), Err(SwapverseError::NotEnoughTokens));
    let plain = token_account(11, 21, 0);
    assert_eq!(
        plan_signed_transfer_frozen_tokens(5, &acct, &plain),
        vec![
            TokenOp::Thaw(TokenAccountSide::Source),
            TokenOp::Transfer(5),
            TokenOp::Freeze(TokenAccountSide::Source),
            TokenOp::Freeze(TokenAccountSide::Destination)
        ]
    );
}

#[test]
fn defaults_are_zeroed() {
    let p = SwapPool::default();
    assert_eq!(p.pool_number, 0);
    assert!(!p.open_for_investment && !p.active_for_swap && !p.open_for_withdrawal);
    assert!(same(&p.token_a_mint, &key(0)));
    let g = GlobalState::default();
    assert_eq!(g.no_of_swap_pools, 0);
    assert!(same(&g.token_mints[4], &key(0)));
    let i = InvestorPoolInfo::default();
    assert_eq!((i.profit_for_token_a_withdrawn, i.profit_for_token_b_withdrawn), (0, 0));
}

#[test]
fn abort_checks_flag_arithmetic_faults() {
    // the pool count cannot grow past u64::MAX.
    let mut create = CreateSwapPool {
        global_state: global_state(),
        swap_pool: SwapPool::default(),
        token_a_mint: key(1),
        token_b_mint: key(2),
        pool_share_token_a_mint: key(11),
        pool_share_token_b_mint: key(12),
    };
    create.global_state.no_of_swap_pools = u64::MAX;
    assert!(create.create_would_abort(5, 5));
    assert!(!create.create_would_abort(5, 6));

    // a pool balance above the amount to raise faults.
    let invest = invest_ctx(created_pool(100), 1, 11, 1_001);
    assert!(invest.invest_would_abort(10));
    assert!(!invest_ctx(created_pool(100), 1, 11, 0).invest_would_abort(10));

    // an empty pool with nothing paid in divides by zero.
    let mut swap = swap_ctx(active_pool(), 0, 1_000);
    swap.user_token_a_account.amount = 0;
    assert!(swap.swap_would_abort(0, 0, true));
    // a user short of tokens is refused before any arithmetic.
    assert!(!swap.swap_would_abort(1, 0, true));
    // a fee above 100% takes more than the output.
    let mut greedy = swap_ctx(active_pool(), 1_000, 1_000);
    greedy.swap_pool.swap_fee_percentage = 150;
    assert!(greedy.swap_would_abort(100, 0, true));
    assert!(!swap_ctx(active_pool(), 1_000, 1_000).swap_would_abort(100, 0, true));

    // a payout above the share on the chosen side faults.
    let withdraw = withdraw_ctx(active_pool(), 1_200, 800, 500, 0);
    assert!(withdraw.withdraw_would_abort(true, 100 + 30 * DAY + 1));
    assert!(!withdraw.withdraw_would_abort(false, 100 + 30 * DAY + 1));
    assert!(!withdraw.withdraw_would_abort(true, 100));

    // more already paid than owed faults.
    let mut pool = active_pool();
    pool.profit_of_token_a_amount_to_be_distributed = 1_000;
    let mut claim = claim_ctx(pool, 1, 11, 250);
    assert!(!claim.claim_would_abort());
    claim.investor_pool_info.profit_for_token_a_withdrawn = 226;
    assert!(claim.claim_would_abort());
    claim.swap_pool.swapverse_fee_percentage = 101;
    claim.investor_pool_info.profit_for_token_a_withdrawn = 0;
    assert!(claim.claim_would_abort());
}

#[test]
fn opening_for_withdrawal_twice_is_opening_once() {
    let mut once = withdraw_ctx(active_pool(), 800, 1_200, 500, 0);
    once.check_for_withdrawal_open(100 + 30 * DAY + 1);
    let mut twice = withdraw_ctx(active_pool(), 800, 1_200, 500, 0);
    twice.check_for_withdrawal_open(100 + 30 * DAY + 1);
    twice.swap_pool_token_a_account.amount = 5;
    twice.check_for_withdrawal_open(100 + 30 * DAY + 1);
    assert!(once.swap_pool.open_for_withdrawal && twice.swap_pool.open_for_withdrawal);
    assert_eq!(twice.swap_pool.token_a_amount_to_be_distributed, once.swap_pool.token_a_amount_to_be_distributed);
    let mut early = withdraw_ctx(active_pool(), 800, 1_200, 500, 0);
    early.check_for_withdrawal_open(100);
    early.check_for_withdrawal_open(100);
    assert!(!early.swap_pool.open_for_withdrawal);
}
