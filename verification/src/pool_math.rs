use vstd::prelude::*;
use vstd::arithmetic::div_mod::{lemma_div_is_ordered, lemma_div_is_ordered_by_denominator, lemma_fundamental_div_mod, lemma_mod_decreases, lemma_mod_pos_bound, lemma_small_mod};
use vstd::arithmetic::mul::lemma_mul_inequality;

verus! {

/// What a cast to `u64` keeps of a non-negative number: its low 64 bits.
pub open spec fn low_u64(x: int) -> int {
    x % 0x1_0000_0000_0000_0000
}

/// The product of a pool's two initial amounts, which fixes its price curve.
pub open spec fn pool_invariant(initial_amount_a: u64, initial_amount_b: u64) -> int {
    initial_amount_a * initial_amount_b
}

/// `pct` percent of `x`, rounded down.
pub open spec fn percent_of(x: int, pct: int) -> int {
    x * pct / 100
}

/// The balance that the output side of a pool may keep after `amount_in`
/// tokens join the `pool_in` tokens of the input side: the invariant divided
/// by the new input balance, rounded down, cut to 64 bits.
pub open spec fn reserve_after_swap(
    initial_amount_a: u64,
    initial_amount_b: u64,
    pool_in: u64,
    amount_in: u64,
) -> int {
    low_u64(pool_invariant(initial_amount_a, initial_amount_b) / (pool_in + amount_in))
}

/// What a swap takes out of the output side, fee included.
pub open spec fn swap_output(
    initial_amount_a: u64,
    initial_amount_b: u64,
    pool_in: u64,
    pool_out: u64,
    amount_in: u64,
) -> int {
    pool_out - reserve_after_swap(initial_amount_a, initial_amount_b, pool_in, amount_in)
}

/// The inputs on which a swap quote runs to its end: the new input balance
/// fits in 64 bits and is not zero, the output side holds at least what it
/// must keep, and the fee is no more than the output.
pub open spec fn swap_is_defined(
    initial_amount_a: u64,
    initial_amount_b: u64,
    pool_in: u64,
    pool_out: u64,
    amount_in: u64,
    fee_percentage: u8,
) -> bool {
    &&& pool_in + amount_in <= u64::MAX
    &&& pool_in + amount_in > 0
    &&& reserve_after_swap(initial_amount_a, initial_amount_b, pool_in, amount_in) <= pool_out
    &&& percent_of(
        swap_output(initial_amount_a, initial_amount_b, pool_in, pool_out, amount_in),
        fee_percentage as int,
    ) <= swap_output(initial_amount_a, initial_amount_b, pool_in, pool_out, amount_in)
}

/// The amounts of one swap: what leaves the output side in all, the part of
/// it kept as fee for the pool's treasury, and the part paid to the user.
#[derive(Clone, Copy, Debug, PartialEq, Eq, Structural)]
pub struct SwapQuote {
    pub output_amount: u64,
    pub treasury_share: u64,
    pub user_share: u64,
}

/// The balance that the output side of a pool may keep after `amount_in`
/// tokens join the `pool_in` tokens of the input side.
pub fn reserve_after(initial_amount_a: u64, initial_amount_b: u64, pool_in: u64, amount_in: u64) -> (r: u64)
    requires
        0 < pool_in + amount_in <= u64::MAX,
    ensures
        r == reserve_after_swap(initial_amount_a, initial_amount_b, pool_in, amount_in),
{
    let a: u128 = initial_amount_a as u128;
    let b: u128 = initial_amount_b as u128;
    assert(a * b <= 0xffff_ffff_ffff_ffff * 0xffff_ffff_ffff_ffffu128) by (nonlinear_arith)
        requires
            a <= 0xffff_ffff_ffff_ffff,
            b <= 0xffff_ffff_ffff_ffff,
    ;
    let invariant: u128 = a * b;
    let effective_in: u128 = (pool_in + amount_in) as u128;
    let quotient: u128 = invariant / effective_in;
    let reserve: u64 = #[verifier::truncate] (quotient as u64);
    assert(reserve == quotient % 0x1_0000_0000_0000_0000u128) by (bit_vector)
        requires
            reserve == #[verifier::truncate] (quotient as u64),
    ;
    reserve
}

/// `pct` percent of `x`, rounded down.
pub fn compute_percent(x: u64, pct: u8) -> (r: u128)
    ensures
        r == percent_of(x as int, pct as int),
{
    let wide: u128 = x as u128;
    let p: u128 = pct as u128;
    assert(wide * p <= 0xffff_ffff_ffff_ffff * 255) by (nonlinear_arith)
        requires
            wide <= 0xffff_ffff_ffff_ffff,
            p <= 255,
    ;
    wide * p / 100
}

/// The quote of a swap of `amount_in` tokens into a pool whose input side
/// holds `pool_in` and whose output side holds `pool_out`.
pub fn quote_swap(
    initial_amount_a: u64,
    initial_amount_b: u64,
    pool_in: u64,
    pool_out: u64,
    amount_in: u64,
    fee_percentage: u8,
) -> (q: SwapQuote)
    requires
        swap_is_defined(initial_amount_a, initial_amount_b, pool_in, pool_out, amount_in, fee_percentage),
    ensures
        q.output_amount == swap_output(initial_amount_a, initial_amount_b, pool_in, pool_out, amount_in),
        q.treasury_share == percent_of(q.output_amount as int, fee_percentage as int),
        q.user_share == q.output_amount - q.treasury_share,
{
    let reserve = reserve_after(initial_amount_a, initial_amount_b, pool_in, amount_in);
    let output: u64 = pool_out - reserve;
    let treasury_share = compute_percent(output, fee_percentage) as u64;
    SwapQuote { output_amount: output, treasury_share, user_share: output - treasury_share }
}


/// A swap keeps the pool on its price curve: the new input balance times the
/// balance that the output side keeps is at most the pool's invariant, and,
/// where that balance was not cut to 64 bits, one more token on the output
/// side would exceed the invariant.
pub proof fn lemma_swap_respects_invariant(
    initial_amount_a: u64,
    initial_amount_b: u64,
    pool_in: u64,
    pool_out: u64,
    amount_in: u64,
    fee_percentage: u8,
)
    requires
        swap_is_defined(initial_amount_a, initial_amount_b, pool_in, pool_out, amount_in, fee_percentage),
    ensures
        (pool_in + amount_in) * (pool_out - swap_output(
            initial_amount_a,
            initial_amount_b,
            pool_in,
            pool_out,
            amount_in,
        )) <= pool_invariant(initial_amount_a, initial_amount_b),
        pool_invariant(initial_amount_a, initial_amount_b) / (pool_in + amount_in)
            < 0x1_0000_0000_0000_0000 ==> pool_invariant(initial_amount_a, initial_amount_b) < (
        pool_in + amount_in) * (pool_out - swap_output(
            initial_amount_a,
            initial_amount_b,
            pool_in,
            pool_out,
            amount_in,
        ) + 1),
{
    let inv = pool_invariant(initial_amount_a, initial_amount_b);
    let n: int = pool_in + amount_in;
    assert(inv >= 0) by (nonlinear_arith)
        requires
            inv == initial_amount_a * initial_amount_b,
            initial_amount_a >= 0,
            initial_amount_b >= 0,
    ;
    let q: int = inv / n;
    lemma_fundamental_div_mod(inv, n);
    lemma_mod_pos_bound(inv, n);
    assert(q >= 0) by (nonlinear_arith)
        requires
            inv >= 0,
            n > 0,
            q == inv / n,
    ;
    let kept = pool_out - swap_output(initial_amount_a, initial_amount_b, pool_in, pool_out, amount_in);
    assert(kept == low_u64(q));
    lemma_mod_decreases(q as nat, 0x1_0000_0000_0000_0000);
    lemma_mod_pos_bound(q, 0x1_0000_0000_0000_0000);
    assert(kept <= q);
    lemma_mul_inequality(kept, q, n);
    assert(n * kept <= n * q) by (nonlinear_arith)
        requires
            kept * n <= q * n,
    ;
    if q < 0x1_0000_0000_0000_0000 {
        lemma_small_mod(q as nat, 0x1_0000_0000_0000_0000);
        assert(kept == q);
        assert(n * (kept + 1) == n * q + n) by (nonlinear_arith)
            requires
                kept == q,
        ;
    }
}

/// The inputs on which the profit share of an investor can be computed: the
/// platform's cut is no more than the profit, and the pool's initial amount,
/// which divides, is not zero.
pub open spec fn profit_share_is_defined(profit: u64, swapverse_fee_percentage: u8, initial_amount: u64) -> bool {
    &&& percent_of(profit as int, swapverse_fee_percentage as int) <= profit
    &&& initial_amount > 0
}

/// The part of a pool's profit that belongs to its investors: the profit less
/// the platform's cut.
pub open spec fn investors_profit(profit: u64, swapverse_fee_percentage: u8) -> int {
    profit - percent_of(profit as int, swapverse_fee_percentage as int)
}

/// What an investor holding `share` pool-share tokens is owed of the
/// investors' profit, in proportion to the pool's initial amount, cut to
/// 64 bits.
pub open spec fn profit_entitlement(
    profit: u64,
    swapverse_fee_percentage: u8,
    share: u64,
    initial_amount: u64,
) -> int {
    low_u64(investors_profit(profit, swapverse_fee_percentage) * share / initial_amount as int)
}

/// The profit owed to an investor holding `share` pool-share tokens.
pub fn compute_profit_entitlement(
    profit: u64,
    swapverse_fee_percentage: u8,
    share: u64,
    initial_amount: u64,
) -> (r: u64)
    requires
        profit_share_is_defined(profit, swapverse_fee_percentage, initial_amount),
    ensures
        r == profit_entitlement(profit, swapverse_fee_percentage, share, initial_amount),
{
    let swapverse_share: u128 = compute_percent(profit, swapverse_fee_percentage);
    let all_investors_share: u128 = profit as u128 - swapverse_share;
    let share_wide: u128 = share as u128;
    assert(all_investors_share * share_wide <= 0xffff_ffff_ffff_ffff * 0xffff_ffff_ffff_ffffu128)
        by (nonlinear_arith)
        requires
            all_investors_share <= 0xffff_ffff_ffff_ffff,
            share_wide <= 0xffff_ffff_ffff_ffff,
    ;
    let quotient: u128 = all_investors_share * share_wide / (initial_amount as u128);
    let r: u64 = #[verifier::truncate] (quotient as u64);
    assert(r == quotient % 0x1_0000_0000_0000_0000u128) by (bit_vector)
        requires
            r == #[verifier::truncate] (quotient as u64),
    ;
    r
}

/// What a withdrawal pays out of `distributable` tokens to a holder of
/// `share` pool-share tokens, in proportion to `base`, cut to 64 bits.
pub open spec fn withdrawal_amount(distributable: u64, share: u64, base: u64) -> int {
    low_u64(distributable * share / base as int)
}

/// The part of `distributable` that a holder of `share` pool-share tokens
/// may withdraw, in proportion to `base`.
pub fn compute_withdrawal_amount(distributable: u64, share: u64, base: u64) -> (r: u64)
    requires
        base > 0,
    ensures
        r == withdrawal_amount(distributable, share, base),
{
    let d: u128 = distributable as u128;
    let s: u128 = share as u128;
    assert(d * s <= 0xffff_ffff_ffff_ffff * 0xffff_ffff_ffff_ffffu128) by (nonlinear_arith)
        requires
            d <= 0xffff_ffff_ffff_ffff,
            s <= 0xffff_ffff_ffff_ffff,
    ;
    let quotient: u128 = d * s / (base as u128);
    let r: u64 = #[verifier::truncate] (quotient as u64);
    assert(r == quotient % 0x1_0000_0000_0000_0000u128) by (bit_vector)
        requires
            r == #[verifier::truncate] (quotient as u64),
    ;
    r
}

/// `x * share / base` is at most `x` when `share` is at most `base`, and then
/// nothing is cut by the cast to 64 bits.
proof fn lemma_proportion_within_whole(x: int, share: int, base: int)
    requires
        0 <= x < 0x1_0000_0000_0000_0000,
        0 <= share <= base,
        base > 0,
    ensures
        0 <= x * share / base <= x,
        low_u64(x * share / base) == x * share / base,
{
    assert(0 <= x * share <= x * base) by (nonlinear_arith)
        requires
            0 <= x,
            0 <= share <= base,
    ;
    assert(x * share / base <= x * base / base) by (nonlinear_arith)
        requires
            x * share <= x * base,
            base > 0,
    ;
    assert(x * base / base == x) by (nonlinear_arith)
        requires
            base > 0,
    ;
    assert(0 <= x * share / base) by (nonlinear_arith)
        requires
            0 <= x * share,
            base > 0,
    ;
    lemma_small_mod((x * share / base) as nat, 0x1_0000_0000_0000_0000);
}

/// An investor whose pool-share balance is at most the pool's initial amount
/// is never owed more than the investors' part of the profit.
pub proof fn lemma_entitlement_within_investors_profit(
    profit: u64,
    swapverse_fee_percentage: u8,
    share: u64,
    initial_amount: u64,
)
    requires
        profit_share_is_defined(profit, swapverse_fee_percentage, initial_amount),
        share <= initial_amount,
    ensures
        0 <= profit_entitlement(profit, swapverse_fee_percentage, share, initial_amount)
            <= investors_profit(profit, swapverse_fee_percentage),
{
    let fee = swapverse_fee_percentage as int;
    assert(percent_of(profit as int, fee) >= 0) by (nonlinear_arith)
        requires
            profit >= 0,
            fee >= 0,
    ;
    lemma_proportion_within_whole(investors_profit(profit, swapverse_fee_percentage), share as int, initial_amount as int);
}

/// A holder of at most `base` pool-share tokens never withdraws more than
/// the amount to be distributed.
pub proof fn lemma_withdrawal_within_distributable(distributable: u64, share: u64, base: u64)
    requires
        0 < base,
        share <= base,
    ensures
        0 <= withdrawal_amount(distributable, share, base) <= distributable,
{
    lemma_proportion_within_whole(distributable as int, share as int, base as int);
}

/// What a swap pays the user: the output less the fee.
pub open spec fn swap_user_share(
    initial_amount_a: u64,
    initial_amount_b: u64,
    pool_in: u64,
    pool_out: u64,
    amount_in: u64,
    fee_percentage: u8,
) -> int {
    swap_output(initial_amount_a, initial_amount_b, pool_in, pool_out, amount_in) - percent_of(
        swap_output(initial_amount_a, initial_amount_b, pool_in, pool_out, amount_in),
        fee_percentage as int,
    )
}

/// A round trip never gains: on a pool that is on or below its price curve,
/// and whose invariant fits in 64 bits, swapping `amount_in` tokens and then
/// at once swapping back all that was received pays back at most
/// `amount_in`. After the first swap, the input side holds
/// `pool_in + amount_in` and the output side what it kept.
pub proof fn lemma_swap_round_trip_never_gains(
    initial_amount_a: u64,
    initial_amount_b: u64,
    pool_in: u64,
    pool_out: u64,
    amount_in: u64,
    fee_percentage: u8,
)
    requires
        pool_invariant(initial_amount_a, initial_amount_b) <= u64::MAX,
        pool_in * pool_out <= pool_invariant(initial_amount_a, initial_amount_b),
        swap_is_defined(initial_amount_a, initial_amount_b, pool_in, pool_out, amount_in, fee_percentage),
        swap_is_defined(
            initial_amount_a,
            initial_amount_b,
            reserve_after_swap(initial_amount_a, initial_amount_b, pool_in, amount_in) as u64,
            (pool_in + amount_in) as u64,
            swap_user_share(initial_amount_a, initial_amount_b, pool_in, pool_out, amount_in, fee_percentage) as u64,
            fee_percentage,
        ),
    ensures
        swap_user_share(
            initial_amount_a,
            initial_amount_b,
            reserve_after_swap(initial_amount_a, initial_amount_b, pool_in, amount_in) as u64,
            (pool_in + amount_in) as u64,
            swap_user_share(initial_amount_a, initial_amount_b, pool_in, pool_out, amount_in, fee_percentage) as u64,
            fee_percentage,
        ) <= amount_in,
{
    let inv = pool_invariant(initial_amount_a, initial_amount_b);
    let fee = fee_percentage as int;
    let out1 = swap_output(initial_amount_a, initial_amount_b, pool_in, pool_out, amount_in);
    let kept1 = reserve_after_swap(initial_amount_a, initial_amount_b, pool_in, amount_in);
    let user1 = swap_user_share(initial_amount_a, initial_amount_b, pool_in, pool_out, amount_in, fee_percentage);
    assert(inv >= 0) by (nonlinear_arith)
        requires
            inv == initial_amount_a * initial_amount_b,
            initial_amount_a >= 0,
            initial_amount_b >= 0,
    ;
    lemma_mod_pos_bound(inv / (pool_in + amount_in), 0x1_0000_0000_0000_0000);
    assert(percent_of(out1, fee) >= 0) by (nonlinear_arith)
        requires
            out1 >= 0,
            fee >= 0,
    ;
    assert(0 <= kept1 <= pool_out);
    assert(0 <= user1 <= out1);
    // the second swap's new input balance is at most the first pool's output side
    let n2: int = kept1 + user1;
    assert(0 < n2 <= pool_out);
    // so what the input side of the first swap must keep is at least pool_in
    lemma_div_is_ordered_by_denominator(inv, n2, pool_out as int);
    assert(pool_in * pool_out / pool_out as int == pool_in) by (nonlinear_arith)
        requires
            pool_out > 0,
    ;
    lemma_div_is_ordered(pool_in * pool_out, inv, pool_out as int);
    let q2 = inv / n2;
    assert(q2 >= pool_in);
    assert(q2 <= inv) by (nonlinear_arith)
        requires
            inv >= 0,
            n2 >= 1,
            q2 == inv / n2,
    ;
    lemma_small_mod(q2 as nat, 0x1_0000_0000_0000_0000);
    let out2 = swap_output(initial_amount_a, initial_amount_b, kept1 as u64, (pool_in + amount_in) as u64, user1 as u64);
    assert(out2 <= amount_in);
    assert(percent_of(out2, fee) >= 0) by (nonlinear_arith)
        requires
            out2 >= 0,
            fee >= 0,
    ;
}

} // verus!
