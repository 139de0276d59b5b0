//! Properties of the market maker that span its functions.
use vstd::prelude::*;
use vstd::arithmetic::div_mod::{lemma_div_by_multiple, lemma_div_is_ordered};
use vstd::arithmetic::mul::{lemma_mul_is_commutative, lemma_mul_is_distributive_add, lemma_mul_inequality};
use crate::types::{AccountId, Balance};
use crate::store::Store;
use crate::arith::{lemma_mul_div_le, lemma_mul_div_ge, ceil_div, lemma_ceil_div, lemma_ceil_div_least, lemma_div_cross_le};
use crate::queries::{
    asset1_of, asset2_of, reserve1, reserve2, is_active, withdraw_estimate_defined, equivalent_amount,
    spec_equivalent_token1, spec_equivalent_token2, spec_withdraw_estimate, withdraw_amount,
    spec_swap_estimate_given_token1, swap_estimate_given_token1_defined, after_fee,
    spec_swap_estimate_given_token2, swap_estimate_given_token2_defined, spec_k, swap_input, swap_rise,
};
use crate::dispatch::{
    provide_decision, provide_booked, provide_settled, minted_share, trade_booked, swap_settled,
    withdraw_booked, swap1_decision, swap2_decision, distribution_plan, steps_upto, provider_step,
    distribution_defined, provider_part_defined, StepView,
};
use crate::queries::check_token1;
use crate::types::{AssetId, Error};

verus! {

/// A withdrawal never pays out more than a pool's reserves, and withdrawing
/// all the shares issued pays out both reserves whole.
pub proof fn law_withdraw_within_reserves(s: Store, pool_id: u32, share: Balance)
    requires
        spec_withdraw_estimate(s, pool_id, share) is Ok,
        s.total_shares > 0,
    ensures
        spec_withdraw_estimate(s, pool_id, share) matches Ok((amount1, amount2)) && amount1
            <= reserve1(s, pool_id) && amount2 <= reserve2(s, pool_id),
        share == s.total_shares ==> spec_withdraw_estimate(s, pool_id, share) == Ok::<
            (Balance, Balance),
            crate::types::Error,
        >((reserve1(s, pool_id), reserve2(s, pool_id))),
{
    let ts = s.total_shares as int;
    lemma_mul_div_le(share as int, reserve1(s, pool_id) as int, ts);
    lemma_mul_div_le(share as int, reserve2(s, pool_id) as int, ts);
    if share == s.total_shares {
        lemma_mul_is_commutative(ts, reserve1(s, pool_id) as int);
        lemma_mul_is_commutative(ts, reserve2(s, pool_id) as int);
        lemma_div_by_multiple(reserve1(s, pool_id) as int, ts);
        lemma_div_by_multiple(reserve2(s, pool_id) as int, ts);
    }
}

/// A swap of the first asset never empties the pool's second reserve: what
/// it pays out is below that reserve, and what it takes as fee together with
/// what counts toward the price makes up the amount paid.
pub proof fn law_swap_keeps_second_reserve(s: Store, pool_id: u32, amount1: Balance)
    requires
        swap_estimate_given_token1_defined(s, pool_id, amount1),
        spec_swap_estimate_given_token1(s, pool_id, amount1) is Ok,
    ensures
        spec_swap_estimate_given_token1(s, pool_id, amount1) matches Ok((out, fee)) && out < reserve2(
            s,
            pool_id,
        ) && fee + after_fee(s.fees as int, amount1 as int) == amount1,
{
    let r1 = reserve1(s, pool_id) as int;
    let r2 = reserve2(s, pool_id) as int;
    lemma_mul_div_le((1000 - s.fees) as int, amount1 as int, 1000);
    let a = after_fee(s.fees as int, amount1 as int);
    lemma_mul_div_le(r1, r2, r1 + a);
}

/// Providing to a pool that already has shares and then withdrawing the
/// shares it minted never pays out more than was provided, of either asset.
pub proof fn law_provide_then_withdraw_bounded(
    s: Store,
    who: AccountId,
    pool_id: u32,
    amount1: Balance,
    amount2: Balance,
)
    requires
        s.total_shares > 0,
        reserve1(s, pool_id) > 0,
        reserve2(s, pool_id) > 0,
        amount1 > 0,
        amount2 > 0,
        provide_decision(s, pool_id, amount1, amount2) is Ok,
        s.total_shares * amount1 <= u128::MAX,
        s.total_shares * amount2 <= u128::MAX,
        reserve1(s, pool_id) + amount1 <= u128::MAX,
        reserve2(s, pool_id) + amount2 <= u128::MAX,
        s.total_shares + provide_decision(s, pool_id, amount1, amount2)->Ok_0 <= u128::MAX,
    ensures
        ({
            let share = provide_decision(s, pool_id, amount1, amount2)->Ok_0;
            let after = provide_settled(
                provide_booked(s, who, pool_id, amount1, amount2),
                who,
                asset1_of(s, pool_id),
                asset2_of(s, pool_id),
                amount1,
                amount2,
                share,
            );
            spec_withdraw_estimate(after, pool_id, share) matches Ok((w1, w2)) && w1 <= amount1
                && w2 <= amount2
        }),
{
    let share = provide_decision(s, pool_id, amount1, amount2)->Ok_0;
    let after = provide_settled(
        provide_booked(s, who, pool_id, amount1, amount2),
        who,
        asset1_of(s, pool_id),
        asset2_of(s, pool_id),
        amount1,
        amount2,
        share,
    );
    let ts = s.total_shares as int;
    let r1 = reserve1(s, pool_id) as int;
    let r2 = reserve2(s, pool_id) as int;
    assert(reserve1(after, pool_id) == r1 + amount1);
    assert(reserve2(after, pool_id) == r2 + amount2);
    assert(after.total_shares == ts + share);
    assert(is_active(after, pool_id));
    vstd::arithmetic::mul::lemma_mul_nonnegative(ts, amount1 as int);
    vstd::arithmetic::mul::lemma_mul_nonnegative(ts, amount2 as int);
    vstd::arithmetic::div_mod::lemma_div_is_ordered_by_denominator(ts * amount1, 1, r1);
    vstd::arithmetic::div_mod::lemma_div_is_ordered_by_denominator(ts * amount2, 1, r2);
    lemma_div_is_ordered(0, ts * amount1, r1);
    lemma_div_is_ordered(0, ts * amount2, r2);
    lemma_minted_then_withdrawn(ts, r1, amount1 as int, share as int);
    lemma_minted_then_withdrawn(ts, r2, amount2 as int, share as int);
}

/// Withdrawing `share = ts * amount / reserve` (rounded down) shares after
/// the provision pays out at most `amount`.
proof fn lemma_minted_then_withdrawn(ts: int, reserve: int, amount: int, share: int)
    requires
        ts > 0,
        reserve > 0,
        amount > 0,
        share == minted_share(ts, amount, reserve),
    ensures
        withdraw_amount(share, reserve + amount, ts + share) <= amount,
{
    // share * reserve <= ts * amount
    vstd::arithmetic::div_mod::lemma_fundamental_div_mod(ts * amount, reserve);
    vstd::arithmetic::mul::lemma_mul_nonnegative(ts, amount);
    lemma_div_is_ordered(0, ts * amount, reserve);
    lemma_mul_is_commutative(reserve, share);
    assert(share * reserve <= ts * amount);
    // share * (reserve + amount) <= amount * (ts + share)
    lemma_mul_is_distributive_add(share, reserve, amount);
    lemma_mul_is_distributive_add(amount, ts, share);
    lemma_mul_is_commutative(share, amount);
    lemma_mul_is_commutative(ts, amount);
    assert(share * (reserve + amount) <= amount * (ts + share));
    lemma_div_is_ordered(share * (reserve + amount), amount * (ts + share), ts + share);
    lemma_div_by_multiple(amount, ts + share);
}

/// The first provision to an empty pool, into a market maker with no shares
/// issued, mints 100 shares, and withdrawing them pays back exactly what was
/// provided.
pub proof fn law_first_provision_withdrawn_whole(
    s: Store,
    who: AccountId,
    pool_id: u32,
    amount1: Balance,
    amount2: Balance,
)
    requires
        s.total_shares == 0,
        reserve1(s, pool_id) == 0,
        reserve2(s, pool_id) == 0,
        amount1 > 0,
        amount2 > 0,
    ensures
        provide_decision(s, pool_id, amount1, amount2) == Ok::<Balance, crate::types::Error>(100),
        ({
            let after = provide_settled(
                provide_booked(s, who, pool_id, amount1, amount2),
                who,
                asset1_of(s, pool_id),
                asset2_of(s, pool_id),
                amount1,
                amount2,
                100,
            );
            spec_withdraw_estimate(after, pool_id, 100) == Ok::<(Balance, Balance), crate::types::Error>(
                (amount1, amount2),
            )
        }),
{
    let after = provide_settled(
        provide_booked(s, who, pool_id, amount1, amount2),
        who,
        asset1_of(s, pool_id),
        asset2_of(s, pool_id),
        amount1,
        amount2,
        100,
    );
    assert(reserve1(after, pool_id) == amount1);
    assert(reserve2(after, pool_id) == amount2);
    lemma_mul_is_commutative(100, amount1 as int);
    lemma_mul_is_commutative(100, amount2 as int);
    lemma_div_by_multiple(amount1 as int, 100);
    lemma_div_by_multiple(amount2 as int, 100);
}

/// A swap, once settled, moves value between the swapper's booked balances
/// and the pool's reserves without creating or losing any: for each of the
/// pool's two assets, the booked balance plus the reserve stays the same.
pub proof fn law_swap_conserves_balances(
    s: Store,
    who: AccountId,
    pool_id: u32,
    paid: Balance,
    received: Balance,
    fee: Balance,
)
    requires
        (s.token1_balance)(who, asset1_of(s, pool_id)) >= paid,
        (s.token2_balance)(who, asset2_of(s, pool_id)) + received <= u128::MAX,
        reserve1(s, pool_id) + paid <= u128::MAX,
        reserve2(s, pool_id) >= received,
    ensures
        ({
            let a1 = asset1_of(s, pool_id);
            let a2 = asset2_of(s, pool_id);
            let after = swap_settled(trade_booked(s, who, pool_id, paid, received), a1, a2, paid, received, fee);
            &&& (after.token1_balance)(who, a1) + (after.total_token1)(a1) == (s.token1_balance)(who, a1)
                + (s.total_token1)(a1)
            &&& (after.token2_balance)(who, a2) + (after.total_token2)(a2) == (s.token2_balance)(who, a2)
                + (s.total_token2)(a2)
        }),
{
}

/// A withdrawal moves value from the pool's reserves to the withdrawer's
/// booked balances without creating or losing any, and retires the shares
/// from both the withdrawer's holding and the shares issued.
pub proof fn law_withdraw_conserves_balances(
    s: Store,
    who: AccountId,
    pool_id: u32,
    share: Balance,
    amount1: Balance,
    amount2: Balance,
)
    requires
        (s.shares)(who) >= share,
        s.total_shares >= share,
        reserve1(s, pool_id) >= amount1,
        reserve2(s, pool_id) >= amount2,
        (s.token1_balance)(who, asset1_of(s, pool_id)) + amount1 <= u128::MAX,
        (s.token2_balance)(who, asset2_of(s, pool_id)) + amount2 <= u128::MAX,
    ensures
        ({
            let a1 = asset1_of(s, pool_id);
            let a2 = asset2_of(s, pool_id);
            let after = withdraw_booked(s, who, pool_id, share, amount1, amount2);
            &&& (after.token1_balance)(who, a1) + (after.total_token1)(a1) == (s.token1_balance)(who, a1)
                + (s.total_token1)(a1)
            &&& (after.token2_balance)(who, a2) + (after.total_token2)(a2) == (s.token2_balance)(who, a2)
                + (s.total_token2)(a2)
            &&& (after.shares)(who) == (s.shares)(who) - share
            &&& after.total_shares == s.total_shares - share
        }),
{
}

/// The arithmetic of a quote for taking `amount2` of the second reserve
/// `r2`, against a first reserve `r1`: the least first reserve that keeps the
/// product is at least `r1` and keeps it, and the quoted input, less the fee,
/// covers the rise to it.
proof fn lemma_quote_covers(r1: int, r2: int, fees: int, amount2: int)
    requires
        r1 > 0,
        0 <= amount2 < r2,
        0 <= fees < 1000,
    ensures
        ({
            let c = ceil_div(r1 * r2, r2 - amount2);
            let input = swap_input(r1, r2, fees, amount2);
            &&& r1 <= c
            &&& r1 * r2 <= c * (r2 - amount2)
            &&& 0 <= input <= swap_rise(r1, r2, amount2) * 1000
            &&& swap_rise(r1, r2, amount2) <= after_fee(fees, input)
        }),
{
    let t2 = r2 - amount2;
    let k = r1 * r2;
    vstd::arithmetic::mul::lemma_mul_nonnegative(r1, r2);
    lemma_ceil_div(k, t2);
    lemma_mul_div_ge(r1, r2, t2);
    let rise = swap_rise(r1, r2, amount2);
    let c = ceil_div(k, t2);
    assert(rise >= 0);
    vstd::arithmetic::mul::lemma_mul_nonnegative(rise, 1000);
    lemma_ceil_div(rise * 1000, 1000 - fees);
    let input = swap_input(r1, r2, fees, amount2);
    // (1000 - fees) * input >= rise * 1000, so the floor of its thousandth is
    // at least the rise
    lemma_mul_is_commutative(input, 1000 - fees);
    lemma_div_is_ordered(rise * 1000, (1000 - fees) * input, 1000);
    lemma_div_by_multiple(rise, 1000);
}

/// The part of a quoted input that counts toward the price, once the fee is
/// kept out, raises the first reserve enough that the product of the
/// reserves does not fall when `amount2` leaves the second; the fee charged
/// is part of the input.
pub proof fn law_swap_input_covers_price(s: Store, pool_id: u32, amount2: Balance)
    requires
        swap_estimate_given_token2_defined(s, pool_id, amount2),
        spec_swap_estimate_given_token2(s, pool_id, amount2) is Ok,
    ensures
        spec_swap_estimate_given_token2(s, pool_id, amount2) matches Ok((input, fee)) && (reserve1(s, pool_id)
            + after_fee(s.fees as int, input as int)) * (reserve2(s, pool_id) - amount2) >= spec_k(s, pool_id)
            && fee <= input,
{
    let r1 = reserve1(s, pool_id) as int;
    let r2 = reserve2(s, pool_id) as int;
    let t2 = r2 - amount2;
    lemma_quote_covers(r1, r2, s.fees as int, amount2 as int);
    let c = ceil_div(r1 * r2, t2);
    let input = swap_input(r1, r2, s.fees as int, amount2 as int);
    lemma_mul_inequality(c, r1 + after_fee(s.fees as int, input), t2);
    lemma_mul_div_le(s.fees as int, input, 1000);
    lemma_mul_is_commutative(s.fees as int, input);
}

/// Swapping the first asset in the amount quoted for taking `amount2` of the
/// second pays out at least `amount2`.
pub proof fn law_swap_quote_round_trip(s: Store, pool_id: u32, amount2: Balance)
    requires
        swap_estimate_given_token2_defined(s, pool_id, amount2),
        spec_swap_estimate_given_token2(s, pool_id, amount2) is Ok,
        swap_estimate_given_token1_defined(s, pool_id, spec_swap_estimate_given_token2(s, pool_id, amount2)->Ok_0.0),
    ensures
        spec_swap_estimate_given_token1(s, pool_id, spec_swap_estimate_given_token2(s, pool_id, amount2)->Ok_0.0)
            matches Ok((out, _fee)) && out >= amount2,
{
    let r1 = reserve1(s, pool_id) as int;
    let r2 = reserve2(s, pool_id) as int;
    let t2 = r2 - amount2;
    let k = r1 * r2;
    lemma_quote_covers(r1, r2, s.fees as int, amount2 as int);
    let c = ceil_div(k, t2);
    let input = swap_input(r1, r2, s.fees as int, amount2 as int);
    let paid = r1 + after_fee(s.fees as int, input);
    vstd::arithmetic::mul::lemma_mul_nonnegative(r1, r2);
    // the second reserve left after the swap is at most `t2`
    vstd::arithmetic::div_mod::lemma_div_is_ordered_by_denominator(k, c, paid);
    lemma_div_is_ordered(k, c * t2, c);
    lemma_mul_is_commutative(c, t2);
    lemma_div_by_multiple(t2, c);
    lemma_mul_div_le(r1, r2, paid);
}

/// Swapping more of the first asset never pays out less of the second.
pub proof fn law_swap_output_rises_with_input(s: Store, pool_id: u32, amount: Balance, more: Balance)
    requires
        amount <= more,
        swap_estimate_given_token1_defined(s, pool_id, amount),
        swap_estimate_given_token1_defined(s, pool_id, more),
        spec_swap_estimate_given_token1(s, pool_id, amount) is Ok,
    ensures
        spec_swap_estimate_given_token1(s, pool_id, amount) matches Ok((out, _f1))
            && spec_swap_estimate_given_token1(s, pool_id, more) matches Ok((out_more, _f2)) && out <= out_more,
{
    let r1 = reserve1(s, pool_id) as int;
    let r2 = reserve2(s, pool_id) as int;
    let f = s.fees as int;
    let a = after_fee(f, amount as int);
    let b = after_fee(f, more as int);
    lemma_mul_inequality(amount as int, more as int, 1000 - f);
    lemma_mul_is_commutative(amount as int, 1000 - f);
    lemma_mul_is_commutative(more as int, 1000 - f);
    lemma_div_is_ordered((1000 - f) * amount, (1000 - f) * more, 1000);
    lemma_mul_div_le(1000 - f, amount as int, 1000);
    lemma_mul_div_le(1000 - f, more as int, 1000);
    vstd::arithmetic::mul::lemma_mul_nonnegative(r1, r2);
    vstd::arithmetic::div_mod::lemma_div_is_ordered_by_denominator(r1 * r2, r1 + a, r1 + b);
    lemma_mul_div_le(r1, r2, r1 + a);
    lemma_mul_div_le(r1, r2, r1 + b);
}

/// Asking for more of the second asset never costs less of the first.
pub proof fn law_swap_quote_rises_with_amount(s: Store, pool_id: u32, amount: Balance, more: Balance)
    requires
        amount <= more,
        swap_estimate_given_token2_defined(s, pool_id, amount),
        swap_estimate_given_token2_defined(s, pool_id, more),
        spec_swap_estimate_given_token2(s, pool_id, more) is Ok,
    ensures
        spec_swap_estimate_given_token2(s, pool_id, amount) matches Ok((input, _f1))
            && spec_swap_estimate_given_token2(s, pool_id, more) matches Ok((input_more, _f2)) && input
            <= input_more,
{
    let r1 = reserve1(s, pool_id) as int;
    let r2 = reserve2(s, pool_id) as int;
    let f = s.fees as int;
    let k = r1 * r2;
    let t = r2 - amount;
    let t_more = r2 - more;
    lemma_quote_covers(r1, r2, f, amount as int);
    lemma_quote_covers(r1, r2, f, more as int);
    // the least first reserve that keeps the product is no larger for the
    // smaller amount
    let c_more = ceil_div(k, t_more);
    vstd::arithmetic::mul::lemma_mul_nonnegative(r1, r2);
    lemma_mul_inequality(t_more, t, c_more);
    lemma_mul_is_commutative(t_more, c_more);
    lemma_mul_is_commutative(t, c_more);
    lemma_ceil_div_least(k, t, c_more);
    let rise = swap_rise(r1, r2, amount as int);
    let rise_more = swap_rise(r1, r2, more as int);
    assert(rise <= rise_more);
    // grossing up keeps the order
    let input_more = swap_input(r1, r2, f, more as int);
    lemma_mul_inequality(rise, rise_more, 1000);
    lemma_ceil_div(rise_more * 1000, 1000 - f);
    lemma_ceil_div_least(rise * 1000, 1000 - f, input_more);
}

/// Withdrawing more shares never pays out less of either asset.
pub proof fn law_withdrawal_rises_with_shares(s: Store, pool_id: u32, share: Balance, more: Balance)
    requires
        share <= more,
        withdraw_estimate_defined(s, pool_id, more),
        spec_withdraw_estimate(s, pool_id, more) is Ok,
    ensures
        spec_withdraw_estimate(s, pool_id, share) matches Ok((a1, a2))
            && spec_withdraw_estimate(s, pool_id, more) matches Ok((b1, b2)) && a1 <= b1 && a2 <= b2,
{
    let ts = s.total_shares as int;
    let r1 = reserve1(s, pool_id) as int;
    let r2 = reserve2(s, pool_id) as int;
    lemma_mul_inequality(share as int, more as int, r1);
    lemma_mul_inequality(share as int, more as int, r2);
    lemma_div_is_ordered(share * r1, more * r1, ts);
    lemma_div_is_ordered(share * r2, more * r2, ts);
    lemma_mul_div_le(share as int, r1, ts);
    lemma_mul_div_le(share as int, r2, ts);
    lemma_mul_div_le(more as int, r1, ts);
    lemma_mul_div_le(more as int, r2, ts);
}

/// Converting an amount of the second asset into the first at the pool's
/// ratio and back never gains, nor does converting the first into the second
/// and back.
pub proof fn law_conversion_round_trip_never_gains(s: Store, pool_id: u32, amount2: Balance, amount1: Balance)
    requires
        is_active(s, pool_id),
        reserve1(s, pool_id) * amount2 <= u128::MAX,
        reserve2(s, pool_id) * amount1 <= u128::MAX,
    ensures
        spec_equivalent_token1(s, pool_id, amount2) matches Ok(x1) && spec_equivalent_token2(s, pool_id, x1)
            matches Ok(back2) && back2 <= amount2,
        spec_equivalent_token2(s, pool_id, amount1) matches Ok(x2) && spec_equivalent_token1(s, pool_id, x2)
            matches Ok(back1) && back1 <= amount1,
{
    let r1 = reserve1(s, pool_id) as int;
    let r2 = reserve2(s, pool_id) as int;
    lemma_convert_back(r1, r2, amount2 as int);
    lemma_convert_back(r2, r1, amount1 as int);
}

/// Converting `amount` at the ratio `num / den` and back at `den / num`
/// (each rounded down) gives at most `amount`.
proof fn lemma_convert_back(num: int, den: int, amount: int)
    requires
        num > 0,
        den > 0,
        amount >= 0,
        num * amount <= u128::MAX,
    ensures
        0 <= equivalent_amount(num, amount, den) <= u128::MAX,
        0 <= equivalent_amount(den, equivalent_amount(num, amount, den), num) <= amount,
{
    let x = equivalent_amount(num, amount, den);
    vstd::arithmetic::mul::lemma_mul_nonnegative(num, amount);
    lemma_div_is_ordered(0, num * amount, den);
    vstd::arithmetic::div_mod::lemma_div_is_ordered_by_denominator(num * amount, 1, den);
    // den * x <= num * amount
    vstd::arithmetic::div_mod::lemma_fundamental_div_mod(num * amount, den);
    vstd::arithmetic::div_mod::lemma_mod_pos_bound(num * amount, den);
    lemma_div_is_ordered(den * x, num * amount, num);
    lemma_mul_is_commutative(num, amount);
    lemma_div_by_multiple(amount, num);
    vstd::arithmetic::mul::lemma_mul_nonnegative(den, x);
    lemma_div_is_ordered(0, den * x, num);
}

/// Withdrawing `share` shares and then `rest` more from what is left never
/// pays out more of either asset than withdrawing `share + rest` at once.
pub proof fn law_split_withdrawal_never_pays_more(
    s: Store,
    who: AccountId,
    pool_id: u32,
    share: Balance,
    rest: Balance,
)
    requires
        share + rest <= u128::MAX,
        withdraw_estimate_defined(s, pool_id, (share + rest) as Balance),
        spec_withdraw_estimate(s, pool_id, (share + rest) as Balance) is Ok,
    ensures
        ({
            let whole = spec_withdraw_estimate(s, pool_id, (share + rest) as Balance)->Ok_0;
            let first = spec_withdraw_estimate(s, pool_id, share)->Ok_0;
            let after = withdraw_booked(s, who, pool_id, share, first.0, first.1);
            &&& spec_withdraw_estimate(s, pool_id, share) is Ok
            &&& spec_withdraw_estimate(after, pool_id, rest) matches Ok((then1, then2)) ==> first.0 + then1
                <= whole.0 && first.1 + then2 <= whole.1
        }),
{
    let ts = s.total_shares as int;
    let r1 = reserve1(s, pool_id) as int;
    let r2 = reserve2(s, pool_id) as int;
    law_withdrawal_rises_with_shares(s, pool_id, share, (share + rest) as Balance);
    lemma_split(r1, ts, share as int, rest as int);
    lemma_split(r2, ts, share as int, rest as int);
    let first = spec_withdraw_estimate(s, pool_id, share)->Ok_0;
    let after = withdraw_booked(s, who, pool_id, share, first.0, first.1);
    assert(reserve1(after, pool_id) == r1 - first.0);
    assert(reserve2(after, pool_id) == r2 - first.1);
    assert(after.total_shares == ts - share);
    if share == s.total_shares {
        // withdrawing every share empties the pool, which refuses more
        law_withdraw_within_reserves(s, pool_id, share);
        assert(!is_active(after, pool_id));
    }
}

/// The algebra of paying out in two steps, where `x * reserve` is `a`
/// whole parts of `total` and `r` over.
proof fn lemma_split_identity(total: int, x: int, y: int, reserve: int, a: int, r: int)
    by (nonlinear_arith)
    requires
        x * reserve == total * a + r,
    ensures
        (total - x) * (y * reserve + r) - y * (reserve - a) * total == r * (total - x - y),
        y * reserve + r + a * total == (x + y) * reserve,
{
}

/// With `x * reserve / total` paid out of `reserve` for `x` of `total`
/// shares, paying `y` of the `total - x` left out of what is left of the
/// reserve comes to at most what `x + y` would have paid at once.
proof fn lemma_split(reserve: int, total: int, x: int, y: int)
    requires
        reserve >= 0,
        total > 0,
        x >= 0,
        y >= 0,
        x + y <= total,
    ensures
        0 <= withdraw_amount(x, reserve, total) <= reserve,
        total - x > 0 ==> withdraw_amount(x, reserve, total) + withdraw_amount(
            y,
            reserve - withdraw_amount(x, reserve, total),
            total - x,
        ) <= withdraw_amount(x + y, reserve, total),
{
    let a = withdraw_amount(x, reserve, total);
    lemma_mul_div_le(x, reserve, total);
    if total - x > 0 {
        vstd::arithmetic::div_mod::lemma_fundamental_div_mod(x * reserve, total);
        vstd::arithmetic::div_mod::lemma_mod_pos_bound(x * reserve, total);
        let r = (x * reserve) % total;
        assert(x * reserve == total * a + r);
        // y * (reserve - a) / (total - x) <= (y * reserve + r) / total
        lemma_split_identity(total, x, y, reserve, a, r);
        vstd::arithmetic::mul::lemma_mul_nonnegative(r, total - x - y);
        vstd::arithmetic::mul::lemma_mul_nonnegative(y, reserve - a);
        vstd::arithmetic::mul::lemma_mul_nonnegative(y, reserve);
        lemma_mul_is_commutative(y * (reserve - a), total);
        lemma_mul_is_commutative(y * reserve + r, total - x);
        lemma_div_cross_le(y * (reserve - a), total - x, y * reserve + r, total);
        // and (y * reserve + r) / total + a == (x + y) * reserve / total
        vstd::arithmetic::div_mod::lemma_hoist_over_denominator(y * reserve + r, a, total as nat);
    }
}

/// A swap of `amount1` of the first asset goes through only when the caller
/// may spend it and the quote for it pays out at least `min2`; it then pays
/// out exactly the quote. A quote below `min2` is refused as slippage.
pub proof fn law_swap1_respects_minimum(s: Store, who: AccountId, pool_id: u32, amount1: Balance, min2: Balance)
    ensures
        swap1_decision(s, who, pool_id, amount1, min2) matches Ok((out, fee)) ==> {
            &&& out >= min2
            &&& check_token1(s, who, amount1, pool_id) is Ok
            &&& spec_swap_estimate_given_token1(s, pool_id, amount1) == Ok::<(Balance, Balance), Error>((out, fee))
        },
        (check_token1(s, who, amount1, pool_id) is Ok && spec_swap_estimate_given_token1(s, pool_id, amount1) is Ok
            && spec_swap_estimate_given_token1(s, pool_id, amount1)->Ok_0.0 < min2) ==> swap1_decision(s, who, pool_id, amount1, min2) == Err::<
            (Balance, Balance),
            Error,
        >(Error::SlippageExceeded),
        (check_token1(s, who, amount1, pool_id) is Ok && spec_swap_estimate_given_token1(s, pool_id, amount1) is Ok
            && spec_swap_estimate_given_token1(s, pool_id, amount1)->Ok_0.0 >= min2) ==> swap1_decision(
            s,
            who,
            pool_id,
            amount1,
            min2,
        ) == spec_swap_estimate_given_token1(s, pool_id, amount1),
        check_token1(s, who, amount1, pool_id) is Err ==> swap1_decision(s, who, pool_id, amount1, min2)
            == Err::<(Balance, Balance), Error>(check_token1(s, who, amount1, pool_id)->Err_0),
{
}

/// Taking `amount2` of the second asset goes through only when the quote for
/// it, fee included, is at most `max1` and the caller may spend that much of
/// the first asset; it then costs exactly the quote. A quote above `max1` is
/// refused as slippage.
pub proof fn law_swap2_respects_maximum(s: Store, who: AccountId, pool_id: u32, max1: Balance, amount2: Balance)
    ensures
        swap2_decision(s, who, pool_id, max1, amount2) matches Ok((input, fee)) ==> {
            &&& input <= max1
            &&& check_token1(s, who, input, pool_id) is Ok
            &&& spec_swap_estimate_given_token2(s, pool_id, amount2) == Ok::<(Balance, Balance), Error>((input, fee))
        },
        (spec_swap_estimate_given_token2(s, pool_id, amount2) is Ok && spec_swap_estimate_given_token2(
            s,
            pool_id,
            amount2,
        )->Ok_0.0 > max1) ==> swap2_decision(s, who, pool_id, max1, amount2) == Err::<(Balance, Balance), Error>(
            Error::SlippageExceeded,
        ),
        (spec_swap_estimate_given_token2(s, pool_id, amount2) is Ok && spec_swap_estimate_given_token2(
            s,
            pool_id,
            amount2,
        )->Ok_0.0 <= max1 && check_token1(
            s,
            who,
            spec_swap_estimate_given_token2(s, pool_id, amount2)->Ok_0.0,
            pool_id,
        ) is Ok) ==> swap2_decision(s, who, pool_id, max1, amount2) == spec_swap_estimate_given_token2(
            s,
            pool_id,
            amount2,
        ),
{
}

/// Settling a provision adds the shares it minted to the provider's shares
/// and to the shares issued, leaves every other holder's shares as they
/// were, and adds the amounts provided to the pool's reserves.
pub proof fn law_provision_adds_shares(
    s: Store,
    who: AccountId,
    asset1: AssetId,
    asset2: AssetId,
    amount1: Balance,
    amount2: Balance,
    share: Balance,
)
    requires
        (s.shares)(who) + share <= u128::MAX,
        s.total_shares + share <= u128::MAX,
        (s.total_token1)(asset1) + amount1 <= u128::MAX,
        (s.total_token2)(asset2) + amount2 <= u128::MAX,
    ensures
        ({
            let after = provide_settled(s, who, asset1, asset2, amount1, amount2, share);
            &&& (after.shares)(who) == (s.shares)(who) + share
            &&& forall|other: AccountId| other != who ==> #[trigger] (after.shares)(other) == (s.shares)(other)
            &&& after.total_shares == s.total_shares + share
            &&& after.total_shares - (after.shares)(who) == s.total_shares - (s.shares)(who)
            &&& (after.total_token1)(asset1) == (s.total_token1)(asset1) + amount1
            &&& (after.total_token2)(asset2) == (s.total_token2)(asset2) + amount2
            &&& after.token1_balance == s.token1_balance
            &&& after.token2_balance == s.token2_balance
        }),
{
}

/// Every step of a fee distribution pays a provider of a pool that exists
/// its own part of the shares times the fee, rounded down: a provider
/// holding no shares is paid nothing.
pub proof fn law_distribution_pays_by_own_shares(s: Store, i: int)
    requires
        distribution_defined(s),
        0 <= i < distribution_plan(s).len(),
    ensures
        ({
            let step = distribution_plan(s)[i];
            &&& step.0 <= s.pool_id
            &&& (s.liquidity_provider)(step.0).contains(step.1)
            &&& step.4 == (s.shares)(step.1) * s.fees / (s.total_shares as int)
            &&& (s.shares)(step.1) == 0 ==> step.4 == 0
            &&& step.2 == (s.pool)(step.0).0
            &&& step.3 == (s.pool)(step.0).1
        }),
{
    let (p, j) = lemma_step_of_plan(s, s.pool_id as nat + 1, i);
    let lps = (s.liquidity_provider)(p);
    assert(provider_part_defined(s, p, j));
    let lp = lps[j];
    let x = (s.shares)(lp) * s.fees;
    vstd::arithmetic::mul::lemma_mul_nonnegative((s.shares)(lp) as int, s.fees as int);
    lemma_div_is_ordered(0, x, s.total_shares as int);
    vstd::arithmetic::div_mod::lemma_div_is_ordered_by_denominator(x, 1, s.total_shares as int);
    assert(lps[j] == lp);
}

/// Where the `i`-th step of the steps for the pools below `n` comes from: a
/// pool below `n` and a place in its list of providers.
proof fn lemma_step_of_plan(s: Store, n: nat, i: int) -> (pj: (u32, int))
    requires
        n <= u32::MAX + 1,
        0 <= i < steps_upto(s, n).len(),
    ensures
        pj.0 < n,
        0 <= pj.1 < (s.liquidity_provider)(pj.0).len(),
        steps_upto(s, n)[i] == provider_step(s, pj.0, (s.liquidity_provider)(pj.0)[pj.1]),
    decreases n,
{
    if n == 0 {
        assert(false);
        (0, 0)
    } else {
        let prev = steps_upto(s, (n - 1) as nat);
        if i < prev.len() {
            lemma_step_of_plan(s, (n - 1) as nat, i)
        } else {
            ((n - 1) as u32, i - prev.len())
        }
    }
}

/// Every provider of every pool up to the last one created has a step in a
/// fee distribution.
pub proof fn law_distribution_covers_every_provider(s: Store, p: u32, j: int)
    requires
        p <= s.pool_id,
        0 <= j < (s.liquidity_provider)(p).len(),
    ensures
        exists|i: int|
            0 <= i < distribution_plan(s).len() && (#[trigger] distribution_plan(s)[i]).0 == p
                && distribution_plan(s)[i].1 == (s.liquidity_provider)(p)[j],
{
    let i = lemma_plan_covers(s, s.pool_id as nat + 1, p, j);
    assert(distribution_plan(s)[i].0 == p);
}

/// The place, among the steps for the pools below `n`, of the step for the
/// `j`-th provider of pool `p`.
proof fn lemma_plan_covers(s: Store, n: nat, p: u32, j: int) -> (i: int)
    requires
        n <= u32::MAX + 1,
        p < n,
        0 <= j < (s.liquidity_provider)(p).len(),
    ensures
        0 <= i < steps_upto(s, n).len(),
        steps_upto(s, n)[i].0 == p,
        steps_upto(s, n)[i].1 == (s.liquidity_provider)(p)[j],
    decreases n,
{
    let prev = steps_upto(s, (n - 1) as nat);
    if p == n - 1 {
        prev.len() + j
    } else {
        let i = lemma_plan_covers(s, (n - 1) as nat, p, j);
        assert(steps_upto(s, n)[i] == prev[i]);
        i
    }
}

/// A swap moves funds between the swapper and the pool and nothing else:
/// booking it takes `paid` of the first asset off the swapper's balance and
/// adds `received` of the second to it; settling it adds `paid` to the first
/// reserve, takes `received` from the second and adds the fee to what was
/// collected in the first asset. Shares are untouched.
pub proof fn law_swap_moves_funds(
    s: Store,
    who: AccountId,
    pool_id: u32,
    paid: Balance,
    received: Balance,
    fee: Balance,
)
    requires
        asset1_of(s, pool_id) != asset2_of(s, pool_id),
        (s.token1_balance)(who, asset1_of(s, pool_id)) >= paid,
        (s.token2_balance)(who, asset2_of(s, pool_id)) + received <= u128::MAX,
        reserve1(s, pool_id) + paid <= u128::MAX,
        reserve2(s, pool_id) >= received,
        (s.total_fee_collected)(asset1_of(s, pool_id)) + fee <= u128::MAX,
    ensures
        ({
            let a1 = asset1_of(s, pool_id);
            let a2 = asset2_of(s, pool_id);
            let booked = trade_booked(s, who, pool_id, paid, received);
            let after = swap_settled(booked, a1, a2, paid, received, fee);
            &&& (booked.token1_balance)(who, a1) == (s.token1_balance)(who, a1) - paid
            &&& (booked.token2_balance)(who, a2) == (s.token2_balance)(who, a2) + received
            &&& booked.total_token1 == s.total_token1 && booked.total_token2 == s.total_token2
            &&& (after.total_token1)(a1) == (s.total_token1)(a1) + paid
            &&& (after.total_token2)(a2) == (s.total_token2)(a2) - received
            &&& (after.total_fee_collected)(a1) == (s.total_fee_collected)(a1) + fee
            &&& (after.total_fee_collected)(a2) == (s.total_fee_collected)(a2)
            &&& after.shares == s.shares && after.total_shares == s.total_shares
        }),
{
}

/// Booking a provision takes the amounts provided off the provider's
/// balances and touches nothing else.
pub proof fn law_provision_books_amounts(
    s: Store,
    who: AccountId,
    pool_id: u32,
    amount1: Balance,
    amount2: Balance,
)
    requires
        (s.token1_balance)(who, asset1_of(s, pool_id)) >= amount1,
        (s.token2_balance)(who, asset2_of(s, pool_id)) >= amount2,
    ensures
        ({
            let a1 = asset1_of(s, pool_id);
            let a2 = asset2_of(s, pool_id);
            let booked = provide_booked(s, who, pool_id, amount1, amount2);
            &&& (booked.token1_balance)(who, a1) == (s.token1_balance)(who, a1) - amount1
            &&& (booked.token2_balance)(who, a2) == (s.token2_balance)(who, a2) - amount2
            &&& booked.shares == s.shares && booked.total_shares == s.total_shares
            &&& booked.total_token1 == s.total_token1 && booked.total_token2 == s.total_token2
        }),
{
}

/// A provision to a pool with shares issued mints a positive number of
/// shares that is the same part of the shares as each amount is of its
/// reserve, rounded down; the first provision, with no shares issued, mints
/// 100.
pub proof fn law_provision_mints_in_proportion(s: Store, pool_id: u32, amount1: Balance, amount2: Balance)
    requires
        s.total_shares > 0 ==> {
            &&& reserve1(s, pool_id) > 0
            &&& reserve2(s, pool_id) > 0
            &&& s.total_shares * amount1 <= u128::MAX
            &&& s.total_shares * amount2 <= u128::MAX
        },
    ensures
        s.total_shares == 0 ==> provide_decision(s, pool_id, amount1, amount2) == Ok::<Balance, Error>(100),
        (s.total_shares > 0 && provide_decision(s, pool_id, amount1, amount2) is Ok) ==> {
            let share = provide_decision(s, pool_id, amount1, amount2)->Ok_0;
            &&& share > 0
            &&& share * reserve1(s, pool_id) <= s.total_shares * amount1 < (share + 1) * reserve1(s, pool_id)
            &&& share * reserve2(s, pool_id) <= s.total_shares * amount2 < (share + 1) * reserve2(s, pool_id)
        },
{
    if s.total_shares > 0 {
        let ts = s.total_shares as int;
        let r1 = reserve1(s, pool_id) as int;
        let r2 = reserve2(s, pool_id) as int;
        lemma_fraction_bounds(ts * amount1, r1);
        lemma_fraction_bounds(ts * amount2, r2);
        vstd::arithmetic::mul::lemma_mul_nonnegative(ts, amount1 as int);
        vstd::arithmetic::div_mod::lemma_div_is_ordered_by_denominator(ts * amount1, 1, r1);
    }
}

/// `x / d` rounded down is the count of `d`s that fits in `x`.
proof fn lemma_fraction_bounds(x: int, d: int)
    requires
        d > 0,
    ensures
        (x / d) * d <= x < (x / d + 1) * d,
{
    vstd::arithmetic::div_mod::lemma_fundamental_div_mod(x, d);
    vstd::arithmetic::div_mod::lemma_mod_bound(x, d);
    lemma_mul_is_commutative(d, x / d);
    lemma_mul_is_distributive_add(d, x / d, 1);
    lemma_mul_is_commutative(d, x / d + 1);
}

} // verus!
