//! The read-only part of the market maker: balance checks, liquidity, and the
//! prices that withdrawals and swaps would get.
use vstd::prelude::*;
use crate::types::{AccountId, AssetId, Balance, Error};
use crate::store::{Module, Store};
use crate::arith::{lemma_mul_div_le, lemma_mul_div_ge, ceil_div, lemma_ceil_div};
use vstd::arithmetic::div_mod::lemma_div_is_ordered_by_denominator;

verus! {

/// The first asset of a pool.
pub open spec fn asset1_of(s: Store, pool_id: u32) -> AssetId {
    (s.pool)(pool_id).0
}

/// The second asset of a pool.
pub open spec fn asset2_of(s: Store, pool_id: u32) -> AssetId {
    (s.pool)(pool_id).1
}

/// The amount of a pool's first asset locked in pools.
pub open spec fn reserve1(s: Store, pool_id: u32) -> Balance {
    (s.total_token1)(asset1_of(s, pool_id))
}

/// The amount of a pool's second asset locked in pools.
pub open spec fn reserve2(s: Store, pool_id: u32) -> Balance {
    (s.total_token2)(asset2_of(s, pool_id))
}

/// The product of a pool's two reserves.
pub open spec fn spec_k(s: Store, pool_id: u32) -> int {
    reserve1(s, pool_id) * reserve2(s, pool_id)
}

/// Whether the product of a pool's reserves fits in a balance.
pub open spec fn k_fits(s: Store, pool_id: u32) -> bool {
    spec_k(s, pool_id) <= u128::MAX
}

/// Whether a pool has liquidity: both of its reserves are nonzero.
pub open spec fn is_active(s: Store, pool_id: u32) -> bool {
    reserve1(s, pool_id) != 0 && reserve2(s, pool_id) != 0
}

/// The verdict on spending `qty` out of `balance`.
pub open spec fn check_amount(qty: Balance, balance: Balance) -> Result<(), Error> {
    if qty == 0 {
        Err(Error::ZeroAmount)
    } else if qty > balance {
        Err(Error::InsufficientAmount)
    } else {
        Ok(())
    }
}

/// The verdict on `caller` spending `qty` of the first asset of a pool.
pub open spec fn check_token1(s: Store, caller: AccountId, qty: Balance, pool_id: u32) -> Result<(), Error> {
    check_amount(qty, (s.token1_balance)(caller, asset1_of(s, pool_id)))
}

/// The verdict on `caller` spending `qty` of the second asset of a pool.
pub open spec fn check_token2(s: Store, caller: AccountId, qty: Balance, pool_id: u32) -> Result<(), Error> {
    check_amount(qty, (s.token2_balance)(caller, asset2_of(s, pool_id)))
}

/// The verdict on `caller` giving up `qty` shares.
pub open spec fn check_shares(s: Store, caller: AccountId, qty: Balance) -> Result<(), Error> {
    check_amount(qty, (s.shares)(caller))
}

/// The verdict on whether a pool has liquidity.
pub open spec fn spec_active_pool(s: Store, pool_id: u32) -> Result<(), Error> {
    if is_active(s, pool_id) {
        Ok(())
    } else {
        Err(Error::ZeroLiquidity)
    }
}

/// The part `share / total_shares` of `total`, rounded down.
pub open spec fn withdraw_amount(share: int, total: int, total_shares: int) -> int {
    share * total / total_shares
}

/// What withdrawing `share` shares from a pool pays out of each asset.
pub open spec fn spec_withdraw_estimate(s: Store, pool_id: u32, share: Balance) -> Result<
    (Balance, Balance),
    Error,
> {
    if !is_active(s, pool_id) {
        Err(Error::ZeroLiquidity)
    } else if share > s.total_shares {
        Err(Error::InvalidShare)
    } else {
        Ok(
            (
                withdraw_amount(share as int, reserve1(s, pool_id) as int, s.total_shares as int)
                    as Balance,
                withdraw_amount(share as int, reserve2(s, pool_id) as int, s.total_shares as int)
                    as Balance,
            ),
        )
    }
}

/// The inputs on which the withdrawal estimate computes without overflow or
/// division by zero.
pub open spec fn withdraw_estimate_defined(s: Store, pool_id: u32, share: Balance) -> bool {
    (is_active(s, pool_id) && share <= s.total_shares) ==> {
        &&& s.total_shares > 0
        &&& share * reserve1(s, pool_id) <= u128::MAX
        &&& share * reserve2(s, pool_id) <= u128::MAX
    }
}

/// The amount of one asset worth `amount` of the other at the pool's ratio
/// `numerator / denominator`, rounded down.
pub open spec fn equivalent_amount(numerator: int, amount: int, denominator: int) -> int {
    numerator * amount / denominator
}

/// What `amount2` of a pool's second asset is worth in its first asset.
pub open spec fn spec_equivalent_token1(s: Store, pool_id: u32, amount2: Balance) -> Result<
    Balance,
    Error,
> {
    if !is_active(s, pool_id) {
        Err(Error::ZeroLiquidity)
    } else {
        Ok(equivalent_amount(reserve1(s, pool_id) as int, amount2 as int, reserve2(s, pool_id) as int) as Balance)
    }
}

/// What `amount1` of a pool's first asset is worth in its second asset.
pub open spec fn spec_equivalent_token2(s: Store, pool_id: u32, amount1: Balance) -> Result<
    Balance,
    Error,
> {
    if !is_active(s, pool_id) {
        Err(Error::ZeroLiquidity)
    } else {
        Ok(equivalent_amount(reserve2(s, pool_id) as int, amount1 as int, reserve1(s, pool_id) as int) as Balance)
    }
}

/// The part of `amount` left once a fee of `fees` thousandths is taken, rounded
/// down.
pub open spec fn after_fee(fees: int, amount: int) -> int {
    (1000 - fees) * amount / 1000
}

/// What a swap of `amount1` of the first asset pays out of the second, at
/// reserves `r1` and `r2`: the drop in the second reserve that keeps the
/// product of the reserves (with the fee kept out of the first), less one
/// where that would empty the second reserve.
pub open spec fn swap_output(r1: int, r2: int, fees: int, amount1: int) -> int {
    let token2_after = r1 * r2 / (r1 + after_fee(fees, amount1));
    let out = r2 - token2_after;
    if out == r2 {
        out - 1
    } else {
        out
    }
}

/// What swapping `amount1` of a pool's first asset pays out of its second
/// asset, and the fee charged on the way.
pub open spec fn spec_swap_estimate_given_token1(s: Store, pool_id: u32, amount1: Balance) -> Result<
    (Balance, Balance),
    Error,
> {
    if !is_active(s, pool_id) {
        Err(Error::ZeroLiquidity)
    } else {
        Ok(
            (
                swap_output(
                    reserve1(s, pool_id) as int,
                    reserve2(s, pool_id) as int,
                    s.fees as int,
                    amount1 as int,
                ) as Balance,
                (amount1 - after_fee(s.fees as int, amount1 as int)) as Balance,
            ),
        )
    }
}

/// The inputs on which the first swap estimate computes without overflow.
pub open spec fn swap_estimate_given_token1_defined(s: Store, pool_id: u32, amount1: Balance) -> bool {
    &&& k_fits(s, pool_id)
    &&& is_active(s, pool_id) ==> {
        &&& s.fees <= 1000
        &&& (1000 - s.fees) * amount1 <= u128::MAX
        &&& reserve1(s, pool_id) + after_fee(s.fees as int, amount1 as int) <= u128::MAX
    }
}

/// The least rise of the first reserve, from `r1`, that keeps the product of
/// the reserves `r1 * r2` once `amount2` leaves the second reserve.
pub open spec fn swap_rise(r1: int, r2: int, amount2: int) -> int {
    ceil_div(r1 * r2, r2 - amount2) - r1
}

/// What a swap must put in of the first asset to take `amount2` of the
/// second, at reserves `r1` and `r2`: the least rise of the first reserve
/// that keeps the product of the reserves, grossed up by the fee, rounded up.
pub open spec fn swap_input(r1: int, r2: int, fees: int, amount2: int) -> int {
    ceil_div(swap_rise(r1, r2, amount2) * 1000, 1000 - fees)
}

/// The fee, of `fees` thousandths, on `amount`, rounded down.
pub open spec fn fee_on(amount: int, fees: int) -> int {
    amount * fees / 1000
}

/// What taking `amount2` of a pool's second asset costs of its first asset,
/// and the fee charged on the way.
pub open spec fn spec_swap_estimate_given_token2(s: Store, pool_id: u32, amount2: Balance) -> Result<
    (Balance, Balance),
    Error,
> {
    if !is_active(s, pool_id) {
        Err(Error::ZeroLiquidity)
    } else if amount2 >= reserve2(s, pool_id) {
        Err(Error::InsufficientLiquidity)
    } else {
        let input = swap_input(
            reserve1(s, pool_id) as int,
            reserve2(s, pool_id) as int,
            s.fees as int,
            amount2 as int,
        );
        Ok((input as Balance, fee_on(input, s.fees as int) as Balance))
    }
}

/// The inputs on which the second swap estimate computes without overflow or
/// division by zero.
pub open spec fn swap_estimate_given_token2_defined(s: Store, pool_id: u32, amount2: Balance) -> bool {
    &&& k_fits(s, pool_id)
    &&& (is_active(s, pool_id) && amount2 < reserve2(s, pool_id)) ==> {
        let r1 = reserve1(s, pool_id) as int;
        let r2 = reserve2(s, pool_id) as int;
        let input = swap_input(r1, r2, s.fees as int, amount2 as int);
        &&& s.fees < 1000
        &&& swap_rise(r1, r2, amount2 as int) * 1000 <= u128::MAX
        &&& input * s.fees <= u128::MAX
    }
}

/// `x / y` rounded up.
pub(crate) fn div_round_up(x: Balance, y: Balance) -> (r: Balance)
    requires
        y > 0,
    ensures
        r == ceil_div(x as int, y as int),
{
    let q = x / y;
    if x % y == 0 {
        q
    } else {
        proof {
            // a remainder leaves the divisor at least 2, and the quotient at
            // most half of `x`
            if y == 1 {
                assert(x % 1 == 0);
            }
            lemma_div_is_ordered_by_denominator(x as int, 2, y as int);
        }
        q + 1
    }
}

impl Module {
    /// Checks that `caller` may spend `_qty` of the first asset of pool
    /// `pool_Id`: the amount is nonzero and within the balance booked for
    /// the caller.
    pub fn validAmountCheckToken1Balance(&self, caller: &AccountId, _qty: Balance, pool_Id: u32) -> (r:
        Result<(), Error>)
        ensures
            r == check_token1(self@, *caller, _qty, pool_Id),
    {
        let (asset1, _asset2, _native1, _native2) = self.pool(pool_Id);
        let my_balance = Self::balance_to_u128(self.token1_balance(*caller, asset1));
        let qty = Self::balance_to_u128(_qty);
        if qty == 0 {
            Err(Error::ZeroAmount)
        } else if qty > my_balance {
            Err(Error::InsufficientAmount)
        } else {
            Ok(())
        }
    }

    /// Checks that `caller` may spend `_qty` of the second asset of pool
    /// `pool_Id`: the amount is nonzero and within the balance booked for
    /// the caller.
    pub fn validAmountCheckToken2Balance(&self, caller: &AccountId, _qty: Balance, pool_Id: u32) -> (r:
        Result<(), Error>)
        ensures
            r == check_token2(self@, *caller, _qty, pool_Id),
    {
        let (_asset1, asset2, _native1, _native2) = self.pool(pool_Id);
        let my_balance = Self::balance_to_u128(self.token2_balance(*caller, asset2));
        let qty = Self::balance_to_u128(_qty);
        if qty == 0 {
            Err(Error::ZeroAmount)
        } else if qty > my_balance {
            Err(Error::InsufficientAmount)
        } else {
            Ok(())
        }
    }

    /// Checks that `caller` may give up `_qty` shares: the amount is nonzero
    /// and within the caller's shares.
    pub fn validAmountCheckShares(&self, caller: &AccountId, _qty: Balance) -> (r: Result<(), Error>)
        ensures
            r == check_shares(self@, *caller, _qty),
    {
        let my_balance = Self::balance_to_u128(self.shares(*caller));
        let qty = Self::balance_to_u128(_qty);
        if qty == 0 {
            Err(Error::ZeroAmount)
        } else if qty > my_balance {
            Err(Error::InsufficientAmount)
        } else {
            Ok(())
        }
    }

    /// The product of the reserves of pool `pool_Id`.
    pub fn getK(&self, pool_Id: u32) -> (k: Balance)
        requires
            k_fits(self@, pool_Id),
        ensures
            k == spec_k(self@, pool_Id),
    {
        let (asset1, asset2, _native1, _native2) = self.pool(pool_Id);
        self.total_token1(asset1) * self.total_token2(asset2)
    }

    /// A balance given as a `u128`; the two are the same type here.
    pub fn u128_to_balance_option(input: u128) -> (r: Balance)
        ensures
            r == input,
    {
        input
    }

    /// A native-currency amount given as a `u128`; the two are the same type
    /// here.
    pub fn u128_to_CurrencyBalance_option(input: u128) -> (r: Balance)
        ensures
            r == input,
    {
        input
    }

    /// A balance as a `u128`; the two are the same type here.
    pub fn balance_to_u128(input: Balance) -> (r: u128)
        ensures
            r == input,
    {
        input
    }

    /// Fails with `ZeroLiquidity` when pool `pool_Id` has an empty reserve;
    /// withdrawals and swaps wait for liquidity this way.
    pub fn activePool(&self, pool_Id: u32) -> (r: Result<(), Error>)
        ensures
            r == spec_active_pool(self@, pool_Id),
    {
        let (asset1, asset2, _native1, _native2) = self.pool(pool_Id);
        let r1 = Self::balance_to_u128(self.total_token1(asset1));
        let r2 = Self::balance_to_u128(self.total_token2(asset2));
        if r1 == 0 || r2 == 0 {
            Err(Error::ZeroLiquidity)
        } else {
            Ok(())
        }
    }

    /// What withdrawing `_share` shares from pool `pool_Id` pays out of each
    /// of its assets: the part `_share / total_shares` of each reserve.
    pub fn getWithdrawEstimate(&self, _caller: &AccountId, pool_Id: u32, _share: Balance) -> (r:
        Result<(Balance, Balance), Error>)
        requires
            withdraw_estimate_defined(self@, pool_Id, _share),
        ensures
            r == spec_withdraw_estimate(self@, pool_Id, _share),
    {
        self.activePool(pool_Id)?;
        let total_shares = self.total_shares();
        if !(_share <= total_shares) {
            return Err(Error::InvalidShare);
        }
        let (asset1, asset2, _native1, _native2) = self.pool(pool_Id);
        let amount_token1 = _share * self.total_token1(asset1) / total_shares;
        let amount_token2 = _share * self.total_token2(asset2) / total_shares;
        proof {
            lemma_mul_div_le(_share as int, reserve1(self@, pool_Id) as int, total_shares as int);
            lemma_mul_div_le(_share as int, reserve2(self@, pool_Id) as int, total_shares as int);
        }
        Ok((amount_token1, amount_token2))
    }

    /// What `_amountToken2` of the second asset of pool `pool_Id` is worth in
    /// its first asset, at the pool's ratio.
    pub fn getEquivalentToken1Estimate(&self, pool_Id: u32, _amountToken2: Balance) -> (r: Result<
        Balance,
        Error,
    >)
        requires
            is_active(self@, pool_Id) ==> reserve1(self@, pool_Id) * _amountToken2 <= u128::MAX,
        ensures
            r == spec_equivalent_token1(self@, pool_Id, _amountToken2),
    {
        self.activePool(pool_Id)?;
        let (asset1, asset2, _native1, _native2) = self.pool(pool_Id);
        let r1 = self.total_token1(asset1);
        let r2 = self.total_token2(asset2);
        proof {
            vstd::arithmetic::mul::lemma_mul_nonnegative(r1 as int, _amountToken2 as int);
            vstd::arithmetic::div_mod::lemma_div_is_ordered(0, r1 * _amountToken2, r2 as int);
            vstd::arithmetic::div_mod::lemma_div_is_ordered(r1 * _amountToken2, u128::MAX as int, r2 as int);
            vstd::arithmetic::div_mod::lemma_div_is_ordered_by_denominator(u128::MAX as int, 1, r2 as int);
        }
        Ok(r1 * _amountToken2 / r2)
    }

    /// What `_amountToken1` of the first asset of pool `poolId` is worth in
    /// its second asset, at the pool's ratio.
    pub fn getEquivalentToken2Estimate(&self, poolId: u32, _amountToken1: Balance) -> (r: Result<
        Balance,
        Error,
    >)
        requires
            is_active(self@, poolId) ==> reserve2(self@, poolId) * _amountToken1 <= u128::MAX,
        ensures
            r == spec_equivalent_token2(self@, poolId, _amountToken1),
    {
        self.activePool(poolId)?;
        let (asset1, asset2, _native1, _native2) = self.pool(poolId);
        let r1 = self.total_token1(asset1);
        let r2 = self.total_token2(asset2);
        proof {
            vstd::arithmetic::mul::lemma_mul_nonnegative(r2 as int, _amountToken1 as int);
            vstd::arithmetic::div_mod::lemma_div_is_ordered(0, r2 * _amountToken1, r1 as int);
            vstd::arithmetic::div_mod::lemma_div_is_ordered(r2 * _amountToken1, u128::MAX as int, r1 as int);
            vstd::arithmetic::div_mod::lemma_div_is_ordered_by_denominator(u128::MAX as int, 1, r1 as int);
        }
        Ok(r2 * _amountToken1 / r1)
    }

    /// What `caller` holds: the first and second asset balances booked for
    /// them in pool `pool_Id`'s assets, and their shares.
    pub fn getMyHoldings(&self, caller: AccountId, pool_Id: u32) -> (r: (Balance, Balance, Balance))
        ensures
            r == (
                (self@.token1_balance)(caller, asset1_of(self@, pool_Id)),
                (self@.token2_balance)(caller, asset2_of(self@, pool_Id)),
                (self@.shares)(caller),
            ),
    {
        let (asset1, asset2, _native1, _native2) = self.pool(pool_Id);
        let token1 = self.token1_balance(caller, asset1);
        let token2 = self.token2_balance(caller, asset2);
        let my_shares = self.shares(caller);
        (token1, token2, my_shares)
    }

    /// The reserves of pool `pool_Id`, the shares issued, and the fee
    /// charged on swaps, in thousandths.
    pub fn getPoolDetails(&self, pool_Id: u32) -> (r: (Balance, Balance, Balance, Balance))
        ensures
            r == (reserve1(self@, pool_Id), reserve2(self@, pool_Id), self@.total_shares, self@.fees),
    {
        let (asset1, asset2, _native1, _native2) = self.pool(pool_Id);
        (self.total_token1(asset1), self.total_token2(asset2), self.total_shares(), self.fees())
    }

    /// What swapping `_amountToken1` of the first asset of pool `pool_Id`
    /// pays out of the second, and the fee charged.
    pub fn getSwapToken1EstimateGivenToken1(&self, pool_Id: u32, _amountToken1: Balance) -> (r:
        Result<(Balance, Balance), Error>)
        requires
            swap_estimate_given_token1_defined(self@, pool_Id, _amountToken1),
        ensures
            r == spec_swap_estimate_given_token1(self@, pool_Id, _amountToken1),
    {
        self.activePool(pool_Id)?;
        let (asset1, asset2, _native1, _native2) = self.pool(pool_Id);
        let r1 = self.total_token1(asset1);
        let r2 = self.total_token2(asset2);
        let thousand = Self::u128_to_balance_option(1000);
        proof {
            lemma_mul_div_le((1000 - self@.fees) as int, _amountToken1 as int, 1000);
        }
        // Adjusting the amount for the fee charged.
        let amount_token1 = (thousand - self.fees()) * _amountToken1 / thousand;
        let token1_after = match r1.checked_add(amount_token1) {
            Some(v) => v,
            None => {
                assert(false);
                0
            },
        };
        proof {
            lemma_mul_div_le(r1 as int, r2 as int, token1_after as int);
        }
        let token2_after = match self.getK(pool_Id).checked_div(token1_after) {
            Some(v) => v,
            None => {
                assert(false);
                0
            },
        };
        let mut amount_token2 = match r2.checked_sub(token2_after) {
            Some(v) => v,
            None => {
                assert(false);
                0
            },
        };
        // The second reserve is never emptied, which would leave an
        // unbounded price.
        if amount_token2 == r2 {
            amount_token2 = match amount_token2.checked_sub(Self::u128_to_balance_option(1)) {
                Some(v) => v,
                None => {
                    assert(false);
                    0
                },
            };
        }
        let fee_charged = _amountToken1 - amount_token1;
        Ok((amount_token2, fee_charged))
    }

    /// What taking `_amountToken2` of the second asset of pool `pool_Id`
    /// costs of its first asset, and the fee charged.
    pub fn getSwapToken1EstimateGivenToken2(&self, pool_Id: u32, _amountToken2: Balance) -> (r:
        Result<(Balance, Balance), Error>)
        requires
            swap_estimate_given_token2_defined(self@, pool_Id, _amountToken2),
        ensures
            r == spec_swap_estimate_given_token2(self@, pool_Id, _amountToken2),
    {
        self.activePool(pool_Id)?;
        let (asset1, asset2, _native1, _native2) = self.pool(pool_Id);
        let r1 = self.total_token1(asset1);
        let r2 = self.total_token2(asset2);
        if _amountToken2 >= r2 {
            return Err(Error::InsufficientLiquidity);
        }
        let token2_after = r2 - _amountToken2;
        // the least first reserve that keeps the product
        let token1_after = div_round_up(self.getK(pool_Id), token2_after);
        proof {
            lemma_ceil_div(r1 * r2, token2_after as int);
            lemma_mul_div_ge(r1 as int, r2 as int, token2_after as int);
        }
        let thousand = Self::u128_to_balance_option(1000);
        let amount_token1 = div_round_up((token1_after - r1) * thousand, thousand - self.fees());
        let fee_charged = (amount_token1 * self.fees()) / thousand;
        Ok((amount_token1, fee_charged))
    }
}

} // verus!
