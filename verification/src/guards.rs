//! Where a call aborts. Each function here says whether a call would abort on
//! the current storage (an arithmetic overflow, a division by zero, a failed
//! check that the call does not tolerate, a missing record); the calls
//! themselves require that it would not, so a caller tests first and aborts
//! (panics) itself.
use vstd::prelude::*;
use crate::types::{AccountId, AssetDetails, AssetId, Balance};
use crate::store::Module;
use crate::queries::{
    div_round_up, k_fits, withdraw_estimate_defined, swap_estimate_given_token1_defined, swap_estimate_given_token2_defined,
};
use crate::dispatch::{
    create_pool_defined, withdraw_defined, swap1_defined, swap2_defined, swap_settle_defined,
    provide_defined, provide_settle_defined, distribution_defined, distribution_settle_defined,
    SwapPending, ProvidePending, DistributionStep, provider_part_defined,
};
use crate::arith::{lemma_mul_div_ge, lemma_ceil_div};

verus! {

impl Module {
    /// Whether the product of the reserves of pool `pool_Id` overflows.
    pub fn getK_panics(&self, pool_Id: u32) -> (b: bool)
        ensures
            b == !k_fits(self@, pool_Id),
    {
        let (asset1, asset2, _native1, _native2) = self.pool(pool_Id);
        self.total_token1(asset1).checked_mul(self.total_token2(asset2)).is_none()
    }

    /// Whether the withdrawal estimate would panic.
    pub fn getWithdrawEstimate_panics(&self, pool_Id: u32, _share: Balance) -> (b: bool)
        ensures
            b == !withdraw_estimate_defined(self@, pool_Id, _share),
    {
        let (asset1, asset2, _native1, _native2) = self.pool(pool_Id);
        let r1 = self.total_token1(asset1);
        let r2 = self.total_token2(asset2);
        if r1 == 0 || r2 == 0 {
            return false;
        }
        let total_shares = self.total_shares();
        if _share > total_shares {
            return false;
        }
        if total_shares == 0 {
            return true;
        }
        _share.checked_mul(r1).is_none() || _share.checked_mul(r2).is_none()
    }

    /// Whether the first swap estimate would panic.
    pub fn getSwapToken1EstimateGivenToken1_panics(&self, pool_Id: u32, _amountToken1: Balance) -> (b: bool)
        ensures
            b == !swap_estimate_given_token1_defined(self@, pool_Id, _amountToken1),
    {
        let (asset1, asset2, _native1, _native2) = self.pool(pool_Id);
        let r1 = self.total_token1(asset1);
        let r2 = self.total_token2(asset2);
        if r1.checked_mul(r2).is_none() {
            return true;
        }
        if r1 == 0 || r2 == 0 {
            return false;
        }
        let fees = self.fees();
        if fees > 1000 {
            return true;
        }
        match (1000 - fees).checked_mul(_amountToken1) {
            None => true,
            Some(x) => r1.checked_add(x / 1000).is_none(),
        }
    }

    /// Whether the second swap estimate would panic.
    pub fn getSwapToken1EstimateGivenToken2_panics(&self, pool_Id: u32, _amountToken2: Balance) -> (b: bool)
        ensures
            b == !swap_estimate_given_token2_defined(self@, pool_Id, _amountToken2),
    {
        let (asset1, asset2, _native1, _native2) = self.pool(pool_Id);
        let r1 = self.total_token1(asset1);
        let r2 = self.total_token2(asset2);
        let k = match r1.checked_mul(r2) {
            None => {
                return true;
            },
            Some(k) => k,
        };
        if r1 == 0 || r2 == 0 || _amountToken2 >= r2 {
            return false;
        }
        let fees = self.fees();
        if fees >= 1000 {
            return true;
        }
        let token1_after = div_round_up(k, r2 - _amountToken2);
        proof {
            lemma_ceil_div(r1 * r2, (r2 - _amountToken2) as int);
            lemma_mul_div_ge(r1 as int, r2 as int, (r2 - _amountToken2) as int);
        }
        match (token1_after - r1).checked_mul(1000) {
            None => true,
            Some(x) => div_round_up(x, 1000 - fees).checked_mul(fees).is_none(),
        }
    }

    /// Whether `CreatePool` would panic: it runs out of pool ids, or an
    /// asset of a new pair has no registry record.
    pub fn CreatePool_panics(
        &self,
        Asset1: AssetId,
        Asset2: AssetId,
        details1: &Option<AssetDetails<Balance, AccountId, Balance>>,
        details2: &Option<AssetDetails<Balance, AccountId, Balance>>,
    ) -> (b: bool)
        ensures
            b == !create_pool_defined(self@, Asset1, Asset2, *details1, *details2),
    {
        let pairs = self.poolpairs();
        let mut i: usize = 0;
        while i < pairs.len()
            invariant
                i <= pairs@.len(),
                pairs@ == self@.pool_pairs,
                forall|j: int| 0 <= j < i ==> pairs@[j] != (Asset1, Asset2),
            decreases pairs@.len() - i,
        {
            let (x1, x2) = pairs[i];
            assert(pairs@[i as int] == (x1, x2));
            if x1 == Asset1 && x2 == Asset2 {
                assert(self@.pool_pairs.contains((Asset1, Asset2)));
                return false;
            }
            i = i + 1;
        }
        self.pool_id() == u32::MAX || details1.is_none() || details2.is_none()
    }

    /// Whether `withdraw` would panic.
    pub fn withdraw_panics(&self, who: AccountId, pool_Id: u32, _share: Balance) -> (b: bool)
        ensures
            b == !withdraw_defined(self@, who, pool_Id, _share),
    {
        if self.validAmountCheckShares(&who, _share).is_err() {
            return false;
        }
        if self.getWithdrawEstimate_panics(pool_Id, _share) {
            return true;
        }
        let (asset1, asset2, _native1, _native2) = self.pool(pool_Id);
        match self.getWithdrawEstimate(&who, pool_Id, _share) {
            Err(_) => false,
            Ok((amount1, amount2)) => self.token1_balance(who, asset1).checked_add(amount1).is_none()
                || self.token2_balance(who, asset2).checked_add(amount2).is_none(),
        }
    }

    /// Whether `swapToken1GivenToken1` would panic.
    pub fn swapToken1GivenToken1_panics(&self, who: AccountId, pool_Id: u32, amountToken1: Balance, minToken2: Balance) -> (b:
        bool)
        ensures
            b == !swap1_defined(self@, who, pool_Id, amountToken1, minToken2),
    {
        if self.validAmountCheckToken1Balance(&who, amountToken1, pool_Id).is_err() {
            return false;
        }
        if self.getSwapToken1EstimateGivenToken1_panics(pool_Id, amountToken1) {
            return true;
        }
        let (_asset1, asset2, _native1, _native2) = self.pool(pool_Id);
        match self.getSwapToken1EstimateGivenToken1(pool_Id, amountToken1) {
            Err(_) => false,
            Ok((out, _fee)) => out >= minToken2 && self.token2_balance(who, asset2).checked_add(out).is_none(),
        }
    }

    /// Whether `swapToken1GivenToken2` would panic.
    pub fn swapToken1GivenToken2_panics(&self, who: AccountId, pool_Id: u32, _maxToken1: Balance, amountToken2: Balance) -> (b:
        bool)
        ensures
            b == !swap2_defined(self@, who, pool_Id, _maxToken1, amountToken2),
    {
        if self.getSwapToken1EstimateGivenToken2_panics(pool_Id, amountToken2) {
            return true;
        }
        let (_asset1, asset2, _native1, _native2) = self.pool(pool_Id);
        match self.getSwapToken1EstimateGivenToken2(pool_Id, amountToken2) {
            Err(_) => false,
            Ok((input, _fee)) => input <= _maxToken1 && self.validAmountCheckToken1Balance(&who, input, pool_Id).is_ok()
                && self.token2_balance(who, asset2).checked_add(amountToken2).is_none(),
        }
    }

    /// Whether settling a swap would panic.
    pub fn swap_settle_panics(&self, p: &SwapPending) -> (b: bool)
        ensures
            b == !swap_settle_defined(self@, p.asset1, p.asset2, p.amount_token1, p.amount_token2, p.fee_charged),
    {
        self.total_token1(p.asset1).checked_add(p.amount_token1).is_none() || self.total_token2(p.asset2)
            < p.amount_token2 || self.feeCollected(p.asset1).checked_add(p.fee_charged).is_none()
    }

    /// Whether `provide` would panic.
    pub fn provide_panics(&self, who: AccountId, _amountToken1: Balance, _amountToken2: Balance, pool_Id: u32) -> (b: bool)
        ensures
            b == !provide_defined(self@, who, _amountToken1, _amountToken2, pool_Id),
    {
        if self.validAmountCheckToken1Balance(&who, _amountToken1, pool_Id).is_err() {
            return true;
        }
        if self.validAmountCheckToken2Balance(&who, _amountToken2, pool_Id).is_err() {
            return true;
        }
        let total_shares = self.total_shares();
        if total_shares == 0 {
            return false;
        }
        let (asset1, asset2, _native1, _native2) = self.pool(pool_Id);
        self.total_token1(asset1) == 0 || self.total_token2(asset2) == 0 || total_shares.checked_mul(
            _amountToken1,
        ).is_none() || total_shares.checked_mul(_amountToken2).is_none()
    }

    /// Whether settling a provision would panic.
    pub fn provide_settle_panics(&self, who: AccountId, p: &ProvidePending) -> (b: bool)
        ensures
            b == !provide_settle_defined(
                self@,
                who,
                p.asset1,
                p.asset2,
                p.amount_token1,
                p.amount_token2,
                p.share,
            ),
    {
        self.total_token1(p.asset1).checked_add(p.amount_token1).is_none() || self.total_token2(
            p.asset2,
        ).checked_add(p.amount_token2).is_none() || self.total_shares().checked_add(p.share).is_none()
            || self.shares(who).checked_add(p.share).is_none()
    }

    /// Whether planning a fee distribution would panic.
    pub fn distributeShareFee_panics(&self) -> (b: bool)
        ensures
            b == !distribution_defined(self@),
    {
        let last = self.pool_id();
        if last == u32::MAX {
            return true;
        }
        let fee = self.fees();
        let total_share = self.total_shares();
        let mut pool: u32 = 0;
        while pool <= last
            invariant
                last == self@.pool_id,
                last < u32::MAX,
                pool <= last + 1,
                fee == self@.fees,
                total_share == self@.total_shares,
                forall|q: u32, i: int|
                    q < pool && 0 <= i < (self@.liquidity_provider)(q).len() ==> #[trigger] provider_part_defined(
                        self@,
                        q,
                        i,
                    ),
            decreases last + 1 - pool,
        {
            let providers = self.liquidity_provider(pool);
            let mut j: usize = 0;
            while j < providers.len()
                invariant
                    j <= providers@.len(),
                    providers@ == (self@.liquidity_provider)(pool),
                    last == self@.pool_id,
                    last < u32::MAX,
                    pool <= last,
                    fee == self@.fees,
                    total_share == self@.total_shares,
                    forall|q: u32, i: int|
                        q < pool && 0 <= i < (self@.liquidity_provider)(q).len() ==> #[trigger] provider_part_defined(
                            self@,
                            q,
                            i,
                        ),
                    forall|i: int| 0 <= i < j ==> #[trigger] provider_part_defined(self@, pool, i),
                decreases providers@.len() - j,
            {
                if total_share == 0 {
                    assert(!provider_part_defined(self@, pool, j as int));
                    return true;
                }
                let share = self.shares(providers[j]);
                if share.checked_mul(fee).is_none() {
                    assert(!provider_part_defined(self@, pool, j as int));
                    return true;
                }
                assert(provider_part_defined(self@, pool, j as int));
                j = j + 1;
            }
            if pool == last {
                return false;
            }
            pool = pool + 1;
        }
        false
    }

    /// Whether settling a distribution step would panic.
    pub fn distributeShareFee_settle_panics(&self, step: &DistributionStep) -> (b: bool)
        ensures
            b == !distribution_settle_defined(self@, step.asset1, step.asset2, step.amount),
    {
        let collected1 = self.feeCollected(step.asset1);
        if collected1 < step.amount {
            return true;
        }
        let collected2 = if step.asset2 == step.asset1 {
            collected1 - step.amount
        } else {
            self.feeCollected(step.asset2)
        };
        collected2 < step.amount
    }
}

} // verus!
