//! The calls that change the market maker's storage. A call that moves funds
//! is split where the funds move: the first part decides, updates
//! storage and returns the transfers to carry out in order; once all of them
//! succeeded the caller runs the second part, which books the rest.
use vstd::prelude::*;
use crate::types::{AccountId, AssetDetails, AssetId, Balance, Error, Event, PoolInfo, Transfer};
use crate::store::{Module, Store, strictly_increasing};
use crate::queries::{
    reserve1, reserve2, asset1_of, asset2_of, check_shares, check_token1, spec_withdraw_estimate,
    withdraw_estimate_defined, spec_swap_estimate_given_token1, swap_estimate_given_token1_defined,
    spec_swap_estimate_given_token2, swap_estimate_given_token2_defined, check_token2,
};

verus! {

/// The transfers that pay `amount1` of a pool's first asset and `amount2` of
/// its second from the account `from` to `to`; a pool whose two assets are
/// both native is refused.
pub open spec fn pay_transfers(
    from: AccountId,
    to: AccountId,
    info: PoolInfo,
    amount1: Balance,
    amount2: Balance,
) -> Result<Seq<Transfer>, Error> {
    let (a1, a2, n1, n2) = info;
    if n1 && !n2 {
        Ok(
            seq![
                Transfer::Native { source: from, dest: to, amount: amount1 },
                Transfer::Asset { origin: from, asset: a2, target: to, amount: amount2 },
            ],
        )
    } else if n2 && !n1 {
        Ok(
            seq![
                Transfer::Asset { origin: from, asset: a1, target: to, amount: amount1 },
                Transfer::Native { source: from, dest: to, amount: amount2 },
            ],
        )
    } else if n1 && n2 {
        Err(Error::BothTokensCannotBeNative)
    } else {
        Ok(
            seq![
                Transfer::Asset { origin: from, asset: a1, target: to, amount: amount1 },
                Transfer::Asset { origin: from, asset: a2, target: to, amount: amount2 },
            ],
        )
    }
}

/// The transfers of a swap in a pool: `who` pays `paid` of the first asset to
/// the market maker's account `pool_account`, which pays `received` of the
/// second asset back.
pub open spec fn trade_transfers(
    pool_account: AccountId,
    who: AccountId,
    info: PoolInfo,
    paid: Balance,
    received: Balance,
) -> Result<Seq<Transfer>, Error> {
    let (a1, a2, n1, n2) = info;
    if n1 && !n2 {
        Ok(
            seq![
                Transfer::Native { source: who, dest: pool_account, amount: paid },
                Transfer::Asset { origin: pool_account, asset: a2, target: who, amount: received },
            ],
        )
    } else if n2 && !n1 {
        Ok(
            seq![
                Transfer::Asset { origin: who, asset: a1, target: pool_account, amount: paid },
                Transfer::Native { source: pool_account, dest: who, amount: received },
            ],
        )
    } else if n1 && n2 {
        Err(Error::BothTokensCannotBeNative)
    } else {
        Ok(
            seq![
                Transfer::Asset { origin: who, asset: a1, target: pool_account, amount: paid },
                Transfer::Asset { origin: pool_account, asset: a2, target: who, amount: received },
            ],
        )
    }
}

fn make_pay_transfers(
    from: AccountId,
    to: AccountId,
    info: PoolInfo,
    amount1: Balance,
    amount2: Balance,
) -> (r: Result<Vec<Transfer>, Error>)
    ensures
        match pay_transfers(from, to, info, amount1, amount2) {
            Ok(ts) => r matches Ok(v) && v@ == ts,
            Err(e) => r == Err::<Vec<Transfer>, Error>(e),
        },
{
    let (a1, a2, n1, n2) = info;
    if n1 && !n2 {
        Ok(
            vec![
                Transfer::Native { source: from, dest: to, amount: amount1 },
                Transfer::Asset { origin: from, asset: a2, target: to, amount: amount2 },
            ],
        )
    } else if n2 && !n1 {
        Ok(
            vec![
                Transfer::Asset { origin: from, asset: a1, target: to, amount: amount1 },
                Transfer::Native { source: from, dest: to, amount: amount2 },
            ],
        )
    } else if n1 && n2 {
        Err(Error::BothTokensCannotBeNative)
    } else {
        Ok(
            vec![
                Transfer::Asset { origin: from, asset: a1, target: to, amount: amount1 },
                Transfer::Asset { origin: from, asset: a2, target: to, amount: amount2 },
            ],
        )
    }
}

fn make_trade_transfers(
    pool_account: AccountId,
    who: AccountId,
    info: PoolInfo,
    paid: Balance,
    received: Balance,
) -> (r: Result<Vec<Transfer>, Error>)
    ensures
        match trade_transfers(pool_account, who, info, paid, received) {
            Ok(ts) => r matches Ok(v) && v@ == ts,
            Err(e) => r == Err::<Vec<Transfer>, Error>(e),
        },
{
    let (a1, a2, n1, n2) = info;
    if n1 && !n2 {
        Ok(
            vec![
                Transfer::Native { source: who, dest: pool_account, amount: paid },
                Transfer::Asset { origin: pool_account, asset: a2, target: who, amount: received },
            ],
        )
    } else if n2 && !n1 {
        Ok(
            vec![
                Transfer::Asset { origin: who, asset: a1, target: pool_account, amount: paid },
                Transfer::Native { source: pool_account, dest: who, amount: received },
            ],
        )
    } else if n1 && n2 {
        Err(Error::BothTokensCannotBeNative)
    } else {
        Ok(
            vec![
                Transfer::Asset { origin: who, asset: a1, target: pool_account, amount: paid },
                Transfer::Asset { origin: pool_account, asset: a2, target: who, amount: received },
            ],
        )
    }
}

/// The swap fee stored for a requested fee: requests of 1000 or more
/// store zero.
pub open spec fn stored_fee(fees: Balance) -> Balance {
    if fees >= 1000 {
        0
    } else {
        fees
    }
}

/// The verdict on creating a pool for `(asset1, asset2)` on behalf of `who`,
/// given the registry records of the two assets.
pub open spec fn spec_create_pool(
    s: Store,
    who: AccountId,
    asset1: AssetId,
    asset2: AssetId,
    details1: Option<AssetDetails<Balance, AccountId, Balance>>,
    details2: Option<AssetDetails<Balance, AccountId, Balance>>,
) -> Result<Event, Error> {
    if s.pool_pairs.contains((asset1, asset2)) {
        Err(Error::PoolPairAlreadyExists)
    } else if details1.unwrap().owner != who {
        Err(Error::AssetNotExists)
    } else if details2.unwrap().owner != who {
        Err(Error::AssetNotExists)
    } else {
        Ok(Event::PoolCreated(who, asset1, asset2))
    }
}

/// The inputs on which pool creation neither runs out of pool ids nor meets
/// an asset without a registry record.
pub open spec fn create_pool_defined(
    s: Store,
    asset1: AssetId,
    asset2: AssetId,
    details1: Option<AssetDetails<Balance, AccountId, Balance>>,
    details2: Option<AssetDetails<Balance, AccountId, Balance>>,
) -> bool {
    !s.pool_pairs.contains((asset1, asset2)) ==> {
        &&& s.pool_id < u32::MAX
        &&& details1 is Some
        &&& details2 is Some
    }
}

/// The transfers a call asks for, and the event to deposit once they all
/// succeeded.
pub struct Payout {
    pub transfers: Vec<Transfer>,
    pub event: Event,
}

/// The verdict on `who` withdrawing `share` shares from a pool: what it pays
/// out of each asset.
pub open spec fn withdraw_decision(s: Store, who: AccountId, pool_id: u32, share: Balance) -> Result<
    (Balance, Balance),
    Error,
> {
    match check_shares(s, who, share) {
        Err(e) => Err(e),
        Ok(_) => spec_withdraw_estimate(s, pool_id, share),
    }
}

/// The inputs on which a withdrawal computes without overflow or division by
/// zero.
pub open spec fn withdraw_defined(s: Store, who: AccountId, pool_id: u32, share: Balance) -> bool {
    check_shares(s, who, share) is Ok ==> {
        &&& withdraw_estimate_defined(s, pool_id, share)
        &&& spec_withdraw_estimate(s, pool_id, share) matches Ok((amount1, amount2)) ==> {
            &&& (s.token1_balance)(who, asset1_of(s, pool_id)) + amount1 <= u128::MAX
            &&& (s.token2_balance)(who, asset2_of(s, pool_id)) + amount2 <= u128::MAX
        }
    }
}

/// The storage after `who` withdrew `share` shares from a pool for `amount1`
/// and `amount2`: the shares are retired, the amounts leave the reserves and
/// are booked to `who`.
pub open spec fn withdraw_booked(
    s: Store,
    who: AccountId,
    pool_id: u32,
    share: Balance,
    amount1: Balance,
    amount2: Balance,
) -> Store {
    let a1 = asset1_of(s, pool_id);
    let a2 = asset2_of(s, pool_id);
    s.with_shares(who, ((s.shares)(who) - share) as Balance)
        .with_total_shares((s.total_shares - share) as Balance)
        .with_total_token1(a1, ((s.total_token1)(a1) - amount1) as Balance)
        .with_total_token2(a2, ((s.total_token2)(a2) - amount2) as Balance)
        .with_token1_balance(who, a1, ((s.token1_balance)(who, a1) + amount1) as Balance)
        .with_token2_balance(who, a2, ((s.token2_balance)(who, a2) + amount2) as Balance)
}

/// The verdict on `who` swapping `amount1` of a pool's first asset for at
/// least `min2` of its second: what comes out, and the fee charged.
pub open spec fn swap1_decision(s: Store, who: AccountId, pool_id: u32, amount1: Balance, min2: Balance) -> Result<
    (Balance, Balance),
    Error,
> {
    match check_token1(s, who, amount1, pool_id) {
        Err(e) => Err(e),
        Ok(_) => match spec_swap_estimate_given_token1(s, pool_id, amount1) {
            Err(e) => Err(e),
            Ok((out, fee)) => if out >= min2 {
                Ok((out, fee))
            } else {
                Err(Error::SlippageExceeded)
            },
        },
    }
}

/// The inputs on which the first swap computes without overflow.
pub open spec fn swap1_defined(s: Store, who: AccountId, pool_id: u32, amount1: Balance, min2: Balance) -> bool {
    check_token1(s, who, amount1, pool_id) is Ok ==> {
        &&& swap_estimate_given_token1_defined(s, pool_id, amount1)
        &&& swap1_decision(s, who, pool_id, amount1, min2) matches Ok((out, fee)) ==> (s.token2_balance)(
            who,
            asset2_of(s, pool_id),
        ) + out <= u128::MAX
    }
}

/// The verdict on `who` taking `amount2` of a pool's second asset for at
/// most `max1` of its first: what goes in, and the fee charged.
pub open spec fn swap2_decision(s: Store, who: AccountId, pool_id: u32, max1: Balance, amount2: Balance) -> Result<
    (Balance, Balance),
    Error,
> {
    match spec_swap_estimate_given_token2(s, pool_id, amount2) {
        Err(e) => Err(e),
        Ok((input, fee)) => if input > max1 {
            Err(Error::SlippageExceeded)
        } else {
            match check_token1(s, who, input, pool_id) {
                Err(e) => Err(e),
                Ok(_) => Ok((input, fee)),
            }
        },
    }
}

/// The inputs on which the second swap computes without overflow.
pub open spec fn swap2_defined(s: Store, who: AccountId, pool_id: u32, max1: Balance, amount2: Balance) -> bool {
    &&& swap_estimate_given_token2_defined(s, pool_id, amount2)
    &&& swap2_decision(s, who, pool_id, max1, amount2) matches Ok((input, fee)) ==> (s.token2_balance)(
        who,
        asset2_of(s, pool_id),
    ) + amount2 <= u128::MAX
}

/// The storage after the balances booked for `who` in a pool's assets went
/// down by `paid` of the first and up by `received` of the second.
pub open spec fn trade_booked(s: Store, who: AccountId, pool_id: u32, paid: Balance, received: Balance) -> Store {
    let a1 = asset1_of(s, pool_id);
    let a2 = asset2_of(s, pool_id);
    s.with_token1_balance(who, a1, ((s.token1_balance)(who, a1) - paid) as Balance).with_token2_balance(
        who,
        a2,
        ((s.token2_balance)(who, a2) + received) as Balance,
    )
}

/// The storage after a swap's transfers went through: the first reserve
/// rises by what was paid, the second falls by what was received, and the
/// fee is added to what was collected in the first asset.
pub open spec fn swap_settled(
    s: Store,
    asset1: AssetId,
    asset2: AssetId,
    paid: Balance,
    received: Balance,
    fee: Balance,
) -> Store {
    let s1 = s.with_total_token1(asset1, ((s.total_token1)(asset1) + paid) as Balance).with_total_token2(
        asset2,
        ((s.total_token2)(asset2) - received) as Balance,
    );
    s1.with_total_fee_collected(asset1, ((s1.total_fee_collected)(asset1) + fee) as Balance)
}

/// The inputs on which settling a swap computes without overflow.
pub open spec fn swap_settle_defined(
    s: Store,
    asset1: AssetId,
    asset2: AssetId,
    paid: Balance,
    received: Balance,
    fee: Balance,
) -> bool {
    &&& (s.total_token1)(asset1) + paid <= u128::MAX
    &&& (s.total_token2)(asset2) >= received
    &&& (s.total_fee_collected)(asset1) + fee <= u128::MAX
}

/// A swap whose storage booking is done and whose transfers are pending.
pub struct SwapPending {
    pub asset1: AssetId,
    pub asset2: AssetId,
    /// What goes into the pool of the first asset.
    pub amount_token1: Balance,
    /// What comes out of the pool of the second asset.
    pub amount_token2: Balance,
    pub fee_charged: Balance,
    pub transfers: Vec<Transfer>,
}

/// The shares that providing `amount` against a reserve of `reserve` mints,
/// with `total_shares` shares issued: the same part of the shares as of the
/// reserve, rounded down.
pub open spec fn minted_share(total_shares: int, amount: int, reserve: int) -> int {
    total_shares * amount / reserve
}

/// The verdict on providing `amount1` and `amount2` to a pool: the shares
/// minted. The first provision mints 100 shares; later ones must be worth the
/// same share of both reserves and at least one share.
pub open spec fn provide_decision(s: Store, pool_id: u32, amount1: Balance, amount2: Balance) -> Result<
    Balance,
    Error,
> {
    if s.total_shares == 0 {
        Ok(100)
    } else {
        let share1 = minted_share(s.total_shares as int, amount1 as int, reserve1(s, pool_id) as int);
        let share2 = minted_share(s.total_shares as int, amount2 as int, reserve2(s, pool_id) as int);
        if share1 != share2 {
            Err(Error::NonEquivalentValue)
        } else if share1 == 0 {
            Err(Error::ThresholdNotReached)
        } else {
            Ok(share1 as Balance)
        }
    }
}

/// The inputs on which providing neither fails a balance check (which aborts
/// the call) nor overflows nor divides by zero.
pub open spec fn provide_defined(s: Store, who: AccountId, amount1: Balance, amount2: Balance, pool_id: u32) -> bool {
    &&& check_token1(s, who, amount1, pool_id) is Ok
    &&& check_token2(s, who, amount2, pool_id) is Ok
    &&& s.total_shares != 0 ==> {
        &&& reserve1(s, pool_id) > 0
        &&& reserve2(s, pool_id) > 0
        &&& s.total_shares * amount1 <= u128::MAX
        &&& s.total_shares * amount2 <= u128::MAX
    }
}

/// The storage after the balances booked for `who` in a pool's assets went
/// down by `amount1` and `amount2`.
pub open spec fn provide_booked(s: Store, who: AccountId, pool_id: u32, amount1: Balance, amount2: Balance) -> Store {
    let a1 = asset1_of(s, pool_id);
    let a2 = asset2_of(s, pool_id);
    s.with_token1_balance(who, a1, ((s.token1_balance)(who, a1) - amount1) as Balance).with_token2_balance(
        who,
        a2,
        ((s.token2_balance)(who, a2) - amount2) as Balance,
    )
}

/// A provision whose storage booking is done and whose transfers are
/// pending.
pub struct ProvidePending {
    pub pool_id: u32,
    pub asset1: AssetId,
    pub asset2: AssetId,
    pub amount_token1: Balance,
    pub amount_token2: Balance,
    /// The shares the provision mints.
    pub share: Balance,
    pub transfers: Vec<Transfer>,
}

/// The storage after a provision's transfers went through, but for the list
/// of providers: the reserves rise by the amounts provided and the shares are
/// minted to `who`.
pub open spec fn provide_settled(
    s: Store,
    who: AccountId,
    asset1: AssetId,
    asset2: AssetId,
    amount1: Balance,
    amount2: Balance,
    share: Balance,
) -> Store {
    s.with_total_token1(asset1, ((s.total_token1)(asset1) + amount1) as Balance)
        .with_total_token2(asset2, ((s.total_token2)(asset2) + amount2) as Balance)
        .with_total_shares((s.total_shares + share) as Balance)
        .with_shares(who, ((s.shares)(who) + share) as Balance)
}

/// The inputs on which settling a provision computes without overflow.
pub open spec fn provide_settle_defined(
    s: Store,
    who: AccountId,
    asset1: AssetId,
    asset2: AssetId,
    amount1: Balance,
    amount2: Balance,
    share: Balance,
) -> bool {
    &&& (s.total_token1)(asset1) + amount1 <= u128::MAX
    &&& (s.total_token2)(asset2) + amount2 <= u128::MAX
    &&& s.total_shares + share <= u128::MAX
    &&& (s.shares)(who) + share <= u128::MAX
}

/// Adds `who` to a sorted list of providers, where it is not there yet;
/// says whether it was added.
fn add_provider(v: &mut Vec<AccountId>, who: AccountId) -> (added: bool)
    requires
        strictly_increasing(old(v)@),
    ensures
        strictly_increasing(final(v)@),
        final(v)@.to_set() == old(v)@.to_set().insert(who),
        added == !old(v)@.contains(who),
        !added ==> final(v)@ == old(v)@,
{
    let mut lo: usize = 0;
    let mut hi: usize = v.len();
    while lo < hi
        invariant
            lo <= hi <= v@.len(),
            v@ == old(v)@,
            strictly_increasing(v@),
            forall|i: int| 0 <= i < lo ==> v@[i] < who,
            forall|i: int| hi <= i < v@.len() ==> v@[i] > who,
        decreases hi - lo,
    {
        let mid = lo + (hi - lo) / 2;
        let x = v[mid];
        if x == who {
            assert(v@[mid as int] == who);
            return false;
        } else if x < who {
            lo = mid + 1;
        } else {
            hi = mid;
        }
    }
    let ghost before = v@;
    assert(!before.contains(who)) by {
        if before.contains(who) {
            let k = choose|k: int| 0 <= k < before.len() && before[k] == who;
            assert(before[k] == who);
        }
    }
    v.insert(lo, who);
    assert(v@.to_set() =~= before.to_set().insert(who)) by {
        assert forall|x: AccountId| v@.contains(x) <==> (before.contains(x) || x == who) by {
            if v@.contains(x) {
                let k = choose|k: int| 0 <= k < v@.len() && v@[k] == x;
                if k < lo {
                    assert(before[k] == x);
                } else if k > lo {
                    assert(before[k - 1] == x);
                }
            }
            if before.contains(x) {
                let k = choose|k: int| 0 <= k < before.len() && before[k] == x;
                if k < lo {
                    assert(v@[k] == x);
                } else {
                    assert(v@[k + 1] == x);
                }
            }
            if x == who {
                assert(v@[lo as int] == who);
            }
        }
    }
    true
}

/// What a provider holding `share` of `total_shares` shares receives of a
/// fee of `fee`: its part of the shares times the fee, rounded down.
pub open spec fn distribution_amount(share: int, total_shares: int, fee: int) -> int {
    share * fee / total_shares
}

/// One provider's part in a fee distribution: the pool, the provider, the
/// pool's two assets, the amount paid of each, and the transfers that pay it
/// (or the error that stops the distribution there).
pub struct DistributionStep {
    pub pool_id: u32,
    pub provider: AccountId,
    pub asset1: AssetId,
    pub asset2: AssetId,
    pub amount: Balance,
    pub transfers: Result<Vec<Transfer>, Error>,
}

/// The abstract value of a distribution step.
pub type StepView = (u32, AccountId, AssetId, AssetId, Balance, Result<Seq<Transfer>, Error>);

impl View for DistributionStep {
    type V = StepView;

    open spec fn view(&self) -> StepView {
        (
            self.pool_id,
            self.provider,
            self.asset1,
            self.asset2,
            self.amount,
            match self.transfers {
                Ok(v) => Ok(v@),
                Err(e) => Err(e),
            },
        )
    }
}

/// The step that pays provider `lp` of pool `p` its part of the fee.
pub open spec fn provider_step(s: Store, p: u32, lp: AccountId) -> StepView {
    let info = (s.pool)(p);
    let amount = distribution_amount((s.shares)(lp) as int, s.total_shares as int, s.fees as int) as Balance;
    (p, lp, info.0, info.1, amount, pay_transfers(s.account, lp, info, amount, amount))
}

/// The steps for the providers of pool `p`, in the order of the list.
pub open spec fn pool_steps(s: Store, p: u32) -> Seq<StepView> {
    (s.liquidity_provider)(p).map_values(|lp: AccountId| provider_step(s, p, lp))
}

/// The steps for the pools below `n`, pool after pool.
pub open spec fn steps_upto(s: Store, n: nat) -> Seq<StepView>
    decreases n,
{
    if n == 0 {
        Seq::empty()
    } else {
        steps_upto(s, (n - 1) as nat) + pool_steps(s, (n - 1) as u32)
    }
}

/// The steps of a fee distribution: every provider of every pool from 0 to
/// the last pool created.
pub open spec fn distribution_plan(s: Store) -> Seq<StepView> {
    steps_upto(s, s.pool_id as nat + 1)
}

/// The states on which planning a fee distribution computes without overflow
/// or division by zero.
pub open spec fn distribution_defined(s: Store) -> bool {
    &&& s.pool_id < u32::MAX
    &&& forall|p: u32, i: int|
        p <= s.pool_id && 0 <= i < (s.liquidity_provider)(p).len() ==> #[trigger] provider_part_defined(s, p, i)
}

/// Whether the part of the `i`-th provider of pool `p` computes without
/// overflow or division by zero.
pub open spec fn provider_part_defined(s: Store, p: u32, i: int) -> bool {
    &&& s.total_shares != 0
    &&& (s.shares)((s.liquidity_provider)(p)[i]) * s.fees <= u128::MAX
}

/// The storage after a distribution step paid `amount`: the fees collected
/// in `asset1` become those collected in `asset2`, less the amount, after
/// those in `asset1` were reduced by the amount.
pub open spec fn distribution_settled(s: Store, asset1: AssetId, asset2: AssetId, amount: Balance) -> Store {
    let s1 = s.with_total_fee_collected(asset1, ((s.total_fee_collected)(asset1) - amount) as Balance);
    s1.with_total_fee_collected(asset1, ((s1.total_fee_collected)(asset2) - amount) as Balance)
}

/// The inputs on which settling a distribution step does not underflow.
pub open spec fn distribution_settle_defined(s: Store, asset1: AssetId, asset2: AssetId, amount: Balance) -> bool {
    let s1 = s.with_total_fee_collected(asset1, ((s.total_fee_collected)(asset1) - amount) as Balance);
    &&& (s.total_fee_collected)(asset1) >= amount
    &&& (s1.total_fee_collected)(asset2) >= amount
}

impl Module {
    /// Sets the fee charged on swaps, in thousandths of the amount swapped;
    /// a request of 1000 or more sets it to zero.
    pub fn SetFees(&mut self, _fees: Balance) -> (r: Result<(), Error>)
        ensures
            r == Ok::<(), Error>(()),
            final(self)@ == old(self)@.with_fees(stored_fee(_fees)),
    {
        let val = Self::u128_to_balance_option(1000);
        let zero = Self::u128_to_balance_option(0);
        if _fees >= val {
            self.put_fees(zero);
        } else {
            self.put_fees(_fees);
        }
        Ok(())
    }

    /// Creates a pool for the pair `(Asset1, Asset2)`, which `who` must own
    /// in the assets registry (`details1` and `details2` are the registry's
    /// records of the two assets). The pool gets the next id; a pair that
    /// already has a pool is refused. The amounts and the fee are not used.
    pub fn CreatePool(
        &mut self,
        who: AccountId,
        _amountToken1: Balance,
        _amountToken2: Balance,
        Asset1: AssetId,
        Asset2: AssetId,
        _IsToken1Native: bool,
        _IsToken2Native: bool,
        _fees: Balance,
        details1: Option<AssetDetails<Balance, AccountId, Balance>>,
        details2: Option<AssetDetails<Balance, AccountId, Balance>>,
    ) -> (r: Result<Event, Error>)
        requires
            create_pool_defined(old(self)@, Asset1, Asset2, details1, details2),
        ensures
            r == spec_create_pool(old(self)@, who, Asset1, Asset2, details1, details2),
            r is Ok ==> final(self)@ == old(self)@.with_pool_id((old(self)@.pool_id + 1) as u32).with_pool(
                (old(self)@.pool_id + 1) as u32,
                (Asset1, Asset2, _IsToken1Native, _IsToken2Native),
            ).with_pool_pairs(old(self)@.pool_pairs.push((Asset1, Asset2))),
            r is Err ==> final(self)@ == old(self)@,
    {
        let pairs = self.poolpairs();
        let asset_pair = (Asset1, Asset2);
        // checking if the pair is present or not
        let mut i: usize = 0;
        while i < pairs.len()
            invariant
                i <= pairs@.len(),
                pairs@ == self@.pool_pairs,
                forall|j: int| 0 <= j < i ==> pairs@[j] != (Asset1, Asset2),
            decreases pairs@.len() - i,
        {
            let (x1, x2) = pairs[i];
            assert(pairs@[i as int] == (x1, x2));
            if x1 == Asset1 && x2 == Asset2 {
                return Err(Error::PoolPairAlreadyExists);
            }
            i = i + 1;
        }
        assert(!self@.pool_pairs.contains(asset_pair));
        let id: u32 = match self.pool_id().checked_add(1) {
            Some(v) => v,
            None => {
                assert(false);
                0
            },
        };
        // making sure the caller owns both assets
        let value1 = match details1 {
            Some(d) => d,
            None => {
                assert(false);
                return Err(Error::AssetNotExists);
            },
        };
        let value2 = match details2 {
            Some(d) => d,
            None => {
                assert(false);
                return Err(Error::AssetNotExists);
            },
        };
        if value1.owner != who {
            return Err(Error::AssetNotExists);
        }
        if value2.owner != who {
            return Err(Error::AssetNotExists);
        }
        // making sure the new id is unique
        if self.pool_id() == id {
            return Err(Error::PoolIdAlreadyExists);
        }
        self.put_pool_id(id);
        self.insert_pool(id, (Asset1, Asset2, _IsToken1Native, _IsToken2Native));
        self.push_pool_pair(asset_pair);
        Ok(Event::PoolCreated(who, Asset1, Asset2))
    }

    /// Withdraws `_share` of `who`'s shares from pool `pool_Id`: retires the
    /// shares, takes the proportional amounts out of the reserves and books
    /// them to `who`, then returns the transfers that pay them out of the
    /// market maker's account. A pool with two native assets is refused only
    /// after the booking, which stays.
    pub fn withdraw(&mut self, who: AccountId, pool_Id: u32, _share: Balance) -> (r: Result<Payout, Error>)
        requires
            withdraw_defined(old(self)@, who, pool_Id, _share),
        ensures
            match withdraw_decision(old(self)@, who, pool_Id, _share) {
                Err(e) => r == Err::<Payout, Error>(e) && final(self)@ == old(self)@,
                Ok((amount1, amount2)) => {
                    &&& final(self)@ == withdraw_booked(old(self)@, who, pool_Id, _share, amount1, amount2)
                    &&& match pay_transfers(
                        old(self)@.account,
                        who,
                        (old(self)@.pool)(pool_Id),
                        amount1,
                        amount2,
                    ) {
                        Err(e) => r == Err::<Payout, Error>(e),
                        Ok(ts) => r matches Ok(p) && p.transfers@ == ts && p.event == Event::AssetsDistributed(
                            asset1_of(old(self)@, pool_Id),
                            asset2_of(old(self)@, pool_Id),
                        ),
                    }
                },
            },
    {
        self.validAmountCheckShares(&who, _share)?;
        let (amount_token1, amount_token2) = self.getWithdrawEstimate(&who, pool_Id, _share)?;
        let ghost s0 = self@;
        proof {
            crate::arith::lemma_mul_div_le(_share as int, reserve1(s0, pool_Id) as int, s0.total_shares as int);
            crate::arith::lemma_mul_div_le(_share as int, reserve2(s0, pool_Id) as int, s0.total_shares as int);
        }
        // updating the share of the user
        let new_shares = self.shares(who) - _share;
        self.insert_shares(who, new_shares);
        // updating the shares of the pool
        let new_total_share = self.total_shares() - _share;
        self.put_total_shares(new_total_share);
        let info = self.pool(pool_Id);
        let (asset1, asset2, _native1, _native2) = info;
        // updating the amount of assets locked in the pool
        let new_total_token1 = self.total_token1(asset1) - amount_token1;
        let new_total_token2 = self.total_token2(asset2) - amount_token2;
        self.insert_total_token1(asset1, new_total_token1);
        self.insert_total_token2(asset2, new_total_token2);
        // asset balances booked to the user
        let new_token1_balance = self.token1_balance(who, asset1) + amount_token1;
        let new_token2_balance = self.token2_balance(who, asset2) + amount_token2;
        self.insert_token1_balance(who, asset1, new_token1_balance);
        self.insert_token2_balance(who, asset2, new_token2_balance);
        proof {
            assert(self@ =~= withdraw_booked(s0, who, pool_Id, _share, amount_token1, amount_token2));
        }
        let account = self.account_id();
        let transfers = make_pay_transfers(account, who, info, amount_token1, amount_token2)?;
        Ok(Payout { transfers, event: Event::AssetsDistributed(asset1, asset2) })
    }
    /// Swaps `amountToken1` of the first asset of pool `pool_Id` for its
    /// second asset at the pool's price, for at least `minToken2`: books the
    /// payment and the payout to `who`, then returns the transfers. A pool
    /// with two native assets is refused only after the booking, which stays.
    pub fn swapToken1GivenToken1(&mut self, who: AccountId, pool_Id: u32, amountToken1: Balance, minToken2: Balance) -> (r:
        Result<SwapPending, Error>)
        requires
            swap1_defined(old(self)@, who, pool_Id, amountToken1, minToken2),
        ensures
            match swap1_decision(old(self)@, who, pool_Id, amountToken1, minToken2) {
                Err(e) => r == Err::<SwapPending, Error>(e) && final(self)@ == old(self)@,
                Ok((out, fee)) => {
                    &&& final(self)@ == trade_booked(old(self)@, who, pool_Id, amountToken1, out)
                    &&& match trade_transfers(
                        old(self)@.account,
                        who,
                        (old(self)@.pool)(pool_Id),
                        amountToken1,
                        out,
                    ) {
                        Err(e) => r == Err::<SwapPending, Error>(e),
                        Ok(ts) => r matches Ok(p) && p.transfers@ == ts && p.asset1 == asset1_of(
                            old(self)@,
                            pool_Id,
                        ) && p.asset2 == asset2_of(old(self)@, pool_Id) && p.amount_token1 == amountToken1
                            && p.amount_token2 == out && p.fee_charged == fee,
                    }
                },
            },
    {
        self.validAmountCheckToken1Balance(&who, amountToken1, pool_Id)?;
        let (amount_token2, fee_charged) = self.getSwapToken1EstimateGivenToken1(pool_Id, amountToken1)?;
        if !(amount_token2 >= minToken2) {
            return Err(Error::SlippageExceeded);
        }
        let info = self.pool(pool_Id);
        let (asset1, asset2, _native1, _native2) = info;
        let ghost s0 = self@;
        let total_token1_balance = self.token1_balance(who, asset1) - amountToken1;
        self.insert_token1_balance(who, asset1, total_token1_balance);
        let total_token2_balance = self.token2_balance(who, asset2) + amount_token2;
        self.insert_token2_balance(who, asset2, total_token2_balance);
        proof {
            assert(self@ =~= trade_booked(s0, who, pool_Id, amountToken1, amount_token2));
        }
        let account = self.account_id();
        let transfers = make_trade_transfers(account, who, info, amountToken1, amount_token2)?;
        Ok(SwapPending {
            asset1,
            asset2,
            amount_token1: amountToken1,
            amount_token2,
            fee_charged,
            transfers,
        })
    }

    /// Books a swap whose transfers went through: the first reserve rises by
    /// what was paid, the second falls by what was received, the fee is
    /// added to what was collected; returns the event to deposit.
    fn settle_swap(&mut self, p: &SwapPending)
        requires
            swap_settle_defined(old(self)@, p.asset1, p.asset2, p.amount_token1, p.amount_token2, p.fee_charged),
        ensures
            final(self)@ == swap_settled(old(self)@, p.asset1, p.asset2, p.amount_token1, p.amount_token2, p.fee_charged),
    {
        let total_token1 = self.total_token1(p.asset1) + p.amount_token1;
        let total_token2 = self.total_token2(p.asset2) - p.amount_token2;
        self.insert_total_token1(p.asset1, total_token1);
        self.insert_total_token2(p.asset2, total_token2);
        let fee_collected = self.feeCollected(p.asset1) + p.fee_charged;
        self.insert_total_fee_collected(p.asset1, fee_collected);
    }

    /// The second part of `swapToken1GivenToken1`, once its transfers went
    /// through: updates the reserves and the fees collected, and returns the
    /// event to deposit.
    pub fn swapToken1GivenToken1_settle(&mut self, p: &SwapPending) -> (e: Event)
        requires
            swap_settle_defined(old(self)@, p.asset1, p.asset2, p.amount_token1, p.amount_token2, p.fee_charged),
        ensures
            final(self)@ == swap_settled(old(self)@, p.asset1, p.asset2, p.amount_token1, p.amount_token2, p.fee_charged),
            e == Event::SwapedToken1GivenToken1(p.amount_token1, p.amount_token2),
    {
        self.settle_swap(p);
        Event::SwapedToken1GivenToken1(p.amount_token1, p.amount_token2)
    }

    /// Swaps the first asset of pool `pool_Id` for `amountToken2` of its
    /// second asset at the pool's price, paying at most `_maxToken1`: books
    /// the payment and the payout to `who`, then returns the transfers. A
    /// pool with two native assets is refused only after the booking, which
    /// stays.
    pub fn swapToken1GivenToken2(&mut self, who: AccountId, pool_Id: u32, _maxToken1: Balance, amountToken2: Balance) -> (r:
        Result<SwapPending, Error>)
        requires
            swap2_defined(old(self)@, who, pool_Id, _maxToken1, amountToken2),
        ensures
            match swap2_decision(old(self)@, who, pool_Id, _maxToken1, amountToken2) {
                Err(e) => r == Err::<SwapPending, Error>(e) && final(self)@ == old(self)@,
                Ok((input, fee)) => {
                    &&& final(self)@ == trade_booked(old(self)@, who, pool_Id, input, amountToken2)
                    &&& match trade_transfers(
                        old(self)@.account,
                        who,
                        (old(self)@.pool)(pool_Id),
                        input,
                        amountToken2,
                    ) {
                        Err(e) => r == Err::<SwapPending, Error>(e),
                        Ok(ts) => r matches Ok(p) && p.transfers@ == ts && p.asset1 == asset1_of(
                            old(self)@,
                            pool_Id,
                        ) && p.asset2 == asset2_of(old(self)@, pool_Id) && p.amount_token1 == input
                            && p.amount_token2 == amountToken2 && p.fee_charged == fee,
                    }
                },
            },
    {
        let (amount_token1, fee_charged) = self.getSwapToken1EstimateGivenToken2(pool_Id, amountToken2)?;
        if !(amount_token1 <= _maxToken1) {
            return Err(Error::SlippageExceeded);
        }
        let info = self.pool(pool_Id);
        let (asset1, asset2, _native1, _native2) = info;
        self.validAmountCheckToken1Balance(&who, amount_token1, pool_Id)?;
        let ghost s0 = self@;
        let total_token1_balance = self.token1_balance(who, asset1);
        self.insert_token1_balance(who, asset1, total_token1_balance - amount_token1);
        let total_token2_balance = self.token2_balance(who, asset2);
        self.insert_token2_balance(who, asset2, total_token2_balance + amountToken2);
        proof {
            assert(self@ =~= trade_booked(s0, who, pool_Id, amount_token1, amountToken2));
        }
        let account = self.account_id();
        let transfers = make_trade_transfers(account, who, info, amount_token1, amountToken2)?;
        Ok(SwapPending {
            asset1,
            asset2,
            amount_token1,
            amount_token2: amountToken2,
            fee_charged,
            transfers,
        })
    }

    /// The second part of `swapToken1GivenToken2`, once its transfers went
    /// through: updates the reserves and the fees collected, and returns the
    /// event to deposit.
    pub fn swapToken1GivenToken2_settle(&mut self, p: &SwapPending) -> (e: Event)
        requires
            swap_settle_defined(old(self)@, p.asset1, p.asset2, p.amount_token1, p.amount_token2, p.fee_charged),
        ensures
            final(self)@ == swap_settled(old(self)@, p.asset1, p.asset2, p.amount_token1, p.amount_token2, p.fee_charged),
            e == Event::SwapedToken1GivenToken2(p.amount_token1, p.amount_token2),
    {
        self.settle_swap(p);
        Event::SwapedToken1GivenToken2(p.amount_token1, p.amount_token2)
    }
    /// Provides `_amountToken1` and `_amountToken2` to pool `pool_Id` on
    /// behalf of `who`: decides the shares to mint, takes the amounts off the
    /// balances booked for `who`, then returns the transfers into the market
    /// maker's account. The balance checks must pass (a failed check aborts
    /// the call). A pool with two native assets is refused only after the
    /// booking, which stays.
    pub fn provide(&mut self, who: AccountId, _amountToken1: Balance, _amountToken2: Balance, pool_Id: u32) -> (r:
        Result<ProvidePending, Error>)
        requires
            provide_defined(old(self)@, who, _amountToken1, _amountToken2, pool_Id),
        ensures
            match provide_decision(old(self)@, pool_Id, _amountToken1, _amountToken2) {
                Err(e) => r == Err::<ProvidePending, Error>(e) && final(self)@ == old(self)@,
                Ok(share) => {
                    &&& final(self)@ == provide_booked(old(self)@, who, pool_Id, _amountToken1, _amountToken2)
                    &&& match pay_transfers(
                        who,
                        old(self)@.account,
                        (old(self)@.pool)(pool_Id),
                        _amountToken1,
                        _amountToken2,
                    ) {
                        Err(e) => r == Err::<ProvidePending, Error>(e),
                        Ok(ts) => r matches Ok(p) && p.transfers@ == ts && p.pool_id == pool_Id && p.asset1
                            == asset1_of(old(self)@, pool_Id) && p.asset2 == asset2_of(old(self)@, pool_Id)
                            && p.amount_token1 == _amountToken1 && p.amount_token2 == _amountToken2
                            && p.share == share,
                    }
                },
            },
    {
        let check1 = self.validAmountCheckToken1Balance(&who, _amountToken1, pool_Id);
        let check2 = self.validAmountCheckToken2Balance(&who, _amountToken2, pool_Id);
        assert(check1 is Ok && check2 is Ok);
        let info = self.pool(pool_Id);
        let (asset_id1, asset_id2, _native1, _native2) = info;
        let share: Balance;
        if self.total_shares() == Self::u128_to_balance_option(0) {
            // the first provision mints a fixed number of shares
            share = Self::u128_to_balance_option(100);
        } else {
            // both amounts must be worth the same part of the pool
            let share1 = self.total_shares() * _amountToken1 / self.total_token1(asset_id1);
            let share2 = self.total_shares() * _amountToken2 / self.total_token2(asset_id2);
            if share1 != share2 {
                return Err(Error::NonEquivalentValue);
            }
            share = share1;
        }
        if share == Self::u128_to_balance_option(0) {
            return Err(Error::ThresholdNotReached);
        }
        let ghost s0 = self@;
        // the amounts leave the balances booked for the provider
        let new_token1_balance = self.token1_balance(who, asset_id1) - _amountToken1;
        let new_token2_balance = self.token2_balance(who, asset_id2) - _amountToken2;
        self.insert_token1_balance(who, asset_id1, new_token1_balance);
        self.insert_token2_balance(who, asset_id2, new_token2_balance);
        proof {
            assert(self@ =~= provide_booked(s0, who, pool_Id, _amountToken1, _amountToken2));
        }
        let account = self.account_id();
        let transfers = make_pay_transfers(who, account, info, _amountToken1, _amountToken2)?;
        Ok(ProvidePending {
            pool_id: pool_Id,
            asset1: asset_id1,
            asset2: asset_id2,
            amount_token1: _amountToken1,
            amount_token2: _amountToken2,
            share,
            transfers,
        })
    }

    /// The second part of `provide`, once its transfers went through: adds
    /// the amounts to the reserves, mints the shares to the provider, and
    /// adds the provider to the pool's providers; returns the events to
    /// deposit.
    pub fn provide_settle(&mut self, who: AccountId, p: &ProvidePending) -> (events: Vec<Event>)
        requires
            provide_settle_defined(
                old(self)@,
                who,
                p.asset1,
                p.asset2,
                p.amount_token1,
                p.amount_token2,
                p.share,
            ),
        ensures
            final(self)@ == provide_settled(
                old(self)@,
                who,
                p.asset1,
                p.asset2,
                p.amount_token1,
                p.amount_token2,
                p.share,
            ).with_liquidity_provider(p.pool_id, (final(self)@.liquidity_provider)(p.pool_id)),
            strictly_increasing((final(self)@.liquidity_provider)(p.pool_id)),
            (final(self)@.liquidity_provider)(p.pool_id).to_set() == (old(
                self,
            )@.liquidity_provider)(p.pool_id).to_set().insert(who),
            events@ == if (old(self)@.liquidity_provider)(p.pool_id).contains(who) {
                seq![Event::AssetsDistributed(p.asset1, p.asset2), Event::ShareDistributed(p.share)]
            } else {
                seq![
                    Event::AssetsDistributed(p.asset1, p.asset2),
                    Event::ShareDistributed(p.share),
                    Event::LiquidityProviderAdressAdded(who),
                ]
            },
    {
        let ghost s0 = self@;
        let mut events: Vec<Event> = Vec::new();
        events.push(Event::AssetsDistributed(p.asset1, p.asset2));
        // the provided amounts join the reserves
        let new_total_token1 = self.total_token1(p.asset1) + p.amount_token1;
        let new_total_token2 = self.total_token2(p.asset2) + p.amount_token2;
        self.insert_total_token1(p.asset1, new_total_token1);
        self.insert_total_token2(p.asset2, new_total_token2);
        // minting the shares
        let new_shares = self.total_shares() + p.share;
        self.put_total_shares(new_shares);
        let new_current_shares = self.shares(who) + p.share;
        self.insert_shares(who, new_current_shares);
        events.push(Event::ShareDistributed(p.share));
        let ghost s1 = self@;
        assert(s1 =~= provide_settled(s0, who, p.asset1, p.asset2, p.amount_token1, p.amount_token2, p.share));
        // adding the provider to the pool's providers
        let mut members = self.liquidity_provider(p.pool_id);
        let added = add_provider(&mut members, who);
        if added {
            self.insert_liquidity_provider(p.pool_id, members);
            events.push(Event::LiquidityProviderAdressAdded(who));
        } else {
            assert(s1.liquidity_provider == s1.with_liquidity_provider(p.pool_id, (s1.liquidity_provider)(p.pool_id)).liquidity_provider);
        }
        assert(self@ =~= s1.with_liquidity_provider(p.pool_id, (self@.liquidity_provider)(p.pool_id)));
        events
    }
    /// Plans the distribution of the fee to the providers of every pool: for
    /// each provider, in pool order and list order, the amount it receives
    /// and the transfers that pay it. The caller carries out the steps in
    /// order, stops at the first error, and settles each step once its
    /// transfers went through.
    pub fn distributeShareFee(&self) -> (plan: Vec<DistributionStep>)
        requires
            distribution_defined(self@),
        ensures
            plan@.len() == distribution_plan(self@).len(),
            forall|i: int| 0 <= i < plan@.len() ==> plan@[i]@ == distribution_plan(self@)[i],
    {
        let total_pool_ids = self.pool_id() + 1;
        let fee = self.fees();
        let total_share = self.total_shares();
        let account = self.account_id();
        let mut plan: Vec<DistributionStep> = Vec::new();
        let mut pool: u32 = 0;
        while pool < total_pool_ids
            invariant
                pool <= total_pool_ids,
                total_pool_ids == self@.pool_id + 1,
                fee == self@.fees,
                total_share == self@.total_shares,
                account == self@.account,
                distribution_defined(self@),
                plan@.len() == steps_upto(self@, pool as nat).len(),
                forall|i: int| 0 <= i < plan@.len() ==> plan@[i]@ == steps_upto(self@, pool as nat)[i],
            decreases total_pool_ids - pool,
        {
            let providers = self.liquidity_provider(pool);
            let info = self.pool(pool);
            let (asset1, asset2, _native1, _native2) = info;
            let ghost before = plan@;
            let mut j: usize = 0;
            while j < providers.len()
                invariant
                    j <= providers@.len(),
                    providers@ == (self@.liquidity_provider)(pool),
                    info == (self@.pool)(pool),
                    asset1 == info.0,
                    asset2 == info.1,
                    pool < total_pool_ids,
                    total_pool_ids == self@.pool_id + 1,
                    fee == self@.fees,
                    total_share == self@.total_shares,
                    account == self@.account,
                    distribution_defined(self@),
                    before.len() == steps_upto(self@, pool as nat).len(),
                    forall|i: int| 0 <= i < before.len() ==> before[i]@ == steps_upto(self@, pool as nat)[i],
                    plan@.len() == before.len() + j,
                    forall|i: int| 0 <= i < before.len() ==> plan@[i] == before[i],
                    forall|i: int| 0 <= i < j ==> plan@[before.len() + i]@ == pool_steps(self@, pool)[i],
                decreases providers@.len() - j,
            {
                let lp_provider = providers[j];
                assert(0 <= j < (self@.liquidity_provider)(pool).len());
                let lp_provider_share = self.shares(lp_provider);
                assert(provider_part_defined(self@, pool, j as int));
                // the provider's part of the shares, times the fee
                let distribution_amount = lp_provider_share * fee / total_share;
                let transfers = make_pay_transfers(account, lp_provider, info, distribution_amount, distribution_amount);
                let step = DistributionStep {
                    pool_id: pool,
                    provider: lp_provider,
                    asset1,
                    asset2,
                    amount: distribution_amount,
                    transfers,
                };
                assert(step@ == provider_step(self@, pool, lp_provider));
                plan.push(step);
                j = j + 1;
            }
            proof {
                let next = steps_upto(self@, (pool + 1) as nat);
                assert(next == steps_upto(self@, pool as nat) + pool_steps(self@, pool));
                assert forall|i: int| 0 <= i < plan@.len() implies plan@[i]@ == next[i] by {
                    if i < before.len() {
                        assert(plan@[i] == before[i]);
                    } else {
                        assert(plan@[before.len() + (i - before.len())]@ == pool_steps(self@, pool)[i - before.len()]);
                    }
                }
            }
            pool = pool + 1;
        }
        plan
    }

    /// Settles a distribution step whose transfers went through: reduces the
    /// fees collected in the step's first asset by the amount, then sets them
    /// to the fees collected in its second asset less the amount.
    pub fn distributeShareFee_settle(&mut self, step: &DistributionStep)
        requires
            distribution_settle_defined(old(self)@, step.asset1, step.asset2, step.amount),
        ensures
            final(self)@ == distribution_settled(old(self)@, step.asset1, step.asset2, step.amount),
    {
        let new_fee = self.feeCollected(step.asset1) - step.amount;
        self.insert_total_fee_collected(step.asset1, new_fee);
        let new_fee = self.feeCollected(step.asset2) - step.amount;
        self.insert_total_fee_collected(step.asset1, new_fee);
    }
}

} // verus!
