//! The market maker's storage: the exec maps that hold it, their abstract
//! view, and the reads and writes that every other module goes through.
use vstd::prelude::*;
use std::collections::BTreeMap;
use crate::types::{AccountId, AssetId, Balance, PoolInfo};
use crate::encoding::{pallet_account, pallet_account_spec};

verus! {

broadcast use vstd::laws_cmp::group_laws_cmp;

/// Whether the accounts of a sequence strictly increase.
pub open spec fn strictly_increasing(s: Seq<AccountId>) -> bool {
    forall|i: int, j: int| 0 <= i < j < s.len() ==> s[i] < s[j]
}

/// Whether no pair occurs twice in a sequence.
pub open spec fn no_duplicates(s: Seq<(AssetId, AssetId)>) -> bool {
    forall|i: int, j: int| 0 <= i < j < s.len() ==> s[i] != s[j]
}

/// The value a map holds for a key, where an absent key reads as zero.
pub open spec fn value_or_zero<K>(m: Map<K, Balance>, k: K) -> Balance {
    if m.contains_key(k) {
        m[k]
    } else {
        0
    }
}

/// The abstract state of the market maker. Every map is total: a key that
/// was never written reads as the type's default (zero, empty, or
/// `(0, 0, false, false)`), as the chain's storage does.
#[verifier::ext_equal]
pub struct Store {
    /// The account the market maker keeps its funds in.
    pub account: AccountId,
    /// The shares issued, over all pools.
    pub total_shares: Balance,
    /// The amount of each first-position asset locked in pools.
    pub total_token1: spec_fn(AssetId) -> Balance,
    /// The amount of each second-position asset locked in pools.
    pub total_token2: spec_fn(AssetId) -> Balance,
    /// The swap fees collected per asset.
    pub total_fee_collected: spec_fn(AssetId) -> Balance,
    /// The fee charged on a swap, in thousandths of the amount.
    pub fees: Balance,
    /// The shares each provider holds.
    pub shares: spec_fn(AccountId) -> Balance,
    /// The first-position balance the market maker books for each account.
    pub token1_balance: spec_fn(AccountId, AssetId) -> Balance,
    /// The second-position balance the market maker books for each account.
    pub token2_balance: spec_fn(AccountId, AssetId) -> Balance,
    /// The liquidity providers of each pool.
    pub liquidity_provider: spec_fn(u32) -> Seq<AccountId>,
    /// The asset pairs that have a pool.
    pub pool_pairs: Seq<(AssetId, AssetId)>,
    /// The id of the last pool created.
    pub pool_id: u32,
    /// Each pool's assets and their nativeness.
    pub pool: spec_fn(u32) -> PoolInfo,
}

impl Store {
    /// The state of a chain on which nothing has happened yet.
    pub open spec fn genesis(account: AccountId) -> Store {
        Store {
            account,
            total_shares: 0,
            total_token1: |a: AssetId| 0u128,
            total_token2: |a: AssetId| 0u128,
            total_fee_collected: |a: AssetId| 0u128,
            fees: 0,
            shares: |w: AccountId| 0u128,
            token1_balance: |w: AccountId, a: AssetId| 0u128,
            token2_balance: |w: AccountId, a: AssetId| 0u128,
            liquidity_provider: |p: u32| Seq::<AccountId>::empty(),
            pool_pairs: Seq::empty(),
            pool_id: 0,
            pool: |p: u32| (0u32, 0u32, false, false),
        }
    }

    /// The store with the shares issued set to `v`.
    pub open spec fn with_total_shares(self, v: Balance) -> Store {
        Store { total_shares: v, ..self }
    }

    /// The store with the first-position reserve of asset `a` set to `v`.
    pub open spec fn with_total_token1(self, a: AssetId, v: Balance) -> Store {
        Store { total_token1: |x: AssetId| if x == a { v } else { (self.total_token1)(x) }, ..self }
    }

    /// The store with the second-position reserve of asset `a` set to `v`.
    pub open spec fn with_total_token2(self, a: AssetId, v: Balance) -> Store {
        Store { total_token2: |x: AssetId| if x == a { v } else { (self.total_token2)(x) }, ..self }
    }

    /// The store with the fees collected in asset `a` set to `v`.
    pub open spec fn with_total_fee_collected(self, a: AssetId, v: Balance) -> Store {
        Store {
            total_fee_collected: |x: AssetId|
                if x == a {
                    v
                } else {
                    (self.total_fee_collected)(x)
                },
            ..self
        }
    }

    /// The store with the swap fee set to `v`.
    pub open spec fn with_fees(self, v: Balance) -> Store {
        Store { fees: v, ..self }
    }

    /// The store with the shares of `w` set to `v`.
    pub open spec fn with_shares(self, w: AccountId, v: Balance) -> Store {
        Store { shares: |x: AccountId| if x == w { v } else { (self.shares)(x) }, ..self }
    }

    /// The store with the first-position balance of `w` in asset `a` set to `v`.
    pub open spec fn with_token1_balance(self, w: AccountId, a: AssetId, v: Balance) -> Store {
        Store {
            token1_balance: |x: AccountId, y: AssetId|
                if x == w && y == a {
                    v
                } else {
                    (self.token1_balance)(x, y)
                },
            ..self
        }
    }

    /// The store with the second-position balance of `w` in asset `a` set to `v`.
    pub open spec fn with_token2_balance(self, w: AccountId, a: AssetId, v: Balance) -> Store {
        Store {
            token2_balance: |x: AccountId, y: AssetId|
                if x == w && y == a {
                    v
                } else {
                    (self.token2_balance)(x, y)
                },
            ..self
        }
    }

    /// The store with the providers of pool `p` set to `v`.
    pub open spec fn with_liquidity_provider(self, p: u32, v: Seq<AccountId>) -> Store {
        Store {
            liquidity_provider: |x: u32| if x == p { v } else { (self.liquidity_provider)(x) },
            ..self
        }
    }

    /// The store with the pairs that have a pool set to `v`.
    pub open spec fn with_pool_pairs(self, v: Seq<(AssetId, AssetId)>) -> Store {
        Store { pool_pairs: v, ..self }
    }

    /// The store with the id of the last pool created set to `v`.
    pub open spec fn with_pool_id(self, v: u32) -> Store {
        Store { pool_id: v, ..self }
    }

    /// The store with the assets of pool `p` set to `v`.
    pub open spec fn with_pool(self, p: u32, v: PoolInfo) -> Store {
        Store { pool: |x: u32| if x == p { v } else { (self.pool)(x) }, ..self }
    }
}

/// The market maker: its configuration and its storage.
pub struct Module {
    pallet_id: [u8; 8],
    total_shares: Balance,
    total_token1: BTreeMap<AssetId, Balance>,
    total_token2: BTreeMap<AssetId, Balance>,
    total_fee_collected: BTreeMap<AssetId, Balance>,
    fees: Balance,
    shares: BTreeMap<AccountId, Balance>,
    token1_balance: BTreeMap<(AccountId, AssetId), Balance>,
    token2_balance: BTreeMap<(AccountId, AssetId), Balance>,
    liquidity_provider: BTreeMap<u32, Vec<AccountId>>,
    pool_pairs: Vec<(AssetId, AssetId)>,
    pool_id: u32,
    pool: BTreeMap<u32, PoolInfo>,
}

impl View for Module {
    type V = Store;

    closed spec fn view(&self) -> Store {
        Store {
            account: pallet_account_spec(self.pallet_id@) as AccountId,
            total_shares: self.total_shares,
            total_token1: |a: AssetId| value_or_zero(self.total_token1@, a),
            total_token2: |a: AssetId| value_or_zero(self.total_token2@, a),
            total_fee_collected: |a: AssetId| value_or_zero(self.total_fee_collected@, a),
            fees: self.fees,
            shares: |w: AccountId| value_or_zero(self.shares@, w),
            token1_balance: |w: AccountId, a: AssetId| value_or_zero(self.token1_balance@, (w, a)),
            token2_balance: |w: AccountId, a: AssetId| value_or_zero(self.token2_balance@, (w, a)),
            liquidity_provider: |p: u32|
                if self.liquidity_provider@.contains_key(p) {
                    self.liquidity_provider@[p]@
                } else {
                    Seq::<AccountId>::empty()
                },
            pool_pairs: self.pool_pairs@,
            pool_id: self.pool_id,
            pool: |p: u32|
                if self.pool@.contains_key(p) {
                    self.pool@[p]
                } else {
                    (0u32, 0u32, false, false)
                },
        }
    }
}

/// Reads a balance map, where an absent key reads as zero.
fn read_balance<K: Ord>(m: &BTreeMap<K, Balance>, k: &K) -> (v: Balance)
    requires
        vstd::laws_cmp::obeys_cmp::<K>(),
    ensures
        v == value_or_zero(m@, *k),
{
    match m.get(k) {
        Some(v) => *v,
        None => 0,
    }
}

/// Copies a list of accounts.
fn copy_accounts(v: &Vec<AccountId>) -> (r: Vec<AccountId>)
    ensures
        r@ == v@,
{
    let mut r: Vec<AccountId> = Vec::new();
    let mut i: usize = 0;
    while i < v.len()
        invariant
            i <= v@.len(),
            r@ == v@.subrange(0, i as int),
        decreases v@.len() - i,
    {
        r.push(v[i]);
        i = i + 1;
        assert(r@ =~= v@.subrange(0, i as int));
    }
    assert(v@.subrange(0, v@.len() as int) =~= v@);
    r
}

impl Module {
    /// The storage always satisfies its invariant: every provider list is
    /// sorted without repetition, the fee is below 1000, and no asset pair
    /// has two pools.
    #[verifier::type_invariant]
    spec fn inv(self) -> bool {
        &&& forall|p: u32| #[trigger]
            self.liquidity_provider@.contains_key(p) ==> strictly_increasing(self.liquidity_provider@[p]@)
        &&& self.fees < 1000
        &&& no_duplicates(self.pool_pairs@)
    }

    /// A market maker whose funds are kept in the account of `pallet_id`,
    /// with empty storage.
    pub fn new(pallet_id: [u8; 8]) -> (m: Module)
        ensures
            m@ == Store::genesis(pallet_account_spec(pallet_id@) as AccountId),
    {
        let m = Module {
            pallet_id,
            total_shares: 0,
            total_token1: BTreeMap::new(),
            total_token2: BTreeMap::new(),
            total_fee_collected: BTreeMap::new(),
            fees: 0,
            shares: BTreeMap::new(),
            token1_balance: BTreeMap::new(),
            token2_balance: BTreeMap::new(),
            liquidity_provider: BTreeMap::new(),
            pool_pairs: Vec::new(),
            pool_id: 0,
            pool: BTreeMap::new(),
        };
        assert(m@ =~= Store::genesis(pallet_account_spec(pallet_id@) as AccountId));
        m
    }

    /// The account the market maker keeps its funds in.
    pub fn account_id(&self) -> (r: AccountId)
        ensures
            r == self@.account,
    {
        pallet_account(&self.pallet_id)
    }

    /// The shares issued, over all pools.
    pub fn total_shares(&self) -> (r: Balance)
        ensures
            r == self@.total_shares,
    {
        self.total_shares
    }

    /// The amount of the first-position asset `a` locked in pools.
    pub fn total_token1(&self, a: AssetId) -> (r: Balance)
        ensures
            r == (self@.total_token1)(a),
    {
        read_balance(&self.total_token1, &a)
    }

    /// The amount of the second-position asset `a` locked in pools.
    pub fn total_token2(&self, a: AssetId) -> (r: Balance)
        ensures
            r == (self@.total_token2)(a),
    {
        read_balance(&self.total_token2, &a)
    }

    /// The swap fees collected in asset `a`.
    pub fn feeCollected(&self, a: AssetId) -> (r: Balance)
        ensures
            r == (self@.total_fee_collected)(a),
    {
        read_balance(&self.total_fee_collected, &a)
    }

    /// The fee charged on a swap, in thousandths of the amount; below 1000.
    pub fn fees(&self) -> (r: Balance)
        ensures
            r == self@.fees,
            r < 1000,
    {
        proof {
            use_type_invariant(self);
        }
        self.fees
    }

    /// The shares that `who` holds.
    pub fn shares(&self, who: AccountId) -> (r: Balance)
        ensures
            r == (self@.shares)(who),
    {
        read_balance(&self.shares, &who)
    }

    /// The first-position balance booked for `who` in asset `a`.
    pub fn token1_balance(&self, who: AccountId, a: AssetId) -> (r: Balance)
        ensures
            r == (self@.token1_balance)(who, a),
    {
        read_balance(&self.token1_balance, &(who, a))
    }

    /// The second-position balance booked for `who` in asset `a`.
    pub fn token2_balance(&self, who: AccountId, a: AssetId) -> (r: Balance)
        ensures
            r == (self@.token2_balance)(who, a),
    {
        read_balance(&self.token2_balance, &(who, a))
    }

    /// The liquidity providers of pool `p`, in increasing order.
    pub fn liquidity_provider(&self, p: u32) -> (r: Vec<AccountId>)
        ensures
            r@ == (self@.liquidity_provider)(p),
            strictly_increasing(r@),
    {
        proof {
            use_type_invariant(self);
        }
        match self.liquidity_provider.get(&p) {
            Some(v) => copy_accounts(v),
            None => Vec::new(),
        }
    }

    /// The asset pairs that have a pool, in the order of creation.
    pub fn poolpairs(&self) -> (r: Vec<(AssetId, AssetId)>)
        ensures
            r@ == self@.pool_pairs,
            no_duplicates(r@),
    {
        proof {
            use_type_invariant(self);
        }
        let mut r: Vec<(AssetId, AssetId)> = Vec::new();
        let mut i: usize = 0;
        while i < self.pool_pairs.len()
            invariant
                i <= self.pool_pairs@.len(),
                r@ == self.pool_pairs@.subrange(0, i as int),
            decreases self.pool_pairs@.len() - i,
        {
            r.push(self.pool_pairs[i]);
            i = i + 1;
            assert(r@ =~= self.pool_pairs@.subrange(0, i as int));
        }
        assert(self.pool_pairs@.subrange(0, self.pool_pairs@.len() as int) =~= self.pool_pairs@);
        r
    }

    /// The id of the last pool created.
    pub fn pool_id(&self) -> (r: u32)
        ensures
            r == self@.pool_id,
    {
        self.pool_id
    }

    /// The assets of pool `p` and whether each is the native currency.
    pub fn pool(&self, p: u32) -> (r: PoolInfo)
        ensures
            r == (self@.pool)(p),
    {
        match self.pool.get(&p) {
            Some(v) => *v,
            None => (0, 0, false, false),
        }
    }

    /// Sets the shares issued over all pools.
    pub fn put_total_shares(&mut self, v: Balance)
        ensures
            final(self)@ == old(self)@.with_total_shares(v),
    {
        proof {
            use_type_invariant(&*self);
        }
        self.total_shares = v;
        assert(self@ =~= old(self)@.with_total_shares(v));
    }

    /// Sets the amount of the first-position asset `a` locked in pools.
    pub fn insert_total_token1(&mut self, a: AssetId, v: Balance)
        ensures
            final(self)@ == old(self)@.with_total_token1(a, v),
    {
        proof {
            use_type_invariant(&*self);
        }
        let mut m = BTreeMap::new();
        std::mem::swap(&mut m, &mut self.total_token1);
        m.insert(a, v);
        self.total_token1 = m;
        assert(self@ =~= old(self)@.with_total_token1(a, v));
    }

    /// Sets the amount of the second-position asset `a` locked in pools.
    pub fn insert_total_token2(&mut self, a: AssetId, v: Balance)
        ensures
            final(self)@ == old(self)@.with_total_token2(a, v),
    {
        proof {
            use_type_invariant(&*self);
        }
        let mut m = BTreeMap::new();
        std::mem::swap(&mut m, &mut self.total_token2);
        m.insert(a, v);
        self.total_token2 = m;
        assert(self@ =~= old(self)@.with_total_token2(a, v));
    }

    /// Sets the swap fees collected in asset `a`.
    pub fn insert_total_fee_collected(&mut self, a: AssetId, v: Balance)
        ensures
            final(self)@ == old(self)@.with_total_fee_collected(a, v),
    {
        proof {
            use_type_invariant(&*self);
        }
        let mut m = BTreeMap::new();
        std::mem::swap(&mut m, &mut self.total_fee_collected);
        m.insert(a, v);
        self.total_fee_collected = m;
        assert(self@ =~= old(self)@.with_total_fee_collected(a, v));
    }

    /// Sets the shares that `who` holds.
    pub fn insert_shares(&mut self, who: AccountId, v: Balance)
        ensures
            final(self)@ == old(self)@.with_shares(who, v),
    {
        proof {
            use_type_invariant(&*self);
        }
        let mut m = BTreeMap::new();
        std::mem::swap(&mut m, &mut self.shares);
        m.insert(who, v);
        self.shares = m;
        assert(self@ =~= old(self)@.with_shares(who, v));
    }

    /// Sets the first-position balance booked for `who` in asset `a`.
    pub fn insert_token1_balance(&mut self, who: AccountId, a: AssetId, v: Balance)
        ensures
            final(self)@ == old(self)@.with_token1_balance(who, a, v),
    {
        proof {
            use_type_invariant(&*self);
        }
        let mut m = BTreeMap::new();
        std::mem::swap(&mut m, &mut self.token1_balance);
        m.insert((who, a), v);
        self.token1_balance = m;
        assert(self@ =~= old(self)@.with_token1_balance(who, a, v));
    }

    /// Sets the second-position balance booked for `who` in asset `a`.
    pub fn insert_token2_balance(&mut self, who: AccountId, a: AssetId, v: Balance)
        ensures
            final(self)@ == old(self)@.with_token2_balance(who, a, v),
    {
        proof {
            use_type_invariant(&*self);
        }
        let mut m = BTreeMap::new();
        std::mem::swap(&mut m, &mut self.token2_balance);
        m.insert((who, a), v);
        self.token2_balance = m;
        assert(self@ =~= old(self)@.with_token2_balance(who, a, v));
    }

    /// Sets the swap fee, in thousandths.
    pub(crate) fn put_fees(&mut self, v: Balance)
        requires
            v < 1000,
        ensures
            final(self)@ == old(self)@.with_fees(v),
    {
        proof {
            use_type_invariant(&*self);
        }
        self.fees = v;
        assert(self@ =~= old(self)@.with_fees(v));
    }

    /// Sets the liquidity providers of pool `p`.
    pub(crate) fn insert_liquidity_provider(&mut self, p: u32, v: Vec<AccountId>)
        requires
            strictly_increasing(v@),
        ensures
            final(self)@ == old(self)@.with_liquidity_provider(p, v@),
    {
        proof {
            use_type_invariant(&*self);
        }
        let ghost vv = v@;
        let mut m = BTreeMap::new();
        std::mem::swap(&mut m, &mut self.liquidity_provider);
        let ghost before = m@;
        m.insert(p, v);
        assert forall|q: u32| #[trigger] m@.contains_key(q) implies strictly_increasing(m@[q]@) by {
            if q != p {
                assert(m@[q] == before[q]);
            }
        }
        self.liquidity_provider = m;
        assert(self@ =~= old(self)@.with_liquidity_provider(p, vv));
    }

    /// Appends an asset pair to the pairs that have a pool.
    pub(crate) fn push_pool_pair(&mut self, pair: (AssetId, AssetId))
        requires
            !old(self)@.pool_pairs.contains(pair),
        ensures
            final(self)@ == old(self)@.with_pool_pairs(old(self)@.pool_pairs.push(pair)),
    {
        proof {
            use_type_invariant(&*self);
        }
        let mut v = Vec::new();
        std::mem::swap(&mut v, &mut self.pool_pairs);
        let ghost before = v@;
        v.push(pair);
        assert forall|a: int, b: int| 0 <= a < b < v@.len() implies v@[a] != v@[b] by {
            if b == v@.len() - 1 {
                assert(before[a] != pair);
            }
        }
        self.pool_pairs = v;
        assert(self@ =~= old(self)@.with_pool_pairs(old(self)@.pool_pairs.push(pair)));
    }

    /// Sets the id of the last pool created.
    pub(crate) fn put_pool_id(&mut self, v: u32)
        ensures
            final(self)@ == old(self)@.with_pool_id(v),
    {
        proof {
            use_type_invariant(&*self);
        }
        self.pool_id = v;
        assert(self@ =~= old(self)@.with_pool_id(v));
    }

    /// Sets the assets of pool `p`.
    pub(crate) fn insert_pool(&mut self, p: u32, v: PoolInfo)
        ensures
            final(self)@ == old(self)@.with_pool(p, v),
    {
        proof {
            use_type_invariant(&*self);
        }
        let mut m = BTreeMap::new();
        std::mem::swap(&mut m, &mut self.pool);
        m.insert(p, v);
        self.pool = m;
        assert(self@ =~= old(self)@.with_pool(p, v));
    }
}

} // verus!
