use stk_amm::dispatch::{DistributionStep, ProvidePending, SwapPending};
use stk_amm::encoding::asset_details_key;
use stk_amm::store::Module;
use stk_amm::types::{AssetDetails, Error, Event, Transfer};

const PALLET_ID: [u8; 8] = *b"py/stkam";
const USER: u64 = 1;

fn details(owner: u64) -> Option<AssetDetails<u128, u64, u128>> {
    Some(AssetDetails {
        owner,
        issuer: owner,
        admin: owner,
        freezer: owner,
        supply: 1000,
        deposit: 0,
        min_balance: 1,
        is_sufficient: true,
        accounts: 1,
        sufficients: 1,
        approvals: 0,
        is_frozen: false,
    })
}

fn pool_account() -> u64 {
    u64::from_le_bytes([b'm', b'o', b'd', b'l', b'p', b'y', b'/', b's'])
}

/// A market maker with pool 1 over assets 1 and 2, and the given balances
/// booked for USER.
fn setup(native1: bool, native2: bool, balance1: u128, balance2: u128) -> Module {
    let mut m = Module::new(PALLET_ID);
    assert!(!m.CreatePool_panics(1, 2, &details(USER), &details(USER)));
    let event = m.CreatePool(USER, 0, 0, 1, 2, native1, native2, 0, details(USER), details(USER));
    assert_eq!(event, Ok(Event::PoolCreated(USER, 1, 2)));
    m.insert_token1_balance(USER, 1, balance1);
    m.insert_token2_balance(USER, 2, balance2);
    m
}

fn provide_all(m: &mut Module, who: u64, amount1: u128, amount2: u128) -> (ProvidePending, Vec<Event>) {
    assert!(!m.provide_panics(who, amount1, amount2, 1));
    let pending = m.provide(who, amount1, amount2, 1).unwrap();
    assert!(!m.provide_settle_panics(who, &pending));
    let events = m.provide_settle(who, &pending);
    (pending, events)
}

fn settle_swap1(m: &mut Module, p: &SwapPending) -> Event {
    assert!(!m.swap_settle_panics(p));
    m.swapToken1GivenToken1_settle(p)
}

#[test]
fn new_module_is_empty() {
    let m = Module::new(PALLET_ID);
    assert_eq!(m.total_shares(), 0);
    assert_eq!(m.fees(), 0);
    assert_eq!(m.pool_id(), 0);
    assert_eq!(m.pool(7), (0, 0, false, false));
    assert_eq!(m.getPoolDetails(7), (0, 0, 0, 0));
    assert_eq!(m.getMyHoldings(3, 7), (0, 0, 0));
    assert!(m.poolpairs().is_empty());
    assert!(m.liquidity_provider(0).is_empty());
}

#[test]
fn account_id_is_derived_from_pallet_id() {
    let m = Module::new(PALLET_ID);
    assert_eq!(m.account_id(), pool_account());
    assert_eq!(m.account_id(), 0x732f_7970_6c64_6f6d);
    let other = Module::new(*b"py/stkan");
    // only the first four bytes of the id reach the account
    assert_eq!(other.account_id(), m.account_id());
}

#[test]
fn asset_details_key_layout() {
    let key = asset_details_key(5);
    assert_eq!(key.len(), 52);
    let prefix: [u8; 32] = [
        0x68, 0x2a, 0x59, 0xd5, 0x1a, 0xb9, 0xe4, 0x8a, 0x8c, 0x8c, 0xc4, 0x18, 0xff, 0x97, 0x08, 0xd2,
        0xd3, 0x43, 0x71, 0xa1, 0x93, 0xa7, 0x51, 0xee, 0xa5, 0x88, 0x3e, 0x95, 0x53, 0x45, 0x7b, 0x2e,
    ];
    assert_eq!(&key[..32], &prefix[..]);
    assert_eq!(&key[48..], &[5, 0, 0, 0][..]);
    assert_ne!(&key[32..48], &[5, 0, 0, 0, 0, 0, 0, 0, 0, 0, 0, 0, 0, 0, 0, 0][..]);
    let other = asset_details_key(6);
    assert_eq!(&other[..32], &prefix[..]);
    assert_ne!(&other[32..48], &key[32..48]);
}

#[test]
fn set_fees_stores_fee_or_zero() {
    let mut m = Module::new(PALLET_ID);
    assert_eq!(m.SetFees(5), Ok(()));
    assert_eq!(m.fees(), 5);
    assert_eq!(m.SetFees(999), Ok(()));
    assert_eq!(m.fees(), 999);
    assert_eq!(m.SetFees(1000), Ok(()));
    assert_eq!(m.fees(), 0);
    assert_eq!(m.SetFees(5000), Ok(()));
    assert_eq!(m.fees(), 0);
}

#[test]
fn create_pool_assigns_next_id_and_refuses_repeats() {
    let mut m = Module::new(PALLET_ID);
    assert_eq!(
        m.CreatePool(USER, 0, 0, 1, 2, false, false, 0, details(USER), details(USER)),
        Ok(Event::PoolCreated(USER, 1, 2))
    );
    assert_eq!(m.pool_id(), 1);
    assert_eq!(m.pool(1), (1, 2, false, false));
    assert_eq!(m.poolpairs(), vec![(1, 2)]);
    assert_eq!(
        m.CreatePool(USER, 0, 0, 1, 2, true, false, 0, None, None),
        Err(Error::PoolPairAlreadyExists)
    );
    assert_eq!(
        m.CreatePool(USER, 0, 0, 2, 1, true, false, 0, details(USER), details(9)),
        Err(Error::AssetNotExists)
    );
    assert_eq!(
        m.CreatePool(USER, 0, 0, 2, 1, true, false, 0, details(9), details(USER)),
        Err(Error::AssetNotExists)
    );
    assert_eq!(m.pool_id(), 1);
    assert_eq!(
        m.CreatePool(USER, 0, 0, 2, 1, true, false, 0, details(USER), details(USER)),
        Ok(Event::PoolCreated(USER, 2, 1))
    );
    assert_eq!(m.pool_id(), 2);
    assert_eq!(m.pool(2), (2, 1, true, false));
    assert_eq!(m.poolpairs(), vec![(1, 2), (2, 1)]);
}

#[test]
fn create_pool_panics_without_record() {
    let m = Module::new(PALLET_ID);
    assert!(m.CreatePool_panics(1, 2, &None, &details(USER)));
    assert!(m.CreatePool_panics(1, 2, &details(USER), &None));
    assert!(!m.CreatePool_panics(1, 2, &details(USER), &details(USER)));
}

#[test]
fn valid_amount_checks() {
    let mut m = setup(false, false, 100, 200);
    m.insert_shares(USER, 7);
    assert_eq!(m.validAmountCheckToken1Balance(&USER, 0, 1), Err(Error::ZeroAmount));
    assert_eq!(m.validAmountCheckToken1Balance(&USER, 101, 1), Err(Error::InsufficientAmount));
    assert_eq!(m.validAmountCheckToken1Balance(&USER, 100, 1), Ok(()));
    assert_eq!(m.validAmountCheckToken2Balance(&USER, 0, 1), Err(Error::ZeroAmount));
    assert_eq!(m.validAmountCheckToken2Balance(&USER, 201, 1), Err(Error::InsufficientAmount));
    assert_eq!(m.validAmountCheckToken2Balance(&USER, 200, 1), Ok(()));
    assert_eq!(m.validAmountCheckShares(&USER, 0), Err(Error::ZeroAmount));
    assert_eq!(m.validAmountCheckShares(&USER, 8), Err(Error::InsufficientAmount));
    assert_eq!(m.validAmountCheckShares(&USER, 7), Ok(()));
}

#[test]
fn empty_pool_has_zero_liquidity() {
    let m = setup(false, false, 100, 200);
    assert_eq!(m.getK(1), 0);
    assert_eq!(m.activePool(1), Err(Error::ZeroLiquidity));
    assert_eq!(m.getWithdrawEstimate(&USER, 1, 1), Err(Error::ZeroLiquidity));
    assert_eq!(m.getSwapToken1EstimateGivenToken1(1, 5), Err(Error::ZeroLiquidity));
    assert_eq!(m.getSwapToken1EstimateGivenToken2(1, 5), Err(Error::ZeroLiquidity));
    assert_eq!(m.getEquivalentToken1Estimate(1, 5), Err(Error::ZeroLiquidity));
    assert_eq!(m.getEquivalentToken2Estimate(1, 5), Err(Error::ZeroLiquidity));
}

#[test]
fn provide_works() {
    let mut m = setup(false, false, 100, 200);
    let (pending, events) = provide_all(&mut m, USER, 10, 20);
    assert_eq!(pending.share, 100);
    assert_eq!(
        pending.transfers,
        vec![
            Transfer::Asset { origin: USER, asset: 1, target: pool_account(), amount: 10 },
            Transfer::Asset { origin: USER, asset: 2, target: pool_account(), amount: 20 },
        ]
    );
    assert_eq!(
        events,
        vec![
            Event::AssetsDistributed(1, 2),
            Event::ShareDistributed(100),
            Event::LiquidityProviderAdressAdded(USER),
        ]
    );
    assert_eq!(m.shares(USER), 100);
    assert_eq!(m.getPoolDetails(1), (10, 20, 100, 0));
    assert_eq!(m.getMyHoldings(USER, 1), (90, 180, 100));
    assert_eq!(m.liquidity_provider(1), vec![USER]);
    assert_eq!(m.getK(1), 200);
    assert_eq!(m.activePool(1), Ok(()));
}

#[test]
fn provide_books_the_amounts_before_the_transfers() {
    let mut m = setup(false, false, 100, 200);
    let pending = m.provide(USER, 10, 20, 1).unwrap();
    assert_eq!(m.getMyHoldings(USER, 1), (90, 180, 0));
    assert_eq!(m.getPoolDetails(1), (0, 0, 0, 0));
    assert_eq!(pending.amount_token1, 10);
    assert_eq!(pending.amount_token2, 20);
}

#[test]
fn provide_second_time_mints_proportional_shares() {
    let mut m = setup(false, false, 100, 200);
    provide_all(&mut m, USER, 10, 20);
    let (pending, events) = provide_all(&mut m, USER, 5, 10);
    assert_eq!(pending.share, 50);
    assert_eq!(events, vec![Event::AssetsDistributed(1, 2), Event::ShareDistributed(50)]);
    assert_eq!(m.getPoolDetails(1), (15, 30, 150, 0));
    assert_eq!(m.liquidity_provider(1), vec![USER]);
}

#[test]
fn provide_refuses_unequal_value() {
    let mut m = setup(false, false, 100, 200);
    provide_all(&mut m, USER, 10, 20);
    assert_eq!(m.provide(USER, 5, 5, 1).map(|p| p.share), Err(Error::NonEquivalentValue));
    assert_eq!(m.getMyHoldings(USER, 1), (90, 180, 100));
}

#[test]
fn provide_refuses_zero_shares() {
    let mut m = setup(false, false, 1000, 2000);
    provide_all(&mut m, USER, 1000, 2000);
    m.insert_token1_balance(USER, 1, 5);
    m.insert_token2_balance(USER, 2, 5);
    assert_eq!(m.provide(USER, 1, 2, 1).map(|p| p.share), Err(Error::ThresholdNotReached));
}

#[test]
fn provide_panics_on_failed_balance_check() {
    let m = setup(false, false, 100, 200);
    assert!(m.provide_panics(USER, 0, 20, 1));
    assert!(m.provide_panics(USER, 101, 20, 1));
    assert!(m.provide_panics(USER, 10, 201, 1));
    assert!(!m.provide_panics(USER, 10, 20, 1));
}

#[test]
fn liquidity_providers_stay_sorted() {
    let mut m = setup(false, false, 100, 200);
    for who in [3u64, 1, 2] {
        m.insert_token1_balance(who, 1, 100);
        m.insert_token2_balance(who, 2, 200);
    }
    provide_all(&mut m, 3, 10, 20);
    provide_all(&mut m, 1, 10, 20);
    provide_all(&mut m, 2, 10, 20);
    let (_, events) = provide_all(&mut m, 3, 10, 20);
    assert_eq!(events.len(), 2);
    assert_eq!(m.liquidity_provider(1), vec![1, 2, 3]);
}

#[test]
fn withdraw_works() {
    let mut m = setup(false, false, 100, 200);
    provide_all(&mut m, USER, 10, 20);
    let share = m.shares(USER);
    assert_eq!(m.getWithdrawEstimate(&USER, 1, share / 5), Ok((2, 4)));
    assert!(!m.withdraw_panics(USER, 1, share / 5));
    let payout = m.withdraw(USER, 1, share / 5).unwrap();
    assert_eq!(
        payout.transfers,
        vec![
            Transfer::Asset { origin: pool_account(), asset: 1, target: USER, amount: 2 },
            Transfer::Asset { origin: pool_account(), asset: 2, target: USER, amount: 4 },
        ]
    );
    assert_eq!(payout.event, Event::AssetsDistributed(1, 2));
    assert_eq!(m.getMyHoldings(USER, 1), (92, 184, 4 * share / 5));
    assert_eq!(m.getPoolDetails(1), (8, 16, 4 * share / 5, 0));
}

#[test]
fn withdraw_errors() {
    let mut m = setup(false, false, 100, 200);
    provide_all(&mut m, USER, 10, 20);
    assert_eq!(m.withdraw(USER, 1, 0).map(|p| p.event), Err(Error::ZeroAmount));
    assert_eq!(m.withdraw(USER, 1, 101).map(|p| p.event), Err(Error::InsufficientAmount));
    m.insert_shares(USER, 500);
    assert_eq!(m.getWithdrawEstimate(&USER, 1, 101), Err(Error::InvalidShare));
    assert_eq!(m.withdraw(USER, 1, 101).map(|p| p.event), Err(Error::InvalidShare));
    assert_eq!(m.getPoolDetails(1), (10, 20, 100, 0));
}

#[test]
fn withdraw_all_shares_empties_pool() {
    let mut m = setup(false, false, 100, 200);
    provide_all(&mut m, USER, 10, 20);
    assert_eq!(m.getWithdrawEstimate(&USER, 1, 100), Ok((10, 20)));
    m.withdraw(USER, 1, 100).unwrap();
    assert_eq!(m.getPoolDetails(1), (0, 0, 0, 0));
    assert_eq!(m.getMyHoldings(USER, 1), (100, 200, 0));
}

#[test]
fn withdraw_from_native_pools() {
    let mut m = setup(true, false, 100, 200);
    provide_all(&mut m, USER, 10, 20);
    let payout = m.withdraw(USER, 1, 50).unwrap();
    assert_eq!(
        payout.transfers,
        vec![
            Transfer::Native { source: pool_account(), dest: USER, amount: 5 },
            Transfer::Asset { origin: pool_account(), asset: 2, target: USER, amount: 10 },
        ]
    );
    let mut m = setup(false, true, 100, 200);
    provide_all(&mut m, USER, 10, 20);
    let payout = m.withdraw(USER, 1, 50).unwrap();
    assert_eq!(
        payout.transfers,
        vec![
            Transfer::Asset { origin: pool_account(), asset: 1, target: USER, amount: 5 },
            Transfer::Native { source: pool_account(), dest: USER, amount: 10 },
        ]
    );
}

#[test]
fn both_native_pool_fails_after_booking() {
    let mut m = setup(true, true, 100, 200);
    let err = m.provide(USER, 10, 20, 1).map(|p| p.share);
    assert_eq!(err, Err(Error::BothTokensCannotBeNative));
    // the balances were booked before the refusal, and stay booked
    assert_eq!(m.getMyHoldings(USER, 1), (90, 180, 0));
}

#[test]
fn swap_works() {
    let mut m = setup(false, false, 100, 200);
    provide_all(&mut m, USER, 50, 100);
    assert_eq!(m.getSwapToken1EstimateGivenToken1(1, 50), Ok((50, 0)));
    assert!(!m.swapToken1GivenToken1_panics(USER, 1, 50, 50));
    let pending = m.swapToken1GivenToken1(USER, 1, 50, 50).unwrap();
    assert_eq!(
        pending.transfers,
        vec![
            Transfer::Asset { origin: USER, asset: 1, target: pool_account(), amount: 50 },
            Transfer::Asset { origin: pool_account(), asset: 2, target: USER, amount: 50 },
        ]
    );
    assert_eq!(m.getMyHoldings(USER, 1), (0, 150, 100));
    assert_eq!(settle_swap1(&mut m, &pending), Event::SwapedToken1GivenToken1(50, 50));
    assert_eq!(m.getMyHoldings(USER, 1), (0, 150, 100));
    assert_eq!(m.getPoolDetails(1), (100, 50, 100, 0));
    assert_eq!(m.feeCollected(1), 0);
}

#[test]
fn slippage_works() {
    let mut m = setup(false, false, 100, 200);
    provide_all(&mut m, USER, 50, 100);
    assert_eq!(
        m.swapToken1GivenToken1(USER, 1, 50, 51).map(|p| p.amount_token2),
        Err(Error::SlippageExceeded)
    );
    assert_eq!(m.getMyHoldings(USER, 1), (50, 100, 100));
    assert_eq!(m.getPoolDetails(1), (50, 100, 100, 0));
}

#[test]
fn trading_fees_works() {
    let mut m = setup(false, false, 100, 200);
    provide_all(&mut m, USER, 50, 100);
    // a fee of 100 thousandths: 45 of the 50 count toward the price,
    // 5000 / 95 = 52 stays and 48 comes out
    m.SetFees(100).unwrap();
    assert_eq!(m.getSwapToken1EstimateGivenToken1(1, 50), Ok((48, 5)));
    let pending = m.swapToken1GivenToken1(USER, 1, 50, 48).unwrap();
    assert_eq!(pending.fee_charged, 5);
    settle_swap1(&mut m, &pending);
    assert_eq!(m.getPoolDetails(1), (100, 52, 100, 100));
    assert_eq!(m.feeCollected(1), 5);
}

#[test]
fn swap_never_empties_second_reserve() {
    let mut m = setup(false, false, 100, 200);
    provide_all(&mut m, USER, 1, 1);
    assert_eq!(m.getSwapToken1EstimateGivenToken1(1, 99), Ok((0, 0)));
    let mut m = setup(false, false, 100, 200);
    provide_all(&mut m, USER, 1, 2);
    // 2 / 100 rounds to zero, which would empty the reserve: one is kept
    assert_eq!(m.getSwapToken1EstimateGivenToken1(1, 99), Ok((1, 0)));
}

#[test]
fn swap_with_highest_fee() {
    let mut m = setup(false, false, 100, 200);
    provide_all(&mut m, USER, 50, 100);
    m.SetFees(999).unwrap();
    assert!(!m.getSwapToken1EstimateGivenToken1_panics(1, 50));
    assert!(!m.swapToken1GivenToken1_panics(USER, 1, 50, 0));
    // 999 thousandths of 50 are fee: nothing counts toward the price
    assert_eq!(m.getSwapToken1EstimateGivenToken1(1, 50), Ok((0, 50)));
    assert!(!m.getSwapToken1EstimateGivenToken2_panics(1, 50));
    // the rise of 50 grossed up a thousandfold
    assert_eq!(m.getSwapToken1EstimateGivenToken2(1, 50), Ok((50000, 49950)));
}

#[test]
fn swap_estimate_panics_on_overflow() {
    let mut m = setup(false, false, 100, 200);
    provide_all(&mut m, USER, 50, 100);
    assert!(m.getSwapToken1EstimateGivenToken1_panics(1, u128::MAX));
    assert!(!m.getSwapToken1EstimateGivenToken1_panics(1, 1000));
    m.insert_total_token1(1, u128::MAX / 100);
    assert!(m.getSwapToken1EstimateGivenToken2_panics(1, 99));
}

#[test]
fn swap_given_token2_works() {
    let mut m = setup(false, false, 100, 200);
    provide_all(&mut m, USER, 50, 100);
    assert_eq!(m.getSwapToken1EstimateGivenToken2(1, 50), Ok((50, 0)));
    assert_eq!(m.getSwapToken1EstimateGivenToken2(1, 100), Err(Error::InsufficientLiquidity));
    assert!(!m.swapToken1GivenToken2_panics(USER, 1, 50, 50));
    assert_eq!(
        m.swapToken1GivenToken2(USER, 1, 49, 50).map(|p| p.amount_token1),
        Err(Error::SlippageExceeded)
    );
    let pending = m.swapToken1GivenToken2(USER, 1, 50, 50).unwrap();
    assert_eq!(pending.amount_token1, 50);
    assert_eq!(
        pending.transfers,
        vec![
            Transfer::Asset { origin: USER, asset: 1, target: pool_account(), amount: 50 },
            Transfer::Asset { origin: pool_account(), asset: 2, target: USER, amount: 50 },
        ]
    );
    assert!(!m.swap_settle_panics(&pending));
    assert_eq!(m.swapToken1GivenToken2_settle(&pending), Event::SwapedToken1GivenToken2(50, 50));
    assert_eq!(m.getPoolDetails(1), (100, 50, 100, 0));
    assert_eq!(m.getMyHoldings(USER, 1), (0, 150, 100));
}

#[test]
fn swap_given_token2_with_fee() {
    let mut m = setup(false, false, 100, 200);
    provide_all(&mut m, USER, 50, 100);
    m.SetFees(100).unwrap();
    // the rise 50 of the first reserve, grossed up by the fee: 50000 / 900
    // rounds up to 56
    assert_eq!(m.getSwapToken1EstimateGivenToken2(1, 50), Ok((56, 5)));
    // and swapping 56 does return the 50 asked for
    assert_eq!(m.getSwapToken1EstimateGivenToken1(1, 56), Ok((50, 6)));
}

#[test]
fn swap_given_token2_checks_balance() {
    let mut m = setup(false, false, 100, 200);
    provide_all(&mut m, USER, 50, 100);
    m.insert_token1_balance(USER, 1, 10);
    assert_eq!(
        m.swapToken1GivenToken2(USER, 1, 100, 50).map(|p| p.amount_token1),
        Err(Error::InsufficientAmount)
    );
}

#[test]
fn native_swap_transfers() {
    let mut m = setup(true, false, 100, 200);
    provide_all(&mut m, USER, 50, 100);
    let pending = m.swapToken1GivenToken1(USER, 1, 50, 0).unwrap();
    assert_eq!(
        pending.transfers,
        vec![
            Transfer::Native { source: USER, dest: pool_account(), amount: 50 },
            Transfer::Asset { origin: pool_account(), asset: 2, target: USER, amount: 50 },
        ]
    );
    let mut m = setup(false, true, 100, 200);
    provide_all(&mut m, USER, 50, 100);
    let pending = m.swapToken1GivenToken1(USER, 1, 50, 0).unwrap();
    assert_eq!(
        pending.transfers,
        vec![
            Transfer::Asset { origin: USER, asset: 1, target: pool_account(), amount: 50 },
            Transfer::Native { source: pool_account(), dest: USER, amount: 50 },
        ]
    );
}

#[test]
fn equivalent_estimates() {
    let mut m = setup(false, false, 100, 200);
    provide_all(&mut m, USER, 50, 100);
    assert_eq!(m.getEquivalentToken1Estimate(1, 30), Ok(15));
    assert_eq!(m.getEquivalentToken2Estimate(1, 30), Ok(60));
}

#[test]
fn get_k_panics_on_overflow() {
    let mut m = setup(false, false, 100, 200);
    m.insert_total_token1(1, u128::MAX);
    m.insert_total_token2(2, 2);
    assert!(m.getK_panics(1));
    m.insert_total_token2(2, 1);
    assert!(!m.getK_panics(1));
    assert_eq!(m.getK(1), u128::MAX);
}

#[test]
fn distribution_pays_the_whole_fee_to_a_sole_provider() {
    let mut m = setup(false, false, 100, 200);
    provide_all(&mut m, USER, 10, 20);
    m.SetFees(3).unwrap();
    m.insert_total_fee_collected(1, 10);
    m.insert_total_fee_collected(2, 20);
    assert!(!m.distributeShareFee_panics());
    let plan: Vec<DistributionStep> = m.distributeShareFee();
    assert_eq!(plan.len(), 1);
    let step = &plan[0];
    assert_eq!((step.pool_id, step.provider, step.asset1, step.asset2, step.amount), (1, USER, 1, 2, 3));
    assert_eq!(
        step.transfers,
        Ok(vec![
            Transfer::Asset { origin: pool_account(), asset: 1, target: USER, amount: 3 },
            Transfer::Asset { origin: pool_account(), asset: 2, target: USER, amount: 3 },
        ])
    );
    assert!(!m.distributeShareFee_settle_panics(step));
    m.distributeShareFee_settle(step);
    // the fees of the first asset are set from those of the second
    assert_eq!(m.feeCollected(1), 17);
    assert_eq!(m.feeCollected(2), 20);
}

#[test]
fn distribution_splits_the_fee_by_share() {
    let mut m = setup(false, false, 100, 200);
    m.insert_token1_balance(2, 1, 100);
    m.insert_token2_balance(2, 2, 200);
    provide_all(&mut m, USER, 10, 20);
    provide_all(&mut m, 2, 10, 20);
    m.SetFees(3).unwrap();
    let plan = m.distributeShareFee();
    assert_eq!(plan.len(), 2);
    assert_eq!(plan[0].provider, 1);
    assert_eq!(plan[1].provider, 2);
    // each holds 100 of the 200 shares: 100 * 3 / 200 = 1
    assert_eq!(plan[0].amount, 1);
    assert_eq!(plan[1].amount, 1);
}

#[test]
fn distribution_without_providers_is_empty() {
    let mut m = setup(true, true, 100, 200);
    m.insert_shares(USER, 10);
    m.put_total_shares(10);
    assert!(m.distributeShareFee().is_empty());
    assert!(!m.distributeShareFee_panics());
}

#[test]
fn distribution_panics_without_shares() {
    let mut m = setup(false, false, 100, 200);
    provide_all(&mut m, USER, 10, 20);
    m.put_total_shares(0);
    assert!(m.distributeShareFee_panics());
}

#[test]
fn distribution_settle_panics_on_missing_fees() {
    let m = setup(false, false, 100, 200);
    let step = DistributionStep { pool_id: 1, provider: USER, asset1: 1, asset2: 2, amount: 3, transfers: Ok(vec![]) };
    assert!(m.distributeShareFee_settle_panics(&step));
}

#[test]
fn conversions_are_identities() {
    assert_eq!(Module::u128_to_balance_option(7), 7);
    assert_eq!(Module::u128_to_CurrencyBalance_option(8), 8);
    assert_eq!(Module::balance_to_u128(9), 9);
}

#[test]
fn provide_then_withdraw_returns_at_most_the_provision() {
    let mut m = setup(false, false, 1000, 1000);
    provide_all(&mut m, USER, 30, 70);
    m.insert_token1_balance(2, 1, 1000);
    m.insert_token2_balance(2, 2, 1000);
    // 100 * 13 / 30 = 43 and 100 * 31 / 70 = 44 differ; 12 and 28 both mint 40
    assert_eq!(m.provide(2, 13, 31, 1).map(|p| p.share), Err(Error::NonEquivalentValue));
    let (pending, _) = provide_all(&mut m, 2, 12, 28);
    assert_eq!(pending.share, 40);
    let (w1, w2) = m.getWithdrawEstimate(&2, 1, 40).unwrap();
    assert!(w1 <= 12 && w2 <= 28);
    assert_eq!((w1, w2), (12, 28));
}

#[test]
fn swap_conserves_booked_balance_plus_reserve() {
    let mut m = setup(false, false, 100, 200);
    provide_all(&mut m, USER, 50, 100);
    m.SetFees(100).unwrap();
    let before1 = m.token1_balance(USER, 1) + m.total_token1(1);
    let before2 = m.token2_balance(USER, 2) + m.total_token2(2);
    let pending = m.swapToken1GivenToken1(USER, 1, 20, 0).unwrap();
    settle_swap1(&mut m, &pending);
    assert_eq!(m.token1_balance(USER, 1) + m.total_token1(1), before1);
    assert_eq!(m.token2_balance(USER, 2) + m.total_token2(2), before2);
    assert_eq!(m.feeCollected(1), pending.fee_charged);
}

#[test]
fn withdraw_conserves_booked_balance_plus_reserve() {
    let mut m = setup(false, false, 100, 200);
    provide_all(&mut m, USER, 30, 60);
    let before1 = m.token1_balance(USER, 1) + m.total_token1(1);
    let before2 = m.token2_balance(USER, 2) + m.total_token2(2);
    assert!(!m.withdraw_panics(USER, 1, 33));
    m.withdraw(USER, 1, 33).unwrap();
    assert_eq!(m.token1_balance(USER, 1) + m.total_token1(1), before1);
    assert_eq!(m.token2_balance(USER, 2) + m.total_token2(2), before2);
    assert_eq!(m.shares(USER), 67);
    assert_eq!(m.total_shares(), 67);
}

#[test]
fn swap_input_covers_the_price() {
    let mut m = setup(false, false, 100, 200);
    provide_all(&mut m, USER, 30, 70);
    m.SetFees(70).unwrap();
    let (input, fee) = m.getSwapToken1EstimateGivenToken2(1, 20).unwrap();
    // 2100 / 50 = 42, so the first reserve must rise by 12 at least; 12000 /
    // 930 rounds up to 13, of which 930 * 13 / 1000 = 12 counts toward the price
    assert_eq!((input, fee), (13, 0));
    let counted = (1000 - 70) * input / 1000;
    assert!((30 + counted) * 50 >= 30 * 70);
    assert!(fee <= input);
}

#[test]
fn guards_on_withdraw_and_settle() {
    let mut m = setup(false, false, 100, 200);
    provide_all(&mut m, USER, 10, 20);
    m.insert_token1_balance(USER, 1, u128::MAX);
    assert!(m.withdraw_panics(USER, 1, 50));
    assert!(!m.withdraw_panics(USER, 1, 0));
    let pending = SwapPending {
        asset1: 1,
        asset2: 2,
        amount_token1: 1,
        amount_token2: 21,
        fee_charged: 0,
        transfers: vec![],
    };
    assert!(m.swap_settle_panics(&pending));
    let pending = ProvidePending {
        pool_id: 1,
        asset1: 1,
        asset2: 2,
        amount_token1: 1,
        amount_token2: 1,
        share: 1,
        transfers: vec![],
    };
    assert!(!m.provide_settle_panics(USER, &pending));
    m.insert_total_token1(1, u128::MAX);
    assert!(m.provide_settle_panics(USER, &pending));
    m.insert_total_token1(1, 5);
    m.insert_shares(USER, u128::MAX);
    assert!(m.provide_settle_panics(USER, &pending));
}

#[test]
fn swap_quote_round_trip() {
    let mut m = setup(false, false, 100, 200);
    provide_all(&mut m, USER, 2, 5);
    // 10 / 4 rounds up to 3: the first reserve must rise by 1
    assert_eq!(m.getSwapToken1EstimateGivenToken2(1, 1), Ok((1, 0)));
    // swapping 1 leaves 10 / 3 = 3 of the second reserve, paying 2
    assert_eq!(m.getSwapToken1EstimateGivenToken1(1, 1), Ok((2, 0)));
    assert!(!m.swapToken1GivenToken2_panics(USER, 1, 1, 1));
    let pending = m.swapToken1GivenToken2(USER, 1, 1, 1).unwrap();
    assert_eq!(pending.amount_token1, 1);
    assert_eq!(pending.amount_token2, 1);
}

#[test]
fn active_pool_with_large_reserves() {
    let mut m = setup(false, false, 100, 200);
    m.insert_total_token1(1, 1u128 << 64);
    m.insert_total_token2(2, 1u128 << 64);
    assert!(m.getK_panics(1));
    assert_eq!(m.activePool(1), Ok(()));
    m.put_total_shares(1);
    assert!(!m.getWithdrawEstimate_panics(1, 1));
    assert_eq!(m.getWithdrawEstimate(&USER, 1, 1), Ok((1u128 << 64, 1u128 << 64)));
    m.insert_total_token2(2, 0);
    assert_eq!(m.activePool(1), Err(Error::ZeroLiquidity));
}

#[test]
fn swap_transfers_the_amount_paid() {
    let mut m = setup(false, false, 100, 200);
    provide_all(&mut m, USER, 50, 100);
    // 5000 / 60 = 83 stays of the second reserve: 17 comes out for 10
    let pending = m.swapToken1GivenToken1(USER, 1, 10, 0).unwrap();
    assert_eq!(
        pending.transfers,
        vec![
            Transfer::Asset { origin: USER, asset: 1, target: pool_account(), amount: 10 },
            Transfer::Asset { origin: pool_account(), asset: 2, target: USER, amount: 17 },
        ]
    );
    assert_eq!(m.getMyHoldings(USER, 1), (40, 117, 100));
    let mut m = setup(false, false, 100, 200);
    provide_all(&mut m, USER, 50, 100);
    let (input, _) = m.getSwapToken1EstimateGivenToken2(1, 20).unwrap();
    assert_eq!(input, 13);
    let pending = m.swapToken1GivenToken2(USER, 1, 13, 20).unwrap();
    assert_eq!(
        pending.transfers,
        vec![
            Transfer::Asset { origin: USER, asset: 1, target: pool_account(), amount: 13 },
            Transfer::Asset { origin: pool_account(), asset: 2, target: USER, amount: 20 },
        ]
    );
}

#[test]
fn swap_output_rises_with_input() {
    let mut m = setup(false, false, 100, 200);
    provide_all(&mut m, USER, 50, 100);
    m.SetFees(30).unwrap();
    let mut last = 0;
    for amount in [0u128, 1, 5, 10, 25, 50, 99, 1000] {
        let (out, _) = m.getSwapToken1EstimateGivenToken1(1, amount).unwrap();
        assert!(out >= last);
        last = out;
    }
}

#[test]
fn swap_quote_rises_with_amount() {
    let mut m = setup(false, false, 100, 200);
    provide_all(&mut m, USER, 50, 100);
    m.SetFees(30).unwrap();
    let mut last = 0;
    for amount in [0u128, 1, 5, 10, 25, 50, 99] {
        let (input, _) = m.getSwapToken1EstimateGivenToken2(1, amount).unwrap();
        assert!(input >= last);
        last = input;
    }
}

#[test]
fn split_withdrawal_never_pays_more() {
    let mut m = setup(false, false, 100, 200);
    provide_all(&mut m, USER, 10, 23);
    // at once, 66 shares pay 66 * 10 / 100 = 6 and 66 * 23 / 100 = 15;
    // 33 of them pay 33 * 10 / 100 = 3 and 33 * 23 / 100 = 7
    assert_eq!(m.getWithdrawEstimate(&USER, 1, 66), Ok((6, 15)));
    let first = m.withdraw(USER, 1, 33).unwrap();
    assert_eq!(first.transfers.len(), 2);
    assert_eq!(m.getPoolDetails(1), (7, 16, 67, 0));
    // then 33 of the 67 left: 33 * 7 / 67 = 3 and 33 * 16 / 67 = 7
    assert_eq!(m.getWithdrawEstimate(&USER, 1, 33), Ok((3, 7)));
    assert!(3 + 3 <= 6 && 7 + 7 <= 15);
}

#[test]
fn conversion_round_trip_never_gains() {
    let mut m = setup(false, false, 100, 200);
    provide_all(&mut m, USER, 30, 70);
    let x1 = m.getEquivalentToken1Estimate(1, 10).unwrap();
    assert_eq!(x1, 4);
    let back = m.getEquivalentToken2Estimate(1, x1).unwrap();
    assert_eq!(back, 9);
    let x2 = m.getEquivalentToken2Estimate(1, 10).unwrap();
    assert_eq!(x2, 23);
    assert_eq!(m.getEquivalentToken1Estimate(1, x2).unwrap(), 9);
}
