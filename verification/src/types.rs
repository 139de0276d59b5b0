//! The plain values the market maker works on.
use vstd::prelude::*;

verus! {

/// Identifies an account.
pub type AccountId = u64;

/// Identifies an asset.
pub type AssetId = u32;

/// An amount of an asset, of pool shares, or a fee percentage.
pub type Balance = u128;

/// What a pool holds: its first asset, its second asset, and whether each of
/// them is the chain's native currency.
pub type PoolInfo = (AssetId, AssetId, bool, bool);

/// The errors the market maker reports.
#[derive(Debug, Clone, Copy, PartialEq, Eq, Structural)]
pub enum Error {
    NoneValue,
    StorageOverflow,
    ZeroLiquidity,
    ZeroAmount,
    InsufficientAmount,
    NonEquivalentValue,
    ThresholdNotReached,
    InvalidShare,
    InsufficientLiquidity,
    SlippageExceeded,
    LiquidityAdressExists,
    AssetNotExists,
    PoolIdAlreadyExists,
    PoolPairAlreadyExists,
    BothTokensCannotBeNative,
}

/// The events the market maker deposits.
#[derive(Debug, Clone, Copy, PartialEq, Eq, Structural)]
pub enum Event {
    LiquidityProviderAdressAdded(AccountId),
    ShareDistributed(Balance),
    SwapedToken1GivenToken1(Balance, Balance),
    SwapedToken1GivenToken2(Balance, Balance),
    AssetsDistributed(AssetId, AssetId),
    PoolCreated(AccountId, AssetId, AssetId),
}

/// A transfer that the market maker asks the chain to carry out.
#[derive(Debug, Clone, Copy, PartialEq, Eq, Structural)]
pub enum Transfer {
    /// A transfer of the native currency from `source` to `dest`, keeping
    /// the source account alive.
    Native { source: AccountId, dest: AccountId, amount: Balance },
    /// A transfer of `amount` of `asset`, signed by `origin`, to `target`.
    Asset { origin: AccountId, asset: AssetId, target: AccountId, amount: Balance },
}

/// The record the assets registry keeps for an asset.
#[derive(Debug, Clone, Copy, PartialEq, Eq, Structural)]
pub struct AssetDetails<Balance, AccountId, DepositBalance> {
    /// Can change `owner`, `issuer`, `freezer` and `admin` accounts.
    pub owner: AccountId,
    /// Can mint tokens.
    pub issuer: AccountId,
    /// Can thaw tokens, force transfers and burn tokens from any account.
    pub admin: AccountId,
    /// Can freeze tokens.
    pub freezer: AccountId,
    /// The total supply across all accounts.
    pub supply: Balance,
    /// The balance deposited for this asset. This pays for the data stored here.
    pub deposit: DepositBalance,
    /// The ED for virtual accounts.
    pub min_balance: Balance,
    /// If `true`, then any account with this asset is given a provider reference. Otherwise, it
    /// requires a consumer reference.
    pub is_sufficient: bool,
    /// The total number of accounts.
    pub accounts: u32,
    /// The total number of accounts for which we have placed a self-sufficient reference.
    pub sufficients: u32,
    /// The total number of approvals.
    pub approvals: u32,
    /// Whether the asset is frozen for non-admin transfers.
    pub is_frozen: bool,
}

} // verus!
