//! The records that the ledger keeps and the notices it gives out.
use vstd::prelude::*;

use crate::u256::U256;

verus! {

/// Identifies a class of asset.
pub type AssetId = u32;

/// Identifies a participant of the ledger.
pub type AccountId = u64;

/// What the ledger records of one asset.
#[derive(Copy, Clone, Debug, PartialEq, Eq, Structural)]
pub struct AssetDetails {
    /// The total supply across all accounts.
    pub supply: U256,
    /// The number of accounts that hold some of the asset.
    pub accounts: u32,
}

impl Default for AssetDetails {
    fn default() -> (r: AssetDetails)
        ensures
            r.supply@ == 0,
            r.accounts == 0,
    {
        AssetDetails { supply: U256::zero(), accounts: 0 }
    }
}

/// What the ledger records of one account's holding of one asset.
#[derive(Copy, Clone, Debug, PartialEq, Eq, Structural)]
pub struct AssetBalance {
    /// The amount held.
    pub balance: U256,
}

impl Default for AssetBalance {
    fn default() -> (r: AssetBalance)
        ensures
            r.balance@ == 0,
    {
        AssetBalance { balance: U256::zero() }
    }
}

/// Descriptive data of one asset.
#[derive(Clone, Debug, PartialEq, Eq)]
pub struct AssetMetadata {
    /// The asset's name.
    pub name: Vec<u8>,
    /// The asset's ticker symbol.
    pub symbol: Vec<u8>,
    /// The number of decimal places in which amounts are shown.
    pub decimals: u8,
}

/// Descriptive data of one asset, as mathematical values.
pub struct MetadataView {
    pub name: Seq<u8>,
    pub symbol: Seq<u8>,
    pub decimals: u8,
}

impl View for AssetMetadata {
    type V = MetadataView;

    open spec fn view(&self) -> MetadataView {
        MetadataView { name: self.name@, symbol: self.symbol@, decimals: self.decimals }
    }
}

/// A notice of something the ledger has done.
#[derive(Copy, Clone, Debug, PartialEq, Eq, Structural)]
pub enum Event {
    /// An amount of an asset was issued to an account.
    Issued(AssetId, AccountId, U256),
    /// An amount of an asset was burned from an account.
    Burned(AssetId, AccountId, U256),
    /// An amount of an asset went from the first account to the second.
    Transferred(AssetId, AccountId, AccountId, U256),
    /// The descriptive data of an asset was set.
    MetadataSet(AssetId),
}

/// One of two items of opposite direction, or none: `Same` holds an item of
/// the kind that was asked, `Other` one of the opposite kind.
pub enum SameOrOther<A, B> {
    /// No item.
    Neither,
    /// An item of the kind of the value that was asked.
    Same(A),
    /// An item of the opposite kind.
    Other(B),
}

impl<A, B> SameOrOther<A, B> {
    /// Gives the value up where it holds no item, and hands it back where it
    /// holds one.
    pub fn try_drop(self) -> (r: Result<(), Self>)
        ensures
            r is Ok <==> self is Neither,
            r is Err ==> r->Err_0 == self,
    {
        match self {
            SameOrOther::Neither => Ok(()),
            other => Err(other),
        }
    }
}

/// A call owed to whoever counts the references that keep accounts alive.
#[derive(Copy, Clone, Debug, PartialEq, Eq, Structural)]
pub enum ReferenceUpdate {
    /// The account now holds some of an asset it held none of before.
    Increment(AccountId),
    /// The account no longer holds any of an asset it held before.
    Decrement(AccountId),
}

} // verus!
