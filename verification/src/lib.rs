pub mod accounting;
pub mod consequence;
pub mod error;
pub mod laws;
pub mod ledger;
pub mod multi;
pub mod pallet;
pub mod single;
pub mod types;
pub mod u256;

pub use consequence::{DepositConsequence, WithdrawConsequence};
pub use pallet::Pallet;
pub use single::{ItemOf, TokenAdaptor};
pub use error::{DispatchError, DispatchResult, Error, TokenError};
pub use types::{
    AccountId, AssetBalance, AssetDetails, AssetId, AssetMetadata, Event, MetadataView,
    ReferenceUpdate,
};
pub use u256::U256;
