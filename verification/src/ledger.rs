//! The ledger as a mathematical value, and what each operation makes of it.
//!
//! A [`Ledger`] is what a [`crate::pallet::Pallet`] is viewed as: maps from
//! identifiers to natural numbers, and the sequences of notices given out so
//! far. Every operation of the pallet is specified here as a function from
//! the ledger before to the ledger after, together with the result returned.
use vstd::prelude::*;

use crate::accounting::{balance_of, holders, total};
use crate::consequence::{DepositConsequence, WithdrawConsequence};
use crate::error::{DispatchError, DispatchResult, Error, TokenError};
use crate::types::{AccountId, AssetDetails, AssetId, Event, MetadataView, ReferenceUpdate};
use crate::u256::{max_u256, U256};

verus! {

/// What the ledger holds of one registered asset.
#[verifier::ext_equal]
pub struct AssetState {
    /// The total supply.
    pub supply: nat,
    /// The recorded number of accounts that hold some of the asset.
    pub accounts: nat,
    /// The balance of each account that has an entry.
    pub balances: Map<AccountId, nat>,
}

impl AssetState {
    /// A newly registered asset: no supply and no holders.
    pub open spec fn fresh() -> AssetState {
        AssetState { supply: 0, accounts: 0, balances: Map::empty() }
    }

    /// The balance of `who`: zero where there is no entry.
    pub open spec fn balance(self, who: AccountId) -> nat {
        balance_of(self.balances, who)
    }

    /// The values are within the ranges that the records can hold.
    pub open spec fn wf(self) -> bool {
        &&& self.balances.dom().finite()
        &&& self.supply <= max_u256()
        &&& self.accounts <= u32::MAX
        &&& forall|who: AccountId|
            self.balances.contains_key(who) ==> #[trigger] self.balances[who] <= max_u256()
    }

    /// The supply is the sum of all balances.
    pub open spec fn conserved(self) -> bool {
        self.supply == total(self.balances)
    }

    /// The recorded count is the number of accounts with a balance above zero.
    pub open spec fn counted(self) -> bool {
        self.accounts == holders(self.balances).len()
    }

    /// No entry holds a balance of zero.
    pub open spec fn compact(self) -> bool {
        forall|who: AccountId| self.balances.contains_key(who) ==> #[trigger] self.balances[who] > 0
    }

    /// The verdict on adding `amount` to the balance of `who`.
    pub open spec fn can_increase(self, who: AccountId, amount: nat) -> DepositConsequence {
        if self.supply + amount > max_u256() {
            DepositConsequence::Overflow
        } else if self.balance(who) == 0 && self.accounts + 1 > u32::MAX {
            DepositConsequence::Overflow
        } else if self.balance(who) + amount > max_u256() {
            DepositConsequence::Overflow
        } else {
            DepositConsequence::Success
        }
    }

    /// The verdict on taking `amount` from the balance of `who`.
    pub open spec fn can_decrease(self, who: AccountId, amount: nat) -> WithdrawConsequence {
        if self.supply < amount {
            WithdrawConsequence::Underflow
        } else if self.balance(who) < amount {
            WithdrawConsequence::NoFunds
        } else {
            WithdrawConsequence::Success
        }
    }

    /// The same balances under other details.
    pub open spec fn with_details(self, details: AssetDetails) -> AssetState {
        AssetState {
            supply: details.supply@,
            accounts: details.accounts as nat,
            balances: self.balances,
        }
    }

    /// The supply raised by `amount`.
    pub open spec fn minted(self, amount: nat) -> AssetState {
        AssetState { supply: self.supply + amount, ..self }
    }

    /// The supply lowered by `amount`, and held at zero below that.
    pub open spec fn burned(self, amount: nat) -> AssetState {
        AssetState { supply: if self.supply >= amount { (self.supply - amount) as nat } else { 0 }, ..self }
    }

    /// `amount` added to the balance of `who`; the count rises where the
    /// balance was zero.
    pub open spec fn credit(self, who: AccountId, amount: nat) -> AssetState {
        AssetState {
            supply: self.supply,
            accounts: if self.balance(who) == 0 {
                self.accounts + 1
            } else {
                self.accounts
            },
            balances: self.balances.insert(who, self.balance(who) + amount),
        }
    }

    /// `amount` taken from the balance of `who`. Where nothing is left the
    /// entry goes and the count falls, but not below zero.
    pub open spec fn debit(self, who: AccountId, amount: nat) -> AssetState {
        if self.balance(who) <= amount {
            AssetState {
                supply: self.supply,
                accounts: if self.accounts > 0 {
                    (self.accounts - 1) as nat
                } else {
                    0
                },
                balances: self.balances.remove(who),
            }
        } else {
            AssetState {
                supply: self.supply,
                accounts: self.accounts,
                balances: self.balances.insert(who, (self.balance(who) - amount) as nat),
            }
        }
    }

    /// The reference updates owed when `who` is credited.
    pub open spec fn credit_references(self, who: AccountId) -> Seq<ReferenceUpdate> {
        if self.balance(who) == 0 {
            seq![ReferenceUpdate::Increment(who)]
        } else {
            Seq::empty()
        }
    }

    /// The reference updates owed when `amount` is taken from `who`.
    pub open spec fn debit_references(self, who: AccountId, amount: nat) -> Seq<ReferenceUpdate> {
        if self.balance(who) <= amount {
            seq![ReferenceUpdate::Decrement(who)]
        } else {
            Seq::empty()
        }
    }
}

/// The ledger: every registered asset with its balances, the descriptive
/// data, and the notices given out so far.
#[verifier::ext_equal]
pub struct Ledger {
    /// The longest name or symbol that is accepted.
    pub string_limit: nat,
    /// The registered assets.
    pub assets: Map<AssetId, AssetState>,
    /// The descriptive data of the assets that have some.
    pub metadata: Map<AssetId, MetadataView>,
    /// The events recorded so far, oldest first.
    pub events: Seq<Event>,
    /// The reference updates owed so far, oldest first.
    pub references: Seq<ReferenceUpdate>,
}

impl Ledger {
    /// The ledger with nothing in it.
    pub open spec fn empty(string_limit: nat) -> Ledger {
        Ledger {
            string_limit,
            assets: Map::empty(),
            metadata: Map::empty(),
            events: Seq::empty(),
            references: Seq::empty(),
        }
    }

    /// Every value is within the range that the records can hold.
    pub open spec fn wf(self) -> bool {
        &&& self.string_limit <= u32::MAX
        &&& forall|id: AssetId| self.assets.contains_key(id) ==> (#[trigger] self.assets[id]).wf()
    }

    /// For every asset, the supply is the sum of all balances.
    pub open spec fn conserved(self) -> bool {
        forall|id: AssetId| self.assets.contains_key(id) ==> (#[trigger] self.assets[id]).conserved()
    }

    /// For every asset, the recorded count is the number of accounts with a
    /// balance above zero.
    pub open spec fn counted(self) -> bool {
        forall|id: AssetId| self.assets.contains_key(id) ==> (#[trigger] self.assets[id]).counted()
    }

    /// No entry of any asset holds a balance of zero.
    pub open spec fn compact(self) -> bool {
        forall|id: AssetId| self.assets.contains_key(id) ==> (#[trigger] self.assets[id]).compact()
    }

    /// Whether an asset is registered under `id`.
    pub open spec fn registered(self, id: AssetId) -> bool {
        self.assets.contains_key(id)
    }

    /// The supply of asset `id`: zero where none is registered.
    pub open spec fn supply(self, id: AssetId) -> nat {
        if self.assets.contains_key(id) {
            self.assets[id].supply
        } else {
            0
        }
    }

    /// The recorded number of holders of asset `id`: zero where none is registered.
    pub open spec fn accounts(self, id: AssetId) -> nat {
        if self.assets.contains_key(id) {
            self.assets[id].accounts
        } else {
            0
        }
    }

    /// The balance that `who` holds of asset `id`: zero where there is no entry.
    pub open spec fn balance(self, id: AssetId, who: AccountId) -> nat {
        if self.assets.contains_key(id) {
            self.assets[id].balance(who)
        } else {
            0
        }
    }

    /// Whether `who` has an entry for asset `id`.
    pub open spec fn has_entry(self, id: AssetId, who: AccountId) -> bool {
        self.assets.contains_key(id) && self.assets[id].balances.contains_key(who)
    }

    /// The number of entries kept for asset `id`.
    pub open spec fn entries(self, id: AssetId) -> nat {
        if self.assets.contains_key(id) {
            self.assets[id].balances.dom().len()
        } else {
            0
        }
    }

    /// The verdict on depositing `amount` of asset `id` with `who`.
    pub open spec fn can_increase(self, id: AssetId, who: AccountId, amount: nat) -> DepositConsequence {
        if !self.assets.contains_key(id) {
            DepositConsequence::UnknownAsset
        } else {
            self.assets[id].can_increase(who, amount)
        }
    }

    /// The verdict on withdrawing `amount` of asset `id` from `who`.
    pub open spec fn can_decrease(self, id: AssetId, who: AccountId, amount: nat) -> WithdrawConsequence {
        if !self.assets.contains_key(id) {
            WithdrawConsequence::UnknownAsset
        } else {
            self.assets[id].can_decrease(who, amount)
        }
    }

    /// The ledger with one more event recorded.
    pub open spec fn with_event(self, event: Event) -> Ledger {
        Ledger { events: self.events.push(event), ..self }
    }

    /// The result of registering an asset under `id`.
    pub open spec fn create_result(self, id: AssetId) -> DispatchResult {
        if self.assets.contains_key(id) {
            Err(DispatchError::Module(Error::InUse))
        } else {
            Ok(())
        }
    }

    /// The ledger after registering an asset under `id`.
    pub open spec fn create(self, id: AssetId) -> Ledger {
        if self.assets.contains_key(id) {
            self
        } else {
            Ledger { assets: self.assets.insert(id, AssetState::fresh()), ..self }
        }
    }

    /// The ledger with the supply of asset `id` set to `supply`; unchanged
    /// where no asset is registered under `id`.
    pub open spec fn with_supply(self, id: AssetId, supply: nat) -> Ledger {
        if self.assets.contains_key(id) {
            Ledger {
                assets: self.assets.insert(id, AssetState { supply, ..self.assets[id] }),
                ..self
            }
        } else {
            self
        }
    }

    /// The ledger after `amount` of a registered asset `id` was credited to
    /// `who`, the asset's details having first been replaced by `details`.
    pub open spec fn credited(
        self,
        id: AssetId,
        who: AccountId,
        amount: nat,
        details: AssetDetails,
    ) -> Ledger {
        let before = self.assets[id].with_details(details);
        Ledger {
            assets: self.assets.insert(id, before.credit(who, amount)),
            references: self.references + before.credit_references(who),
            ..self
        }
    }

    /// The ledger after `amount` of a registered asset `id` was debited from
    /// `who`, the asset's details having first been replaced by `details`.
    pub open spec fn debited(
        self,
        id: AssetId,
        who: AccountId,
        amount: nat,
        details: AssetDetails,
    ) -> Ledger {
        let before = self.assets[id].with_details(details);
        Ledger {
            assets: self.assets.insert(id, before.debit(who, amount)),
            references: self.references + before.debit_references(who, amount),
            ..self
        }
    }

    /// Whether `details` are the supply and the count recorded for asset `id`.
    pub open spec fn details_are(self, id: AssetId, details: AssetDetails) -> bool {
        details.supply@ == self.supply(id) && details.accounts == self.accounts(id)
    }

    /// The result of crediting `who` with some of a registered asset `id`,
    /// where looking over the asset's details gave `checked`.
    pub open spec fn credit_result(
        self,
        id: AssetId,
        who: AccountId,
        checked: Result<AssetDetails, DispatchError>,
    ) -> DispatchResult {
        match checked {
            Err(e) => Err(e),
            Ok(details) => if self.balance(id, who) == 0 && details.accounts == u32::MAX {
                Err(DispatchError::Module(Error::Overflow))
            } else {
                Ok(())
            },
        }
    }

    /// The ledger after crediting `who` with `amount` of a registered asset
    /// `id`, where looking over the asset's details gave `checked`.
    pub open spec fn credit_checked(
        self,
        id: AssetId,
        who: AccountId,
        amount: nat,
        checked: Result<AssetDetails, DispatchError>,
    ) -> Ledger {
        if self.credit_result(id, who, checked) is Err {
            self
        } else {
            self.credited(id, who, amount, checked->Ok_0)
        }
    }

    /// The ledger after debiting `amount` of a registered asset `id` from
    /// `who`, where looking over the asset's details gave `checked`.
    pub open spec fn debit_checked(
        self,
        id: AssetId,
        who: AccountId,
        amount: nat,
        checked: Result<AssetDetails, DispatchError>,
    ) -> Ledger {
        match checked {
            Err(_) => self,
            Ok(details) => self.debited(id, who, amount, details),
        }
    }

    /// The ledger after the balance that `who` holds of asset `id` was raised
    /// by `amount`, the supply staying as it is: unchanged for an amount of
    /// zero and where the deposit is not admissible.
    pub open spec fn increase(self, id: AssetId, who: AccountId, amount: nat) -> Ledger {
        if amount == 0 || self.can_increase(id, who, amount) != DepositConsequence::Success {
            self
        } else {
            Ledger {
                assets: self.assets.insert(id, self.assets[id].credit(who, amount)),
                references: self.references + self.assets[id].credit_references(who),
                ..self
            }
        }
    }

    /// The ledger after the balance that `who` holds of asset `id` was
    /// lowered by `amount`, the supply staying as it is: unchanged for an
    /// amount of zero and where the withdrawal is not admissible.
    pub open spec fn decrease(self, id: AssetId, who: AccountId, amount: nat) -> Ledger {
        if amount == 0 || self.can_decrease(id, who, amount) != WithdrawConsequence::Success {
            self
        } else {
            Ledger {
                assets: self.assets.insert(id, self.assets[id].debit(who, amount)),
                references: self.references + self.assets[id].debit_references(who, amount),
                ..self
            }
        }
    }

    /// The result of issuing `amount` of asset `id` to `who`.
    pub open spec fn issue_result(self, id: AssetId, who: AccountId, amount: nat) -> DispatchResult {
        if amount == 0 {
            Ok(())
        } else {
            match self.can_increase(id, who, amount).result() {
                Ok(()) => Ok(()),
                Err(e) => Err(DispatchError::Token(e)),
            }
        }
    }

    /// The ledger after issuing `amount` of asset `id` to `who`.
    pub open spec fn issue(self, id: AssetId, who: AccountId, amount: U256) -> Ledger {
        if amount@ == 0 {
            self.with_event(Event::Issued(id, who, amount))
        } else if self.can_increase(id, who, amount@) != DepositConsequence::Success {
            self
        } else {
            let asset = self.assets[id];
            Ledger {
                assets: self.assets.insert(id, asset.minted(amount@).credit(who, amount@)),
                references: self.references + asset.credit_references(who),
                events: self.events.push(Event::Issued(id, who, amount)),
                ..self
            }
        }
    }

    /// The result of burning `amount` of asset `id` held by `who`.
    pub open spec fn burn_result(self, id: AssetId, who: AccountId, amount: nat) -> DispatchResult {
        if amount == 0 {
            Ok(())
        } else {
            match self.can_decrease(id, who, amount).result() {
                Ok(_) => Ok(()),
                Err(e) => Err(DispatchError::Token(e)),
            }
        }
    }

    /// The ledger after burning `amount` of asset `id` held by `who`.
    pub open spec fn burn(self, id: AssetId, who: AccountId, amount: U256) -> Ledger {
        if amount@ == 0 {
            self.with_event(Event::Burned(id, who, amount))
        } else if self.can_decrease(id, who, amount@) != WithdrawConsequence::Success {
            self
        } else {
            let asset = self.assets[id];
            Ledger {
                assets: self.assets.insert(id, asset.burned(amount@).debit(who, amount@)),
                references: self.references + asset.debit_references(who, amount@),
                events: self.events.push(Event::Burned(id, who, amount)),
                ..self
            }
        }
    }

    /// The result of transferring `amount` of asset `id` from `source` to `dest`.
    pub open spec fn transfer_result(
        self,
        id: AssetId,
        source: AccountId,
        dest: AccountId,
        amount: nat,
    ) -> DispatchResult {
        if !self.assets.contains_key(id) {
            Err(DispatchError::Token(TokenError::UnknownAsset))
        } else if amount == 0 || source == dest {
            Ok(())
        } else {
            match self.can_decrease(id, source, amount).result() {
                Err(e) => Err(DispatchError::Token(e)),
                Ok(_) => match self.can_increase(id, dest, amount).result() {
                    Err(e) => Err(DispatchError::Token(e)),
                    Ok(()) => Ok(()),
                },
            }
        }
    }

    /// The ledger after transferring `amount` of asset `id` from `source` to `dest`.
    pub open spec fn transfer(self, id: AssetId, source: AccountId, dest: AccountId, amount: U256) -> Ledger {
        if self.transfer_result(id, source, dest, amount@) is Err {
            self
        } else if amount@ == 0 || source == dest {
            self.with_event(Event::Transferred(id, source, dest, amount))
        } else {
            let asset = self.assets[id];
            Ledger {
                assets: self.assets.insert(id, asset.debit(source, amount@).credit(dest, amount@)),
                references: self.references + asset.debit_references(source, amount@)
                    + asset.credit_references(dest),
                events: self.events.push(Event::Transferred(id, source, dest, amount)),
                ..self
            }
        }
    }

    /// The result of setting the descriptive data of asset `id`.
    pub open spec fn set_metadata_result(self, id: AssetId, name: Seq<u8>, symbol: Seq<u8>) -> DispatchResult {
        if name.len() > self.string_limit || symbol.len() > self.string_limit {
            Err(DispatchError::Module(Error::BadMetadata))
        } else if !self.assets.contains_key(id) {
            Err(DispatchError::Token(TokenError::UnknownAsset))
        } else {
            Ok(())
        }
    }

    /// The ledger after setting the descriptive data of asset `id`.
    pub open spec fn set_metadata(self, id: AssetId, name: Seq<u8>, symbol: Seq<u8>, decimals: u8) -> Ledger {
        if self.set_metadata_result(id, name, symbol) is Err {
            self
        } else {
            Ledger {
                metadata: self.metadata.insert(id, MetadataView { name, symbol, decimals }),
                events: self.events.push(Event::MetadataSet(id)),
                ..self
            }
        }
    }
}

} // verus!
