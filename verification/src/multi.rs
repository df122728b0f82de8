//! What a ledger of many assets offers: looking, changing, registering.
use vstd::prelude::*;

pub mod imbalance;

use crate::consequence::{DepositConsequence, WithdrawConsequence};
use crate::error::DispatchResult;
use crate::ledger::Ledger;
use crate::pallet::Pallet;
use crate::types::{AccountId, AssetId};
use crate::u256::U256;

verus! {

/// Read-only access to a ledger of many assets.
pub trait Inspect {
    /// The ledger that `self` stands for.
    spec fn ledger(&self) -> Ledger;

    /// Whether an asset is registered under `id`.
    fn asset_exists(&self, id: AssetId) -> (r: bool)
        ensures
            r == self.ledger().registered(id),
    ;

    /// The supply of asset `id`.
    fn total_issuance(&self, id: AssetId) -> (r: U256)
        ensures
            r@ == self.ledger().supply(id),
    ;

    /// The balance that `who` holds of asset `id`.
    fn balance(&self, id: AssetId, who: &AccountId) -> (r: U256)
        ensures
            r@ == self.ledger().balance(id, *who),
    ;

    /// The verdict on depositing `amount` of asset `id` with `who`.
    fn can_deposit(&self, id: AssetId, who: &AccountId, amount: U256) -> (r: DepositConsequence)
        ensures
            r == self.ledger().can_increase(id, *who, amount@),
    ;

    /// The verdict on withdrawing `amount` of asset `id` from `who`.
    fn can_withdraw(&self, id: AssetId, who: &AccountId, amount: U256) -> (r: WithdrawConsequence)
        ensures
            r == self.ledger().can_decrease(id, *who, amount@),
    ;
}

/// Changes to a ledger of many assets.
pub trait Mutate: Inspect {
    /// Issues `amount` of asset `id` to `who`.
    fn mint(&mut self, id: AssetId, who: &AccountId, amount: U256) -> (r: DispatchResult)
        ensures
            r == old(self).ledger().issue_result(id, *who, amount@),
            final(self).ledger() == old(self).ledger().issue(id, *who, amount),
    ;

    /// Burns `amount` of asset `id` held by `who`.
    fn burn(&mut self, id: AssetId, who: &AccountId, amount: U256) -> (r: DispatchResult)
        ensures
            r == old(self).ledger().burn_result(id, *who, amount@),
            final(self).ledger() == old(self).ledger().burn(id, *who, amount),
    ;

    /// Transfers `amount` of asset `id` from `source` to `dest`.
    fn transfer(&mut self, id: AssetId, source: &AccountId, dest: &AccountId, amount: U256) -> (r:
        DispatchResult)
        ensures
            r == old(self).ledger().transfer_result(id, *source, *dest, amount@),
            final(self).ledger() == old(self).ledger().transfer(id, *source, *dest, amount),
    ;
}

/// Registration of assets in a ledger of many assets.
pub trait Create: Inspect {
    /// Registers an asset under `id`.
    fn create(&mut self, id: AssetId) -> (r: DispatchResult)
        ensures
            r == old(self).ledger().create_result(id),
            final(self).ledger() == old(self).ledger().create(id),
    ;
}

impl Inspect for Pallet {
    open spec fn ledger(&self) -> Ledger {
        self@
    }

    fn asset_exists(&self, id: AssetId) -> (r: bool) {
        self.is_registered(id)
    }

    fn total_issuance(&self, id: AssetId) -> (r: U256) {
        self.supply(id)
    }

    fn balance(&self, id: AssetId, who: &AccountId) -> (r: U256) {
        Pallet::balance(self, id, who)
    }

    fn can_deposit(&self, id: AssetId, who: &AccountId, amount: U256) -> (r: DepositConsequence) {
        self.can_increase(id, who, amount)
    }

    fn can_withdraw(&self, id: AssetId, who: &AccountId, amount: U256) -> (r: WithdrawConsequence) {
        self.can_decrease(id, who, amount)
    }
}

impl Mutate for Pallet {
    fn mint(&mut self, id: AssetId, who: &AccountId, amount: U256) -> (r: DispatchResult) {
        self.do_issue(id, who, amount)
    }

    fn burn(&mut self, id: AssetId, who: &AccountId, amount: U256) -> (r: DispatchResult) {
        self.do_burn(id, who, amount)
    }

    fn transfer(&mut self, id: AssetId, source: &AccountId, dest: &AccountId, amount: U256) -> (r:
        DispatchResult) {
        self.do_transfer(id, source, dest, amount)
    }
}

impl Create for Pallet {
    fn create(&mut self, id: AssetId) -> (r: DispatchResult) {
        self.do_create(id)
    }
}

} // verus!
