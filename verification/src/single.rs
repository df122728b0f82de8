//! What a ledger offers of one asset, and the adaptors that pick the asset.
use vstd::prelude::*;

pub mod balanced;
pub mod imbalance;

use crate::consequence::{DepositConsequence, WithdrawConsequence};
use crate::error::DispatchResult;
use crate::ledger::Ledger;
use crate::multi;
use crate::pallet::Pallet;
use crate::types::{AccountId, AssetId};
use crate::u256::U256;

verus! {

/// Read-only access to one asset of a ledger.
pub trait Inspect {
    /// The ledger that `self` stands for.
    spec fn ledger(&self) -> Ledger;

    /// The asset that `self` speaks of.
    spec fn asset(&self) -> AssetId;

    /// The supply of the asset.
    fn total_issuance(&self) -> (r: U256)
        ensures
            r@ == self.ledger().supply(self.asset()),
    ;

    /// The balance that `who` holds of the asset.
    fn balance(&self, who: &AccountId) -> (r: U256)
        ensures
            r@ == self.ledger().balance(self.asset(), *who),
    ;

    /// The verdict on depositing `amount` of the asset with `who`.
    fn can_deposit(&self, who: &AccountId, amount: U256) -> (r: DepositConsequence)
        ensures
            r == self.ledger().can_increase(self.asset(), *who, amount@),
    ;

    /// The verdict on withdrawing `amount` of the asset from `who`.
    fn can_withdraw(&self, who: &AccountId, amount: U256) -> (r: WithdrawConsequence)
        ensures
            r == self.ledger().can_decrease(self.asset(), *who, amount@),
    ;
}

/// Changes to one asset of a ledger.
pub trait Mutate: Inspect {
    /// Issues `amount` of the asset to `who`.
    fn mint(&mut self, who: &AccountId, amount: U256) -> (r: DispatchResult)
        ensures
            final(self).asset() == old(self).asset(),
            r == old(self).ledger().issue_result(old(self).asset(), *who, amount@),
            final(self).ledger() == old(self).ledger().issue(old(self).asset(), *who, amount),
    ;

    /// Burns `amount` of the asset held by `who`.
    fn burn(&mut self, who: &AccountId, amount: U256) -> (r: DispatchResult)
        ensures
            final(self).asset() == old(self).asset(),
            r == old(self).ledger().burn_result(old(self).asset(), *who, amount@),
            final(self).ledger() == old(self).ledger().burn(old(self).asset(), *who, amount),
    ;

    /// Transfers `amount` of the asset from `source` to `dest`.
    fn transfer(&mut self, source: &AccountId, dest: &AccountId, amount: U256) -> (r: DispatchResult)
        ensures
            final(self).asset() == old(self).asset(),
            r == old(self).ledger().transfer_result(old(self).asset(), *source, *dest, amount@),
            final(self).ledger() == old(self).ledger().transfer(
                old(self).asset(),
                *source,
                *dest,
                amount,
            ),
    ;
}

/// One asset of a ledger of many: the ledger `inner` seen through asset `asset`.
pub struct ItemOf<F> {
    pub inner: F,
    pub asset: AssetId,
}

impl<F: multi::Inspect> Inspect for ItemOf<F> {
    open spec fn ledger(&self) -> Ledger {
        self.inner.ledger()
    }

    open spec fn asset(&self) -> AssetId {
        self.asset
    }

    fn total_issuance(&self) -> (r: U256) {
        self.inner.total_issuance(self.asset)
    }

    fn balance(&self, who: &AccountId) -> (r: U256) {
        self.inner.balance(self.asset, who)
    }

    fn can_deposit(&self, who: &AccountId, amount: U256) -> (r: DepositConsequence) {
        self.inner.can_deposit(self.asset, who, amount)
    }

    fn can_withdraw(&self, who: &AccountId, amount: U256) -> (r: WithdrawConsequence) {
        self.inner.can_withdraw(self.asset, who, amount)
    }
}

impl<F: multi::Mutate> Mutate for ItemOf<F> {
    fn mint(&mut self, who: &AccountId, amount: U256) -> (r: DispatchResult) {
        self.inner.mint(self.asset, who, amount)
    }

    fn burn(&mut self, who: &AccountId, amount: U256) -> (r: DispatchResult) {
        self.inner.burn(self.asset, who, amount)
    }

    fn transfer(&mut self, source: &AccountId, dest: &AccountId, amount: U256) -> (r: DispatchResult) {
        self.inner.transfer(self.asset, source, dest, amount)
    }
}

/// One asset of a pallet: the pallet seen through asset `id`.
pub struct TokenAdaptor {
    pub pallet: Pallet,
    pub id: AssetId,
}

impl Inspect for TokenAdaptor {
    open spec fn ledger(&self) -> Ledger {
        self.pallet@
    }

    open spec fn asset(&self) -> AssetId {
        self.id
    }

    fn total_issuance(&self) -> (r: U256) {
        self.pallet.supply(self.id)
    }

    fn balance(&self, who: &AccountId) -> (r: U256) {
        self.pallet.balance(self.id, who)
    }

    fn can_deposit(&self, who: &AccountId, amount: U256) -> (r: DepositConsequence) {
        self.pallet.can_increase(self.id, who, amount)
    }

    fn can_withdraw(&self, who: &AccountId, amount: U256) -> (r: WithdrawConsequence) {
        self.pallet.can_decrease(self.id, who, amount)
    }
}

impl Mutate for TokenAdaptor {
    fn mint(&mut self, who: &AccountId, amount: U256) -> (r: DispatchResult) {
        self.pallet.do_issue(self.id, who, amount)
    }

    fn burn(&mut self, who: &AccountId, amount: U256) -> (r: DispatchResult) {
        self.pallet.do_burn(self.id, who, amount)
    }

    fn transfer(&mut self, source: &AccountId, dest: &AccountId, amount: U256) -> (r: DispatchResult) {
        self.pallet.do_transfer(self.id, source, dest, amount)
    }
}

} // verus!
