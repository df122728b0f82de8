//! Imbalances of a ledger of many assets: amounts of one asset by which
//! balances and supply differ until they are set against each other or
//! given up.
use std::marker::PhantomData;
use vstd::prelude::*;

use crate::ledger::Ledger;
use crate::multi::Inspect;
use crate::pallet::Pallet;
use crate::single::balanced::{DecreaseIssuance, IncreaseIssuance};
use crate::types::{AssetId, SameOrOther};
use crate::u256::{lemma_view_injective, max_u256, U256};

verus! {

/// What is done to a ledger when an imbalance is given up.
pub trait HandleImbalanceDrop<L: Inspect> {
    /// The ledger after an imbalance of `amount` of `asset` was given up.
    spec fn handled(before: Ledger, asset: AssetId, amount: nat) -> Ledger;

    /// Makes up in `ledger` for an imbalance of `amount` of `asset` that was
    /// given up.
    fn handle(ledger: &mut L, asset: AssetId, amount: U256)
        ensures
            final(ledger).ledger() == Self::handled(old(ledger).ledger(), asset, amount@),
    ;
}

/// An amount by which the balances of one asset were changed without the
/// supply. `OnDrop` says what giving it up does; an imbalance of the
/// opposite direction has the two parameters the other way round.
pub struct Imbalance<OnDrop, OppositeOnDrop> {
    asset: AssetId,
    amount: U256,
    _phantom: PhantomData<(OnDrop, OppositeOnDrop)>,
}

impl<OnDrop, OppositeOnDrop> View for Imbalance<OnDrop, OppositeOnDrop> {
    type V = (AssetId, nat);

    /// The asset and the amount.
    closed spec fn view(&self) -> (AssetId, nat) {
        (self.asset, self.amount@)
    }
}

impl<OnDrop, OppositeOnDrop> Imbalance<OnDrop, OppositeOnDrop> {
    /// An imbalance of `amount` of `asset`.
    pub fn new(asset: AssetId, amount: U256) -> (r: Self)
        ensures
            r@ == (asset, amount@),
    {
        Imbalance { asset, amount, _phantom: PhantomData }
    }

    /// The imbalance of nothing of `asset`.
    pub fn zero(asset: AssetId) -> (r: Self)
        ensures
            r@ == (asset, 0nat),
    {
        Imbalance { asset, amount: U256::zero(), _phantom: PhantomData }
    }

    /// Gives the imbalance up: nothing happens for an imbalance of nothing,
    /// and `OnDrop` makes up for any other in `ledger`.
    pub fn drop<L: Inspect>(self, ledger: &mut L) where OnDrop: HandleImbalanceDrop<L>
        ensures
            final(ledger).ledger() == (if self@.1 == 0 {
                old(ledger).ledger()
            } else {
                OnDrop::handled(old(ledger).ledger(), self@.0, self@.1)
            }),
    {
        if !self.amount.is_zero() {
            OnDrop::handle(ledger, self.asset, self.amount);
        }
    }

    /// Gives the imbalance up where it is of nothing, and hands it back
    /// where it is not.
    pub fn try_drop(self) -> (r: Result<(), Self>)
        ensures
            r is Ok <==> self@.1 == 0,
            r is Err ==> r->Err_0 == self,
    {
        if self.amount.is_zero() {
            Ok(())
        } else {
            Err(self)
        }
    }

    /// Splits the imbalance in two of the same asset: the first of `amount`,
    /// or of the whole where that is less, and the second of what is left.
    pub fn split(self, amount: U256) -> (r: (Self, Self))
        ensures
            r.0@.0 == self@.0,
            r.1@.0 == self@.0,
            r.0@.1 == (if self@.1 <= amount@ {
                self@.1
            } else {
                amount@
            }),
            r.0@.1 + r.1@.1 == self@.1,
    {
        let first = self.amount.min(amount);
        let second = self.amount.saturating_sub(first);
        let asset = self.asset;
        (Imbalance::new(asset, first), Imbalance::new(asset, second))
    }

    /// Sets the imbalance against `other`, which is of the opposite
    /// direction. Where the two are of one asset, what is left is of the
    /// direction of the larger, and nothing is left where they are equal;
    /// where they are of different assets both are handed back.
    pub fn offset(self, other: Imbalance<OppositeOnDrop, OnDrop>) -> (r: Result<
        SameOrOther<Self, Imbalance<OppositeOnDrop, OnDrop>>,
        (Self, Imbalance<OppositeOnDrop, OnDrop>),
    >)
        ensures
            r is Ok <==> self@.0 == other@.0,
            r is Err ==> r->Err_0 == (self, other),
            r is Ok && self@.1 == other@.1 ==> r->Ok_0 is Neither,
            r is Ok && self@.1 > other@.1 ==> r->Ok_0 is Same && r->Ok_0->Same_0@ == (
                self@.0,
                (self@.1 - other@.1) as nat,
            ),
            r is Ok && self@.1 < other@.1 ==> r->Ok_0 is Other && r->Ok_0->Other_0@ == (
                self@.0,
                (other@.1 - self@.1) as nat,
            ),
    {
        if self.asset == other.asset {
            let a = self.amount;
            let b = other.amount;
            let asset = self.asset;
            proof {
                if a@ == b@ {
                    lemma_view_injective(a, b);
                }
            }
            if a == b {
                Ok(SameOrOther::Neither)
            } else if b.lt(&a) {
                Ok(SameOrOther::Same(Imbalance::new(asset, a.saturating_sub(b))))
            } else {
                Ok(
                    SameOrOther::Other(
                        Imbalance::<OppositeOnDrop, OnDrop>::new(asset, b.saturating_sub(a)),
                    ),
                )
            }
        } else {
            Err((self, other))
        }
    }

    /// The amount of the imbalance.
    pub fn peek(&self) -> (r: U256)
        ensures
            r@ == self@.1,
    {
        self.amount
    }

    /// The asset of the imbalance.
    pub fn asset(&self) -> (r: AssetId)
        ensures
            r == self@.0,
    {
        self.asset
    }
}

impl HandleImbalanceDrop<Pallet> for DecreaseIssuance {
    /// The supply of `asset` lowered by `amount`, not below zero.
    open spec fn handled(before: Ledger, asset: AssetId, amount: nat) -> Ledger {
        before.with_supply(
            asset,
            if before.supply(asset) >= amount {
                (before.supply(asset) - amount) as nat
            } else {
                0
            },
        )
    }

    fn handle(ledger: &mut Pallet, asset: AssetId, amount: U256) {
        let supply = ledger.supply(asset);
        let _ = ledger.set_total_issuance(asset, supply.saturating_sub(amount));
    }
}

impl HandleImbalanceDrop<Pallet> for IncreaseIssuance {
    /// The supply of `asset` raised by `amount`, not above the largest amount.
    open spec fn handled(before: Ledger, asset: AssetId, amount: nat) -> Ledger {
        before.with_supply(
            asset,
            if before.supply(asset) + amount <= max_u256() {
                before.supply(asset) + amount
            } else {
                max_u256()
            },
        )
    }

    fn handle(ledger: &mut Pallet, asset: AssetId, amount: U256) {
        let supply = ledger.supply(asset);
        let _ = ledger.set_total_issuance(asset, supply.saturating_add(amount));
    }
}

} // verus!
