//! Imbalances of one asset: amounts by which balances and supply differ
//! until they are set against each other or given up.
use std::marker::PhantomData;
use vstd::prelude::*;

use crate::ledger::Ledger;
use crate::single::Inspect;
use crate::types::{AssetId, SameOrOther};
use crate::u256::{lemma_view_injective, U256};

verus! {

/// What is done to a ledger when an imbalance is given up.
pub trait HandleImbalanceDrop<L: Inspect> {
    /// The ledger after an imbalance of `amount` of `asset` was given up.
    spec fn handled(before: Ledger, asset: AssetId, amount: nat) -> Ledger;

    /// Makes up in `ledger` for an imbalance of `amount` that was given up.
    fn handle(ledger: &mut L, amount: U256)
        ensures
            final(ledger).asset() == old(ledger).asset(),
            final(ledger).ledger() == Self::handled(
                old(ledger).ledger(),
                old(ledger).asset(),
                amount@,
            ),
    ;
}

/// An amount by which the balances of an asset were changed without the
/// supply. `OnDrop` says what giving it up does; an imbalance of the
/// opposite direction has the two parameters the other way round.
pub struct Imbalance<OnDrop, OppositeOnDrop> {
    amount: U256,
    _phantom: PhantomData<(OnDrop, OppositeOnDrop)>,
}

impl<OnDrop, OppositeOnDrop> View for Imbalance<OnDrop, OppositeOnDrop> {
    type V = nat;

    closed spec fn view(&self) -> nat {
        self.amount@
    }
}

impl<OnDrop, OppositeOnDrop> Imbalance<OnDrop, OppositeOnDrop> {
    /// An imbalance of `amount`.
    pub(crate) fn new(amount: U256) -> (r: Self)
        ensures
            r@ == amount@,
    {
        Imbalance { amount, _phantom: PhantomData }
    }

    /// The imbalance of nothing.
    pub fn zero() -> (r: Self)
        ensures
            r@ == 0,
    {
        Imbalance { amount: U256::zero(), _phantom: PhantomData }
    }

    /// Gives the imbalance up: nothing happens for an imbalance of nothing,
    /// and `OnDrop` makes up for any other in `ledger`.
    pub fn drop<L: Inspect>(self, ledger: &mut L) where OnDrop: HandleImbalanceDrop<L>
        ensures
            final(ledger).asset() == old(ledger).asset(),
            final(ledger).ledger() == (if self@ == 0 {
                old(ledger).ledger()
            } else {
                OnDrop::handled(old(ledger).ledger(), old(ledger).asset(), self@)
            }),
    {
        if !self.amount.is_zero() {
            OnDrop::handle(ledger, self.amount);
        }
    }

    /// Gives the imbalance up where it is of nothing, and hands it back
    /// where it is not.
    pub fn try_drop(self) -> (r: Result<(), Self>)
        ensures
            r is Ok <==> self@ == 0,
            r is Err ==> r->Err_0 == self,
    {
        if self.amount.is_zero() {
            Ok(())
        } else {
            Err(self)
        }
    }

    /// Splits the imbalance in two: the first of `amount`, or of the whole
    /// where that is less, and the second of what is left.
    pub fn split(self, amount: U256) -> (r: (Self, Self))
        ensures
            r.0@ == (if self@ <= amount@ {
                self@
            } else {
                amount@
            }),
            r.0@ + r.1@ == self@,
    {
        let first = self.amount.min(amount);
        let second = self.amount.saturating_sub(first);
        (Imbalance::new(first), Imbalance::new(second))
    }

    /// Sets the imbalance against `other`, which is of the opposite
    /// direction: what is left is of the direction of the larger, and nothing
    /// is left where they are equal.
    pub fn offset(self, other: Imbalance<OppositeOnDrop, OnDrop>) -> (r: Result<
        SameOrOther<Self, Imbalance<OppositeOnDrop, OnDrop>>,
        (Self, Imbalance<OppositeOnDrop, OnDrop>),
    >)
        ensures
            r is Ok,
            self@ == other@ ==> r->Ok_0 is Neither,
            self@ > other@ ==> r->Ok_0 is Same && r->Ok_0->Same_0@ == self@ - other@,
            self@ < other@ ==> r->Ok_0 is Other && r->Ok_0->Other_0@ == other@ - self@,
    {
        let a = self.amount;
        let b = other.amount;
        proof {
            if a@ == b@ {
                lemma_view_injective(a, b);
            }
        }
        if a == b {
            Ok(SameOrOther::Neither)
        } else if b.lt(&a) {
            Ok(SameOrOther::Same(Imbalance::new(a.saturating_sub(b))))
        } else {
            Ok(SameOrOther::Other(Imbalance::<OppositeOnDrop, OnDrop>::new(b.saturating_sub(a))))
        }
    }

    /// The amount of the imbalance.
    pub fn peek(&self) -> (r: U256)
        ensures
            r@ == self@,
    {
        self.amount
    }
}

} // verus!
