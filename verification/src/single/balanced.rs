//! Changes to the balances of one asset that leave the supply alone, and
//! the imbalances by which they are accounted for.
use vstd::prelude::*;

use crate::error::DispatchError;
use crate::ledger::{AssetState, Ledger};
use crate::single::imbalance::{HandleImbalanceDrop, Imbalance};
use crate::single::{Inspect, TokenAdaptor};
use crate::types::{AccountId, AssetDetails, AssetId, SameOrOther};
use crate::u256::{max_u256, U256};

verus! {

/// An imbalance left by a withdrawal: balances fell and the supply did not.
pub type CreditOf<B> = Imbalance<<B as Balanced>::OnDropCredit, <B as Balanced>::OnDropDebt>;

/// An imbalance left by a deposit: balances rose and the supply did not.
pub type DebtOf<B> = Imbalance<<B as Balanced>::OnDropDebt, <B as Balanced>::OnDropCredit>;

/// One asset of a ledger whose balances can be changed against imbalances.
pub trait Balanced: Inspect + Sized {
    /// What giving up a debt does.
    type OnDropDebt: HandleImbalanceDrop<Self>;

    /// What giving up a credit does.
    type OnDropCredit: HandleImbalanceDrop<Self>;

    /// Raises the balance of `who` by `amount` and returns the debt owed for
    /// it. Where the deposit is not admissible its error is returned and
    /// nothing changes.
    fn deposit(&mut self, who: &AccountId, amount: U256) -> (r: Result<DebtOf<Self>, DispatchError>)
        ensures
            final(self).asset() == old(self).asset(),
            final(self).ledger() == old(self).ledger().increase(old(self).asset(), *who, amount@),
            r is Ok ==> old(self).ledger().issue_result(old(self).asset(), *who, amount@) is Ok
                && r->Ok_0@ == amount@,
            r is Err ==> old(self).ledger().issue_result(old(self).asset(), *who, amount@) == Err::<
                (),
                DispatchError,
            >(r->Err_0),
    ;

    /// Lowers the balance of `who` by `amount` and returns the credit gained
    /// by it. Where the withdrawal is not admissible its error is returned
    /// and nothing changes.
    fn withdraw(&mut self, who: &AccountId, amount: U256) -> (r: Result<CreditOf<Self>, DispatchError>)
        ensures
            final(self).asset() == old(self).asset(),
            final(self).ledger() == old(self).ledger().decrease(old(self).asset(), *who, amount@),
            r is Ok ==> old(self).ledger().burn_result(old(self).asset(), *who, amount@) is Ok
                && r->Ok_0@ == amount@,
            r is Err ==> old(self).ledger().burn_result(old(self).asset(), *who, amount@) == Err::<
                (),
                DispatchError,
            >(r->Err_0),
    ;

    /// Raises the balance of `who` to counter `credit`. Where the whole of
    /// `credit` cannot be countered nothing changes and `credit` is handed back.
    fn resolve(&mut self, who: &AccountId, credit: CreditOf<Self>) -> (r: Result<(), CreditOf<Self>>)
        ensures
            final(self).asset() == old(self).asset(),
            final(self).ledger() == old(self).ledger().increase(old(self).asset(), *who, credit@),
            r is Ok <==> old(self).ledger().issue_result(old(self).asset(), *who, credit@) is Ok,
            r is Err ==> r->Err_0 == credit,
    {
        let v = credit.peek();
        let debt = match self.deposit(who, v) {
            Err(_) => {
                return Err(credit);
            },
            Ok(d) => d,
        };
        let _ = credit.offset(debt);
        Ok(())
    }

    /// Lowers the balance of `who` to counter `debt`, and returns what the
    /// withdrawal gained beyond it, which is nothing. Where the whole of
    /// `debt` cannot be countered nothing changes and `debt` is handed back.
    fn settle(&mut self, who: &AccountId, debt: DebtOf<Self>) -> (r: Result<CreditOf<Self>, DebtOf<Self>>)
        ensures
            final(self).asset() == old(self).asset(),
            final(self).ledger() == old(self).ledger().decrease(old(self).asset(), *who, debt@),
            r is Ok <==> old(self).ledger().burn_result(old(self).asset(), *who, debt@) is Ok,
            r is Ok ==> r->Ok_0@ == 0,
            r is Err ==> r->Err_0 == debt,
    {
        let amount = debt.peek();
        let credit = match self.withdraw(who, amount) {
            Err(_) => {
                return Err(debt);
            },
            Ok(d) => d,
        };
        match credit.offset(debt) {
            Ok(SameOrOther::Neither) => Ok(CreditOf::<Self>::zero()),
            Ok(SameOrOther::Same(dust)) => Ok(dust),
            Ok(SameOrOther::Other(rest)) => Err(rest),
            Err(_) => Ok(CreditOf::<Self>::zero()),
        }
    }
}

/// One asset of a ledger whose balances and supply can be set apart from
/// each other.
pub trait Unbalanced: Inspect {
    /// Sets the supply of the asset to `amount`.
    fn set_total_issuance(&mut self, amount: U256)
        ensures
            final(self).asset() == old(self).asset(),
            final(self).ledger() == old(self).ledger().with_supply(old(self).asset(), amount@),
    ;

    /// Lowers the balance of `who` by `amount`, leaving the supply, and
    /// returns the amount by which it fell. Where the withdrawal is not
    /// admissible its error is returned and nothing changes.
    fn decrease_balance(&mut self, who: &AccountId, amount: U256) -> (r: Result<U256, DispatchError>)
        ensures
            final(self).asset() == old(self).asset(),
            final(self).ledger() == old(self).ledger().decrease(old(self).asset(), *who, amount@),
            r is Ok ==> old(self).ledger().burn_result(old(self).asset(), *who, amount@) is Ok
                && r->Ok_0 == amount,
            r is Err ==> old(self).ledger().burn_result(old(self).asset(), *who, amount@) == Err::<
                (),
                DispatchError,
            >(r->Err_0),
    ;

    /// Raises the balance of `who` by `amount`, leaving the supply, and
    /// returns the amount by which it rose. Where the deposit is not
    /// admissible its error is returned and nothing changes.
    fn increase_balance(&mut self, who: &AccountId, amount: U256) -> (r: Result<U256, DispatchError>)
        ensures
            final(self).asset() == old(self).asset(),
            final(self).ledger() == old(self).ledger().increase(old(self).asset(), *who, amount@),
            r is Ok ==> old(self).ledger().issue_result(old(self).asset(), *who, amount@) is Ok
                && r->Ok_0 == amount,
            r is Err ==> old(self).ledger().issue_result(old(self).asset(), *who, amount@) == Err::<
                (),
                DispatchError,
            >(r->Err_0),
    ;
}

/// Giving up an imbalance lowers the supply by its amount, not below zero.
pub struct DecreaseIssuance;

impl<U: Unbalanced> HandleImbalanceDrop<U> for DecreaseIssuance {
    open spec fn handled(before: Ledger, asset: AssetId, amount: nat) -> Ledger {
        before.with_supply(
            asset,
            if before.supply(asset) >= amount {
                (before.supply(asset) - amount) as nat
            } else {
                0
            },
        )
    }

    fn handle(ledger: &mut U, amount: U256) {
        let supply = ledger.total_issuance();
        ledger.set_total_issuance(supply.saturating_sub(amount));
    }
}

/// Giving up an imbalance raises the supply by its amount, not above the
/// largest amount.
pub struct IncreaseIssuance;

impl<U: Unbalanced> HandleImbalanceDrop<U> for IncreaseIssuance {
    open spec fn handled(before: Ledger, asset: AssetId, amount: nat) -> Ledger {
        before.with_supply(
            asset,
            if before.supply(asset) + amount <= max_u256() {
                before.supply(asset) + amount
            } else {
                max_u256()
            },
        )
    }

    fn handle(ledger: &mut U, amount: U256) {
        let supply = ledger.total_issuance();
        ledger.set_total_issuance(supply.saturating_add(amount));
    }
}

impl Unbalanced for TokenAdaptor {
    fn set_total_issuance(&mut self, amount: U256) {
        let _ = self.pallet.set_total_issuance(self.id, amount);
    }

    fn decrease_balance(&mut self, who: &AccountId, amount: U256) -> (r: Result<U256, DispatchError>) {
        let keep = |details: AssetDetails| -> (o: Result<AssetDetails, DispatchError>)
            ensures
                o == Ok::<AssetDetails, DispatchError>(details),
            { Ok(details) };
        let ghost before = self.pallet@;
        match self.pallet.decrease_balance(self.id, who, amount, keep) {
            Ok(()) => {
                proof {
                    if amount@ > 0 {
                        let asset = before.assets[self.id];
                        assert forall|details: AssetDetails|
                            before.details_are(self.id, details) implies #[trigger] asset.with_details(
                            details,
                        ) == asset by {
                            assert(asset.with_details(details) =~= asset);
                        }
                    }
                }
                Ok(amount)
            },
            Err(e) => Err(e),
        }
    }

    fn increase_balance(&mut self, who: &AccountId, amount: U256) -> (r: Result<U256, DispatchError>) {
        let keep = |details: AssetDetails| -> (o: Result<AssetDetails, DispatchError>)
            ensures
                o == Ok::<AssetDetails, DispatchError>(details),
            { Ok(details) };
        let ghost before = self.pallet@;
        match self.pallet.increase_balance(self.id, who, amount, keep) {
            Ok(()) => {
                proof {
                    if amount@ > 0 {
                        let asset = before.assets[self.id];
                        assert forall|details: AssetDetails|
                            before.details_are(self.id, details) implies #[trigger] asset.with_details(
                            details,
                        ) == asset by {
                            assert(asset.with_details(details) =~= asset);
                        }
                    }
                }
                Ok(amount)
            },
            Err(e) => Err(e),
        }
    }
}

impl Balanced for TokenAdaptor {
    type OnDropDebt = IncreaseIssuance;

    type OnDropCredit = DecreaseIssuance;

    fn deposit(&mut self, who: &AccountId, amount: U256) -> (r: Result<DebtOf<Self>, DispatchError>) {
        match self.increase_balance(who, amount) {
            Ok(actual) => Ok(Imbalance::new(actual)),
            Err(e) => Err(e),
        }
    }

    fn withdraw(&mut self, who: &AccountId, amount: U256) -> (r: Result<CreditOf<Self>, DispatchError>) {
        match self.decrease_balance(who, amount) {
            Ok(actual) => Ok(Imbalance::new(actual)),
            Err(e) => Err(e),
        }
    }
}

/// A deposit whose debt is given up comes to the same records as issuing the
/// amount: the supply follows the balance.
pub proof fn law_debt_given_up_is_issue(ledger: Ledger, id: AssetId, who: AccountId, amount: U256)
    requires
        ledger.issue_result(id, who, amount@) is Ok,
        amount@ > 0,
    ensures
        <IncreaseIssuance as HandleImbalanceDrop<TokenAdaptor>>::handled(
            ledger.increase(id, who, amount@),
            id,
            amount@,
        ).assets == ledger.issue(id, who, amount).assets,
        <IncreaseIssuance as HandleImbalanceDrop<TokenAdaptor>>::handled(
            ledger.increase(id, who, amount@),
            id,
            amount@,
        ).references == ledger.issue(id, who, amount).references,
{
    let asset = ledger.assets[id];
    let raised = AssetState { supply: asset.supply + amount@, ..asset.credit(who, amount@) };
    assert(raised =~= asset.minted(amount@).credit(who, amount@));
    assert(<IncreaseIssuance as HandleImbalanceDrop<TokenAdaptor>>::handled(
        ledger.increase(id, who, amount@),
        id,
        amount@,
    ).assets =~= ledger.issue(id, who, amount).assets);
}

/// A withdrawal whose credit is given up comes to the same records as
/// burning the amount: the supply follows the balance.
pub proof fn law_credit_given_up_is_burn(ledger: Ledger, id: AssetId, who: AccountId, amount: U256)
    requires
        ledger.burn_result(id, who, amount@) is Ok,
        amount@ > 0,
    ensures
        <DecreaseIssuance as HandleImbalanceDrop<TokenAdaptor>>::handled(
            ledger.decrease(id, who, amount@),
            id,
            amount@,
        ).assets == ledger.burn(id, who, amount).assets,
        <DecreaseIssuance as HandleImbalanceDrop<TokenAdaptor>>::handled(
            ledger.decrease(id, who, amount@),
            id,
            amount@,
        ).references == ledger.burn(id, who, amount).references,
{
    let asset = ledger.assets[id];
    let lowered = AssetState { supply: (asset.supply - amount@) as nat, ..asset.debit(who, amount@) };
    assert(lowered =~= asset.burned(amount@).debit(who, amount@));
    assert(<DecreaseIssuance as HandleImbalanceDrop<TokenAdaptor>>::handled(
        ledger.decrease(id, who, amount@),
        id,
        amount@,
    ).assets =~= ledger.burn(id, who, amount).assets);
}

} // verus!
