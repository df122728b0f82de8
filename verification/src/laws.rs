//! What holds of the ledger whatever is done to it.
//!
//! The operations are taken here as the functions on [`Ledger`] by which the
//! pallet's contracts describe them, so each law holds of the pallet too.
use vstd::prelude::*;

use crate::accounting::{
    holders, lemma_holders_finite, lemma_holders_insert, lemma_holders_remove, lemma_total_empty,
    lemma_total_insert, lemma_total_remove, total,
};
use crate::consequence::{DepositConsequence, WithdrawConsequence};
use crate::error::{DispatchError, Error};
use crate::ledger::{AssetState, Ledger};
use crate::types::{AccountId, AssetId, Event};
use crate::u256::U256;

verus! {

/// Crediting an account raises the sum of balances by the amount and, for an
/// amount above zero, makes the account a holder.
pub proof fn lemma_credit(asset: AssetState, who: AccountId, amount: nat)
    requires
        asset.balances.dom().finite(),
    ensures
        asset.credit(who, amount).balances.dom().finite(),
        total(asset.credit(who, amount).balances) == total(asset.balances) + amount,
        amount > 0 ==> holders(asset.credit(who, amount).balances).len() == holders(
            asset.balances,
        ).len() + (if asset.balance(who) == 0 {
            1nat
        } else {
            0nat
        }),
        amount > 0 && asset.compact() ==> asset.credit(who, amount).compact(),
{
    lemma_total_insert(asset.balances, who, asset.balance(who) + amount);
    if amount > 0 {
        lemma_holders_insert(asset.balances, who, asset.balance(who) + amount);
    }
}

/// Debiting an account, by no more than it holds, lowers the sum of balances
/// by the amount, and takes the account from the holders where nothing is left.
pub proof fn lemma_debit(asset: AssetState, who: AccountId, amount: nat)
    requires
        asset.balances.dom().finite(),
        0 < amount <= asset.balance(who),
    ensures
        asset.debit(who, amount).balances.dom().finite(),
        total(asset.debit(who, amount).balances) + amount == total(asset.balances),
        holders(asset.debit(who, amount).balances).len() + (if asset.balance(who) == amount {
            1nat
        } else {
            0nat
        }) == holders(asset.balances).len(),
        asset.compact() ==> asset.debit(who, amount).compact(),
{
    if asset.balance(who) == amount {
        lemma_total_remove(asset.balances, who);
        lemma_holders_remove(asset.balances, who);
    } else {
        let rest = (asset.balance(who) - amount) as nat;
        lemma_total_insert(asset.balances, who, rest);
        lemma_holders_insert(asset.balances, who, rest);
    }
}

/// A step that may be taken on a ledger.
pub enum Operation {
    /// Registering an asset.
    Create(AssetId),
    /// Issuing an amount of an asset to an account.
    Issue(AssetId, AccountId, U256),
    /// Burning an amount of an asset held by an account.
    Burn(AssetId, AccountId, U256),
    /// Transferring an amount of an asset from the first account to the second.
    Transfer(AssetId, AccountId, AccountId, U256),
    /// Setting the name, the symbol and the decimals of an asset.
    SetMetadata(AssetId, Seq<u8>, Seq<u8>, u8),
}

impl Ledger {
    /// The ledger after one operation.
    pub open spec fn apply(self, op: Operation) -> Ledger {
        match op {
            Operation::Create(id) => self.create(id),
            Operation::Issue(id, who, amount) => self.issue(id, who, amount),
            Operation::Burn(id, who, amount) => self.burn(id, who, amount),
            Operation::Transfer(id, source, dest, amount) => self.transfer(id, source, dest, amount),
            Operation::SetMetadata(id, name, symbol, decimals) => self.set_metadata(
                id,
                name,
                symbol,
                decimals,
            ),
        }
    }

    /// The ledger after the operations of `ops`, one after the other.
    pub open spec fn run(self, ops: Seq<Operation>) -> Ledger
        decreases ops.len(),
    {
        if ops.len() == 0 {
            self
        } else {
            self.run(ops.drop_last()).apply(ops.last())
        }
    }
}

/// An operation keeps every value within the range of its record.
pub proof fn lemma_apply_keeps_ranges(ledger: Ledger, op: Operation)
    requires
        ledger.wf(),
    ensures
        ledger.apply(op).wf(),
{
    let after = ledger.apply(op);
    assert forall|id: AssetId| after.assets.contains_key(id) implies (#[trigger] after.assets[id]).wf() by {
        if ledger.assets.contains_key(id) {
            let asset = ledger.assets[id];
            assert(asset.wf());
            match op {
                Operation::Issue(i, who, amount) => {
                    if i == id && after != ledger {
                        lemma_credit(asset.minted(amount@), who, amount@);
                    }
                },
                Operation::Burn(i, who, amount) => {
                    if i == id && after != ledger && amount@ > 0 {
                        lemma_debit(asset.burned(amount@), who, amount@);
                    }
                },
                Operation::Transfer(i, source, dest, amount) => {
                    if i == id && after != ledger && amount@ > 0 && source != dest {
                        lemma_debit(asset, source, amount@);
                        lemma_credit(asset.debit(source, amount@), dest, amount@);
                    }
                },
                _ => {},
            }
        }
    }
}

/// Conservation of supply: where the supply of every asset is the sum of
/// its balances, it is so again after any operation.
pub proof fn law_operation_conserves_supply(ledger: Ledger, op: Operation)
    requires
        ledger.wf(),
        ledger.conserved(),
    ensures
        ledger.apply(op).conserved(),
{
    let after = ledger.apply(op);
    assert forall|id: AssetId| after.assets.contains_key(id) implies (
    #[trigger] after.assets[id]).conserved() by {
        if ledger.assets.contains_key(id) {
            let asset = ledger.assets[id];
            assert(asset.wf() && asset.conserved());
            match op {
                Operation::Issue(i, who, amount) => {
                    if i == id && after != ledger {
                        lemma_credit(asset.minted(amount@), who, amount@);
                    }
                },
                Operation::Burn(i, who, amount) => {
                    if i == id && after != ledger && amount@ > 0 {
                        lemma_debit(asset.burned(amount@), who, amount@);
                    }
                },
                Operation::Transfer(i, source, dest, amount) => {
                    if i == id && after != ledger && amount@ > 0 && source != dest {
                        lemma_debit(asset, source, amount@);
                        lemma_credit(asset.debit(source, amount@), dest, amount@);
                    }
                },
                _ => {},
            }
        } else {
            lemma_total_empty();
        }
    }
}

/// The count of holders: where the recorded count of every asset is the
/// number of accounts with a balance above zero, it is so again after any
/// operation.
pub proof fn law_operation_keeps_count(ledger: Ledger, op: Operation)
    requires
        ledger.wf(),
        ledger.counted(),
    ensures
        ledger.apply(op).counted(),
{
    let after = ledger.apply(op);
    assert forall|id: AssetId| after.assets.contains_key(id) implies (
    #[trigger] after.assets[id]).counted() by {
        if ledger.assets.contains_key(id) {
            let asset = ledger.assets[id];
            assert(asset.wf() && asset.counted());
            lemma_holders_finite(asset.balances);
            match op {
                Operation::Issue(i, who, amount) => {
                    if i == id && after != ledger {
                        lemma_credit(asset.minted(amount@), who, amount@);
                    }
                },
                Operation::Burn(i, who, amount) => {
                    if i == id && after != ledger && amount@ > 0 {
                        lemma_debit(asset.burned(amount@), who, amount@);
                    }
                },
                Operation::Transfer(i, source, dest, amount) => {
                    if i == id && after != ledger && amount@ > 0 && source != dest {
                        lemma_debit(asset, source, amount@);
                        lemma_credit(asset.debit(source, amount@), dest, amount@);
                    }
                },
                _ => {},
            }
        } else {
            assert(holders(AssetState::fresh().balances) =~= Set::empty());
        }
    }
}

/// No entry of zero: where no entry holds a balance of zero, none does
/// after any operation.
pub proof fn law_operation_keeps_entries_above_zero(ledger: Ledger, op: Operation)
    requires
        ledger.wf(),
        ledger.compact(),
    ensures
        ledger.apply(op).compact(),
{
    let after = ledger.apply(op);
    assert forall|id: AssetId| after.assets.contains_key(id) implies (
    #[trigger] after.assets[id]).compact() by {
        if ledger.assets.contains_key(id) {
            let asset = ledger.assets[id];
            assert(asset.wf() && asset.compact());
            match op {
                Operation::Issue(i, who, amount) => {
                    if i == id && after != ledger {
                        lemma_credit(asset.minted(amount@), who, amount@);
                    }
                },
                Operation::Burn(i, who, amount) => {
                    if i == id && after != ledger && amount@ > 0 {
                        lemma_debit(asset.burned(amount@), who, amount@);
                    }
                },
                Operation::Transfer(i, source, dest, amount) => {
                    if i == id && after != ledger && amount@ > 0 && source != dest {
                        lemma_debit(asset, source, amount@);
                        lemma_credit(asset.debit(source, amount@), dest, amount@);
                    }
                },
                _ => {},
            }
        }
    }
}

/// Each of the three properties that holds before an operation holds after it.
pub proof fn lemma_operation_keeps_invariants(ledger: Ledger, op: Operation)
    requires
        ledger.wf(),
    ensures
        ledger.apply(op).wf(),
        ledger.conserved() ==> ledger.apply(op).conserved(),
        ledger.counted() ==> ledger.apply(op).counted(),
        ledger.compact() ==> ledger.apply(op).compact(),
{
    lemma_apply_keeps_ranges(ledger, op);
    if ledger.conserved() {
        law_operation_conserves_supply(ledger, op);
    }
    if ledger.counted() {
        law_operation_keeps_count(ledger, op);
    }
    if ledger.compact() {
        law_operation_keeps_entries_above_zero(ledger, op);
    }
}

/// The empty ledger is within range, conserves supply, counts its holders
/// and has no entry of zero.
pub proof fn law_empty_ledger_is_sound(string_limit: nat)
    requires
        string_limit <= u32::MAX,
    ensures
        Ledger::empty(string_limit).wf(),
        Ledger::empty(string_limit).conserved(),
        Ledger::empty(string_limit).counted(),
        Ledger::empty(string_limit).compact(),
{
}

/// Any sequence of operations keeps every value within the range of its record.
pub proof fn lemma_run_keeps_ranges(start: Ledger, ops: Seq<Operation>)
    requires
        start.wf(),
    ensures
        start.run(ops).wf(),
    decreases ops.len(),
{
    if ops.len() > 0 {
        lemma_run_keeps_ranges(start, ops.drop_last());
        lemma_apply_keeps_ranges(start.run(ops.drop_last()), ops.last());
    }
}

/// For all sequences of operations, after each of them the supply of every
/// asset is the sum of the balances held of it.
pub proof fn law_supply_is_sum_of_balances(start: Ledger, ops: Seq<Operation>, done: int)
    requires
        start.wf(),
        start.conserved(),
        0 <= done <= ops.len(),
    ensures
        start.run(ops.take(done)).conserved(),
    decreases done,
{
    if done > 0 {
        law_supply_is_sum_of_balances(start, ops, done - 1);
        lemma_run_keeps_ranges(start, ops.take(done - 1));
        assert(ops.take(done).drop_last() =~= ops.take(done - 1));
        law_operation_conserves_supply(start.run(ops.take(done - 1)), ops.take(done).last());
    }
}

/// For all sequences of operations, after each of them the recorded count of
/// every asset is the number of accounts that hold a balance above zero.
pub proof fn law_count_is_number_of_holders(start: Ledger, ops: Seq<Operation>, done: int)
    requires
        start.wf(),
        start.counted(),
        0 <= done <= ops.len(),
    ensures
        start.run(ops.take(done)).counted(),
    decreases done,
{
    if done > 0 {
        law_count_is_number_of_holders(start, ops, done - 1);
        lemma_run_keeps_ranges(start, ops.take(done - 1));
        assert(ops.take(done).drop_last() =~= ops.take(done - 1));
        law_operation_keeps_count(start.run(ops.take(done - 1)), ops.take(done).last());
    }
}

/// For all sequences of operations, after each of them no entry holds a
/// balance of zero.
pub proof fn law_no_entry_is_zero(start: Ledger, ops: Seq<Operation>, done: int)
    requires
        start.wf(),
        start.compact(),
        0 <= done <= ops.len(),
    ensures
        start.run(ops.take(done)).compact(),
    decreases done,
{
    if done > 0 {
        law_no_entry_is_zero(start, ops, done - 1);
        lemma_run_keeps_ranges(start, ops.take(done - 1));
        assert(ops.take(done).drop_last() =~= ops.take(done - 1));
        law_operation_keeps_entries_above_zero(start.run(ops.take(done - 1)), ops.take(done).last());
    }
}

/// Issuing and then burning the same amount, where the account held nothing
/// before, leaves no entry for the account.
pub proof fn law_burning_to_zero_removes_entry(ledger: Ledger, id: AssetId, who: AccountId, amount: U256)
    requires
        ledger.wf(),
        ledger.balance(id, who) == 0,
        ledger.issue_result(id, who, amount@) is Ok,
        amount@ > 0,
    ensures
        ledger.issue(id, who, amount).burn_result(id, who, amount@) is Ok,
        !ledger.issue(id, who, amount).burn(id, who, amount).has_entry(id, who),
        ledger.issue(id, who, amount).burn(id, who, amount).balance(id, who) == 0,
        ledger.issue(id, who, amount).burn(id, who, amount).supply(id) == ledger.supply(id),
{
}

/// An operation on an amount of zero changes no supply and no balance, and
/// records its event: always for issuing and burning, and for transferring
/// where the asset is registered.
pub proof fn law_zero_amount_changes_nothing(
    ledger: Ledger,
    id: AssetId,
    who: AccountId,
    other: AccountId,
    amount: U256,
)
    requires
        amount@ == 0,
    ensures
        ledger.issue_result(id, who, amount@) is Ok,
        ledger.issue(id, who, amount) == ledger.with_event(Event::Issued(id, who, amount)),
        ledger.burn_result(id, who, amount@) is Ok,
        ledger.burn(id, who, amount) == ledger.with_event(Event::Burned(id, who, amount)),
        ledger.registered(id) ==> ledger.transfer_result(id, who, other, amount@) is Ok
            && ledger.transfer(id, who, other, amount) == ledger.with_event(
            Event::Transferred(id, who, other, amount),
        ),
        forall|event: Event, i: AssetId, a: AccountId| #[trigger]
            ledger.with_event(event).balance(i, a) == ledger.balance(i, a),
        forall|event: Event, i: AssetId| #[trigger]
            ledger.with_event(event).supply(i) == ledger.supply(i),
{
}

/// A transfer from an account to itself, of a registered asset, succeeds
/// whatever the amount, changes no supply and no balance, and records its event.
pub proof fn law_self_transfer_changes_nothing(ledger: Ledger, id: AssetId, who: AccountId, amount: U256)
    requires
        ledger.registered(id),
    ensures
        ledger.transfer_result(id, who, who, amount@) is Ok,
        ledger.transfer(id, who, who, amount) == ledger.with_event(
            Event::Transferred(id, who, who, amount),
        ),
        forall|i: AssetId, a: AccountId| #[trigger]
            ledger.transfer(id, who, who, amount).balance(i, a) == ledger.balance(i, a),
        forall|i: AssetId| #[trigger]
            ledger.transfer(id, who, who, amount).supply(i) == ledger.supply(i),
{
}

/// An operation that fails leaves the ledger as it was.
pub proof fn law_failure_changes_nothing(ledger: Ledger, op: Operation)
    ensures
        (op matches Operation::Create(id) && ledger.create_result(id) is Err) ==> ledger.apply(op)
            == ledger,
        (op matches Operation::Issue(id, who, amount) && ledger.issue_result(id, who, amount@) is Err)
            ==> ledger.apply(op) == ledger,
        (op matches Operation::Burn(id, who, amount) && ledger.burn_result(id, who, amount@) is Err)
            ==> ledger.apply(op) == ledger,
        (op matches Operation::Transfer(id, source, dest, amount) && ledger.transfer_result(
            id,
            source,
            dest,
            amount@,
        ) is Err) ==> ledger.apply(op) == ledger,
        (op matches Operation::SetMetadata(id, name, symbol, decimals) && ledger.set_metadata_result(
            id,
            name,
            symbol,
        ) is Err) ==> ledger.apply(op) == ledger,
{
}

/// Issuing, burning and transferring return no error but that of a verdict.
/// The count of holders is looked at before anything is written, so that the
/// overflow of the count never comes out of an operation.
pub proof fn law_count_overflow_never_surfaces(
    ledger: Ledger,
    id: AssetId,
    who: AccountId,
    other: AccountId,
    amount: nat,
)
    ensures
        ledger.issue_result(id, who, amount) is Err ==> ledger.issue_result(id, who, amount)->Err_0 is Token,
        ledger.burn_result(id, who, amount) is Err ==> ledger.burn_result(id, who, amount)->Err_0 is Token,
        ledger.transfer_result(id, who, other, amount) is Err ==> ledger.transfer_result(
            id,
            who,
            other,
            amount,
        )->Err_0 is Token,
{
}

/// A name or a symbol longer than the limit is refused with `BadMetadata`,
/// and the descriptive data already set stays as it was.
pub proof fn law_oversized_metadata_is_refused(
    ledger: Ledger,
    id: AssetId,
    name: Seq<u8>,
    symbol: Seq<u8>,
    decimals: u8,
)
    requires
        name.len() > ledger.string_limit || symbol.len() > ledger.string_limit,
    ensures
        ledger.set_metadata_result(id, name, symbol) == Err::<(), DispatchError>(
            DispatchError::Module(Error::BadMetadata),
        ),
        ledger.set_metadata(id, name, symbol, decimals) == ledger,
{
}

/// Where the recorded count of an asset is the number of its holders, no
/// admissible withdrawal meets a count of zero: the count never has to be
/// held at zero.
pub proof fn law_count_never_falls_below_zero(asset: AssetState, who: AccountId, amount: nat)
    requires
        asset.wf(),
        asset.counted(),
        amount > 0,
        asset.can_decrease(who, amount) == WithdrawConsequence::Success,
    ensures
        asset.accounts > 0,
{
    lemma_holders_finite(asset.balances);
    assert(holders(asset.balances).contains(who));
}

/// Where the supply of an asset is the sum of its balances, no account
/// holds more than the supply, so that a withdrawal within the account's
/// balance is never refused on account of the supply.
pub proof fn law_balance_within_supply(asset: AssetState, who: AccountId, amount: nat)
    requires
        asset.wf(),
        asset.conserved(),
    ensures
        asset.balance(who) <= asset.supply,
        amount <= asset.balance(who) ==> asset.can_decrease(who, amount)
            == WithdrawConsequence::Success,
        asset.can_increase(who, amount) == DepositConsequence::Success ==> asset.supply + amount
            <= crate::u256::max_u256(),
{
    crate::accounting::lemma_balance_within_total(asset.balances, who);
}

} // verus!
