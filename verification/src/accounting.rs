//! Sums and counts over the balances of one asset.
use vstd::prelude::*;

use crate::types::AccountId;

verus! {

/// The sum of all balances in `balances`.
pub open spec fn total(balances: Map<AccountId, nat>) -> nat
    decreases balances.dom().len(),
    when balances.dom().finite()
{
    if balances.dom().len() == 0 {
        0
    } else {
        let who = balances.dom().choose();
        balances[who] + total(balances.remove(who))
    }
}

/// The accounts whose balance in `balances` is above zero.
pub open spec fn holders(balances: Map<AccountId, nat>) -> Set<AccountId> {
    balances.dom().filter(|who: AccountId| balances[who] > 0)
}

/// The balance of `who` in `balances`: zero where there is no entry.
pub open spec fn balance_of(balances: Map<AccountId, nat>, who: AccountId) -> nat {
    if balances.contains_key(who) {
        balances[who]
    } else {
        0
    }
}

/// The sum of no balances is zero.
pub proof fn lemma_total_empty()
    ensures
        total(Map::<AccountId, nat>::empty()) == 0,
{
}

/// The sum is the balance of any one account plus the sum of the others.
pub proof fn lemma_total_remove(balances: Map<AccountId, nat>, who: AccountId)
    requires
        balances.dom().finite(),
    ensures
        total(balances) == balance_of(balances, who) + total(balances.remove(who)),
    decreases balances.dom().len(),
{
    if !balances.contains_key(who) {
        assert(balances.remove(who) =~= balances);
    } else {
        let first = balances.dom().choose();
        if first != who {
            lemma_total_remove(balances.remove(first), who);
            lemma_total_remove(balances.remove(who), first);
            assert(balances.remove(first).remove(who) =~= balances.remove(who).remove(first));
        }
    }
}

/// Setting one account's balance changes the sum by the difference.
pub proof fn lemma_total_insert(balances: Map<AccountId, nat>, who: AccountId, amount: nat)
    requires
        balances.dom().finite(),
    ensures
        total(balances.insert(who, amount)) + balance_of(balances, who) == total(balances) + amount,
{
    lemma_total_remove(balances, who);
    lemma_total_remove(balances.insert(who, amount), who);
    assert(balances.insert(who, amount).remove(who) =~= balances.remove(who));
}

/// No single balance exceeds the sum.
pub proof fn lemma_balance_within_total(balances: Map<AccountId, nat>, who: AccountId)
    requires
        balances.dom().finite(),
    ensures
        balance_of(balances, who) <= total(balances),
{
    lemma_total_remove(balances, who);
}

/// The holders of finitely many balances are finitely many.
pub proof fn lemma_holders_finite(balances: Map<AccountId, nat>)
    requires
        balances.dom().finite(),
    ensures
        holders(balances).finite(),
        holders(balances).len() <= balances.dom().len(),
{
    balances.dom().lemma_len_filter(|who: AccountId| balances[who] > 0);
}

/// Giving an account a balance above zero makes it a holder.
pub proof fn lemma_holders_insert(balances: Map<AccountId, nat>, who: AccountId, amount: nat)
    requires
        balances.dom().finite(),
        amount > 0,
    ensures
        holders(balances.insert(who, amount)) == holders(balances).insert(who),
        holders(balances.insert(who, amount)).len() == holders(balances).len() + (if balance_of(
            balances,
            who,
        ) == 0 {
            1nat
        } else {
            0nat
        }),
{
    lemma_holders_finite(balances);
    assert(holders(balances.insert(who, amount)) =~= holders(balances).insert(who));
}

/// Removing an account's entry takes it out of the holders.
pub proof fn lemma_holders_remove(balances: Map<AccountId, nat>, who: AccountId)
    requires
        balances.dom().finite(),
    ensures
        holders(balances.remove(who)) == holders(balances).remove(who),
        holders(balances.remove(who)).len() + (if balance_of(balances, who) == 0 {
            0nat
        } else {
            1nat
        }) == holders(balances).len(),
{
    lemma_holders_finite(balances);
    assert(holders(balances.remove(who)) =~= holders(balances).remove(who));
}

} // verus!
