//! The ledger engine: the store and the operations that change it.
//!
//! A [`Pallet`] owns every record. Each operation first asks whether the
//! change is admissible, without writing anything, and only then writes; an
//! operation that returns an error leaves the pallet as it was. Events and
//! the reference updates owed to whoever keeps accounts alive are recorded in
//! the pallet, in the order in which they arise, for the caller to hand on.
use std::collections::HashMap;
use vstd::prelude::*;

use crate::consequence::{DepositConsequence, WithdrawConsequence};
use crate::error::{DispatchError, DispatchResult, Error, TokenError};
use crate::laws::{lemma_operation_keeps_invariants, Operation};
use crate::ledger::{AssetState, Ledger};
use crate::types::{
    AccountId, AssetBalance, AssetDetails, AssetId, AssetMetadata, Event, MetadataView,
    ReferenceUpdate,
};
use crate::u256::{max_u256, U256};

verus! {

/// The balances of `entries` as natural numbers.
pub closed spec fn balances_view(entries: Map<AccountId, AssetBalance>) -> Map<AccountId, nat> {
    Map::new(|who: AccountId| entries.contains_key(who), |who: AccountId| entries[who].balance@)
}

/// Everything kept for one registered asset.
#[derive(Clone, Debug, PartialEq)]
struct AssetRecord {
    details: AssetDetails,
    accounts: HashMap<AccountId, AssetBalance>,
}

impl View for AssetRecord {
    type V = AssetState;

    closed spec fn view(&self) -> AssetState {
        AssetState {
            supply: self.details.supply@,
            accounts: self.details.accounts as nat,
            balances: balances_view(self.accounts@),
        }
    }
}

/// The records of `records` as asset states.
closed spec fn assets_view(records: Map<AssetId, AssetRecord>) -> Map<AssetId, AssetState> {
    Map::new(|id: AssetId| records.contains_key(id), |id: AssetId| records[id]@)
}

/// The descriptive data of `entries` as mathematical values.
closed spec fn metadata_view(entries: Map<AssetId, AssetMetadata>) -> Map<AssetId, MetadataView> {
    Map::new(|id: AssetId| entries.contains_key(id), |id: AssetId| entries[id]@)
}

/// The ledger's store.
#[derive(Clone, Debug, PartialEq)]
pub struct Pallet {
    string_limit: u32,
    asset: HashMap<AssetId, AssetRecord>,
    metadata: HashMap<AssetId, AssetMetadata>,
    events: Vec<Event>,
    references: Vec<ReferenceUpdate>,
}

impl View for Pallet {
    type V = Ledger;

    closed spec fn view(&self) -> Ledger {
        Ledger {
            string_limit: self.string_limit as nat,
            assets: assets_view(self.asset@),
            metadata: metadata_view(self.metadata@),
            events: self.events@,
            references: self.references@,
        }
    }
}

/// The balance of `who` in `record`.
fn record_balance(record: &AssetRecord, who: &AccountId) -> (r: U256)
    ensures
        r@ == record@.balance(*who),
        record.accounts@.contains_key(*who) ==> r == record.accounts@[*who].balance,
{
    match record.accounts.get(who) {
        Some(entry) => entry.balance,
        None => U256::zero(),
    }
}

impl Pallet {
    /// What the pallet's store holds is within the ranges of the model.
    pub proof fn lemma_view_wf(&self)
        ensures
            self@.wf(),
    {
        assert forall|id: AssetId| self@.assets.contains_key(id) implies (
        #[trigger] self@.assets[id]).wf() by {
            let record = self.asset@[id];
            assert(balances_view(record.accounts@).dom() =~= record.accounts@.dom());
        }
    }

    /// An empty ledger that accepts names and symbols of up to `string_limit` bytes.
    pub fn new(string_limit: u32) -> (r: Pallet)
        ensures
            r@ == Ledger::empty(string_limit as nat),
            r@.conserved(),
            r@.counted(),
            r@.compact(),
    {
        let r = Pallet {
            string_limit,
            asset: HashMap::new(),
            metadata: HashMap::new(),
            events: Vec::new(),
            references: Vec::new(),
        };
        assert(r@.assets =~= Map::empty());
        assert(r@.metadata =~= Map::empty());
        r
    }

    /// The longest name or symbol that is accepted.
    pub fn string_limit(&self) -> (r: u32)
        ensures
            r == self@.string_limit,
    {
        self.string_limit
    }

    /// Whether an asset is registered under `id`.
    pub fn is_registered(&self, id: AssetId) -> (r: bool)
        ensures
            r == self@.registered(id),
    {
        self.asset.contains_key(&id)
    }

    /// The details of asset `id`, where one is registered.
    pub fn details(&self, id: AssetId) -> (r: Option<AssetDetails>)
        ensures
            r is Some == self@.registered(id),
            r matches Some(d) ==> d.supply@ == self@.supply(id) && d.accounts == self@.accounts(id),
    {
        match self.asset.get(&id) {
            Some(record) => Some(record.details),
            None => None,
        }
    }

    /// Whether an entry is kept for the balance that `who` holds of asset `id`.
    pub fn has_account(&self, id: AssetId, who: &AccountId) -> (r: bool)
        ensures
            r == self@.has_entry(id, *who),
    {
        match self.asset.get(&id) {
            Some(record) => record.accounts.contains_key(who),
            None => false,
        }
    }

    /// The number of balance entries kept for asset `id`.
    pub fn account_entries(&self, id: AssetId) -> (r: usize)
        ensures
            r == self@.entries(id),
    {
        match self.asset.get(&id) {
            Some(record) => {
                proof {
                    assert(balances_view(record.accounts@).dom() =~= record.accounts@.dom());
                }
                record.accounts.len()
            },
            None => 0,
        }
    }

    /// The descriptive data of asset `id`, where some was set.
    pub fn metadata(&self, id: AssetId) -> (r: Option<&AssetMetadata>)
        ensures
            r is Some == self@.metadata.contains_key(id),
            r matches Some(m) ==> m@ == self@.metadata[id],
    {
        self.metadata.get(&id)
    }

    /// The events recorded so far, oldest first.
    pub fn events(&self) -> (r: &Vec<Event>)
        ensures
            r@ == self@.events,
    {
        &self.events
    }

    /// The reference updates owed so far, oldest first.
    pub fn references(&self) -> (r: &Vec<ReferenceUpdate>)
        ensures
            r@ == self@.references,
    {
        &self.references
    }

    /// Hands out the recorded events and forgets them.
    pub fn take_events(&mut self) -> (r: Vec<Event>)
        ensures
            r@ == old(self)@.events,
            final(self)@ == (Ledger { events: Seq::empty(), ..old(self)@ }),
    {
        let mut taken: Vec<Event> = Vec::new();
        std::mem::swap(&mut self.events, &mut taken);
        taken
    }

    /// Hands out the reference updates owed and forgets them.
    pub fn take_references(&mut self) -> (r: Vec<ReferenceUpdate>)
        ensures
            r@ == old(self)@.references,
            final(self)@ == (Ledger { references: Seq::empty(), ..old(self)@ }),
    {
        let mut taken: Vec<ReferenceUpdate> = Vec::new();
        std::mem::swap(&mut self.references, &mut taken);
        taken
    }

    /// The balance that `who` holds of asset `id`: zero where there is no entry.
    pub fn balance(&self, id: AssetId, who: &AccountId) -> (r: U256)
        ensures
            r@ == self@.balance(id, *who),
    {
        match self.asset.get(&id) {
            Some(record) => record_balance(record, who),
            None => U256::zero(),
        }
    }

    /// The supply of asset `id`: zero where none is registered.
    pub fn supply(&self, id: AssetId) -> (r: U256)
        ensures
            r@ == self@.supply(id),
    {
        match self.asset.get(&id) {
            Some(record) => record.details.supply,
            None => U256::zero(),
        }
    }

    /// Registers an asset under `id`, with no supply and no holders.
    ///
    /// Fails with `InUse`, changing nothing, where one is registered already.
    pub fn do_create(&mut self, id: AssetId) -> (r: DispatchResult)
        ensures
            r == old(self)@.create_result(id),
            final(self)@ == old(self)@.create(id),
            r is Ok <==> !old(self)@.registered(id),
            old(self)@.conserved() ==> final(self)@.conserved(),
            old(self)@.counted() ==> final(self)@.counted(),
            old(self)@.compact() ==> final(self)@.compact(),
    {
        proof {
            self.lemma_view_wf();
            lemma_operation_keeps_invariants(self@, Operation::Create(id));
        }
        if self.asset.contains_key(&id) {
            return Err(DispatchError::Module(Error::InUse));
        }
        let record = AssetRecord {
            details: AssetDetails { supply: U256::zero(), accounts: 0 },
            accounts: HashMap::new(),
        };
        proof {
            assert(record@.balances =~= Map::empty());
            assert(record@ =~= AssetState::fresh());
        }
        self.asset.insert(id, record);
        proof {
            assert(final(self)@.assets =~= old(self)@.assets.insert(id, AssetState::fresh()));
        }
        Ok(())
    }

    /// Sets the supply of asset `id` and nothing else.
    ///
    /// Fails with `UnknownAsset`, changing nothing, where none is registered.
    pub fn set_total_issuance(&mut self, id: AssetId, amount: U256) -> (r: DispatchResult)
        ensures
            r == (if old(self)@.registered(id) {
                Ok::<(), DispatchError>(())
            } else {
                Err(DispatchError::Token(TokenError::UnknownAsset))
            }),
            final(self)@ == old(self)@.with_supply(id, amount@),
    {
        match self.asset.remove(&id) {
            None => {
                proof {
                    assert(final(self)@.assets =~= old(self)@.assets);
                }
                Err(DispatchError::Token(TokenError::UnknownAsset))
            },
            Some(record) => {
                let ghost before = record@;
                let mut record = record;
                record.details.supply = amount;
                proof {
                    assert(record@ =~= AssetState { supply: amount@, ..before });
                }
                self.asset.insert(id, record);
                proof {
                    assert(final(self)@.assets =~= old(self)@.assets.insert(
                        id,
                        AssetState { supply: amount@, ..old(self)@.assets[id] },
                    ));
                }
                Ok(())
            },
        }
    }

    /// Counts `who` among the holders of the asset that `details` belongs to,
    /// and records the reference update owed for it.
    ///
    /// Fails with `Overflow`, changing nothing, where the count is at its
    /// largest already.
    pub fn new_account(&mut self, who: &AccountId, details: &mut AssetDetails) -> (r: DispatchResult)
        ensures
            r is Ok <==> old(details).accounts < u32::MAX,
            r is Err ==> r == Err::<(), DispatchError>(DispatchError::Module(Error::Overflow))
                && *final(details) == *old(details) && final(self)@ == old(self)@,
            r is Ok ==> final(details).accounts == old(details).accounts + 1
                && final(details).supply == old(details).supply
                && final(self)@ == (Ledger {
                    references: old(self)@.references.push(ReferenceUpdate::Increment(*who)),
                    ..old(self)@
                }),
    {
        match details.accounts.checked_add(1) {
            None => Err(DispatchError::Module(Error::Overflow)),
            Some(accounts) => {
                details.accounts = accounts;
                self.references.push(ReferenceUpdate::Increment(*who));
                Ok(())
            },
        }
    }

    /// Takes `who` from the count of holders of the asset that `details`
    /// belongs to, and records the reference update owed for it. A count of
    /// zero stays at zero.
    pub fn dead_account(&mut self, who: &AccountId, details: &mut AssetDetails) -> (r: DispatchResult)
        ensures
            r is Ok,
            final(details).accounts == (if old(details).accounts > 0 {
                (old(details).accounts - 1) as u32
            } else {
                0u32
            }),
            final(details).supply == old(details).supply,
            final(self)@ == (Ledger {
                references: old(self)@.references.push(ReferenceUpdate::Decrement(*who)),
                ..old(self)@
            }),
    {
        details.accounts = details.accounts.saturating_sub(1);
        self.references.push(ReferenceUpdate::Decrement(*who));
        Ok(())
    }

    /// The verdict on depositing `amount` of asset `id` with `who`. Nothing
    /// is changed.
    ///
    /// `UnknownAsset` where no asset is registered; `Overflow` where the
    /// supply, the count of holders (for an account that holds nothing yet)
    /// or the balance would exceed its range; `Success` otherwise.
    pub fn can_increase(&self, id: AssetId, who: &AccountId, amount: U256) -> (r: DepositConsequence)
        ensures
            r == self@.can_increase(id, *who, amount@),
    {
        match self.asset.get(&id) {
            None => DepositConsequence::UnknownAsset,
            Some(record) => {
                if record.details.supply.checked_add(amount).is_none() {
                    return DepositConsequence::Overflow;
                }
                let balance = record_balance(record, who);
                if balance.is_zero() {
                    if record.details.accounts.checked_add(1).is_none() {
                        return DepositConsequence::Overflow;
                    }
                }
                if balance.checked_add(amount).is_none() {
                    return DepositConsequence::Overflow;
                }
                DepositConsequence::Success
            },
        }
    }

    /// The verdict on withdrawing `amount` of asset `id` from `who`. Nothing
    /// is changed.
    ///
    /// `UnknownAsset` where no asset is registered; `Underflow` where the
    /// amount exceeds the supply; `NoFunds` where it exceeds the balance;
    /// `Success` otherwise.
    pub fn can_decrease(&self, id: AssetId, who: &AccountId, amount: U256) -> (r: WithdrawConsequence)
        ensures
            r == self@.can_decrease(id, *who, amount@),
    {
        match self.asset.get(&id) {
            None => WithdrawConsequence::UnknownAsset,
            Some(record) => {
                if record.details.supply.checked_sub(amount).is_none() {
                    return WithdrawConsequence::Underflow;
                }
                let balance = record_balance(record, who);
                if balance.checked_sub(amount).is_none() {
                    WithdrawConsequence::NoFunds
                } else {
                    WithdrawConsequence::Success
                }
            },
        }
    }
}

/// Stores `balance` as what `who` holds in `record`.
fn set_balance(record: &mut AssetRecord, who: AccountId, balance: U256)
    ensures
        final(record)@ == (AssetState {
            balances: old(record)@.balances.insert(who, balance@),
            ..old(record)@
        }),
{
    record.accounts.insert(who, AssetBalance { balance });
    proof {
        assert(final(record)@.balances =~= old(record)@.balances.insert(who, balance@));
    }
}

/// Removes the entry of `who` from `record`.
fn remove_balance(record: &mut AssetRecord, who: &AccountId)
    ensures
        final(record)@ == (AssetState {
            balances: old(record)@.balances.remove(*who),
            ..old(record)@
        }),
{
    record.accounts.remove(who);
    proof {
        assert(final(record)@.balances =~= old(record)@.balances.remove(*who));
    }
}

impl Pallet {
    /// The details and the balances of `who` and `other` for a registered asset.
    fn read(&self, id: AssetId, who: &AccountId, other: &AccountId) -> (r: (AssetDetails, U256, U256))
        requires
            self@.registered(id),
        ensures
            self@.details_are(id, r.0),
            self@.assets[id].with_details(r.0) == self@.assets[id],
            r.1@ == self@.balance(id, *who),
            r.2@ == self@.balance(id, *other),
    {
        match self.asset.get(&id) {
            Some(record) => {
                proof {
                    assert(record@.with_details(record.details) =~= record@);
                }
                (record.details, record_balance(record, who), record_balance(record, other))
            },
            None => (AssetDetails { supply: U256::zero(), accounts: 0 }, U256::zero(), U256::zero()),
        }
    }

    /// Takes the record of a registered asset out of the store.
    fn take_record(&mut self, id: AssetId) -> (r: AssetRecord)
        requires
            old(self)@.registered(id),
        ensures
            r@ == old(self)@.assets[id],
            final(self)@ == (Ledger { assets: old(self)@.assets.remove(id), ..old(self)@ }),
    {
        match self.asset.remove(&id) {
            Some(record) => {
                proof {
                    assert(final(self)@.assets =~= old(self)@.assets.remove(id));
                }
                record
            },
            None => AssetRecord {
                details: AssetDetails { supply: U256::zero(), accounts: 0 },
                accounts: HashMap::new(),
            },
        }
    }

    /// Puts `record` into the store as the record of asset `id`.
    fn put_record(&mut self, id: AssetId, record: AssetRecord)
        ensures
            final(self)@ == (Ledger { assets: old(self)@.assets.insert(id, record@), ..old(self)@ }),
    {
        self.asset.insert(id, record);
        proof {
            assert(final(self)@.assets =~= old(self)@.assets.insert(id, record@));
        }
    }

    /// Adds `amount` to what `who` holds of asset `id`, after `check` has
    /// looked over the asset's details and possibly changed them.
    ///
    /// Nothing happens for an amount of zero. Otherwise the deposit must be
    /// admissible (see [`Pallet::can_increase`]); then `check` is applied to
    /// the asset's details; then `who` is counted among the holders if it
    /// held nothing, and its balance rises. Whenever an error is returned,
    /// from the verdict, from `check` or from the count, nothing has changed.
    pub fn increase_balance<F>(&mut self, id: AssetId, who: &AccountId, amount: U256, check: F) -> (r:
        DispatchResult) where F: FnOnce(AssetDetails) -> Result<AssetDetails, DispatchError>
        requires
            forall|details: AssetDetails| check.requires((details,)),
        ensures
            amount@ == 0 ==> r is Ok && final(self)@ == old(self)@,
            amount@ > 0 && old(self)@.can_increase(id, *who, amount@).result() is Err ==> r == Err::<
                (),
                DispatchError,
            >(DispatchError::Token(old(self)@.can_increase(id, *who, amount@).result()->Err_0))
                && final(self)@ == old(self)@,
            amount@ > 0 && old(self)@.can_increase(id, *who, amount@).result() is Ok ==> exists|
                before: AssetDetails,
                checked: Result<AssetDetails, DispatchError>,
            |
                {
                    &&& old(self)@.details_are(id, before)
                    &&& #[trigger] check.ensures((before,), checked)
                    &&& r == old(self)@.credit_result(id, *who, checked)
                    &&& final(self)@ == old(self)@.credit_checked(id, *who, amount@, checked)
                },
    {
        if amount.is_zero() {
            return Ok(());
        }
        match self.can_increase(id, who, amount).into_result() {
            Err(e) => {
                return Err(DispatchError::Token(e));
            },
            Ok(()) => {},
        }
        let (before, balance, _) = self.read(id, who, who);
        let checked = check(before);
        let mut details = match checked {
            Ok(details) => details,
            Err(e) => {
                return Err(e);
            },
        };
        let ghost hooked = details;
        if balance.is_zero() {
            match self.new_account(who, &mut details) {
                Ok(()) => {},
                Err(e) => {
                    return Err(e);
                },
            }
        }
        let balance = balance.saturating_add(amount);
        let mut record = self.take_record(id);
        record.details = details;
        set_balance(&mut record, *who, balance);
        self.put_record(id, record);
        proof {
            let state = old(self)@.assets[id].with_details(hooked);
            assert(record@ =~= state.credit(*who, amount@));
            assert(final(self)@.references =~= old(self)@.references + state.credit_references(*who));
            assert(final(self)@.assets =~= old(self)@.assets.insert(id, state.credit(*who, amount@)));
            assert(final(self)@ =~= old(self)@.credited(id, *who, amount@, hooked));
        }
        Ok(())
    }

    /// Takes `amount` from what `who` holds of asset `id`, after `check` has
    /// looked over the asset's details and possibly changed them.
    ///
    /// Nothing happens for an amount of zero. Otherwise the withdrawal must
    /// be admissible (see [`Pallet::can_decrease`]); then `check` is applied
    /// to the asset's details; then the balance falls, and where nothing is
    /// left the entry is removed and `who` leaves the count of holders.
    /// Whenever an error is returned, nothing has changed.
    pub fn decrease_balance<F>(&mut self, id: AssetId, who: &AccountId, amount: U256, check: F) -> (r:
        DispatchResult) where F: FnOnce(AssetDetails) -> Result<AssetDetails, DispatchError>
        requires
            forall|details: AssetDetails| check.requires((details,)),
        ensures
            amount@ == 0 ==> r is Ok && final(self)@ == old(self)@,
            amount@ > 0 && old(self)@.can_decrease(id, *who, amount@).result() is Err ==> r == Err::<
                (),
                DispatchError,
            >(DispatchError::Token(old(self)@.can_decrease(id, *who, amount@).result()->Err_0))
                && final(self)@ == old(self)@,
            amount@ > 0 && old(self)@.can_decrease(id, *who, amount@).result() is Ok ==> exists|
                before: AssetDetails,
                checked: Result<AssetDetails, DispatchError>,
            |
                {
                    &&& old(self)@.details_are(id, before)
                    &&& #[trigger] check.ensures((before,), checked)
                    &&& r == (match checked {
                        Ok(_) => Ok::<(), DispatchError>(()),
                        Err(e) => Err(e),
                    })
                    &&& final(self)@ == old(self)@.debit_checked(id, *who, amount@, checked)
                },
    {
        if amount.is_zero() {
            return Ok(());
        }
        match self.can_decrease(id, who, amount).into_result() {
            Err(e) => {
                return Err(DispatchError::Token(e));
            },
            Ok(_) => {},
        }
        let (before, balance, _) = self.read(id, who, who);
        let checked = check(before);
        let mut details = match checked {
            Ok(details) => details,
            Err(e) => {
                return Err(e);
            },
        };
        let ghost hooked = details;
        let balance = balance.saturating_sub(amount);
        if balance.is_zero() {
            match self.dead_account(who, &mut details) {
                Ok(()) => {},
                Err(e) => {
                    return Err(e);
                },
            }
        }
        let mut record = self.take_record(id);
        record.details = details;
        if balance.is_zero() {
            remove_balance(&mut record, who);
        } else {
            set_balance(&mut record, *who, balance);
        }
        self.put_record(id, record);
        proof {
            let state = old(self)@.assets[id].with_details(hooked);
            assert(record@ =~= state.debit(*who, amount@));
            assert(final(self)@.references =~= old(self)@.references + state.debit_references(
                *who,
                amount@,
            ));
            assert(final(self)@.assets =~= old(self)@.assets.insert(id, state.debit(*who, amount@)));
            assert(final(self)@ =~= old(self)@.debited(id, *who, amount@, hooked));
        }
        Ok(())
    }

    /// Issues `amount` of asset `id` to `who`.
    ///
    /// An amount of zero changes no balance and succeeds. Otherwise the
    /// deposit must be admissible: the error of the verdict is returned and
    /// nothing changes where it is not. On success the supply and the balance
    /// of `who` have risen by `amount`. An `Issued` event is recorded.
    pub fn do_issue(&mut self, id: AssetId, who: &AccountId, amount: U256) -> (r: DispatchResult)
        ensures
            r == old(self)@.issue_result(id, *who, amount@),
            final(self)@ == old(self)@.issue(id, *who, amount),
            r is Err ==> final(self)@ == old(self)@,
            old(self)@.conserved() ==> final(self)@.conserved(),
            old(self)@.counted() ==> final(self)@.counted(),
            old(self)@.compact() ==> final(self)@.compact(),
    {
        proof {
            self.lemma_view_wf();
            lemma_operation_keeps_invariants(self@, Operation::Issue(id, *who, amount));
        }
        let raise = |details: AssetDetails| -> (o: Result<AssetDetails, DispatchError>)
            ensures
                o is Ok,
                o->Ok_0.accounts == details.accounts,
                o->Ok_0.supply@ == (if details.supply@ + amount@ <= max_u256() {
                    details.supply@ + amount@
                } else {
                    max_u256()
                }),
            {
                Ok(
                    AssetDetails {
                        supply: details.supply.saturating_add(amount),
                        accounts: details.accounts,
                    },
                )
            };
        match self.increase_balance(id, who, amount, raise) {
            Err(e) => Err(e),
            Ok(()) => {
                self.events.push(Event::Issued(id, *who, amount));
                proof {
                    if amount@ > 0 {
                        let asset = old(self)@.assets[id];
                        let (before, checked) = choose|
                            before: AssetDetails,
                            checked: Result<AssetDetails, DispatchError>,
                        |
                            {
                                &&& old(self)@.details_are(id, before)
                                &&& #[trigger] raise.ensures((before,), checked)
                                &&& Ok::<(), DispatchError>(()) == old(self)@.credit_result(
                                    id,
                                    *who,
                                    checked,
                                )
                            };
                        assert(asset.with_details(checked->Ok_0) =~= asset.minted(amount@));
                        assert(final(self)@ =~= old(self)@.issue(id, *who, amount));
                    } else {
                        assert(final(self)@ =~= old(self)@.issue(id, *who, amount));
                    }
                }
                Ok(())
            },
        }
    }
}

impl Pallet {
    /// Burns `amount` of asset `id` held by `who`.
    ///
    /// An amount of zero changes no balance and succeeds. Otherwise the
    /// withdrawal must be admissible: the error of the verdict is returned
    /// and nothing changes where it is not. On success the supply and the
    /// balance of `who` have fallen by `amount`, and an entry left with
    /// nothing is removed. A `Burned` event is recorded.
    pub fn do_burn(&mut self, id: AssetId, who: &AccountId, amount: U256) -> (r: DispatchResult)
        ensures
            r == old(self)@.burn_result(id, *who, amount@),
            final(self)@ == old(self)@.burn(id, *who, amount),
            r is Err ==> final(self)@ == old(self)@,
            old(self)@.conserved() ==> final(self)@.conserved(),
            old(self)@.counted() ==> final(self)@.counted(),
            old(self)@.compact() ==> final(self)@.compact(),
    {
        proof {
            self.lemma_view_wf();
            lemma_operation_keeps_invariants(self@, Operation::Burn(id, *who, amount));
        }
        let lower = |details: AssetDetails| -> (o: Result<AssetDetails, DispatchError>)
            ensures
                o is Ok,
                o->Ok_0.accounts == details.accounts,
                o->Ok_0.supply@ == (if details.supply@ >= amount@ {
                    details.supply@ - amount@
                } else {
                    0
                }),
            {
                Ok(
                    AssetDetails {
                        supply: details.supply.saturating_sub(amount),
                        accounts: details.accounts,
                    },
                )
            };
        match self.decrease_balance(id, who, amount, lower) {
            Err(e) => Err(e),
            Ok(()) => {
                self.events.push(Event::Burned(id, *who, amount));
                proof {
                    if amount@ > 0 {
                        let asset = old(self)@.assets[id];
                        let (before, checked) = choose|
                            before: AssetDetails,
                            checked: Result<AssetDetails, DispatchError>,
                        |
                            {
                                &&& old(self)@.details_are(id, before)
                                &&& #[trigger] lower.ensures((before,), checked)
                                &&& checked is Ok
                            };
                        assert(asset.with_details(checked->Ok_0) =~= asset.burned(amount@));
                        assert(final(self)@ =~= old(self)@.burn(id, *who, amount));
                    } else {
                        assert(final(self)@ =~= old(self)@.burn(id, *who, amount));
                    }
                }
                Ok(())
            },
        }
    }

    /// Transfers `amount` of asset `id` from `source` to `dest`.
    ///
    /// Fails with `UnknownAsset` where no asset is registered. An amount of
    /// zero, or a transfer from an account to itself, changes no balance and
    /// succeeds. Otherwise the withdrawal from `source` and then the deposit
    /// with `dest` must both be admissible: the first error is returned and
    /// nothing changes where one is not. On success `source` is debited, its
    /// entry going where nothing is left, and `dest` is credited; the supply
    /// stays. Whenever the transfer succeeds a `Transferred` event is recorded.
    pub fn do_transfer(&mut self, id: AssetId, source: &AccountId, dest: &AccountId, amount: U256) -> (r:
        DispatchResult)
        ensures
            r == old(self)@.transfer_result(id, *source, *dest, amount@),
            final(self)@ == old(self)@.transfer(id, *source, *dest, amount),
            r is Err ==> final(self)@ == old(self)@,
            old(self)@.conserved() ==> final(self)@.conserved(),
            old(self)@.counted() ==> final(self)@.counted(),
            old(self)@.compact() ==> final(self)@.compact(),
    {
        proof {
            self.lemma_view_wf();
            lemma_operation_keeps_invariants(self@, Operation::Transfer(id, *source, *dest, amount));
        }
        if !self.asset.contains_key(&id) {
            return Err(DispatchError::Token(TokenError::UnknownAsset));
        }
        if amount.is_zero() {
            self.events.push(Event::Transferred(id, *source, *dest, amount));
            return Ok(());
        }
        if *source != *dest {
            match self.can_decrease(id, source, amount).into_result() {
                Err(e) => {
                    return Err(DispatchError::Token(e));
                },
                Ok(_) => {},
            }
            match self.can_increase(id, dest, amount).into_result() {
                Err(e) => {
                    return Err(DispatchError::Token(e));
                },
                Ok(()) => {},
            }
            let (before, source_balance, dest_balance) = self.read(id, source, dest);
            let mut details = before;
            let source_balance = source_balance.saturating_sub(amount);
            if source_balance.is_zero() {
                match self.dead_account(source, &mut details) {
                    Ok(()) => {},
                    Err(e) => {
                        return Err(e);
                    },
                }
            }
            if dest_balance.is_zero() {
                match self.new_account(dest, &mut details) {
                    Ok(()) => {},
                    Err(e) => {
                        return Err(e);
                    },
                }
            }
            let dest_balance = dest_balance.saturating_add(amount);
            let mut record = self.take_record(id);
            record.details = details;
            if source_balance.is_zero() {
                remove_balance(&mut record, source);
            } else {
                set_balance(&mut record, *source, source_balance);
            }
            set_balance(&mut record, *dest, dest_balance);
            self.put_record(id, record);
            proof {
                let asset = old(self)@.assets[id];
                assert(record@ =~= asset.debit(*source, amount@).credit(*dest, amount@));
                assert(self@.references =~= old(self)@.references + asset.debit_references(
                    *source,
                    amount@,
                ) + asset.credit_references(*dest));
                assert(self@.assets =~= old(self)@.assets.insert(
                    id,
                    asset.debit(*source, amount@).credit(*dest, amount@),
                ));
            }
        }
        self.events.push(Event::Transferred(id, *source, *dest, amount));
        proof {
            assert(final(self)@ =~= old(self)@.transfer(id, *source, *dest, amount));
        }
        Ok(())
    }

    /// Transfers `amount` of asset `id` from `who`, the caller on whose
    /// behalf the ledger acts, to `dest`. See [`Pallet::do_transfer`].
    pub fn transfer(&mut self, who: &AccountId, id: AssetId, dest: &AccountId, amount: U256) -> (r:
        DispatchResult)
        ensures
            r == old(self)@.transfer_result(id, *who, *dest, amount@),
            final(self)@ == old(self)@.transfer(id, *who, *dest, amount),
            r is Err ==> final(self)@ == old(self)@,
            old(self)@.conserved() ==> final(self)@.conserved(),
            old(self)@.counted() ==> final(self)@.counted(),
            old(self)@.compact() ==> final(self)@.compact(),
    {
        self.do_transfer(id, who, dest, amount)
    }

    /// Sets the descriptive data of asset `id`, replacing what was there.
    ///
    /// Fails with `BadMetadata` where the name or the symbol is longer than
    /// the ledger's limit, and otherwise with `UnknownAsset` where no asset is
    /// registered; nothing changes then. On success a `MetadataSet` event is
    /// recorded.
    pub fn set_metadata(&mut self, id: AssetId, name: Vec<u8>, symbol: Vec<u8>, decimals: u8) -> (r:
        DispatchResult)
        ensures
            r == old(self)@.set_metadata_result(id, name@, symbol@),
            final(self)@ == old(self)@.set_metadata(id, name@, symbol@, decimals),
            r is Err ==> final(self)@ == old(self)@,
            old(self)@.conserved() ==> final(self)@.conserved(),
            old(self)@.counted() ==> final(self)@.counted(),
            old(self)@.compact() ==> final(self)@.compact(),
    {
        proof {
            self.lemma_view_wf();
            lemma_operation_keeps_invariants(
                self@,
                Operation::SetMetadata(id, name@, symbol@, decimals),
            );
        }
        let limit = self.string_limit as usize;
        if name.len() > limit || symbol.len() > limit {
            return Err(DispatchError::Module(Error::BadMetadata));
        }
        if !self.asset.contains_key(&id) {
            return Err(DispatchError::Token(TokenError::UnknownAsset));
        }
        let ghost entry = MetadataView { name: name@, symbol: symbol@, decimals };
        self.metadata.insert(id, AssetMetadata { name, symbol, decimals });
        self.events.push(Event::MetadataSet(id));
        proof {
            assert(final(self)@.metadata =~= old(self)@.metadata.insert(id, entry));
            assert(final(self)@ =~= old(self)@.set_metadata(id, name@, symbol@, decimals));
        }
        Ok(())
    }
}

} // verus!
