use artemis_assets::pallet::Pallet;
use artemis_assets::{
    AssetDetails, DepositConsequence, DispatchError, Error, Event, ReferenceUpdate, TokenError,
    WithdrawConsequence, U256,
};

fn ledger_with_asset() -> Pallet {
    let mut assets = Pallet::new(50);
    assert_eq!(assets.do_create(0), Ok(()));
    assets
}

fn sum_of_balances(assets: &Pallet, id: u32, accounts: &[u64]) -> U256 {
    let mut low: u128 = 0;
    for who in accounts {
        let balance = assets.balance(id, who);
        assert_eq!((balance.2, balance.3), (0, 0));
        low += (balance.0 as u128) + ((balance.1 as u128) << 64);
    }
    U256(low as u64, (low >> 64) as u64, 0, 0)
}

fn holders(assets: &Pallet, id: u32, accounts: &[u64]) -> u32 {
    let mut count = 0;
    for who in accounts {
        if !assets.balance(id, who).is_zero() {
            count += 1;
        }
    }
    count
}

#[test]
fn new_ledger_is_empty() {
    let assets = Pallet::new(7);
    assert_eq!(assets.string_limit(), 7);
    assert!(!assets.is_registered(0));
    assert_eq!(assets.details(0), None);
    assert_eq!(assets.supply(0), U256::zero());
    assert_eq!(assets.balance(0, &1), U256::zero());
    assert_eq!(assets.account_entries(0), 0);
    assert!(!assets.has_account(0, &1));
    assert!(assets.metadata(0).is_none());
    assert!(assets.events().is_empty());
    assert!(assets.references().is_empty());
}

#[test]
fn created_asset_has_no_supply_and_no_holders() {
    let assets = ledger_with_asset();
    assert_eq!(assets.details(0), Some(AssetDetails { supply: U256::zero(), accounts: 0 }));
    assert!(assets.events().is_empty());
}

#[test]
fn supply_is_sum_of_balances_after_each_operation() {
    let accounts = [1u64, 2, 3, 4];
    let mut assets = ledger_with_asset();
    assert_eq!(assets.do_create(7), Ok(()));
    let steps: Vec<Box<dyn Fn(&mut Pallet)>> = vec![
        Box::new(|a| assert_eq!(a.do_issue(0, &1, 500.into()), Ok(()))),
        Box::new(|a| assert_eq!(a.do_issue(0, &2, 70.into()), Ok(()))),
        Box::new(|a| assert_eq!(a.do_issue(7, &2, 9.into()), Ok(()))),
        Box::new(|a| assert_eq!(a.do_transfer(0, &1, &3, 120.into()), Ok(()))),
        Box::new(|a| assert_eq!(a.do_burn(0, &2, 70.into()), Ok(()))),
        Box::new(|a| assert!(a.do_burn(0, &2, 1.into()).is_err())),
        Box::new(|a| assert_eq!(a.do_transfer(0, &3, &4, 120.into()), Ok(()))),
        Box::new(|a| assert_eq!(a.do_transfer(0, &4, &4, 5.into()), Ok(()))),
        Box::new(|a| assert_eq!(a.do_burn(0, &1, 380.into()), Ok(()))),
        Box::new(|a| assert!(a.do_transfer(0, &1, &2, 1.into()).is_err())),
    ];
    for step in steps {
        step(&mut assets);
        for id in [0u32, 7] {
            assert_eq!(assets.supply(id), sum_of_balances(&assets, id, &accounts));
            assert_eq!(assets.details(id).unwrap().accounts, holders(&assets, id, &accounts));
            assert_eq!(assets.account_entries(id), holders(&assets, id, &accounts) as usize);
            for who in accounts.iter() {
                assert_eq!(assets.has_account(id, who), !assets.balance(id, who).is_zero());
            }
        }
    }
    assert_eq!(assets.supply(0), 120.into());
    assert_eq!(assets.balance(0, &4), 120.into());
    assert_eq!(assets.supply(7), 9.into());
}

#[test]
fn issuing_then_burning_to_zero_removes_the_entry() {
    let mut assets = ledger_with_asset();
    assert_eq!(assets.do_issue(0, &1, 100.into()), Ok(()));
    assert!(assets.has_account(0, &1));
    assert_eq!(assets.do_burn(0, &1, 100.into()), Ok(()));
    assert!(!assets.has_account(0, &1));
    assert_eq!(assets.account_entries(0), 0);
    assert_eq!(assets.balance(0, &1), U256::zero());
    assert_eq!(assets.supply(0), U256::zero());
    assert_eq!(assets.details(0).unwrap().accounts, 0);
}

#[test]
fn zero_amounts_change_no_balance_and_record_their_event() {
    let mut assets = ledger_with_asset();
    assert_eq!(assets.do_issue(0, &1, 100.into()), Ok(()));
    let before = assets.clone();

    assert_eq!(assets.do_issue(0, &2, U256::zero()), Ok(()));
    assert_eq!(assets.events().last(), Some(&Event::Issued(0, 2, U256::zero())));
    assert_eq!(assets.do_burn(0, &1, U256::zero()), Ok(()));
    assert_eq!(assets.events().last(), Some(&Event::Burned(0, 1, U256::zero())));
    assert_eq!(assets.do_transfer(0, &1, &2, U256::zero()), Ok(()));
    assert_eq!(assets.events().last(), Some(&Event::Transferred(0, 1, 2, U256::zero())));

    assert_eq!(assets.events().len(), before.events().len() + 3);
    assert_eq!(assets.details(0), before.details(0));
    assert_eq!(assets.balance(0, &1), 100.into());
    assert_eq!(assets.balance(0, &2), U256::zero());
    assert!(!assets.has_account(0, &2));
    assert_eq!(assets.references(), before.references());
}

#[test]
fn zero_amount_of_an_unknown_asset() {
    let mut assets = Pallet::new(50);
    assert_eq!(assets.do_issue(3, &1, U256::zero()), Ok(()));
    assert_eq!(assets.events().last(), Some(&Event::Issued(3, 1, U256::zero())));
    assert_eq!(assets.do_burn(3, &1, U256::zero()), Ok(()));
    assert_eq!(assets.events().last(), Some(&Event::Burned(3, 1, U256::zero())));
    assert!(!assets.is_registered(3));

    let before = assets.clone();
    assert_eq!(
        assets.do_transfer(3, &1, &2, U256::zero()),
        Err(DispatchError::Token(TokenError::UnknownAsset))
    );
    assert_eq!(assets, before);
}

#[test]
fn self_transfer_changes_no_balance_and_records_its_event() {
    let mut assets = ledger_with_asset();
    assert_eq!(assets.do_issue(0, &1, 100.into()), Ok(()));
    let before = assets.clone();

    assert_eq!(assets.do_transfer(0, &1, &1, 40.into()), Ok(()));
    assert_eq!(assets.events().last(), Some(&Event::Transferred(0, 1, 1, 40.into())));
    assert_eq!(assets.balance(0, &1), 100.into());
    assert_eq!(assets.details(0), before.details(0));
    assert_eq!(assets.references(), before.references());

    // the amount is not looked at
    assert_eq!(assets.do_transfer(0, &1, &1, 1000.into()), Ok(()));
    assert_eq!(assets.balance(0, &1), 100.into());
    assert_eq!(assets.supply(0), 100.into());
}

#[test]
fn issuing_the_largest_amount_then_one_more_overflows() {
    let mut assets = ledger_with_asset();
    assert_eq!(assets.do_issue(0, &1, U256::max_value()), Ok(()));
    let before = assets.clone();
    assert_eq!(
        assets.do_issue(0, &2, 1.into()),
        Err(DispatchError::Token(TokenError::Overflow))
    );
    assert_eq!(assets, before);
    assert_eq!(assets.balance(0, &1), U256(u64::MAX, u64::MAX, u64::MAX, u64::MAX));
    assert_eq!(assets.supply(0), U256::max_value());
    assert_eq!(assets.balance(0, &2), U256::zero());
}

#[test]
fn overdraft_reports_the_supply_before_the_account() {
    let mut assets = ledger_with_asset();
    assert_eq!(assets.do_issue(0, &1, 100.into()), Ok(()));
    // supply and balance are both 100: the supply is the first to refuse
    assert_eq!(assets.can_decrease(0, &1, 101.into()), WithdrawConsequence::Underflow);
    assert_eq!(
        assets.do_transfer(0, &1, &2, 101.into()),
        Err(DispatchError::Token(TokenError::Underflow))
    );
    // with more supply than balance the account refuses
    assert_eq!(assets.do_issue(0, &3, 1000.into()), Ok(()));
    assert_eq!(assets.can_decrease(0, &1, 101.into()), WithdrawConsequence::NoFunds);
    let before = assets.clone();
    assert_eq!(
        assets.do_transfer(0, &1, &2, 101.into()),
        Err(DispatchError::Token(TokenError::NoFunds))
    );
    assert_eq!(assets, before);
}

#[test]
fn holders_are_counted_through_transfers_and_burns() {
    let mut assets = ledger_with_asset();
    for who in [1u64, 2, 3] {
        assert_eq!(assets.do_issue(0, &who, 100.into()), Ok(()));
    }
    assert_eq!(assets.details(0).unwrap().accounts, 3);
    assert_eq!(assets.do_transfer(0, &1, &3, 100.into()), Ok(()));
    assert_eq!(assets.details(0).unwrap().accounts, 2);
    assert_eq!(assets.do_transfer(0, &2, &3, 100.into()), Ok(()));
    assert_eq!(assets.details(0).unwrap().accounts, 1);
    assert_eq!(assets.balance(0, &3), 300.into());
    assert_eq!(assets.do_burn(0, &3, 300.into()), Ok(()));
    assert_eq!(assets.details(0).unwrap().accounts, 0);
    assert!(!assets.has_account(0, &3));
    assert_eq!(assets.account_entries(0), 0);
}

#[test]
fn oversized_metadata_leaves_prior_metadata_untouched() {
    let mut assets = ledger_with_asset();
    assert_eq!(assets.set_metadata(0, b"Ether".to_vec(), b"ETH".to_vec(), 18), Ok(()));
    assert_eq!(assets.events().last(), Some(&Event::MetadataSet(0)));
    let before = assets.clone();

    assert_eq!(
        assets.set_metadata(0, vec![1u8; 51], b"X".to_vec(), 6),
        Err(DispatchError::Module(Error::BadMetadata))
    );
    assert_eq!(
        assets.set_metadata(0, b"X".to_vec(), vec![1u8; 51], 6),
        Err(DispatchError::Module(Error::BadMetadata))
    );
    // the length is looked at before the asset
    assert_eq!(
        assets.set_metadata(9, vec![1u8; 51], b"X".to_vec(), 6),
        Err(DispatchError::Module(Error::BadMetadata))
    );
    assert_eq!(assets, before);
    let kept = assets.metadata(0).unwrap();
    assert_eq!(kept.name, b"Ether".to_vec());
    assert_eq!(kept.symbol, b"ETH".to_vec());
    assert_eq!(kept.decimals, 18);
}

#[test]
fn metadata_at_the_limit_is_accepted_and_replaced_whole() {
    let mut assets = ledger_with_asset();
    assert_eq!(assets.set_metadata(0, vec![7u8; 50], vec![8u8; 50], 1), Ok(()));
    assert_eq!(assets.set_metadata(0, b"N".to_vec(), b"S".to_vec(), 2), Ok(()));
    let kept = assets.metadata(0).unwrap();
    assert_eq!((kept.name.clone(), kept.symbol.clone(), kept.decimals), (b"N".to_vec(), b"S".to_vec(), 2));

    let before = assets.clone();
    assert_eq!(
        assets.set_metadata(1, b"N".to_vec(), b"S".to_vec(), 2),
        Err(DispatchError::Token(TokenError::UnknownAsset))
    );
    assert_eq!(assets, before);
}

#[test]
fn verdicts_on_deposits() {
    let mut assets = ledger_with_asset();
    assert_eq!(assets.can_increase(5, &1, 1.into()), DepositConsequence::UnknownAsset);
    assert_eq!(assets.can_increase(0, &1, 1.into()), DepositConsequence::Success);
    assert_eq!(assets.can_increase(0, &1, U256::max_value()), DepositConsequence::Success);
    assert_eq!(assets.do_issue(0, &1, 1.into()), Ok(()));
    assert_eq!(assets.can_increase(0, &2, U256::max_value()), DepositConsequence::Overflow);
    assert_eq!(
        assets.can_increase(0, &2, U256(u64::MAX - 1, u64::MAX, u64::MAX, u64::MAX)),
        DepositConsequence::Success
    );
    // the balance alone overflows once the supply is set apart from it
    assert_eq!(assets.set_total_issuance(0, U256::zero()), Ok(()));
    assert_eq!(assets.can_increase(0, &1, U256::max_value()), DepositConsequence::Overflow);
    assert_eq!(assets.can_increase(0, &2, U256::max_value()), DepositConsequence::Success);
}

#[test]
fn verdicts_on_withdrawals() {
    let mut assets = ledger_with_asset();
    assert_eq!(assets.can_decrease(5, &1, 1.into()), WithdrawConsequence::UnknownAsset);
    assert_eq!(assets.can_decrease(0, &1, 1.into()), WithdrawConsequence::Underflow);
    assert_eq!(assets.do_issue(0, &1, 10.into()), Ok(()));
    assert_eq!(assets.can_decrease(0, &1, 10.into()), WithdrawConsequence::Success);
    assert_eq!(assets.can_decrease(0, &1, 11.into()), WithdrawConsequence::Underflow);
    assert_eq!(assets.can_decrease(0, &2, 10.into()), WithdrawConsequence::NoFunds);
    assert_eq!(assets.can_decrease(0, &2, U256::zero()), WithdrawConsequence::Success);
}

#[test]
fn transfer_is_refused_where_the_supply_leaves_no_room() {
    let mut assets = ledger_with_asset();
    assert_eq!(assets.do_issue(0, &1, U256::max_value()), Ok(()));
    let before = assets.clone();
    assert_eq!(
        assets.do_transfer(0, &1, &2, 1.into()),
        Err(DispatchError::Token(TokenError::Overflow))
    );
    assert_eq!(assets, before);
}

#[test]
fn counting_a_holder() {
    let mut assets = ledger_with_asset();
    let mut details = AssetDetails { supply: 5.into(), accounts: 41 };
    assert_eq!(assets.new_account(&9, &mut details), Ok(()));
    assert_eq!(details, AssetDetails { supply: 5.into(), accounts: 42 });
    assert_eq!(assets.references().last(), Some(&ReferenceUpdate::Increment(9)));

    let mut full = AssetDetails { supply: 5.into(), accounts: u32::MAX };
    let before = assets.clone();
    assert_eq!(
        assets.new_account(&9, &mut full),
        Err(DispatchError::Module(Error::Overflow))
    );
    assert_eq!(full, AssetDetails { supply: 5.into(), accounts: u32::MAX });
    assert_eq!(assets, before);
}

#[test]
fn uncounting_a_holder() {
    let mut assets = ledger_with_asset();
    let mut details = AssetDetails { supply: 5.into(), accounts: 1 };
    assert_eq!(assets.dead_account(&9, &mut details), Ok(()));
    assert_eq!(details.accounts, 0);
    assert_eq!(assets.dead_account(&9, &mut details), Ok(()));
    assert_eq!(details, AssetDetails { supply: 5.into(), accounts: 0 });
    assert_eq!(
        assets.references().as_slice(),
        &[ReferenceUpdate::Decrement(9), ReferenceUpdate::Decrement(9)]
    );
}

#[test]
fn reference_updates_follow_the_balances() {
    let mut assets = ledger_with_asset();
    assert_eq!(assets.do_issue(0, &1, 100.into()), Ok(()));
    assert_eq!(assets.do_issue(0, &1, 100.into()), Ok(()));
    assert_eq!(assets.references().as_slice(), &[ReferenceUpdate::Increment(1)]);

    // the whole balance moves to a new holder: first the debit, then the credit
    assert_eq!(assets.do_transfer(0, &1, &2, 200.into()), Ok(()));
    assert_eq!(
        assets.references().as_slice(),
        &[
            ReferenceUpdate::Increment(1),
            ReferenceUpdate::Decrement(1),
            ReferenceUpdate::Increment(2)
        ]
    );
    assert_eq!(assets.do_burn(0, &2, 50.into()), Ok(()));
    assert_eq!(assets.references().len(), 3);
    assert_eq!(assets.do_burn(0, &2, 150.into()), Ok(()));
    assert_eq!(assets.references().last(), Some(&ReferenceUpdate::Decrement(2)));

    let taken = assets.take_references();
    assert_eq!(taken.len(), 4);
    assert!(assets.references().is_empty());
    assert_eq!(assets.supply(0), U256::zero());
}

#[test]
fn events_are_recorded_in_order_and_handed_out_once() {
    let mut assets = ledger_with_asset();
    assert_eq!(assets.do_issue(0, &1, 100.into()), Ok(()));
    assert_eq!(assets.do_burn(0, &1, 30.into()), Ok(()));
    assert_eq!(assets.transfer(&1, 0, &2, 70.into()), Ok(()));
    assert!(assets.do_burn(0, &1, 1.into()).is_err());
    let taken = assets.take_events();
    assert_eq!(
        taken,
        vec![
            Event::Issued(0, 1, 100.into()),
            Event::Burned(0, 1, 30.into()),
            Event::Transferred(0, 1, 2, 70.into())
        ]
    );
    assert!(assets.events().is_empty());
    assert_eq!(assets.balance(0, &2), 70.into());
}

#[test]
fn balance_changes_run_the_check_on_the_details() {
    let mut assets = ledger_with_asset();
    assert_eq!(
        assets.increase_balance(0, &1, 10.into(), |d| Ok(AssetDetails { supply: 99.into(), ..d })),
        Ok(())
    );
    assert_eq!(assets.balance(0, &1), 10.into());
    assert_eq!(assets.details(0), Some(AssetDetails { supply: 99.into(), accounts: 1 }));

    assert_eq!(
        assets.decrease_balance(0, &1, 4.into(), |d| Ok(AssetDetails { supply: 50.into(), ..d })),
        Ok(())
    );
    assert_eq!(assets.balance(0, &1), 6.into());
    assert_eq!(assets.details(0), Some(AssetDetails { supply: 50.into(), accounts: 1 }));

    // a check that fails leaves everything as it was
    let before = assets.clone();
    assert_eq!(
        assets.increase_balance(0, &2, 1.into(), |_| Err(DispatchError::Module(Error::InUse))),
        Err(DispatchError::Module(Error::InUse))
    );
    assert_eq!(
        assets.decrease_balance(0, &1, 1.into(), |_| Err(DispatchError::Module(Error::InUse))),
        Err(DispatchError::Module(Error::InUse))
    );
    // so does a count that the check has left at its largest
    assert_eq!(
        assets.increase_balance(0, &2, 1.into(), |d| Ok(AssetDetails { accounts: u32::MAX, ..d })),
        Err(DispatchError::Module(Error::Overflow))
    );
    assert_eq!(assets, before);

    // for an amount of zero the check is not run
    assert_eq!(
        assets.increase_balance(0, &2, U256::zero(), |_| Err(DispatchError::Module(Error::InUse))),
        Ok(())
    );
    assert_eq!(
        assets.decrease_balance(9, &2, U256::zero(), |_| Err(DispatchError::Module(Error::InUse))),
        Ok(())
    );
    assert_eq!(assets, before);
}

#[test]
fn setting_the_supply() {
    let mut assets = ledger_with_asset();
    assert_eq!(assets.do_issue(0, &1, 10.into()), Ok(()));
    assert_eq!(assets.set_total_issuance(0, 77.into()), Ok(()));
    assert_eq!(assets.supply(0), 77.into());
    assert_eq!(assets.balance(0, &1), 10.into());
    assert_eq!(assets.details(0).unwrap().accounts, 1);
    let before = assets.clone();
    assert_eq!(
        assets.set_total_issuance(4, 77.into()),
        Err(DispatchError::Token(TokenError::UnknownAsset))
    );
    assert_eq!(assets, before);
}
