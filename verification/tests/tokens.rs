use artemis_assets::multi;
use artemis_assets::multi::{Create, Inspect as InspectMany, Mutate as MutateMany};
use artemis_assets::pallet::Pallet;
use artemis_assets::single::balanced::{
    Balanced, CreditOf, DebtOf, DecreaseIssuance, IncreaseIssuance, Unbalanced,
};
use artemis_assets::single::imbalance::Imbalance;
use artemis_assets::single::{Inspect, Mutate};
use artemis_assets::types::SameOrOther;
use artemis_assets::{
    DepositConsequence, DispatchError, Event, ItemOf, TokenAdaptor, TokenError,
    WithdrawConsequence, U256,
};

fn adaptor() -> TokenAdaptor {
    let mut pallet = Pallet::new(50);
    assert_eq!(pallet.do_create(3), Ok(()));
    TokenAdaptor { pallet, id: 3 }
}

#[test]
fn pallet_as_a_ledger_of_many_assets() {
    let mut pallet = Pallet::new(50);
    assert!(!pallet.asset_exists(1));
    assert_eq!(pallet.create(1), Ok(()));
    assert!(pallet.asset_exists(1));
    assert_eq!(pallet.can_deposit(1, &5, 10.into()), DepositConsequence::Success);
    assert_eq!(pallet.can_withdraw(1, &5, 10.into()), WithdrawConsequence::Underflow);
    assert_eq!(pallet.mint(1, &5, 10.into()), Ok(()));
    assert_eq!(MutateMany::transfer(&mut pallet, 1, &5, &6, 4.into()), Ok(()));
    assert_eq!(MutateMany::burn(&mut pallet, 1, &5, 1.into()), Ok(()));
    assert_eq!(InspectMany::balance(&pallet, 1, &5), 5.into());
    assert_eq!(InspectMany::balance(&pallet, 1, &6), 4.into());
    assert_eq!(pallet.total_issuance(1), 9.into());
    assert_eq!(pallet.events().last(), Some(&Event::Burned(1, 5, 1.into())));
}

#[test]
fn one_asset_of_many() {
    let mut pallet = Pallet::new(50);
    assert_eq!(pallet.do_create(1), Ok(()));
    assert_eq!(pallet.do_create(2), Ok(()));
    assert_eq!(pallet.do_issue(1, &5, 100.into()), Ok(()));
    let mut item = ItemOf { inner: pallet, asset: 2 };
    assert_eq!(item.total_issuance(), U256::zero());
    assert_eq!(item.mint(&5, 7.into()), Ok(()));
    assert_eq!(item.transfer(&5, &6, 3.into()), Ok(()));
    assert_eq!(item.burn(&6, 1.into()), Ok(()));
    assert_eq!(item.balance(&5), 4.into());
    assert_eq!(item.balance(&6), 2.into());
    assert_eq!(item.total_issuance(), 6.into());
    assert_eq!(item.can_deposit(&5, U256::max_value()), DepositConsequence::Overflow);
    assert_eq!(item.can_withdraw(&5, 5.into()), WithdrawConsequence::NoFunds);
    assert_eq!(item.inner.balance(1, &5), 100.into());
    assert_eq!(item.inner.supply(2), 6.into());
}

#[test]
fn token_adaptor_speaks_of_its_asset() {
    let mut token = adaptor();
    assert_eq!(token.mint(&1, 100.into()), Ok(()));
    assert_eq!(token.balance(&1), 100.into());
    assert_eq!(token.total_issuance(), 100.into());
    assert_eq!(token.can_deposit(&1, 1.into()), DepositConsequence::Success);
    assert_eq!(token.can_withdraw(&1, 101.into()), WithdrawConsequence::Underflow);
    assert_eq!(token.transfer(&1, &2, 60.into()), Ok(()));
    assert_eq!(token.burn(&2, 10.into()), Ok(()));
    assert_eq!(token.pallet.balance(3, &1), 40.into());
    assert_eq!(token.pallet.balance(3, &2), 50.into());
    assert_eq!(token.pallet.supply(3), 90.into());
    assert_eq!(token.burn(&2, 51.into()), Err(DispatchError::Token(TokenError::NoFunds)));

    let mut unknown = TokenAdaptor { pallet: Pallet::new(50), id: 3 };
    assert_eq!(unknown.mint(&1, 1.into()), Err(DispatchError::Token(TokenError::UnknownAsset)));
}

#[test]
fn unbalanced_changes_leave_the_supply() {
    let mut token = adaptor();
    assert_eq!(token.increase_balance(&1, 10.into()), Ok(10.into()));
    assert_eq!(token.balance(&1), 10.into());
    assert_eq!(token.total_issuance(), U256::zero());
    assert_eq!(token.pallet.details(3).unwrap().accounts, 1);

    token.set_total_issuance(25.into());
    assert_eq!(token.total_issuance(), 25.into());
    assert_eq!(token.decrease_balance(&1, 4.into()), Ok(4.into()));
    assert_eq!(token.balance(&1), 6.into());
    assert_eq!(token.total_issuance(), 25.into());

    let before = token.pallet.clone();
    assert_eq!(token.decrease_balance(&1, 7.into()), Err(DispatchError::Token(TokenError::NoFunds)));
    assert_eq!(token.decrease_balance(&1, 26.into()), Err(DispatchError::Token(TokenError::Underflow)));
    assert_eq!(
        token.increase_balance(&1, U256::max_value()),
        Err(DispatchError::Token(TokenError::Overflow))
    );
    assert_eq!(token.increase_balance(&1, U256::zero()), Ok(U256::zero()));
    assert_eq!(token.pallet, before);

    let mut unknown = TokenAdaptor { pallet: Pallet::new(50), id: 3 };
    unknown.set_total_issuance(25.into());
    assert_eq!(unknown.total_issuance(), U256::zero());
    assert!(!unknown.pallet.is_registered(3));
}

#[test]
fn deposit_leaves_a_debt_that_raises_the_supply_when_given_up() {
    let mut token = adaptor();
    let debt = token.deposit(&1, 10.into()).ok().unwrap();
    assert_eq!(debt.peek(), 10.into());
    assert_eq!(token.balance(&1), 10.into());
    assert_eq!(token.total_issuance(), U256::zero());
    debt.drop(&mut token);
    assert_eq!(token.total_issuance(), 10.into());

    let credit = token.withdraw(&1, 3.into()).ok().unwrap();
    assert_eq!(credit.peek(), 3.into());
    assert_eq!(token.balance(&1), 7.into());
    assert_eq!(token.total_issuance(), 10.into());
    credit.drop(&mut token);
    assert_eq!(token.total_issuance(), 7.into());

    // an imbalance of nothing changes nothing when given up
    token.set_total_issuance(1.into());
    CreditOf::<TokenAdaptor>::zero().drop(&mut token);
    DebtOf::<TokenAdaptor>::zero().drop(&mut token);
    assert_eq!(token.total_issuance(), 1.into());

    assert!(token.withdraw(&1, 8.into()).is_err());
    assert!(token.deposit(&1, U256::max_value()).is_err());
    assert_eq!(token.balance(&1), 7.into());
}

#[test]
fn the_supply_is_held_within_its_range_when_imbalances_are_given_up() {
    let mut token = adaptor();
    let debt = token.deposit(&1, 10.into()).ok().unwrap();
    token.set_total_issuance(U256::max_value());
    debt.drop(&mut token);
    assert_eq!(token.total_issuance(), U256::max_value());

    let credit = token.withdraw(&1, 10.into()).ok().unwrap();
    token.set_total_issuance(4.into());
    credit.drop(&mut token);
    assert_eq!(token.total_issuance(), U256::zero());
}

#[test]
fn imbalances_split_and_offset() {
    let mut token = adaptor();
    token.set_total_issuance(100.into());
    let debt = token.deposit(&1, 10.into()).ok().unwrap();
    let (first, second) = debt.split(4.into());
    assert_eq!((first.peek(), second.peek()), (4.into(), 6.into()));
    let (whole, nothing) = second.split(60.into());
    assert_eq!((whole.peek(), nothing.peek()), (6.into(), U256::zero()));
    assert!(nothing.try_drop().is_ok());
    assert_eq!(whole.try_drop().err().unwrap().peek(), 6.into());

    let credit = token.withdraw(&1, 4.into()).ok().unwrap();
    match credit.offset(first) {
        Ok(SameOrOther::Neither) => {},
        _ => panic!("equal imbalances leave nothing"),
    }
    let credit = token.withdraw(&1, 6.into()).ok().unwrap();
    let debt = token.deposit(&2, 2.into()).ok().unwrap();
    match credit.offset(debt) {
        Ok(SameOrOther::Same(left)) => assert_eq!(left.peek(), 4.into()),
        _ => panic!("the larger credit leaves a credit"),
    }
    let credit = token.withdraw(&2, 1.into()).ok().unwrap();
    let debt = token.deposit(&2, 9.into()).ok().unwrap();
    match credit.offset(debt) {
        Ok(SameOrOther::Other(left)) => assert_eq!(left.peek(), 8.into()),
        _ => panic!("the larger debt leaves a debt"),
    }
    let none: SameOrOther<u8, u8> = SameOrOther::Neither;
    assert!(none.try_drop().is_ok());
    let some: SameOrOther<u8, u8> = SameOrOther::Same(1);
    assert!(matches!(some.try_drop(), Err(SameOrOther::Same(1))));
}

#[test]
fn resolving_a_credit_and_settling_a_debt() {
    let mut token = adaptor();
    assert_eq!(token.mint(&1, 10.into()), Ok(()));
    let credit = token.withdraw(&1, 4.into()).ok().unwrap();
    assert!(token.resolve(&2, credit).is_ok());
    assert_eq!(token.balance(&1), 6.into());
    assert_eq!(token.balance(&2), 4.into());
    assert_eq!(token.total_issuance(), 10.into());

    let debt = token.deposit(&1, 3.into()).ok().unwrap();
    let left = token.settle(&2, debt).ok().unwrap();
    assert_eq!(left.peek(), U256::zero());
    assert_eq!(token.balance(&1), 9.into());
    assert_eq!(token.balance(&2), 1.into());

    // what cannot be countered is handed back and nothing changes
    let debt = token.deposit(&1, 1.into()).ok().unwrap();
    let before = token.pallet.clone();
    let back = token.settle(&3, debt).err().unwrap();
    assert_eq!(back.peek(), 1.into());
    assert_eq!(token.pallet, before);

    token.set_total_issuance(U256::max_value());
    let credit = token.withdraw(&1, 5.into()).ok().unwrap();
    let before = token.pallet.clone();
    let back = token.resolve(&2, credit).err().unwrap();
    assert_eq!(back.peek(), 5.into());
    assert_eq!(token.pallet, before);
}

#[test]
fn issuance_handlers_named_by_the_adaptor() {
    // a debt is made up for by raising the supply, a credit by lowering it
    let debt: Imbalance<IncreaseIssuance, DecreaseIssuance> = DebtOf::<TokenAdaptor>::zero();
    let credit: Imbalance<DecreaseIssuance, IncreaseIssuance> = CreditOf::<TokenAdaptor>::zero();
    assert!(debt.try_drop().is_ok());
    assert!(credit.try_drop().is_ok());
}

#[test]
fn imbalances_of_many_assets() {
    type Credit = multi::imbalance::Imbalance<DecreaseIssuance, IncreaseIssuance>;
    type Debt = multi::imbalance::Imbalance<IncreaseIssuance, DecreaseIssuance>;

    let zero = Credit::zero(4);
    assert_eq!((zero.asset(), zero.peek()), (4, U256::zero()));
    assert!(zero.try_drop().is_ok());

    let (first, second) = Credit::new(4, 10.into()).split(3.into());
    assert_eq!((first.asset(), first.peek()), (4, 3.into()));
    assert_eq!((second.asset(), second.peek()), (4, 7.into()));
    let (whole, nothing) = second.split(8.into());
    assert_eq!((whole.peek(), nothing.peek()), (7.into(), U256::zero()));
    assert_eq!(whole.try_drop().err().unwrap().peek(), 7.into());

    assert!(matches!(Credit::new(4, 5.into()).offset(Debt::new(4, 5.into())), Ok(SameOrOther::Neither)));
    match Credit::new(4, 9.into()).offset(Debt::new(4, 5.into())) {
        Ok(SameOrOther::Same(left)) => assert_eq!((left.asset(), left.peek()), (4, 4.into())),
        _ => panic!("the larger credit leaves a credit"),
    }
    match Credit::new(4, 5.into()).offset(Debt::new(4, 9.into())) {
        Ok(SameOrOther::Other(left)) => assert_eq!((left.asset(), left.peek()), (4, 4.into())),
        _ => panic!("the larger debt leaves a debt"),
    }
    match Credit::new(4, 5.into()).offset(Debt::new(5, 5.into())) {
        Err((credit, debt)) => {
            assert_eq!((credit.asset(), credit.peek()), (4, 5.into()));
            assert_eq!((debt.asset(), debt.peek()), (5, 5.into()));
        },
        Ok(_) => panic!("imbalances of different assets do not offset"),
    }
}

#[test]
fn imbalances_of_many_assets_given_up() {
    type Credit = multi::imbalance::Imbalance<DecreaseIssuance, IncreaseIssuance>;
    type Debt = multi::imbalance::Imbalance<IncreaseIssuance, DecreaseIssuance>;

    let mut pallet = Pallet::new(50);
    assert_eq!(pallet.do_create(4), Ok(()));
    assert_eq!(pallet.do_issue(4, &1, 10.into()), Ok(()));

    Debt::new(4, 5.into()).drop(&mut pallet);
    assert_eq!(pallet.supply(4), 15.into());
    Credit::new(4, 7.into()).drop(&mut pallet);
    assert_eq!(pallet.supply(4), 8.into());
    Credit::new(4, 9.into()).drop(&mut pallet);
    assert_eq!(pallet.supply(4), U256::zero());
    Debt::new(4, U256::max_value()).drop(&mut pallet);
    Debt::new(4, 1.into()).drop(&mut pallet);
    assert_eq!(pallet.supply(4), U256::max_value());

    let before = pallet.clone();
    Debt::zero(4).drop(&mut pallet);
    Credit::zero(4).drop(&mut pallet);
    // an asset that is not registered has no supply to change
    Debt::new(5, 1.into()).drop(&mut pallet);
    assert_eq!(pallet, before);
    assert_eq!(pallet.balance(4, &1), 10.into());
}

#[test]
fn giving_up_an_imbalance_restores_the_supply() {
    let mut issued = Pallet::new(50);
    assert_eq!(issued.do_create(3), Ok(()));
    assert_eq!(issued.do_issue(3, &1, 10.into()), Ok(()));

    let mut token = adaptor();
    let debt = token.deposit(&1, 10.into()).ok().unwrap();
    debt.drop(&mut token);
    assert_eq!(token.pallet.details(3), issued.details(3));
    assert_eq!(token.pallet.balance(3, &1), issued.balance(3, &1));
    assert_eq!(token.pallet.references(), issued.references());

    assert_eq!(issued.do_burn(3, &1, 4.into()), Ok(()));
    let credit = token.withdraw(&1, 4.into()).ok().unwrap();
    credit.drop(&mut token);
    assert_eq!(token.pallet.details(3), issued.details(3));
    assert_eq!(token.pallet.balance(3, &1), 6.into());

    assert_eq!(issued.do_burn(3, &1, 6.into()), Ok(()));
    let credit = token.withdraw(&1, 6.into()).ok().unwrap();
    credit.drop(&mut token);
    assert_eq!(token.pallet.details(3), issued.details(3));
    assert_eq!(token.pallet.references(), issued.references());
    assert!(!token.pallet.has_account(3, &1));
}
