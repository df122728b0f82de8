//! Verdicts on a proposed balance change.
//!
//! A verdict is returned by the read-only checks that precede every change,
//! so that a caller can branch on it before anything is written.
use vstd::prelude::*;

use crate::error::TokenError;
use crate::u256::U256;

verus! {

/// What withdrawing an amount from an account would lead to.
#[derive(Copy, Clone, Debug, PartialEq, Eq, Structural)]
pub enum WithdrawConsequence {
    /// The account holds less than the amount.
    NoFunds,
    /// The account would cease to exist although it must remain.
    WouldDie,
    /// No asset is registered under the identifier.
    UnknownAsset,
    /// The total supply would fall below zero.
    Underflow,
    /// A quantity would exceed its range.
    Overflow,
    /// Too little of the account's funds is free to be withdrawn.
    Frozen,
    /// The balance would fall to zero; the amount lost with the account is
    /// carried along.
    ReducedToZero(U256),
    /// The withdrawal can go ahead.
    Success,
}

impl WithdrawConsequence {
    /// The verdict as a result: the amount lost beyond the withdrawal where
    /// the withdrawal can go ahead, and the matching error where it cannot.
    pub open spec fn result(self) -> Result<U256, TokenError> {
        match self {
            WithdrawConsequence::NoFunds => Err(TokenError::NoFunds),
            WithdrawConsequence::WouldDie => Err(TokenError::WouldDie),
            WithdrawConsequence::UnknownAsset => Err(TokenError::UnknownAsset),
            WithdrawConsequence::Underflow => Err(TokenError::Underflow),
            WithdrawConsequence::Overflow => Err(TokenError::Overflow),
            WithdrawConsequence::Frozen => Err(TokenError::Frozen),
            WithdrawConsequence::ReducedToZero(lost) => Ok(lost),
            WithdrawConsequence::Success => Ok(U256(0, 0, 0, 0)),
        }
    }

    /// Turns the verdict into a result: `Ok` with the amount lost beyond the
    /// withdrawal (zero for `Success`), or the error named like the verdict.
    pub fn into_result(self) -> (r: Result<U256, TokenError>)
        ensures
            r == self.result(),
            r is Ok <==> self is Success || self is ReducedToZero,
    {
        match self {
            WithdrawConsequence::NoFunds => Err(TokenError::NoFunds),
            WithdrawConsequence::WouldDie => Err(TokenError::WouldDie),
            WithdrawConsequence::UnknownAsset => Err(TokenError::UnknownAsset),
            WithdrawConsequence::Underflow => Err(TokenError::Underflow),
            WithdrawConsequence::Overflow => Err(TokenError::Overflow),
            WithdrawConsequence::Frozen => Err(TokenError::Frozen),
            WithdrawConsequence::ReducedToZero(lost) => Ok(lost),
            WithdrawConsequence::Success => Ok(U256::zero()),
        }
    }
}

/// What depositing an amount into an account would lead to.
#[derive(Copy, Clone, Debug, PartialEq, Eq, Structural)]
pub enum DepositConsequence {
    /// The account would hold less than the minimum it needs to exist.
    BelowMinimum,
    /// The account cannot be created.
    CannotCreate,
    /// No asset is registered under the identifier.
    UnknownAsset,
    /// The supply, the balance or the count of accounts would exceed its range.
    Overflow,
    /// The deposit can go ahead.
    Success,
}

impl DepositConsequence {
    /// The verdict as a result: `Ok` where the deposit can go ahead, and the
    /// matching error where it cannot.
    pub open spec fn result(self) -> Result<(), TokenError> {
        match self {
            DepositConsequence::BelowMinimum => Err(TokenError::BelowMinimum),
            DepositConsequence::CannotCreate => Err(TokenError::CannotCreate),
            DepositConsequence::UnknownAsset => Err(TokenError::UnknownAsset),
            DepositConsequence::Overflow => Err(TokenError::Overflow),
            DepositConsequence::Success => Ok(()),
        }
    }

    /// Turns the verdict into a result: `Ok` for `Success`, or the error
    /// named like the verdict.
    pub fn into_result(self) -> (r: Result<(), TokenError>)
        ensures
            r == self.result(),
            r is Ok <==> self is Success,
    {
        match self {
            DepositConsequence::BelowMinimum => Err(TokenError::BelowMinimum),
            DepositConsequence::CannotCreate => Err(TokenError::CannotCreate),
            DepositConsequence::UnknownAsset => Err(TokenError::UnknownAsset),
            DepositConsequence::Overflow => Err(TokenError::Overflow),
            DepositConsequence::Success => Ok(()),
        }
    }
}

} // verus!
