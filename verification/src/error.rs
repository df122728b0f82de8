//! The errors that ledger operations return.
use vstd::prelude::*;

verus! {

/// Why a balance change was refused.
#[derive(Copy, Clone, Debug, PartialEq, Eq, Structural)]
pub enum TokenError {
    /// The account holds less than the amount to be withdrawn.
    NoFunds,
    /// The account would cease to exist although it must remain.
    WouldDie,
    /// The account would hold less than the minimum it needs to exist.
    BelowMinimum,
    /// The account cannot be created.
    CannotCreate,
    /// No asset is registered under the identifier.
    UnknownAsset,
    /// The funds are frozen.
    Frozen,
    /// The total supply would fall below zero.
    Underflow,
    /// A supply, a balance or an account count would exceed its range.
    Overflow,
}

/// What the ledger itself refuses, apart from balance changes.
#[derive(Copy, Clone, Debug, PartialEq, Eq, Structural)]
pub enum Error {
    /// The count of accounts holding an asset cannot be raised further. The
    /// ledger's operations look at the count before they write, so this comes
    /// only from counting a holder directly.
    Overflow,
    /// An asset is already registered under the identifier.
    InUse,
    /// A name or a symbol is longer than the ledger's limit.
    BadMetadata,
}

/// The error of a ledger operation.
#[derive(Copy, Clone, Debug, PartialEq, Eq, Structural)]
pub enum DispatchError {
    /// A balance change was refused.
    Token(TokenError),
    /// The ledger refused the operation for another reason.
    Module(Error),
}

/// The result of a ledger operation.
pub type DispatchResult = Result<(), DispatchError>;

impl From<TokenError> for DispatchError {
    fn from(e: TokenError) -> (r: DispatchError) {
        DispatchError::Token(e)
    }
}

impl vstd::std_specs::convert::FromSpecImpl<TokenError> for DispatchError {
    open spec fn obeys_from_spec() -> bool {
        true
    }

    open spec fn from_spec(e: TokenError) -> DispatchError {
        DispatchError::Token(e)
    }
}

impl From<Error> for DispatchError {
    fn from(e: Error) -> (r: DispatchError) {
        DispatchError::Module(e)
    }
}

impl vstd::std_specs::convert::FromSpecImpl<Error> for DispatchError {
    open spec fn obeys_from_spec() -> bool {
        true
    }

    open spec fn from_spec(e: Error) -> DispatchError {
        DispatchError::Module(e)
    }
}

} // verus!
