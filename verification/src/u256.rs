//! Unsigned 256-bit amounts.
//!
//! A [`U256`] holds its value as four 64-bit words, least significant first,
//! and is viewed as the natural number those words spell. Constructors, the
//! zero test and the ordering are verified here; addition and subtraction are
//! carried out by `sp_core::U256` behind four wrappers whose contracts are
//! stated over that view.
use vstd::prelude::*;

verus! {

/// Two to the power 64: the weight of the second word.
pub open spec fn word1() -> nat {
    0x1_0000_0000_0000_0000nat
}

/// Two to the power 128: the weight of the third word.
pub open spec fn word2() -> nat {
    0x1_0000_0000_0000_0000_0000_0000_0000_0000nat
}

/// Two to the power 192: the weight of the fourth word.
pub open spec fn word3() -> nat {
    0x1_0000_0000_0000_0000_0000_0000_0000_0000_0000_0000_0000_0000nat
}

/// The largest value a [`U256`] can hold: two to the power 256, less one.
pub open spec fn max_u256() -> nat {
    0xffff_ffff_ffff_ffff_ffff_ffff_ffff_ffff_ffff_ffff_ffff_ffff_ffff_ffff_ffff_ffffnat
}

/// An unsigned 256-bit integer: four 64-bit words, least significant first.
#[derive(Copy, Clone, Debug, PartialEq, Eq, Hash, Structural)]
pub struct U256(pub u64, pub u64, pub u64, pub u64);

impl View for U256 {
    type V = nat;

    /// The number that the four words spell.
    open spec fn view(&self) -> nat {
        self.0 as nat + self.1 as nat * word1() + self.2 as nat * word2() + self.3 as nat * word3()
    }
}

/// Two amounts that spell the same number have the same words.
pub proof fn lemma_view_injective(a: U256, b: U256)
    requires
        a@ == b@,
    ensures
        a == b,
{
    assert(a.0 == b.0) by {
        assert(a@ % word1() == a.0) by {
            lemma_low_word(a.0 as nat, a.1 as nat + a.2 as nat * word1() + a.3 as nat * word2());
        }
        assert(b@ % word1() == b.0) by {
            lemma_low_word(b.0 as nat, b.1 as nat + b.2 as nat * word1() + b.3 as nat * word2());
        }
    }
    assert(a.1 == b.1) by {
        let ra = a.1 as nat + a.2 as nat * word1() + a.3 as nat * word2();
        let rb = b.1 as nat + b.2 as nat * word1() + b.3 as nat * word2();
        assert(ra * word1() == rb * word1());
        assert(ra == rb) by (nonlinear_arith)
            requires
                ra * word1() == rb * word1(),
                word1() > 0,
        ;
        lemma_low_word(a.1 as nat, a.2 as nat + a.3 as nat * word1());
        lemma_low_word(b.1 as nat, b.2 as nat + b.3 as nat * word1());
    }
    assert(a.2 == b.2 && a.3 == b.3) by {
        let ra = a.2 as nat + a.3 as nat * word1();
        let rb = b.2 as nat + b.3 as nat * word1();
        assert(ra * word2() == rb * word2());
        assert(ra == rb) by (nonlinear_arith)
            requires
                ra * word2() == rb * word2(),
                word2() > 0,
        ;
        lemma_low_word(a.2 as nat, a.3 as nat);
        lemma_low_word(b.2 as nat, b.3 as nat);
    }
}

/// A word below a multiple of two to the power 64 is the remainder on
/// division by that power.
proof fn lemma_low_word(low: nat, rest: nat)
    requires
        low < word1(),
    ensures
        (low + rest * word1()) % word1() == low,
        (low + rest * word1()) / word1() == rest,
{
    vstd::arithmetic::div_mod::lemma_fundamental_div_mod_converse(
        (low + rest * word1()) as int,
        word1() as int,
        rest as int,
        low as int,
    );
}

impl U256 {
    /// The amount zero.
    pub fn zero() -> (r: U256)
        ensures
            r@ == 0,
    {
        U256(0, 0, 0, 0)
    }

    /// The largest amount.
    pub fn max_value() -> (r: U256)
        ensures
            r@ == max_u256(),
    {
        U256(u64::MAX, u64::MAX, u64::MAX, u64::MAX)
    }

    /// Whether the amount is zero.
    pub fn is_zero(&self) -> (r: bool)
        ensures
            r == (self@ == 0),
    {
        self.0 == 0 && self.1 == 0 && self.2 == 0 && self.3 == 0
    }

    /// Whether `self` is strictly less than `other`.
    pub fn lt(&self, other: &U256) -> (r: bool)
        ensures
            r == (self@ < other@),
    {
        if self.3 != other.3 {
            self.3 < other.3
        } else if self.2 != other.2 {
            self.2 < other.2
        } else if self.1 != other.1 {
            self.1 < other.1
        } else {
            self.0 < other.0
        }
    }

    /// The smaller of `self` and `other`.
    pub fn min(self, other: U256) -> (r: U256)
        ensures
            r@ == if self@ <= other@ { self@ } else { other@ },
            r == self || r == other,
    {
        if other.lt(&self) {
            other
        } else {
            self
        }
    }

    /// `self + other` where that fits in 256 bits, and `None` where it does not.
    ///
    /// The sum is computed by `sp_core::U256::checked_add`, which adds word by
    /// word with carry and returns `None` exactly when the last carry is set.
    #[verifier::external_body]
    pub(crate) fn checked_add(self, other: U256) -> (r: Option<U256>)
        ensures
            self@ + other@ <= max_u256() ==> r.is_some() && r.unwrap()@ == self@ + other@,
            self@ + other@ > max_u256() ==> r.is_none(),
    {
        let a = sp_core::U256([self.0, self.1, self.2, self.3]);
        let b = sp_core::U256([other.0, other.1, other.2, other.3]);
        match a.checked_add(b) {
            Some(v) => Some(U256(v.0[0], v.0[1], v.0[2], v.0[3])),
            None => None,
        }
    }

    /// `self - other` where `other` does not exceed `self`, and `None` where it does.
    ///
    /// The difference is computed by `sp_core::U256::checked_sub`, which
    /// subtracts word by word with borrow and returns `None` exactly when the
    /// last borrow is set.
    #[verifier::external_body]
    pub(crate) fn checked_sub(self, other: U256) -> (r: Option<U256>)
        ensures
            self@ >= other@ ==> r.is_some() && r.unwrap()@ == self@ - other@,
            self@ < other@ ==> r.is_none(),
    {
        let a = sp_core::U256([self.0, self.1, self.2, self.3]);
        let b = sp_core::U256([other.0, other.1, other.2, other.3]);
        match a.checked_sub(b) {
            Some(v) => Some(U256(v.0[0], v.0[1], v.0[2], v.0[3])),
            None => None,
        }
    }

    /// `self + other`, held at the largest amount where the sum exceeds it.
    ///
    /// Computed by `sp_core::U256::saturating_add`, which returns the
    /// maximum where its word-by-word addition ends with a carry.
    #[verifier::external_body]
    pub(crate) fn saturating_add(self, other: U256) -> (r: U256)
        ensures
            r@ == if self@ + other@ <= max_u256() { self@ + other@ } else { max_u256() },
    {
        let a = sp_core::U256([self.0, self.1, self.2, self.3]);
        let b = sp_core::U256([other.0, other.1, other.2, other.3]);
        let v = a.saturating_add(b);
        U256(v.0[0], v.0[1], v.0[2], v.0[3])
    }

    /// `self - other`, held at zero where `other` exceeds `self`.
    ///
    /// Computed by `sp_core::U256::saturating_sub`, which returns zero where
    /// its word-by-word subtraction ends with a borrow.
    #[verifier::external_body]
    pub(crate) fn saturating_sub(self, other: U256) -> (r: U256)
        ensures
            r@ == if self@ >= other@ { self@ - other@ } else { 0 },
    {
        let a = sp_core::U256([self.0, self.1, self.2, self.3]);
        let b = sp_core::U256([other.0, other.1, other.2, other.3]);
        let v = a.saturating_sub(b);
        U256(v.0[0], v.0[1], v.0[2], v.0[3])
    }
}

impl From<u64> for U256 {
    fn from(value: u64) -> (r: U256) {
        U256(value, 0, 0, 0)
    }
}

impl vstd::std_specs::convert::FromSpecImpl<u64> for U256 {
    open spec fn obeys_from_spec() -> bool {
        true
    }

    open spec fn from_spec(value: u64) -> U256 {
        U256(value, 0, 0, 0)
    }
}

} // verus!
