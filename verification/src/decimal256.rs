//! Fixed-point decimals with 18 fractional digits.
//!
//! A [`Decimal256`] holds its atomic units: the decimal `1.0` is the integer
//! `10^18`. Its view is that integer. The arithmetic is done by
//! `cosmwasm_std::Decimal256`: the private functions at the end of this file
//! call it, and Verus takes their contracts on trust. The decimals pass to
//! it and back as the big-endian bytes of their atomic units.

use crate::uint256::{ratio, u256_max, Uint256};
use vstd::prelude::*;

verus! {

/// The atomic units of the decimal `1.0`: `10^18`.
pub open spec fn decimal_fractional() -> nat {
    1_000_000_000_000_000_000
}

/// The atomic units of `x` percent: `x * 10^16`.
pub open spec fn percent_atomics(x: nat) -> nat {
    x * 10_000_000_000_000_000
}

/// The atomic units of the product of two decimals, rounded down.
pub open spec fn decimal_mul(a: nat, b: nat) -> nat {
    ratio(a, b, decimal_fractional())
}

/// The atomic units of the quotient of two decimals, rounded down.
pub open spec fn decimal_div(a: nat, b: nat) -> nat {
    ratio(a, decimal_fractional(), b)
}

/// Dividing a decimal by `2.0` halves its atomic units.
pub proof fn lemma_div_by_two(a: nat)
    ensures
        decimal_div(a, 2 * decimal_fractional()) == a / 2,
{
    vstd::arithmetic::div_mod::lemma_div_multiples_vanish_quotient(
        decimal_fractional() as int,
        a as int,
        2,
    );
}

/// Multiplying a decimal by `x` percent takes `x` hundredths of its atomic
/// units.
pub proof fn lemma_mul_by_percent(a: nat, x: nat)
    ensures
        decimal_mul(a, percent_atomics(x)) == ratio(a, x, 100),
{
    let unit: int = 10_000_000_000_000_000;
    let product = (a * x) as int;
    assert(a * percent_atomics(x) == unit * product) by (nonlinear_arith)
        requires
            percent_atomics(x) == x * 10_000_000_000_000_000,
            unit == 10_000_000_000_000_000,
            product == a * x,
    ;
    assert(0 <= product) by (nonlinear_arith)
        requires
            product == a * x,
    ;
    vstd::arithmetic::div_mod::lemma_div_multiples_vanish_quotient(unit, product, 100);
}

/// A non-negative decimal with 18 fractional digits.
#[derive(Clone, Copy, Debug, PartialEq, Eq)]
pub struct Decimal256 {
    atomics: Uint256,
}

impl View for Decimal256 {
    type V = nat;

    open spec fn view(&self) -> nat {
        self.spec_atomics()@
    }
}

impl Decimal256 {
    pub closed spec fn spec_atomics(&self) -> Uint256 {
        self.atomics
    }

    /// Every decimal has at most [`u256_max`] atomic units.
    pub proof fn lemma_bounded(self)
        ensures
            self@ <= u256_max(),
    {
        self.atomics.lemma_bounded();
    }

    /// The decimal with the atomic units `value`.
    pub fn new(value: Uint256) -> (r: Decimal256)
        ensures
            r@ == value@,
    {
        Decimal256 { atomics: value }
    }

    /// The atomic units of the decimal.
    pub fn atomics(&self) -> (r: Uint256)
        ensures
            r@ == self@,
    {
        self.atomics
    }

    /// The decimal `0.0`.
    pub fn zero() -> (r: Decimal256)
        ensures
            r@ == 0,
    {
        Decimal256 { atomics: Uint256::zero() }
    }

    /// The decimal `1.0`.
    pub fn one() -> (r: Decimal256)
        ensures
            r@ == decimal_fractional(),
    {
        Decimal256 { atomics: Uint256::from_u128(1_000_000_000_000_000_000) }
    }

    /// `x` percent as a decimal.
    pub fn percent(x: u64) -> (r: Decimal256)
        ensures
            r@ == percent_atomics(x as nat),
    {
        let x: u128 = x as u128;
        assert(x * 10_000_000_000_000_000 <= u128::MAX) by (nonlinear_arith)
            requires
                x <= u64::MAX,
        ;
        Decimal256 { atomics: Uint256::from_u128(x * 10_000_000_000_000_000) }
    }

    /// Whether the decimal is `0.0`.
    pub fn is_zero(&self) -> (r: bool)
        ensures
            r == (self@ == 0),
    {
        self.atomics.is_zero()
    }

    /// The sum of two decimals, or `None` where it does not fit.
    pub fn checked_add(self, other: Decimal256) -> (r: Option<Decimal256>)
        ensures
            r is Some <==> self@ + other@ <= u256_max(),
            r matches Some(sum) ==> sum@ == self@ + other@,
    {
        raw_checked_add(self, other)
    }

    /// The difference of two decimals, or `None` where `other` is larger.
    pub fn checked_sub(self, other: Decimal256) -> (r: Option<Decimal256>)
        ensures
            r is Some <==> self@ >= other@,
            r matches Some(difference) ==> difference@ == self@ - other@,
    {
        raw_checked_sub(self, other)
    }

    /// The product of two decimals, rounded down to the 18th digit.
    pub fn mul(self, other: Decimal256) -> (r: Decimal256)
        requires
            decimal_mul(self@, other@) <= u256_max(),
        ensures
            r@ == decimal_mul(self@, other@),
    {
        raw_mul(self, other)
    }

    /// The quotient of two decimals, rounded down to the 18th digit.
    pub fn div(self, other: Decimal256) -> (r: Decimal256)
        requires
            other@ != 0,
            decimal_div(self@, other@) <= u256_max(),
        ensures
            r@ == decimal_div(self@, other@),
    {
        raw_div(self, other)
    }
}

/// Calls `cosmwasm_std::Decimal256::checked_add`, which adds the atomic units
/// and fails where the sum does not fit in 256 bits.
#[verifier::external_body]
fn raw_checked_add(a: Decimal256, b: Decimal256) -> (r: Option<Decimal256>)
    ensures
        r is Some <==> a@ + b@ <= u256_max(),
        r matches Some(sum) ==> sum@ == a@ + b@,
{
    let x = cosmwasm_std::Decimal256::new(cosmwasm_std::Uint256::from_be_bytes(a.atomics.be));
    let y = cosmwasm_std::Decimal256::new(cosmwasm_std::Uint256::from_be_bytes(b.atomics.be));
    match x.checked_add(y) {
        Ok(sum) => Some(Decimal256 { atomics: Uint256 { be: sum.atomics().to_be_bytes() } }),
        Err(_) => None,
    }
}

/// Calls `cosmwasm_std::Decimal256::checked_sub`, which subtracts the atomic
/// units and fails where the second decimal is the larger.
#[verifier::external_body]
fn raw_checked_sub(a: Decimal256, b: Decimal256) -> (r: Option<Decimal256>)
    ensures
        r is Some <==> a@ >= b@,
        r matches Some(difference) ==> difference@ == a@ - b@,
{
    let x = cosmwasm_std::Decimal256::new(cosmwasm_std::Uint256::from_be_bytes(a.atomics.be));
    let y = cosmwasm_std::Decimal256::new(cosmwasm_std::Uint256::from_be_bytes(b.atomics.be));
    match x.checked_sub(y) {
        Ok(d) => Some(Decimal256 { atomics: Uint256 { be: d.atomics().to_be_bytes() } }),
        Err(_) => None,
    }
}

/// Multiplies two `cosmwasm_std::Decimal256` with `*`: the product of the
/// atomic units at 512 bits, divided by `10^18` and rounded down. It panics
/// where the quotient does not fit, which the precondition leaves out.
#[verifier::external_body]
fn raw_mul(a: Decimal256, b: Decimal256) -> (r: Decimal256)
    requires
        decimal_mul(a@, b@) <= u256_max(),
    ensures
        r@ == decimal_mul(a@, b@),
{
    let x = cosmwasm_std::Decimal256::new(cosmwasm_std::Uint256::from_be_bytes(a.atomics.be));
    let y = cosmwasm_std::Decimal256::new(cosmwasm_std::Uint256::from_be_bytes(b.atomics.be));
    Decimal256 { atomics: Uint256 { be: (x * y).atomics().to_be_bytes() } }
}

/// Divides two `cosmwasm_std::Decimal256` with `/`: the atomic units of the
/// first times `10^18` at 512 bits, divided by those of the second and
/// rounded down. It panics on a zero divisor and where the quotient does not
/// fit, which the precondition leaves out.
#[verifier::external_body]
fn raw_div(a: Decimal256, b: Decimal256) -> (r: Decimal256)
    requires
        b@ != 0,
        decimal_div(a@, b@) <= u256_max(),
    ensures
        r@ == decimal_div(a@, b@),
{
    let x = cosmwasm_std::Decimal256::new(cosmwasm_std::Uint256::from_be_bytes(a.atomics.be));
    let y = cosmwasm_std::Decimal256::new(cosmwasm_std::Uint256::from_be_bytes(b.atomics.be));
    Decimal256 { atomics: Uint256 { be: (x / y).atomics().to_be_bytes() } }
}

} // verus!
