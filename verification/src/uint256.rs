//! Unsigned 256-bit integers.
//!
//! A [`Uint256`] holds the 32 big-endian bytes of the number. Its view is the
//! number itself, as a `nat`. Construction and comparison are done on the
//! bytes and proved here. Addition, subtraction and the multiplication of a
//! ratio are done by `cosmwasm_std::Uint256`: the private functions at the
//! end of this file call it, and Verus takes their contracts on trust. The
//! numbers pass to it and back as their big-endian bytes.

use vstd::prelude::*;

verus! {

/// The number written by the big-endian bytes `b`.
pub open spec fn be_value(b: Seq<u8>) -> nat
    decreases b.len(),
{
    if b.len() == 0 {
        0
    } else {
        be_value(b.drop_last()) * 256 + b.last() as nat
    }
}

/// `256` to the power `n`.
pub open spec fn pow256(n: nat) -> nat
    decreases n,
{
    if n == 0 {
        1
    } else {
        256 * pow256((n - 1) as nat)
    }
}

/// The largest value of a [`Uint256`], `2^256 - 1`.
pub open spec fn u256_max() -> nat {
    0xffff_ffff_ffff_ffff_ffff_ffff_ffff_ffff_ffff_ffff_ffff_ffff_ffff_ffff_ffff_ffffnat
}

/// `a + b`, held at [`u256_max`].
pub open spec fn sat_add(a: nat, b: nat) -> nat {
    if a + b > u256_max() {
        u256_max()
    } else {
        a + b
    }
}

/// `a - b`, held at zero.
pub open spec fn sat_sub(a: nat, b: nat) -> nat {
    if a >= b {
        (a - b) as nat
    } else {
        0
    }
}

/// `value * numerator / denominator`, rounded down.
pub open spec fn ratio(value: nat, numerator: nat, denominator: nat) -> nat {
    value * numerator / denominator
}

/// An unsigned integer below `2^256`.
#[derive(Clone, Copy, Debug, Eq)]
pub struct Uint256 {
    /// The number in big-endian byte order.
    pub be: [u8; 32],
}

impl View for Uint256 {
    type V = nat;

    open spec fn view(&self) -> nat {
        be_value(self.be@)
    }
}

/// The bytes of a sequence of length `n` write a number below `256^n`.
pub proof fn lemma_be_value_bound(b: Seq<u8>)
    ensures
        be_value(b) < pow256(b.len()),
    decreases b.len(),
{
    if b.len() > 0 {
        lemma_be_value_bound(b.drop_last());
    }
}

/// `256^32` is one more than [`u256_max`].
pub proof fn lemma_pow256_32()
    ensures
        pow256(32) == u256_max() + 1,
{
    reveal_with_fuel(pow256, 33);
}

/// `256^16` is `2^128`.
proof fn lemma_pow256_16()
    ensures
        pow256(16) == 0x1_0000_0000_0000_0000_0000_0000_0000_0000nat,
{
    reveal_with_fuel(pow256, 17);
}

/// One more byte at the end multiplies the number by 256 and adds the byte.
proof fn lemma_be_value_step(b: Seq<u8>, i: int)
    requires
        0 <= i < b.len(),
    ensures
        be_value(b.take(i + 1)) == be_value(b.take(i)) * 256 + b[i],
{
    assert(b.take(i + 1).drop_last() =~= b.take(i));
}

/// Bytes that are all zero write the number zero.
proof fn lemma_be_value_zero(b: Seq<u8>)
    requires
        forall|i: int| 0 <= i < b.len() ==> b[i] == 0,
    ensures
        be_value(b) == 0,
    decreases b.len(),
{
    if b.len() > 0 {
        lemma_be_value_zero(b.drop_last());
    }
}

/// Writing a byte over a zero adds the byte at the weight of its place.
proof fn lemma_be_value_update(b: Seq<u8>, i: int, byte: u8)
    requires
        0 <= i < b.len(),
        b[i] == 0,
    ensures
        be_value(b.update(i, byte)) == be_value(b) + byte * pow256((b.len() - 1 - i) as nat),
    decreases b.len(),
{
    let updated = b.update(i, byte);
    let rest = be_value(b.drop_last());
    if i == b.len() - 1 {
        assert(updated.drop_last() =~= b.drop_last());
        assert(byte * pow256(0) == byte) by (nonlinear_arith)
            requires
                pow256(0) == 1,
        ;
    } else {
        lemma_be_value_update(b.drop_last(), i, byte);
        assert(updated.drop_last() =~= b.drop_last().update(i, byte));
        let weight = pow256((b.len() - 2 - i) as nat);
        assert((rest + byte * weight) * 256 == rest * 256 + byte * (256 * weight))
            by (nonlinear_arith);
    }
}

/// A share of a value is at most the value: with `numerator <= denominator`,
/// [`ratio`] does not exceed `value`.
pub proof fn lemma_ratio_bound(value: nat, numerator: nat, denominator: nat)
    requires
        numerator <= denominator,
        denominator > 0,
    ensures
        ratio(value, numerator, denominator) <= value,
{
    assert(value * numerator <= value * denominator) by (nonlinear_arith)
        requires
            numerator <= denominator,
    ;
    assert((value * numerator) / denominator <= (value * denominator) / denominator)
        by (nonlinear_arith)
        requires
            value * numerator <= value * denominator,
            denominator > 0,
    ;
    assert((value * denominator) / denominator == value) by (nonlinear_arith)
        requires
            denominator > 0,
    ;
}

impl Uint256 {
    /// Every value is at most [`u256_max`].
    pub proof fn lemma_bounded(self)
        ensures
            self@ <= u256_max(),
    {
        lemma_be_value_bound(self.be@);
        lemma_pow256_32();
    }

    /// The number zero.
    pub fn zero() -> (r: Uint256)
        ensures
            r@ == 0,
    {
        let be = [0u8; 32];
        proof {
            lemma_be_value_zero(be@);
        }
        Uint256 { be }
    }

    /// The number one.
    pub fn one() -> (r: Uint256)
        ensures
            r@ == 1,
    {
        Uint256::from_u128(1)
    }

    /// The 256-bit integer equal to `value`.
    pub fn from_u128(value: u128) -> (r: Uint256)
        ensures
            r@ == value,
    {
        let mut be = [0u8; 32];
        let mut rest = value;
        let mut k: usize = 0;
        proof {
            lemma_be_value_zero(be@);
            assert(rest * pow256(0) == rest) by (nonlinear_arith)
                requires
                    pow256(0) == 1,
            ;
        }
        while k < 16
            invariant
                k <= 16,
                forall|j: int| 0 <= j < 32 - k ==> be@[j] == 0,
                be_value(be@) + rest * pow256(k as nat) == value,
            decreases 16 - k,
        {
            let byte = (rest % 256) as u8;
            proof {
                lemma_be_value_update(be@, 31 - k, byte);
                let weight = pow256(k as nat);
                assert(rest * weight == (rest / 256) * (256 * weight) + byte * weight)
                    by (nonlinear_arith)
                    requires
                        rest == (rest / 256) * 256 + byte,
                ;
            }
            be[31 - k] = byte;
            rest = rest / 256;
            k += 1;
        }
        proof {
            lemma_pow256_16();
            assert(rest == 0) by (nonlinear_arith)
                requires
                    rest * 0x1_0000_0000_0000_0000_0000_0000_0000_0000nat <= value,
                    value < 0x1_0000_0000_0000_0000_0000_0000_0000_0000nat,
            ;
        }
        Uint256 { be }
    }

    /// Compares the two numbers byte by byte, from the most significant:
    /// whether `self` is the smaller, and whether it is the larger.
    fn order(&self, other: &Uint256) -> (r: (bool, bool))
        ensures
            r.0 == (self@ < other@),
            r.1 == (self@ > other@),
    {
        let mut less = false;
        let mut greater = false;
        let mut i: usize = 0;
        while i < 32
            invariant
                i <= 32,
                less == (be_value(self.be@.take(i as int)) < be_value(other.be@.take(i as int))),
                greater == (be_value(self.be@.take(i as int)) > be_value(
                    other.be@.take(i as int),
                )),
            decreases 32 - i,
        {
            proof {
                lemma_be_value_step(self.be@, i as int);
                lemma_be_value_step(other.be@, i as int);
            }
            if !less && !greater {
                less = self.be[i] < other.be[i];
                greater = self.be[i] > other.be[i];
            }
            i += 1;
        }
        assert(self.be@.take(32) =~= self.be@);
        assert(other.be@.take(32) =~= other.be@);
        (less, greater)
    }

    /// Whether the number is zero.
    pub fn is_zero(&self) -> (r: bool)
        ensures
            r == (self@ == 0),
    {
        let (less, greater) = self.order(&Uint256::zero());
        !less && !greater
    }

    /// Whether `self` is strictly greater than `other`.
    pub fn gt(&self, other: &Uint256) -> (r: bool)
        ensures
            r == (self@ > other@),
    {
        self.order(other).1
    }

    /// The sum of the two numbers, or [`u256_max`] where the sum is larger.
    pub fn saturating_add(self, other: Uint256) -> (r: Uint256)
        ensures
            r@ == sat_add(self@, other@),
    {
        raw_saturating_add(self, other)
    }

    /// The difference of the two numbers, or zero where `other` is larger.
    pub fn saturating_sub(self, other: Uint256) -> (r: Uint256)
        ensures
            r@ == sat_sub(self@, other@),
    {
        raw_saturating_sub(self, other)
    }

    /// `self * numerator / denominator`, rounded down. The product is taken
    /// at full width, so that only the quotient has to fit.
    pub fn multiply_ratio(self, numerator: Uint256, denominator: Uint256) -> (r: Uint256)
        requires
            denominator@ != 0,
            ratio(self@, numerator@, denominator@) <= u256_max(),
        ensures
            r@ == ratio(self@, numerator@, denominator@),
    {
        raw_multiply_ratio(self, numerator, denominator)
    }

    /// The share `percentage / 100` of the number, rounded down.
    pub fn percent_of(self, percentage: u32) -> (r: Uint256)
        requires
            percentage <= 100,
        ensures
            r@ == ratio(self@, percentage as nat, 100),
            r@ <= self@,
    {
        proof {
            lemma_ratio_bound(self@, percentage as nat, 100);
            self.lemma_bounded();
        }
        let numerator = Uint256::from_u128(percentage as u128);
        let denominator = Uint256::from_u128(100);
        raw_multiply_ratio(self, numerator, denominator)
    }
}

impl PartialEq for Uint256 {
    fn eq(&self, other: &Uint256) -> (r: bool) {
        let (less, greater) = self.order(other);
        !less && !greater
    }
}

impl vstd::std_specs::cmp::PartialEqSpecImpl for Uint256 {
    open spec fn obeys_eq_spec() -> bool {
        true
    }

    open spec fn eq_spec(&self, other: &Uint256) -> bool {
        self@ == other@
    }
}

/// Calls `cosmwasm_std::Uint256::saturating_add`: the sum, or the largest
/// value where the sum does not fit.
#[verifier::external_body]
fn raw_saturating_add(a: Uint256, b: Uint256) -> (r: Uint256)
    ensures
        r@ == sat_add(a@, b@),
{
    let x = cosmwasm_std::Uint256::from_be_bytes(a.be);
    let y = cosmwasm_std::Uint256::from_be_bytes(b.be);
    Uint256 { be: x.saturating_add(y).to_be_bytes() }
}

/// Calls `cosmwasm_std::Uint256::saturating_sub`: the difference, or zero
/// where the second number is the larger.
#[verifier::external_body]
fn raw_saturating_sub(a: Uint256, b: Uint256) -> (r: Uint256)
    ensures
        r@ == sat_sub(a@, b@),
{
    let x = cosmwasm_std::Uint256::from_be_bytes(a.be);
    let y = cosmwasm_std::Uint256::from_be_bytes(b.be);
    Uint256 { be: x.saturating_sub(y).to_be_bytes() }
}

/// Calls `cosmwasm_std::Uint256::multiply_ratio`: the product of `a` and
/// `numerator` at 512 bits, divided by `denominator` and rounded down. It
/// panics on a zero denominator and on a quotient that does not fit, which
/// the precondition leaves out.
#[verifier::external_body]
fn raw_multiply_ratio(a: Uint256, numerator: Uint256, denominator: Uint256) -> (r: Uint256)
    requires
        denominator@ != 0,
        ratio(a@, numerator@, denominator@) <= u256_max(),
    ensures
        r@ == ratio(a@, numerator@, denominator@),
{
    let x = cosmwasm_std::Uint256::from_be_bytes(a.be);
    let n = cosmwasm_std::Uint256::from_be_bytes(numerator.be);
    let d = cosmwasm_std::Uint256::from_be_bytes(denominator.be);
    Uint256 { be: x.multiply_ratio(n, d).to_be_bytes() }
}

} // verus!
