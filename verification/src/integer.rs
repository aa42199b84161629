//! The exact integer primitive: `num_bigint::BigInt`, as the verified code
//! sees it. Every contract in this file is taken on trust from the `num-bigint`
//! and `num-traits` crates; nothing else in the library is.

use num_bigint::BigInt;
use num_traits::{One, ToPrimitive, Zero};
use vstd::prelude::*;

verus! {

#[verifier::external_type_specification]
#[verifier::external_body]
pub struct ExBigInt(num_bigint::BigInt);

/// The mathematical integer that a `BigInt` holds.
pub uninterp spec fn int_of(x: BigInt) -> int;

/// The decimal digit with the given value.
pub open spec fn digit(d: int) -> char
    recommends
        0 <= d < 10,
{
    seq!['0', '1', '2', '3', '4', '5', '6', '7', '8', '9'][d]
}

/// A natural number in decimal notation, without leading zeros.
pub open spec fn decimal(n: nat) -> Seq<char>
    decreases n,
{
    if n < 10 {
        seq![digit(n as int)]
    } else {
        decimal(n / 10).push(digit((n % 10) as int))
    }
}

/// An integer in decimal notation, with a minus sign where it is negative.
pub open spec fn integer_text(v: int) -> Seq<char> {
    if v < 0 {
        seq!['-'] + decimal((-v) as nat)
    } else {
        decimal(v as nat)
    }
}

/// `BigInt::from(i64)`: the big integer with the value of `n`.
#[verifier::external_body]
pub(crate) fn big_from_i64(n: i64) -> (r: BigInt)
    ensures
        int_of(r) == n,
{
    BigInt::from(n)
}

/// `<BigInt as Clone>::clone`: a copy with the same value.
#[verifier::external_body]
pub(crate) fn big_clone(x: &BigInt) -> (r: BigInt)
    ensures
        int_of(r) == int_of(*x),
{
    x.clone()
}

/// `&BigInt + &BigInt`: the exact sum, of any magnitude.
#[verifier::external_body]
pub(crate) fn big_add(x: &BigInt, y: &BigInt) -> (r: BigInt)
    ensures
        int_of(r) == int_of(*x) + int_of(*y),
{
    x + y
}

/// `&BigInt * &BigInt`: the exact product, of any magnitude.
#[verifier::external_body]
pub(crate) fn big_mul(x: &BigInt, y: &BigInt) -> (r: BigInt)
    ensures
        int_of(r) == int_of(*x) * int_of(*y),
{
    x * y
}

/// `-BigInt`: the value with its sign flipped.
#[verifier::external_body]
pub(crate) fn big_neg(x: BigInt) -> (r: BigInt)
    ensures
        int_of(r) == -int_of(x),
{
    -x
}

/// `<BigInt as Zero>::is_zero`: whether the value is 0.
#[verifier::external_body]
pub(crate) fn big_is_zero(x: &BigInt) -> (r: bool)
    ensures
        r == (int_of(*x) == 0),
{
    x.is_zero()
}

/// `<BigInt as One>::is_one`: whether the value is 1.
#[verifier::external_body]
pub(crate) fn big_is_one(x: &BigInt) -> (r: bool)
    ensures
        r == (int_of(*x) == 1),
{
    x.is_one()
}

/// `<BigInt as ToPrimitive>::to_i64`: the value as an `i64` where it fits in
/// one, and `None` where it does not.
#[verifier::external_body]
pub(crate) fn big_to_i64(x: &BigInt) -> (r: Option<i64>)
    ensures
        r == (if i64::MIN <= int_of(*x) <= i64::MAX {
            Some(int_of(*x) as i64)
        } else {
            None
        }),
{
    x.to_i64()
}

/// `<BigInt as ToPrimitive>::to_u64`: the value as a `u64` where it fits in
/// one, and `None` where it does not.
#[verifier::external_body]
pub(crate) fn big_to_u64(x: &BigInt) -> (r: Option<u64>)
    ensures
        r == (if 0 <= int_of(*x) <= u64::MAX {
            Some(int_of(*x) as u64)
        } else {
            None
        }),
{
    x.to_u64()
}

/// `<BigInt as ToString>::to_string`: the value in decimal notation, with a
/// minus sign where it is negative and no sign where it is not.
#[verifier::external_body]
pub(crate) fn big_to_string(x: &BigInt) -> (r: String)
    ensures
        r@ == integer_text(int_of(*x)),
{
    x.to_string()
}

} // verus!
