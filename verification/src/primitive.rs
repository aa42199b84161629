//! Exact values as machine integers, where they are whole and fit.

use crate::integer::{big_to_i64, big_to_u64};
use crate::val::{val_expr, Expr, Val};
use vstd::arithmetic::power::{lemma_pow_increases, lemma_pow_positive, pow};
use vstd::prelude::*;

verus! {

/// The integer as an `i64`, where it is in range.
pub open spec fn narrow_i64(v: int) -> Option<i64> {
    if i64::MIN <= v <= i64::MAX {
        Some(v as i64)
    } else {
        None
    }
}

/// The integer as a `u64`, where it is in range.
pub open spec fn narrow_u64(v: int) -> Option<u64> {
    if 0 <= v <= u64::MAX {
        Some(v as u64)
    } else {
        None
    }
}

/// The distance of an integer from zero.
pub open spec fn magnitude(v: int) -> int {
    if v < 0 {
        -v
    } else {
        v
    }
}

impl Expr {
    /// The expression as an `i64`. A literal is worth its value, a sum or a
    /// product what its operands add or multiply to, a power of a whole
    /// base with an exponent that fits in 32 bits what it comes to; a
    /// reciprocal is worth one where its operand is, and a reciprocal of a
    /// reciprocal what the innermost operand is worth. Nothing else has a
    /// worth, nor has anything of which a part has none or leaves the range.
    pub open spec fn as_i64(self) -> Option<i64>
        decreases self,
    {
        match self {
            Expr::Int(v) => narrow_i64(v),
            Expr::Sum(a, b) => match (a.as_i64(), b.as_i64()) {
                (Some(x), Some(y)) => narrow_i64(x + y),
                _ => None,
            },
            Expr::Prod(a, b) => match (a.as_i64(), b.as_i64()) {
                (Some(x), Some(y)) => narrow_i64(x * y),
                _ => None,
            },
            Expr::Rec(a) => match *a {
                Expr::Rec(x) => x.as_i64(),
                _ => if a.as_i64() == Some(1i64) {
                    Some(1i64)
                } else {
                    None
                },
            },
            Expr::Pow(a, b) => match (a.as_i64(), b.as_u64()) {
                (Some(x), Some(y)) => if y <= u32::MAX {
                    narrow_i64(pow(x as int, y as nat))
                } else {
                    None
                },
                _ => None,
            },
            _ => None,
        }
    }

    /// The expression as a `u64`, by the same rules, with every part in the
    /// range of a `u64`.
    pub open spec fn as_u64(self) -> Option<u64>
        decreases self,
    {
        match self {
            Expr::Int(v) => narrow_u64(v),
            Expr::Sum(a, b) => match (a.as_u64(), b.as_u64()) {
                (Some(x), Some(y)) => narrow_u64(x + y),
                _ => None,
            },
            Expr::Prod(a, b) => match (a.as_u64(), b.as_u64()) {
                (Some(x), Some(y)) => narrow_u64(x * y),
                _ => None,
            },
            Expr::Rec(a) => match *a {
                Expr::Rec(x) => x.as_u64(),
                _ => if a.as_u64() == Some(1u64) {
                    Some(1u64)
                } else {
                    None
                },
            },
            Expr::Pow(a, b) => match (a.as_u64(), b.as_u64()) {
                (Some(x), Some(y)) => if y <= u32::MAX {
                    narrow_u64(pow(x as int, y as nat))
                } else {
                    None
                },
                _ => None,
            },
            _ => None,
        }
    }
}

proof fn lemma_pow_unfold(x: int, n: nat)
    ensures
        pow(x, n + 1) == x * pow(x, n),
        pow(x, 0) == 1,
{
    reveal(pow);
}

/// With a base of magnitude two or more, a higher power has at least twice
/// the magnitude of a lower one.
proof fn lemma_pow_doubles(x: int, m: nat, n: nat)
    requires
        x >= 2 || x <= -2,
        m < n,
    ensures
        magnitude(pow(x, n)) >= 2 * magnitude(pow(x, m)),
    decreases n - m,
{
    let below = (n - 1) as nat;
    let q = pow(x, below);
    lemma_pow_unfold(x, below);
    assert(magnitude(x * q) >= 2 * magnitude(q)) by (nonlinear_arith)
        requires
            x >= 2 || x <= -2,
    {
    }
    if below > m {
        lemma_pow_doubles(x, m, below);
    }
}

/// Powers of minus one alternate between one and minus one.
proof fn lemma_pow_of_minus_one(n: nat)
    ensures
        pow(-1, n) == (if n % 2 == 0 {
            1int
        } else {
            -1int
        }),
    decreases n,
{
    if n == 0 {
        lemma_pow_unfold(-1, 0);
    } else {
        lemma_pow_of_minus_one((n - 1) as nat);
        lemma_pow_unfold(-1, (n - 1) as nat);
    }
}

/// Powers of zero and of one.
proof fn lemma_pow_of_zero_and_one(n: nat)
    ensures
        pow(1, n) == 1,
        pow(0, n) == (if n == 0 {
            1int
        } else {
            0int
        }),
    decreases n,
{
    if n == 0 {
        lemma_pow_unfold(0, 0);
        lemma_pow_unfold(1, 0);
    } else {
        lemma_pow_of_zero_and_one((n - 1) as nat);
        lemma_pow_unfold(0, (n - 1) as nat);
        lemma_pow_unfold(1, (n - 1) as nat);
    }
}

/// `x` to the power `y`, where that fits in an `i64`.
pub fn pow_i64(x: i64, y: u32) -> (r: Option<i64>)
    ensures
        r == narrow_i64(pow(x as int, y as nat)),
{
    proof {
        lemma_pow_of_zero_and_one(y as nat);
        lemma_pow_of_minus_one(y as nat);
    }
    if x == 0 {
        return if y == 0 {
            Some(1)
        } else {
            Some(0)
        };
    }
    if x == 1 {
        return Some(1);
    }
    if x == -1 {
        return if y % 2 == 0 {
            Some(1)
        } else {
            Some(-1)
        };
    }
    let mut acc: i64 = 1;
    let mut i: u32 = 0;
    proof {
        lemma_pow_unfold(x as int, 0);
    }
    while i < y
        invariant
            i <= y,
            x >= 2 || x <= -2,
            acc == pow(x as int, i as nat),
        decreases y - i,
    {
        proof {
            lemma_pow_unfold(x as int, i as nat);
        }
        match acc.checked_mul(x) {
            Some(next) => {
                acc = next;
            },
            None => {
                proof {
                    if i + 1 < y {
                        lemma_pow_doubles(x as int, (i + 1) as nat, y as nat);
                    }
                }
                return None;
            },
        }
        i += 1;
    }
    Some(acc)
}

/// `x` to the power `y`, where that fits in a `u64`.
pub fn pow_u64(x: u64, y: u32) -> (r: Option<u64>)
    ensures
        r == narrow_u64(pow(x as int, y as nat)),
{
    proof {
        lemma_pow_of_zero_and_one(y as nat);
    }
    if x == 0 {
        return if y == 0 {
            Some(1)
        } else {
            Some(0)
        };
    }
    if x == 1 {
        return Some(1);
    }
    let mut acc: u64 = 1;
    let mut i: u32 = 0;
    proof {
        lemma_pow_unfold(x as int, 0);
    }
    while i < y
        invariant
            i <= y,
            x >= 2,
            acc == pow(x as int, i as nat),
        decreases y - i,
    {
        proof {
            lemma_pow_unfold(x as int, i as nat);
        }
        match acc.checked_mul(x) {
            Some(next) => {
                acc = next;
            },
            None => {
                proof {
                    lemma_pow_increases(x as nat, (i + 1) as nat, y as nat);
                }
                return None;
            },
        }
        i += 1;
    }
    proof {
        lemma_pow_positive(x as int, y as nat);
    }
    Some(acc)
}

impl Val {
    /// Converts the value to an `i64`, where it is whole by the rules of
    /// `Expr::as_i64` and every part of it fits.
    pub fn to_i64(&self) -> (r: Option<i64>)
        ensures
            r == self@.as_i64(),
        decreases self,
    {
        proof {
            reveal_with_fuel(val_expr, 2);
        }
        match self {
            Val::Int(a) => big_to_i64(a),
            Val::Sum(a, b) => match a.to_i64() {
                Some(x) => match b.to_i64() {
                    Some(y) => x.checked_add(y),
                    None => None,
                },
                None => None,
            },
            Val::Prod(a, b) => match a.to_i64() {
                Some(x) => match b.to_i64() {
                    Some(y) => x.checked_mul(y),
                    None => None,
                },
                None => None,
            },
            Val::Rec(a) => match &**a {
                Val::Rec(x) => x.to_i64(),
                _ => match a.to_i64() {
                    Some(x) => if x == 1 {
                        Some(1)
                    } else {
                        None
                    },
                    None => None,
                },
            },
            Val::Pow(a, b) => match a.to_i64() {
                Some(x) => match b.to_u64() {
                    Some(y) => if y <= 0xffff_ffff {
                        pow_i64(x, y as u32)
                    } else {
                        None
                    },
                    None => None,
                },
                None => None,
            },
            _ => None,
        }
    }

    /// Converts the value to a `u64`, where it is whole by the rules of
    /// `Expr::as_u64` and every part of it fits.
    pub fn to_u64(&self) -> (r: Option<u64>)
        ensures
            r == self@.as_u64(),
        decreases self,
    {
        proof {
            reveal_with_fuel(val_expr, 2);
        }
        match self {
            Val::Int(a) => big_to_u64(a),
            Val::Sum(a, b) => match a.to_u64() {
                Some(x) => match b.to_u64() {
                    Some(y) => x.checked_add(y),
                    None => None,
                },
                None => None,
            },
            Val::Prod(a, b) => match a.to_u64() {
                Some(x) => match b.to_u64() {
                    Some(y) => x.checked_mul(y),
                    None => None,
                },
                None => None,
            },
            Val::Rec(a) => match &**a {
                Val::Rec(x) => x.to_u64(),
                _ => match a.to_u64() {
                    Some(x) => if x == 1 {
                        Some(1)
                    } else {
                        None
                    },
                    None => None,
                },
            },
            Val::Pow(a, b) => match a.to_u64() {
                Some(x) => match b.to_u64() {
                    Some(y) => if y <= 0xffff_ffff {
                        pow_u64(x, y as u32)
                    } else {
                        None
                    },
                    None => None,
                },
                None => None,
            },
            _ => None,
        }
    }
}

} // verus!
