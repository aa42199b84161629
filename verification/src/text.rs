//! Exact values and angles written out as text.

use crate::integer::{big_to_string, integer_text};
use crate::val::{Angle, AngleExpr, Expr, Val};
use vstd::prelude::*;

verus! {

/// `String::push`: appends one character to the end of the string.
#[verifier::external_body]
pub(crate) fn push_char(s: &mut String, c: char)
    ensures
        final(s)@ == old(s)@.push(c),
{
    s.push(c)
}

impl Expr {
    /// The expression in infix notation, every operation in parentheses.
    pub open spec fn text(self) -> Seq<char>
        decreases self,
    {
        match self {
            Expr::Int(a) => integer_text(a),
            Expr::Sum(a, b) => "("@ + a.text() + " + "@ + b.text() + ")"@,
            Expr::Prod(a, b) => "("@ + a.text() + " * "@ + b.text() + ")"@,
            Expr::Rec(a) => "(1 / "@ + a.text() + ")"@,
            Expr::Pow(a, b) => "("@ + a.text() + "^"@ + b.text() + ")"@,
            Expr::Sin(t) => "sin("@ + t.text() + ")"@,
            Expr::Cos(t) => "cos("@ + t.text() + ")"@,
        }
    }
}

impl AngleExpr {
    /// The angle in infix notation. The zero angle is written as `0`, any
    /// other multiple of pi as its coefficient times `pi`.
    pub open spec fn text(self) -> Seq<char>
        decreases self,
    {
        match self {
            AngleExpr::Pi(a) => if a.is_zero() {
                "0"@
            } else {
                a.text() + " * pi"@
            },
            AngleExpr::Sum(a, b) => "("@ + a.text() + " + "@ + b.text() + ")"@,
            AngleExpr::ASin(a) => "asin("@ + a.text() + ")"@,
            AngleExpr::ACos(a) => "acos("@ + a.text() + ")"@,
        }
    }
}

/// `open`, then the two texts with `between` in the middle, then `)`.
fn joined(open: &str, left: String, between: &str, right: String) -> (r: String)
    ensures
        r@ == open@ + left@ + between@ + right@ + ")"@,
{
    let mut s = String::from_str(open);
    s.append(left.as_str());
    s.append(between);
    s.append(right.as_str());
    s.append(")");
    s
}

/// `open`, then the text, then `)`.
fn wrapped(open: &str, inner: String) -> (r: String)
    ensures
        r@ == open@ + inner@ + ")"@,
{
    let mut s = String::from_str(open);
    s.append(inner.as_str());
    s.append(")");
    s
}

impl Val {
    /// The value in infix notation, every operation in parentheses.
    pub fn to_string(&self) -> (r: String)
        ensures
            r@ == self@.text(),
        decreases self,
    {
        match self {
            Val::Int(a) => big_to_string(a),
            Val::Sum(a, b) => joined("(", a.to_string(), " + ", b.to_string()),
            Val::Prod(a, b) => joined("(", a.to_string(), " * ", b.to_string()),
            Val::Rec(a) => wrapped("(1 / ", a.to_string()),
            Val::Pow(a, b) => joined("(", a.to_string(), "^", b.to_string()),
            Val::Sin(t) => wrapped("sin(", t.to_string()),
            Val::Cos(t) => wrapped("cos(", t.to_string()),
        }
    }
}

impl Angle {
    /// The angle in infix notation.
    pub fn to_string(&self) -> (r: String)
        ensures
            r@ == self@.text(),
        decreases self,
    {
        match self {
            Angle::Pi(a) => {
                if a.is_zero() {
                    String::from_str("0")
                } else {
                    let mut s = a.to_string();
                    s.append(" * pi");
                    s
                }
            },
            Angle::Sum(a, b) => joined("(", a.to_string(), " + ", b.to_string()),
            Angle::ASin(a) => wrapped("asin(", a.to_string()),
            Angle::ACos(a) => wrapped("acos(", a.to_string()),
        }
    }
}

} // verus!
