//! What the simplification rules of the value and angle algebra amount to.

use crate::val::{AngleExpr, Expr};
use vstd::prelude::*;

verus! {

/// Two literals add up to one literal, never to a `Sum` node.
pub proof fn lemma_literals_add(a: int, b: int)
    ensures
        Expr::Int(a).plus(Expr::Int(b)) == Expr::Int(a + b),
{
}

/// Two literals multiply to one literal, never to a `Prod` node.
pub proof fn lemma_literals_multiply(a: int, b: int)
    ensures
        Expr::Int(a).times(Expr::Int(b)) == Expr::Int(a * b),
{
}

/// The literal zero is neutral for the sum, on either side.
pub proof fn lemma_plus_zero(x: Expr)
    ensures
        x.plus(Expr::Int(0)) == x,
        Expr::Int(0).plus(x) == x,
{
}

/// The literal zero absorbs in a product, on either side.
pub proof fn lemma_times_zero(x: Expr)
    ensures
        x.times(Expr::Int(0)) == Expr::Int(0),
        Expr::Int(0).times(x) == Expr::Int(0),
{
}

/// The literal one is neutral for the product, on either side.
pub proof fn lemma_times_one(x: Expr)
    ensures
        x.times(Expr::Int(1)) == x,
        Expr::Int(1).times(x) == x,
{
}

/// Where an operand is the literal zero, or both are literals, the sum does
/// not depend on their order.
pub proof fn lemma_plus_commutes_on_literals(x: Expr, y: Expr)
    requires
        x.is_zero() || y.is_zero() || (x is Int && y is Int),
    ensures
        x.plus(y) == y.plus(x),
{
}

/// Where an operand is the literal zero or one, or both are literals, the
/// product does not depend on their order.
pub proof fn lemma_times_commutes_on_literals(x: Expr, y: Expr)
    requires
        x.is_zero() || y.is_zero() || x.is_one() || y.is_one() || (x is Int && y is Int),
    ensures
        x.times(y) == y.times(x),
{
    if x is Int && y is Int {
        assert(x->Int_0 * y->Int_0 == y->Int_0 * x->Int_0) by (nonlinear_arith);
    }
}

/// Negating a literal gives the literal of the other sign, and subtracting
/// one literal from another gives their difference.
pub proof fn lemma_literals_subtract(a: int, b: int)
    ensures
        Expr::Int(a).negated() == Expr::Int(-a),
        Expr::Int(a).minus(Expr::Int(b)) == Expr::Int(a - b),
{
}

/// Dividing by the literal one changes nothing, and the literal zero divided
/// by anything but itself stays zero.
pub proof fn lemma_over_one_and_zero(x: Expr)
    ensures
        x.over(Expr::Int(1)) == x,
        !x.is_zero() ==> Expr::Int(0).over(x) == Expr::Int(0),
{
}

/// The reciprocal of the literal one is the literal one. Any other value is
/// wrapped, a reciprocal too: taking it twice does not lead back.
pub proof fn lemma_inverse(x: Expr)
    ensures
        Expr::Int(1).inverse() == Expr::Int(1),
        !x.is_one() ==> x.inverse() == Expr::Rec(Box::new(x)),
        !x.is_zero() && !x.is_one() ==> x.inverse().inverse() != x,
{
}

/// Anything but the literal zero, raised to it, is the literal one; the
/// literal zero raised to anything else is itself.
pub proof fn lemma_raised_zero(x: Expr)
    requires
        !x.is_zero(),
    ensures
        x.raised(Expr::Int(0)) == Expr::Int(1),
        Expr::Int(0).raised(x) == Expr::Int(0),
{
}

/// The square root of anything but the literals zero and one is the power
/// with the reciprocal of two as its exponent.
pub proof fn lemma_root(x: Expr)
    ensures
        Expr::Int(0).root() == Expr::Int(0),
        Expr::Int(1).root() == Expr::Int(1),
        !x.is_zero() && !x.is_one() ==> x.root() == Expr::Pow(
            Box::new(x),
            Box::new(Expr::Rec(Box::new(Expr::Int(2)))),
        ),
{
}

/// The arc sine undoes the sine, and the arc cosine the cosine, of every
/// angle but the zero angle, whose sine and cosine are literals.
pub proof fn lemma_inverse_trig_cancels(a: AngleExpr)
    requires
        !a.is_zero(),
    ensures
        a.sine().arcsine() == a,
        a.cosine().arccosine() == a,
{
}

/// The sine and cosine of the zero angle are the literals zero and one, and
/// their arc sine and arc cosine are wrapped, not led back to the zero angle.
pub proof fn lemma_trig_of_zero_angle(a: AngleExpr)
    requires
        a.is_zero(),
    ensures
        a.sine() == Expr::Int(0),
        a.cosine() == Expr::Int(1),
        a.sine().arcsine() == AngleExpr::ASin(Box::new(Expr::Int(0))),
        a.cosine().arccosine() == AngleExpr::ACos(Box::new(Expr::Int(1))),
{
}

/// Two multiples of pi add up to one multiple of pi, whose coefficient is the
/// sum of theirs.
pub proof fn lemma_pi_multiples_add(x: Expr, y: Expr)
    ensures
        AngleExpr::Pi(Box::new(x)).plus(AngleExpr::Pi(Box::new(y))) == AngleExpr::Pi(
            Box::new(x.plus(y)),
        ),
{
}

/// The zero angle is neutral for the sum of angles, on either side.
pub proof fn lemma_angle_plus_zero(a: AngleExpr, z: AngleExpr)
    requires
        z.is_zero(),
    ensures
        a.plus(z) == a,
        z.plus(a) == a,
{
}

/// Every operation on values keeps its operands simplified: what it builds
/// from simplified operands is simplified again.
pub proof fn lemma_values_stay_simplified(x: Expr, y: Expr)
    requires
        x.simplified(),
        y.simplified(),
    ensures
        x.plus(y).simplified(),
        x.times(y).simplified(),
        x.negated().simplified(),
        x.minus(y).simplified(),
        !x.is_zero() ==> x.inverse().simplified(),
        !y.is_zero() ==> x.over(y).simplified(),
        !(x.is_zero() && y.is_zero()) ==> x.raised(y).simplified(),
        x.root().simplified(),
        x.arcsine().simplified(),
        x.arccosine().simplified(),
        AngleExpr::Pi(Box::new(x)).simplified(),
{
    reveal_with_fuel(Expr::simplified, 3);
    assert(x.plus(y).simplified());
    assert(x.times(y).simplified());
    assert(x.negated().simplified());
    assert(y.negated().simplified());
    assert(x.minus(y).simplified());
    if !y.is_zero() {
        assert(y.inverse().simplified());
        assert(x.over(y).simplified());
    }
    assert(Expr::half().simplified());
    assert(x.root().simplified());
}

/// Every operation on angles keeps its operands simplified.
pub proof fn lemma_angles_stay_simplified(a: AngleExpr, b: AngleExpr, v: Expr)
    requires
        a.simplified(),
        b.simplified(),
        v.simplified(),
    ensures
        a.plus(b).simplified(),
        a is Pi ==> a.scaled(v).simplified(),
        a is Pi && !v.is_zero() ==> a.shared(v).simplified(),
        a.sine().simplified(),
        a.cosine().simplified(),
{
    lemma_values_stay_simplified(v, v);
    if a is Pi {
        lemma_values_stay_simplified(*a->Pi_0, v);
        if b is Pi {
            lemma_values_stay_simplified(*a->Pi_0, *b->Pi_0);
        }
    }
}

} // verus!
