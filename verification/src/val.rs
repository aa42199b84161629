//! Exact values and angles as symbolic expressions.

use crate::identities::{lemma_angles_stay_simplified, lemma_values_stay_simplified};
use crate::integer::{
    big_add, big_clone, big_from_i64, big_is_one, big_is_zero, big_mul, big_neg, int_of,
};
use num_bigint::BigInt;
use vstd::prelude::*;
use vstd::std_specs::convert::FromSpecImpl;

verus! {

/// An exact real number: an integer literal, or an operation on exact values.
#[derive(Debug, PartialEq, Eq)]
pub enum Val {
    Int(BigInt),
    Sum(Box<Val>, Box<Val>),
    Prod(Box<Val>, Box<Val>),
    Rec(Box<Val>),
    Pow(Box<Val>, Box<Val>),
    Sin(Angle),
    Cos(Angle),
}

/// An exact angle: a multiple of pi, a sum of angles, or an inverse
/// trigonometric function of an exact value.
#[derive(Debug, PartialEq, Eq)]
pub enum Angle {
    Pi(Box<Val>),
    Sum(Box<Angle>, Box<Angle>),
    ASin(Box<Val>),
    ACos(Box<Val>),
}

/// What a `Val` denotes: the same tree, with mathematical integers at its
/// leaves.
pub ghost enum Expr {
    Int(int),
    Sum(Box<Expr>, Box<Expr>),
    Prod(Box<Expr>, Box<Expr>),
    Rec(Box<Expr>),
    Pow(Box<Expr>, Box<Expr>),
    Sin(AngleExpr),
    Cos(AngleExpr),
}

/// What an `Angle` denotes.
pub ghost enum AngleExpr {
    Pi(Box<Expr>),
    Sum(Box<AngleExpr>, Box<AngleExpr>),
    ASin(Box<Expr>),
    ACos(Box<Expr>),
}

/// The expression that a value denotes: each literal by the integer it
/// holds, each operation by the same operation on what its operands denote.
pub open spec fn val_expr(v: Val) -> Expr
    decreases v,
{
    match v {
        Val::Int(x) => Expr::Int(int_of(x)),
        Val::Sum(a, b) => Expr::Sum(Box::new(val_expr(*a)), Box::new(val_expr(*b))),
        Val::Prod(a, b) => Expr::Prod(Box::new(val_expr(*a)), Box::new(val_expr(*b))),
        Val::Rec(a) => Expr::Rec(Box::new(val_expr(*a))),
        Val::Pow(a, b) => Expr::Pow(Box::new(val_expr(*a)), Box::new(val_expr(*b))),
        Val::Sin(t) => Expr::Sin(angle_expr(t)),
        Val::Cos(t) => Expr::Cos(angle_expr(t)),
    }
}

/// The expression that an angle denotes.
pub open spec fn angle_expr(t: Angle) -> AngleExpr
    decreases t,
{
    match t {
        Angle::Pi(v) => AngleExpr::Pi(Box::new(val_expr(*v))),
        Angle::Sum(a, b) => AngleExpr::Sum(Box::new(angle_expr(*a)), Box::new(angle_expr(*b))),
        Angle::ASin(v) => AngleExpr::ASin(Box::new(val_expr(*v))),
        Angle::ACos(v) => AngleExpr::ACos(Box::new(val_expr(*v))),
    }
}

impl View for Val {
    type V = Expr;

    open spec fn view(&self) -> Expr {
        val_expr(*self)
    }
}

impl View for Angle {
    type V = AngleExpr;

    open spec fn view(&self) -> AngleExpr {
        angle_expr(*self)
    }
}

/// Why an exact value could not be built.
#[derive(Debug, Clone, Copy, PartialEq, Eq, Structural)]
pub enum ValError {
    /// The reciprocal of the literal zero, or a division by it.
    DivisionByZero,
    /// The literal zero raised to the literal zero.
    IndeterminateForm,
}

impl Expr {
    /// The literal zero.
    pub open spec fn is_zero(self) -> bool {
        self == Expr::Int(0)
    }

    /// The literal one.
    pub open spec fn is_one(self) -> bool {
        self == Expr::Int(1)
    }

    /// No rule of the algebra applies anywhere in the expression: no sum or
    /// product holds a literal zero or two literals, no product a literal
    /// one, no reciprocal a literal zero or one, no power a literal zero, no
    /// sine or cosine the zero angle.
    pub open spec fn simplified(self) -> bool
        decreases self,
    {
        match self {
            Expr::Int(_) => true,
            Expr::Sum(a, b) => {
                &&& a.simplified() && b.simplified()
                &&& !a.is_zero() && !b.is_zero()
                &&& !(*a is Int && *b is Int)
            },
            Expr::Prod(a, b) => {
                &&& a.simplified() && b.simplified()
                &&& !a.is_zero() && !b.is_zero()
                &&& !a.is_one() && !b.is_one()
                &&& !(*a is Int && *b is Int)
            },
            Expr::Rec(a) => a.simplified() && !a.is_zero() && !a.is_one(),
            Expr::Pow(a, b) => a.simplified() && b.simplified() && !a.is_zero() && !b.is_zero(),
            Expr::Sin(t) => t.simplified() && !t.is_zero(),
            Expr::Cos(t) => t.simplified() && !t.is_zero(),
        }
    }

    /// The sum in its simplest form: a literal zero is dropped, two
    /// literals are added up, anything else becomes a `Sum` node.
    pub open spec fn plus(self, b: Expr) -> Expr {
        if self.is_zero() {
            b
        } else if b.is_zero() {
            self
        } else {
            match (self, b) {
                (Expr::Int(x), Expr::Int(y)) => Expr::Int(x + y),
                _ => Expr::Sum(Box::new(self), Box::new(b)),
            }
        }
    }

    /// The product in its simplest form: a literal zero absorbs, a literal
    /// one is dropped, two literals are multiplied, anything else becomes a
    /// `Prod` node.
    pub open spec fn times(self, b: Expr) -> Expr {
        if self.is_zero() || b.is_zero() {
            Expr::Int(0)
        } else if self.is_one() {
            b
        } else if b.is_one() {
            self
        } else {
            match (self, b) {
                (Expr::Int(x), Expr::Int(y)) => Expr::Int(x * y),
                _ => Expr::Prod(Box::new(self), Box::new(b)),
            }
        }
    }

    /// The negation: of a literal, the literal with the other sign; of
    /// anything else, its product with minus one.
    pub open spec fn negated(self) -> Expr {
        match self {
            Expr::Int(x) => Expr::Int(-x),
            _ => self.times(Expr::Int(-1)),
        }
    }

    /// The difference: the sum with the negation.
    pub open spec fn minus(self, b: Expr) -> Expr {
        self.plus(b.negated())
    }

    /// The reciprocal of anything but the literal zero: of the literal one,
    /// itself; of anything else, a `Rec` node.
    pub open spec fn inverse(self) -> Expr
        recommends
            !self.is_zero(),
    {
        if self.is_one() {
            Expr::Int(1)
        } else {
            Expr::Rec(Box::new(self))
        }
    }

    /// The quotient by anything but the literal zero: the product with the
    /// reciprocal, but for a literal zero on top or a literal one below.
    pub open spec fn over(self, b: Expr) -> Expr
        recommends
            !b.is_zero(),
    {
        if self.is_zero() {
            Expr::Int(0)
        } else if b.is_one() {
            self
        } else {
            self.times(b.inverse())
        }
    }

    /// The power, where base and exponent are not both the literal zero.
    pub open spec fn raised(self, b: Expr) -> Expr
        recommends
            !(self.is_zero() && b.is_zero()),
    {
        if self.is_zero() {
            Expr::Int(0)
        } else if b.is_zero() {
            Expr::Int(1)
        } else {
            Expr::Pow(Box::new(self), Box::new(b))
        }
    }

    /// One half: the literal one over the literal two.
    pub open spec fn half() -> Expr {
        Expr::Int(1).over(Expr::Int(2))
    }

    /// The square root: of the literals zero and one, themselves; of anything
    /// else, the power with exponent one half.
    pub open spec fn root(self) -> Expr {
        if self.is_zero() {
            Expr::Int(0)
        } else if self.is_one() {
            Expr::Int(1)
        } else {
            self.raised(Expr::half())
        }
    }

    /// The arc sine: of a sine, the angle inside it; of anything else, an
    /// `ASin` node.
    pub open spec fn arcsine(self) -> AngleExpr {
        match self {
            Expr::Sin(t) => t,
            _ => AngleExpr::ASin(Box::new(self)),
        }
    }

    /// The arc cosine: of a cosine, the angle inside it; of anything else, an
    /// `ACos` node.
    pub open spec fn arccosine(self) -> AngleExpr {
        match self {
            Expr::Cos(t) => t,
            _ => AngleExpr::ACos(Box::new(self)),
        }
    }
}

impl AngleExpr {
    /// The zero angle: the literal zero times pi.
    pub open spec fn is_zero(self) -> bool {
        self == AngleExpr::Pi(Box::new(Expr::Int(0)))
    }

    /// No rule of the algebra applies anywhere in the angle: no sum holds a
    /// zero angle or two multiples of pi, no arc sine a sine, no arc cosine
    /// a cosine, and every value in it is simplified.
    pub open spec fn simplified(self) -> bool
        decreases self,
    {
        match self {
            AngleExpr::Pi(v) => v.simplified(),
            AngleExpr::Sum(a, b) => {
                &&& a.simplified() && b.simplified()
                &&& !a.is_zero() && !b.is_zero()
                &&& !(*a is Pi && *b is Pi)
            },
            AngleExpr::ASin(v) => v.simplified() && !(*v is Sin),
            AngleExpr::ACos(v) => v.simplified() && !(*v is Cos),
        }
    }

    /// The sum in its simplest form: a zero angle is dropped, two multiples
    /// of pi become one whose coefficient is the sum of theirs, anything else
    /// becomes a `Sum` node.
    pub open spec fn plus(self, b: AngleExpr) -> AngleExpr {
        if self.is_zero() {
            b
        } else if b.is_zero() {
            self
        } else {
            match (self, b) {
                (AngleExpr::Pi(x), AngleExpr::Pi(y)) => AngleExpr::Pi(Box::new(x.plus(*y))),
                _ => AngleExpr::Sum(Box::new(self), Box::new(b)),
            }
        }
    }

    /// A multiple of pi with its coefficient multiplied by `v`.
    pub open spec fn scaled(self, v: Expr) -> AngleExpr
        recommends
            self is Pi,
    {
        AngleExpr::Pi(Box::new(self->Pi_0.times(v)))
    }

    /// A multiple of pi with its coefficient divided by `v`, which is not the
    /// literal zero.
    pub open spec fn shared(self, v: Expr) -> AngleExpr
        recommends
            self is Pi,
            !v.is_zero(),
    {
        AngleExpr::Pi(Box::new(self->Pi_0.over(v)))
    }

    /// The sine: of the zero angle, the literal zero; of anything else, a
    /// `Sin` node.
    pub open spec fn sine(self) -> Expr {
        if self.is_zero() {
            Expr::Int(0)
        } else {
            Expr::Sin(self)
        }
    }

    /// The cosine: of the zero angle, the literal one; of anything else, a
    /// `Cos` node.
    pub open spec fn cosine(self) -> Expr {
        if self.is_zero() {
            Expr::Int(1)
        } else {
            Expr::Cos(self)
        }
    }
}

impl Clone for Val {
    fn clone(&self) -> (r: Val)
        ensures
            r@ == self@,
        decreases self,
    {
        match self {
            Val::Int(x) => Val::Int(big_clone(x)),
            Val::Sum(a, b) => Val::Sum(Box::new((&**a).clone()), Box::new((&**b).clone())),
            Val::Prod(a, b) => Val::Prod(Box::new((&**a).clone()), Box::new((&**b).clone())),
            Val::Rec(a) => Val::Rec(Box::new((&**a).clone())),
            Val::Pow(a, b) => Val::Pow(Box::new((&**a).clone()), Box::new((&**b).clone())),
            Val::Sin(t) => Val::Sin(t.clone()),
            Val::Cos(t) => Val::Cos(t.clone()),
        }
    }
}

impl Clone for Angle {
    fn clone(&self) -> (r: Angle)
        ensures
            r@ == self@,
        decreases self,
    {
        match self {
            Angle::Pi(v) => Angle::Pi(Box::new((&**v).clone())),
            Angle::Sum(a, b) => Angle::Sum(Box::new((&**a).clone()), Box::new((&**b).clone())),
            Angle::ASin(v) => Angle::ASin(Box::new((&**v).clone())),
            Angle::ACos(v) => Angle::ACos(Box::new((&**v).clone())),
        }
    }
}

impl From<i64> for Val {
    /// The literal with the value of `item`.
    fn from(item: i64) -> (r: Val)
        ensures
            r@ == Expr::Int(item as int),
            r@.simplified(),
    {
        Val::Int(big_from_i64(item))
    }
}

impl FromSpecImpl<i64> for Val {
    open spec fn obeys_from_spec() -> bool {
        false
    }

    open spec fn from_spec(item: i64) -> Val {
        arbitrary()
    }
}

impl Val {
    /// Adds another value to this one.
    pub fn add(self, a: &Val) -> (r: Val)
        ensures
            r@ == self@.plus(a@),
            self@.simplified() && a@.simplified() ==> r@.simplified(),
    {
        proof {
            if self@.simplified() && a@.simplified() {
                lemma_values_stay_simplified(self@, a@);
            }
        }
        if self.is_zero() {
            a.clone()
        } else if a.is_zero() {
            self
        } else {
            match (&self, a) {
                (Val::Int(x), Val::Int(y)) => Val::Int(big_add(x, y)),
                _ => Val::Sum(Box::new(self), Box::new(a.clone())),
            }
        }
    }

    /// Subtracts another value from this one.
    pub fn sub(self, a: &Val) -> (r: Val)
        ensures
            r@ == self@.minus(a@),
            self@.simplified() && a@.simplified() ==> r@.simplified(),
    {
        proof {
            if self@.simplified() && a@.simplified() {
                lemma_values_stay_simplified(self@, a@);
            }
        }
        self.add(&a.clone().neg())
    }

    /// The value with its sign flipped.
    pub fn neg(self) -> (r: Val)
        ensures
            r@ == self@.negated(),
            self@.simplified() ==> r@.simplified(),
    {
        proof {
            if self@.simplified() {
                lemma_values_stay_simplified(self@, self@);
            }
        }
        match self {
            Val::Int(x) => Val::Int(big_neg(x)),
            _ => self.mul(&Val::from(-1)),
        }
    }

    /// Multiplies this value by another one.
    pub fn mul(self, a: &Val) -> (r: Val)
        ensures
            r@ == self@.times(a@),
            self@.simplified() && a@.simplified() ==> r@.simplified(),
    {
        proof {
            if self@.simplified() && a@.simplified() {
                lemma_values_stay_simplified(self@, a@);
            }
        }
        if self.is_zero() || a.is_zero() {
            Val::from(0)
        } else if self.is_one() {
            a.clone()
        } else if a.is_one() {
            self
        } else {
            match (&self, a) {
                (Val::Int(x), Val::Int(y)) => Val::Int(big_mul(x, y)),
                _ => Val::Prod(Box::new(self), Box::new(a.clone())),
            }
        }
    }

    /// Divides this value by another one. Fails on the literal zero as the
    /// divisor, and on nothing else.
    pub fn div(self, a: &Val) -> (r: Result<Val, ValError>)
        ensures
            match r {
                Ok(q) => !a@.is_zero() && q@ == self@.over(a@),
                Err(e) => a@.is_zero() && e == ValError::DivisionByZero,
            },
            self@.simplified() && a@.simplified() && r is Ok ==> r->Ok_0@.simplified(),
    {
        proof {
            if self@.simplified() && a@.simplified() {
                lemma_values_stay_simplified(self@, a@);
            }
        }
        if a.is_zero() {
            Err(ValError::DivisionByZero)
        } else if self.is_zero() {
            Ok(Val::from(0))
        } else if a.is_one() {
            Ok(self)
        } else {
            match a.clone().rec() {
                Ok(inv) => Ok(self.mul(&inv)),
                Err(e) => Err(e),
            }
        }
    }

    /// The reciprocal. Fails on the literal zero, and on nothing else.
    pub fn rec(self) -> (r: Result<Val, ValError>)
        ensures
            match r {
                Ok(q) => !self@.is_zero() && q@ == self@.inverse(),
                Err(e) => self@.is_zero() && e == ValError::DivisionByZero,
            },
            self@.simplified() && r is Ok ==> r->Ok_0@.simplified(),
    {
        proof {
            if self@.simplified() {
                lemma_values_stay_simplified(self@, self@);
            }
        }
        if self.is_zero() {
            Err(ValError::DivisionByZero)
        } else if self.is_one() {
            Ok(Val::from(1))
        } else {
            Ok(Val::Rec(Box::new(self)))
        }
    }

    /// Raises this value to a power. Fails where base and exponent are both
    /// the literal zero, and nowhere else.
    pub fn pow(self, a: &Val) -> (r: Result<Val, ValError>)
        ensures
            match r {
                Ok(p) => !(self@.is_zero() && a@.is_zero()) && p@ == self@.raised(a@),
                Err(e) => self@.is_zero() && a@.is_zero() && e == ValError::IndeterminateForm,
            },
            self@.simplified() && a@.simplified() && r is Ok ==> r->Ok_0@.simplified(),
    {
        proof {
            if self@.simplified() && a@.simplified() {
                lemma_values_stay_simplified(self@, a@);
            }
        }
        let base_is_zero = self.is_zero();
        let exponent_is_zero = a.is_zero();
        if base_is_zero && exponent_is_zero {
            Err(ValError::IndeterminateForm)
        } else if base_is_zero {
            Ok(Val::from(0))
        } else if exponent_is_zero {
            Ok(Val::from(1))
        } else {
            Ok(Val::Pow(Box::new(self), Box::new(a.clone())))
        }
    }

    /// The square root.
    pub fn sqrt(self) -> (r: Val)
        ensures
            r@ == self@.root(),
            self@.simplified() ==> r@.simplified(),
    {
        proof {
            if self@.simplified() {
                lemma_values_stay_simplified(self@, self@);
            }
        }
        if self.is_zero() {
            Val::from(0)
        } else if self.is_one() {
            Val::from(1)
        } else {
            let half = Val::from(1).div(&Val::from(2)).unwrap();
            self.pow(&half).unwrap()
        }
    }

    /// This value times pi, as an angle.
    pub fn pi(self) -> (r: Angle)
        ensures
            r@ == AngleExpr::Pi(Box::new(self@)),
            self@.simplified() ==> r@.simplified(),
    {
        Angle::Pi(Box::new(self))
    }

    /// The angle whose sine this value is.
    pub fn asin(self) -> (r: Angle)
        ensures
            r@ == self@.arcsine(),
            self@.simplified() ==> r@.simplified(),
    {
        proof {
            if self@.simplified() {
                lemma_values_stay_simplified(self@, self@);
            }
        }
        match self {
            Val::Sin(x) => x,
            _ => Angle::ASin(Box::new(self)),
        }
    }

    /// The angle whose cosine this value is.
    pub fn acos(self) -> (r: Angle)
        ensures
            r@ == self@.arccosine(),
            self@.simplified() ==> r@.simplified(),
    {
        proof {
            if self@.simplified() {
                lemma_values_stay_simplified(self@, self@);
            }
        }
        match self {
            Val::Cos(x) => x,
            _ => Angle::ACos(Box::new(self)),
        }
    }

    /// Whether this is the literal zero.
    pub fn is_zero(&self) -> (r: bool)
        ensures
            r == self@.is_zero(),
    {
        match self {
            Val::Int(x) => big_is_zero(x),
            _ => false,
        }
    }

    /// Whether this is the literal one.
    pub fn is_one(&self) -> (r: bool)
        ensures
            r == self@.is_one(),
    {
        match self {
            Val::Int(x) => big_is_one(x),
            _ => false,
        }
    }
}

impl Angle {
    /// Zero angle.
    pub fn zero() -> (r: Angle)
        ensures
            r@ == AngleExpr::Pi(Box::new(Expr::Int(0))),
            r@.simplified(),
    {
        Angle::Pi(Box::new(Val::from(0)))
    }

    /// A full turn.
    pub fn turn() -> (r: Angle)
        ensures
            r@ == AngleExpr::Pi(Box::new(Expr::Int(2))),
            r@.simplified(),
    {
        Angle::Pi(Box::new(Val::from(2)))
    }

    /// Adds another angle to this one.
    pub fn add(self, a: &Angle) -> (r: Angle)
        ensures
            r@ == self@.plus(a@),
            self@.simplified() && a@.simplified() ==> r@.simplified(),
    {
        proof {
            if self@.simplified() && a@.simplified() {
                lemma_angles_stay_simplified(self@, a@, Expr::Int(0));
            }
        }
        if self.is_zero() {
            a.clone()
        } else if a.is_zero() {
            self
        } else {
            match (&self, a) {
                (Angle::Pi(x), Angle::Pi(y)) => Angle::Pi(Box::new((&**x).clone().add(&**y))),
                _ => Angle::Sum(Box::new(self), Box::new(a.clone())),
            }
        }
    }

    /// Multiplies a multiple of pi by an exact value. Only a multiple of pi
    /// has a coefficient to scale: a sum of angles and an inverse
    /// trigonometric angle are not accepted.
    pub fn mul(self, a: &Val) -> (r: Angle)
        requires
            self@ is Pi,
        ensures
            r@ == self@.scaled(a@),
            self@.simplified() && a@.simplified() ==> r@.simplified(),
    {
        proof {
            if self@.simplified() && a@.simplified() {
                lemma_angles_stay_simplified(self@, self@, a@);
            }
        }
        match self {
            Angle::Pi(x) => Angle::Pi(Box::new((*x).mul(a))),
            _ => unreached(),
        }
    }

    /// Divides a multiple of pi by an exact value; no other form of angle is
    /// accepted. Fails on the literal zero as the divisor, and on nothing
    /// else.
    pub fn div(self, a: &Val) -> (r: Result<Angle, ValError>)
        requires
            self@ is Pi,
        ensures
            match r {
                Ok(q) => !a@.is_zero() && q@ == self@.shared(a@),
                Err(e) => a@.is_zero() && e == ValError::DivisionByZero,
            },
            self@.simplified() && a@.simplified() && r is Ok ==> r->Ok_0@.simplified(),
    {
        proof {
            if self@.simplified() && a@.simplified() {
                lemma_angles_stay_simplified(self@, self@, a@);
            }
        }
        match self {
            Angle::Pi(x) => match (*x).div(a) {
                Ok(q) => Ok(Angle::Pi(Box::new(q))),
                Err(e) => Err(e),
            },
            _ => unreached(),
        }
    }

    /// The sine of this angle.
    pub fn sin(self) -> (r: Val)
        ensures
            r@ == self@.sine(),
            self@.simplified() ==> r@.simplified(),
    {
        proof {
            if self@.simplified() {
                lemma_angles_stay_simplified(self@, self@, Expr::Int(0));
            }
        }
        if self.is_zero() {
            Val::from(0)
        } else {
            Val::Sin(self)
        }
    }

    /// The cosine of this angle.
    pub fn cos(self) -> (r: Val)
        ensures
            r@ == self@.cosine(),
            self@.simplified() ==> r@.simplified(),
    {
        proof {
            if self@.simplified() {
                lemma_angles_stay_simplified(self@, self@, Expr::Int(0));
            }
        }
        if self.is_zero() {
            Val::from(1)
        } else {
            Val::Cos(self)
        }
    }

    /// Checks if this angle is the literal zero angle: zero times pi, and no
    /// other form of it, such as a sum that cancels.
    pub fn is_zero(&self) -> (r: bool)
        ensures
            r == self@.is_zero(),
    {
        match self {
            Angle::Pi(x) => x.is_zero(),
            _ => false,
        }
    }
}

/// The square root of a value.
pub fn sqrt(a: Val) -> (r: Val)
    ensures
        r@ == a@.root(),
        a@.simplified() ==> r@.simplified(),
{
    a.sqrt()
}

} // verus!
