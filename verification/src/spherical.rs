//! Points on the unit sphere, given by two exact angles.

use crate::identities::{lemma_angles_stay_simplified, lemma_values_stay_simplified};
use crate::val::{Angle, AngleExpr, Expr, Val};
use vstd::prelude::*;

verus! {

/// Normalised spherical coordinates (r = 1).
/// Uses the physics convention (ISO 80000-2:2019).
#[derive(Debug, PartialEq, Eq)]
pub struct Norm {
    /// Polar angle, with respect to positive polar axis "z" [0-pi].
    theta: Angle,
    /// Azimuthal angle, rotation from the initial meridian plane "xz" [0-2pi].
    phi: Angle,
}

/// What a `Norm` denotes: its two angles.
pub ghost struct NormExpr {
    pub theta: AngleExpr,
    pub phi: AngleExpr,
}

impl View for Norm {
    type V = NormExpr;

    closed spec fn view(&self) -> NormExpr {
        NormExpr { theta: self.theta@, phi: self.phi@ }
    }
}

impl NormExpr {
    /// The north pole: both angles zero.
    pub open spec fn zero() -> NormExpr {
        NormExpr {
            theta: AngleExpr::Pi(Box::new(Expr::Int(0))),
            phi: AngleExpr::Pi(Box::new(Expr::Int(0))),
        }
    }

    /// Both angles are simplified.
    pub open spec fn simplified(self) -> bool {
        self.theta.simplified() && self.phi.simplified()
    }

    /// The point moved away from the north pole by the angle `a`.
    pub open spec fn south(self, a: AngleExpr) -> NormExpr {
        NormExpr { theta: self.theta.plus(a), phi: self.phi }
    }

    /// The point moved around the polar axis by the angle `a`.
    pub open spec fn east(self, a: AngleExpr) -> NormExpr {
        NormExpr { theta: self.theta, phi: self.phi.plus(a) }
    }

    /// The point moved towards the north pole by a multiple of pi.
    pub open spec fn north(self, a: AngleExpr) -> NormExpr
        recommends
            a is Pi,
    {
        self.south(a.scaled(Expr::Int(-1)))
    }

    /// The point moved around the polar axis, the other way, by a multiple
    /// of pi.
    pub open spec fn west(self, a: AngleExpr) -> NormExpr
        recommends
            a is Pi,
    {
        self.east(a.scaled(Expr::Int(-1)))
    }

    /// The first Cartesian coordinate: sin(theta) cos(phi).
    pub open spec fn x(self) -> Expr {
        self.theta.sine().times(self.phi.cosine())
    }

    /// The second Cartesian coordinate: sin(theta) sin(phi).
    pub open spec fn y(self) -> Expr {
        self.theta.sine().times(self.phi.sine())
    }

    /// The third Cartesian coordinate: cos(theta).
    pub open spec fn z(self) -> Expr {
        self.theta.cosine()
    }

    /// The square of the difference of one coordinate of two points.
    pub open spec fn squared_gap(from: Expr, to: Expr) -> Expr {
        to.minus(from).raised(Expr::Int(2))
    }

    /// The length of the chord from this point to another: the square root
    /// of the sum of the squared differences of their coordinates.
    pub open spec fn distance_to(self, to: NormExpr) -> Expr {
        NormExpr::squared_gap(self.x(), to.x()).plus(
            NormExpr::squared_gap(self.y(), to.y()),
        ).plus(NormExpr::squared_gap(self.z(), to.z())).root()
    }
}

impl Clone for Norm {
    fn clone(&self) -> (r: Norm)
        ensures
            r@ == self@,
    {
        Norm { theta: self.theta.clone(), phi: self.phi.clone() }
    }
}

impl Norm {
    /// The north pole.
    pub fn zero() -> (r: Norm)
        ensures
            r@ == NormExpr::zero(),
            r@.simplified(),
    {
        Norm { theta: Angle::zero(), phi: Angle::zero() }
    }

    /// Moves the point towards the north pole by a multiple of pi.
    pub fn north(self, a: &Angle) -> (r: Norm)
        requires
            a@ is Pi,
        ensures
            r@ == self@.north(a@),
            self@.simplified() && a@.simplified() ==> r@.simplified(),
    {
        proof {
            if self@.simplified() && a@.simplified() {
                lemma_points_stay_simplified(self@, self@, a@);
            }
        }
        self.south(&a.clone().mul(&Val::from(-1)))
    }

    /// Moves the point away from the north pole.
    pub fn south(self, a: &Angle) -> (r: Norm)
        ensures
            r@ == self@.south(a@),
            self@.simplified() && a@.simplified() ==> r@.simplified(),
    {
        proof {
            if self@.simplified() && a@.simplified() {
                lemma_points_stay_simplified(self@, self@, a@);
            }
        }
        Norm { theta: self.theta.add(a), phi: self.phi }
    }

    /// Moves the point around the polar axis.
    pub fn east(self, a: &Angle) -> (r: Norm)
        ensures
            r@ == self@.east(a@),
            self@.simplified() && a@.simplified() ==> r@.simplified(),
    {
        proof {
            if self@.simplified() && a@.simplified() {
                lemma_points_stay_simplified(self@, self@, a@);
            }
        }
        Norm { theta: self.theta, phi: self.phi.add(a) }
    }

    /// Moves the point around the polar axis, the other way, by a multiple
    /// of pi.
    pub fn west(self, a: &Angle) -> (r: Norm)
        requires
            a@ is Pi,
        ensures
            r@ == self@.west(a@),
            self@.simplified() && a@.simplified() ==> r@.simplified(),
    {
        proof {
            if self@.simplified() && a@.simplified() {
                lemma_points_stay_simplified(self@, self@, a@);
            }
        }
        self.east(&a.clone().mul(&Val::from(-1)))
    }

    /// The length of the chord from this point to another.
    pub fn distance_to(self, to: Norm) -> (r: Val)
        ensures
            r@ == self@.distance_to(to@),
            self@.simplified() && to@.simplified() ==> r@.simplified(),
    {
        proof {
            if self@.simplified() && to@.simplified() {
                lemma_points_stay_simplified(self@, to@, self@.theta);
            }
        }
        let dx = to.x().sub(&self.x()).pow(&Val::from(2)).unwrap();
        let dy = to.y().sub(&self.y()).pow(&Val::from(2)).unwrap();
        let dz = to.z().sub(&self.z()).pow(&Val::from(2)).unwrap();
        dx.add(&dy).add(&dz).sqrt()
    }

    /// The first Cartesian coordinate.
    pub fn x(&self) -> (r: Val)
        ensures
            r@ == self@.x(),
            self@.simplified() ==> r@.simplified(),
    {
        proof {
            if self@.simplified() {
                lemma_points_stay_simplified(self@, self@, self@.theta);
            }
        }
        self.theta.clone().sin().mul(&self.phi.clone().cos())
    }

    /// The second Cartesian coordinate.
    pub fn y(&self) -> (r: Val)
        ensures
            r@ == self@.y(),
            self@.simplified() ==> r@.simplified(),
    {
        proof {
            if self@.simplified() {
                lemma_points_stay_simplified(self@, self@, self@.theta);
            }
        }
        self.theta.clone().sin().mul(&self.phi.clone().sin())
    }

    /// The third Cartesian coordinate.
    pub fn z(&self) -> (r: Val)
        ensures
            r@ == self@.z(),
            self@.simplified() ==> r@.simplified(),
    {
        proof {
            if self@.simplified() {
                lemma_points_stay_simplified(self@, self@, self@.theta);
            }
        }
        self.theta.clone().cos()
    }
}

/// Rotating a point by a simplified angle keeps its angles simplified, and
/// so are its coordinates and its distance to another such point.
pub proof fn lemma_points_stay_simplified(p: NormExpr, q: NormExpr, a: AngleExpr)
    requires
        p.simplified(),
        q.simplified(),
        a.simplified(),
    ensures
        NormExpr::zero().simplified(),
        p.south(a).simplified(),
        p.east(a).simplified(),
        a is Pi ==> p.north(a).simplified(),
        a is Pi ==> p.west(a).simplified(),
        p.x().simplified(),
        p.y().simplified(),
        p.z().simplified(),
        p.distance_to(q).simplified(),
{
    let minus_one = Expr::Int(-1);
    lemma_values_stay_simplified(Expr::Int(0), minus_one);
    lemma_angles_stay_simplified(p.theta, a, minus_one);
    lemma_angles_stay_simplified(p.phi, a, minus_one);
    lemma_angles_stay_simplified(a, a, minus_one);
    if a is Pi {
        lemma_angles_stay_simplified(p.theta, a.scaled(minus_one), minus_one);
        lemma_angles_stay_simplified(p.phi, a.scaled(minus_one), minus_one);
    }
    lemma_coordinates_simplified(p);
    lemma_coordinates_simplified(q);
    let two = Expr::Int(2);
    lemma_values_stay_simplified(q.x(), p.x());
    lemma_values_stay_simplified(q.y(), p.y());
    lemma_values_stay_simplified(q.z(), p.z());
    lemma_values_stay_simplified(q.x().minus(p.x()), two);
    lemma_values_stay_simplified(q.y().minus(p.y()), two);
    lemma_values_stay_simplified(q.z().minus(p.z()), two);
    let dx = NormExpr::squared_gap(p.x(), q.x());
    let dy = NormExpr::squared_gap(p.y(), q.y());
    let dz = NormExpr::squared_gap(p.z(), q.z());
    lemma_values_stay_simplified(dx, dy);
    lemma_values_stay_simplified(dx.plus(dy), dz);
    lemma_values_stay_simplified(dx.plus(dy).plus(dz), two);
}

proof fn lemma_coordinates_simplified(p: NormExpr)
    requires
        p.simplified(),
    ensures
        p.x().simplified(),
        p.y().simplified(),
        p.z().simplified(),
{
    let one = Expr::Int(1);
    lemma_angles_stay_simplified(p.theta, p.phi, one);
    lemma_angles_stay_simplified(p.phi, p.theta, one);
    lemma_values_stay_simplified(p.theta.sine(), p.phi.cosine());
    lemma_values_stay_simplified(p.theta.sine(), p.phi.sine());
}

/// The chord from the north pole to itself is the literal zero.
pub proof fn lemma_pole_to_itself()
    ensures
        NormExpr::zero().distance_to(NormExpr::zero()) == Expr::Int(0),
{
}

} // verus!
