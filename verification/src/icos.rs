//! The regular icosahedron with edge length 1: its radii and angles in closed
//! form, and its twelve vertices as points on the unit sphere.

use crate::identities::{lemma_angles_stay_simplified, lemma_values_stay_simplified};
use crate::spherical::{lemma_points_stay_simplified, Norm, NormExpr};
use crate::val::{sqrt, Angle, AngleExpr, Expr, Val};
use vstd::prelude::*;

verus! {

/// (1 + sqrt(5)) / 2.
pub open spec fn golden_ratio() -> Expr {
    Expr::Int(5).root().plus(Expr::Int(1)).over(Expr::Int(2))
}

/// acos(sqrt(5) / 5).
pub open spec fn edge_angle() -> AngleExpr {
    Expr::Int(5).root().over(Expr::Int(5)).arccosine()
}

/// phi^2 / sqrt(3) / 2.
pub open spec fn inradius() -> Expr {
    golden_ratio().raised(Expr::Int(2)).over(Expr::Int(3).root()).over(Expr::Int(2))
}

/// sqrt(phi^2 + 1) / 2.
pub open spec fn circumradius() -> Expr {
    golden_ratio().raised(Expr::Int(2)).plus(Expr::Int(1)).root().over(Expr::Int(2))
}

/// phi / 2.
pub open spec fn midradius() -> Expr {
    golden_ratio().over(Expr::Int(2))
}

/// acos(-sqrt(5) / 5): the colatitude pi - alpha of the lower ring, as one
/// arc cosine.
pub open spec fn lower_colatitude() -> AngleExpr {
    Expr::Int(5).root().over(Expr::Int(5)).negated().arccosine()
}

/// `k` fifths of a full turn.
pub open spec fn azimuth(k: int) -> AngleExpr {
    AngleExpr::Pi(Box::new(Expr::Int(2))).scaled(Expr::Int(k)).shared(Expr::Int(5))
}

/// The point at the given colatitude, `k` fifths of a turn east of the
/// reference meridian.
pub open spec fn ring_point(colatitude: AngleExpr, k: int) -> NormExpr {
    NormExpr::zero().south(colatitude).east(azimuth(k))
}

/// The south pole: half a turn away from the north pole.
pub open spec fn south_pole() -> NormExpr {
    NormExpr::zero().south(AngleExpr::Pi(Box::new(Expr::Int(1))))
}

/// The vertex with the given index: the north pole, then the five points of
/// the upper ring, then the five of the lower ring, then the south pole.
pub open spec fn vertex(i: int) -> NormExpr {
    if i == 0 {
        NormExpr::zero()
    } else if i <= 5 {
        ring_point(edge_angle(), i - 1)
    } else if i <= 10 {
        ring_point(lower_colatitude(), i - 6)
    } else {
        south_pole()
    }
}

/// The golden ratio.
pub fn phi() -> (r: Val)
    ensures
        r@ == golden_ratio(),
        r@.simplified(),
{
    proof {
        lemma_closed_forms_simplified();
    }
    sqrt(Val::from(5)).add(&Val::from(1)).div(&Val::from(2)).unwrap()
}

/// Angle at the origin between two vertices of an edge.
pub fn alpha() -> (r: Angle)
    ensures
        r@ == edge_angle(),
        r@.simplified(),
{
    proof {
        lemma_closed_forms_simplified();
    }
    sqrt(Val::from(5)).div(&Val::from(5)).unwrap().acos()
}

/// Inradius:
/// radius of the inscribed sphere of an icosahedron with edge length 1.
pub fn inr() -> (r: Val)
    ensures
        r@ == inradius(),
        r@.simplified(),
{
    proof {
        lemma_closed_forms_simplified();
    }
    phi().pow(&Val::from(2)).unwrap().div(&sqrt(Val::from(3))).unwrap().div(
        &Val::from(2),
    ).unwrap()
}

/// Circumradius:
/// radius of the circumsphere of an icosahedron with edge length 1.
pub fn cir() -> (r: Val)
    ensures
        r@ == circumradius(),
        r@.simplified(),
{
    proof {
        lemma_closed_forms_simplified();
    }
    sqrt(phi().pow(&Val::from(2)).unwrap().add(&Val::from(1))).div(&Val::from(2)).unwrap()
}

/// Midradius:
/// radius of the midsphere of an icosahedron with edge length 1.
pub fn mid() -> (r: Val)
    ensures
        r@ == midradius(),
        r@.simplified(),
{
    proof {
        lemma_closed_forms_simplified();
    }
    phi().div(&Val::from(2)).unwrap()
}

/// Appends the five points of the ring at the given colatitude, a fifth of a
/// turn apart, starting on the reference meridian.
fn push_ring(points: &mut Vec<Norm>, colatitude: &Angle)
    ensures
        final(points)@.len() == old(points)@.len() + 5,
        forall|j: int| 0 <= j < old(points)@.len() ==> final(points)@[j] == old(points)@[j],
        forall|k: int|
            0 <= k < 5 ==> (#[trigger] final(points)@[old(points)@.len() + k])@ == ring_point(
                colatitude@,
                k,
            ),
{
    let ghost before = points@;
    let mut k: i64 = 0;
    while k < 5
        invariant
            0 <= k <= 5,
            points@.len() == before.len() + k,
            forall|j: int| 0 <= j < before.len() ==> points@[j] == before[j],
            forall|i: int|
                0 <= i < k ==> (#[trigger] points@[before.len() + i])@ == ring_point(
                    colatitude@,
                    i,
                ),
        decreases 5 - k,
    {
        let east = Angle::turn().mul(&Val::from(k)).div(&Val::from(5)).unwrap();
        points.push(Norm::zero().south(colatitude).east(&east));
        k += 1;
    }
}

/// The twelve vertices, in the order that a triangulation indexes them by:
/// the north pole; the ring at colatitude alpha, five points a fifth of a
/// turn apart, the first on the reference meridian; the ring at colatitude
/// pi - alpha, at the same azimuths; the south pole.
pub fn coords() -> (r: Vec<Norm>)
    ensures
        r@.len() == 12,
        forall|i: int| 0 <= i < 12 ==> (#[trigger] r@[i])@ == vertex(i),
        forall|i: int| 0 <= i < 12 ==> (#[trigger] r@[i])@.simplified(),
{
    let mut points: Vec<Norm> = Vec::new();
    points.push(Norm::zero());
    push_ring(&mut points, &alpha());
    let lower = sqrt(Val::from(5)).div(&Val::from(5)).unwrap().neg().acos();
    push_ring(&mut points, &lower);
    points.push(Norm::zero().south(&Val::from(1).pi()));
    proof {
        assert forall|i: int| 0 <= i < 12 implies (#[trigger] points@[i])@ == vertex(i) by {
            if 1 <= i <= 5 {
                assert(points@[1 + (i - 1)]@ == ring_point(edge_angle(), i - 1));
            } else if 6 <= i <= 10 {
                assert(points@[6 + (i - 6)]@ == ring_point(lower_colatitude(), i - 6));
            }
        }
        assert forall|i: int| 0 <= i < 12 implies (#[trigger] points@[i])@.simplified() by {
            lemma_vertices_simplified(i);
        }
    }
    points
}

/// The closed forms are simplified: no rule of the algebra applies to them
/// any more.
pub proof fn lemma_closed_forms_simplified()
    ensures
        golden_ratio().simplified(),
        edge_angle().simplified(),
        lower_colatitude().simplified(),
        inradius().simplified(),
        circumradius().simplified(),
        midradius().simplified(),
{
    let one = Expr::Int(1);
    let two = Expr::Int(2);
    let three = Expr::Int(3);
    let five = Expr::Int(5);
    lemma_values_stay_simplified(five, three);
    lemma_values_stay_simplified(three, five);
    lemma_values_stay_simplified(five.root(), one);
    lemma_values_stay_simplified(five.root().plus(one), two);
    lemma_values_stay_simplified(five.root(), five);
    lemma_values_stay_simplified(five.root().over(five), five);
    lemma_values_stay_simplified(five.root().over(five).negated(), five);
    lemma_values_stay_simplified(golden_ratio(), two);
    let square = golden_ratio().raised(two);
    lemma_values_stay_simplified(square, three.root());
    lemma_values_stay_simplified(square.over(three.root()), two);
    lemma_values_stay_simplified(square, one);
    lemma_values_stay_simplified(square.plus(one), two);
    lemma_values_stay_simplified(square.plus(one).root(), two);
}

/// The place of a vertex in its ring.
spec fn place_in_ring(i: int) -> int {
    if i <= 5 {
        i - 1
    } else {
        i - 6
    }
}

/// Every vertex is simplified.
pub proof fn lemma_vertices_simplified(i: int)
    requires
        0 <= i < 12,
    ensures
        vertex(i).simplified(),
{
    lemma_closed_forms_simplified();
    let turn = AngleExpr::Pi(Box::new(Expr::Int(2)));
    let half_turn = AngleExpr::Pi(Box::new(Expr::Int(1)));
    let pole = NormExpr::zero();
    lemma_values_stay_simplified(Expr::Int(0), Expr::Int(1));
    lemma_values_stay_simplified(Expr::Int(2), Expr::Int(place_in_ring(i)));
    lemma_points_stay_simplified(pole, pole, half_turn);
    let k = place_in_ring(i);
    lemma_angles_stay_simplified(turn, turn, Expr::Int(k));
    lemma_angles_stay_simplified(turn.scaled(Expr::Int(k)), turn, Expr::Int(5));
    lemma_points_stay_simplified(pole, pole, edge_angle());
    lemma_points_stay_simplified(pole, pole, lower_colatitude());
    lemma_points_stay_simplified(pole.south(edge_angle()), pole, azimuth(k));
    lemma_points_stay_simplified(pole.south(lower_colatitude()), pole, azimuth(k));
}

} // verus!
