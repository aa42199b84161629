use icos::val::{sqrt, Angle, Val, ValError};
use num_bigint::BigInt;

fn lit(n: i64) -> Val {
    Val::Int(BigInt::from(n))
}

fn sum(a: Val, b: Val) -> Val {
    Val::Sum(Box::new(a), Box::new(b))
}

fn prod(a: Val, b: Val) -> Val {
    Val::Prod(Box::new(a), Box::new(b))
}

fn rec(a: Val) -> Val {
    Val::Rec(Box::new(a))
}

fn pow(a: Val, b: Val) -> Val {
    Val::Pow(Box::new(a), Box::new(b))
}

fn pi(a: Val) -> Angle {
    Angle::Pi(Box::new(a))
}

/// A value that is no literal.
fn root_five() -> Val {
    pow(lit(5), rec(lit(2)))
}

/// An angle that is no multiple of pi.
fn some_angle() -> Angle {
    Angle::ACos(Box::new(root_five()))
}

#[test]
fn literal_from_machine_integer() {
    assert_eq!(Val::from(7), lit(7));
    assert_eq!(Val::from(-7), lit(-7));
    assert_eq!(Val::from(0), lit(0));
    assert_eq!(Val::from(i64::MIN), Val::Int(BigInt::from(i64::MIN)));
    let v: Val = 12.into();
    assert_eq!(v, lit(12));
}

#[test]
fn clone_copies_the_tree() {
    let v = sum(root_five(), Val::Sin(some_angle()));
    assert_eq!(v.clone(), v);
    let a = Angle::Sum(Box::new(pi(lit(3))), Box::new(some_angle()));
    assert_eq!(a.clone(), a);
}

#[test]
fn literals_add_to_a_literal() {
    assert_eq!(Val::from(2).add(&Val::from(3)), lit(5));
    assert_eq!(Val::from(-2).add(&Val::from(2)), lit(0));
    assert_eq!(Val::from(40).add(&Val::from(-100)), lit(-60));
}

#[test]
fn literals_add_without_loss() {
    let big = Val::from(i64::MAX).add(&Val::from(i64::MAX));
    let expected = BigInt::from(i64::MAX) + BigInt::from(i64::MAX);
    assert_eq!(big, Val::Int(expected));
    let small = Val::from(i64::MIN).add(&Val::from(i64::MIN));
    assert_eq!(small, Val::Int(BigInt::from(i64::MIN) * 2));
}

#[test]
fn zero_is_dropped_from_a_sum() {
    assert_eq!(root_five().add(&Val::from(0)), root_five());
    assert_eq!(Val::from(0).add(&root_five()), root_five());
    assert_eq!(Val::from(0).add(&Val::from(0)), lit(0));
    assert_eq!(Val::from(9).add(&Val::from(0)), lit(9));
}

#[test]
fn other_sums_are_wrapped_in_order() {
    assert_eq!(root_five().add(&Val::from(1)), sum(root_five(), lit(1)));
    assert_eq!(Val::from(1).add(&root_five()), sum(lit(1), root_five()));
    assert_eq!(
        root_five().add(&root_five()),
        sum(root_five(), root_five())
    );
}

#[test]
fn negation() {
    assert_eq!(Val::from(5).neg(), lit(-5));
    assert_eq!(Val::from(-5).neg(), lit(5));
    assert_eq!(Val::from(0).neg(), lit(0));
    assert_eq!(root_five().neg(), prod(root_five(), lit(-1)));
}

#[test]
fn subtraction() {
    assert_eq!(Val::from(5).sub(&Val::from(3)), lit(2));
    assert_eq!(Val::from(3).sub(&Val::from(5)), lit(-2));
    assert_eq!(Val::from(3).sub(&Val::from(3)), lit(0));
    assert_eq!(root_five().sub(&Val::from(0)), root_five());
    assert_eq!(
        root_five().sub(&Val::from(2)),
        sum(root_five(), lit(-2))
    );
    assert_eq!(
        Val::from(2).sub(&root_five()),
        sum(lit(2), prod(root_five(), lit(-1)))
    );
    assert_eq!(
        Val::from(0).sub(&root_five()),
        prod(root_five(), lit(-1))
    );
}

#[test]
fn zero_absorbs_a_product() {
    assert_eq!(root_five().mul(&Val::from(0)), lit(0));
    assert_eq!(Val::from(0).mul(&root_five()), lit(0));
    assert_eq!(Val::from(0).mul(&Val::from(1)), lit(0));
    assert_eq!(Val::from(1).mul(&Val::from(0)), lit(0));
}

#[test]
fn one_is_dropped_from_a_product() {
    assert_eq!(root_five().mul(&Val::from(1)), root_five());
    assert_eq!(Val::from(1).mul(&root_five()), root_five());
    assert_eq!(Val::from(1).mul(&Val::from(1)), lit(1));
    assert_eq!(Val::from(-4).mul(&Val::from(1)), lit(-4));
}

#[test]
fn literals_multiply_to_a_literal() {
    assert_eq!(Val::from(2).mul(&Val::from(3)), lit(6));
    assert_eq!(Val::from(-2).mul(&Val::from(3)), lit(-6));
    assert_eq!(Val::from(-2).mul(&Val::from(-3)), lit(6));
    let big = Val::from(i64::MAX).mul(&Val::from(i64::MAX));
    assert_eq!(
        big,
        Val::Int(BigInt::from(i64::MAX) * BigInt::from(i64::MAX))
    );
}

#[test]
fn other_products_are_wrapped_in_order() {
    assert_eq!(root_five().mul(&Val::from(2)), prod(root_five(), lit(2)));
    assert_eq!(Val::from(2).mul(&root_five()), prod(lit(2), root_five()));
}

#[test]
fn reciprocal() {
    assert_eq!(Val::from(0).rec(), Err(ValError::DivisionByZero));
    assert_eq!(Val::from(1).rec(), Ok(lit(1)));
    assert_eq!(Val::from(2).rec(), Ok(rec(lit(2))));
    assert_eq!(Val::from(-1).rec(), Ok(rec(lit(-1))));
    assert_eq!(root_five().rec(), Ok(rec(root_five())));
}

#[test]
fn reciprocal_of_a_reciprocal_is_not_collapsed() {
    let twice = Val::from(2).rec().unwrap().rec().unwrap();
    assert_eq!(twice, rec(rec(lit(2))));
}

#[test]
fn division_by_zero_fails() {
    assert_eq!(Val::from(3).div(&Val::from(0)), Err(ValError::DivisionByZero));
    assert_eq!(Val::from(0).div(&Val::from(0)), Err(ValError::DivisionByZero));
    assert_eq!(root_five().div(&Val::from(0)), Err(ValError::DivisionByZero));
}

#[test]
fn division() {
    assert_eq!(Val::from(0).div(&Val::from(7)), Ok(lit(0)));
    assert_eq!(Val::from(0).div(&root_five()), Ok(lit(0)));
    assert_eq!(Val::from(7).div(&Val::from(1)), Ok(lit(7)));
    assert_eq!(root_five().div(&Val::from(1)), Ok(root_five()));
    assert_eq!(Val::from(1).div(&Val::from(1)), Ok(lit(1)));
    assert_eq!(Val::from(1).div(&Val::from(2)), Ok(rec(lit(2))));
    assert_eq!(Val::from(6).div(&Val::from(3)), Ok(prod(lit(6), rec(lit(3)))));
    assert_eq!(
        root_five().div(&Val::from(5)),
        Ok(prod(root_five(), rec(lit(5))))
    );
}

#[test]
fn zero_to_the_zero_fails() {
    assert_eq!(
        Val::from(0).pow(&Val::from(0)),
        Err(ValError::IndeterminateForm)
    );
}

#[test]
fn power() {
    assert_eq!(Val::from(0).pow(&Val::from(3)), Ok(lit(0)));
    assert_eq!(Val::from(0).pow(&root_five()), Ok(lit(0)));
    assert_eq!(Val::from(3).pow(&Val::from(0)), Ok(lit(1)));
    assert_eq!(root_five().pow(&Val::from(0)), Ok(lit(1)));
    assert_eq!(Val::from(2).pow(&Val::from(3)), Ok(pow(lit(2), lit(3))));
    assert_eq!(Val::from(1).pow(&Val::from(3)), Ok(pow(lit(1), lit(3))));
    assert_eq!(Val::from(3).pow(&Val::from(1)), Ok(pow(lit(3), lit(1))));
}

#[test]
fn square_root() {
    assert_eq!(Val::from(0).sqrt(), lit(0));
    assert_eq!(Val::from(1).sqrt(), lit(1));
    assert_eq!(Val::from(5).sqrt(), pow(lit(5), rec(lit(2))));
    assert_eq!(Val::from(4).sqrt(), pow(lit(4), rec(lit(2))));
    assert_eq!(sqrt(Val::from(5)), pow(lit(5), rec(lit(2))));
    assert_eq!(sqrt(Val::from(0)), lit(0));
    assert_eq!(sqrt(Val::from(1)), lit(1));
    assert_eq!(sqrt(root_five()), pow(root_five(), rec(lit(2))));
}

#[test]
fn times_pi() {
    assert_eq!(Val::from(3).pi(), pi(lit(3)));
    assert_eq!(root_five().pi(), pi(root_five()));
}

#[test]
fn zero_and_one_are_literals_only() {
    assert!(Val::from(0).is_zero());
    assert!(!Val::from(1).is_zero());
    assert!(!root_five().is_zero());
    assert!(!sum(lit(1), lit(-1)).is_zero());
    assert!(Val::from(1).is_one());
    assert!(!Val::from(0).is_one());
    assert!(!Val::from(-1).is_one());
    assert!(!rec(lit(1)).is_one());
}

#[test]
fn zero_angle_and_turn() {
    assert_eq!(Angle::zero(), pi(lit(0)));
    assert_eq!(Angle::turn(), pi(lit(2)));
    assert!(Angle::zero().is_zero());
    assert!(!Angle::turn().is_zero());
    assert!(!some_angle().is_zero());
    assert!(!Angle::ASin(Box::new(lit(0))).is_zero());
}

#[test]
fn multiples_of_pi_add_to_one() {
    assert_eq!(pi(lit(1)).add(&pi(lit(2))), pi(lit(3)));
    assert_eq!(pi(lit(1)).add(&pi(lit(-1))), pi(lit(0)));
    assert!(pi(lit(1)).add(&pi(lit(-1))).is_zero());
    assert_eq!(
        pi(root_five()).add(&pi(lit(2))),
        pi(sum(root_five(), lit(2)))
    );
    assert_eq!(
        pi(lit(i64::MAX)).add(&pi(lit(i64::MAX))),
        pi(Val::Int(BigInt::from(i64::MAX) * 2))
    );
}

#[test]
fn zero_angle_is_dropped_from_a_sum() {
    assert_eq!(Angle::zero().add(&some_angle()), some_angle());
    assert_eq!(some_angle().add(&Angle::zero()), some_angle());
    assert_eq!(Angle::zero().add(&Angle::turn()), Angle::turn());
    assert_eq!(Angle::zero().add(&Angle::zero()), Angle::zero());
}

#[test]
fn other_angle_sums_are_wrapped_in_order() {
    assert_eq!(
        some_angle().add(&Angle::turn()),
        Angle::Sum(Box::new(some_angle()), Box::new(Angle::turn()))
    );
    assert_eq!(
        Angle::turn().add(&some_angle()),
        Angle::Sum(Box::new(Angle::turn()), Box::new(some_angle()))
    );
}

#[test]
fn scaling_a_multiple_of_pi() {
    assert_eq!(Angle::turn().mul(&Val::from(3)), pi(lit(6)));
    assert_eq!(Angle::turn().mul(&Val::from(0)), pi(lit(0)));
    assert_eq!(Angle::turn().mul(&Val::from(-1)), pi(lit(-2)));
    assert_eq!(
        Angle::turn().mul(&root_five()),
        pi(prod(lit(2), root_five()))
    );
}

#[test]
fn dividing_a_multiple_of_pi() {
    assert_eq!(
        Angle::turn().div(&Val::from(2)),
        Ok(pi(prod(lit(2), rec(lit(2)))))
    );
    assert_eq!(Angle::turn().div(&Val::from(1)), Ok(pi(lit(2))));
    assert_eq!(Angle::zero().div(&Val::from(5)), Ok(pi(lit(0))));
    assert_eq!(
        Angle::turn().div(&Val::from(0)),
        Err(ValError::DivisionByZero)
    );
    assert_eq!(
        Angle::zero().div(&Val::from(0)),
        Err(ValError::DivisionByZero)
    );
}

#[test]
fn sine_and_cosine() {
    assert_eq!(Angle::zero().sin(), lit(0));
    assert_eq!(Angle::zero().cos(), lit(1));
    assert_eq!(Angle::turn().sin(), Val::Sin(Angle::turn()));
    assert_eq!(Angle::turn().cos(), Val::Cos(Angle::turn()));
    assert_eq!(some_angle().sin(), Val::Sin(some_angle()));
    assert_eq!(some_angle().cos(), Val::Cos(some_angle()));
}

#[test]
fn inverse_trig_cancels() {
    assert_eq!(some_angle().sin().asin(), some_angle());
    assert_eq!(some_angle().cos().acos(), some_angle());
    assert_eq!(Angle::turn().sin().asin(), Angle::turn());
    assert_eq!(Angle::turn().cos().acos(), Angle::turn());
}

#[test]
fn inverse_trig_cancels_its_own_function_only() {
    assert_eq!(
        some_angle().sin().acos(),
        Angle::ACos(Box::new(Val::Sin(some_angle())))
    );
    assert_eq!(
        some_angle().cos().asin(),
        Angle::ASin(Box::new(Val::Cos(some_angle())))
    );
    assert_eq!(root_five().asin(), Angle::ASin(Box::new(root_five())));
    assert_eq!(root_five().acos(), Angle::ACos(Box::new(root_five())));
}

#[test]
fn inverse_trig_of_the_zero_angle_is_wrapped() {
    assert_eq!(Angle::zero().sin().asin(), Angle::ASin(Box::new(lit(0))));
    assert_eq!(Angle::zero().cos().acos(), Angle::ACos(Box::new(lit(1))));
}

#[test]
fn whole_values_as_i64() {
    assert_eq!(Val::from(5).to_i64(), Some(5));
    assert_eq!(Val::from(-5).to_i64(), Some(-5));
    assert_eq!(Val::from(i64::MAX).to_i64(), Some(i64::MAX));
    assert_eq!(Val::from(i64::MIN).to_i64(), Some(i64::MIN));
    assert_eq!(Val::from(i64::MAX).add(&Val::from(1)).to_i64(), None);
    assert_eq!(Val::from(i64::MIN).add(&Val::from(-1)).to_i64(), None);
    assert_eq!(sum(lit(2), lit(3)).to_i64(), Some(5));
    assert_eq!(prod(lit(2), lit(-3)).to_i64(), Some(-6));
    assert_eq!(sum(lit(i64::MAX), lit(1)).to_i64(), None);
    assert_eq!(prod(lit(i64::MAX), lit(2)).to_i64(), None);
    assert_eq!(prod(lit(i64::MIN), lit(-1)).to_i64(), None);
    assert_eq!(sum(lit(2), root_five()).to_i64(), None);
    assert_eq!(Val::Sin(Angle::turn()).to_i64(), None);
    assert_eq!(Val::Cos(Angle::turn()).to_i64(), None);
}

#[test]
fn reciprocals_as_i64() {
    assert_eq!(rec(lit(1)).to_i64(), Some(1));
    assert_eq!(rec(lit(2)).to_i64(), None);
    assert_eq!(rec(lit(-1)).to_i64(), None);
    assert_eq!(rec(rec(lit(7))).to_i64(), Some(7));
    assert_eq!(rec(rec(lit(-7))).to_i64(), Some(-7));
    assert_eq!(rec(rec(rec(lit(1)))).to_i64(), Some(1));
    assert_eq!(rec(rec(rec(lit(7)))).to_i64(), None);
    assert_eq!(rec(sum(lit(3), lit(-2))).to_i64(), Some(1));
}

#[test]
fn powers_as_i64() {
    assert_eq!(pow(lit(2), lit(10)).to_i64(), Some(1024));
    assert_eq!(pow(lit(-2), lit(3)).to_i64(), Some(-8));
    assert_eq!(pow(lit(-2), lit(63)).to_i64(), Some(i64::MIN));
    assert_eq!(pow(lit(2), lit(62)).to_i64(), Some(1 << 62));
    assert_eq!(pow(lit(2), lit(63)).to_i64(), None);
    assert_eq!(pow(lit(-2), lit(64)).to_i64(), None);
    assert_eq!(pow(lit(-2), lit(65)).to_i64(), None);
    assert_eq!(pow(lit(3), lit(39)).to_i64(), Some(4052555153018976267));
    assert_eq!(pow(lit(3), lit(40)).to_i64(), None);
    assert_eq!(pow(lit(7), lit(0)).to_i64(), Some(1));
    assert_eq!(pow(lit(0), lit(0)).to_i64(), Some(1));
    assert_eq!(pow(lit(0), lit(5)).to_i64(), Some(0));
    assert_eq!(pow(lit(1), lit(4_000_000_000)).to_i64(), Some(1));
    assert_eq!(pow(lit(-1), lit(4_000_000_000)).to_i64(), Some(1));
    assert_eq!(pow(lit(-1), lit(4_000_000_001)).to_i64(), Some(-1));
    assert_eq!(pow(lit(1), lit(u32::MAX as i64)).to_i64(), Some(1));
    assert_eq!(pow(lit(1), lit(u32::MAX as i64 + 1)).to_i64(), None);
    assert_eq!(pow(lit(2), lit(-1)).to_i64(), None);
    assert_eq!(pow(lit(2), rec(lit(2))).to_i64(), None);
    assert_eq!(pow(root_five(), lit(2)).to_i64(), None);
}

#[test]
fn whole_values_as_u64() {
    assert_eq!(Val::from(5).to_u64(), Some(5));
    assert_eq!(Val::from(-5).to_u64(), None);
    assert_eq!(Val::from(0).to_u64(), Some(0));
    assert_eq!(
        Val::from(i64::MAX).add(&Val::from(i64::MAX)).add(&Val::from(1)).to_u64(),
        Some(u64::MAX)
    );
    assert_eq!(
        Val::from(i64::MAX).add(&Val::from(i64::MAX)).add(&Val::from(2)).to_u64(),
        None
    );
    assert_eq!(sum(lit(2), lit(3)).to_u64(), Some(5));
    assert_eq!(sum(lit(5), lit(-3)).to_u64(), None);
    assert_eq!(prod(lit(4), lit(5)).to_u64(), Some(20));
    assert_eq!(prod(lit(-4), lit(-5)).to_u64(), None);
    assert_eq!(prod(lit(i64::MAX), lit(2)).to_u64(), Some(u64::MAX - 1));
    assert_eq!(prod(lit(i64::MAX), lit(3)).to_u64(), None);
    assert_eq!(sum(lit(2), root_five()).to_u64(), None);
    assert_eq!(Val::Sin(Angle::turn()).to_u64(), None);
}

#[test]
fn reciprocals_and_powers_as_u64() {
    assert_eq!(rec(lit(1)).to_u64(), Some(1));
    assert_eq!(rec(lit(2)).to_u64(), None);
    assert_eq!(rec(rec(lit(7))).to_u64(), Some(7));
    assert_eq!(rec(rec(lit(-7))).to_u64(), None);
    assert_eq!(pow(lit(2), lit(63)).to_u64(), Some(1 << 63));
    assert_eq!(pow(lit(2), lit(64)).to_u64(), None);
    assert_eq!(pow(lit(3), lit(40)).to_u64(), Some(12157665459056928801));
    assert_eq!(pow(lit(3), lit(41)).to_u64(), None);
    assert_eq!(pow(lit(0), lit(0)).to_u64(), Some(1));
    assert_eq!(pow(lit(0), lit(9)).to_u64(), Some(0));
    assert_eq!(pow(lit(1), lit(4_000_000_000)).to_u64(), Some(1));
    assert_eq!(pow(lit(1), lit(u32::MAX as i64 + 1)).to_u64(), None);
    assert_eq!(pow(lit(-2), lit(2)).to_u64(), None);
}

#[test]
fn values_as_text() {
    assert_eq!(Val::from(0).to_string(), "0");
    assert_eq!(Val::from(7).to_string(), "7");
    assert_eq!(Val::from(-7).to_string(), "-7");
    assert_eq!(Val::from(1234567890).to_string(), "1234567890");
    assert_eq!(Val::from(i64::MIN).to_string(), "-9223372036854775808");
    assert_eq!(
        Val::from(i64::MAX).mul(&Val::from(i64::MAX)).to_string(),
        "85070591730234615847396907784232501249"
    );
    assert_eq!(sum(lit(1), lit(2)).to_string(), "(1 + 2)");
    assert_eq!(prod(lit(1), lit(-2)).to_string(), "(1 * -2)");
    assert_eq!(rec(lit(2)).to_string(), "(1 / 2)");
    assert_eq!(pow(lit(5), rec(lit(2))).to_string(), "(5^(1 / 2))");
    assert_eq!(Val::Sin(Angle::turn()).to_string(), "sin(2 * pi)");
    assert_eq!(Val::Cos(Angle::zero()).to_string(), "cos(0)");
    assert_eq!(
        sum(prod(lit(2), root_five()), rec(lit(3))).to_string(),
        "((2 * (5^(1 / 2))) + (1 / 3))"
    );
}

#[test]
fn angles_as_text() {
    assert_eq!(Angle::zero().to_string(), "0");
    assert_eq!(Angle::turn().to_string(), "2 * pi");
    assert_eq!(pi(lit(-1)).to_string(), "-1 * pi");
    assert_eq!(pi(rec(lit(2))).to_string(), "(1 / 2) * pi");
    assert_eq!(
        Angle::Sum(Box::new(Angle::turn()), Box::new(some_angle())).to_string(),
        "(2 * pi + acos((5^(1 / 2))))"
    );
    assert_eq!(
        Angle::ASin(Box::new(lit(1))).to_string(),
        "asin(1)"
    );
    assert_eq!(
        Angle::ACos(Box::new(Val::Sin(Angle::zero()))).to_string(),
        "acos(sin(0))"
    );
}
