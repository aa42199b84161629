use icos::knot::validation::{validate, ValidationError};
use icos::knot::{BadDirection, BadOrientation, Direction, Orientation, Point};

#[test]
fn test_direction_from_str() {
    let in_ok = "LROU";
    let exp_ok = vec![
        Direction::Left,
        Direction::Right,
        Direction::Over,
        Direction::Under,
    ];

    let in_bad = "LRX";

    let res_ok = Direction::from_str(in_ok);
    assert!(res_ok.is_ok(), "Parsing '{}' failed.", in_ok);
    assert_eq!(res_ok.unwrap(), exp_ok);

    let res_err = Direction::from_str(in_bad);
    assert!(res_err.is_err(), "Parsing '{}' should fail.", in_bad);
    assert_eq!(
        res_err.unwrap_err().to_string(),
        format!("'X' is not a valid direction")
    );
}

#[test]
fn test_orientation_from_str() {
    let in_ok = "LRUD";
    let exp_ok = vec![
        Orientation::Left,
        Orientation::Right,
        Orientation::Up,
        Orientation::Down,
    ];

    let in_bad = "LRX";

    let res_ok = Orientation::from_str(in_ok);
    assert!(res_ok.is_ok(), "Parsing '{}' failed.", in_ok);
    assert_eq!(res_ok.unwrap(), exp_ok);

    let res_err = Orientation::from_str(in_bad);
    assert!(res_err.is_err(), "Parsing '{}' should fail.", in_bad);
    assert_eq!(
        res_err.unwrap_err().to_string(),
        format!("'X' is not a valid orientation")
    );
}

#[test]
fn test_validate() {
    {
        let err = validate(Direction::from_str("").unwrap());
        assert!(err.is_err());
        assert_eq!(err.unwrap_err(), ValidationError::Empty);
    }
    {
        let err = validate(Direction::from_str("O").unwrap());
        assert!(err.is_err());
        assert_eq!(err.unwrap_err(), ValidationError::NotEven);
    }

    #[allow(non_upper_case_globals)]
    const unknot: &str = "LLLL";
    let in_ok = Direction::from_str(unknot).unwrap();
    assert!(validate(in_ok).is_ok(), "Validating {} failed.", unknot);
}

#[test]
fn direction_errors_name_the_first_bad_character() {
    assert_eq!(Direction::from_str("OXY").unwrap_err(), BadDirection('X'));
    assert_eq!(Direction::from_str("D").unwrap_err(), BadDirection('D'));
    assert_eq!(Direction::from_str("o").unwrap_err(), BadDirection('o'));
    assert_eq!(Direction::from_str("LR\u{e9}X").unwrap_err(), BadDirection('\u{e9}'));
}

#[test]
fn orientation_errors_name_the_first_bad_character() {
    assert_eq!(Orientation::from_str("UXY").unwrap_err(), BadOrientation('X'));
    assert_eq!(Orientation::from_str("O").unwrap_err(), BadOrientation('O'));
    assert_eq!(Orientation::from_str("UD L").unwrap_err(), BadOrientation(' '));
}

#[test]
fn empty_text_spells_nothing() {
    assert_eq!(Direction::from_str("").unwrap(), Vec::<Direction>::new());
    assert_eq!(Orientation::from_str("").unwrap(), Vec::<Orientation>::new());
}

#[test]
fn single_characters_convert() {
    assert_eq!(Direction::try_from('O'), Ok(Direction::Over));
    assert_eq!(Direction::try_from('U'), Ok(Direction::Under));
    assert_eq!(Direction::try_from('L'), Ok(Direction::Left));
    assert_eq!(Direction::try_from('R'), Ok(Direction::Right));
    assert_eq!(Direction::try_from('D'), Err(BadDirection('D')));
    assert_eq!(Orientation::try_from('U'), Ok(Orientation::Up));
    assert_eq!(Orientation::try_from('D'), Ok(Orientation::Down));
    assert_eq!(Orientation::try_from('L'), Ok(Orientation::Left));
    assert_eq!(Orientation::try_from('R'), Ok(Orientation::Right));
    assert_eq!(Orientation::try_from('O'), Err(BadOrientation('O')));
}

#[test]
fn messages_quote_the_character() {
    assert_eq!(BadDirection('?').to_string(), "'?' is not a valid direction");
    assert_eq!(BadOrientation('q').to_string(), "'q' is not a valid orientation");
    assert_eq!(BadDirection('\'').to_string(), "''' is not a valid direction");
}

#[test]
fn validation_messages() {
    assert_eq!(
        ValidationError::Empty.to_string(),
        "expected more than one direction"
    );
    assert_eq!(
        ValidationError::NotEven.to_string(),
        "expected an even number of directions"
    );
}

#[test]
fn validate_goes_by_length_alone() {
    assert_eq!(validate(vec![]), Err(ValidationError::Empty));
    assert_eq!(validate(vec![Direction::Over]), Err(ValidationError::NotEven));
    assert_eq!(validate(vec![Direction::Over, Direction::Under]), Ok(()));
    assert_eq!(
        validate(vec![Direction::Left, Direction::Left, Direction::Right]),
        Err(ValidationError::NotEven)
    );
    assert_eq!(validate(vec![Direction::Right; 6]), Ok(()));
}

#[test]
fn turning_left() {
    assert_eq!(Orientation::Up.turn(Direction::Left), Orientation::Left);
    assert_eq!(Orientation::Down.turn(Direction::Left), Orientation::Right);
    assert_eq!(Orientation::Left.turn(Direction::Left), Orientation::Down);
    assert_eq!(Orientation::Right.turn(Direction::Left), Orientation::Up);
}

#[test]
fn turning_right() {
    assert_eq!(Orientation::Up.turn(Direction::Right), Orientation::Right);
    assert_eq!(Orientation::Down.turn(Direction::Right), Orientation::Left);
    assert_eq!(Orientation::Left.turn(Direction::Right), Orientation::Up);
    assert_eq!(Orientation::Right.turn(Direction::Right), Orientation::Down);
}

#[test]
fn crossing_keeps_the_orientation() {
    for o in [
        Orientation::Up,
        Orientation::Down,
        Orientation::Left,
        Orientation::Right,
    ] {
        assert_eq!(o.turn(Direction::Over), o);
        assert_eq!(o.turn(Direction::Under), o);
    }
}

#[test]
fn turns_cancel_and_cycle() {
    for o in [
        Orientation::Up,
        Orientation::Down,
        Orientation::Left,
        Orientation::Right,
    ] {
        assert_eq!(o.turn(Direction::Left).turn(Direction::Right), o);
        assert_eq!(o.turn(Direction::Right).turn(Direction::Left), o);
        for d in [Direction::Left, Direction::Right] {
            assert_eq!(o.turn(d).turn(d).turn(d).turn(d), o);
            assert_ne!(o.turn(d), o);
        }
    }
}

#[test]
fn points() {
    assert_eq!(Point::zero(), Point { x: 0, y: 0 });
    assert_eq!(Point::new(3, -4), Point { x: 3, y: -4 });
}
