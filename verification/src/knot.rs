//! Direction and orientation codes of a knot walk, one character each.

use crate::text::push_char;
use vstd::prelude::*;
use vstd::std_specs::convert::TryFromSpecImpl;

pub mod validation;

verus! {

/// A position on the integer grid.
#[derive(Debug, Clone, Copy, PartialEq, Eq, Structural)]
pub struct Point {
    pub x: i32,
    pub y: i32,
}

/// What the walk does at a step: pass over or under a strand, or turn.
#[derive(Debug, Clone, Copy, PartialEq, Eq, Structural)]
pub enum Direction {
    Over,
    Under,
    Left,
    Right,
}

/// A character that stands for no direction.
#[derive(Debug, Clone, Copy, PartialEq, Eq, Structural)]
pub struct BadDirection(pub char);

/// Which way the walk is heading on the grid.
#[derive(Debug, Clone, Copy, PartialEq, Eq, Structural)]
pub enum Orientation {
    Up,
    Down,
    Left,
    Right,
}

/// A character that stands for no orientation.
#[derive(Debug, Clone, Copy, PartialEq, Eq, Structural)]
pub struct BadOrientation(pub char);

impl Point {
    pub fn new(x: i32, y: i32) -> (p: Point)
        ensures
            p.x == x,
            p.y == y,
    {
        Point { x, y }
    }

    /// The origin.
    pub fn zero() -> (p: Point)
        ensures
            p.x == 0,
            p.y == 0,
    {
        Point { x: 0, y: 0 }
    }
}

impl Direction {
    /// The direction that a character stands for, if any.
    pub open spec fn of_char(c: char) -> Option<Direction> {
        if c == 'O' {
            Some(Direction::Over)
        } else if c == 'U' {
            Some(Direction::Under)
        } else if c == 'L' {
            Some(Direction::Left)
        } else if c == 'R' {
            Some(Direction::Right)
        } else {
            None
        }
    }

    /// The sequence of directions that a text spells, where every character
    /// of it stands for one.
    pub open spec fn spelled_by(s: Seq<char>, dirs: Seq<Direction>) -> bool {
        &&& dirs.len() == s.len()
        &&& forall|i: int| 0 <= i < s.len() ==> Direction::of_char(s[i]) == Some(#[trigger] dirs[i])
    }

    /// Position `i` holds the first character of the text that stands for no
    /// direction.
    pub open spec fn first_bad_at(s: Seq<char>, i: int) -> bool {
        &&& 0 <= i < s.len()
        &&& Direction::of_char(s[i]) is None
        &&& forall|j: int| 0 <= j < i ==> (#[trigger] Direction::of_char(s[j])) is Some
    }

    /// Quarter turns to the right that a step in this direction makes.
    pub open spec fn quarter_turns(self) -> int {
        match self {
            Direction::Right => 1,
            Direction::Left => 3,
            _ => 0,
        }
    }

    /// Reads one direction per character. The first character that stands
    /// for none is returned as the error.
    pub fn from_str(repr: &str) -> (r: Result<Vec<Direction>, BadDirection>)
        ensures
            match r {
                Ok(dirs) => Direction::spelled_by(repr@, dirs@),
                Err(bad) => exists|i: int|
                    Direction::first_bad_at(repr@, i) && bad == BadDirection(#[trigger] repr@[i]),
            },
    {
        let mut dirs: Vec<Direction> = Vec::new();
        for c in it: repr.chars()
            invariant
                it.seq() == repr@,
                Direction::spelled_by(repr@.take(it.index() as int), dirs@),
        {
            match Direction::try_from(c) {
                Ok(d) => {
                    dirs.push(d);
                },
                Err(bad) => {
                    proof {
                        let i = it.index() as int;
                        assert forall|j: int| 0 <= j < i implies (#[trigger] Direction::of_char(
                            repr@[j],
                        )) is Some by {
                            assert(repr@.take(i)[j] == repr@[j]);
                            assert(Direction::of_char(repr@.take(i)[j]) == Some(dirs@[j]));
                        }
                        assert(Direction::first_bad_at(repr@, i));
                    }
                    return Err(bad);
                },
            }
        }
        assert(repr@.take(repr@.len() as int) == repr@);
        Ok(dirs)
    }
}

impl TryFrom<char> for Direction {
    type Error = BadDirection;

    fn try_from(ch: char) -> (r: Result<Direction, BadDirection>) {
        match ch {
            'O' => Ok(Direction::Over),
            'U' => Ok(Direction::Under),
            'L' => Ok(Direction::Left),
            'R' => Ok(Direction::Right),
            _ => Err(BadDirection(ch)),
        }
    }
}

impl TryFromSpecImpl<char> for Direction {
    open spec fn obeys_try_from_spec() -> bool {
        true
    }

    open spec fn try_from_spec(ch: char) -> Result<Direction, BadDirection> {
        match Direction::of_char(ch) {
            Some(d) => Ok(d),
            None => Err(BadDirection(ch)),
        }
    }
}

impl BadDirection {
    /// The message for this error: the character in quotes, and what it is not.
    pub fn to_string(&self) -> (r: String)
        ensures
            r@ == seq!['\''].push(self.0) + "' is not a valid direction"@,
    {
        let mut s = String::new();
        push_char(&mut s, '\'');
        push_char(&mut s, self.0);
        s.append("' is not a valid direction");
        s
    }
}

impl Orientation {
    /// The orientation that a character stands for, if any.
    pub open spec fn of_char(c: char) -> Option<Orientation> {
        if c == 'U' {
            Some(Orientation::Up)
        } else if c == 'D' {
            Some(Orientation::Down)
        } else if c == 'L' {
            Some(Orientation::Left)
        } else if c == 'R' {
            Some(Orientation::Right)
        } else {
            None
        }
    }

    /// The sequence of orientations that a text spells, where every character
    /// of it stands for one.
    pub open spec fn spelled_by(s: Seq<char>, heads: Seq<Orientation>) -> bool {
        &&& heads.len() == s.len()
        &&& forall|i: int|
            0 <= i < s.len() ==> Orientation::of_char(s[i]) == Some(#[trigger] heads[i])
    }

    /// Position `i` holds the first character of the text that stands for no
    /// orientation.
    pub open spec fn first_bad_at(s: Seq<char>, i: int) -> bool {
        &&& 0 <= i < s.len()
        &&& Orientation::of_char(s[i]) is None
        &&& forall|j: int| 0 <= j < i ==> (#[trigger] Orientation::of_char(s[j])) is Some
    }

    /// Quarter turns to the right that lead from `Up` to this orientation.
    pub open spec fn quarter(self) -> int {
        match self {
            Orientation::Up => 0,
            Orientation::Right => 1,
            Orientation::Down => 2,
            Orientation::Left => 3,
        }
    }

    /// The orientation that lies the given number of quarter turns to the
    /// right of `Up`.
    pub open spec fn at_quarter(q: int) -> Orientation {
        if q % 4 == 0 {
            Orientation::Up
        } else if q % 4 == 1 {
            Orientation::Right
        } else if q % 4 == 2 {
            Orientation::Down
        } else {
            Orientation::Left
        }
    }

    /// This orientation after a step in the given direction: the quarter
    /// turns of both, added up.
    pub open spec fn turned(self, toward: Direction) -> Orientation {
        Orientation::at_quarter(self.quarter() + toward.quarter_turns())
    }

    /// Returns the new orientation after turning towards a direction.
    /// Passing over or under a strand keeps the orientation.
    pub fn turn(self, toward: Direction) -> (r: Orientation)
        ensures
            r == self.turned(toward),
    {
        match toward {
            Direction::Left => match self {
                Orientation::Up => Orientation::Left,
                Orientation::Down => Orientation::Right,
                Orientation::Left => Orientation::Down,
                Orientation::Right => Orientation::Up,
            },
            Direction::Right => match self {
                Orientation::Up => Orientation::Right,
                Orientation::Down => Orientation::Left,
                Orientation::Left => Orientation::Up,
                Orientation::Right => Orientation::Down,
            },
            _ => self,
        }
    }

    /// Reads one orientation per character. The first character that stands
    /// for none is returned as the error.
    pub fn from_str(repr: &str) -> (r: Result<Vec<Orientation>, BadOrientation>)
        ensures
            match r {
                Ok(heads) => Orientation::spelled_by(repr@, heads@),
                Err(bad) => exists|i: int|
                    Orientation::first_bad_at(repr@, i) && bad == BadOrientation(
                        #[trigger] repr@[i],
                    ),
            },
    {
        let mut heads: Vec<Orientation> = Vec::new();
        for c in it: repr.chars()
            invariant
                it.seq() == repr@,
                Orientation::spelled_by(repr@.take(it.index() as int), heads@),
        {
            match Orientation::try_from(c) {
                Ok(h) => {
                    heads.push(h);
                },
                Err(bad) => {
                    proof {
                        let i = it.index() as int;
                        assert forall|j: int| 0 <= j < i implies (#[trigger] Orientation::of_char(
                            repr@[j],
                        )) is Some by {
                            assert(repr@.take(i)[j] == repr@[j]);
                            assert(Orientation::of_char(repr@.take(i)[j]) == Some(heads@[j]));
                        }
                        assert(Orientation::first_bad_at(repr@, i));
                    }
                    return Err(bad);
                },
            }
        }
        assert(repr@.take(repr@.len() as int) == repr@);
        Ok(heads)
    }
}

impl TryFrom<char> for Orientation {
    type Error = BadOrientation;

    fn try_from(ch: char) -> (r: Result<Orientation, BadOrientation>) {
        match ch {
            'U' => Ok(Orientation::Up),
            'D' => Ok(Orientation::Down),
            'L' => Ok(Orientation::Left),
            'R' => Ok(Orientation::Right),
            _ => Err(BadOrientation(ch)),
        }
    }
}

impl TryFromSpecImpl<char> for Orientation {
    open spec fn obeys_try_from_spec() -> bool {
        true
    }

    open spec fn try_from_spec(ch: char) -> Result<Orientation, BadOrientation> {
        match Orientation::of_char(ch) {
            Some(h) => Ok(h),
            None => Err(BadOrientation(ch)),
        }
    }
}

impl BadOrientation {
    /// The message for this error: the character in quotes, and what it is not.
    pub fn to_string(&self) -> (r: String)
        ensures
            r@ == seq!['\''].push(self.0) + "' is not a valid orientation"@,
    {
        let mut s = String::new();
        push_char(&mut s, '\'');
        push_char(&mut s, self.0);
        s.append("' is not a valid orientation");
        s
    }
}

/// A left turn and a right turn undo each other, in either order.
pub proof fn lemma_left_and_right_cancel(o: Orientation)
    ensures
        o.turned(Direction::Left).turned(Direction::Right) == o,
        o.turned(Direction::Right).turned(Direction::Left) == o,
{
}

/// Four turns to the same side lead back to where the walk was heading.
pub proof fn lemma_four_turns_restore(o: Orientation, toward: Direction)
    ensures
        o.turned(toward).turned(toward).turned(toward).turned(toward) == o,
{
}

/// A text is read as a whole or has a first character that cannot be read,
/// never both; and one text spells at most one sequence of directions.
pub proof fn lemma_directions_unique(s: Seq<char>, a: Seq<Direction>, b: Seq<Direction>, i: int)
    ensures
        Direction::spelled_by(s, a) ==> !Direction::first_bad_at(s, i),
        Direction::spelled_by(s, a) && Direction::spelled_by(s, b) ==> a == b,
{
    if Direction::spelled_by(s, a) {
        if 0 <= i < s.len() {
            assert(Direction::of_char(s[i]) == Some(a[i]));
        }
        if Direction::spelled_by(s, b) {
            assert forall|k: int| 0 <= k < a.len() implies a[k] == b[k] by {
                assert(Direction::of_char(s[k]) == Some(a[k]));
                assert(Direction::of_char(s[k]) == Some(b[k]));
            }
            assert(a =~= b);
        }
    }
}

} // verus!
