//! Structural checks on a sequence of directions.

use crate::knot::Direction;
use vstd::prelude::*;

verus! {

/// Why a sequence of directions cannot describe a knot.
#[derive(Debug, Clone, Copy, PartialEq, Eq, Structural)]
pub enum ValidationError {
    Empty,
    NotEven,
}

impl ValidationError {
    /// The message for this error.
    pub fn to_string(&self) -> (r: String)
        ensures
            r@ == match *self {
                ValidationError::Empty => "expected more than one direction"@,
                ValidationError::NotEven => "expected an even number of directions"@,
            },
    {
        match self {
            ValidationError::Empty => String::from_str("expected more than one direction"),
            ValidationError::NotEven => String::from_str("expected an even number of directions"),
        }
    }
}

/// What `validate` answers for a sequence of the given length.
pub open spec fn verdict_for(len: nat) -> Result<(), ValidationError> {
    if len == 0 {
        Err(ValidationError::Empty)
    } else if len % 2 != 0 {
        Err(ValidationError::NotEven)
    } else {
        Ok(())
    }
}

/// Accepts a sequence of directions that is not empty and has an even number
/// of steps.
pub fn validate(dirs: Vec<Direction>) -> (r: Result<(), ValidationError>)
    ensures
        r == verdict_for(dirs@.len()),
{
    if dirs.len() == 0 {
        return Err(ValidationError::Empty);
    }
    if dirs.len() % 2 != 0 {
        return Err(ValidationError::NotEven);
    }
    Ok(())
}

} // verus!
