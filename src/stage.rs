use vstd::prelude::*;

verus! {

/// How far along in life a cell is, for display.
#[derive(Debug, Clone, Copy, PartialEq, Eq, Structural)]
pub enum Stage {
    /// A dead cell.
    Empty,
    /// Ages 1 to 5.
    Newborn,
    /// Ages 6 to 10.
    MiddleAged,
    /// Ages 11 to 18.
    Old,
    /// Ages 19 and above.
    Ancient,
}

/// The stage of a cell of the given age; the age brackets do not overlap.
pub open spec fn stage_of(age: u32) -> Stage {
    if age == 0 {
        Stage::Empty
    } else if age <= 5 {
        Stage::Newborn
    } else if age <= 10 {
        Stage::MiddleAged
    } else if age <= 18 {
        Stage::Old
    } else {
        Stage::Ancient
    }
}

/// The display stage of a cell of the given age.
pub fn stage(age: u32) -> (r: Stage)
    ensures
        r == stage_of(age),
{
    match age {
        0 => Stage::Empty,
        1..=5 => Stage::Newborn,
        6..=10 => Stage::MiddleAged,
        11..=18 => Stage::Old,
        _ => Stage::Ancient,
    }
}

impl Stage {
    /// The position of this stage among the four living ones (`Newborn` is
    /// 0), or `None` for `Empty`.
    pub fn index(&self) -> (r: Option<usize>)
        ensures
            r == match *self {
                Stage::Empty => None::<usize>,
                Stage::Newborn => Some(0usize),
                Stage::MiddleAged => Some(1usize),
                Stage::Old => Some(2usize),
                Stage::Ancient => Some(3usize),
            },
    {
        match self {
            Stage::Empty => None,
            Stage::Newborn => Some(0),
            Stage::MiddleAged => Some(1),
            Stage::Old => Some(2),
            Stage::Ancient => Some(3),
        }
    }
}

} // verus!
