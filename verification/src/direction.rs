//! Compass directions of tilt and the rule that assigns one to a motion sample.

use vstd::prelude::*;

verus! {

/// Number of lamps on the panel, one for each direction but `Neutral`.
pub const LAMPS: usize = 8;

/// Direction of tilt. `Neutral` stands for a board at rest.
///
/// The pairing of axes and compass names follows the wiring of the lamps and
/// is not to be read geographically.
#[derive(Clone, Copy, PartialEq, Eq, Structural, Debug)]
pub enum Direction {
    North,
    South,
    East,
    West,
    Northeast,
    Northwest,
    Southeast,
    Southwest,
    Neutral,
}

impl Direction {
    /// Index of the lamp assigned to this direction, counted clockwise from
    /// north; `Neutral` has no lamp.
    pub open spec fn lamp_index(self) -> Option<int> {
        match self {
            Direction::North => Some(0),
            Direction::Northeast => Some(1),
            Direction::East => Some(2),
            Direction::Southeast => Some(3),
            Direction::South => Some(4),
            Direction::Southwest => Some(5),
            Direction::West => Some(6),
            Direction::Northwest => Some(7),
            Direction::Neutral => None,
        }
    }

    /// The direction whose lamp has the given index, if there is such a lamp.
    pub open spec fn of_lamp(index: int) -> Option<Direction> {
        if index == 0 {
            Some(Direction::North)
        } else if index == 1 {
            Some(Direction::Northeast)
        } else if index == 2 {
            Some(Direction::East)
        } else if index == 3 {
            Some(Direction::Southeast)
        } else if index == 4 {
            Some(Direction::South)
        } else if index == 5 {
            Some(Direction::Southwest)
        } else if index == 6 {
            Some(Direction::West)
        } else if index == 7 {
            Some(Direction::Northwest)
        } else {
            None
        }
    }

    /// Index of the lamp assigned to this direction, `None` for `Neutral`.
    pub fn lamp(self) -> (index: Option<usize>)
        ensures
            index is Some <==> self != Direction::Neutral,
            index matches Some(i) ==> i < LAMPS && self.lamp_index() == Some(i as int),
            index is None ==> self.lamp_index() is None,
    {
        match self {
            Direction::North => Some(0),
            Direction::Northeast => Some(1),
            Direction::East => Some(2),
            Direction::Southeast => Some(3),
            Direction::South => Some(4),
            Direction::Southwest => Some(5),
            Direction::West => Some(6),
            Direction::Northwest => Some(7),
            Direction::Neutral => None,
        }
    }

    /// The direction that lamp `index` stands for, `None` where the panel has
    /// no such lamp.
    pub fn from_lamp(index: usize) -> (direction: Option<Direction>)
        ensures
            direction == Self::of_lamp(index as int),
            direction is Some <==> index < LAMPS,
            direction matches Some(d) ==> d.lamp_index() == Some(index as int),
    {
        if index == 0 {
            Some(Direction::North)
        } else if index == 1 {
            Some(Direction::Northeast)
        } else if index == 2 {
            Some(Direction::East)
        } else if index == 3 {
            Some(Direction::Southeast)
        } else if index == 4 {
            Some(Direction::South)
        } else if index == 5 {
            Some(Direction::Southwest)
        } else if index == 6 {
            Some(Direction::West)
        } else if index == 7 {
            Some(Direction::Northwest)
        } else {
            None
        }
    }

    /// Lamps and non-neutral directions correspond one to one.
    pub proof fn lamps_pair_with_directions(direction: Direction, index: int)
        ensures
            direction.lamp_index() == Some(index) <==> Self::of_lamp(index) == Some(direction),
            direction.lamp_index() == Some(index) ==> 0 <= index < LAMPS,
    {
    }
}

/// The rule that assigns a direction to a filtered motion sample.
pub struct DirectionMap;

impl DirectionMap {
    /// The row of the direction table for `direction`: whether the sign
    /// pattern of `(dx, dy)` is the one that this direction stands for.
    pub open spec fn rule(direction: Direction, dx: int, dy: int) -> bool {
        match direction {
            Direction::North => dx > 0 && dy == 0,
            Direction::South => dx < 0 && dy == 0,
            Direction::West => dy > 0 && dx == 0,
            Direction::East => dy < 0 && dx == 0,
            Direction::Northeast => dx > 0 && dy < 0,
            Direction::Southeast => dx < 0 && dy < 0,
            Direction::Northwest => dx > 0 && dy > 0,
            Direction::Southwest => dx < 0 && dy > 0,
            Direction::Neutral => dx == 0 && dy == 0,
        }
    }

    /// The direction of `(dx, dy)`: the first row of the table that applies.
    pub open spec fn direction_of(dx: int, dy: int) -> Direction {
        if Self::rule(Direction::North, dx, dy) {
            Direction::North
        } else if Self::rule(Direction::South, dx, dy) {
            Direction::South
        } else if Self::rule(Direction::West, dx, dy) {
            Direction::West
        } else if Self::rule(Direction::East, dx, dy) {
            Direction::East
        } else if Self::rule(Direction::Northeast, dx, dy) {
            Direction::Northeast
        } else if Self::rule(Direction::Southeast, dx, dy) {
            Direction::Southeast
        } else if Self::rule(Direction::Northwest, dx, dy) {
            Direction::Northwest
        } else if Self::rule(Direction::Southwest, dx, dy) {
            Direction::Southwest
        } else {
            Direction::Neutral
        }
    }

    /// Classifies a motion sample by the signs of its two components.
    pub fn classify(dx: i16, dy: i16) -> (direction: Direction)
        ensures
            direction == Self::direction_of(dx as int, dy as int),
            Self::rule(direction, dx as int, dy as int),
            direction == Direction::Neutral <==> dx == 0 && dy == 0,
    {
        if dx > 0 {
            if dy < 0 {
                Direction::Northeast
            } else if dy > 0 {
                Direction::Northwest
            } else {
                Direction::North
            }
        } else if dx < 0 {
            if dy < 0 {
                Direction::Southeast
            } else if dy > 0 {
                Direction::Southwest
            } else {
                Direction::South
            }
        } else if dy > 0 {
            Direction::West
        } else if dy < 0 {
            Direction::East
        } else {
            Direction::Neutral
        }
    }

    /// Every sample matches exactly one row of the table, the one that
    /// `direction_of` names: the rows exclude each other and leave no sample out.
    pub proof fn exactly_one_direction(dx: int, dy: int, direction: Direction)
        ensures
            Self::rule(direction, dx, dy) <==> direction == Self::direction_of(dx, dy),
    {
    }

    /// A sample at rest, and no other, is `Neutral`.
    pub proof fn neutral_only_at_rest(dx: int, dy: int)
        ensures
            Self::direction_of(dx, dy) == Direction::Neutral <==> dx == 0 && dy == 0,
            Self::direction_of(0, 0) == Direction::Neutral,
    {
    }

    /// Stretching a sample by a positive factor does not change its direction.
    pub proof fn direction_ignores_scale(dx: int, dy: int, factor: int)
        requires
            factor > 0,
        ensures
            Self::direction_of(factor * dx, factor * dy) == Self::direction_of(dx, dy),
    {
        Self::product_keeps_sign(factor, dx);
        Self::product_keeps_sign(factor, dy);
    }

    proof fn product_keeps_sign(factor: int, v: int)
        by (nonlinear_arith)
        requires
            factor > 0,
        ensures
            factor * v > 0 <==> v > 0,
            factor * v < 0 <==> v < 0,
            factor * v == 0 <==> v == 0,
    {
    }
}

} // verus!
