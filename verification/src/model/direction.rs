use vstd::prelude::*;

verus! {

/// A side of a lookup table, and the direction of a search along it.
///
/// A direction belongs to whoever holds the lookup table it indexes: `Right` is that
/// holder's own right slot, the one for neighbors with larger identifiers, and `Left` is
/// its own left slot. It is never relative to a caller or to a hop.
///
/// A direction that travels in a message names a slot of the receiver's table. A request
/// carries the value its sender chose, a forwarded request passes it on unchanged, and a
/// response that asks for the reciprocal of a write the sender just made carries the
/// opposite of the side the sender wrote.
#[derive(Copy, Clone, PartialEq, Eq, Hash, Debug, Structural)]
pub enum Direction {
    Left,
    Right,
}

impl Direction {
    /// The other side.
    pub open spec fn mirrored(self) -> Direction {
        match self {
            Direction::Left => Direction::Right,
            Direction::Right => Direction::Left,
        }
    }

    /// The text under which the direction is reported.
    pub open spec fn text(self) -> Seq<char> {
        match self {
            Direction::Left => "Left"@,
            Direction::Right => "Right"@,
        }
    }

    /// Returns the other variant.
    pub fn opposite(self) -> (r: Direction)
        ensures
            r == self.mirrored(),
    {
        match self {
            Direction::Left => Direction::Right,
            Direction::Right => Direction::Left,
        }
    }

    /// Returns the name of the direction.
    pub fn as_str(self) -> (r: &'static str)
        ensures
            r@ == self.text(),
    {
        match self {
            Direction::Left => "Left",
            Direction::Right => "Right",
        }
    }
}

/// Taking the opposite twice gives back the direction, and once gives the other one.
pub proof fn law_opposite_is_an_involution(direction: Direction)
    ensures
        direction.mirrored() != direction,
        direction.mirrored().mirrored() == direction,
{
}

/// The opposite of a direction is the direction that it is not.
pub proof fn law_opposite_is_the_other_direction(direction: Direction, r: Direction)
    requires
        call_ensures(Direction::opposite, (direction,), r),
    ensures
        r != direction,
        r == direction.mirrored(),
{
}

} // verus!
