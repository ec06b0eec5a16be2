//! The snake itself: its body, its direction of travel, and the three
//! operations that mutate it — advancing one cell, growing by one segment,
//! and changing direction under the no-reversal rule.

use vstd::prelude::*;
use std::collections::VecDeque;

verus! {

/// One of the four movement directions on the grid.
#[derive(Clone, Copy, Debug, PartialEq, Eq, Structural)]
pub enum Direction {
    Up,
    Down,
    Left,
    Right,
}

/// The direction exactly opposite to `d`.
pub open spec fn opposite_of(d: Direction) -> Direction {
    match d {
        Direction::Up => Direction::Down,
        Direction::Down => Direction::Up,
        Direction::Left => Direction::Right,
        Direction::Right => Direction::Left,
    }
}

/// The direction a snake travels after a change request: the request is
/// honoured unless it is the exact opposite of the current direction, in
/// which case the current direction is kept.
pub open spec fn spec_change_direction(current: Direction, requested: Direction) -> Direction {
    if requested == opposite_of(current) {
        current
    } else {
        requested
    }
}

/// The cell one step from `head` in direction `d`. Moves toward the origin
/// (up, left) clamp at zero; moves away from it (down, right) do not clamp,
/// since running past the far border is caught by collision detection, not
/// by the movement rule itself.
pub open spec fn step(head: (u16, u16), d: Direction) -> (u16, u16) {
    match d {
        Direction::Up => (head.0, head.1.saturating_sub(1)),
        Direction::Down => (head.0, (head.1 + 1) as u16),
        Direction::Left => (head.0.saturating_sub(1), head.1),
        Direction::Right => (((head.0 + 1) as u16), head.1),
    }
}

/// Whether stepping from `head` in direction `d` stays within the `u16`
/// coordinate space: only moves that increase a coordinate can run out of it.
pub open spec fn can_step(head: (u16, u16), d: Direction) -> bool {
    match d {
        Direction::Up => true,
        Direction::Down => head.1 < u16::MAX,
        Direction::Left => true,
        Direction::Right => head.0 < u16::MAX,
    }
}

/// The body after one advance: the cell one step ahead of the head becomes
/// the new head, and the tail cell is dropped, so the length is unchanged.
pub open spec fn spec_advance(body: Seq<(u16, u16)>, d: Direction) -> Seq<(u16, u16)>
    recommends
        body.len() > 0,
{
    (seq![step(body[0], d)] + body).drop_last()
}

/// The body after one growth step: the tail cell is duplicated at the back,
/// so the length increases by one.
pub open spec fn spec_grow(body: Seq<(u16, u16)>) -> Seq<(u16, u16)>
    recommends
        body.len() > 0,
{
    body.push(body.last())
}

/// The player-controlled creature: an ordered body of grid cells, head at the
/// front and tail at the back, plus the current direction of travel.
pub struct Snake {
    pub body: VecDeque<(u16, u16)>,
    pub direction: Direction,
}

impl Snake {
    /// A snake is well formed when its body is non-empty; the head is the
    /// front element.
    pub open spec fn wf(self) -> bool {
        self.body@.len() > 0
    }

    /// The head cell: the front of the body.
    pub open spec fn head(self) -> (u16, u16)
        recommends
            self.wf(),
    {
        self.body@[0]
    }

    /// The snake a game starts with: three segments in a vertical column,
    /// head at `(10, 10)`, heading up.
    pub fn new() -> (s: Snake)
        ensures
            s.wf(),
            s.body@ == seq![(10u16, 10u16), (10u16, 11u16), (10u16, 12u16)],
            s.direction == Direction::Up,
    {
        let mut body: VecDeque<(u16, u16)> = VecDeque::new();
        body.push_back((10, 10));
        body.push_back((10, 11));
        body.push_back((10, 12));
        proof {
            assert(body@ =~= seq![(10u16, 10u16), (10u16, 11u16), (10u16, 12u16)]);
        }
        Snake { body, direction: Direction::Up }
    }

    /// Applies the reversal rule: the snake turns to `new_direction` unless
    /// that is the exact opposite of its current direction, which would run
    /// the head straight into the second body segment.
    pub fn change_direction(&mut self, new_direction: Direction)
        ensures
            final(self).direction == spec_change_direction(old(self).direction, new_direction),
            final(self).body@ == old(self).body@,
    {
        let reversal = match (self.direction, new_direction) {
            (Direction::Up, Direction::Down) => true,
            (Direction::Down, Direction::Up) => true,
            (Direction::Left, Direction::Right) => true,
            (Direction::Right, Direction::Left) => true,
            _ => false,
        };
        if !reversal {
            self.direction = new_direction;
        }
    }

    /// Advances the snake one cell in its current direction: the new head is
    /// pushed to the front and the tail is dropped, so the length is kept.
    pub fn move_forward(&mut self)
        requires
            old(self).wf(),
            can_step(old(self).head(), old(self).direction),
        ensures
            final(self).wf(),
            final(self).body@ == spec_advance(old(self).body@, old(self).direction),
            final(self).body@.len() == old(self).body@.len(),
            final(self).direction == old(self).direction,
    {
        let head = self.body[0];
        let new_head = match self.direction {
            Direction::Up => (head.0, head.1.saturating_sub(1)),
            Direction::Down => (head.0, head.1 + 1),
            Direction::Left => (head.0.saturating_sub(1), head.1),
            Direction::Right => (head.0 + 1, head.1),
        };
        self.body.push_front(new_head);
        self.body.pop_back();
    }

    /// Duplicates the tail cell at the back. The duplicate absorbs the tail
    /// drop of the next advance, so growth becomes visible as a net gain of
    /// one segment after that advance.
    pub fn grow(&mut self)
        requires
            old(self).wf(),
        ensures
            final(self).wf(),
            final(self).body@ == spec_grow(old(self).body@),
            final(self).body@.len() == old(self).body@.len() + 1,
            final(self).direction == old(self).direction,
    {
        let tail = self.body[self.body.len() - 1];
        self.body.push_back(tail);
    }

    /// The score shown to the player: the current body length.
    pub fn score(&self) -> (s: usize)
        ensures
            s == self.body@.len(),
    {
        self.body.len()
    }
}

/// Advancing never changes the length; growing and then advancing gains
/// exactly one segment over the starting length, and so ends one segment
/// longer than two advances alone would.
pub proof fn lemma_advance_grow_length(
    body: Seq<(u16, u16)>,
    d1: Direction,
    d2: Direction,
    d3: Direction,
)
    requires
        body.len() > 0,
    ensures
        spec_advance(body, d1).len() == body.len(),
        spec_advance(spec_grow(body), d1).len() == body.len() + 1,
        spec_advance(spec_grow(body), d1).len() == spec_advance(
            spec_advance(body, d2),
            d3,
        ).len() + 1,
{
}

} // verus!
