//! Collision detection: whether the snake's head sits on the border ring
//! that surrounds the playfield, or on one of its own body segments.

use vstd::prelude::*;
use crate::snake::Snake;

verus! {

/// Whether cell `c` lies on the one-cell-thick border ring of a playfield
/// whose interior is `width` by `height` cells.
pub open spec fn on_border(c: (u16, u16), width: u16, height: u16) -> bool {
    c.0 == 0 || c.0 == width + 1 || c.1 == 0 || c.1 == height + 1
}

/// Whether a body is in collision: its head lies on the border ring, or
/// coincides with any other segment of the body.
pub open spec fn spec_collides(body: Seq<(u16, u16)>, width: u16, height: u16) -> bool
    recommends
        body.len() > 0,
{
    on_border(body[0], width, height) || exists|i: int|
        1 <= i < body.len() && #[trigger] body[i] == body[0]
}

/// Whether the grid cell `(x, y)` lies on the border ring. The border is
/// drawn from exactly these cells.
pub fn is_border_cell(x: u16, y: u16, width: u16, height: u16) -> (r: bool)
    requires
        width < u16::MAX,
        height < u16::MAX,
    ensures
        r == on_border((x, y), width, height),
{
    x == 0 || x == width + 1 || y == 0 || y == height + 1
}

/// Decides whether the snake has died this tick: true exactly when its head
/// is on the border ring or meets another of its own segments. The head
/// itself is excluded from the self-intersection scan.
pub fn snake_collides(snake: &Snake, width: u16, height: u16) -> (r: bool)
    requires
        snake.wf(),
        width < u16::MAX,
        height < u16::MAX,
    ensures
        r == spec_collides(snake.body@, width, height),
{
    let head = snake.body[0];
    if head.0 == 0 || head.0 == width + 1 || head.1 == 0 || head.1 == height + 1 {
        return true;
    }
    let mut i: usize = 1;
    while i < snake.body.len()
        invariant
            1 <= i <= snake.body@.len(),
            snake.wf(),
            head == snake.body@[0],
            forall|j: int| 1 <= j < i ==> #[trigger] snake.body@[j] != snake.body@[0],
        decreases snake.body@.len() - i,
    {
        let c = snake.body[i];
        if c.0 == head.0 && c.1 == head.1 {
            proof {
                assert(c =~= snake.body@[0]);
            }
            return true;
        }
        i = i + 1;
    }
    false
}

/// A head anywhere on the left border column or on the right border column
/// is a collision, whatever its row.
pub proof fn lemma_wall_collision(body: Seq<(u16, u16)>, width: u16, height: u16)
    requires
        body.len() > 0,
        body[0].0 == 0 || body[0].0 == width + 1,
    ensures
        spec_collides(body, width, height),
{
}

/// A head strictly inside the playfield that matches no other segment is no
/// collision.
pub proof fn lemma_interior_no_collision(body: Seq<(u16, u16)>, width: u16, height: u16)
    requires
        body.len() > 0,
        1 <= body[0].0 <= width,
        1 <= body[0].1 <= height,
        forall|i: int| 1 <= i < body.len() ==> #[trigger] body[i] != body[0],
    ensures
        !spec_collides(body, width, height),
{
}

} // verus!
