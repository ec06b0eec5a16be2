//! The per-tick update rule of the running game: apply the requested
//! direction change, advance the snake, and on a food hit grow it and place
//! fresh food. Rendering, key polling and the game-over screen sit outside
//! the library and call in here once per tick.

use vstd::prelude::*;
use crate::food::{in_food_range, spawn_food};
use crate::snake::{can_step, spec_advance, spec_change_direction, spec_grow, Direction, Snake};

verus! {

/// Interior width of the playfield, in cells, border ring excluded.
pub const GAME_WIDTH: u16 = 150;

/// Interior height of the playfield, in cells, border ring excluded.
pub const GAME_HEIGHT: u16 = 50;

/// The direction the snake travels this tick: the key pressed this tick,
/// filtered through the reversal rule, or the current direction when no key
/// arrived.
pub open spec fn directed(current: Direction, key: Option<Direction>) -> Direction {
    match key {
        Some(k) => spec_change_direction(current, k),
        None => current,
    }
}

/// Runs one simulation tick: turns the snake if a direction key arrived,
/// advances it one cell, and if the new head lands on `food`, grows the
/// snake and returns a fresh food cell; otherwise the food is returned
/// unchanged. Collision is judged separately, before the next tick.
pub fn tick(
    snake: &mut Snake,
    food: (u16, u16),
    key: Option<Direction>,
    width: u16,
    height: u16,
) -> (new_food: (u16, u16))
    requires
        old(snake).wf(),
        width > 10,
        height > 10,
        can_step(old(snake).head(), directed(old(snake).direction, key)),
    ensures
        final(snake).wf(),
        final(snake).direction == directed(old(snake).direction, key),
        ({
            let moved = spec_advance(old(snake).body@, directed(old(snake).direction, key));
            if moved[0] == food {
                final(snake).body@ == spec_grow(moved) && final(snake).body@.len() == old(
                    snake,
                ).body@.len() + 1 && in_food_range(new_food, width, height)
            } else {
                final(snake).body@ == moved && new_food == food
            }
        }),
{
    match key {
        Some(k) => snake.change_direction(k),
        None => {},
    }
    snake.move_forward();
    let head = snake.body[0];
    if head.0 == food.0 && head.1 == food.1 {
        proof {
            assert(snake.body@[0] =~= food);
        }
        snake.grow();
        spawn_food(width, height)
    } else {
        food
    }
}

} // verus!
