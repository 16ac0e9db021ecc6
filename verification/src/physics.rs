//! The physics system: moves every entity that has a position and a
//! velocity by one step.

use vstd::prelude::*;
use crate::components::{Position, Velocity};
use crate::geometry::{MAX_COORD, MIN_COORD};
use crate::storage::{component, Store};

verus! {

/// The position of an entity one frame later: moved by its speed along its
/// direction if the speed is positive, else unchanged.
pub open spec fn moved(position: Position, velocity: Velocity) -> Position {
    if velocity.speed > 0 {
        Position(
            position.0.shifted(
                velocity.direction.offset().0 * velocity.speed,
                velocity.direction.offset().1 * velocity.speed,
            ),
        )
    } else {
        position
    }
}

/// The positions one frame later: an entity with a velocity has moved, every
/// other slot is unchanged.
pub open spec fn step_all(positions: Seq<Option<Position>>, velocities: Seq<Option<Velocity>>) -> Seq<
    Option<Position>,
> {
    Seq::new(
        positions.len(),
        |i: int|
            match (positions[i], component(velocities, i)) {
                (Some(position), Some(velocity)) => Some(moved(position, velocity)),
                _ => positions[i],
            },
    )
}

/// The system that integrates positions.
#[derive(Debug, Clone, Copy)]
pub struct Physics;

impl Physics {
    /// Moves one position by one step of `velocity`.
    pub fn integrate(position: Position, velocity: Velocity) -> (next: Position)
        ensures
            next == moved(position, velocity),
    {
        if velocity.speed > 0 {
            let (dx, dy) = velocity.direction.to_offset();
            let step_x: i32 = dx * velocity.speed;
            let step_y: i32 = dy * velocity.speed;
            Position(position.0.offset(step_x, step_y))
        } else {
            position
        }
    }

    /// Moves every entity that has both a position and a velocity.
    pub fn run(&mut self, positions: &mut Store<Position>, velocities: &Store<Velocity>)
        ensures
            final(positions)@ == step_all(old(positions)@, velocities@),
    {
        let n: usize = positions.slots.len();
        let mut i: usize = 0;
        while i < n
            invariant
                i <= n,
                positions@.len() == n,
                old(positions)@.len() == n,
                forall|j: int| 0 <= j < i ==> positions@[j] == step_all(old(positions)@, velocities@)[j],
                forall|j: int| i <= j < n ==> positions@[j] == old(positions)@[j],
            decreases n - i,
        {
            if i < velocities.slots.len() {
                match velocities.slots[i] {
                    Some(velocity) => {
                        match &mut positions.slots[i] {
                            Some(position) => {
                                *position = Physics::integrate(*position, velocity);
                            },
                            None => {},
                        }
                    },
                    None => {},
                }
            }
            i = i + 1;
        }
    }
}

/// An entity without positive speed stays where it is.
pub proof fn lemma_idle_stays(position: Position, velocity: Velocity)
    requires
        velocity.speed <= 0,
    ensures
        moved(position, velocity) == position,
{
}

/// One step is plain addition of speed times the unit step of the
/// direction, as long as the position stays within the limits of a point.
pub proof fn lemma_euler_step(position: Position, velocity: Velocity)
    requires
        velocity.speed > 0,
        position.0.in_range(),
        MIN_COORD <= position.0.x + velocity.direction.offset().0 * velocity.speed <= MAX_COORD,
        MIN_COORD <= position.0.y + velocity.direction.offset().1 * velocity.speed <= MAX_COORD,
    ensures
        moved(position, velocity).0.x == position.0.x + velocity.direction.offset().0
            * velocity.speed,
        moved(position, velocity).0.y == position.0.y + velocity.direction.offset().1
            * velocity.speed,
{
}

/// A step changes one coordinate only: a horizontal move keeps y and a
/// vertical move keeps x, for a position within the limits of a point.
pub proof fn lemma_step_keeps_other_axis(position: Position, velocity: Velocity)
    requires
        position.0.in_range(),
    ensures
        velocity.direction.horizontal() ==> moved(position, velocity).0.y == position.0.y,
        !velocity.direction.horizontal() ==> moved(position, velocity).0.x == position.0.x,
{
}

} // verus!
