//! The keyboard system: hands the movement command of the frame to the
//! velocity of every entity that the keyboard controls.

use vstd::prelude::*;
use crate::components::{Direction, KeyboardControlled, Velocity};
use crate::storage::{component, Store};

verus! {

/// The speed of an entity that the keyboard moves.
pub const PLAYER_MOVEMENT_SPEED: i32 = 20;

/// What the keys ask of the entities they control.
#[derive(Debug, Clone, Copy, PartialEq, Eq, Structural)]
pub enum MovementCommand {
    Stop,
    Move(Direction),
}

/// The command of a frame: to move while a direction is effective, to stop
/// when none is and a key changed in this frame, and nothing otherwise.
pub open spec fn command_of(direction: Option<Direction>, keys_changed: bool) -> Option<MovementCommand> {
    match direction {
        Some(d) => Some(MovementCommand::Move(d)),
        None => if keys_changed {
            Some(MovementCommand::Stop)
        } else {
            None
        },
    }
}

/// A velocity after a command: a move sets speed and direction, a stop sets
/// the speed to zero and keeps the direction.
pub open spec fn commanded(command: MovementCommand, velocity: Velocity) -> Velocity {
    match command {
        MovementCommand::Move(direction) => Velocity { speed: PLAYER_MOVEMENT_SPEED, direction },
        MovementCommand::Stop => Velocity { speed: 0, direction: velocity.direction },
    }
}

/// The velocities after the keyboard system ran: with a command, the
/// velocity of every entity that carries the tag follows it; every other
/// slot is unchanged.
pub open spec fn command_all(
    command: Option<MovementCommand>,
    controlled: Seq<Option<KeyboardControlled>>,
    velocities: Seq<Option<Velocity>>,
) -> Seq<Option<Velocity>> {
    Seq::new(
        velocities.len(),
        |i: int|
            match (command, component(controlled, i), velocities[i]) {
                (Some(c), Some(_), Some(velocity)) => Some(commanded(c, velocity)),
                _ => velocities[i],
            },
    )
}

/// The movement command that the resolved direction gives for one frame.
pub fn movement_command(direction: Option<Direction>, keys_changed: bool) -> (command: Option<
    MovementCommand,
>)
    ensures
        command == command_of(direction, keys_changed),
{
    match direction {
        Some(d) => Some(MovementCommand::Move(d)),
        None => {
            if keys_changed {
                Some(MovementCommand::Stop)
            } else {
                None
            }
        },
    }
}

/// The system that applies the movement command.
#[derive(Debug, Clone, Copy)]
pub struct Keyboard;

impl Keyboard {
    /// Applies `command` to one velocity.
    pub fn apply(command: MovementCommand, velocity: Velocity) -> (next: Velocity)
        ensures
            next == commanded(command, velocity),
    {
        match command {
            MovementCommand::Move(direction) => Velocity { speed: PLAYER_MOVEMENT_SPEED, direction },
            MovementCommand::Stop => Velocity { speed: 0, direction: velocity.direction },
        }
    }

    /// Applies the command of the frame to every entity that carries the
    /// `KeyboardControlled` tag and has a velocity. Without a command nothing
    /// is written.
    pub fn run(
        &mut self,
        movement_command: Option<MovementCommand>,
        keyboard_controlled: &Store<KeyboardControlled>,
        velocities: &mut Store<Velocity>,
    )
        ensures
            final(velocities)@ == command_all(movement_command, keyboard_controlled@, old(velocities)@),
    {
        let command: MovementCommand = match movement_command {
            Some(command) => command,
            None => {
                return ;
            },
        };
        let n: usize = velocities.slots.len();
        let mut i: usize = 0;
        while i < n
            invariant
                i <= n,
                velocities@.len() == n,
                old(velocities)@.len() == n,
                movement_command == Some(command),
                forall|j: int|
                    0 <= j < i ==> velocities@[j] == command_all(
                        movement_command,
                        keyboard_controlled@,
                        old(velocities)@,
                    )[j],
                forall|j: int| i <= j < n ==> velocities@[j] == old(velocities)@[j],
            decreases n - i,
        {
            if i < keyboard_controlled.slots.len() {
                if keyboard_controlled.slots[i].is_some() {
                    match &mut velocities.slots[i] {
                        Some(velocity) => {
                            *velocity = Keyboard::apply(command, *velocity);
                        },
                        None => {},
                    }
                }
            }
            i = i + 1;
        }
    }
}

} // verus!
