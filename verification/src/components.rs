//! The component records that entities are built from. They carry data and
//! no behaviour.

use vstd::prelude::*;
use crate::geometry::{Point, Rect};

verus! {

/// One of the four movement directions.
#[derive(Debug, Clone, Copy, PartialEq, Eq, Structural)]
pub enum Direction {
    Up,
    Down,
    Left,
    Right,
}

impl Direction {
    /// The unit step of this direction; the y axis points down the screen.
    pub open spec fn offset(self) -> (int, int) {
        match self {
            Direction::Left => (-1, 0),
            Direction::Right => (1, 0),
            Direction::Up => (0, -1),
            Direction::Down => (0, 1),
        }
    }

    /// True for `Left` and `Right`.
    pub open spec fn horizontal(self) -> bool {
        self == Direction::Left || self == Direction::Right
    }

    /// The direction that cancels this one when both are held.
    pub open spec fn opposite(self) -> Direction {
        match self {
            Direction::Left => Direction::Right,
            Direction::Right => Direction::Left,
            Direction::Up => Direction::Down,
            Direction::Down => Direction::Up,
        }
    }

    /// Returns the movement delta for this direction.
    pub fn to_offset(self) -> (r: (i32, i32))
        ensures
            r.0 == self.offset().0,
            r.1 == self.offset().1,
    {
        match self {
            Direction::Left => (-1, 0),
            Direction::Right => (1, 0),
            Direction::Up => (0, -1),
            Direction::Down => (0, 1),
        }
    }

    /// Check if this direction is horizontal.
    pub fn is_horizontal(self) -> (r: bool)
        ensures
            r == self.horizontal(),
    {
        match self {
            Direction::Left | Direction::Right => true,
            _ => false,
        }
    }

    /// Check if this direction is vertical.
    pub fn is_vertical(self) -> (r: bool)
        ensures
            r == !self.horizontal(),
    {
        match self {
            Direction::Up | Direction::Down => true,
            _ => false,
        }
    }
}

/// Marks an entity whose velocity follows the keyboard.
#[derive(Debug, Clone, Copy, PartialEq, Eq, Structural)]
pub struct KeyboardControlled;

/// Marks the player's entity.
#[derive(Debug, Clone, Copy, PartialEq, Eq, Structural)]
pub struct Player;

/// The current position of a given entity.
#[derive(Debug, Clone, Copy, PartialEq, Eq, Structural)]
pub struct Position(pub Point);

/// The current speed and direction of a given entity.
#[derive(Debug, Clone, Copy, PartialEq, Eq, Structural)]
pub struct Velocity {
    pub speed: i32,
    pub direction: Direction,
}

/// What is drawn for an entity.
#[derive(Debug, Clone, Copy, PartialEq, Eq, Structural)]
pub struct Sprite {
    /// The specific spritesheet to render from.
    pub spritesheet: usize,
    /// The current region of the spritesheet to be rendered.
    pub region: Rect,
}

/// The frames an entity cycles through while it moves, one list for each
/// direction.
#[derive(Debug)]
pub struct MovementAnimation {
    /// The current frame in the animation of the direction this entity is
    /// moving in.
    pub current_frame: usize,
    pub up_frames: Vec<Sprite>,
    pub down_frames: Vec<Sprite>,
    pub left_frames: Vec<Sprite>,
    pub right_frames: Vec<Sprite>,
}

impl MovementAnimation {
    /// The frame list that is played while moving in `direction`.
    pub open spec fn frames(self, direction: Direction) -> Seq<Sprite> {
        match direction {
            Direction::Up => self.up_frames@,
            Direction::Down => self.down_frames@,
            Direction::Left => self.left_frames@,
            Direction::Right => self.right_frames@,
        }
    }

    /// Every direction has at least one frame.
    pub open spec fn playable(self) -> bool {
        forall|d: Direction| #[trigger] self.frames(d).len() > 0
    }

    /// This animation with another current frame; the frame lists are kept.
    pub open spec fn at_frame(self, frame: usize) -> MovementAnimation {
        MovementAnimation { current_frame: frame, ..self }
    }

    /// The frame that follows the current one in the list of `direction`,
    /// wrapping round at its end.
    pub open spec fn next_frame(self, direction: Direction) -> int {
        (self.current_frame + 1) % (self.frames(direction).len() as int)
    }
}

} // verus!
