//! A game of one player without component stores: the player's record is
//! moved by the resolved direction and drawn from a sprite sheet that has
//! one row for each direction.

use vstd::prelude::*;
use crate::components::Direction;
use crate::geometry::{Point, Rect};
use crate::input::{effective, pressed, released, key_direction, direction_of_key, InputHandler};
use crate::renderer::DrawCommand;

verus! {

/// The speed of the player while a direction is effective.
pub const PLAYER_MOVEMENT_SPEED: i32 = 20;

/// The player: where it is, how it moves and what is drawn for it.
#[derive(Debug, Clone, Copy, PartialEq, Eq, Structural)]
pub struct Player {
    pub position: Point,
    /// The first frame of the first row of the sprite sheet.
    pub sprite: Rect,
    pub speed: i32,
    pub direction: Direction,
    /// The column of the sprite sheet that is drawn.
    pub current_frame: u8,
}

/// The row of the sprite sheet that shows the player facing `direction`.
pub open spec fn spritesheet_row(direction: Direction) -> int {
    match direction {
        Direction::Up => 3,
        Direction::Down => 0,
        Direction::Left => 1,
        Direction::Right => 2,
    }
}

/// Returns the row of the spritesheet corresponding to the given direction.
pub fn direction_spritesheet_row(direction: Direction) -> (row: i32)
    ensures
        row == spritesheet_row(direction),
{
    match direction {
        Direction::Up => 3,
        Direction::Down => 0,
        Direction::Left => 1,
        Direction::Right => 2,
    }
}

impl Player {
    /// The player one frame later: moved by its speed along its direction
    /// if the speed is positive.
    pub open spec fn moved(self) -> Player {
        if self.speed > 0 {
            Player {
                position: self.position.shifted(
                    self.direction.offset().0 * self.speed,
                    self.direction.offset().1 * self.speed,
                ),
                ..self
            }
        } else {
            self
        }
    }

    /// The player after the keys resolved to `direction`: moving that way,
    /// or standing still and facing where it faced.
    pub open spec fn steered(self, direction: Option<Direction>) -> Player {
        match direction {
            Some(d) => Player { direction: d, speed: PLAYER_MOVEMENT_SPEED, ..self },
            None => Player { speed: 0, ..self },
        }
    }

    /// The left edge of the frame that is drawn.
    pub open spec fn frame_x(self) -> int {
        self.sprite.x + self.sprite.width * self.current_frame
    }

    /// The upper edge of the frame that is drawn.
    pub open spec fn frame_y(self) -> int {
        self.sprite.y + self.sprite.height * spritesheet_row(self.direction)
    }

    /// True when the frame that is drawn can be computed in `i32`.
    pub open spec fn drawable(self) -> bool {
        &&& self.sprite.width <= i32::MAX
        &&& self.sprite.height <= i32::MAX
        &&& self.sprite.width * self.current_frame <= i32::MAX
        &&& self.sprite.height * spritesheet_row(self.direction) <= i32::MAX
        &&& i32::MIN <= self.frame_x() <= i32::MAX
        &&& i32::MIN <= self.frame_y() <= i32::MAX
    }

    /// The draw command of the player in a viewport of the given size: the
    /// frame of its direction and column, copied to a rectangle of the same
    /// size centred on the player's place on the screen.
    pub open spec fn drawn(self, width: u32, height: u32) -> DrawCommand {
        DrawCommand {
            texture_index: 0,
            source_rect: Rect::clamped(
                self.frame_x(),
                self.frame_y(),
                self.sprite.width as int,
                self.sprite.height as int,
            ),
            dest_rect: Rect::centered(
                self.position.shifted(
                    Point::clamped(width as int / 2, height as int / 2).x as int,
                    Point::clamped(width as int / 2, height as int / 2).y as int,
                ),
                self.sprite.width as int,
                self.sprite.height as int,
            ),
        }
    }

    /// A player that stands at `start_position` and faces right.
    pub fn new(start_position: Point) -> (player: Player)
        ensures
            player == (Player {
                position: start_position,
                sprite: Rect { x: 0, y: 0, width: 26, height: 36 },
                speed: 0,
                direction: Direction::Right,
                current_frame: 0,
            }),
            player.drawable(),
    {
        Player {
            position: start_position,
            sprite: Rect::new(0, 0, 26, 36),
            speed: 0,
            direction: Direction::Right,
            current_frame: 0,
        }
    }

    /// Moves the player by one step if its speed is positive.
    pub fn update(&mut self)
        ensures
            *final(self) == old(self).moved(),
    {
        let speed: i32 = self.speed;
        if speed > 0 {
            let (dx, dy) = self.direction.to_offset();
            assert(-speed <= dx * speed <= speed && -speed <= dy * speed <= speed) by (nonlinear_arith)
                requires
                    -1 <= dx <= 1,
                    -1 <= dy <= 1,
                    speed > 0,
            ;
            let step_x: i32 = dx * speed;
            let step_y: i32 = dy * speed;
            self.position = self.position.offset(step_x, step_y);
        }
    }

    /// Makes the player move in `direction`, or stop where there is none.
    pub fn set_movement(&mut self, direction: Option<Direction>)
        ensures
            *final(self) == old(self).steered(direction),
    {
        match direction {
            Some(dir) => {
                self.direction = dir;
                self.speed = PLAYER_MOVEMENT_SPEED;
            },
            None => {
                self.speed = 0;
            },
        }
    }
}

/// The state of the game: the player and the keys that are held.
#[derive(Debug)]
pub struct Game {
    pub player: Player,
    pub input_handler: InputHandler,
}

impl Game {
    /// The held directions, the latest pressed first.
    pub open spec fn held(&self) -> Seq<Direction> {
        self.input_handler@
    }

    /// The resolver of the held keys is consistent.
    pub open spec fn wf(&self) -> bool {
        self.input_handler.wf()
    }

    /// A game with the player at the origin and no key held.
    pub fn new() -> (game: Game)
        ensures
            game.wf(),
            game.held() == Seq::<Direction>::empty(),
            game.player == (Player {
                position: Point { x: 0, y: 0 },
                sprite: Rect { x: 0, y: 0, width: 26, height: 36 },
                speed: 0,
                direction: Direction::Right,
                current_frame: 0,
            }),
    {
        Game { player: Player::new(Point::new(0, 0)), input_handler: InputHandler::new() }
    }

    /// Records that a key went down or up. Keys other than the arrow keys
    /// are ignored.
    pub fn handle_key_event(&mut self, key_code: i32, is_pressed: bool)
        requires
            old(self).wf(),
        ensures
            final(self).wf(),
            final(self).player == old(self).player,
            final(self).held() == (match key_direction(key_code as int) {
                Some(d) => if is_pressed {
                    pressed(old(self).held(), d)
                } else {
                    released(old(self).held(), d)
                },
                None => old(self).held(),
            }),
    {
        let direction: Direction = match direction_of_key(key_code) {
            Some(direction) => direction,
            None => {
                return ;
            },
        };
        if is_pressed {
            self.input_handler.press_key(direction);
        } else {
            self.input_handler.release_key(direction);
        }
    }

    /// Advances the game by one frame: the player follows the effective
    /// direction and moves.
    pub fn update(&mut self)
        requires
            old(self).wf(),
        ensures
            final(self).wf(),
            final(self).held() == old(self).held(),
            final(self).player == old(self).player.steered(effective(old(self).held())).moved(),
    {
        let effective_direction: Option<Direction> = self.input_handler.get_effective_direction();
        self.player.set_movement(effective_direction);
        self.player.update();
    }
}

/// The draw command of the player in a viewport of the given size.
pub fn render(width: u32, height: u32, player: &Player) -> (command: DrawCommand)
    requires
        player.drawable(),
    ensures
        command == player.drawn(width, height),
{
    let frame_width: u32 = player.sprite.width;
    let frame_height: u32 = player.sprite.height;
    let column: i32 = player.current_frame as i32;
    let row: i32 = direction_spritesheet_row(player.direction);
    let current_frame: Rect = Rect::new(
        player.sprite.x + frame_width as i32 * column,
        player.sprite.y + frame_height as i32 * row,
        frame_width,
        frame_height,
    );
    let center: Point = Point::new((width / 2) as i32, (height / 2) as i32);
    let screen_position: Point = player.position.offset(center.x, center.y);
    let screen_rect: Rect = Rect::from_center(screen_position, frame_width, frame_height);
    DrawCommand { texture_index: 0, source_rect: current_frame, dest_rect: screen_rect }
}

/// A player that stands still stays where it is, whatever its direction.
pub proof fn lemma_stopped_player_stays(player: Player)
    ensures
        player.steered(None).moved() == player.steered(None),
        player.steered(None).position == player.position,
        player.steered(None).direction == player.direction,
{
}

} // verus!
