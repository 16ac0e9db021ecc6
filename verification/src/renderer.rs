//! The renderer: turns every entity that has a position and a sprite into
//! one draw command. It reads the stores and changes nothing.

use vstd::prelude::*;
use crate::components::{Position, Sprite};
use crate::geometry::{Point, Rect, MAX_COORD, MIN_COORD};
use crate::storage::{component, Store};

verus! {

/// One copy from a texture to the screen.
#[derive(Debug, Clone, Copy, PartialEq, Eq, Structural)]
pub struct DrawCommand {
    /// Which texture to copy from.
    pub texture_index: usize,
    /// The part of the texture that is copied.
    pub source_rect: Rect,
    /// Where on the screen it goes.
    pub dest_rect: Rect,
}

/// The centre of a viewport of the given size.
pub open spec fn viewport_center(width: u32, height: u32) -> Point {
    Point::clamped(width as int / 2, height as int / 2)
}

/// Where a position in the world lies on the screen: the origin of the
/// world is the centre of the viewport.
pub open spec fn screen_position(position: Position, width: u32, height: u32) -> Point {
    position.0.shifted(
        viewport_center(width, height).x as int,
        viewport_center(width, height).y as int,
    )
}

/// The draw command of one entity: its sprite's region, copied to a
/// rectangle of the same size centred on its place on the screen.
pub open spec fn draw_command(position: Position, sprite: Sprite, width: u32, height: u32) -> DrawCommand {
    DrawCommand {
        texture_index: sprite.spritesheet,
        source_rect: sprite.region,
        dest_rect: Rect::centered(
            screen_position(position, width, height),
            sprite.region.width as int,
            sprite.region.height as int,
        ),
    }
}

/// The draw commands of the first `n` entities, in the order of the
/// entities. An entity that lacks position or sprite gives none.
pub open spec fn draw_upto(
    positions: Seq<Option<Position>>,
    sprites: Seq<Option<Sprite>>,
    width: u32,
    height: u32,
    n: int,
) -> Seq<DrawCommand>
    decreases n,
{
    if n <= 0 {
        Seq::empty()
    } else {
        let before = draw_upto(positions, sprites, width, height, n - 1);
        match (component(positions, n - 1), component(sprites, n - 1)) {
            (Some(position), Some(sprite)) => before.push(draw_command(position, sprite, width, height)),
            _ => before,
        }
    }
}

/// The draw commands of a frame.
pub open spec fn draw_all(
    positions: Seq<Option<Position>>,
    sprites: Seq<Option<Sprite>>,
    width: u32,
    height: u32,
) -> Seq<DrawCommand> {
    draw_upto(positions, sprites, width, height, positions.len() as int)
}

/// The draw command of one entity in a viewport of the given size.
pub fn draw_entity(position: Position, sprite: Sprite, width: u32, height: u32) -> (command:
    DrawCommand)
    ensures
        command == draw_command(position, sprite, width, height),
{
    let center: Point = Point::new((width / 2) as i32, (height / 2) as i32);
    let screen: Point = position.0.offset(center.x, center.y);
    DrawCommand {
        texture_index: sprite.spritesheet,
        source_rect: sprite.region,
        dest_rect: Rect::from_center(screen, sprite.region.width, sprite.region.height),
    }
}

/// The draw commands of all entities that have both a position and a
/// sprite, in the order of the entities. Entities that lack either are
/// skipped.
pub fn render(width: u32, height: u32, positions: &Store<Position>, sprites: &Store<Sprite>) -> (commands:
    Vec<DrawCommand>)
    ensures
        commands@ == draw_all(positions@, sprites@, width, height),
{
    let mut commands: Vec<DrawCommand> = Vec::new();
    let n: usize = positions.slots.len();
    let mut i: usize = 0;
    while i < n
        invariant
            i <= n,
            n == positions@.len(),
            commands@ == draw_upto(positions@, sprites@, width, height, i as int),
        decreases n - i,
    {
        if i < sprites.slots.len() {
            match (positions.slots[i], sprites.slots[i]) {
                (Some(position), Some(sprite)) => {
                    commands.push(draw_entity(position, sprite, width, height));
                },
                _ => {},
            }
        }
        i = i + 1;
    }
    commands
}

/// A draw command never changes the size of what it copies, as long as the
/// sprite's region has a size within the limits of a rectangle.
pub proof fn lemma_draw_keeps_size(position: Position, sprite: Sprite, width: u32, height: u32)
    requires
        sprite.region.in_range(),
    ensures
        draw_command(position, sprite, width, height).dest_rect.width == sprite.region.width,
        draw_command(position, sprite, width, height).dest_rect.height == sprite.region.height,
        draw_command(position, sprite, width, height).dest_rect.in_range(),
{
}

/// The renderer gives at most one command for each entity.
pub proof fn lemma_draw_count(
    positions: Seq<Option<Position>>,
    sprites: Seq<Option<Sprite>>,
    width: u32,
    height: u32,
    n: int,
)
    requires
        0 <= n,
    ensures
        draw_upto(positions, sprites, width, height, n).len() <= n,
    decreases n,
{
    if n > 0 {
        lemma_draw_count(positions, sprites, width, height, n - 1);
    }
}

/// The destination of a draw command is centred on the entity's position
/// taken from the centre of the viewport, as long as nothing has to be
/// clamped on the way.
pub proof fn lemma_draw_is_centered(position: Position, sprite: Sprite, width: u32, height: u32)
    requires
        position.0.in_range(),
        sprite.region.in_range(),
        width / 2 <= MAX_COORD,
        height / 2 <= MAX_COORD,
        MIN_COORD <= position.0.x + width / 2 <= MAX_COORD,
        MIN_COORD <= position.0.y + height / 2 <= MAX_COORD,
        MIN_COORD <= position.0.x + width / 2 - sprite.region.width / 2,
        MIN_COORD <= position.0.y + height / 2 - sprite.region.height / 2,
    ensures
        draw_command(position, sprite, width, height).dest_rect.x + sprite.region.width / 2
            == position.0.x + width / 2,
        draw_command(position, sprite, width, height).dest_rect.y + sprite.region.height / 2
            == position.0.y + height / 2,
        draw_command(position, sprite, width, height).source_rect == sprite.region,
        draw_command(position, sprite, width, height).texture_index == sprite.spritesheet,
{
}

} // verus!
