use sprite_ecs::animator::Animator;
use sprite_ecs::components::{
    Direction, KeyboardControlled, MovementAnimation, Position, Sprite, Velocity,
};
use sprite_ecs::geometry::{Point, Rect, MAX_COORD};
use sprite_ecs::keyboard::{movement_command, Keyboard, MovementCommand, PLAYER_MOVEMENT_SPEED};
use sprite_ecs::physics::Physics;
use sprite_ecs::renderer::{draw_entity, render, DrawCommand};
use sprite_ecs::storage::{Entity, Store};

fn frame(sheet: usize, column: i32) -> Sprite {
    Sprite { spritesheet: sheet, region: Rect::new(column * 26, 0, 26, 36) }
}

fn frames(sheet: usize, count: i32) -> Vec<Sprite> {
    (0..count).map(|column| frame(sheet, column)).collect()
}

fn animation(current_frame: usize, count: i32) -> MovementAnimation {
    MovementAnimation {
        current_frame,
        up_frames: frames(3, count),
        down_frames: frames(0, count),
        left_frames: frames(1, count),
        right_frames: frames(2, count),
    }
}

#[test]
fn physics_moves_right_by_speed() {
    let position = Position(Point::new(10, 10));
    let velocity = Velocity { speed: 5, direction: Direction::Right };
    assert_eq!(Physics::integrate(position, velocity), Position(Point { x: 15, y: 10 }));
}

#[test]
fn physics_leaves_idle_entity() {
    let position = Position(Point::new(10, 10));
    let velocity = Velocity { speed: 0, direction: Direction::Right };
    assert_eq!(Physics::integrate(position, velocity), position);
}

#[test]
fn physics_moves_along_each_direction() {
    let position = Position(Point::new(0, 0));
    let go = |direction| Physics::integrate(position, Velocity { speed: 3, direction }).0;
    assert_eq!(go(Direction::Left), Point { x: -3, y: 0 });
    assert_eq!(go(Direction::Up), Point { x: 0, y: -3 });
    assert_eq!(go(Direction::Down), Point { x: 0, y: 3 });
}

#[test]
fn physics_ignores_negative_speed() {
    let position = Position(Point::new(4, 4));
    let velocity = Velocity { speed: -5, direction: Direction::Left };
    assert_eq!(Physics::integrate(position, velocity), position);
}

#[test]
fn physics_saturates_at_the_limit() {
    let position = Position(Point::new(MAX_COORD - 1, 0));
    let velocity = Velocity { speed: i32::MAX, direction: Direction::Right };
    assert_eq!(Physics::integrate(position, velocity), Position(Point { x: MAX_COORD, y: 0 }));
}

#[test]
fn physics_run_skips_entities_without_velocity() {
    let mut positions: Store<Position> = Store::new();
    let mut velocities: Store<Velocity> = Store::new();
    positions.attach(Some(Position(Point::new(1, 1))));
    velocities.attach(None);
    positions.attach(None);
    velocities.attach(Some(Velocity { speed: 2, direction: Direction::Down }));
    positions.attach(Some(Position(Point::new(5, 5))));
    velocities.attach(Some(Velocity { speed: 2, direction: Direction::Down }));
    positions.attach(Some(Position(Point::new(9, 9))));
    Physics.run(&mut positions, &velocities);
    assert_eq!(positions.get(Entity(0)), Some(&Position(Point { x: 1, y: 1 })));
    assert_eq!(positions.get(Entity(1)), None);
    assert_eq!(positions.get(Entity(2)), Some(&Position(Point { x: 5, y: 7 })));
    assert_eq!(positions.get(Entity(3)), Some(&Position(Point { x: 9, y: 9 })));
    assert_eq!(positions.len(), 4);
}

#[test]
fn command_follows_direction_and_transitions() {
    assert_eq!(
        movement_command(Some(Direction::Left), false),
        Some(MovementCommand::Move(Direction::Left))
    );
    assert_eq!(
        movement_command(Some(Direction::Up), true),
        Some(MovementCommand::Move(Direction::Up))
    );
    assert_eq!(movement_command(None, true), Some(MovementCommand::Stop));
    assert_eq!(movement_command(None, false), None);
}

#[test]
fn keyboard_apply_sets_speed_and_direction() {
    let velocity = Velocity { speed: 0, direction: Direction::Right };
    assert_eq!(
        Keyboard::apply(MovementCommand::Move(Direction::Up), velocity),
        Velocity { speed: PLAYER_MOVEMENT_SPEED, direction: Direction::Up }
    );
    assert_eq!(PLAYER_MOVEMENT_SPEED, 20);
    let moving = Velocity { speed: 20, direction: Direction::Up };
    assert_eq!(
        Keyboard::apply(MovementCommand::Stop, moving),
        Velocity { speed: 0, direction: Direction::Up }
    );
}

#[test]
fn keyboard_run_touches_only_tagged_entities() {
    let mut tags: Store<KeyboardControlled> = Store::new();
    let mut velocities: Store<Velocity> = Store::new();
    let idle = Velocity { speed: 0, direction: Direction::Right };
    tags.attach(Some(KeyboardControlled));
    velocities.attach(Some(idle));
    tags.attach(None);
    velocities.attach(Some(idle));
    tags.attach(Some(KeyboardControlled));
    velocities.attach(None);
    Keyboard.run(Some(MovementCommand::Move(Direction::Left)), &tags, &mut velocities);
    assert_eq!(
        velocities.get(Entity(0)),
        Some(&Velocity { speed: 20, direction: Direction::Left })
    );
    assert_eq!(velocities.get(Entity(1)), Some(&idle));
    assert_eq!(velocities.get(Entity(2)), None);
    Keyboard.run(None, &tags, &mut velocities);
    assert_eq!(
        velocities.get(Entity(0)),
        Some(&Velocity { speed: 20, direction: Direction::Left })
    );
    Keyboard.run(Some(MovementCommand::Stop), &tags, &mut velocities);
    assert_eq!(velocities.get(Entity(0)), Some(&Velocity { speed: 0, direction: Direction::Left }));
    assert_eq!(velocities.get(Entity(1)), Some(&idle));
}

#[test]
fn animator_wraps_at_end_of_list() {
    let mut animation = animation(3, 4);
    let mut sprite = frame(9, 9);
    Animator::animate(&mut animation, &mut sprite, Velocity { speed: 5, direction: Direction::Down });
    assert_eq!(animation.current_frame, 0);
    assert_eq!(sprite, frame(0, 0));
}

#[test]
fn animator_advances_by_one() {
    let mut animation = animation(1, 4);
    let mut sprite = frame(9, 9);
    Animator::animate(&mut animation, &mut sprite, Velocity { speed: 5, direction: Direction::Left });
    assert_eq!(animation.current_frame, 2);
    assert_eq!(sprite, frame(1, 2));
    assert_eq!(animation.left_frames, frames(1, 4));
}

#[test]
fn animator_holds_idle_entity() {
    let mut animation = animation(2, 4);
    let mut sprite = frame(9, 9);
    for _ in 0..5 {
        Animator::animate(&mut animation, &mut sprite, Velocity { speed: 0, direction: Direction::Up });
    }
    assert_eq!(animation.current_frame, 2);
    assert_eq!(sprite, frame(9, 9));
}

#[test]
fn animator_wraps_into_shorter_list() {
    let mut animation = animation(3, 4);
    animation.up_frames = frames(3, 2);
    let mut sprite = frame(9, 9);
    Animator::animate(&mut animation, &mut sprite, Velocity { speed: 1, direction: Direction::Up });
    assert_eq!(animation.current_frame, 0);
    assert_eq!(sprite, frame(3, 0));
}

#[test]
fn animator_handles_largest_frame_index() {
    let mut animation = animation(usize::MAX, 4);
    let mut sprite = frame(9, 9);
    Animator::animate(&mut animation, &mut sprite, Velocity { speed: 1, direction: Direction::Right });
    assert_eq!(animation.current_frame, 0);
    assert_eq!(sprite, frame(2, 0));
}

#[test]
fn animator_run_needs_all_three_components() {
    let mut animations: Store<MovementAnimation> = Store::new();
    let mut sprites: Store<Sprite> = Store::new();
    let mut velocities: Store<Velocity> = Store::new();
    let moving = Velocity { speed: 20, direction: Direction::Right };
    animations.attach(Some(animation(0, 2)));
    sprites.attach(Some(frame(9, 9)));
    velocities.attach(Some(moving));
    animations.attach(Some(animation(0, 2)));
    sprites.attach(None);
    velocities.attach(Some(moving));
    animations.attach(Some(animation(0, 2)));
    sprites.attach(Some(frame(9, 9)));
    velocities.attach(None);
    animations.attach(None);
    sprites.attach(Some(frame(9, 9)));
    velocities.attach(Some(moving));
    Animator.run(&mut animations, &mut sprites, &velocities);
    assert_eq!(animations.get(Entity(0)).map(|a| a.current_frame), Some(1));
    assert_eq!(sprites.get(Entity(0)), Some(&frame(2, 1)));
    assert_eq!(animations.get(Entity(1)).map(|a| a.current_frame), Some(0));
    assert_eq!(animations.get(Entity(2)).map(|a| a.current_frame), Some(0));
    assert_eq!(sprites.get(Entity(2)), Some(&frame(9, 9)));
    assert_eq!(sprites.get(Entity(3)), Some(&frame(9, 9)));
}

#[test]
fn renderer_centres_origin_in_viewport() {
    let sprite = frame(0, 0);
    let command = draw_entity(Position(Point::new(0, 0)), sprite, 800, 600);
    assert_eq!(
        command,
        DrawCommand {
            texture_index: 0,
            source_rect: Rect { x: 0, y: 0, width: 26, height: 36 },
            dest_rect: Rect { x: 387, y: 282, width: 26, height: 36 },
        }
    );
    assert_eq!(command.dest_rect.x + 26 / 2, 400);
    assert_eq!(command.dest_rect.y + 36 / 2, 300);
}

#[test]
fn renderer_offsets_by_position() {
    let sprite = Sprite { spritesheet: 4, region: Rect::new(52, 36, 10, 20) };
    let command = draw_entity(Position(Point::new(-100, 50)), sprite, 800, 600);
    assert_eq!(command.texture_index, 4);
    assert_eq!(command.source_rect, Rect { x: 52, y: 36, width: 10, height: 20 });
    assert_eq!(command.dest_rect, Rect { x: 295, y: 340, width: 10, height: 20 });
}

#[test]
fn renderer_skips_incomplete_entities() {
    let mut positions: Store<Position> = Store::new();
    let mut sprites: Store<Sprite> = Store::new();
    positions.attach(Some(Position(Point::new(0, 0))));
    sprites.attach(None);
    positions.attach(None);
    sprites.attach(Some(frame(1, 0)));
    positions.attach(Some(Position(Point::new(10, 0))));
    sprites.attach(Some(frame(2, 1)));
    positions.attach(Some(Position(Point::new(20, 0))));
    let commands = render(800, 600, &positions, &sprites);
    assert_eq!(commands.len(), 1);
    assert_eq!(commands[0], draw_entity(Position(Point::new(10, 0)), frame(2, 1), 800, 600));
    assert_eq!(commands[0].dest_rect.x, 397);
}

#[test]
fn renderer_keeps_entity_order() {
    let mut positions: Store<Position> = Store::new();
    let mut sprites: Store<Sprite> = Store::new();
    for i in 0..3 {
        positions.attach(Some(Position(Point::new(i * 10, 0))));
        sprites.attach(Some(frame(i as usize, 0)));
    }
    let commands = render(100, 100, &positions, &sprites);
    let sheets: Vec<usize> = commands.iter().map(|c| c.texture_index).collect();
    assert_eq!(sheets, vec![0, 1, 2]);
}

#[test]
fn store_answers_beyond_its_end() {
    let mut store: Store<Position> = Store::new();
    assert_eq!(store.len(), 0);
    assert_eq!(store.attach(None), Entity(0));
    assert_eq!(store.attach(Some(Position(Point::new(1, 2)))), Entity(1));
    assert!(!store.has(Entity(0)));
    assert!(store.has(Entity(1)));
    assert!(!store.has(Entity(2)));
    assert_eq!(store.get(Entity(7)), None);
}
