use sprite_ecs::components::Direction;
use sprite_ecs::geometry::{Point, Rect};
use sprite_ecs::input::{KEY_DOWN, KEY_LEFT, KEY_RIGHT, KEY_UP};
use sprite_ecs::renderer::DrawCommand;
use sprite_ecs::simple_game::{direction_spritesheet_row, render, Game, Player};

#[test]
fn rows_of_the_sprite_sheet() {
    assert_eq!(direction_spritesheet_row(Direction::Up), 3);
    assert_eq!(direction_spritesheet_row(Direction::Down), 0);
    assert_eq!(direction_spritesheet_row(Direction::Left), 1);
    assert_eq!(direction_spritesheet_row(Direction::Right), 2);
}

#[test]
fn new_player_stands_and_faces_right() {
    let player = Player::new(Point::new(3, 4));
    assert_eq!(
        player,
        Player {
            position: Point { x: 3, y: 4 },
            sprite: Rect { x: 0, y: 0, width: 26, height: 36 },
            speed: 0,
            direction: Direction::Right,
            current_frame: 0,
        }
    );
}

#[test]
fn player_follows_movement() {
    let mut player = Player::new(Point::new(0, 0));
    player.update();
    assert_eq!(player.position, Point { x: 0, y: 0 });
    player.set_movement(Some(Direction::Up));
    assert_eq!((player.speed, player.direction), (20, Direction::Up));
    player.update();
    assert_eq!(player.position, Point { x: 0, y: -20 });
    player.set_movement(None);
    assert_eq!((player.speed, player.direction), (0, Direction::Up));
    player.update();
    assert_eq!(player.position, Point { x: 0, y: -20 });
}

#[test]
fn game_moves_player_with_keys() {
    let mut game = Game::new();
    game.update();
    assert_eq!(game.player.position, Point { x: 0, y: 0 });
    game.handle_key_event(KEY_RIGHT, true);
    game.update();
    game.update();
    assert_eq!(game.player.position, Point { x: 40, y: 0 });
    game.handle_key_event(KEY_LEFT, true);
    game.update();
    assert_eq!(game.player.position, Point { x: 40, y: 0 });
    assert_eq!(game.player.speed, 0);
    game.handle_key_event(KEY_DOWN, true);
    game.update();
    assert_eq!(game.player.position, Point { x: 40, y: 20 });
    game.handle_key_event(KEY_DOWN, false);
    game.handle_key_event(KEY_RIGHT, false);
    game.update();
    assert_eq!(game.player.position, Point { x: 20, y: 20 });
    assert_eq!(game.player.direction, Direction::Left);
}

#[test]
fn game_ignores_other_keys() {
    let mut game = Game::new();
    game.handle_key_event(32, true);
    game.handle_key_event(KEY_UP, false);
    game.update();
    assert_eq!(game.player, Player::new(Point::new(0, 0)));
    assert_eq!(game.input_handler.get_effective_direction(), None);
}

#[test]
fn player_is_drawn_from_its_row_and_column() {
    let mut player = Player::new(Point::new(0, 0));
    assert_eq!(
        render(800, 600, &player),
        DrawCommand {
            texture_index: 0,
            source_rect: Rect { x: 0, y: 72, width: 26, height: 36 },
            dest_rect: Rect { x: 387, y: 282, width: 26, height: 36 },
        }
    );
    player.direction = Direction::Up;
    player.current_frame = 2;
    player.position = Point { x: 10, y: -10 };
    assert_eq!(
        render(800, 600, &player),
        DrawCommand {
            texture_index: 0,
            source_rect: Rect { x: 52, y: 108, width: 26, height: 36 },
            dest_rect: Rect { x: 397, y: 272, width: 26, height: 36 },
        }
    );
}
