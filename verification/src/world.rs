//! The world: the stores of all component types, the creation of entities
//! and the fixed order in which the systems run in a frame.

use vstd::prelude::*;
use crate::animator::{all_playable, animate_all, show_all, Animator};
use crate::components::{
    Direction, KeyboardControlled, MovementAnimation, Player, Position, Sprite, Velocity,
};
use crate::input::{
    active, after_events, any_transition, effective, key_of, lemma_pressed, pressed, transition,
    InputHandler, KeyEvent,
};
use crate::keyboard::{
    command_all, command_of, movement_command, Keyboard, MovementCommand, PLAYER_MOVEMENT_SPEED,
};
use crate::physics::{step_all, Physics};
use crate::renderer::{draw_all, draw_command, draw_upto, render, DrawCommand};
use crate::storage::{Entity, Store};

verus! {

/// One store for each component type. Every store has one slot for each
/// entity.
#[derive(Debug)]
pub struct World {
    pub positions: Store<Position>,
    pub velocities: Store<Velocity>,
    pub sprites: Store<Sprite>,
    pub animations: Store<MovementAnimation>,
    pub keyboard_controlled: Store<KeyboardControlled>,
    pub players: Store<Player>,
}

/// The components that a new entity is built with.
#[derive(Debug)]
pub struct Components {
    pub position: Option<Position>,
    pub velocity: Option<Velocity>,
    pub sprite: Option<Sprite>,
    pub animation: Option<MovementAnimation>,
    pub keyboard_controlled: bool,
    pub player: bool,
}

/// Why an entity was not created.
#[derive(Debug, Clone, Copy, PartialEq, Eq, Structural)]
pub enum CreateError {
    /// The animation has no frame for this direction.
    EmptyFrames(Direction),
}

/// The first direction, in the order up, down, left, right, for which an
/// animation has no frame.
pub open spec fn first_empty(animation: Option<MovementAnimation>) -> Option<Direction> {
    match animation {
        None => None,
        Some(a) => if a.up_frames@.len() == 0 {
            Some(Direction::Up)
        } else if a.down_frames@.len() == 0 {
            Some(Direction::Down)
        } else if a.left_frames@.len() == 0 {
            Some(Direction::Left)
        } else if a.right_frames@.len() == 0 {
            Some(Direction::Right)
        } else {
            None
        },
    }
}

/// The tag in a slot: present or absent.
pub open spec fn tag<T>(present: bool, value: T) -> Option<T> {
    if present {
        Some(value)
    } else {
        None
    }
}

/// The movement command of a frame that starts with `held` and brings
/// `events`.
pub open spec fn frame_command(held: Seq<Direction>, events: Seq<KeyEvent>) -> Option<MovementCommand> {
    command_of(effective(after_events(held, events)), any_transition(events))
}

/// Looks for a direction without frames.
fn check_frames(animation: &Option<MovementAnimation>) -> (r: Option<Direction>)
    ensures
        r == first_empty(*animation),
{
    match animation {
        None => None,
        Some(a) => {
            if a.up_frames.len() == 0 {
                Some(Direction::Up)
            } else if a.down_frames.len() == 0 {
                Some(Direction::Down)
            } else if a.left_frames.len() == 0 {
                Some(Direction::Left)
            } else if a.right_frames.len() == 0 {
                Some(Direction::Right)
            } else {
                None
            }
        },
    }
}

impl World {
    /// The number of entities.
    pub open spec fn count(&self) -> nat {
        self.positions@.len()
    }

    /// Every store has one slot for each entity, and every animation has a
    /// frame for every direction.
    pub open spec fn wf(&self) -> bool {
        &&& self.velocities@.len() == self.count()
        &&& self.sprites@.len() == self.count()
        &&& self.animations@.len() == self.count()
        &&& self.keyboard_controlled@.len() == self.count()
        &&& self.players@.len() == self.count()
        &&& all_playable(self.animations@)
    }

    /// A world without entities.
    pub fn new() -> (world: World)
        ensures
            world.wf(),
            world.count() == 0,
    {
        World {
            positions: Store::new(),
            velocities: Store::new(),
            sprites: Store::new(),
            animations: Store::new(),
            keyboard_controlled: Store::new(),
            players: Store::new(),
        }
    }

    /// The number of entities.
    pub fn entity_count(&self) -> (n: usize)
        ensures
            n == self.count(),
    {
        self.positions.len()
    }

    /// Creates an entity with the given components and returns its handle.
    /// An animation that lacks the frames of a direction is refused, and the
    /// world stays as it was.
    pub fn create_entity(&mut self, parts: Components) -> (r: Result<Entity, CreateError>)
        requires
            old(self).wf(),
        ensures
            final(self).wf(),
            match r {
                Ok(entity) => {
                    &&& first_empty(parts.animation) is None
                    &&& entity.0 == old(self).count()
                    &&& final(self).positions@ == old(self).positions@.push(parts.position)
                    &&& final(self).velocities@ == old(self).velocities@.push(parts.velocity)
                    &&& final(self).sprites@ == old(self).sprites@.push(parts.sprite)
                    &&& final(self).animations@ == old(self).animations@.push(parts.animation)
                    &&& final(self).keyboard_controlled@ == old(self).keyboard_controlled@.push(
                        tag(parts.keyboard_controlled, KeyboardControlled),
                    )
                    &&& final(self).players@ == old(self).players@.push(tag(parts.player, Player))
                },
                Err(CreateError::EmptyFrames(direction)) => {
                    &&& first_empty(parts.animation) == Some(direction)
                    &&& *final(self) == *old(self)
                },
            },
    {
        match check_frames(&parts.animation) {
            Some(direction) => {
                return Err(CreateError::EmptyFrames(direction));
            },
            None => {},
        }
        proof {
            if parts.animation is Some {
                let a = parts.animation->0;
                assert forall|d: Direction| #[trigger] a.frames(d).len() > 0 by {}
            }
        }
        let entity: Entity = self.positions.attach(parts.position);
        self.velocities.attach(parts.velocity);
        self.sprites.attach(parts.sprite);
        self.animations.attach(parts.animation);
        self.keyboard_controlled.attach(
            if parts.keyboard_controlled {
                Some(KeyboardControlled)
            } else {
                None
            },
        );
        self.players.attach(
            if parts.player {
                Some(Player)
            } else {
                None
            },
        );
        Ok(entity)
    }

    /// Runs one frame: folds the key events into the resolver, then runs
    /// the keyboard, physics and animator systems in this order, and
    /// returns the draw commands of the frame.
    pub fn run_frame(
        &mut self,
        input: &mut InputHandler,
        events: &Vec<KeyEvent>,
        width: u32,
        height: u32,
    ) -> (commands: Vec<DrawCommand>)
        requires
            old(self).wf(),
            old(input).wf(),
        ensures
            final(self).wf(),
            final(input).wf(),
            final(input)@ == after_events(old(input)@, events@),
            final(self).velocities@ == command_all(
                frame_command(old(input)@, events@),
                old(self).keyboard_controlled@,
                old(self).velocities@,
            ),
            final(self).positions@ == step_all(old(self).positions@, final(self).velocities@),
            final(self).animations@ == animate_all(
                old(self).animations@,
                old(self).sprites@,
                final(self).velocities@,
            ),
            final(self).sprites@ == show_all(
                old(self).animations@,
                old(self).sprites@,
                final(self).velocities@,
            ),
            final(self).keyboard_controlled@ == old(self).keyboard_controlled@,
            final(self).players@ == old(self).players@,
            commands@ == draw_all(final(self).positions@, final(self).sprites@, width, height),
    {
        let keys_changed: bool = input.handle_events(events);
        let command: Option<MovementCommand> = movement_command(
            input.get_effective_direction(),
            keys_changed,
        );
        let mut keyboard = Keyboard;
        keyboard.run(command, &self.keyboard_controlled, &mut self.velocities);
        let mut physics = Physics;
        physics.run(&mut self.positions, &self.velocities);
        let mut animator = Animator;
        animator.run(&mut self.animations, &mut self.sprites, &self.velocities);
        render(width, height, &self.positions, &self.sprites)
    }
}

/// A frame from end to end: in a world of one entity that the keyboard
/// controls, with no key held before, the press of an arrow key sets the
/// entity moving in that direction at the speed of the player, moves it by
/// one step, advances its animation by one frame of that direction, shows
/// that frame as its sprite, and draws it once, at its new place.
pub proof fn lemma_frame_after_press(
    d: Direction,
    position: Position,
    velocity: Velocity,
    sprite: Sprite,
    animation: MovementAnimation,
    width: u32,
    height: u32,
)
    ensures
        ({
            let press = KeyEvent { key_code: key_of(d), pressed: true, is_repeat: false };
            let command = frame_command(Seq::empty(), seq![press]);
            let velocities = command_all(command, seq![Some(KeyboardControlled)], seq![Some(velocity)]);
            let positions = step_all(seq![Some(position)], velocities);
            let animations = animate_all(seq![Some(animation)], seq![Some(sprite)], velocities);
            let sprites = show_all(seq![Some(animation)], seq![Some(sprite)], velocities);
            let frame = animation.frames(d)[animation.next_frame(d)];
            let place = Position(
                position.0.shifted(
                    d.offset().0 * PLAYER_MOVEMENT_SPEED,
                    d.offset().1 * PLAYER_MOVEMENT_SPEED,
                ),
            );
            &&& command == Some(MovementCommand::Move(d))
            &&& velocities == seq![Some(Velocity { speed: PLAYER_MOVEMENT_SPEED, direction: d })]
            &&& positions == seq![Some(place)]
            &&& animations == seq![Some(animation.at_frame(animation.next_frame(d) as usize))]
            &&& sprites == seq![Some(frame)]
            &&& draw_all(positions, sprites, width, height) == seq![
                draw_command(place, frame, width, height),
            ]
        }),
{
    let press = KeyEvent { key_code: key_of(d), pressed: true, is_repeat: false };
    let events = seq![press];
    let held = after_events(Seq::empty(), events);
    assert(events.drop_last() =~= Seq::<KeyEvent>::empty());
    assert(events.last() == press);
    assert(transition(press) == Some((d, true)));
    assert(after_events(Seq::empty(), events.drop_last()) == Seq::<Direction>::empty());
    assert(held == pressed(Seq::empty(), d));
    lemma_pressed(Seq::empty(), d);
    assert(held =~= seq![d]);
    assert(active(held, d));
    let command = frame_command(Seq::empty(), events);
    assert(command == Some(MovementCommand::Move(d)));
    let velocities = command_all(command, seq![Some(KeyboardControlled)], seq![Some(velocity)]);
    let moving = Velocity { speed: PLAYER_MOVEMENT_SPEED, direction: d };
    assert(velocities =~= seq![Some(moving)]);
    let positions = step_all(seq![Some(position)], velocities);
    let place = Position(
        position.0.shifted(
            d.offset().0 * PLAYER_MOVEMENT_SPEED,
            d.offset().1 * PLAYER_MOVEMENT_SPEED,
        ),
    );
    assert(positions =~= seq![Some(place)]);
    let animations = animate_all(seq![Some(animation)], seq![Some(sprite)], velocities);
    assert(animations =~= seq![Some(animation.at_frame(animation.next_frame(d) as usize))]);
    let sprites = show_all(seq![Some(animation)], seq![Some(sprite)], velocities);
    let frame = animation.frames(d)[animation.next_frame(d)];
    assert(sprites =~= seq![Some(frame)]);
    assert(draw_upto(positions, sprites, width, height, 0) =~= Seq::<DrawCommand>::empty());
    assert(draw_upto(positions, sprites, width, height, 1) =~= seq![
        draw_command(place, frame, width, height),
    ]);
}

} // verus!
