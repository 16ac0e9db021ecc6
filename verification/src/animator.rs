//! The animator system: while an entity moves, its animation advances by one
//! frame for each rendered frame, and the frame reached becomes its sprite.

use vstd::prelude::*;
use vstd::arithmetic::div_mod::{
    lemma_add_mod_noop, lemma_mod_bound, lemma_mod_self_0, lemma_small_mod,
};
use crate::components::{Direction, MovementAnimation, Sprite, Velocity};
use crate::storage::{component, Store};

verus! {

/// An animation one frame later: advanced by one frame of the list of the
/// direction of movement, or unchanged while the entity stands still.
pub open spec fn animated(animation: MovementAnimation, velocity: Velocity) -> MovementAnimation {
    if velocity.speed == 0 {
        animation
    } else {
        animation.at_frame(animation.next_frame(velocity.direction) as usize)
    }
}

/// The sprite of an entity one frame later: the frame that its animation has
/// reached, or the sprite it had while the entity stands still.
pub open spec fn shown(animation: MovementAnimation, sprite: Sprite, velocity: Velocity) -> Sprite {
    if velocity.speed == 0 {
        sprite
    } else {
        animation.frames(velocity.direction)[animation.next_frame(velocity.direction)]
    }
}

/// The animations after the animator ran: advanced for each entity that has
/// an animation, a sprite and a velocity; every other slot is unchanged.
pub open spec fn animate_all(
    animations: Seq<Option<MovementAnimation>>,
    sprites: Seq<Option<Sprite>>,
    velocities: Seq<Option<Velocity>>,
) -> Seq<Option<MovementAnimation>> {
    Seq::new(
        animations.len(),
        |i: int|
            match (animations[i], component(sprites, i), component(velocities, i)) {
                (Some(animation), Some(_), Some(velocity)) => Some(animated(animation, velocity)),
                _ => animations[i],
            },
    )
}

/// The sprites after the animator ran: replaced for each entity that has an
/// animation, a sprite and a velocity; every other slot is unchanged.
pub open spec fn show_all(
    animations: Seq<Option<MovementAnimation>>,
    sprites: Seq<Option<Sprite>>,
    velocities: Seq<Option<Velocity>>,
) -> Seq<Option<Sprite>> {
    Seq::new(
        sprites.len(),
        |i: int|
            match (component(animations, i), sprites[i], component(velocities, i)) {
                (Some(animation), Some(sprite), Some(velocity)) => Some(
                    shown(animation, sprite, velocity),
                ),
                _ => sprites[i],
            },
    )
}

/// True when every animation in the store has a frame for every direction.
pub open spec fn all_playable(animations: Seq<Option<MovementAnimation>>) -> bool {
    forall|i: int|
        0 <= i < animations.len() ==> match #[trigger] animations[i] {
            Some(animation) => animation.playable(),
            None => true,
        }
}

/// The system that advances animations.
#[derive(Debug, Clone, Copy)]
pub struct Animator;

impl Animator {
    /// Advances one entity's animation by one frame and writes the frame
    /// reached into its sprite. An entity with speed zero keeps both.
    pub fn animate(animation: &mut MovementAnimation, sprite: &mut Sprite, velocity: Velocity)
        requires
            old(animation).playable(),
        ensures
            *final(animation) == animated(*old(animation), velocity),
            *final(sprite) == shown(*old(animation), *old(sprite), velocity),
            final(animation).playable(),
    {
        if velocity.speed == 0 {
            return ;
        }
        let frames = match velocity.direction {
            Direction::Left => &animation.left_frames,
            Direction::Right => &animation.right_frames,
            Direction::Up => &animation.up_frames,
            Direction::Down => &animation.down_frames,
        };
        let len: usize = frames.len();
        assert(frames@ == animation.frames(velocity.direction));
        let next: usize = (animation.current_frame % len + 1) % len;
        proof {
            let c = animation.current_frame as int;
            let m = len as int;
            if m > 1 {
                lemma_small_mod(1, m as nat);
                lemma_add_mod_noop(c, 1, m);
            }
        }
        *sprite = frames[next];
        animation.current_frame = next;
        assert forall|d: Direction| #[trigger] animation.frames(d).len() > 0 by {
            assert(animation.frames(d) == old(animation).frames(d));
        }
    }

    /// Advances every entity that has an animation, a sprite and a velocity.
    pub fn run(
        &mut self,
        animations: &mut Store<MovementAnimation>,
        sprites: &mut Store<Sprite>,
        velocities: &Store<Velocity>,
    )
        requires
            all_playable(old(animations)@),
        ensures
            final(animations)@ == animate_all(old(animations)@, old(sprites)@, velocities@),
            final(sprites)@ == show_all(old(animations)@, old(sprites)@, velocities@),
            all_playable(final(animations)@),
    {
        let n: usize = animations.slots.len();
        let mut i: usize = 0;
        while i < n
            invariant
                i <= n,
                animations@.len() == n,
                old(animations)@.len() == n,
                sprites@.len() == old(sprites)@.len(),
                all_playable(animations@),
                forall|j: int|
                    0 <= j < i ==> animations@[j] == animate_all(
                        old(animations)@,
                        old(sprites)@,
                        velocities@,
                    )[j],
                forall|j: int| i <= j < n ==> animations@[j] == old(animations)@[j],
                forall|j: int|
                    0 <= j < i && j < sprites@.len() ==> sprites@[j] == show_all(
                        old(animations)@,
                        old(sprites)@,
                        velocities@,
                    )[j],
                forall|j: int| i <= j < sprites@.len() ==> sprites@[j] == old(sprites)@[j],
            decreases n - i,
        {
            if i < sprites.slots.len() && i < velocities.slots.len() {
                match velocities.slots[i] {
                    Some(velocity) => {
                        match (&mut animations.slots[i], &mut sprites.slots[i]) {
                            (Some(animation), Some(sprite)) => {
                                Animator::animate(animation, sprite, velocity);
                            },
                            _ => {},
                        }
                    },
                    None => {},
                }
            }
            i = i + 1;
        }
    }
}

/// An animation after `steps` frames with the same velocity.
pub open spec fn animated_times(animation: MovementAnimation, velocity: Velocity, steps: nat) -> MovementAnimation
    decreases steps,
{
    if steps == 0 {
        animation
    } else {
        animated(animated_times(animation, velocity, (steps - 1) as nat), velocity)
    }
}

/// A sprite after `steps` frames with the same velocity.
pub open spec fn shown_times(
    animation: MovementAnimation,
    sprite: Sprite,
    velocity: Velocity,
    steps: nat,
) -> Sprite
    decreases steps,
{
    if steps == 0 {
        sprite
    } else {
        shown(
            animated_times(animation, velocity, (steps - 1) as nat),
            shown_times(animation, sprite, velocity, (steps - 1) as nat),
            velocity,
        )
    }
}

/// Every frame list is short enough for its length to be a `usize`.
proof fn lemma_frames_fit(animation: MovementAnimation, direction: Direction)
    ensures
        animation.frames(direction).len() <= usize::MAX,
{
    assert(animation.up_frames.len() == animation.up_frames@.len());
    assert(animation.down_frames.len() == animation.down_frames@.len());
    assert(animation.left_frames.len() == animation.left_frames@.len());
    assert(animation.right_frames.len() == animation.right_frames@.len());
}

/// While an entity moves, the frame reached is a valid index into the list
/// of its direction, the sprite shown is the frame at that index, and the
/// frame lists stay as they were.
pub proof fn lemma_frame_in_bounds(animation: MovementAnimation, sprite: Sprite, velocity: Velocity)
    requires
        velocity.speed != 0,
        animation.frames(velocity.direction).len() > 0,
    ensures
        0 <= animated(animation, velocity).current_frame < animation.frames(velocity.direction).len(),
        shown(animation, sprite, velocity) == animation.frames(velocity.direction)[animated(
            animation,
            velocity,
        ).current_frame as int],
        forall|d: Direction| animated(animation, velocity).frames(d) == animation.frames(d),
{
    let len = animation.frames(velocity.direction).len() as int;
    lemma_frames_fit(animation, velocity.direction);
    lemma_mod_bound(animation.current_frame + 1, len);
}

/// Wraparound: from the last frame of a list the animation goes to the
/// first, and from any other frame to the next.
pub proof fn lemma_frame_wraps(animation: MovementAnimation, velocity: Velocity)
    requires
        velocity.speed != 0,
        animation.current_frame < animation.frames(velocity.direction).len(),
    ensures
        animation.current_frame + 1 == animation.frames(velocity.direction).len() ==> animated(
            animation,
            velocity,
        ).current_frame == 0,
        animation.current_frame + 1 < animation.frames(velocity.direction).len() ==> animated(
            animation,
            velocity,
        ).current_frame == animation.current_frame + 1,
{
    let len = animation.frames(velocity.direction).len() as int;
    lemma_frames_fit(animation, velocity.direction);
    if animation.current_frame + 1 == len {
        lemma_mod_self_0(len);
    } else {
        lemma_small_mod((animation.current_frame + 1) as nat, len as nat);
    }
}

/// An idle entity keeps its frame and its sprite, however many frames
/// pass.
pub proof fn lemma_idle_holds(
    animation: MovementAnimation,
    sprite: Sprite,
    velocity: Velocity,
    steps: nat,
)
    requires
        velocity.speed == 0,
    ensures
        animated_times(animation, velocity, steps) == animation,
        shown_times(animation, sprite, velocity, steps) == sprite,
    decreases steps,
{
    if steps > 0 {
        lemma_idle_holds(animation, sprite, velocity, (steps - 1) as nat);
    }
}

} // verus!
