//! A ball that bounces between the walls of a fixed window.

use vstd::prelude::*;

verus! {

/// Width of the window in pixels.
pub const WINDOW_WIDTH: u32 = 800;

/// Height of the window in pixels.
pub const WINDOW_HEIGHT: u32 = 600;

/// Width and height of the ball in pixels.
pub const BALL_SIZE: u32 = 20;

/// The speed of a new ball along each axis, in pixels per frame.
pub const BALL_SPEED: i32 = 5;

/// Largest x of the ball's corner at which the ball is still inside the
/// window.
pub const MAX_X: i32 = 780;

/// Largest y of the ball's corner at which the ball is still inside the
/// window.
pub const MAX_Y: i32 = 580;

/// The upper left corner of the ball and its velocity, in pixels per frame.
#[derive(Debug, Clone, Copy, PartialEq, Eq, Structural)]
pub struct Ball {
    pub x: i32,
    pub y: i32,
    pub vel_x: i32,
    pub vel_y: i32,
}

/// `v` brought into `0..=max`.
pub open spec fn clamp_to(v: int, max: int) -> int {
    if v < 0 {
        0
    } else if v > max {
        max
    } else {
        v
    }
}

/// The velocity along one axis after a move to `moved`: reversed when the
/// ball has reached or passed a wall at `0` or at `max`.
pub open spec fn bounced(moved: int, vel: int, max: int) -> int {
    if moved <= 0 || moved >= max {
        -vel
    } else {
        vel
    }
}

/// True when one axis can be advanced in `i32`: the move fits, and so does
/// the reversed velocity where the ball bounces.
pub open spec fn axis_fits(pos: int, vel: int, max: int) -> bool {
    &&& i32::MIN <= pos + vel <= i32::MAX
    &&& (pos + vel <= 0 || pos + vel >= max) ==> vel != i32::MIN
}

impl Ball {
    /// True when the ball lies inside the window.
    pub open spec fn in_window(self) -> bool {
        0 <= self.x <= MAX_X && 0 <= self.y <= MAX_Y
    }

    /// The ball one frame later.
    pub open spec fn stepped(self) -> Ball {
        Ball {
            x: clamp_to(self.x + self.vel_x, MAX_X as int) as i32,
            y: clamp_to(self.y + self.vel_y, MAX_Y as int) as i32,
            vel_x: bounced(self.x + self.vel_x, self.vel_x as int, MAX_X as int) as i32,
            vel_y: bounced(self.y + self.vel_y, self.vel_y as int, MAX_Y as int) as i32,
        }
    }

    /// A ball in the middle of the window that moves down and to the right.
    pub fn new() -> (ball: Ball)
        ensures
            ball == (Ball { x: 400, y: 300, vel_x: BALL_SPEED, vel_y: BALL_SPEED }),
            ball.in_window(),
    {
        Ball {
            x: (WINDOW_WIDTH / 2) as i32,
            y: (WINDOW_HEIGHT / 2) as i32,
            vel_x: BALL_SPEED,
            vel_y: BALL_SPEED,
        }
    }

    /// Moves the ball by its velocity, reverses the velocity along an axis on
    /// which it has reached a wall, and keeps the ball inside the window.
    pub fn update(&mut self)
        requires
            axis_fits(old(self).x as int, old(self).vel_x as int, MAX_X as int),
            axis_fits(old(self).y as int, old(self).vel_y as int, MAX_Y as int),
        ensures
            *final(self) == old(self).stepped(),
            final(self).in_window(),
    {
        self.x = self.x + self.vel_x;
        self.y = self.y + self.vel_y;

        if self.x <= 0 || self.x >= MAX_X {
            self.vel_x = -self.vel_x;
        }
        if self.y <= 0 || self.y >= MAX_Y {
            self.vel_y = -self.vel_y;
        }

        if self.x < 0 {
            self.x = 0;
        } else if self.x > MAX_X {
            self.x = MAX_X;
        }
        if self.y < 0 {
            self.y = 0;
        } else if self.y > MAX_Y {
            self.y = MAX_Y;
        }
    }
}

/// A ball inside the window whose speed along each axis is at most the
/// window's size can always be advanced, and it keeps its speed: a bounce
/// changes the sign of a velocity and nothing else.
pub proof fn lemma_bounce_keeps_speed(ball: Ball)
    requires
        ball.in_window(),
        -(MAX_X as int) <= ball.vel_x <= MAX_X,
        -(MAX_Y as int) <= ball.vel_y <= MAX_Y,
    ensures
        axis_fits(ball.x as int, ball.vel_x as int, MAX_X as int),
        axis_fits(ball.y as int, ball.vel_y as int, MAX_Y as int),
        ball.stepped().in_window(),
        ball.stepped().vel_x == ball.vel_x || ball.stepped().vel_x == -ball.vel_x,
        ball.stepped().vel_y == ball.vel_y || ball.stepped().vel_y == -ball.vel_y,
{
}

} // verus!
