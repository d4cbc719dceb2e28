//! The asteroid: an animated obstacle that drifts left across the screen and,
//! once it has left on the left side, comes back on the right with a fresh
//! height, speed and spin drawn at random.

use vstd::prelude::*;
use crate::animation::{AnimatedSprite, AnimationError};
use crate::geometry::{travel, travel_spec, Rectangle};
use crate::sprite::{cell_x, cell_y, region_fits, sub_sprite, Sprite};

verus! {

/// Relies on rand::random: one value drawn from the thread-local generator.
/// Nothing is known of the value.
pub assume_specification<T>[ rand::random::<T> ]() -> (r: T)
    where
        rand::distributions::Standard: rand::distributions::Distribution<T>,
;

/// Asteroids per row of the sheet.
pub const ASTEROIDS_WIDE: u32 = 21;

/// Rows of the sheet.
pub const ASTEROIDS_HIGH: u32 = 7;

/// Cells in use: the last four cells of the sheet are empty.
pub const ASTEROIDS_TOTAL: u32 = ASTEROIDS_WIDE * ASTEROIDS_HIGH - 4;

/// Side of an asteroid, and of a cell of the sheet.
pub const ASTEROID_SIDE: u32 = 96;

/// Slowest speed, in pixels per second.
pub const MIN_SPEED: u32 = 50;

/// Number of speeds: speeds lie in `[MIN_SPEED, MIN_SPEED + SPEED_SPAN)`.
pub const SPEED_SPAN: u32 = 100;

/// Slowest animation rate, in frames per second.
pub const MIN_FPS: u32 = 10;

/// Number of rates: rates lie in `[MIN_FPS, MIN_FPS + FPS_SPAN)`.
pub const FPS_SPAN: u32 = 20;

/// The height at which an asteroid comes back for the draw `roll`: anywhere
/// its whole side fits on a screen `screen_h` high, or the top when none does.
pub open spec fn reset_y(screen_h: i32, roll: u32) -> int {
    if screen_h > ASTEROID_SIDE as int {
        roll as int % (screen_h - ASTEROID_SIDE as int)
    } else {
        0
    }
}

/// `after` is `before` once `dt_ms` milliseconds have passed: spun on by
/// `dt_ms` (the time played saturates), and drifted left or, once its right
/// edge crossed the left edge of the screen, back on the right.
pub open spec fn drifted(
    before: Asteroid,
    after: Asteroid,
    screen_w: i32,
    screen_h: i32,
    dt_ms: u32,
) -> bool {
    let (px, carry) = travel_spec(before.carry(), before.vel(), dt_ms);
    let x = before.bounds().x - px;
    &&& after.sprite().frames() == before.sprite().frames()
    &&& after.sprite().elapsed() == if before.sprite().elapsed() + dt_ms <= u64::MAX {
        before.sprite().elapsed() + dt_ms
    } else {
        u64::MAX as int
    }
    &&& if x <= -(ASTEROID_SIDE as int) {
        after.was_reset(screen_w, screen_h)
    } else {
        &&& after.bounds() == Rectangle { x: x as i32, ..before.bounds() }
        &&& after.vel() == before.vel()
        &&& after.carry() == carry
        &&& after.sprite().rate() == before.sprite().rate()
    }
}

/// `sheet` holds the frames of the asteroid's spin.
pub open spec fn asteroid_sheet_fits(sheet: Sprite) -> bool {
    forall|i: int|
        0 <= i < ASTEROIDS_TOTAL ==> region_fits(
            sheet,
            cell_x(i, ASTEROIDS_WIDE as int, ASTEROID_SIDE as int),
            cell_y(i, ASTEROIDS_WIDE as int, ASTEROID_SIDE as int),
            ASTEROID_SIDE as int,
            ASTEROID_SIDE as int,
        )
}

/// Frame `i` of `frames` is cell `i` of `sheet`: the square cell at column
/// `i % ASTEROIDS_WIDE`, row `i / ASTEROIDS_WIDE`, on the sheet's image.
pub open spec fn cut_from_sheet(frames: Seq<Sprite>, sheet: Sprite) -> bool {
    &&& frames.len() == ASTEROIDS_TOTAL
    &&& forall|i: int|
        0 <= i < ASTEROIDS_TOTAL ==> #[trigger] frames[i] == sub_sprite(
            sheet,
            cell_x(i, ASTEROIDS_WIDE as int, ASTEROID_SIDE as int),
            cell_y(i, ASTEROIDS_WIDE as int, ASTEROID_SIDE as int),
            ASTEROID_SIDE,
            ASTEROID_SIDE,
        )
}

/// A drifting, spinning asteroid.
#[derive(Debug)]
pub struct Asteroid {
    sprite: AnimatedSprite,
    bounds: Rectangle,
    vel: u32,
    carry: u32,
}

impl Asteroid {
    pub closed spec fn sprite(self) -> AnimatedSprite {
        self.sprite
    }

    pub closed spec fn bounds(self) -> Rectangle {
        self.bounds
    }

    /// Speed, in pixels per second to the left.
    pub closed spec fn vel(self) -> u32 {
        self.vel
    }

    /// Thousandths of a pixel travelled beyond the box's position.
    pub closed spec fn carry(self) -> u32 {
        self.carry
    }

    pub open spec fn wf(self) -> bool {
        self.sprite().wf()
    }

    /// The state right after coming back on the right edge of a
    /// `screen_w` × `screen_h` screen.
    pub open spec fn was_reset(self, screen_w: i32, screen_h: i32) -> bool {
        &&& self.bounds() == Rectangle {
            x: screen_w,
            y: self.bounds().y,
            w: ASTEROID_SIDE,
            h: ASTEROID_SIDE,
        }
        &&& 0 <= self.bounds().y
        &&& screen_h > ASTEROID_SIDE ==> self.bounds().y < screen_h - ASTEROID_SIDE
        &&& screen_h <= ASTEROID_SIDE ==> self.bounds().y == 0
        &&& MIN_SPEED <= self.vel() < MIN_SPEED + SPEED_SPAN
        &&& MIN_FPS <= self.sprite().rate() < MIN_FPS + FPS_SPAN
        &&& self.carry() == 0
    }

    /// Whether `sheet` is large enough to hold the frames of the spin.
    pub fn sheet_fits(sheet: &Sprite) -> (r: bool)
        requires
            sheet.wf(),
        ensures
            r == asteroid_sheet_fits(*sheet),
    {
        sheet.grid(ASTEROIDS_WIDE, ASTEROID_SIDE, ASTEROID_SIDE, ASTEROIDS_TOTAL).is_some()
    }

    /// The frames of the asteroid's spin, cut out of its sprite sheet.
    pub fn frames(sheet: &Sprite) -> (r: Vec<Sprite>)
        requires
            sheet.wf(),
            asteroid_sheet_fits(*sheet),
        ensures
            cut_from_sheet(r@, *sheet),
    {
        sheet.grid(ASTEROIDS_WIDE, ASTEROID_SIDE, ASTEROID_SIDE, ASTEROIDS_TOTAL).unwrap()
    }

    /// An asteroid spinning through `frames`, entering a `screen_w` ×
    /// `screen_h` screen on the right. Fails when `frames` is empty.
    pub fn new(frames: Vec<Sprite>, screen_w: i32, screen_h: i32) -> (r: Result<
        Asteroid,
        AnimationError,
    >)
        ensures
            r is Err <==> frames@.len() == 0,
            r matches Ok(a) ==> a.wf() && a.sprite().frames() == frames@ && a.sprite().elapsed()
                == 0 && a.was_reset(screen_w, screen_h),
    {
        let sprite = match AnimatedSprite::with_fps(frames, 1) {
            Ok(s) => s,
            Err(e) => {
                return Err(e);
            },
        };
        let mut a = Asteroid {
            sprite,
            bounds: Rectangle { x: 0, y: 0, w: 0, h: 0 },
            vel: 0,
            carry: 0,
        };
        a.reset(screen_w, screen_h);
        Ok(a)
    }

    /// Brings the asteroid back on the right edge, with its height, speed and
    /// animation rate taken from the draws `roll_y`, `roll_vel` and
    /// `roll_fps`.
    pub fn reset_with(
        &mut self,
        screen_w: i32,
        screen_h: i32,
        roll_y: u32,
        roll_vel: u32,
        roll_fps: u32,
    )
        ensures
            final(self).sprite().frames() == old(self).sprite().frames(),
            final(self).sprite().elapsed() == old(self).sprite().elapsed(),
            final(self).sprite().rate() == MIN_FPS + roll_fps % FPS_SPAN,
            final(self).bounds() == (Rectangle {
                x: screen_w,
                y: reset_y(screen_h, roll_y) as i32,
                w: ASTEROID_SIDE,
                h: ASTEROID_SIDE,
            }),
            final(self).vel() == MIN_SPEED + roll_vel % SPEED_SPAN,
            final(self).carry() == 0,
            final(self).was_reset(screen_w, screen_h),
    {
        self.sprite.set_fps((MIN_FPS + roll_fps % FPS_SPAN) as i32);
        let y: i32 = if screen_h > ASTEROID_SIDE as i32 {
            (roll_y % (screen_h - ASTEROID_SIDE as i32) as u32) as i32
        } else {
            0
        };
        self.bounds = Rectangle { x: screen_w, y, w: ASTEROID_SIDE, h: ASTEROID_SIDE };
        self.vel = MIN_SPEED + roll_vel % SPEED_SPAN;
        self.carry = 0;
    }

    /// Brings the asteroid back on the right edge with a height, speed and
    /// animation rate drawn at random.
    pub fn reset(&mut self, screen_w: i32, screen_h: i32)
        ensures
            final(self).sprite().frames() == old(self).sprite().frames(),
            final(self).sprite().elapsed() == old(self).sprite().elapsed(),
            final(self).was_reset(screen_w, screen_h),
    {
        let roll_y: u32 = rand::random::<u32>();
        let roll_vel: u32 = rand::random::<u32>();
        let roll_fps: u32 = rand::random::<u32>();
        self.reset_with(screen_w, screen_h, roll_y, roll_vel, roll_fps);
    }

    /// Lets `dt_ms` milliseconds pass: the asteroid drifts left and spins;
    /// once its right edge has crossed the left edge of the screen it comes
    /// back on the right.
    pub fn update(&mut self, screen_w: i32, screen_h: i32, dt_ms: u32)
        ensures
            drifted(*old(self), *final(self), screen_w, screen_h, dt_ms),
    {
        let (px, carry) = travel(self.carry, self.vel, dt_ms);
        let x: i128 = self.bounds.x as i128 - px as i128;
        self.sprite.add_time(dt_ms);
        if x <= -(ASTEROID_SIDE as i128) {
            self.reset(screen_w, screen_h);
        } else {
            self.bounds = Rectangle { x: x as i32, ..self.bounds };
            self.carry = carry;
        }
    }

    /// The asteroid's bounding box.
    pub fn rect(&self) -> (r: Rectangle)
        ensures
            r == self.bounds(),
    {
        self.bounds
    }

    /// Speed, in pixels per second to the left.
    pub fn velocity(&self) -> (r: u32)
        ensures
            r == self.vel(),
    {
        self.vel
    }

    /// The spin animation.
    pub fn animation(&self) -> (r: &AnimatedSprite)
        ensures
            *r == self.sprite(),
    {
        &self.sprite
    }

    /// The frame of the spin shown now.
    pub fn current_frame(&self) -> (r: Sprite)
        requires
            self.wf(),
        ensures
            r == self.sprite().frames()[self.sprite().shown_index()],
    {
        self.sprite.current_frame()
    }
}

} // verus!
