//! Bullets: small rectangles that fly right at a fixed speed and are dropped
//! once they have left the screen.

use vstd::prelude::*;
use crate::geometry::{travel, travel_spec, Rectangle};

verus! {

/// Pixels travelled horizontally by a bullet every second.
pub const BULLET_SPEED: u32 = 240;

pub const BULLET_W: u32 = 8;

pub const BULLET_H: u32 = 4;

/// A rectangular bullet, with the fraction of a pixel it has travelled
/// beyond its position.
#[derive(Clone, Copy, Debug, PartialEq, Eq)]
pub struct RectBullet {
    /// The bullet's bounding box.
    pub bounds: Rectangle,
    /// Thousandths of a pixel travelled beyond the box's position.
    pub carry: u32,
}

/// A new bullet with its top-left corner at `(x, y)`.
pub open spec fn fresh_bullet(x: i32, y: i32) -> RectBullet {
    RectBullet::from_parts(Rectangle { x, y, w: BULLET_W, h: BULLET_H }, 0)
}

/// Exact horizontal position of the bullet, in thousandths of a pixel,
/// after `dt_ms` more milliseconds of flight.
pub open spec fn exact_x_after(b: RectBullet, dt_ms: u32) -> int {
    b.bounds().x * 1000 + b.carry() + BULLET_SPEED * dt_ms
}

/// The bullet after `dt_ms` more milliseconds of flight on a screen
/// `screen_w` pixels wide; `None` once its exact position is past the right
/// edge.
pub open spec fn bullet_after(b: RectBullet, screen_w: i32, dt_ms: u32) -> Option<RectBullet> {
    let (px, carry) = travel_spec(b.carry(), BULLET_SPEED, dt_ms);
    let x = b.bounds().x + px;
    if exact_x_after(b, dt_ms) > screen_w * 1000 {
        None
    } else {
        Some(RectBullet::from_parts(Rectangle { x: x as i32, ..b.bounds() }, carry as u32))
    }
}

/// The bullets that are still on screen after `dt_ms` milliseconds, moved,
/// in their order.
pub open spec fn bullets_after(bs: Seq<RectBullet>, screen_w: i32, dt_ms: u32) -> Seq<RectBullet>
    decreases bs.len(),
{
    if bs.len() == 0 {
        Seq::empty()
    } else {
        let prev = bullets_after(bs.drop_last(), screen_w, dt_ms);
        match bullet_after(bs.last(), screen_w, dt_ms) {
            Some(b) => prev.push(b),
            None => prev,
        }
    }
}

impl RectBullet {
    /// The bullet's bounding box.
    pub open spec fn bounds(self) -> Rectangle {
        self.bounds
    }

    /// Thousandths of a pixel travelled beyond the box's position.
    pub open spec fn carry(self) -> u32 {
        self.carry
    }

    pub open spec fn from_parts(bounds: Rectangle, carry: u32) -> RectBullet {
        RectBullet { bounds, carry }
    }

    /// A bullet with its top-left corner at `(x, y)`.
    pub fn new(x: i32, y: i32) -> (r: RectBullet)
        ensures
            r == fresh_bullet(x, y),
            r.bounds() == (Rectangle { x, y, w: BULLET_W, h: BULLET_H }),
    {
        RectBullet { bounds: Rectangle { x, y, w: BULLET_W, h: BULLET_H }, carry: 0 }
    }

    /// Moves the bullet by `dt_ms` milliseconds of flight. Returns `None`
    /// when the bullet has gone past the right edge of a screen `screen_w`
    /// pixels wide, and should be dropped.
    pub fn update(self, screen_w: i32, dt_ms: u32) -> (r: Option<RectBullet>)
        ensures
            r == bullet_after(self, screen_w, dt_ms),
            r is None <==> exact_x_after(self, dt_ms) > screen_w * 1000,
    {
        let (px, carry) = travel(self.carry, BULLET_SPEED, dt_ms);
        let x: i128 = self.bounds.x as i128 + px as i128;
        if x > screen_w as i128 || (x == screen_w as i128 && carry > 0) {
            None
        } else {
            Some(RectBullet { bounds: Rectangle { x: x as i32, ..self.bounds }, carry })
        }
    }

    /// The bullet's bounding box.
    pub fn rect(&self) -> (r: Rectangle)
        ensures
            r == self.bounds(),
    {
        self.bounds
    }
}

/// One bullet at the tip of each of two cannons: both at `cannons_x`, one at
/// `cannon1_y` and one at `cannon2_y`.
pub fn spawn_bullets(cannons_x: i32, cannon1_y: i32, cannon2_y: i32) -> (r: Vec<RectBullet>)
    ensures
        r@ == seq![fresh_bullet(cannons_x, cannon1_y), fresh_bullet(cannons_x, cannon2_y)],
{
    let mut v: Vec<RectBullet> = Vec::new();
    v.push(RectBullet::new(cannons_x, cannon1_y));
    v.push(RectBullet::new(cannons_x, cannon2_y));
    assert(v@ =~= seq![fresh_bullet(cannons_x, cannon1_y), fresh_bullet(cannons_x, cannon2_y)]);
    v
}

/// Moves every bullet by `dt_ms` milliseconds and keeps those still on a
/// screen `screen_w` pixels wide, in their order.
pub fn update_bullets(bullets: &Vec<RectBullet>, screen_w: i32, dt_ms: u32) -> (r: Vec<RectBullet>)
    ensures
        r@ == bullets_after(bullets@, screen_w, dt_ms),
{
    let mut kept: Vec<RectBullet> = Vec::new();
    let mut i: usize = 0;
    assert(bullets@.take(0) =~= Seq::<RectBullet>::empty());
    while i < bullets.len()
        invariant
            i <= bullets@.len(),
            kept@ == bullets_after(bullets@.take(i as int), screen_w, dt_ms),
        decreases bullets@.len() - i,
    {
        assert(bullets@.take(i as int + 1).drop_last() =~= bullets@.take(i as int));
        if let Some(b) = bullets[i].update(screen_w, dt_ms) {
            kept.push(b);
        }
        i = i + 1;
    }
    assert(bullets@.take(bullets@.len() as int) =~= bullets@);
    kept
}

} // verus!
