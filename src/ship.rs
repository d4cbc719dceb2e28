//! The player's ship: steered by the arrow keys inside a movable region,
//! drawn with one of nine frames chosen by its direction, and firing two
//! bullets at a time.

use vstd::prelude::*;
use crate::bullets::{fresh_bullet, spawn_bullets, RectBullet};
use crate::geometry::{fits_spec, moved_inside, travel, travel_spec, Rectangle};
use crate::sprite::{cell_x, cell_y, region_fits, sub_sprite, Sprite};

verus! {

/// Pixels travelled by the ship every second along one axis.
pub const PLAYER_SPEED: u32 = 180;

/// Pixels travelled every second along each axis when moving diagonally:
/// `PLAYER_SPEED` divided by the square root of two, rounded down.
pub const DIAGONAL_SPEED: u32 = 127;

pub const SHIP_W: u32 = 43;

pub const SHIP_H: u32 = 39;

/// Frames of the ship in its sheet.
pub const SHIP_FRAMES: u32 = 9;

/// The ship's frames: the row says whether it climbs, holds or dives, the
/// column whether it holds its speed, speeds up (right) or slows down (left).
#[derive(Clone, Copy, Debug, PartialEq, Eq, Structural)]
pub enum ShipFrame {
    UpNorm,
    UpFast,
    UpSlow,
    MidNorm,
    MidFast,
    MidSlow,
    DownNorm,
    DownFast,
    DownSlow,
}

/// Position of a frame in the sheet, left to right, then top to bottom.
pub open spec fn frame_slot_spec(f: ShipFrame) -> int {
    match f {
        ShipFrame::UpNorm => 0,
        ShipFrame::UpFast => 1,
        ShipFrame::UpSlow => 2,
        ShipFrame::MidNorm => 3,
        ShipFrame::MidFast => 4,
        ShipFrame::MidSlow => 5,
        ShipFrame::DownNorm => 6,
        ShipFrame::DownFast => 7,
        ShipFrame::DownSlow => 8,
    }
}

/// The frame for horizontal direction `sx` and vertical direction `sy`
/// (each -1, 0 or 1; y grows downwards): row from `sy`, column from `sx`.
pub open spec fn frame_for_spec(sx: i8, sy: i8) -> ShipFrame {
    let row = if sy < 0 {
        0int
    } else if sy == 0 {
        1
    } else {
        2
    };
    let col = if sx == 0 {
        0int
    } else if sx > 0 {
        1
    } else {
        2
    };
    slot_frame(row * 3 + col)
}

pub open spec fn slot_frame(i: int) -> ShipFrame {
    if i == 0 {
        ShipFrame::UpNorm
    } else if i == 1 {
        ShipFrame::UpFast
    } else if i == 2 {
        ShipFrame::UpSlow
    } else if i == 3 {
        ShipFrame::MidNorm
    } else if i == 4 {
        ShipFrame::MidFast
    } else if i == 5 {
        ShipFrame::MidSlow
    } else if i == 6 {
        ShipFrame::DownNorm
    } else if i == 7 {
        ShipFrame::DownFast
    } else {
        ShipFrame::DownSlow
    }
}

/// Direction along one axis from the keys towards lower and higher
/// coordinates: none or both pressed cancel out.
pub open spec fn axis_spec(neg: bool, pos: bool) -> i8 {
    if neg == pos {
        0i8
    } else if neg {
        -1i8
    } else {
        1i8
    }
}

/// Position of frame `f` in the sheet.
pub fn frame_slot(f: ShipFrame) -> (r: usize)
    ensures
        r == frame_slot_spec(f),
        r < SHIP_FRAMES,
{
    match f {
        ShipFrame::UpNorm => 0,
        ShipFrame::UpFast => 1,
        ShipFrame::UpSlow => 2,
        ShipFrame::MidNorm => 3,
        ShipFrame::MidFast => 4,
        ShipFrame::MidSlow => 5,
        ShipFrame::DownNorm => 6,
        ShipFrame::DownFast => 7,
        ShipFrame::DownSlow => 8,
    }
}

/// The frame for the directions `sx` and `sy`; a ship that does not move
/// shows `MidNorm`.
pub fn frame_for(sx: i8, sy: i8) -> (r: ShipFrame)
    ensures
        r == frame_for_spec(sx, sy),
        sx == 0 && sy == 0 ==> r == ShipFrame::MidNorm,
        frame_slot_spec(r) == 3 * (if sy < 0 {
            0int
        } else if sy == 0 {
            1
        } else {
            2
        }) + (if sx == 0 {
            0int
        } else if sx > 0 {
            1
        } else {
            2
        }),
{
    if sy < 0 {
        if sx == 0 {
            ShipFrame::UpNorm
        } else if sx > 0 {
            ShipFrame::UpFast
        } else {
            ShipFrame::UpSlow
        }
    } else if sy == 0 {
        if sx == 0 {
            ShipFrame::MidNorm
        } else if sx > 0 {
            ShipFrame::MidFast
        } else {
            ShipFrame::MidSlow
        }
    } else {
        if sx == 0 {
            ShipFrame::DownNorm
        } else if sx > 0 {
            ShipFrame::DownFast
        } else {
            ShipFrame::DownSlow
        }
    }
}

/// Direction along one axis from the keys towards lower (`neg`) and higher
/// (`pos`) coordinates.
pub fn axis(neg: bool, pos: bool) -> (r: i8)
    ensures
        r == axis_spec(neg, pos),
{
    if neg == pos {
        0
    } else if neg {
        -1
    } else {
        1
    }
}

/// The region the ship may move in on a `screen_w` × `screen_h` screen: the
/// whole height and the left seven tenths of the width, so that the ship
/// never reaches the right side, where asteroids appear.
pub fn movable_region(screen_w: u32, screen_h: u32) -> (r: Rectangle)
    ensures
        r == (Rectangle { x: 0, y: 0, w: (screen_w * 7 / 10) as u32, h: screen_h }),
{
    Rectangle { x: 0, y: 0, w: (screen_w as u64 * 7 / 10) as u32, h: screen_h }
}

/// `v` brought into the range of `i32`.
pub open spec fn saturate_spec(v: int) -> i32 {
    if v < i32::MIN {
        i32::MIN
    } else if v > i32::MAX {
        i32::MAX
    } else {
        v as i32
    }
}

fn saturate(v: i64) -> (r: i32)
    ensures
        r == saturate_spec(v as int),
{
    if v < i32::MIN as i64 {
        i32::MIN
    } else if v > i32::MAX as i64 {
        i32::MAX
    } else {
        v as i32
    }
}

/// The arrow keys held this frame.
#[derive(Clone, Copy, Debug, PartialEq, Eq, Structural)]
pub struct Steering {
    pub up: bool,
    pub down: bool,
    pub left: bool,
    pub right: bool,
}

/// The player's ship.
#[derive(Debug)]
pub struct Ship {
    bounds: Rectangle,
    sprites: Vec<Sprite>,
    current: ShipFrame,
    carry: u32,
}

/// Where a ship at `r` goes when it moves `px` whole pixels in the
/// directions `sx`, `sy`, before it is kept inside its region.
pub open spec fn shifted(r: Rectangle, sx: i8, sy: i8, px: int) -> Rectangle {
    Rectangle { x: saturate_spec(r.x + sx * px), y: saturate_spec(r.y + sy * px), ..r }
}

/// `after` is `before` moved for `dt_ms` milliseconds as `keys` say, kept
/// inside `region`, showing the frame of its movement: the frame of the
/// keys' direction, or the neutral frame when no time passed.
pub open spec fn steered(
    before: Ship,
    after: Ship,
    keys: Steering,
    dt_ms: u32,
    region: Rectangle,
) -> bool {
    let sx = axis_spec(keys.left, keys.right);
    let sy = axis_spec(keys.up, keys.down);
    let speed = if sx != 0 && sy != 0 {
        DIAGONAL_SPEED
    } else {
        PLAYER_SPEED
    };
    let (px, carry) = if sx == 0 && sy == 0 {
        (0int, 0int)
    } else {
        travel_spec(before.carry(), speed, dt_ms)
    };
    &&& after.bounds() == moved_inside(shifted(before.bounds(), sx, sy, px), region)
    &&& after.carry() == carry
    &&& after.frame() == if dt_ms == 0 {
        ShipFrame::MidNorm
    } else {
        frame_for_spec(sx, sy)
    }
    &&& after.sprites() == before.sprites()
}

/// `sheet` holds the nine frames of the ship, three to a row.
pub open spec fn ship_sheet_fits(sheet: Sprite) -> bool {
    forall|i: int|
        0 <= i < SHIP_FRAMES ==> region_fits(
            sheet,
            cell_x(i, 3, SHIP_W as int),
            cell_y(i, 3, SHIP_H as int),
            SHIP_W as int,
            SHIP_H as int,
        )
}

/// Frame `k` of the ship is cell `k` of `sheet`: the 43 × 39 cell at
/// column `k % 3`, row `k / 3`, on the sheet's image.
pub open spec fn frames_from_sheet(s: Ship, sheet: Sprite) -> bool {
    &&& s.sprites().len() == SHIP_FRAMES
    &&& forall|k: int|
        0 <= k < SHIP_FRAMES ==> #[trigger] s.sprites()[k] == sub_sprite(
            sheet,
            cell_x(k, 3, SHIP_W as int),
            cell_y(k, 3, SHIP_H as int),
            SHIP_W,
            SHIP_H,
        )
}

/// The ship at the start of a game.
pub open spec fn ship_at_start(s: Ship) -> bool {
    &&& s.wf()
    &&& s.bounds() == Rectangle { x: 64, y: 64, w: SHIP_W, h: SHIP_H }
    &&& s.frame() == ShipFrame::MidNorm
    &&& s.carry() == 0
}

impl Ship {
    pub closed spec fn bounds(self) -> Rectangle {
        self.bounds
    }

    pub closed spec fn sprites(self) -> Seq<Sprite> {
        self.sprites@
    }

    pub closed spec fn frame(self) -> ShipFrame {
        self.current
    }

    /// Thousandths of a pixel travelled beyond the box's position.
    pub closed spec fn carry(self) -> u32 {
        self.carry
    }

    pub open spec fn wf(self) -> bool {
        &&& self.sprites().len() == SHIP_FRAMES
        &&& self.bounds().w == SHIP_W
        &&& self.bounds().h == SHIP_H
    }

    /// Whether `sheet` is large enough to hold the ship's nine frames.
    pub fn sheet_fits(sheet: &Sprite) -> (r: bool)
        requires
            sheet.wf(),
        ensures
            r == ship_sheet_fits(*sheet),
    {
        sheet.grid(3, SHIP_W, SHIP_H, SHIP_FRAMES).is_some()
    }

    /// A ship at `(64, 64)`, holding still, drawn from the nine frames of
    /// `sheet` (three rows of three).
    pub fn new(sheet: &Sprite) -> (r: Ship)
        requires
            sheet.wf(),
            ship_sheet_fits(*sheet),
        ensures
            ship_at_start(r),
            frames_from_sheet(r, *sheet),
    {
        let sprites = sheet.grid(3, SHIP_W, SHIP_H, SHIP_FRAMES).unwrap();
        Ship {
            bounds: Rectangle { x: 64, y: 64, w: SHIP_W, h: SHIP_H },
            sprites,
            current: ShipFrame::MidNorm,
            carry: 0,
        }
    }

    /// Moves the ship for `dt_ms` milliseconds as the keys say, keeps it
    /// inside `region` and picks its frame. The ship must fit in `region`.
    pub fn steer(&mut self, keys: Steering, dt_ms: u32, region: Rectangle)
        requires
            fits_spec(old(self).bounds(), region),
        ensures
            steered(*old(self), *final(self), keys, dt_ms, region),
    {
        let sx = axis(keys.left, keys.right);
        let sy = axis(keys.up, keys.down);
        let speed: u32 = if sx != 0 && sy != 0 {
            DIAGONAL_SPEED
        } else {
            PLAYER_SPEED
        };
        let (px, carry) = if sx == 0 && sy == 0 {
            (0u64, 0u32)
        } else {
            travel(self.carry, speed, dt_ms)
        };
        let step: i64 = px as i64;
        let dx: i64 = if sx > 0 {
            step
        } else if sx < 0 {
            -step
        } else {
            0
        };
        let dy: i64 = if sy > 0 {
            step
        } else if sy < 0 {
            -step
        } else {
            0
        };
        let moved = Rectangle {
            x: saturate(self.bounds.x as i64 + dx),
            y: saturate(self.bounds.y as i64 + dy),
            ..self.bounds
        };
        self.bounds = moved.move_inside(region).unwrap();
        self.carry = carry;
        self.current = if dt_ms == 0 {
            ShipFrame::MidNorm
        } else {
            frame_for(sx, sy)
        };
    }

    /// Two bullets at the tips of the ship's cannons.
    pub fn spawn_bullets(&self) -> (r: Vec<RectBullet>)
        requires
            self.bounds().x <= i32::MAX - 30,
            self.bounds().y <= i32::MAX - SHIP_H,
        ensures
            r@ == seq![
                fresh_bullet((self.bounds().x + 30) as i32, (self.bounds().y + 6) as i32),
                fresh_bullet(
                    (self.bounds().x + 30) as i32,
                    (self.bounds().y + SHIP_H - 10) as i32,
                ),
            ],
    {
        spawn_bullets(self.bounds.x + 30, self.bounds.y + 6, self.bounds.y + SHIP_H as i32 - 10)
    }

    /// The ship's bounding box.
    pub fn rect(&self) -> (r: Rectangle)
        ensures
            r == self.bounds(),
    {
        self.bounds
    }

    /// The frame shown now.
    pub fn current(&self) -> (r: ShipFrame)
        ensures
            r == self.frame(),
    {
        self.current
    }

    /// The sprite of the frame shown now.
    pub fn sprite(&self) -> (r: Sprite)
        requires
            self.wf(),
        ensures
            r == self.sprites()[frame_slot_spec(self.frame())],
    {
        self.sprites[frame_slot(self.current)]
    }
}

} // verus!
