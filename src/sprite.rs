//! Sprites: a handle to a shared decoded image plus the region of it that the
//! sprite shows. Images live in an arena owned by the renderer; a sprite only
//! names one by its handle, so any number of sprites may share an image.

use vstd::prelude::*;
use crate::geometry::{contains_spec, Rectangle};

verus! {

/// A region of a shared image, addressed by the image's handle.
#[derive(Clone, Copy, Debug, PartialEq, Eq)]
pub struct Sprite {
    /// Handle of the image in the renderer's arena.
    pub image: usize,
    /// The region of the image that the sprite shows.
    pub src: Rectangle,
}

/// Largest coordinate of a surface.
pub const COORD_MAX: u32 = 0x7fff_ffff;

/// The rectangle at `(x, y)` with size `w` × `h`, measured from a sprite's
/// own top-left corner, lies within the sprite.
pub open spec fn region_fits(s: Sprite, x: int, y: int, w: int, h: int) -> bool {
    &&& 0 <= x
    &&& x + w <= s.source().w
    &&& 0 <= y
    &&& y + h <= s.source().h
}

/// The sprite showing the given part of `s`, on the same image.
pub open spec fn sub_sprite(s: Sprite, x: int, y: int, w: u32, h: u32) -> Sprite {
    Sprite::from_parts(
        s.handle(),
        Rectangle { x: (s.source().x + x) as i32, y: (s.source().y + y) as i32, w, h },
    )
}

/// Top-left corner of cell `i` of a grid that is `cols` cells wide, read
/// left to right, then top to bottom.
pub open spec fn cell_x(i: int, cols: int, cell_w: int) -> int {
    (i % cols) * cell_w
}

pub open spec fn cell_y(i: int, cols: int, cell_h: int) -> int {
    (i / cols) * cell_h
}

impl Sprite {
    /// The handle of the image that the sprite shows.
    pub open spec fn handle(self) -> usize {
        self.image
    }

    /// The region of the image that the sprite shows.
    pub open spec fn source(self) -> Rectangle {
        self.src
    }

    pub open spec fn from_parts(image: usize, src: Rectangle) -> Sprite {
        Sprite { image, src }
    }

    /// The region's far edges stay within the surface's coordinates.
    pub open spec fn wf(self) -> bool {
        &&& self.source().x + self.source().w <= COORD_MAX
        &&& self.source().y + self.source().h <= COORD_MAX
    }

    /// A sprite showing the whole of a `w` × `h` image.
    pub fn new(image: usize, w: u32, h: u32) -> (r: Sprite)
        requires
            w <= COORD_MAX,
            h <= COORD_MAX,
        ensures
            r.wf(),
            r.handle() == image,
            r.source() == (Rectangle { x: 0, y: 0, w, h }),
    {
        Sprite { image, src: Rectangle { x: 0, y: 0, w, h } }
    }

    /// The handle of the image that the sprite shows.
    pub fn image(&self) -> (r: usize)
        ensures
            r == self.handle(),
    {
        self.image
    }

    /// The region of the image that the sprite shows.
    pub fn src(&self) -> (r: Rectangle)
        ensures
            r == self.source(),
    {
        self.src
    }

    /// Width and height of the region.
    pub fn size(&self) -> (r: (u32, u32))
        ensures
            r == (self.source().w, self.source().h),
    {
        (self.src.w, self.src.h)
    }

    /// The part `rect` of this sprite, with `rect` measured from the sprite's
    /// own top-left corner, as a new sprite on the same image. `None` when
    /// `rect` does not lie within the sprite.
    pub fn region(&self, rect: Rectangle) -> (r: Option<Sprite>)
        requires
            self.wf(),
        ensures
            r is Some <==> contains_spec(
                Rectangle { x: 0, y: 0, w: self.source().w, h: self.source().h },
                rect,
            ),
            r matches Some(s) ==> s == sub_sprite(*self, rect.x as int, rect.y as int, rect.w, rect.h)
                && s.wf() && s.source().w == rect.w && s.source().h == rect.h,
    {
        if rect.x < 0 || rect.y < 0 || rect.x as i64 + rect.w as i64 > self.src.w as i64
            || rect.y as i64 + rect.h as i64 > self.src.h as i64 {
            return None;
        }
        Some(self.at(rect.x as u64, rect.y as u64, rect.w, rect.h))
    }

    fn at(&self, x: u64, y: u64, w: u32, h: u32) -> (r: Sprite)
        requires
            self.wf(),
            region_fits(*self, x as int, y as int, w as int, h as int),
        ensures
            r == sub_sprite(*self, x as int, y as int, w, h),
            r.wf(),
    {
        Sprite {
            image: self.image,
            src: Rectangle {
                x: (self.src.x as i64 + x as i64) as i32,
                y: (self.src.y as i64 + y as i64) as i32,
                w,
                h,
            },
        }
    }

    /// Cuts the first `count` cells of a grid of `cell_w` × `cell_h` cells,
    /// `cols` to a row, out of this sprite, in reading order. `None` when one
    /// of those cells would stick out of the sprite.
    pub fn grid(&self, cols: u32, cell_w: u32, cell_h: u32, count: u32) -> (r: Option<Vec<Sprite>>)
        requires
            self.wf(),
            cols > 0,
        ensures
            r is Some <==> forall|i: int|
                0 <= i < count ==> region_fits(
                    *self,
                    cell_x(i, cols as int, cell_w as int),
                    cell_y(i, cols as int, cell_h as int),
                    cell_w as int,
                    cell_h as int,
                ),
            r matches Some(v) ==> v@.len() == count && forall|i: int|
                0 <= i < count ==> v@[i] == sub_sprite(
                    *self,
                    cell_x(i, cols as int, cell_w as int),
                    cell_y(i, cols as int, cell_h as int),
                    cell_w,
                    cell_h,
                ) && (#[trigger] v@[i]).wf(),
    {
        let mut frames: Vec<Sprite> = Vec::new();
        let mut i: u32 = 0;
        while i < count
            invariant
                self.wf(),
                cols > 0,
                i <= count,
                frames@.len() == i,
                forall|j: int|
                    0 <= j < i ==> region_fits(
                        *self,
                        cell_x(j, cols as int, cell_w as int),
                        cell_y(j, cols as int, cell_h as int),
                        cell_w as int,
                        cell_h as int,
                    ),
                forall|j: int|
                    0 <= j < i ==> frames@[j] == sub_sprite(
                        *self,
                        cell_x(j, cols as int, cell_w as int),
                        cell_y(j, cols as int, cell_h as int),
                        cell_w,
                        cell_h,
                    ) && (#[trigger] frames@[j]).wf(),
            decreases count - i,
        {
            let col: u32 = i % cols;
            let row: u32 = i / cols;
            assert(col * cell_w <= 0xffff_ffff * 0xffff_ffff && row * cell_h <= 0xffff_ffff
                * 0xffff_ffff) by (nonlinear_arith)
                requires
                    col <= 0xffff_ffff,
                    cell_w <= 0xffff_ffff,
                    row <= 0xffff_ffff,
                    cell_h <= 0xffff_ffff,
            ;
            let x: u64 = col as u64 * cell_w as u64;
            let y: u64 = row as u64 * cell_h as u64;
            assert(x == cell_x(i as int, cols as int, cell_w as int));
            assert(y == cell_y(i as int, cols as int, cell_h as int));
            if x as u128 + cell_w as u128 > self.src.w as u128 || y as u128 + cell_h as u128
                > self.src.h as u128 {
                return None;
            }
            frames.push(self.at(x, y, cell_w, cell_h));
            i = i + 1;
        }
        Some(frames)
    }
}

} // verus!
