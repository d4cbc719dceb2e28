//! Frame animations: a non-empty run of sprites played at a frame rate, with
//! the time spent so far.

use vstd::prelude::*;
use crate::sprite::Sprite;

verus! {

/// Why an animation could not be built.
#[derive(Clone, Copy, Debug, PartialEq, Eq, Structural)]
pub enum AnimationError {
    /// It was given no frame.
    InvalidAnimation,
}

/// Index of the frame shown after `elapsed_ms` milliseconds at `fps` frames
/// per second, over `n` frames that loop. A rate of zero or less freezes the
/// animation on its first frame.
pub open spec fn frame_index(elapsed_ms: int, fps: int, n: int) -> int {
    if fps <= 0 {
        0
    } else {
        (elapsed_ms * fps / 1000) % n
    }
}

/// A looping animation over a non-empty run of frames.
#[derive(Debug)]
pub struct AnimatedSprite {
    frames: Vec<Sprite>,
    fps: i32,
    elapsed_ms: u64,
}

impl AnimatedSprite {
    pub closed spec fn frames(self) -> Seq<Sprite> {
        self.frames@
    }

    pub closed spec fn rate(self) -> int {
        self.fps as int
    }

    /// Milliseconds played so far.
    pub closed spec fn elapsed(self) -> int {
        self.elapsed_ms as int
    }

    pub open spec fn wf(self) -> bool {
        self.frames().len() > 0
    }

    /// The index of the frame currently shown.
    pub open spec fn shown_index(self) -> int {
        frame_index(self.elapsed(), self.rate(), self.frames().len() as int)
    }

    /// An animation of `frames` at `fps` frames per second, at its start.
    /// Fails when `frames` is empty.
    pub fn with_fps(frames: Vec<Sprite>, fps: i32) -> (r: Result<AnimatedSprite, AnimationError>)
        ensures
            r is Err <==> frames@.len() == 0,
            r matches Err(e) ==> e == AnimationError::InvalidAnimation,
            r matches Ok(a) ==> a.wf() && a.frames() == frames@ && a.rate() == fps && a.elapsed()
                == 0,
    {
        if frames.len() == 0 {
            return Err(AnimationError::InvalidAnimation);
        }
        Ok(AnimatedSprite { frames, fps, elapsed_ms: 0 })
    }

    /// Replaces the frame rate; the time played so far is kept.
    pub fn set_fps(&mut self, fps: i32)
        ensures
            final(self).frames() == old(self).frames(),
            final(self).elapsed() == old(self).elapsed(),
            final(self).rate() == fps,
    {
        self.fps = fps;
    }

    /// Adds `dt_ms` milliseconds to the time played (saturating at the
    /// largest time that can be held).
    pub fn add_time(&mut self, dt_ms: u32)
        ensures
            final(self).frames() == old(self).frames(),
            final(self).rate() == old(self).rate(),
            final(self).elapsed() == if old(self).elapsed() + dt_ms <= u64::MAX {
                old(self).elapsed() + dt_ms
            } else {
                u64::MAX as int
            },
    {
        self.elapsed_ms = self.elapsed_ms.saturating_add(dt_ms as u64);
    }

    /// Number of frames.
    pub fn len(&self) -> (r: usize)
        ensures
            r == self.frames().len(),
    {
        self.frames.len()
    }

    /// Frames per second.
    pub fn fps(&self) -> (r: i32)
        ensures
            r == self.rate(),
    {
        self.fps
    }

    /// Index of the frame shown now.
    pub fn current_index(&self) -> (r: usize)
        requires
            self.wf(),
        ensures
            r == self.shown_index(),
            r < self.frames().len(),
    {
        if self.fps <= 0 {
            return 0;
        }
        let e: u128 = self.elapsed_ms as u128;
        let f: u128 = self.fps as u128;
        assert(e * f <= 0xffff_ffff_ffff_ffff * 0x7fff_ffff) by (nonlinear_arith)
            requires
                e <= 0xffff_ffff_ffff_ffff,
                f <= 0x7fff_ffff,
        ;
        let n: u128 = self.frames.len() as u128;
        ((e * f / 1000) % n) as usize
    }

    /// The frame shown now.
    pub fn current_frame(&self) -> (r: Sprite)
        requires
            self.wf(),
        ensures
            r == self.frames()[self.shown_index()],
    {
        let i = self.current_index();
        self.frames[i]
    }
}

} // verus!
