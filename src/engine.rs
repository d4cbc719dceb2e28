//! The decisions of the game loop: when a frame is due, and what becomes of
//! the action that the active view returns. The caller owns the platform: it
//! reads the clock, sleeps, polls input, renders and presents as told.

use vstd::prelude::*;

verus! {

/// Target time between two frames, in milliseconds (about 60 frames a second).
pub const FRAME_INTERVAL_MS: u64 = 1000 / 60;

/// What to do at a given instant.
#[derive(Clone, Copy, Debug, PartialEq, Eq, Structural)]
pub enum Pace {
    /// Too early: sleep this many milliseconds and ask again.
    Wait(u64),
    /// Run a frame covering this many milliseconds since the previous one.
    Run(u64),
}

/// The pacing decision at `now` when the last frame ran at `last`. A clock
/// that reads earlier than `last` waits a whole interval.
pub open spec fn pace_spec(last: u64, now: u64) -> Pace {
    if now < last {
        Pace::Wait(FRAME_INTERVAL_MS)
    } else if now - last < FRAME_INTERVAL_MS {
        Pace::Wait((FRAME_INTERVAL_MS - (now - last)) as u64)
    } else {
        Pace::Run((now - last) as u64)
    }
}

/// Time of the last frame run after the clock was read at each of `ticks`.
pub open spec fn last_after(last: u64, ticks: Seq<u64>) -> u64
    decreases ticks.len(),
{
    if ticks.len() == 0 {
        last
    } else {
        let l = last_after(last, ticks.drop_last());
        if pace_spec(l, ticks.last()) is Run {
            ticks.last()
        } else {
            l
        }
    }
}

/// The instants, among `ticks`, at which a frame was run.
pub open spec fn accepted(last: u64, ticks: Seq<u64>) -> Seq<u64>
    decreases ticks.len(),
{
    if ticks.len() == 0 {
        Seq::empty()
    } else {
        let prev = accepted(last, ticks.drop_last());
        if pace_spec(last_after(last, ticks.drop_last()), ticks.last()) is Run {
            prev.push(ticks.last())
        } else {
            prev
        }
    }
}

/// Frames run one after another are at least one interval apart, the first
/// one interval after the start; so no two frames run at the same instant.
pub proof fn lemma_frames_spaced(start: u64, ticks: Seq<u64>)
    ensures
        ({
            let a = accepted(start, ticks);
            &&& a.len() > 0 ==> a[0] >= start + FRAME_INTERVAL_MS
            &&& forall|i: int| 0 < i < a.len() ==> a[i - 1] + FRAME_INTERVAL_MS <= #[trigger] a[i]
            &&& last_after(start, ticks) == if a.len() == 0 { start } else { a.last() }
        }),
    decreases ticks.len(),
{
    if ticks.len() > 0 {
        lemma_frames_spaced(start, ticks.drop_last());
    }
}

/// Remembers when the last frame ran.
#[derive(Clone, Copy, Debug)]
pub struct FrameClock {
    last: u64,
}

impl FrameClock {
    pub closed spec fn last(self) -> u64 {
        self.last
    }

    /// A clock whose last frame ran at `start_ms`.
    pub fn new(start_ms: u64) -> (r: FrameClock)
        ensures
            r.last() == start_ms,
    {
        FrameClock { last: start_ms }
    }

    /// Decides, at `now_ms`, whether a frame runs; a frame that runs becomes
    /// the last one.
    pub fn tick(&mut self, now_ms: u64) -> (r: Pace)
        ensures
            r == pace_spec(old(self).last(), now_ms),
            final(self).last() == last_after(old(self).last(), seq![now_ms]),
            final(self).last() == if r is Run {
                now_ms
            } else {
                old(self).last()
            },
    {
        assert(seq![now_ms].drop_last() =~= Seq::<u64>::empty());
        assert(seq![now_ms].last() == now_ms);
        assert(last_after(self.last, Seq::<u64>::empty()) == self.last);
        if now_ms < self.last {
            Pace::Wait(FRAME_INTERVAL_MS)
        } else if now_ms - self.last < FRAME_INTERVAL_MS {
            Pace::Wait(FRAME_INTERVAL_MS - (now_ms - self.last))
        } else {
            let dt = now_ms - self.last;
            self.last = now_ms;
            Pace::Run(dt)
        }
    }
}

/// What a view asks of the loop at the end of its frame.
pub enum ViewAction<V> {
    /// Carry on: show the frame.
    Continue,
    /// Stop the loop.
    Quit,
    /// Make this view the active one, dropping the current one.
    ChangeView(V),
}

/// What the loop does with a finished frame.
#[derive(Clone, Copy, Debug, PartialEq, Eq, Structural)]
pub enum FrameEnd {
    /// Show the frame; the same view renders next.
    Present,
    /// Leave the loop without showing anything more.
    Stop,
    /// Show nothing this frame; the new view renders next.
    Swapped,
}

/// The loop's state: its clock and its one active view.
pub struct GameLoop<V> {
    /// The view that renders the next frame.
    pub view: V,
    /// When the last frame ran.
    pub clock: FrameClock,
    /// Whether the loop goes on.
    pub running: bool,
}

impl<V> GameLoop<V> {
    /// A running loop on `view`, whose clock starts at `start_ms`.
    pub fn new(view: V, start_ms: u64) -> (r: GameLoop<V>)
        ensures
            r.view == view,
            r.clock.last() == start_ms,
            r.running,
    {
        GameLoop { view, clock: FrameClock::new(start_ms), running: true }
    }

    /// The pacing decision at `now_ms`.
    pub fn tick(&mut self, now_ms: u64) -> (r: Pace)
        ensures
            r == pace_spec(old(self).clock.last(), now_ms),
            final(self).clock.last() == last_after(old(self).clock.last(), seq![now_ms]),
            final(self).view == old(self).view,
            final(self).running == old(self).running,
    {
        self.clock.tick(now_ms)
    }

    /// Applies the action that the active view returned for a frame.
    pub fn finish_frame(&mut self, action: ViewAction<V>) -> (r: FrameEnd)
        ensures
            final(self).clock == old(self).clock,
            match action {
                ViewAction::Continue => r == FrameEnd::Present && final(self).view == old(self).view
                    && final(self).running == old(self).running,
                ViewAction::Quit => r == FrameEnd::Stop && final(self).view == old(self).view
                    && !final(self).running,
                ViewAction::ChangeView(v) => r == FrameEnd::Swapped && final(self).view == v
                    && final(self).running == old(self).running,
            },
    {
        match action {
            ViewAction::Continue => FrameEnd::Present,
            ViewAction::Quit => {
                self.running = false;
                FrameEnd::Stop
            },
            ViewAction::ChangeView(v) => {
                self.view = v;
                FrameEnd::Swapped
            },
        }
    }
}

} // verus!
