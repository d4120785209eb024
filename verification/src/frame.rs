//! Pacing of redraws on the user-interface thread.
//!
//! Time is a count of nanoseconds since an instant that the caller fixes, so
//! that nothing here reads a clock.

use vstd::prelude::*;

verus! {

/// The length of one frame, in nanoseconds: a sixtieth of a second.
pub const FRAME_DURATION_NANOS: u64 = 16_666_667;

/// The shortest time between two renders, in nanoseconds.
pub const MIN_RENDER_INTERVAL_NANOS: u64 = 16_000_000;

/// The first deadline after `now` among those that lie a whole number of
/// frames behind `deadline`.
pub open spec fn deadline_after(now: int, deadline: int) -> int {
    deadline + ((now - deadline) / (FRAME_DURATION_NANOS as int) + 1) * FRAME_DURATION_NANOS
}

/// `deadline_after(now, deadline)` is the one value that lies a positive
/// whole number of frames behind `deadline`, is later than `now`, and is no
/// more than one frame later.
pub proof fn lemma_deadline_after_is_first(now: int, deadline: int, frames: int)
    requires
        deadline <= now,
        deadline + (frames - 1) * FRAME_DURATION_NANOS <= now < deadline + frames
            * FRAME_DURATION_NANOS,
    ensures
        deadline_after(now, deadline) == deadline + frames * FRAME_DURATION_NANOS,
        frames >= 1,
{
    let frame = FRAME_DURATION_NANOS as int;
    let gap = now - deadline;
    assert((frames - 1) * frame <= gap < frames * frame) by (nonlinear_arith)
        requires
            deadline + (frames - 1) * frame <= now < deadline + frames * frame,
            gap == now - deadline,
    ;
    assert(gap / frame == frames - 1) by (nonlinear_arith)
        requires
            (frames - 1) * frame <= gap < frames * frame,
            frame > 0,
    ;
}

/// Schedules redraws at a fixed cadence: holds the time at which the next
/// frame is due.
#[derive(Debug, Clone, Copy)]
pub struct FramePacer {
    next_frame_time: u64,
}

impl FramePacer {
    /// The time at which the next frame is due.
    pub closed spec fn view(&self) -> u64 {
        self.next_frame_time
    }

    /// A pacer whose first frame is due at `now`.
    pub fn new(now: u64) -> (pacer: Self)
        ensures
            pacer@ == now,
    {
        FramePacer { next_frame_time: now }
    }

    /// The time at which the next frame is due.
    pub fn next_frame_time(&self) -> (time: u64)
        ensures
            time == self@,
    {
        self.next_frame_time
    }

    /// Whether a pacer can be asked at `now`: the deadline after `now` must
    /// be a time.
    pub fn can_wait_at(now: u64) -> (can: bool)
        ensures
            can == (now + FRAME_DURATION_NANOS <= u64::MAX),
    {
        now <= u64::MAX - FRAME_DURATION_NANOS
    }

    /// Called before the loop waits, at time `now`. Where a frame is due, the
    /// due time moves on by whole frames to the first that is later than
    /// `now`, and the result asks for a redraw; where none is due, nothing
    /// changes.
    pub fn about_to_wait(&mut self, now: u64) -> (redraw: bool)
        requires
            now + FRAME_DURATION_NANOS <= u64::MAX,
        ensures
            redraw == (now >= old(self)@),
            final(self)@ == if redraw {
                deadline_after(now as int, old(self)@ as int)
            } else {
                old(self)@ as int
            },
    {
        let first = self.next_frame_time;
        if now < first {
            return false;
        }
        let mut next = first;
        let ghost mut frames: int = 0;
        while now >= next
            invariant
                now + FRAME_DURATION_NANOS <= u64::MAX,
                first <= now,
                frames >= 0,
                next == first + frames * FRAME_DURATION_NANOS,
                first + (frames - 1) * FRAME_DURATION_NANOS <= now,
            decreases now + FRAME_DURATION_NANOS - next,
        {
            proof {
                assert((frames + 1) * FRAME_DURATION_NANOS == frames * FRAME_DURATION_NANOS
                    + FRAME_DURATION_NANOS) by (nonlinear_arith);
                frames = frames + 1;
            }
            next += FRAME_DURATION_NANOS;
        }
        proof {
            lemma_deadline_after_is_first(now as int, first as int, frames);
        }
        self.next_frame_time = next;
        true
    }
}

/// What [`RenderClock::tick`] decides at `now` for a clock that last
/// rendered at `last`: a render is due unless the one before is less than
/// the minimum interval back.
pub open spec fn render_due(last: Option<u64>, now: u64) -> bool {
    match last {
        Some(last) => elapsed_between(last, now) >= MIN_RENDER_INTERVAL_NANOS,
        None => true,
    }
}

/// The time from `earlier` to `later`, and zero where `later` is not later.
pub open spec fn elapsed_between(earlier: u64, later: u64) -> u64 {
    if later >= earlier {
        (later - earlier) as u64
    } else {
        0
    }
}

/// Limits the rate of renders: remembers when the clock was first ticked and
/// when it last let a render through.
#[derive(Debug, Clone, Copy)]
pub struct RenderClock {
    start_time: Option<u64>,
    last_render_time: Option<u64>,
}

impl RenderClock {
    /// The time of the first tick, if there was one.
    pub closed spec fn start_time(&self) -> Option<u64> {
        self.start_time
    }

    /// The time of the last render that a tick let through, if there was one.
    pub closed spec fn last_render_time(&self) -> Option<u64> {
        self.last_render_time
    }

    /// A clock that was never ticked.
    pub fn new() -> (clock: Self)
        ensures
            clock.start_time() == None::<u64>,
            clock.last_render_time() == None::<u64>,
    {
        RenderClock { start_time: None, last_render_time: None }
    }

    /// One tick at time `now`. The first tick fixes the start time. A render
    /// is let through when the renderer is ready and the render before, if
    /// any, is at least the minimum interval back; the result is then the
    /// time since the start, and `now` becomes the time of the last render.
    /// Otherwise the result is `None` and the last render time stays.
    pub fn tick(&mut self, now: u64, renderer_ready: bool) -> (elapsed: Option<u64>)
        ensures
            final(self).start_time() == Some(
                match old(self).start_time() {
                    Some(start) => start,
                    None => now,
                },
            ),
            elapsed is Some <==> renderer_ready && render_due(old(self).last_render_time(), now),
            elapsed matches Some(since_start) ==> since_start == elapsed_between(
                final(self).start_time().unwrap(),
                now,
            ) && final(self).last_render_time() == Some(now),
            elapsed is None ==> final(self).last_render_time() == old(self).last_render_time(),
    {
        let start = match self.start_time {
            Some(start) => start,
            None => {
                self.start_time = Some(now);
                now
            },
        };
        if !renderer_ready {
            return None;
        }
        if let Some(last) = self.last_render_time {
            if now.saturating_sub(last) < MIN_RENDER_INTERVAL_NANOS {
                return None;
            }
        }
        self.last_render_time = Some(now);
        Some(now.saturating_sub(start))
    }
}

} // verus!
