//! Frame pacing: inter-frame delta time and the one deliberate sleep per
//! iteration that holds a capped frame rate.

use vstd::prelude::*;

verus! {

/// Microseconds in one second.
pub const MICROS_PER_SECOND: u32 = 1_000_000;

/// What one timer tick decided: the delta time to report to the client,
/// and how long the shell must block before the frame's work proceeds.
#[derive(Clone, Copy, Debug, PartialEq, Eq, Structural)]
pub struct FrameTiming {
    /// Reported inter-frame delta, in microseconds. With a frame budget
    /// configured this is never below the budget except on the very first
    /// frame, which reports zero.
    pub dtime: u64,
    /// How long to sleep to fill the rest of the frame budget; zero when
    /// the frame already ran at least the budget, or on the first frame.
    pub sleep_micros: u64,
}

/// Frame-pacing state: the optional per-frame budget and the timestamp the
/// next delta is measured from. The shell captures "now" and performs the
/// sleep; every decision is made here.
pub struct FPSTimer {
    micros_per_frame: u32,
    last_time: Option<u64>,
}

impl FPSTimer {
    /// The configured frame budget in microseconds; zero means uncapped.
    pub closed spec fn spec_micros_per_frame(&self) -> u32 {
        self.micros_per_frame
    }

    /// The baseline timestamp the next delta is measured from, if a frame
    /// has happened.
    pub closed spec fn spec_last_time(&self) -> Option<u64> {
        self.last_time
    }

    /// A fresh timer. A maximum frame rate turns into a per-frame budget
    /// of `1_000_000 / max_fps` microseconds; no maximum means no budget.
    /// No frame has happened yet.
    pub fn new(max_fps: Option<u32>) -> (t: FPSTimer)
        requires
            max_fps matches Some(f) ==> f >= 1,
        ensures
            t.spec_last_time() is None,
            match max_fps {
                Option::None => t.spec_micros_per_frame() == 0,
                Option::Some(f) => t.spec_micros_per_frame() == MICROS_PER_SECOND as int / f as int,
            },
    {
        match max_fps {
            None => FPSTimer { micros_per_frame: 0, last_time: None },
            Some(fps) => FPSTimer { micros_per_frame: MICROS_PER_SECOND / fps, last_time: None },
        }
    }

    /// One tick, at the shell-captured timestamp `now_micros`.
    ///
    /// The very first tick reports a delta of zero — there is no prior
    /// frame to measure from — sleeps nothing, and records the baseline.
    /// Every later tick measures the time since the baseline: a frame
    /// faster than the budget is padded with a sleep that is added into
    /// the reported delta, so a capped timer never reports less than its
    /// budget; a frame at or over the budget sleeps nothing and reports
    /// the measured time as it is. The baseline becomes the post-sleep
    /// "now" on every tick.
    pub fn frame(&mut self, now_micros: u64) -> (t: FrameTiming)
        requires
            old(self).spec_last_time() matches Some(l) ==> l <= now_micros,
            now_micros + old(self).spec_micros_per_frame() <= u64::MAX,
        ensures
            final(self).spec_micros_per_frame() == old(self).spec_micros_per_frame(),
            old(self).spec_last_time() is None ==> t.dtime == 0 && t.sleep_micros == 0
                && final(self).spec_last_time() == Option::Some(now_micros),
            old(self).spec_last_time() matches Some(l) ==> {
                let measured = now_micros - l;
                let budget = old(self).spec_micros_per_frame() as int;
                &&& measured < budget ==> t.sleep_micros == budget - measured && t.dtime == budget
                &&& measured >= budget ==> t.sleep_micros == 0 && t.dtime == measured
                &&& t.dtime >= budget
                &&& final(self).spec_last_time() == Option::Some(
                    (now_micros + t.sleep_micros) as u64,
                )
            },
    {
        match self.last_time {
            None => {
                self.last_time = Some(now_micros);
                FrameTiming { dtime: 0, sleep_micros: 0 }
            },
            Some(last) => {
                let measured: u64 = now_micros - last;
                let budget: u64 = self.micros_per_frame as u64;
                if measured < budget {
                    let sleep: u64 = budget - measured;
                    self.last_time = Some(now_micros + sleep);
                    FrameTiming { dtime: budget, sleep_micros: sleep }
                } else {
                    self.last_time = Some(now_micros);
                    FrameTiming { dtime: measured, sleep_micros: 0 }
                }
            },
        }
    }
}

} // verus!
