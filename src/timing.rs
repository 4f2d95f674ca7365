use vstd::prelude::*;

verus! {

pub const NANOS_PER_SECOND: u64 = 1_000_000_000;
pub const NANOS_PER_MILLI: u64 = 1_000_000;
/// The frame-rate cap, in frames per second.
pub const DEFAULT_TARGET_FPS: u32 = 120;

/// The time from `start` to `now` in nanoseconds, zero when `now` is earlier.
pub open spec fn elapsed(now: u64, start: u64) -> nat {
    if now >= start {
        (now - start) as nat
    } else {
        0
    }
}

/// A frame is due once a `1 / target_fps` second has passed since the last one.
pub open spec fn frame_due(elapsed_ns: nat, target_fps: u32) -> bool {
    elapsed_ns * target_fps >= NANOS_PER_SECOND
}

/// One more frame counted, stopping at the largest count.
pub open spec fn counted(c: u32) -> u32 {
    if c < u32::MAX {
        (c + 1) as u32
    } else {
        c
    }
}

fn elapsed_ns(now: u64, start: u64) -> (r: u64)
    ensures
        r == elapsed(now, start),
{
    if now >= start {
        now - start
    } else {
        0
    }
}

fn is_frame_due(elapsed: u64, target_fps: u32) -> (r: bool)
    ensures
        r == frame_due(elapsed as nat, target_fps),
{
    let e = elapsed as u128;
    let f = target_fps as u128;
    assert(e * f <= 0xffff_ffff_ffff_ffffu128 * 0xffff_ffffu128) by (nonlinear_arith)
        requires
            e <= 0xffff_ffff_ffff_ffffu128,
            f <= 0xffff_ffffu128,
    ;
    e * f >= NANOS_PER_SECOND as u128
}

/// Paces frames to a target rate and counts frames per period.
#[derive(Clone, Copy, PartialEq, Eq, Structural, Debug)]
pub struct FrameManager {
    /// When the current counting period started, in nanoseconds.
    pub sec_start: u64,
    /// When the last frame was drawn, in nanoseconds.
    pub frame_start: u64,
    pub frame_count: u32,
    pub target_fps: u32,
}

impl FrameManager {
    /// Starts pacing at `now`, with the default frame-rate cap.
    pub fn new(now: u64) -> (r: FrameManager)
        ensures
            r == (FrameManager { sec_start: now, frame_start: now, frame_count: 0, target_fps: DEFAULT_TARGET_FPS }),
    {
        FrameManager { sec_start: now, frame_start: now, frame_count: 0, target_fps: DEFAULT_TARGET_FPS }
    }

    /// Tells whether a frame is due at `now`, and if so starts the next frame interval there.
    pub fn should_draw_frame(&mut self, now: u64) -> (r: bool)
        ensures
            r == frame_due(elapsed(now, old(self).frame_start), old(self).target_fps),
            r ==> *final(self) == (FrameManager { frame_start: now, ..*old(self) }),
            !r ==> *final(self) == *old(self),
    {
        let due = is_frame_due(elapsed_ns(now, self.frame_start), self.target_fps);
        if due {
            self.frame_start = now;
        }
        due
    }

    fn step(&mut self, now: u64, period_ns: u64) -> (r: Option<u32>)
        ensures
            elapsed(now, old(self).sec_start) >= period_ns ==> r == Some(old(self).frame_count)
                && *final(self) == (FrameManager { sec_start: now, frame_count: 1, ..*old(self) }),
            elapsed(now, old(self).sec_start) < period_ns ==> r is None
                && *final(self) == (FrameManager { frame_count: counted(old(self).frame_count), ..*old(self) }),
    {
        let mut report = None;
        if elapsed_ns(now, self.sec_start) >= period_ns {
            self.sec_start = now;
            report = Some(self.frame_count);
            self.frame_count = 0;
        }
        self.frame_count = self.frame_count.saturating_add(1);
        report
    }

    /// Counts a frame. When a whole second has passed since the period
    /// started, a new period starts at `now` and, if `print` is set, the
    /// frames of the period just ended are returned for display.
    pub fn update_step_on_sec(&mut self, now: u64, print: bool) -> (r: Option<u32>)
        ensures
            elapsed(now, old(self).sec_start) >= NANOS_PER_SECOND ==> r == (if print { Some(old(self).frame_count) } else { None })
                && *final(self) == (FrameManager { sec_start: now, frame_count: 1, ..*old(self) }),
            elapsed(now, old(self).sec_start) < NANOS_PER_SECOND ==> r is None
                && *final(self) == (FrameManager { frame_count: counted(old(self).frame_count), ..*old(self) }),
    {
        let report = self.step(now, NANOS_PER_SECOND);
        if print {
            report
        } else {
            None
        }
    }

    /// As `update_step_on_sec` over ten seconds; the figure returned is the
    /// average number of frames per second.
    pub fn update_step_on_decasec(&mut self, now: u64, print: bool) -> (r: Option<u32>)
        ensures
            elapsed(now, old(self).sec_start) >= 10 * NANOS_PER_SECOND ==> r == (if print { Some((old(self).frame_count / 10) as u32) } else { None })
                && *final(self) == (FrameManager { sec_start: now, frame_count: 1, ..*old(self) }),
            elapsed(now, old(self).sec_start) < 10 * NANOS_PER_SECOND ==> r is None
                && *final(self) == (FrameManager { frame_count: counted(old(self).frame_count), ..*old(self) }),
    {
        let report = self.step(now, 10 * NANOS_PER_SECOND);
        match report {
            Some(count) => if print {
                Some(count / 10)
            } else {
                None
            },
            None => None,
        }
    }
}

/// How often the frame rate is reported.
#[derive(Clone, Copy, PartialEq, Eq, Structural, Debug)]
pub enum PrintFPSPeriod {
    No,
    Second,
    FiveSecond,
    DecaSecond,
    /// Every given number of milliseconds.
    Other(u128),
}

/// The frames counted over a period of `timespan_ms` milliseconds.
#[derive(Clone, Copy, PartialEq, Eq, Structural, Debug)]
pub struct FpsReport {
    pub frame_count: u32,
    pub timespan_ms: u128,
}

/// What one tick of the time manager decided.
#[derive(Clone, Copy, PartialEq, Eq, Structural, Debug)]
pub struct TimeUpdate {
    pub draw: bool,
    pub report: Option<FpsReport>,
}

/// Measures the time between ticks and between drawn frames, paces frames
/// and counts them per reporting period.
#[derive(Clone, Copy, PartialEq, Eq, Structural, Debug)]
pub struct TimeManager {
    /// The time since the previous tick, in nanoseconds.
    pub delta_ns: u64,
    /// The time since the last drawn frame, in nanoseconds.
    pub frame_delta_ns: u64,
    pub last_t: u64,
    pub sec_start: u64,
    pub frame_start: u64,
    pub frame_count: u32,
    pub target_fps: u32,
    pub print_fps_period: PrintFPSPeriod,
}

/// The reporting period in milliseconds; no reporting still counts per second.
pub open spec fn period_ms(p: PrintFPSPeriod) -> u128 {
    match p {
        PrintFPSPeriod::No => 1000,
        PrintFPSPeriod::Second => 1000,
        PrintFPSPeriod::FiveSecond => 5000,
        PrintFPSPeriod::DecaSecond => 10000,
        PrintFPSPeriod::Other(ms) => ms,
    }
}

pub open spec fn saturating_sum(a: u64, b: nat) -> u64 {
    if a + b <= u64::MAX {
        (a + b) as u64
    } else {
        u64::MAX
    }
}

/// Counts one frame in the period that ends `timespan_ms` after `sec_start`,
/// closing the period first if it is over.
pub open spec fn step_spec(t: TimeManager, timespan_ms: u128, now: u64) -> (TimeManager, Option<FpsReport>) {
    if (elapsed(now, t.sec_start) / (NANOS_PER_MILLI as nat)) as int >= timespan_ms {
        (
            TimeManager { sec_start: now, frame_count: 1, ..t },
            Some(FpsReport { frame_count: t.frame_count, timespan_ms }),
        )
    } else {
        (TimeManager { frame_count: counted(t.frame_count), ..t }, None)
    }
}

/// One tick at `now`: the deltas are measured, and when a frame is due its
/// interval restarts and it is counted.
pub open spec fn tick_spec(t: TimeManager, now: u64) -> (TimeManager, TimeUpdate) {
    let measured = TimeManager {
        delta_ns: elapsed(now, t.last_t) as u64,
        frame_delta_ns: saturating_sum(t.frame_delta_ns, elapsed(now, t.last_t)),
        last_t: now,
        ..t
    };
    if frame_due(elapsed(now, t.frame_start), t.target_fps) {
        let paced = TimeManager { frame_start: now, ..measured };
        let (counted_t, report) = step_spec(paced, period_ms(t.print_fps_period), now);
        (counted_t, TimeUpdate { draw: true, report })
    } else {
        (measured, TimeUpdate { draw: false, report: None })
    }
}

impl TimeManager {
    /// Starts measuring at `now`, with the default frame-rate cap.
    pub fn new(print_fps_period: PrintFPSPeriod, now: u64) -> (r: TimeManager)
        ensures
            r == (TimeManager {
                delta_ns: 0,
                frame_delta_ns: 0,
                last_t: now,
                sec_start: now,
                frame_start: now,
                frame_count: 0,
                target_fps: DEFAULT_TARGET_FPS,
                print_fps_period,
            }),
    {
        TimeManager {
            delta_ns: 0,
            frame_delta_ns: 0,
            last_t: now,
            sec_start: now,
            frame_start: now,
            frame_count: 0,
            target_fps: DEFAULT_TARGET_FPS,
            print_fps_period,
        }
    }

    /// One tick of the loop at `now`: says whether to draw a frame, and
    /// returns a frame-rate report when a reporting period ended.
    pub fn update(&mut self, now: u64) -> (r: TimeUpdate)
        ensures
            (*final(self), r) == tick_spec(*old(self), now),
    {
        let delta = elapsed_ns(now, self.last_t);
        self.delta_ns = delta;
        self.frame_delta_ns = self.frame_delta_ns.saturating_add(delta);
        self.last_t = now;
        if self.should_draw_frame(now) {
            let timespan_ms: u128 = match self.print_fps_period {
                PrintFPSPeriod::No => 1000,
                PrintFPSPeriod::Second => 1000,
                PrintFPSPeriod::FiveSecond => 5000,
                PrintFPSPeriod::DecaSecond => 10000,
                PrintFPSPeriod::Other(ms) => ms,
            };
            let report = self.update_on_step(timespan_ms, now);
            TimeUpdate { draw: true, report }
        } else {
            TimeUpdate { draw: false, report: None }
        }
    }

    /// Counts a frame in a reporting period of `timespan_ms` milliseconds,
    /// returning the count of the period that just ended, if one did.
    pub fn update_on_step(&mut self, timespan_ms: u128, now: u64) -> (r: Option<FpsReport>)
        ensures
            (*final(self), r) == step_spec(*old(self), timespan_ms, now),
    {
        let elapsed_ms = elapsed_ns(now, self.sec_start) / NANOS_PER_MILLI;
        let mut report = None;
        if elapsed_ms as u128 >= timespan_ms {
            self.sec_start = now;
            report = Some(FpsReport { frame_count: self.frame_count, timespan_ms });
            self.frame_count = 0;
        }
        self.frame_count = self.frame_count.saturating_add(1);
        report
    }

    /// Tells whether a frame is due at `now`, and if so starts the next frame interval there.
    pub fn should_draw_frame(&mut self, now: u64) -> (r: bool)
        ensures
            r == frame_due(elapsed(now, old(self).frame_start), old(self).target_fps),
            r ==> *final(self) == (TimeManager { frame_start: now, ..*old(self) }),
            !r ==> *final(self) == *old(self),
    {
        let due = is_frame_due(elapsed_ns(now, self.frame_start), self.target_fps);
        if due {
            self.frame_start = now;
        }
        due
    }

    /// Returns the time since the last drawn frame and starts measuring anew.
    pub fn take_frame_delta(&mut self) -> (r: u64)
        ensures
            r == old(self).frame_delta_ns,
            *final(self) == (TimeManager { frame_delta_ns: 0, ..*old(self) }),
    {
        let d = self.frame_delta_ns;
        self.frame_delta_ns = 0;
        d
    }
}

} // verus!
