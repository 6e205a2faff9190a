//! Pacing of one replay pass.
//!
//! The scheduler anchors a time base on the first eligible frame: the
//! offset `first_frame_timestamp_us - elapsed_us_at_that_moment` is fixed
//! for the rest of the pass, and every later frame's wait is the gap
//! between its scheduled moment (`timestamp_us - offset`) and the elapsed
//! time read when the frame is processed.  A positive wait is slept off
//! before sending; a negative one only reports drift, never drops a frame.
//! The unverified shell supplies the elapsed-microsecond readings, sleeps,
//! and sends; every decision is made here.

use vstd::prelude::*;

verus! {

/// Microseconds in one second, for turning a split capture timestamp into
/// a single microsecond count.
pub const MICROS_PER_SEC: i64 = 1_000_000;

/// Drift diagnostics are due every this many transmitted frames, counted
/// from zero.
pub const REPORT_INTERVAL: u64 = 1000;

/// Largest elapsed-time reading the scheduler accepts, in microseconds:
/// about 73 thousand years, far beyond any run, but small enough that all
/// offset and wait arithmetic stays within `i64`.
pub const MAX_ELAPSED_US: i64 = 0x2000_0000_0000_0000;

/// An upper bound on any capture timestamp in microseconds: both the
/// seconds and the microseconds component are 32-bit values.
pub const MAX_TIMESTAMP_US: i64 = 4_300_000_000_000_000;

/// A capture timestamp resolved into one microsecond count.
pub open spec fn spec_timestamp_us(ts_sec: u32, ts_usec: u32) -> int {
    ts_usec + ts_sec * MICROS_PER_SEC
}

/// The time-base offset in force after a frame is processed: an already
/// anchored offset is kept; an unset one is anchored on this very frame,
/// so that "frame zero" is scheduled at "now".
pub open spec fn spec_offset_after(prev: Option<int>, ts: int, elapsed: int) -> int {
    match prev {
        Some(o) => o,
        None => ts - elapsed,
    }
}

/// The signed wait before a frame may be sent: its scheduled moment
/// (`ts - offset`) minus the elapsed time already spent.  Positive means
/// ahead of schedule, negative behind.
pub open spec fn spec_wait(offset: int, ts: int, elapsed: int) -> int {
    ts - offset - elapsed
}

/// How long is actually slept for a signed wait: the wait itself when
/// ahead of schedule, nothing when behind or on time.
pub open spec fn spec_sleep(wait: int) -> int {
    if wait > 0 {
        wait
    } else {
        0
    }
}

/// The elapsed moment at which a frame processed at `elapsed` goes out:
/// after its sleep, if any.
pub open spec fn spec_send_moment(offset: int, ts: int, elapsed: int) -> int {
    elapsed + spec_sleep(spec_wait(offset, ts, elapsed))
}

/// The mathematical state of one pass: frames transmitted so far, and the
/// time-base offset if already anchored.
pub open spec fn spec_pass_start() -> (int, Option<int>) {
    (0, None)
}

/// One eligible frame's effect on the pass state: the offset is anchored
/// if it was not, and the transmit count grows by one — no frame is ever
/// dropped for being late.
pub open spec fn spec_step(m: (int, Option<int>), ts: int, elapsed: int) -> (int, Option<int>) {
    (m.0 + 1, Some(spec_offset_after(m.1, ts, elapsed)))
}

/// A whole pass over a sequence of eligible frames, each given as its
/// timestamp and the elapsed reading at which it was processed.
pub open spec fn spec_pass(m: (int, Option<int>), frames: Seq<(int, int)>) -> (int, Option<int>)
    decreases frames.len(),
{
    if frames.len() == 0 {
        m
    } else {
        spec_pass(spec_step(m, frames[0].0, frames[0].1), frames.skip(1))
    }
}

/// Which direction a drift diagnostic reports: ahead of schedule or
/// behind it.
#[derive(Clone, Copy, Debug, PartialEq, Eq, Structural)]
pub enum Drift {
    Early,
    Late,
}

/// What the shell must do for one eligible frame: sleep `sleep_us`
/// microseconds, print a drift line if one is due, then transmit.
pub struct FrameOutcome {
    /// Microseconds to sleep before transmitting; zero when on or behind
    /// schedule.
    pub sleep_us: u64,
    /// The signed wait: positive ahead of schedule, negative behind.
    pub wait_us: i64,
    /// A drift diagnostic due for this frame, if any: only on every
    /// `REPORT_INTERVAL`-th frame, and only when off schedule.
    pub report: Option<Drift>,
}

/// The per-pass scheduler state: how many frames went out, and the
/// anchored time-base offset, unset until the first eligible frame.
pub struct ReplayScheduler {
    packets_sent: u64,
    time_offset: Option<i64>,
}

/// A stored offset widened to the mathematical integers.
pub open spec fn opt_offset_int(o: Option<i64>) -> Option<int> {
    match o {
        Some(v) => Some(v as int),
        None => None,
    }
}

impl ReplayScheduler {
    /// Frames transmitted in the current pass.
    pub closed spec fn sent(&self) -> u64 {
        self.packets_sent
    }

    /// The anchored time-base offset, or `None` before the first eligible
    /// frame of the pass.
    pub closed spec fn offset(&self) -> Option<i64> {
        self.time_offset
    }

    /// The scheduler as a mathematical pass state.
    pub open spec fn model(&self) -> (int, Option<int>) {
        (self.sent() as int, opt_offset_int(self.offset()))
    }

    /// An anchored offset always lies between `-MAX_ELAPSED_US` (a frame
    /// timestamped zero, anchored late) and `MAX_TIMESTAMP_US` (the
    /// largest timestamp, anchored at once).
    pub open spec fn wf(&self) -> bool {
        match self.offset() {
            Some(o) => -MAX_ELAPSED_US <= o <= MAX_TIMESTAMP_US,
            None => true,
        }
    }

    /// A scheduler ready for its first pass: nothing sent, offset unset.
    pub fn new() -> (s: Self)
        ensures
            s.model() == spec_pass_start(),
            s.wf(),
    {
        ReplayScheduler { packets_sent: 0, time_offset: None }
    }

    /// Begin a (fresh or repeated) pass: the transmit count returns to
    /// zero and the time base is unset again, so the pass is paced exactly
    /// like a first one, whatever happened before.
    pub fn start_pass(&mut self)
        ensures
            final(self).model() == spec_pass_start(),
            final(self).wf(),
    {
        self.packets_sent = 0;
        self.time_offset = None;
    }

    /// How many frames have been transmitted in the current pass, for the
    /// per-pass summary.
    pub fn transmitted(&self) -> (n: u64)
        ensures
            n == self.sent(),
    {
        self.packets_sent
    }

    /// Resolve a capture timestamp into one microsecond count.
    pub fn timestamp_us(ts_sec: u32, ts_usec: u32) -> (ts: i64)
        ensures
            ts == spec_timestamp_us(ts_sec, ts_usec),
            0 <= ts <= MAX_TIMESTAMP_US,
    {
        (ts_usec as i64) + (ts_sec as i64) * MICROS_PER_SEC
    }

    /// Account for one eligible frame: anchor the time base if this is the
    /// first, compute the signed wait against the schedule, decide whether
    /// a drift diagnostic is due, and count the frame as transmitted.
    ///
    /// `elapsed_us` is the shell's monotonic reading, microseconds since
    /// the pass's reference instant, sampled once for this frame.
    pub fn process_frame(
        &mut self,
        ts_sec: u32,
        ts_usec: u32,
        elapsed_us: i64,
    ) -> (out: FrameOutcome)
        requires
            old(self).wf(),
            0 <= elapsed_us <= MAX_ELAPSED_US,
            old(self).sent() < u64::MAX,
        ensures
            final(self).wf(),
            final(self).model() == spec_step(
                old(self).model(),
                spec_timestamp_us(ts_sec, ts_usec),
                elapsed_us as int,
            ),
            ({
                let ts = spec_timestamp_us(ts_sec, ts_usec);
                let off = spec_offset_after(old(self).model().1, ts, elapsed_us as int);
                let w = spec_wait(off, ts, elapsed_us as int);
                &&& out.wait_us == w
                &&& out.sleep_us == spec_sleep(w)
                &&& out.report == (if old(self).sent() % REPORT_INTERVAL == 0 {
                    if w > 0 {
                        Some(Drift::Early)
                    } else if w < 0 {
                        Some(Drift::Late)
                    } else {
                        None
                    }
                } else {
                    None
                })
            }),
            old(self).offset() is None ==> out.wait_us == 0,
    {
        let ts: i64 = Self::timestamp_us(ts_sec, ts_usec);
        let off: i64 = match self.time_offset {
            Some(o) => o,
            None => {
                let anchored: i64 = ts - elapsed_us;
                self.time_offset = Some(anchored);
                anchored
            },
        };
        let wait_us: i64 = (ts - off) - elapsed_us;
        let report: Option<Drift> = if self.packets_sent % REPORT_INTERVAL == 0 {
            if wait_us > 0 {
                Some(Drift::Early)
            } else if wait_us < 0 {
                Some(Drift::Late)
            } else {
                None
            }
        } else {
            None
        };
        let sleep_us: u64 = if wait_us > 0 {
            wait_us as u64
        } else {
            0
        };
        self.packets_sent = self.packets_sent + 1;
        FrameOutcome { sleep_us, wait_us, report }
    }
}

/// Timing anchor invariant: the wait computed for the frame that anchors
/// the time base is exactly zero — the first eligible frame is always on
/// schedule by construction, never early and never late.
pub proof fn lemma_anchor_frame_on_schedule(ts: int, elapsed: int)
    ensures
        spec_wait(spec_offset_after(None, ts, elapsed), ts, elapsed) == 0,
{
}

/// Monotonic scheduling: for two eligible frames with capture timestamps
/// `t1 < t2`, processed in order under one anchored offset — so the second
/// frame's elapsed reading comes no earlier than the first frame's send
/// moment — the second frame is never sent before the first.
pub proof fn lemma_monotonic_schedule(offset: int, t1: int, t2: int, e1: int, e2: int)
    requires
        t1 < t2,
        e2 >= spec_send_moment(offset, t1, e1),
    ensures
        spec_send_moment(offset, t2, e2) >= spec_send_moment(offset, t1, e1),
{
}

/// Drift non-compensation: once the time base is anchored on a frame with
/// timestamp `ts`, every later frame captured back-to-back with it (the
/// same timestamp, zero inter-frame delta) has a wait of at most zero:
/// such frames are sent with no intentional pacing delay.  No frame is
/// ever dropped for being behind schedule: `spec_step` counts every frame.
pub proof fn lemma_zero_delta_no_pacing(ts: int, anchor_elapsed: int, elapsed: int)
    requires
        elapsed >= anchor_elapsed,
    ensures
        spec_wait(spec_offset_after(None, ts, anchor_elapsed), ts, elapsed) <= 0,
{
}

/// Every eligible frame of a pass is transmitted: after a pass over any
/// frame sequence the transmit count has grown by exactly the number of
/// frames, whatever the starting state.
pub proof fn lemma_pass_counts_all(m: (int, Option<int>), frames: Seq<(int, int)>)
    ensures
        spec_pass(m, frames).0 == m.0 + frames.len(),
    decreases frames.len(),
{
    if frames.len() > 0 {
        lemma_pass_counts_all(spec_step(m, frames[0].0, frames[0].1), frames.skip(1));
    }
}

/// Repeat idempotence: a pass run after `start_pass` behaves exactly like
/// a pass of a fresh scheduler, since `start_pass` leaves the state at
/// `spec_pass_start()` whatever the previous pass did (its contract does
/// not mention the old state at all — in particular the second pass's
/// offset is anchored independently of the first's).  Hence one pass
/// followed by a repeated pass transmits the same total as the two passes
/// run independently.
pub proof fn lemma_repeat_matches_independent_passes(
    first: Seq<(int, int)>,
    second: Seq<(int, int)>,
)
    ensures
        spec_pass(spec_pass_start(), first).0 + spec_pass(spec_pass_start(), second).0
            == first.len() + second.len(),
        spec_pass(spec_pass_start(), second).0 == second.len(),
{
    lemma_pass_counts_all(spec_pass_start(), first);
    lemma_pass_counts_all(spec_pass_start(), second);
}

} // verus!
