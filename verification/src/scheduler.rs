use vstd::prelude::*;

verus! {

/// How many permitted redraws make one frame-time report.
pub const FRAMES_PER_REPORT: u32 = 100;

/// What the event loop should do after an idle tick: either request a redraw
/// now, or sleep until the moment the next redraw falls due.
#[derive(Clone, Copy, PartialEq, Eq, Structural, Debug)]
pub enum TickAction {
    RequestRedraw,
    WaitUntil { deadline_ns: u64 },
}

/// The frame-time observation emitted once every `FRAMES_PER_REPORT` redraws:
/// the wall-clock time the frames took in all, and the average per frame.
#[derive(Clone, Copy, PartialEq, Eq, Structural, Debug)]
pub struct FrameReport {
    pub total_ns: u64,
    pub avg_ns: u64,
}

/// The frame scheduler's rolling state. Time is carried as nanoseconds on a
/// monotonic clock; the caller reads the clock and hands each instant in.
pub struct FrameScheduler {
    /// Target interval between redraws, in nanoseconds.
    pub interval_ns: u64,
    /// The instant of the last permitted redraw request.
    pub last_update_ns: u64,
    /// The instant the previous redraw ran.
    pub last_frame_ns: u64,
    /// Redraws since the last report.
    pub frame_count: u32,
    /// Wall-clock time accumulated over those redraws.
    pub accum_ns: u64,
}

/// A redraw is due when a full target interval has passed since the last
/// permitted redraw.
pub open spec fn redraw_due(s: FrameScheduler, now_ns: u64) -> bool {
    now_ns >= s.last_update_ns + s.interval_ns
}

/// The scheduler state right after a redraw is granted at `now_ns`: the
/// reference instant resets, everything else is untouched.
pub open spec fn granted(s: FrameScheduler, now_ns: u64) -> FrameScheduler {
    FrameScheduler { last_update_ns: now_ns, ..s }
}

impl FrameScheduler {
    /// The scheduler's invariant: a positive target interval, and a report
    /// never overdue.
    pub open spec fn wf(self) -> bool {
        &&& self.interval_ns > 0
        &&& self.frame_count < FRAMES_PER_REPORT
    }

    /// Starts the scheduler at the instant the event loop starts, with both
    /// timers set to that instant and nothing accumulated.
    pub fn new(interval_ns: u64, start_ns: u64) -> (r: FrameScheduler)
        requires
            interval_ns > 0,
        ensures
            r.wf(),
            r.interval_ns == interval_ns,
            r.last_update_ns == start_ns,
            r.last_frame_ns == start_ns,
            r.frame_count == 0,
            r.accum_ns == 0,
    {
        FrameScheduler {
            interval_ns,
            last_update_ns: start_ns,
            last_frame_ns: start_ns,
            frame_count: 0,
            accum_ns: 0,
        }
    }

    /// One idle tick of the event loop at instant `now_ns`. If a full target
    /// interval has passed since the last permitted redraw, a redraw is
    /// requested and the reference instant resets to now; otherwise the loop
    /// is told to sleep until the interval elapses.
    pub fn tick(&mut self, now_ns: u64) -> (r: TickAction)
        requires
            old(self).wf(),
            now_ns >= old(self).last_update_ns,
            old(self).last_update_ns + old(self).interval_ns <= u64::MAX,
        ensures
            final(self).wf(),
            redraw_due(*old(self), now_ns) ==> {
                &&& r == TickAction::RequestRedraw
                &&& *final(self) == granted(*old(self), now_ns)
            },
            !redraw_due(*old(self), now_ns) ==> {
                &&& r == (TickAction::WaitUntil {
                    deadline_ns: (old(self).last_update_ns + old(self).interval_ns) as u64,
                })
                &&& *final(self) == *old(self)
            },
    {
        if now_ns - self.last_update_ns >= self.interval_ns {
            self.last_update_ns = now_ns;
            TickAction::RequestRedraw
        } else {
            TickAction::WaitUntil { deadline_ns: self.last_update_ns + self.interval_ns }
        }
    }

    /// One permitted redraw running at instant `now_ns`: the wall-clock time
    /// since the previous redraw is accumulated and the frame counted. On
    /// every `FRAMES_PER_REPORT`-th frame the accumulated time is reported as
    /// an average per frame, and counter and accumulator reset to zero.
    pub fn on_redraw(&mut self, now_ns: u64) -> (r: Option<FrameReport>)
        requires
            old(self).wf(),
            now_ns >= old(self).last_frame_ns,
            old(self).accum_ns + (now_ns - old(self).last_frame_ns) <= u64::MAX,
        ensures
            final(self).wf(),
            final(self).interval_ns == old(self).interval_ns,
            final(self).last_update_ns == old(self).last_update_ns,
            final(self).last_frame_ns == now_ns,
            ({
                let total = (old(self).accum_ns + (now_ns - old(self).last_frame_ns)) as u64;
                if old(self).frame_count + 1 == FRAMES_PER_REPORT {
                    &&& r == Some(FrameReport {
                        total_ns: total,
                        avg_ns: (total / (FRAMES_PER_REPORT as u64)) as u64,
                    })
                    &&& final(self).frame_count == 0
                    &&& final(self).accum_ns == 0
                } else {
                    &&& r == Option::<FrameReport>::None
                    &&& final(self).frame_count == old(self).frame_count + 1
                    &&& final(self).accum_ns == total
                }
            }),
    {
        let elapsed: u64 = now_ns - self.last_frame_ns;
        self.accum_ns = self.accum_ns + elapsed;
        self.last_frame_ns = now_ns;
        self.frame_count = self.frame_count + 1;
        if self.frame_count == FRAMES_PER_REPORT {
            let total: u64 = self.accum_ns;
            self.accum_ns = 0;
            self.frame_count = 0;
            Some(FrameReport { total_ns: total, avg_ns: total / (FRAMES_PER_REPORT as u64) })
        } else {
            None
        }
    }
}

/// Redraws are never granted more often than once per target interval: once a
/// redraw is granted at `t1`, every tick at an instant short of `t1` plus one
/// full interval declines to grant another.
pub proof fn lemma_redraw_spacing(s: FrameScheduler, t1: u64, t: u64)
    requires
        redraw_due(s, t1),
        t < t1 + s.interval_ns,
    ensures
        !redraw_due(granted(s, t1), t),
{
}

/// The instants at which redraws are granted when the scheduler, starting in
/// state `s`, is ticked at each instant of `ticks` in turn: exactly the
/// instants at which a redraw falls due, each resetting the reference instant
/// as `tick` does.
pub open spec fn grants_of(s: FrameScheduler, ticks: Seq<u64>) -> Seq<u64>
    decreases ticks.len(),
{
    if ticks.len() == 0 {
        seq![]
    } else {
        let t = ticks[0];
        if redraw_due(s, t) {
            seq![t] + grants_of(granted(s, t), ticks.drop_first())
        } else {
            grants_of(s, ticks.drop_first())
        }
    }
}

/// Every granted instant lies at least one full interval past the reference
/// instant the run started from.
pub proof fn lemma_grants_lower_bound(s: FrameScheduler, ticks: Seq<u64>, i: int)
    requires
        0 <= i < grants_of(s, ticks).len(),
    ensures
        grants_of(s, ticks)[i] >= s.last_update_ns + s.interval_ns,
    decreases ticks.len(),
{
    let t = ticks[0];
    if redraw_due(s, t) {
        if i > 0 {
            lemma_grants_lower_bound(granted(s, t), ticks.drop_first(), i - 1);
        }
    } else {
        lemma_grants_lower_bound(s, ticks.drop_first(), i);
    }
}

/// However the scheduler is ticked, redraws are never granted more often than
/// once per target interval: in any run, consecutive granted instants lie at
/// least one full interval apart.
pub proof fn lemma_grants_spaced(s: FrameScheduler, ticks: Seq<u64>, i: int)
    requires
        0 <= i,
        i + 1 < grants_of(s, ticks).len(),
    ensures
        grants_of(s, ticks)[i] + s.interval_ns <= grants_of(s, ticks)[i + 1],
    decreases ticks.len(),
{
    let t = ticks[0];
    if redraw_due(s, t) {
        if i == 0 {
            lemma_grants_lower_bound(granted(s, t), ticks.drop_first(), 0);
        } else {
            lemma_grants_spaced(granted(s, t), ticks.drop_first(), i - 1);
        }
    } else {
        lemma_grants_spaced(s, ticks.drop_first(), i);
    }
}

} // verus!
