use vstd::prelude::*;

verus! {

/// A rational factor from timestamp units to seconds: one unit lasts
/// `numer / denom` seconds.
#[derive(Clone, Copy, Debug, PartialEq, Eq, Structural)]
pub struct TimeBase {
    pub numer: u32,
    pub denom: u32,
}

impl TimeBase {
    /// Both parts of a usable time base are non-zero.
    pub open spec fn wf(&self) -> bool {
        self.numer > 0 && self.denom > 0
    }

    /// Whole seconds elapsed at timestamp `ts`, exactly, before any wrap.
    pub open spec fn exact_seconds(&self, ts: u64) -> int {
        (ts as int * self.numer as int) / self.denom as int
    }

    /// Whole seconds at timestamp `ts` as a 64-bit count, which wraps on overflow.
    pub open spec fn seconds_at(&self, ts: u64) -> u64 {
        (self.exact_seconds(ts) % 0x1_0000_0000_0000_0000) as u64
    }

    /// Builds a time base; `None` where either part is zero.
    pub fn new(numer: u32, denom: u32) -> (r: Option<TimeBase>)
        ensures
            r == (if numer > 0 && denom > 0 {
                Some(TimeBase { numer, denom })
            } else {
                None
            }),
    {
        if numer > 0 && denom > 0 {
            Some(TimeBase { numer, denom })
        } else {
            None
        }
    }

    /// Whole seconds at timestamp `ts`.
    pub fn calc_seconds(&self, ts: u64) -> (r: u64)
        requires
            self.wf(),
        ensures
            r == self.seconds_at(ts),
    {
        symphonia_seconds(self.numer, self.denom, ts)
    }
}

/// Relies on symphonia's `TimeBase::calc_time`: its `seconds` field is the
/// integer part of `ts * numer / denom`, wrapping on overflow.
#[verifier::external_body]
fn symphonia_seconds(numer: u32, denom: u32, ts: u64) -> (r: u64)
    requires
        numer > 0,
        denom > 0,
    ensures
        r == (((ts as int * numer as int) / denom as int) % 0x1_0000_0000_0000_0000) as u64,
{
    symphonia::core::units::TimeBase::new(numer, denom).calc_time(ts).seconds
}

/// Position in whole seconds of a packet at `ts`; zero without a time base.
pub open spec fn position_of(timebase: Option<TimeBase>, ts: u64) -> u64 {
    match timebase {
        Some(tb) => tb.seconds_at(ts),
        None => 0,
    }
}

/// Whole seconds at `ts` under an optional time base; zero without one.
pub fn position(timebase: Option<TimeBase>, ts: u64) -> (r: u64)
    requires
        timebase matches Some(tb) ==> tb.wf(),
    ensures
        r == position_of(timebase, ts),
{
    match timebase {
        Some(tb) => tb.calc_seconds(ts),
        None => 0,
    }
}

/// Length of a stream in whole seconds: the time at its last frame
/// (`start_ts + n_frames`), or zero where the frame count or the time base is
/// unknown, or where that timestamp does not fit in 64 bits.
pub open spec fn duration_of(timebase: Option<TimeBase>, start_ts: u64, n_frames: Option<u64>) -> u64 {
    match (timebase, n_frames) {
        (Some(tb), Some(n)) => if start_ts as int + n as int <= u64::MAX as int {
            tb.seconds_at((start_ts + n) as u64)
        } else {
            0
        },
        _ => 0,
    }
}

/// See [`duration_of`].
pub fn duration(timebase: Option<TimeBase>, start_ts: u64, n_frames: Option<u64>) -> (r: u64)
    requires
        timebase matches Some(tb) ==> tb.wf(),
    ensures
        r == duration_of(timebase, start_ts, n_frames),
{
    match (timebase, n_frames) {
        (Some(tb), Some(n)) => match start_ts.checked_add(n) {
            Some(end) => tb.calc_seconds(end),
            None => 0,
        },
        _ => 0,
    }
}

/// Within a time base whose second counts do not wrap, a later timestamp
/// never gives an earlier position.
pub proof fn lemma_position_monotone(tb: TimeBase, t1: u64, t2: u64)
    requires
        tb.wf(),
        t1 <= t2,
        tb.exact_seconds(t2) <= u64::MAX as int,
    ensures
        tb.seconds_at(t1) <= tb.seconds_at(t2),
{
    let n = tb.numer as int;
    let d = tb.denom as int;
    assert(t1 as int * n <= t2 as int * n) by (nonlinear_arith)
        requires t1 <= t2, n > 0;
    assert((t1 as int * n) / d <= (t2 as int * n) / d) by (nonlinear_arith)
        requires t1 as int * n <= t2 as int * n, d > 0;
    assert(0 <= (t1 as int * n) / d) by (nonlinear_arith)
        requires t1 >= 0, n > 0, d > 0;
}

} // verus!
