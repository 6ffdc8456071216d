//! Smoothing of the remote's samples, and the two-point history from which
//! the control loop extrapolates.
//!
//! Samples and averages are grip fractions in Q15.16. Time is in
//! nanoseconds on the caller's monotonic clock.

use vstd::prelude::*;
use crate::arith::{clamp, sum, total, trunc_div};

verus! {

/// Samples in the smoothing window.
pub const SLOTS: usize = 10;

/// One reading from the remote.
#[derive(Clone, Copy, Debug, PartialEq, Eq, Structural)]
pub enum Sample {
    /// The remote has nothing fresh: the last reading stands.
    Repeat,
    /// A grip fraction.
    Value(i32),
}

/// A smoothed grip fraction and the time it was made.
#[derive(Clone, Copy, Debug, PartialEq, Eq, Structural)]
pub struct Estimate {
    pub value: i32,
    pub at: u64,
}

/// The value that a sample puts into the window: its own, or for a repeat
/// the newest value that the window holds.
pub open spec fn retained(w: Seq<i32>, sample: Sample) -> i32 {
    match sample {
        Sample::Value(v) => v,
        Sample::Repeat => w.last(),
    }
}

/// The window after a sample: the oldest value leaves, the retained value
/// joins as the newest.
pub open spec fn pushed(w: Seq<i32>, sample: Sample) -> Seq<i32> {
    w.drop_first().push(retained(w, sample))
}

/// The mean of the window's ten values, rounded toward zero.
pub open spec fn mean(w: Seq<i32>) -> int {
    trunc_div(total(w), SLOTS as int)
}

/// The smoothing window of one remote session: ten values, oldest first.
#[derive(Clone, Copy, Debug, PartialEq, Eq)]
pub struct Estimator {
    window: [i32; 10],
}

impl View for Estimator {
    type V = Seq<i32>;

    closed spec fn view(&self) -> Seq<i32> {
        self.window@
    }
}

impl Estimator {
    /// A window of ten zeros.
    pub fn new() -> (e: Estimator)
        ensures
            e@ == Seq::new(SLOTS as nat, |i: int| 0i32),
    {
        let e = Estimator { window: [0, 0, 0, 0, 0, 0, 0, 0, 0, 0] };
        assert(e@ =~= Seq::new(SLOTS as nat, |i: int| 0i32));
        e
    }

    /// The window holds ten values, whatever was pushed.
    pub proof fn lemma_len(&self)
        ensures
            self@.len() == SLOTS,
    {
    }

    /// The values held, oldest first.
    pub fn window(&self) -> (w: [i32; 10])
        ensures
            w@ == self@,
    {
        self.window
    }

    /// Takes one sample at time `now`, and gives the mean of the window
    /// that results, stamped `now`.
    pub fn push(&mut self, sample: Sample, now: u64) -> (e: Estimate)
        ensures
            final(self)@ == pushed(old(self)@, sample),
            e.value == mean(final(self)@),
            e.at == now,
    {
        let w = self.window;
        let v: i32 = match sample {
            Sample::Value(v) => v,
            Sample::Repeat => w[9],
        };
        self.window = [w[1], w[2], w[3], w[4], w[5], w[6], w[7], w[8], w[9], v];
        assert(self.window@ =~= pushed(w@, sample));
        let s = sum(self.window.as_slice());
        assert(self.window@.len() == SLOTS);
        Estimate { value: (s / (SLOTS as i128)) as i32, at: now }
    }
}

/// The two newest estimates.
#[derive(Clone, Copy, Debug, PartialEq, Eq, Structural)]
pub struct History {
    pub older: Estimate,
    pub newer: Estimate,
}

/// The grip fraction that the history predicts for the time `now`, on the
/// line through its two estimates:
/// `newer + (newer - older) * (now - newer.at) / (newer.at - older.at)`,
/// the quotient rounded toward zero and the result held within what a
/// fraction can be. There is no prediction while both estimates carry the
/// same time.
pub open spec fn predicted(h: History, now: u64) -> Option<i32> {
    if h.older.at == h.newer.at {
        None
    } else {
        Some(
            clamp(
                h.newer.value + trunc_div(
                    (h.newer.value - h.older.value) * (now - h.newer.at),
                    h.newer.at - h.older.at,
                ),
                i32::MIN as int,
                i32::MAX as int,
            ) as i32,
        )
    }
}

impl History {
    /// The history at the start, at time `now`: two estimates of zero at
    /// that time.
    pub fn new(now: u64) -> (h: History)
        ensures
            h == (History {
                older: Estimate { value: 0, at: now },
                newer: Estimate { value: 0, at: now },
            }),
    {
        History { older: Estimate { value: 0, at: now }, newer: Estimate { value: 0, at: now } }
    }

    /// Takes an estimate as the newest; the older of the two held leaves.
    pub fn record(&mut self, e: Estimate)
        ensures
            *final(self) == (History { older: old(self).newer, newer: e }),
    {
        self.older = self.newer;
        self.newer = e;
    }

    /// The grip fraction predicted for the time `now`.
    pub fn extrapolate(&self, now: u64) -> (r: Option<i32>)
        ensures
            r == predicted(*self, now),
    {
        if self.older.at == self.newer.at {
            return None;
        }
        let rise: i128 = self.newer.value as i128 - self.older.value as i128;
        let ahead: i128 = now as i128 - self.newer.at as i128;
        let span: i128 = self.newer.at as i128 - self.older.at as i128;
        assert(-0x1_0000_0000 * 0x1_0000_0000_0000_0000 <= rise * ahead <= 0x1_0000_0000
            * 0x1_0000_0000_0000_0000) by (nonlinear_arith)
            requires
                -0x1_0000_0000 <= rise <= 0x1_0000_0000,
                -0x1_0000_0000_0000_0000 <= ahead <= 0x1_0000_0000_0000_0000,
        ;
        proof {
            lemma_quotient_bound(
                rise * ahead,
                span as int,
                0x1_0000_0000int * 0x1_0000_0000_0000_0000int,
            );
        }
        let q: i128 = (rise * ahead) / span;
        let v: i128 = self.newer.value as i128 + q;
        if v < i32::MIN as i128 {
            Some(i32::MIN)
        } else if v > i32::MAX as i128 {
            Some(i32::MAX)
        } else {
            Some(v as i32)
        }
    }
}

/// A quotient rounded toward zero is no larger in absolute value than the
/// dividend.
proof fn lemma_quotient_bound(a: int, b: int, m: int)
    requires
        b != 0,
        -m <= a <= m,
    ensures
        -m <= trunc_div(a, b) <= m,
{
    if a >= 0 {
        assert(-a <= a / b <= a) by (nonlinear_arith)
            requires
                a >= 0,
                b != 0,
        ;
    } else {
        let n = -a;
        assert(-n <= n / b <= n) by (nonlinear_arith)
            requires
                n >= 0,
                b != 0,
        ;
    }
}

} // verus!
