//! Finding the jaw's two mechanical stops by stall detection.
//!
//! A run drives the jaw toward one stop at constant velocity and polls the
//! realized velocity. Once a hundred samples are held and their mean is
//! below the stall threshold, the jaw rests against the stop: the run reads
//! the position there, then does the same toward the other stop.
//!
//! The run is a state machine. The caller sends the frame that
//! [`Calibration::request`] names, and hands the reply to
//! [`Calibration::step`]. A run is given a number of polls that it may
//! spend; when they are spent before both stops are found, it times out.

use std::collections::VecDeque;
use vstd::prelude::*;
use crate::arith::total;
use crate::codec::{ControlFrame, Mode, RecvData, Status};

verus! {

/// Velocity samples in the stall window.
pub const WINDOW: usize = 100;

/// The polling velocity, 10 revolutions per second, in wire units of
/// 1/8388.608: 83886.08, to the nearest unit.
pub const POLL_VEL: i32 = 83_886;

/// One ampere in wire units of 1/327.68: 327.68, to the nearest unit.
pub const ONE_AMP: i16 = 328;

/// The stop that a run is looking for.
#[derive(Clone, Copy, Debug, PartialEq, Eq, Structural)]
pub enum Limit {
    Open,
    Close,
}

/// Where a run stands.
#[derive(Clone, Copy, Debug, PartialEq, Eq, Structural)]
pub enum Stage {
    /// Driving toward a stop and sampling the velocity.
    Polling(Limit),
    /// Stalled at a stop; the next reply gives its position.
    Reading(Limit),
    /// Both stops are known.
    Done,
    /// The polls were spent first.
    TimedOut,
}

/// A run did not find both stops within the polls it was given.
#[derive(Clone, Copy, Debug, PartialEq, Eq, Structural)]
pub struct CalibrationStallTimeout;

/// A run, as the contracts see it.
pub struct CalibrationState {
    pub stage: Stage,
    /// The velocity samples held, oldest first.
    pub window: Seq<i32>,
    /// Polls that may still be sent after the one in flight.
    pub left: nat,
    /// The open stop, once read.
    pub open: i64,
    /// The close stop, once read.
    pub close: i64,
}

/// Whether the samples show a stall: their mean is below 0.00001
/// revolutions per second in absolute value. In wire units that is
/// |sum| / (len * 8388.608) < 0.00001, the same as
/// |sum| * 100000000 < len * 8388608.
pub open spec fn stalled(w: Seq<i32>) -> bool {
    -8_388_608 * w.len() < total(w) * 100_000_000 < 8_388_608 * w.len()
}

/// The frame that polls toward a stop: velocity mode, enabled, 10
/// revolutions per second toward open and the same toward close, at most
/// one ampere.
pub open spec fn poll_frame(limit: Limit) -> ControlFrame {
    ControlFrame {
        pos: 0,
        pos_kp: 0,
        pos_kd: 0,
        vel: match limit {
            Limit::Open => POLL_VEL,
            Limit::Close => (-POLL_VEL) as i32,
        },
        cur: ONE_AMP,
        mode: Mode::Vel,
        status: Status::Enable,
    }
}

/// The frame that only reads telemetry: zeroed.
pub open spec fn read_frame() -> ControlFrame {
    ControlFrame {
        pos: 0,
        pos_kp: 0,
        pos_kd: 0,
        vel: 0,
        cur: 0,
        mode: Mode::Cur,
        status: Status::Disable,
    }
}

/// The frame to send in a state; none once the run has ended.
pub open spec fn request_of(s: CalibrationState) -> Option<ControlFrame> {
    match s.stage {
        Stage::Polling(limit) => Some(poll_frame(limit)),
        Stage::Reading(_) => Some(read_frame()),
        Stage::Done => None,
        Stage::TimedOut => None,
    }
}

/// The state in which one more poll toward `limit` is in flight, with
/// `window` held; timed out where no poll is left.
pub open spec fn poll(s: CalibrationState, limit: Limit, window: Seq<i32>) -> CalibrationState {
    if s.left == 0 {
        CalibrationState { stage: Stage::TimedOut, window: Seq::empty(), ..s }
    } else {
        CalibrationState { stage: Stage::Polling(limit), window, left: (s.left - 1) as nat, ..s }
    }
}

/// The state after the reply to the frame that `request_of` named.
///
/// While polling with fewer than a hundred samples, the reply's velocity
/// joins the window. With a hundred, the window is judged as it stands: if
/// it shows a stall, polling ends and the position is read next; the reply's
/// own velocity is not looked at. If not, the oldest sample leaves and the
/// reply's velocity joins. The reading reply gives the stop's position.
pub open spec fn next(s: CalibrationState, reply: RecvData) -> CalibrationState {
    match s.stage {
        Stage::Polling(limit) => {
            if s.window.len() < WINDOW {
                poll(s, limit, s.window.push(reply.vel))
            } else if stalled(s.window) {
                CalibrationState { stage: Stage::Reading(limit), window: Seq::empty(), ..s }
            } else {
                poll(s, limit, s.window.drop_first().push(reply.vel))
            }
        },
        Stage::Reading(Limit::Open) => poll(
            CalibrationState { open: reply.pos, ..s },
            Limit::Close,
            Seq::empty(),
        ),
        Stage::Reading(Limit::Close) => CalibrationState {
            stage: Stage::Done,
            close: reply.pos,
            ..s
        },
        Stage::Done => s,
        Stage::TimedOut => s,
    }
}

/// The state at the start of a run that may spend `max_polls` polls.
pub open spec fn start(max_polls: u32) -> CalibrationState {
    if max_polls == 0 {
        CalibrationState {
            stage: Stage::TimedOut,
            window: Seq::empty(),
            left: 0,
            open: 0,
            close: 0,
        }
    } else {
        CalibrationState {
            stage: Stage::Polling(Limit::Open),
            window: Seq::empty(),
            left: (max_polls - 1) as nat,
            open: 0,
            close: 0,
        }
    }
}

/// A calibration run.
pub struct Calibration {
    stage: Stage,
    window: VecDeque<i32>,
    left: u32,
    open: i64,
    close: i64,
}

impl View for Calibration {
    type V = CalibrationState;

    closed spec fn view(&self) -> CalibrationState {
        CalibrationState {
            stage: self.stage,
            window: self.window@,
            left: self.left as nat,
            open: self.open,
            close: self.close,
        }
    }
}

impl Calibration {
    /// Starts a run that may spend `max_polls` polls on both stops together.
    /// A run needs at least 101 polls for each stop.
    pub fn new(max_polls: u32) -> (run: Calibration)
        ensures
            run@ == start(max_polls),
    {
        if max_polls == 0 {
            Calibration { stage: Stage::TimedOut, window: VecDeque::new(), left: 0, open: 0, close: 0 }
        } else {
            Calibration {
                stage: Stage::Polling(Limit::Open),
                window: VecDeque::new(),
                left: max_polls - 1,
                open: 0,
                close: 0,
            }
        }
    }

    /// Where the run stands.
    pub fn stage(&self) -> (stage: Stage)
        ensures
            stage == self@.stage,
    {
        self.stage
    }

    /// The two stops, open first, once the run is done.
    pub fn bounds(&self) -> (r: Option<(i64, i64)>)
        ensures
            r == (if self@.stage == Stage::Done {
                Some((self@.open, self@.close))
            } else {
                None
            }),
    {
        match self.stage {
            Stage::Done => Some((self.open, self.close)),
            _ => None,
        }
    }

    /// The frame to send now; none once the run has ended.
    pub fn request(&self) -> (frame: Option<ControlFrame>)
        ensures
            frame == request_of(self@),
    {
        match self.stage {
            Stage::Polling(Limit::Open) => Some(
                ControlFrame {
                    pos: 0,
                    pos_kp: 0,
                    pos_kd: 0,
                    vel: POLL_VEL,
                    cur: ONE_AMP,
                    mode: Mode::Vel,
                    status: Status::Enable,
                },
            ),
            Stage::Polling(Limit::Close) => Some(
                ControlFrame {
                    pos: 0,
                    pos_kp: 0,
                    pos_kd: 0,
                    vel: -POLL_VEL,
                    cur: ONE_AMP,
                    mode: Mode::Vel,
                    status: Status::Enable,
                },
            ),
            Stage::Reading(_) => Some(ControlFrame::default()),
            Stage::Done => None,
            Stage::TimedOut => None,
        }
    }

    /// Whether the samples held show a stall.
    fn is_stalled(&self) -> (r: bool)
        ensures
            r == stalled(self@.window),
    {
        let n = self.window.len();
        let mut sum: i128 = 0;
        let mut i: usize = 0;
        while i < n
            invariant
                n == self.window@.len(),
                i <= n,
                sum == total(self.window@.take(i as int)),
                -0x8000_0000 * i <= sum <= 0x8000_0000 * i,
            decreases n - i,
        {
            proof {
                let w = self.window@.take(i + 1);
                assert(w.drop_last() =~= self.window@.take(i as int));
                assert(w.last() == self.window@[i as int]);
            }
            sum = sum + self.window[i] as i128;
            i = i + 1;
        }
        proof {
            assert(self.window@.take(n as int) =~= self.window@);
        }
        let bound: i128 = 8_388_608 * (n as i128);
        -bound < sum * 100_000_000 && sum * 100_000_000 < bound
    }

    /// Moves on to one more poll, or times out.
    fn poll(&mut self, limit: Limit)
        ensures
            final(self)@ == poll(old(self)@, limit, old(self)@.window),
    {
        if self.left == 0 {
            self.stage = Stage::TimedOut;
            self.window.clear();
        } else {
            self.stage = Stage::Polling(limit);
            self.left = self.left - 1;
        }
    }

    /// Takes the reply to the frame that `request` named.
    pub fn step(&mut self, reply: &RecvData)
        ensures
            final(self)@ == next(old(self)@, *reply),
    {
        match self.stage {
            Stage::Polling(limit) => {
                if self.window.len() < WINDOW {
                    self.window.push_back(reply.vel);
                    self.poll(limit);
                } else if self.is_stalled() {
                    self.stage = Stage::Reading(limit);
                    self.window.clear();
                } else {
                    let _ = self.window.pop_front();
                    self.window.push_back(reply.vel);
                    self.poll(limit);
                }
            },
            Stage::Reading(Limit::Open) => {
                self.open = reply.pos;
                self.window.clear();
                self.poll(Limit::Close);
            },
            Stage::Reading(Limit::Close) => {
                self.close = reply.pos;
                self.stage = Stage::Done;
            },
            Stage::Done => {},
            Stage::TimedOut => {},
        }
    }
}

/// A run after it was given `replies` one after another, first reply first.
pub open spec fn after(s: CalibrationState, replies: Seq<RecvData>) -> CalibrationState
    decreases replies.len(),
{
    if replies.len() == 0 {
        s
    } else {
        after(next(s, replies.first()), replies.drop_first())
    }
}

/// Whether every reply reports velocity zero.
pub open spec fn still(replies: Seq<RecvData>) -> bool {
    forall|i: int| 0 <= i < replies.len() ==> (#[trigger] replies[i]).vel == 0
}

/// Samples that are all zero sum to zero.
proof fn lemma_total_of_zeros(w: Seq<i32>)
    requires
        forall|i: int| 0 <= i < w.len() ==> w[i] == 0,
    ensures
        total(w) == 0,
    decreases w.len(),
{
    if w.len() > 0 {
        lemma_total_of_zeros(w.drop_last());
    }
}

/// The induction behind `lemma_still_jaw_stalls`: `zeros` counts the samples
/// at the end of the window that are known to be zero.
proof fn lemma_still_from(
    s: CalibrationState,
    limit: Limit,
    replies: Seq<RecvData>,
    zeros: nat,
) -> (k: int)
    requires
        s.stage == Stage::Polling(limit),
        s.window.len() <= WINDOW,
        zeros <= s.window.len(),
        forall|i: int| s.window.len() - zeros <= i < s.window.len() ==> s.window[i] == 0,
        s.left + zeros >= WINDOW,
        replies.len() + zeros >= WINDOW + 1,
        still(replies),
    ensures
        1 <= k <= WINDOW + 1 - zeros,
        after(s, replies.take(k)).stage == Stage::Reading(limit),
        after(s, replies.take(k)).open == s.open,
        after(s, replies.take(k)).close == s.close,
        after(s, replies.take(k)).left + k == s.left + 1,
    decreases WINDOW - zeros,
{
    let r = replies.first();
    let s1 = next(s, r);
    assert(r.vel == 0);
    if s.window.len() == WINDOW && stalled(s.window) {
        assert(replies.take(1).drop_first() =~= Seq::<RecvData>::empty());
        assert(replies.take(1).first() == r);
        assert(after(s, replies.take(1)) == after(s1, Seq::<RecvData>::empty()));
        1
    } else {
        if zeros == WINDOW {
            lemma_total_of_zeros(s.window);
        }
        let rest = replies.drop_first();
        assert(still(rest)) by {
            assert forall|i: int| 0 <= i < rest.len() implies (#[trigger] rest[i]).vel == 0 by {
                assert(rest[i] == replies[i + 1]);
            }
        }
        let k1 = lemma_still_from(s1, limit, rest, zeros + 1);
        let k = k1 + 1;
        assert(replies.take(k).drop_first() =~= rest.take(k1));
        assert(replies.take(k).first() == r);
        k
    }
}

/// Convergence. While a run polls toward a stop with a hundred polls left,
/// and the motor reports velocity zero from now on, polling ends within 101
/// replies: the window fills with zeros, which is a stall. Until then the
/// run has spent one poll for each reply but the last, and has changed
/// neither stop.
pub proof fn lemma_still_jaw_stalls(s: CalibrationState, limit: Limit, replies: Seq<RecvData>)
    requires
        s.stage == Stage::Polling(limit),
        s.window.len() <= WINDOW,
        s.left >= WINDOW,
        replies.len() >= WINDOW + 1,
        still(replies),
    ensures
        exists|k: int|
            {
                &&& 1 <= k <= WINDOW + 1
                &&& (#[trigger] after(s, replies.take(k))).stage == Stage::Reading(limit)
                &&& after(s, replies.take(k)).open == s.open
                &&& after(s, replies.take(k)).close == s.close
                &&& after(s, replies.take(k)).left + k == s.left + 1
            },
{
    let k = lemma_still_from(s, limit, replies, 0);
    assert(after(s, replies.take(k)).stage == Stage::Reading(limit));
}

/// Replies given in two parts give what all of them give.
proof fn lemma_after_both(s: CalibrationState, first: Seq<RecvData>, then: Seq<RecvData>)
    ensures
        after(s, first + then) == after(after(s, first), then),
    decreases first.len(),
{
    if first.len() == 0 {
        assert(first + then =~= then);
    } else {
        assert((first + then).first() == first.first());
        assert((first + then).drop_first() =~= first.drop_first() + then);
        lemma_after_both(next(s, first.first()), first.drop_first(), then);
    }
}

/// One more reply after those before.
proof fn lemma_after_one_more(s: CalibrationState, replies: Seq<RecvData>, k: int)
    requires
        0 <= k < replies.len(),
    ensures
        after(s, replies.take(k + 1)) == next(after(s, replies.take(k)), replies[k]),
{
    let one = seq![replies[k]];
    assert(replies.take(k + 1) =~= replies.take(k) + one);
    lemma_after_both(s, replies.take(k), one);
    let e = after(s, replies.take(k));
    assert(one.drop_first() =~= Seq::<RecvData>::empty());
    assert(after(e, one) == after(next(e, one.first()), one.drop_first()));
}

/// Whether a run that starts in `s` is done after the reply `replies[j]`,
/// with the position of `replies[i]` as the open stop and that of
/// `replies[j]` as the close stop.
pub open spec fn calibrated_at(
    s: CalibrationState,
    replies: Seq<RecvData>,
    i: int,
    j: int,
) -> bool {
    let e = after(s, replies.take(j + 1));
    e.stage == Stage::Done && e.open == replies[i].pos && e.close == replies[j].pos
}

/// Termination on a jaw at rest. A run that may spend 202 polls or more,
/// on a motor that reports velocity zero throughout, is done within 204
/// replies. Its open stop is the position of the reply that follows the
/// first stall, which comes within 101 polls; its close stop is the
/// position of the reply that follows the second stall, within 101 polls
/// more.
pub proof fn lemma_still_jaw_is_calibrated(max_polls: u32, replies: Seq<RecvData>)
    requires
        max_polls >= 2 * WINDOW + 2,
        replies.len() >= 2 * WINDOW + 4,
        still(replies),
    ensures
        exists|i: int, j: int|
            {
                &&& 1 <= i <= WINDOW + 1
                &&& i + 2 <= j <= i + WINDOW + 2
                &&& #[trigger] calibrated_at(start(max_polls), replies, i, j)
            },
{
    let s0 = start(max_polls);
    let k1 = lemma_still_from(s0, Limit::Open, replies, 0);
    let e1 = after(s0, replies.take(k1));
    lemma_after_one_more(s0, replies, k1);
    let e2 = after(s0, replies.take(k1 + 1));
    assert(e2.stage == Stage::Polling(Limit::Close));
    assert(e2.open == replies[k1].pos);

    let rest = replies.skip(k1 + 1);
    assert(still(rest)) by {
        assert forall|n: int| 0 <= n < rest.len() implies (#[trigger] rest[n]).vel == 0 by {
            assert(rest[n] == replies[n + k1 + 1]);
        }
    }
    let k2 = lemma_still_from(e2, Limit::Close, rest, 0);
    let j = k1 + 1 + k2;
    assert(replies.take(j) =~= replies.take(k1 + 1) + rest.take(k2));
    lemma_after_both(s0, replies.take(k1 + 1), rest.take(k2));
    let e3 = after(s0, replies.take(j));
    assert(e3.stage == Stage::Reading(Limit::Close));
    lemma_after_one_more(s0, replies, j);
    assert(calibrated_at(s0, replies, k1, j));
}

/// A stall ends polling, and the reply after it gives the stop. With a
/// hundred samples held whose mean is below the threshold, any reply moves
/// the run to reading. The reply after that is recorded as the open stop,
/// and the run turns toward the close stop if a poll is left; or it is
/// recorded as the close stop, and the run is done.
pub proof fn lemma_stop_is_recorded(
    s: CalibrationState,
    limit: Limit,
    reply: RecvData,
    reading: RecvData,
)
    requires
        s.stage == Stage::Polling(limit),
        s.window.len() == WINDOW,
        stalled(s.window),
    ensures
        next(s, reply).stage == Stage::Reading(limit),
        limit == Limit::Open ==> {
            let e = next(next(s, reply), reading);
            &&& e.open == reading.pos
            &&& e.close == s.close
            &&& e.stage == (if s.left == 0 {
                Stage::TimedOut
            } else {
                Stage::Polling(Limit::Close)
            })
            &&& e.window.len() == 0
        },
        limit == Limit::Close ==> {
            let e = next(next(s, reply), reading);
            &&& e.close == reading.pos
            &&& e.open == s.open
            &&& e.stage == Stage::Done
        },
{
}

/// The window never grows beyond a hundred samples, and the polls left
/// never grow.
pub proof fn lemma_run_stays_bounded(s: CalibrationState, reply: RecvData)
    requires
        s.window.len() <= WINDOW,
    ensures
        next(s, reply).window.len() <= WINDOW,
        next(s, reply).left <= s.left,
{
}

} // verus!
