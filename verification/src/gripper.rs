//! The gripper: startup, servoing to a grip fraction, disabling, and taking
//! over the stops that a calibration run found.

use vstd::prelude::*;
use crate::arith::{clamp, trunc_div, ONE};
use crate::calibration::{
    next, request_of, Calibration, CalibrationStallTimeout, Stage, ONE_AMP,
};
use crate::codec::{ConfigFrame, ConfigTerm, ControlFrame, Data, Mode, RecvData, Status};
use crate::transport::{carries, Exchange, Motor, TransportError, MAX_STANDARD_ID};

verus! {

/// The gain 1.0 as the bit pattern of an IEEE 754 binary32 number.
pub const UNIT_GAIN: u32 = 0x3F80_0000;

/// The velocity cap while servoing, 200 revolutions per second, in wire
/// units of 1/8388.608: 1677721.6, to the nearest unit.
pub const SERVO_VEL: i32 = 1_677_722;

/// The least position that a control frame carries whole.
pub const POS_MIN: i64 = -0x80_0000_0000;

/// The greatest position that a control frame carries whole.
pub const POS_MAX: i64 = 0x7F_FFFF_FFFF;

/// The position in counts for a grip fraction `f` in Q15.16:
/// `close * (1 - f) + open * f`, rounded toward zero, and held within what a
/// control frame carries. Fraction 0 is fully closed, fraction 1 fully open;
/// a fraction outside that span extrapolates beyond the stops.
pub open spec fn grip_target(open: int, close: int, f: int) -> int {
    clamp(trunc_div(close * (ONE - f) + open * f, ONE as int), POS_MIN as int, POS_MAX as int)
}

/// The frame that servos to a position: position mode, enabled, both gains
/// 1, at most 200 revolutions per second and one ampere.
pub open spec fn servo_frame(pos: i64) -> ControlFrame {
    ControlFrame {
        pos,
        pos_kp: 1,
        pos_kd: 1,
        vel: SERVO_VEL,
        cur: ONE_AMP,
        mode: Mode::Pos,
        status: Status::Enable,
    }
}

/// The frame that disables the motor: position mode, disabled, everything
/// else zero.
pub open spec fn disable_frame() -> ControlFrame {
    ControlFrame {
        pos: 0,
        pos_kp: 0,
        pos_kd: 0,
        vel: 0,
        cur: 0,
        mode: Mode::Pos,
        status: Status::Disable,
    }
}

/// The gain that the `i`th startup exchange sets: velocity P, velocity I,
/// current P, current I.
pub open spec fn startup_term(i: int) -> ConfigTerm {
    if i == 0 {
        ConfigTerm::VelKp
    } else if i == 1 {
        ConfigTerm::VelKi
    } else if i == 2 {
        ConfigTerm::CurKp
    } else {
        ConfigTerm::CurKi
    }
}

/// The position in counts that the grip fraction `pos` stands for between
/// the stops `open` and `close`.
pub fn grip_position(open: i64, close: i64, pos: i32) -> (counts: i64)
    ensures
        counts == grip_target(open as int, close as int, pos as int),
{
    let f: i128 = pos as i128;
    let rest: i128 = ONE as i128 - f;
    let c: i128 = close as i128;
    let o: i128 = open as i128;
    assert(-0x8000_0000_0000_0000 * 0x1_0000_0000 <= c * rest <= 0x8000_0000_0000_0000
        * 0x1_0000_0000) by (nonlinear_arith)
        requires
            -0x8000_0000_0000_0000 <= c <= 0x8000_0000_0000_0000,
            -0x1_0000_0000 <= rest <= 0x1_0000_0000,
    ;
    assert(-0x8000_0000_0000_0000 * 0x1_0000_0000 <= o * f <= 0x8000_0000_0000_0000
        * 0x1_0000_0000) by (nonlinear_arith)
        requires
            -0x8000_0000_0000_0000 <= o <= 0x8000_0000_0000_0000,
            -0x1_0000_0000 <= f <= 0x1_0000_0000,
    ;
    let q: i128 = (c * rest + o * f) / (ONE as i128);
    if q < POS_MIN as i128 {
        POS_MIN
    } else if q > POS_MAX as i128 {
        POS_MAX
    } else {
        q as i64
    }
}

/// A gripper with its two stops.
#[derive(Clone, Copy, Debug, PartialEq, Eq)]
pub struct Gripper {
    motor: Motor,
    open: i64,
    close: i64,
}

impl Gripper {
    /// The motor's device id.
    pub closed spec fn spec_id(&self) -> u16 {
        self.motor.spec_id()
    }

    /// The open stop, in counts.
    pub closed spec fn spec_open(&self) -> i64 {
        self.open
    }

    /// The close stop, in counts.
    pub closed spec fn spec_close(&self) -> i64 {
        self.close
    }

    /// A gripper on the motor with device id `id`, both stops at zero
    /// until a calibration run has found them, and the four exchanges that
    /// set the motor's gains to 1.0. The motor is unusable until all four
    /// have been answered.
    pub fn new(id: u16) -> (r: Result<(Gripper, [Exchange; 4]), TransportError>)
        ensures
            r is Ok <==> id <= MAX_STANDARD_ID,
            r matches Err(e) ==> e == TransportError::InvalidId(id),
            r matches Ok((gripper, startup)) ==> {
                &&& gripper.spec_id() == id
                &&& gripper.spec_open() == 0
                &&& gripper.spec_close() == 0
                &&& forall|i: int|
                    0 <= i < 4 ==> carries(
                        #[trigger] startup[i],
                        id,
                        Data::Config(ConfigFrame { term: startup_term(i), value: UNIT_GAIN }),
                    )
            },
    {
        let motor = match Motor::connect(id) {
            Ok(m) => m,
            Err(e) => {
                return Err(e);
            },
        };
        let startup = [
            motor.config(ConfigTerm::VelKp, UNIT_GAIN),
            motor.config(ConfigTerm::VelKi, UNIT_GAIN),
            motor.config(ConfigTerm::CurKp, UNIT_GAIN),
            motor.config(ConfigTerm::CurKi, UNIT_GAIN),
        ];
        Ok((Gripper { motor, open: 0, close: 0 }, startup))
    }

    /// The motor's device id.
    #[verifier::when_used_as_spec(spec_id)]
    pub fn id(&self) -> (id: u16)
        ensures
            id == self.spec_id(),
    {
        self.motor.id()
    }

    /// The open stop, in counts.
    #[verifier::when_used_as_spec(spec_open)]
    pub fn open(&self) -> (open: i64)
        ensures
            open == self.spec_open(),
    {
        self.open
    }

    /// The close stop, in counts.
    #[verifier::when_used_as_spec(spec_close)]
    pub fn close(&self) -> (close: i64)
        ensures
            close == self.spec_close(),
    {
        self.close
    }

    /// Begins the exchange that disables the motor.
    pub fn disable(&self) -> (x: Exchange)
        ensures
            carries(x, self.spec_id(), Data::Control(disable_frame())),
            x.id <= MAX_STANDARD_ID,
    {
        self.motor.write_read(
            Data::Control(
                ControlFrame {
                    pos: 0,
                    pos_kp: 0,
                    pos_kd: 0,
                    vel: 0,
                    cur: 0,
                    mode: Mode::Pos,
                    status: Status::Disable,
                },
            ),
        )
    }

    /// Begins the exchange that servos to the grip fraction `pos`, a Q15.16
    /// number: 0 is fully closed, 65536 fully open.
    pub fn pos_servo(&self, pos: i32) -> (x: Exchange)
        ensures
            carries(
                x,
                self.spec_id(),
                Data::Control(
                    servo_frame(
                        grip_target(
                            self.spec_open() as int,
                            self.spec_close() as int,
                            pos as int,
                        ) as i64,
                    ),
                ),
            ),
            x.id <= MAX_STANDARD_ID,
    {
        let counts = grip_position(self.open, self.close, pos);
        self.motor.write_read(
            Data::Control(
                ControlFrame {
                    pos: counts,
                    pos_kp: 1,
                    pos_kd: 1,
                    vel: SERVO_VEL,
                    cur: ONE_AMP,
                    mode: Mode::Pos,
                    status: Status::Enable,
                },
            ),
        )
    }

    /// One step of a calibration run. `reply` is the telemetry that
    /// answered the exchange of the step before, and is absent at the first
    /// step. The run takes the reply; then, while it goes on, the result is
    /// the next exchange to perform. When the run is done the gripper takes
    /// over both stops and there is no further exchange. When the run has
    /// timed out the stops stay as they were.
    pub fn calibration(&mut self, run: &mut Calibration, reply: Option<&RecvData>) -> (r: Result<
        Option<Exchange>,
        CalibrationStallTimeout,
    >)
        ensures
            final(run)@ == (match reply {
                Some(t) => next(old(run)@, *t),
                None => old(run)@,
            }),
            final(self).spec_id() == old(self).spec_id(),
            match final(run)@.stage {
                Stage::Done => {
                    &&& r == Ok::<Option<Exchange>, CalibrationStallTimeout>(None)
                    &&& final(self).spec_open() == final(run)@.open
                    &&& final(self).spec_close() == final(run)@.close
                },
                Stage::TimedOut => {
                    &&& r == Err::<Option<Exchange>, CalibrationStallTimeout>(
                        CalibrationStallTimeout,
                    )
                    &&& final(self).spec_open() == old(self).spec_open()
                    &&& final(self).spec_close() == old(self).spec_close()
                },
                _ => {
                    &&& r matches Ok(Some(x))
                    &&& request_of(final(run)@) matches Some(frame)
                    &&& carries(x, old(self).spec_id(), Data::Control(frame))
                    &&& x.id <= MAX_STANDARD_ID
                    &&& final(self).spec_open() == old(self).spec_open()
                    &&& final(self).spec_close() == old(self).spec_close()
                },
            },
    {
        match reply {
            Some(t) => {
                run.step(t);
            },
            None => {},
        }
        match run.request() {
            Some(frame) => Ok(Some(self.motor.write_read(Data::Control(frame)))),
            None => match run.bounds() {
                Some((open, close)) => {
                    self.open = open;
                    self.close = close;
                    Ok(None)
                },
                None => Err(CalibrationStallTimeout),
            },
        }
    }
}

/// Within the stops: a grip fraction between 0 and 1 gives a position
/// between the two stops, fraction 0 the close stop and fraction 1 the open
/// stop, whenever both stops are positions that telemetry can report.
pub proof fn lemma_grip_target_between(open: int, close: int, f: int)
    requires
        POS_MIN <= open <= POS_MAX,
        POS_MIN <= close <= POS_MAX,
        0 <= f <= ONE,
    ensures
        open <= close ==> open <= grip_target(open, close, f) <= close,
        close <= open ==> close <= grip_target(open, close, f) <= open,
        grip_target(open, close, 0) == close,
        grip_target(open, close, ONE as int) == open,
{
    let n = close * (ONE - f) + open * f;
    assert(close * (ONE - f) + open * f == close * ONE + (open - close) * f) by (nonlinear_arith);
    if open <= close {
        assert(n <= close * ONE && n >= open * ONE) by (nonlinear_arith)
            requires
                n == close * ONE + (open - close) * f,
                open <= close,
                0 <= f <= ONE,
        ;
    } else {
        assert(n >= close * ONE && n <= open * ONE) by (nonlinear_arith)
            requires
                n == close * ONE + (open - close) * f,
                close <= open,
                0 <= f <= ONE,
        ;
    }
    assert(close * (ONE - 0) + open * 0 == close * ONE) by (nonlinear_arith);
    assert(close * (ONE - ONE) + open * ONE == open * ONE) by (nonlinear_arith);
}

} // verus!
