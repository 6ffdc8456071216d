//! The motor's 16-byte frames: control and configuration requests, and the
//! telemetry reply.
//!
//! All quantities are in wire units. A position counts 1/1048576 of a
//! revolution and is a signed 40-bit number; a velocity counts 1/8388.608 of
//! a revolution per second in 32 bits; a current counts 1/327.68 A in 16 bits.
//! Multi-byte fields are big-endian.

use vstd::prelude::*;
use crate::arith::{lemma_trunc_div_rem, trunc_div, trunc_rem};
use crate::wire::{
    be16, be32, be40, be_value, fits, i16_from_be, i16_to_be, i32_from_be, i32_to_be,
    i40_from_be, i40_to_be, lemma_be16_value, lemma_be32_value, lemma_be40_value,
    lemma_signed_wrapped, signed, u32_to_be, wrapped, M16, M32, M40,
};

verus! {

/// The length of every frame.
pub const FRAME_LEN: usize = 16;

/// Position counts in one revolution.
pub const COUNTS_PER_TURN: i64 = 1_048_576;

/// Why a telemetry frame was not decoded.
#[derive(Clone, Copy, Debug, PartialEq, Eq, Structural)]
pub enum ProtocolDecodeError {
    /// Fewer than sixteen bytes.
    Undersized,
    /// The mode byte names no mode.
    UnknownMode(u8),
    /// The status byte names no status.
    UnknownStatus(u8),
}

/// What the motor regulates.
#[derive(Clone, Copy, Debug, PartialEq, Eq, Structural)]
pub enum Mode {
    Cur,
    Vel,
    Pos,
}

impl Mode {
    /// The mode's byte on the wire.
    pub open spec fn spec_code(self) -> u8 {
        match self {
            Mode::Cur => 0,
            Mode::Vel => 1,
            Mode::Pos => 2,
        }
    }

    /// The mode that a wire byte names.
    pub open spec fn of_code(value: u8) -> Option<Mode> {
        if value == 0 {
            Some(Mode::Cur)
        } else if value == 1 {
            Some(Mode::Vel)
        } else if value == 2 {
            Some(Mode::Pos)
        } else {
            None
        }
    }

    /// The mode's byte on the wire.
    #[verifier::when_used_as_spec(spec_code)]
    pub fn code(self) -> (b: u8)
        ensures
            b == self.spec_code(),
    {
        match self {
            Mode::Cur => 0,
            Mode::Vel => 1,
            Mode::Pos => 2,
        }
    }

    /// Reads a wire byte; a byte above 2 names no mode.
    pub fn from(value: u8) -> (r: Result<Mode, ProtocolDecodeError>)
        ensures
            r == match Mode::of_code(value) {
                Some(m) => Ok::<Mode, ProtocolDecodeError>(m),
                None => Err(ProtocolDecodeError::UnknownMode(value)),
            },
    {
        match value {
            0 => Ok(Mode::Cur),
            1 => Ok(Mode::Vel),
            2 => Ok(Mode::Pos),
            _ => Err(ProtocolDecodeError::UnknownMode(value)),
        }
    }
}

impl Default for Mode {
    fn default() -> (r: Self)
        ensures
            r == Mode::Cur,
    {
        Mode::Cur
    }
}

/// Whether the motor drives.
#[derive(Clone, Copy, Debug, PartialEq, Eq, Structural)]
pub enum Status {
    Disable,
    Enable,
}

impl Status {
    /// The status's byte on the wire.
    pub open spec fn spec_code(self) -> u8 {
        match self {
            Status::Disable => 0,
            Status::Enable => 1,
        }
    }

    /// The status that a wire byte names.
    pub open spec fn of_code(value: u8) -> Option<Status> {
        if value == 0 {
            Some(Status::Disable)
        } else if value == 1 {
            Some(Status::Enable)
        } else {
            None
        }
    }

    /// The status's byte on the wire.
    #[verifier::when_used_as_spec(spec_code)]
    pub fn code(self) -> (b: u8)
        ensures
            b == self.spec_code(),
    {
        match self {
            Status::Disable => 0,
            Status::Enable => 1,
        }
    }

    /// Reads a wire byte; a byte above 1 names no status.
    pub fn from(value: u8) -> (r: Result<Status, ProtocolDecodeError>)
        ensures
            r == match Status::of_code(value) {
                Some(s) => Ok::<Status, ProtocolDecodeError>(s),
                None => Err(ProtocolDecodeError::UnknownStatus(value)),
            },
    {
        match value {
            0 => Ok(Status::Disable),
            1 => Ok(Status::Enable),
            _ => Err(ProtocolDecodeError::UnknownStatus(value)),
        }
    }
}

impl Default for Status {
    fn default() -> (r: Self)
        ensures
            r == Status::Disable,
    {
        Status::Disable
    }
}

/// The gain that a configuration frame sets.
#[derive(Clone, Copy, Debug, PartialEq, Eq, Structural)]
pub enum ConfigTerm {
    VelKp,
    VelKi,
    CurKp,
    CurKi,
}

impl ConfigTerm {
    /// The term's byte on the wire.
    pub open spec fn spec_code(self) -> u8 {
        match self {
            ConfigTerm::VelKp => 0,
            ConfigTerm::VelKi => 1,
            ConfigTerm::CurKp => 2,
            ConfigTerm::CurKi => 3,
        }
    }

    /// The term's byte on the wire.
    #[verifier::when_used_as_spec(spec_code)]
    pub fn code(self) -> (b: u8)
        ensures
            b == self.spec_code(),
    {
        match self {
            ConfigTerm::VelKp => 0,
            ConfigTerm::VelKi => 1,
            ConfigTerm::CurKp => 2,
            ConfigTerm::CurKi => 3,
        }
    }
}

/// A configuration request: one gain and its value.
#[derive(Clone, Copy, Debug, PartialEq, Eq, Structural)]
pub struct ConfigFrame {
    pub term: ConfigTerm,
    /// The gain as the bit pattern of an IEEE 754 binary32 number.
    pub value: u32,
}

/// The bytes of a configuration frame: a zero byte, the term, the value
/// big-endian, and ten zero bytes.
pub open spec fn config_wire(c: ConfigFrame) -> Seq<u8> {
    seq![0u8, c.term.spec_code()] + be32(c.value as int) + Seq::new(10, |i: int| 0u8)
}

impl ConfigFrame {
    /// The frame's sixteen bytes.
    pub fn to_data(&self) -> (data: [u8; 16])
        ensures
            data@ == config_wire(*self),
    {
        let v = u32_to_be(self.value);
        let data: [u8; 16] = [
            0,
            self.term.code(),
            v[0],
            v[1],
            v[2],
            v[3],
            0,
            0,
            0,
            0,
            0,
            0,
            0,
            0,
            0,
            0,
        ];
        assert(data@ =~= config_wire(*self));
        data
    }
}

/// A control request.
#[derive(Clone, Copy, Debug, PartialEq, Eq, Structural)]
pub struct ControlFrame {
    /// Target position in counts. The wire carries its low 40 bits.
    pub pos: i64,
    /// Proportional position gain.
    pub pos_kp: u8,
    /// Derivative position gain.
    pub pos_kd: u8,
    /// Velocity setpoint or cap, in wire units.
    pub vel: i32,
    /// Current limit, in wire units.
    pub cur: i16,
    pub mode: Mode,
    pub status: Status,
}

/// The bytes of a control frame: position in five bytes, velocity in four,
/// current in two, then mode, status, the two gains and a reserved zero.
pub open spec fn control_wire(c: ControlFrame) -> Seq<u8> {
    be40(wrapped(c.pos as int, M40 as int)) + be32(wrapped(c.vel as int, M32 as int)) + be16(
        wrapped(c.cur as int, M16 as int),
    ) + seq![c.mode.spec_code(), c.status.spec_code(), c.pos_kp, c.pos_kd, 0u8]
}

impl ControlFrame {
    /// Whether the position is a signed 40-bit number, so that the wire
    /// carries it whole.
    pub open spec fn representable(self) -> bool {
        fits(self.pos as int, M40 as int)
    }

    /// The frame's sixteen bytes.
    pub fn to_data(&self) -> (data: [u8; 16])
        ensures
            data@ == control_wire(*self),
    {
        let p = i40_to_be(self.pos);
        let v = i32_to_be(self.vel);
        let c = i16_to_be(self.cur);
        let data: [u8; 16] = [
            p[0],
            p[1],
            p[2],
            p[3],
            p[4],
            v[0],
            v[1],
            v[2],
            v[3],
            c[0],
            c[1],
            self.mode.code(),
            self.status.code(),
            self.pos_kp,
            self.pos_kd,
            0,
        ];
        assert(data@ =~= control_wire(*self));
        data
    }
}

impl Default for ControlFrame {
    /// The zeroed frame: current mode, disabled, nothing commanded.
    fn default() -> (r: Self)
        ensures
            r == (ControlFrame {
                pos: 0,
                pos_kp: 0,
                pos_kd: 0,
                vel: 0,
                cur: 0,
                mode: Mode::Cur,
                status: Status::Disable,
            }),
    {
        ControlFrame {
            pos: 0,
            pos_kp: 0,
            pos_kd: 0,
            vel: 0,
            cur: 0,
            mode: Mode::Cur,
            status: Status::Disable,
        }
    }
}

/// A request of either kind.
#[derive(Clone, Copy, Debug, PartialEq, Eq, Structural)]
pub enum Data {
    Config(ConfigFrame),
    Control(ControlFrame),
}

/// The bytes of a request.
pub open spec fn data_wire(d: Data) -> Seq<u8> {
    match d {
        Data::Config(c) => config_wire(c),
        Data::Control(c) => control_wire(c),
    }
}

impl Data {
    /// The request's sixteen bytes.
    pub fn to_data(&self) -> (data: [u8; 16])
        ensures
            data@ == data_wire(*self),
    {
        match self {
            Data::Config(config) => config.to_data(),
            Data::Control(control) => control.to_data(),
        }
    }
}

/// A decoded telemetry reply.
#[derive(Clone, Copy, Debug, PartialEq, Eq, Structural)]
pub struct RecvData {
    /// Position in counts, over any number of revolutions.
    pub pos: i64,
    /// Velocity in wire units.
    pub vel: i32,
    /// Current in wire units.
    pub cur: i16,
    pub mode: Mode,
    pub status: Status,
    /// Temperature as the motor reports it.
    pub temp: i8,
    /// The replying device.
    pub id: u8,
}

/// What sixteen or more bytes decode to: the first sixteen are position in
/// five bytes, sign-extended from the top bit of the first, velocity in
/// four, current in two, mode, status, a reserved byte, temperature and
/// device id. A mode byte is looked at before a status byte.
pub open spec fn telemetry_of(d: Seq<u8>) -> Result<RecvData, ProtocolDecodeError> {
    if d.len() < 16 {
        Err(ProtocolDecodeError::Undersized)
    } else {
        match (Mode::of_code(d[11]), Status::of_code(d[12])) {
            (None, _) => Err(ProtocolDecodeError::UnknownMode(d[11])),
            (Some(_), None) => Err(ProtocolDecodeError::UnknownStatus(d[12])),
            (Some(mode), Some(status)) => Ok(
                RecvData {
                    pos: signed(be_value(d, 0, 5), M40 as int) as i64,
                    vel: signed(be_value(d, 5, 4), M32 as int) as i32,
                    cur: signed(be_value(d, 9, 2), M16 as int) as i16,
                    mode,
                    status,
                    temp: signed(d[14] as int, 0x100) as i8,
                    id: d[15],
                },
            ),
        }
    }
}

impl RecvData {
    /// Decodes a telemetry frame. Bytes after the sixteenth are not looked at.
    pub fn from_data(data: &[u8]) -> (r: Result<RecvData, ProtocolDecodeError>)
        ensures
            r == telemetry_of(data@),
            r matches Ok(t) ==> fits(t.pos as int, M40 as int),
    {
        if data.len() < FRAME_LEN {
            return Err(ProtocolDecodeError::Undersized);
        }
        let mode = match Mode::from(data[11]) {
            Ok(m) => m,
            Err(e) => {
                return Err(e);
            },
        };
        let status = match Status::from(data[12]) {
            Ok(s) => s,
            Err(e) => {
                return Err(e);
            },
        };
        let t: u8 = data[14];
        let temp: i8 = if t >= 0x80 {
            (t as i16 - 0x100) as i8
        } else {
            t as i8
        };
        Ok(
            RecvData {
                pos: i40_from_be(data, 0),
                vel: i32_from_be(data, 5),
                cur: i16_from_be(data, 9),
                mode,
                status,
                temp,
                id: data[15],
            },
        )
    }

    /// Whole revolutions in the position, rounded toward zero.
    pub open spec fn spec_turns(self) -> int {
        trunc_div(self.pos as int, COUNTS_PER_TURN as int)
    }

    /// The counts that `turns` leaves over: zero, or of the position's sign.
    pub open spec fn spec_angle(self) -> int {
        trunc_rem(self.pos as int, COUNTS_PER_TURN as int)
    }

    /// Whole revolutions in the position, rounded toward zero: a position
    /// between zero and minus one revolution has no whole revolution.
    pub fn turns(&self) -> (n: i64)
        ensures
            n == self.spec_turns(),
    {
        self.pos / COUNTS_PER_TURN
    }

    /// The counts that `turns` leaves over: zero, or of the position's sign.
    pub fn angle(&self) -> (n: i64)
        ensures
            n == self.spec_angle(),
    {
        self.pos % COUNTS_PER_TURN
    }
}

impl Default for RecvData {
    fn default() -> (r: Self)
        ensures
            r == (RecvData {
                pos: 0,
                vel: 0,
                cur: 0,
                mode: Mode::Cur,
                status: Status::Disable,
                temp: 0,
                id: 0,
            }),
    {
        RecvData { pos: 0, vel: 0, cur: 0, mode: Mode::Cur, status: Status::Disable, temp: 0, id: 0 }
    }
}

/// What the motor would report of a control frame, were the frame's bytes
/// read as telemetry: the two layouts share their first thirteen bytes.
pub open spec fn echo_of(c: ControlFrame) -> RecvData {
    RecvData {
        pos: c.pos,
        vel: c.vel,
        cur: c.cur,
        mode: c.mode,
        status: c.status,
        temp: signed(c.pos_kd as int, 0x100) as i8,
        id: 0,
    }
}

/// Round trip: the bytes of a control frame whose position fits 40 bits
/// decode to the same position, velocity, current, mode and status, exactly.
pub proof fn lemma_control_round_trip(c: ControlFrame)
    requires
        c.representable(),
    ensures
        telemetry_of(control_wire(c)) == Ok::<RecvData, ProtocolDecodeError>(echo_of(c)),
{
    let d = control_wire(c);
    let p = wrapped(c.pos as int, M40 as int);
    let v = wrapped(c.vel as int, M32 as int);
    let u = wrapped(c.cur as int, M16 as int);
    lemma_signed_wrapped(c.pos as int, M40 as int);
    lemma_signed_wrapped(c.vel as int, M32 as int);
    lemma_signed_wrapped(c.cur as int, M16 as int);
    assert(d.len() == 16);
    assert(d.subrange(0, 5) =~= be40(p));
    assert(d.subrange(5, 9) =~= be32(v));
    assert(d.subrange(9, 11) =~= be16(u));
    lemma_be40_value(p, d, 0);
    lemma_be32_value(v, d, 5);
    lemma_be16_value(u, d, 9);
    assert(d[11] == c.mode.spec_code());
    assert(d[12] == c.status.spec_code());
    assert(d[14] == c.pos_kd);
    assert(d[15] == 0);
}

/// Revolutions and leftover counts make up the position, and the leftover
/// is less than a revolution and never of the opposite sign: the split
/// rounds toward zero, not down.
pub proof fn lemma_turns_round_toward_zero(t: RecvData)
    ensures
        t.spec_turns() * COUNTS_PER_TURN + t.spec_angle() == t.pos,
        -COUNTS_PER_TURN < t.spec_angle() < COUNTS_PER_TURN,
        t.pos >= 0 ==> t.spec_angle() >= 0 && t.spec_turns() >= 0,
        t.pos <= 0 ==> t.spec_angle() <= 0 && t.spec_turns() <= 0,
{
    lemma_trunc_div_rem(t.pos as int, COUNTS_PER_TURN as int);
}

} // verus!
