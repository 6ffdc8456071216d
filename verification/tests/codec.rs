use gripper::codec::{
    ConfigFrame, ConfigTerm, ControlFrame, Data, Mode, ProtocolDecodeError, RecvData, Status,
    COUNTS_PER_TURN, FRAME_LEN,
};
use std::f64::consts::{PI, TAU};

fn control(pos: i64, vel: i32, cur: i16) -> ControlFrame {
    ControlFrame { pos, pos_kp: 0, pos_kd: 0, vel, cur, mode: Mode::Pos, status: Status::Enable }
}

fn telemetry(pos: [u8; 5], vel: [u8; 4], cur: [u8; 2], tail: [u8; 5]) -> Vec<u8> {
    let mut v = Vec::new();
    v.extend_from_slice(&pos);
    v.extend_from_slice(&vel);
    v.extend_from_slice(&cur);
    v.extend_from_slice(&tail);
    v
}

// Position in radians to counts, to the nearest count.
fn counts_of(rad: f64) -> i64 {
    (rad / TAU * 1048576.0).round() as i64
}

// Counts to radians, by whole revolutions and the rest, as the motor's
// documentation has it.
fn rad_of(t: &RecvData) -> f64 {
    t.turns() as f64 * TAU + t.angle() as f64 * TAU / 1048576.0
}

#[test]
fn control_frame_layout() {
    let frame = ControlFrame {
        pos: 0x12_3456_789A,
        pos_kp: 7,
        pos_kd: 9,
        vel: 0x0102_0304,
        cur: 0x0506,
        mode: Mode::Vel,
        status: Status::Enable,
    };
    assert_eq!(
        frame.to_data(),
        [0x12, 0x34, 0x56, 0x78, 0x9A, 0x01, 0x02, 0x03, 0x04, 0x05, 0x06, 1, 1, 7, 9, 0]
    );
}

#[test]
fn control_frame_position_is_most_significant_byte_first() {
    let data = control(1, 0, 0).to_data();
    assert_eq!(&data[0..5], &[0, 0, 0, 0, 1]);
    let data = control(0x01_0000_0000, 0, 0).to_data();
    assert_eq!(&data[0..5], &[1, 0, 0, 0, 0]);
}

#[test]
fn control_frame_position_is_the_low_five_bytes_reversed() {
    for pos in [0i64, 1, -1, 0x12_3456_789A, -0x12_3456_789A, 2_359_296, -786_432, 549_755_813_887, -549_755_813_888] {
        let le = pos.to_le_bytes();
        let data = control(pos, 0, 0).to_data();
        assert_eq!(&data[0..5], &[le[4], le[3], le[2], le[1], le[0]]);
    }
}

#[test]
fn control_frame_velocity_and_current_are_big_endian() {
    for (vel, cur) in [(0i32, 0i16), (83_886, 328), (-83_886, -328), (1_677_722, 1), (i32::MAX, i16::MAX), (i32::MIN, i16::MIN)] {
        let data = control(0, vel, cur).to_data();
        assert_eq!(&data[5..9], &vel.to_be_bytes());
        assert_eq!(&data[9..11], &cur.to_be_bytes());
    }
}

#[test]
fn control_frame_negative_fields_are_twos_complement() {
    let data = control(-1, -2, -3).to_data();
    assert_eq!(&data[0..5], &[0xFF, 0xFF, 0xFF, 0xFF, 0xFF]);
    assert_eq!(&data[5..9], &[0xFF, 0xFF, 0xFF, 0xFE]);
    assert_eq!(&data[9..11], &[0xFF, 0xFD]);
    let data = control(-549_755_813_888, i32::MIN, i16::MIN).to_data();
    assert_eq!(&data[0..5], &[0x80, 0, 0, 0, 0]);
    assert_eq!(&data[5..9], &[0x80, 0, 0, 0]);
    assert_eq!(&data[9..11], &[0x80, 0]);
}

#[test]
fn control_frame_carries_the_low_forty_bits() {
    let data = control((1i64 << 40) + 5, 0, 0).to_data();
    assert_eq!(&data[0..5], &[0, 0, 0, 0, 5]);
    let data = control(-(1i64 << 40) - 1, 0, 0).to_data();
    assert_eq!(&data[0..5], &[0xFF, 0xFF, 0xFF, 0xFF, 0xFF]);
    let data = control(i64::MIN, 0, 0).to_data();
    assert_eq!(&data[0..5], &[0, 0, 0, 0, 0]);
    let data = control(i64::MAX, 0, 0).to_data();
    assert_eq!(&data[0..5], &[0xFF, 0xFF, 0xFF, 0xFF, 0xFF]);
}

#[test]
fn control_frame_mode_and_status_bytes() {
    let mut frame = control(0, 0, 0);
    frame.mode = Mode::Cur;
    frame.status = Status::Disable;
    assert_eq!(&frame.to_data()[11..13], &[0, 0]);
    frame.mode = Mode::Vel;
    assert_eq!(frame.to_data()[11], 1);
    frame.mode = Mode::Pos;
    frame.status = Status::Enable;
    assert_eq!(&frame.to_data()[11..13], &[2, 1]);
}

#[test]
fn default_control_frame_is_all_zero() {
    let frame = ControlFrame::default();
    assert_eq!(frame.mode, Mode::Cur);
    assert_eq!(frame.status, Status::Disable);
    assert_eq!(frame.to_data(), [0u8; 16]);
    assert_eq!(Mode::default(), Mode::Cur);
    assert_eq!(Status::default(), Status::Disable);
}

#[test]
fn config_frame_layout() {
    let frame = ConfigFrame { term: ConfigTerm::CurKi, value: 1.0f32.to_bits() };
    assert_eq!(frame.to_data(), [0, 3, 0x3F, 0x80, 0, 0, 0, 0, 0, 0, 0, 0, 0, 0, 0, 0]);
    let frame = ConfigFrame { term: ConfigTerm::VelKp, value: 0x0102_0304 };
    assert_eq!(frame.to_data(), [0, 0, 1, 2, 3, 4, 0, 0, 0, 0, 0, 0, 0, 0, 0, 0]);
    let frame = ConfigFrame { term: ConfigTerm::VelKi, value: (-2.5f32).to_bits() };
    assert_eq!(&frame.to_data()[0..6], &[0, 1, 0xC0, 0x20, 0, 0]);
    let frame = ConfigFrame { term: ConfigTerm::CurKp, value: 0 };
    assert_eq!(frame.to_data()[1], 2);
}

#[test]
fn data_encodes_either_kind() {
    let config = ConfigFrame { term: ConfigTerm::CurKp, value: 0xDEAD_BEEF };
    assert_eq!(Data::Config(config).to_data(), config.to_data());
    let frame = control(-77, 12, -5);
    assert_eq!(Data::Control(frame).to_data(), frame.to_data());
    assert_eq!(frame.to_data().len(), FRAME_LEN);
}

#[test]
fn telemetry_decodes_every_field() {
    let data = telemetry(
        [0x00, 0x00, 0x20, 0x00, 0x07],
        [0x00, 0x01, 0x00, 0x02],
        [0x01, 0x00],
        [2, 1, 0xEE, 0xF6, 0x2A],
    );
    let t = RecvData::from_data(&data).unwrap();
    assert_eq!(
        t,
        RecvData {
            pos: 0x20_0007,
            vel: 0x1_0002,
            cur: 0x100,
            mode: Mode::Pos,
            status: Status::Enable,
            temp: -10,
            id: 42,
        }
    );
}

#[test]
fn telemetry_sign_extends_from_the_first_byte() {
    let data = telemetry([0xFF, 0xFF, 0xFF, 0xFF, 0xFE], [0xFF; 4], [0xFF, 0xFF], [0, 0, 0, 0x80, 0]);
    let t = RecvData::from_data(&data).unwrap();
    assert_eq!(t.pos, -2);
    assert_eq!(t.vel, -1);
    assert_eq!(t.cur, -1);
    assert_eq!(t.temp, -128);
    let data = telemetry([0x80, 0, 0, 0, 0], [0x80, 0, 0, 0], [0x80, 0], [1, 1, 0, 0x7F, 0xFF]);
    let t = RecvData::from_data(&data).unwrap();
    assert_eq!(t.pos, -549_755_813_888);
    assert_eq!(t.vel, i32::MIN);
    assert_eq!(t.cur, i16::MIN);
    assert_eq!(t.temp, 127);
    assert_eq!(t.id, 255);
    let data = telemetry([0x7F, 0xFF, 0xFF, 0xFF, 0xFF], [0x7F, 0xFF, 0xFF, 0xFF], [0x7F, 0xFF], [0; 5]);
    let t = RecvData::from_data(&data).unwrap();
    assert_eq!(t.pos, 549_755_813_887);
    assert_eq!(t.vel, i32::MAX);
    assert_eq!(t.cur, i16::MAX);
}

#[test]
fn telemetry_undersized_is_an_error() {
    assert_eq!(RecvData::from_data(&[]), Err(ProtocolDecodeError::Undersized));
    assert_eq!(RecvData::from_data(&[0u8; 15]), Err(ProtocolDecodeError::Undersized));
    assert!(RecvData::from_data(&[0u8; 16]).is_ok());
}

#[test]
fn telemetry_ignores_bytes_after_the_sixteenth() {
    let mut data = telemetry([0, 0, 0, 1, 2], [0, 0, 0, 3], [0, 4], [1, 0, 9, 5, 6]);
    let short = RecvData::from_data(&data).unwrap();
    data.extend_from_slice(&[0xAA; 48]);
    assert_eq!(RecvData::from_data(&data), Ok(short));
    assert_eq!(short.pos, 258);
}

#[test]
fn telemetry_unknown_mode_is_an_error() {
    let mut data = [0u8; 16];
    data[11] = 3;
    assert_eq!(RecvData::from_data(&data), Err(ProtocolDecodeError::UnknownMode(3)));
    data[11] = 0xFF;
    assert_eq!(RecvData::from_data(&data), Err(ProtocolDecodeError::UnknownMode(0xFF)));
}

#[test]
fn telemetry_unknown_status_is_an_error() {
    let mut data = [0u8; 16];
    data[12] = 2;
    assert_eq!(RecvData::from_data(&data), Err(ProtocolDecodeError::UnknownStatus(2)));
}

#[test]
fn telemetry_mode_is_judged_before_status() {
    let mut data = [0u8; 16];
    data[11] = 9;
    data[12] = 9;
    assert_eq!(RecvData::from_data(&data), Err(ProtocolDecodeError::UnknownMode(9)));
}

#[test]
fn mode_from_byte() {
    assert_eq!(Mode::from(0), Ok(Mode::Cur));
    assert_eq!(Mode::from(1), Ok(Mode::Vel));
    assert_eq!(Mode::from(2), Ok(Mode::Pos));
    assert_eq!(Mode::from(3), Err(ProtocolDecodeError::UnknownMode(3)));
    assert_eq!(Mode::Cur.code(), 0);
    assert_eq!(Mode::Vel.code(), 1);
    assert_eq!(Mode::Pos.code(), 2);
}

#[test]
fn status_from_byte() {
    assert_eq!(Status::from(0), Ok(Status::Disable));
    assert_eq!(Status::from(1), Ok(Status::Enable));
    assert_eq!(Status::from(2), Err(ProtocolDecodeError::UnknownStatus(2)));
    assert_eq!(Status::Disable.code(), 0);
    assert_eq!(Status::Enable.code(), 1);
}

#[test]
fn config_term_codes() {
    assert_eq!(ConfigTerm::VelKp.code(), 0);
    assert_eq!(ConfigTerm::VelKi.code(), 1);
    assert_eq!(ConfigTerm::CurKp.code(), 2);
    assert_eq!(ConfigTerm::CurKi.code(), 3);
}

#[test]
fn round_trip_is_exact_in_wire_units() {
    let positions = [0i64, 1, -1, 1_048_576, -1_048_576, 549_755_813_887, -549_755_813_888, 123_456_789];
    let velocities = [0i32, 1, -1, 83_886, -83_886, i32::MAX, i32::MIN];
    let currents = [0i16, 328, -328, i16::MAX, i16::MIN];
    for &pos in positions.iter() {
        for &vel in velocities.iter() {
            for &cur in currents.iter() {
                for (mode, status) in [(Mode::Cur, Status::Disable), (Mode::Vel, Status::Enable), (Mode::Pos, Status::Enable)] {
                    let frame = ControlFrame { pos, pos_kp: 3, pos_kd: 200, vel, cur, mode, status };
                    let t = RecvData::from_data(&frame.to_data()).unwrap();
                    assert_eq!(t.pos, pos);
                    assert_eq!(t.vel, vel);
                    assert_eq!(t.cur, cur);
                    assert_eq!(t.mode, mode);
                    assert_eq!(t.status, status);
                    assert_eq!(t.temp, 200u8 as i8);
                    assert_eq!(t.id, 0);
                }
            }
        }
    }
}

#[test]
fn round_trip_is_within_quantization_tolerance() {
    let cases = [
        (0.0f64, 0.0f64, 0.0f64),
        (1.0, 10.0, 1.0),
        (-1.0, -10.0, -1.0),
        (3.0 * TAU + 0.123456, 200.0, 0.5),
        (-17.5 * TAU - 2.0, -123.456, -99.0),
        (1234.56789, 0.00012, 12.3456),
    ];
    for (pos, vel, cur) in cases {
        let frame = ControlFrame {
            pos: counts_of(pos),
            pos_kp: 1,
            pos_kd: 1,
            vel: (vel * 8388.608).round() as i32,
            cur: (cur * 327.68).round() as i16,
            mode: Mode::Pos,
            status: Status::Enable,
        };
        let t = RecvData::from_data(&frame.to_data()).unwrap();
        assert!((rad_of(&t) - pos).abs() <= TAU / 1048576.0);
        assert!((t.vel as f64 / 8388.608 - vel).abs() <= 1.0 / 8388.608);
        assert!((t.cur as f64 / 327.68 - cur).abs() <= 1.0 / 327.68);
    }
}

#[test]
fn two_revolutions_and_a_quarter() {
    let raw: i64 = 2 * COUNTS_PER_TURN + COUNTS_PER_TURN / 4;
    let data = control(raw, 0, 0).to_data();
    assert_eq!(&data[0..5], &[0x00, 0x00, 0x24, 0x00, 0x00]);
    let t = RecvData::from_data(&data).unwrap();
    assert_eq!(t.pos, 2_359_296);
    assert_eq!(t.turns(), 2);
    assert_eq!(t.angle(), 262_144);
    assert!((rad_of(&t) - (2.0 * TAU + PI / 2.0)).abs() <= TAU / 1048576.0);
}

#[test]
fn minus_one_revolution_plus_a_quarter_rounds_toward_zero() {
    let raw: i64 = -COUNTS_PER_TURN + COUNTS_PER_TURN / 4;
    let data = telemetry([0xFF, 0xFF, 0xF4, 0x00, 0x00], [0; 4], [0; 2], [0; 5]);
    let t = RecvData::from_data(&data).unwrap();
    assert_eq!(t.pos, raw);
    assert_eq!(t.pos, -786_432);
    // Rounded toward zero: no whole revolution, and a negative rest.
    assert_eq!(t.turns(), 0);
    assert_eq!(t.angle(), -786_432);
    // Rounded down it would have been -1 and 262144.
    assert_ne!(t.turns(), raw.div_euclid(COUNTS_PER_TURN));
    assert_ne!(t.angle(), raw.rem_euclid(COUNTS_PER_TURN));
    assert!((rad_of(&t) - (-TAU + PI / 2.0)).abs() <= TAU / 1048576.0);
}

#[test]
fn turns_and_angle_make_up_the_position() {
    for pos in [0i64, 1, -1, 1_048_575, 1_048_576, 1_048_577, -1_048_575, -1_048_576, -1_048_577, 549_755_813_887, -549_755_813_888] {
        let t = RecvData { pos, ..RecvData::default() };
        assert_eq!(t.turns() * COUNTS_PER_TURN + t.angle(), pos);
        assert!(t.angle().abs() < COUNTS_PER_TURN);
        assert!(t.angle() == 0 || (t.angle() < 0) == (pos < 0));
        assert_eq!(t.turns(), pos / COUNTS_PER_TURN);
        assert_eq!(t.angle(), pos % COUNTS_PER_TURN);
    }
}

#[test]
fn default_telemetry_is_zeroed() {
    let t = RecvData::default();
    assert_eq!(RecvData::from_data(&[0u8; 16]), Ok(t));
}
