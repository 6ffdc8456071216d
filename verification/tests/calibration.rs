use gripper::calibration::{
    Calibration, CalibrationStallTimeout, Limit, Stage, ONE_AMP, POLL_VEL, WINDOW,
};
use gripper::codec::{ControlFrame, Mode, RecvData, Status};
use gripper::gripper::Gripper;

fn telemetry(pos: i64, vel: i32) -> RecvData {
    RecvData { pos, vel, ..RecvData::default() }
}

// Fills the window of a fresh run with `samples`.
fn filled(samples: &[i32], max_polls: u32) -> Calibration {
    let mut run = Calibration::new(max_polls);
    for &v in samples {
        run.step(&telemetry(0, v));
    }
    run
}

// A bus with a motor behind it. The jaw's velocity falls from sample to
// sample, and is exactly zero after the hundredth sample of each drive. The
// position grows by one count with every exchange.
struct Bench {
    exchanges: i64,
    samples: i32,
    direction: i32,
    reads: Vec<i64>,
    polls: u32,
}

impl Bench {
    fn new() -> Bench {
        Bench { exchanges: 0, samples: 0, direction: 0, reads: Vec::new(), polls: 0 }
    }

    fn exchange(&mut self, data: &[u8; 16]) -> RecvData {
        let sent = RecvData::from_data(data).unwrap();
        self.exchanges += 1;
        let pos = 1000 + self.exchanges;
        if sent.status == Status::Enable && sent.mode == Mode::Vel {
            let direction = sent.vel.signum();
            if direction != self.direction {
                self.direction = direction;
                self.samples = 0;
            }
            self.samples += 1;
            self.polls += 1;
            let vel = if self.samples <= 100 { direction * (101 - self.samples) * 1000 } else { 0 };
            telemetry(pos, vel)
        } else {
            self.reads.push(pos);
            telemetry(pos, 0)
        }
    }
}

#[test]
fn poll_frames_drive_toward_each_stop() {
    let run = Calibration::new(500);
    assert_eq!(run.stage(), Stage::Polling(Limit::Open));
    assert_eq!(
        run.request(),
        Some(ControlFrame {
            pos: 0,
            pos_kp: 0,
            pos_kd: 0,
            vel: 83_886,
            cur: 328,
            mode: Mode::Vel,
            status: Status::Enable,
        })
    );
    assert_eq!(POLL_VEL, (10.0f64 * 8388.608).round() as i32);
    assert_eq!(ONE_AMP, (1.0f64 * 327.68).round() as i16);
    let mut run = filled(&[0; 100], 500);
    run.step(&telemetry(0, 0));
    assert_eq!(run.stage(), Stage::Reading(Limit::Open));
    assert_eq!(run.request(), Some(ControlFrame::default()));
    run.step(&telemetry(77, 0));
    assert_eq!(run.stage(), Stage::Polling(Limit::Close));
    assert_eq!(
        run.request(),
        Some(ControlFrame {
            pos: 0,
            pos_kp: 0,
            pos_kd: 0,
            vel: -83_886,
            cur: 328,
            mode: Mode::Vel,
            status: Status::Enable,
        })
    );
}

#[test]
fn calibration_converges_on_a_stalling_jaw() {
    let (mut gripper, _) = Gripper::new(1).unwrap();
    let mut bench = Bench::new();
    let mut run = Calibration::new(10_000);
    let mut reply: Option<RecvData> = None;
    let mut steps = 0;
    loop {
        steps += 1;
        assert!(steps < 1000);
        match gripper.calibration(&mut run, reply.as_ref()) {
            Ok(Some(x)) => {
                assert_eq!(x.id, 1);
                reply = Some(bench.exchange(&x.data));
            }
            Ok(None) => break,
            Err(CalibrationStallTimeout) => panic!("timed out"),
        }
    }
    // Each drive: 100 falling samples, 100 zeros until the window holds
    // zeros only, one more poll on which the stall is seen, then the read.
    assert_eq!(bench.polls, 402);
    assert_eq!(bench.reads, vec![1000 + 202, 1000 + 404]);
    assert_eq!(run.stage(), Stage::Done);
    assert_eq!(run.bounds(), Some((1202, 1404)));
    assert_eq!(gripper.open(), 1202);
    assert_eq!(gripper.close(), 1404);
    assert_eq!(run.request(), None);
}

#[test]
fn calibration_is_not_done_before_the_last_read() {
    let (mut gripper, _) = Gripper::new(1).unwrap();
    let mut run = Calibration::new(10_000);
    let mut reply: Option<RecvData> = None;
    // 101 polls and one read toward each stop.
    for _ in 0..204 {
        let x = gripper.calibration(&mut run, reply.as_ref()).unwrap().unwrap();
        let sent = RecvData::from_data(&x.data).unwrap();
        reply = Some(telemetry(if sent.vel == 0 { 555 } else { 1 }, 0));
        assert_eq!(run.bounds(), None);
        assert_eq!(gripper.open(), 0);
        assert_eq!(gripper.close(), 0);
    }
    assert_eq!(run.stage(), Stage::Reading(Limit::Close));
    assert_eq!(gripper.calibration(&mut run, reply.as_ref()), Ok(None));
    assert_eq!(gripper.open(), 555);
    assert_eq!(gripper.close(), 555);
}

#[test]
fn a_hundred_samples_are_collected_before_the_mean_is_judged() {
    let mut run = Calibration::new(500);
    for _ in 0..100 {
        assert_eq!(run.stage(), Stage::Polling(Limit::Open));
        run.step(&telemetry(0, 0));
    }
    assert_eq!(run.stage(), Stage::Polling(Limit::Open));
    // The reply that follows a full, stalled window ends the polling,
    // whatever velocity it carries.
    run.step(&telemetry(0, 1_000_000));
    assert_eq!(run.stage(), Stage::Reading(Limit::Open));
}

#[test]
fn stall_threshold_is_a_mean_below_a_hundred_thousandth() {
    // A sum of 8 wire units over a hundred samples is a mean of
    // 0.0000095..., a sum of 9 is 0.0000107...
    assert!(8.0f64 / 100.0 / 8388.608 < 1e-5);
    assert!(9.0f64 / 100.0 / 8388.608 > 1e-5);
    for (sum, stalls) in [(8, true), (9, false), (-8, true), (-9, false), (0, true), (1, true)] {
        let mut samples = [0i32; 100];
        samples[0] = sum;
        let mut run = filled(&samples, 500);
        run.step(&telemetry(0, 0));
        let expected = if stalls { Stage::Reading(Limit::Open) } else { Stage::Polling(Limit::Open) };
        assert_eq!(run.stage(), expected);
    }
}

#[test]
fn stall_is_judged_on_the_mean_not_on_each_sample() {
    let mut samples = [0i32; 100];
    for i in 0..50 {
        samples[2 * i] = 1_000_000;
        samples[2 * i + 1] = -1_000_000;
    }
    let mut run = filled(&samples, 500);
    run.step(&telemetry(0, 0));
    assert_eq!(run.stage(), Stage::Reading(Limit::Open));
}

#[test]
fn window_slides_while_the_jaw_moves() {
    // A hundred samples of 1000, then zeros: the window holds zeros only
    // after a hundred more replies.
    let mut run = filled(&[1000; 100], 500);
    for i in 0..100 {
        assert_eq!(run.stage(), Stage::Polling(Limit::Open), "reply {}", i);
        run.step(&telemetry(0, 0));
    }
    assert_eq!(run.stage(), Stage::Polling(Limit::Open));
    run.step(&telemetry(0, 0));
    assert_eq!(run.stage(), Stage::Reading(Limit::Open));
}

#[test]
fn stops_are_the_positions_of_the_reading_replies() {
    let mut run = filled(&[0; 100], 500);
    run.step(&telemetry(111, 0));
    assert_eq!(run.stage(), Stage::Reading(Limit::Open));
    run.step(&telemetry(-222, 0));
    assert_eq!(run.stage(), Stage::Polling(Limit::Close));
    for _ in 0..100 {
        run.step(&telemetry(333, 0));
    }
    run.step(&telemetry(444, 0));
    assert_eq!(run.stage(), Stage::Reading(Limit::Close));
    assert_eq!(run.bounds(), None);
    run.step(&telemetry(555, 0));
    assert_eq!(run.stage(), Stage::Done);
    assert_eq!(run.bounds(), Some((-222, 555)));
    // A run that is done takes no more replies.
    run.step(&telemetry(666, 0));
    assert_eq!(run.bounds(), Some((-222, 555)));
}

#[test]
fn a_run_without_polls_times_out_at_once() {
    let run = Calibration::new(0);
    assert_eq!(run.stage(), Stage::TimedOut);
    assert_eq!(run.request(), None);
    assert_eq!(run.bounds(), None);
    let (mut gripper, _) = Gripper::new(1).unwrap();
    let mut run = Calibration::new(0);
    assert_eq!(gripper.calibration(&mut run, None), Err(CalibrationStallTimeout));
}

#[test]
fn a_jaw_that_never_stalls_times_out() {
    let (mut gripper, _) = Gripper::new(1).unwrap();
    let mut run = Calibration::new(250);
    let mut reply: Option<RecvData> = None;
    let mut sent = 0;
    let outcome = loop {
        match gripper.calibration(&mut run, reply.as_ref()) {
            Ok(Some(_)) => {
                sent += 1;
                reply = Some(telemetry(9, 5000));
            }
            other => break other,
        }
    };
    assert_eq!(outcome, Err(CalibrationStallTimeout));
    assert_eq!(sent, 250);
    assert_eq!(run.stage(), Stage::TimedOut);
    assert_eq!(gripper.open(), 0);
    assert_eq!(gripper.close(), 0);
    // Timed out stays timed out.
    assert_eq!(gripper.calibration(&mut run, reply.as_ref()), Err(CalibrationStallTimeout));
}

#[test]
fn two_hundred_and_two_polls_are_just_enough() {
    for (max_polls, done) in [(202u32, true), (201, false), (101, false)] {
        let mut run = Calibration::new(max_polls);
        let mut polls = 0;
        while let Some(frame) = run.request() {
            if frame.vel != 0 {
                polls += 1;
            }
            run.step(&telemetry(1, 0));
        }
        assert_eq!(run.stage(), if done { Stage::Done } else { Stage::TimedOut });
        assert_eq!(polls, max_polls);
    }
}

#[test]
fn window_size_is_a_hundred() {
    assert_eq!(WINDOW, 100);
}
