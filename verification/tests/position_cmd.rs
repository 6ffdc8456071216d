use gripper::position_cmd::{RawPosCmd, POSITION_COMMAND};

#[test]
fn position_command_is_built_with_its_command_byte() {
    let c = RawPosCmd::new(36000);
    assert_eq!(c, RawPosCmd { cmd: 0xA3, zeros: [0; 3], pos: 36000 });
    assert_eq!(POSITION_COMMAND, 0xA3);
}

#[test]
fn position_command_is_little_endian() {
    assert_eq!(RawPosCmd::new(36000).to_data(), [0xA3, 0, 0, 0, 0xA0, 0x8C, 0x00, 0x00]);
    assert_eq!(RawPosCmd::new(0).to_data(), [0xA3, 0, 0, 0, 0, 0, 0, 0]);
    assert_eq!(RawPosCmd::new(0x0102_0304).to_data(), [0xA3, 0, 0, 0, 4, 3, 2, 1]);
    assert_eq!(RawPosCmd::new(-1).to_data(), [0xA3, 0, 0, 0, 0xFF, 0xFF, 0xFF, 0xFF]);
    assert_eq!(RawPosCmd::new(i32::MIN).to_data(), [0xA3, 0, 0, 0, 0, 0, 0, 0x80]);
    assert_eq!(RawPosCmd::new(36000 * 9).to_data(), 324000i32.to_le_bytes().iter().fold(vec![0xA3, 0, 0, 0], |mut v, b| { v.push(*b); v }).as_slice());
}

#[test]
fn position_command_writes_the_bytes_it_holds() {
    let c = RawPosCmd { cmd: 0x88, zeros: [1, 2, 3], pos: 5 };
    assert_eq!(c.to_data(), [0x88, 1, 2, 3, 5, 0, 0, 0]);
}
