//! The eight-byte position command of the simpler motor protocol that the
//! bench utility speaks. Its fields are little-endian.

use vstd::prelude::*;
use crate::wire::{i32_to_le, le32, wrapped, M32};

verus! {

/// The command byte of a position command.
pub const POSITION_COMMAND: u8 = 0xA3;

/// A position command.
#[derive(Clone, Copy, Debug, PartialEq, Eq)]
pub struct RawPosCmd {
    pub cmd: u8,
    pub zeros: [u8; 3],
    /// The target position, in the motor's units.
    pub pos: i32,
}

/// The bytes of a position command: the command byte, the three bytes
/// after it, and the position, least significant byte first.
pub open spec fn position_wire(c: RawPosCmd) -> Seq<u8> {
    seq![c.cmd] + c.zeros@ + le32(wrapped(c.pos as int, M32 as int))
}

impl RawPosCmd {
    /// The command that moves to `pos`.
    pub fn new(pos: i32) -> (c: RawPosCmd)
        ensures
            c.cmd == POSITION_COMMAND,
            c.zeros@ == seq![0u8, 0u8, 0u8],
            c.pos == pos,
    {
        let c = RawPosCmd { cmd: POSITION_COMMAND, zeros: [0, 0, 0], pos };
        assert(c.zeros@ =~= seq![0u8, 0u8, 0u8]);
        c
    }

    /// The command's eight bytes.
    pub fn to_data(&self) -> (data: [u8; 8])
        ensures
            data@ == position_wire(*self),
    {
        let p = i32_to_le(self.pos);
        let data: [u8; 8] = [
            self.cmd,
            self.zeros[0],
            self.zeros[1],
            self.zeros[2],
            p[0],
            p[1],
            p[2],
            p[3],
        ];
        assert(data@ =~= position_wire(*self));
        data
    }
}

} // verus!
