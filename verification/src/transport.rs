//! One request, one reply: the exchange of frames with the motor.
//!
//! The caller owns the bus. An [`Exchange`] is the frame to write; the caller
//! writes it, performs one blocking read, and hands what it read to
//! [`Exchange::reply`]. There is one exchange in flight at a time.

use vstd::prelude::*;
use crate::codec::{
    data_wire, telemetry_of, ConfigFrame, ConfigTerm, ControlFrame, Data, Mode,
    ProtocolDecodeError, RecvData, Status,
};

verus! {

/// The largest standard (11-bit) bus identifier.
pub const MAX_STANDARD_ID: u16 = 0x7FF;

/// Why an exchange gave no telemetry.
#[derive(Clone, Copy, Debug, PartialEq, Eq, Structural)]
pub enum TransportError {
    /// The device id is no standard bus identifier.
    InvalidId(u16),
    /// The bus failed to send or to receive.
    Io,
    /// The frame that arrived is no CAN FD data frame.
    NotFd,
    /// The frame that arrived is no telemetry.
    Decode(ProtocolDecodeError),
}

/// What one blocking read on the bus gave.
#[derive(Debug, PartialEq, Eq)]
pub enum BusReply {
    /// A CAN FD data frame, with its payload.
    Fd(Vec<u8>),
    /// A frame of another kind: classic data, remote or error.
    Other,
    /// The send before the read, or the read itself, failed.
    Failed,
}

/// What an exchange gives for a reply.
pub open spec fn reply_of(reply: BusReply) -> Result<RecvData, TransportError> {
    match reply {
        BusReply::Fd(payload) => match telemetry_of(payload@) {
            Ok(t) => Ok(t),
            Err(e) => Err(TransportError::Decode(e)),
        },
        BusReply::Other => Err(TransportError::NotFd),
        BusReply::Failed => Err(TransportError::Io),
    }
}

/// A request on its way: one CAN FD frame with a standard identifier and no
/// flags, addressed to the motor.
#[derive(Clone, Copy, Debug, PartialEq, Eq)]
pub struct Exchange {
    /// The motor's bus identifier.
    pub id: u16,
    /// The frame's payload.
    pub data: [u8; 16],
}

impl Exchange {
    /// Ends the exchange with what the bus gave back.
    pub fn reply(&self, reply: &BusReply) -> (r: Result<RecvData, TransportError>)
        ensures
            r == reply_of(*reply),
    {
        match reply {
            BusReply::Fd(payload) => match RecvData::from_data(payload.as_slice()) {
                Ok(t) => Ok(t),
                Err(e) => Err(TransportError::Decode(e)),
            },
            BusReply::Other => Err(TransportError::NotFd),
            BusReply::Failed => Err(TransportError::Io),
        }
    }
}

/// Whether `x` carries `data` to the device `id`.
pub open spec fn carries(x: Exchange, id: u16, data: Data) -> bool {
    x.id == id && x.data@ == data_wire(data)
}

/// The motor's address on the bus.
#[derive(Clone, Copy, Debug, PartialEq, Eq)]
pub struct Motor {
    id: u16,
}

impl Motor {
    #[verifier::type_invariant]
    spec fn valid(self) -> bool {
        self.id <= MAX_STANDARD_ID
    }

    /// The device id.
    pub closed spec fn spec_id(&self) -> u16 {
        self.id
    }

    /// Addresses the motor with device id `id`. Fails where `id` is no
    /// standard bus identifier.
    pub fn connect(id: u16) -> (r: Result<Motor, TransportError>)
        ensures
            r is Ok <==> id <= MAX_STANDARD_ID,
            r matches Ok(m) ==> m.spec_id() == id,
            r matches Err(e) ==> e == TransportError::InvalidId(id),
    {
        if id <= MAX_STANDARD_ID {
            Ok(Motor { id })
        } else {
            Err(TransportError::InvalidId(id))
        }
    }

    /// The device id.
    #[verifier::when_used_as_spec(spec_id)]
    pub fn id(&self) -> (id: u16)
        ensures
            id == self.spec_id(),
            id <= MAX_STANDARD_ID,
    {
        proof {
            use_type_invariant(self);
        }
        self.id
    }

    /// Begins an exchange: the frame that carries `data` to the motor.
    pub fn write_read(&self, data: Data) -> (x: Exchange)
        ensures
            carries(x, self.spec_id(), data),
            x.id <= MAX_STANDARD_ID,
    {
        Exchange { id: self.id(), data: data.to_data() }
    }

    /// Begins the exchange that sets one gain.
    pub fn config(&self, term: ConfigTerm, value: u32) -> (x: Exchange)
        ensures
            carries(x, self.spec_id(), Data::Config(ConfigFrame { term, value })),
            x.id <= MAX_STANDARD_ID,
    {
        self.write_read(Data::Config(ConfigFrame { term, value }))
    }

    /// Begins the exchange that only reads telemetry: it carries the zeroed
    /// control frame.
    pub fn read_data(&self) -> (x: Exchange)
        ensures
            carries(
                x,
                self.spec_id(),
                Data::Control(
                    ControlFrame {
                        pos: 0,
                        pos_kp: 0,
                        pos_kd: 0,
                        vel: 0,
                        cur: 0,
                        mode: Mode::Cur,
                        status: Status::Disable,
                    },
                ),
            ),
            x.id <= MAX_STANDARD_ID,
    {
        self.write_read(Data::Control(ControlFrame::default()))
    }
}

} // verus!
