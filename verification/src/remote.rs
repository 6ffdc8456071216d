//! Messages from the remote peer.
//!
//! A text message is a command if it is exactly `Calibration` or `Disable`.
//! A binary message carries a grip fraction as a little-endian IEEE 754
//! binary32 number in its first four bytes; the number -1.0 stands for "no
//! new reading". The fraction is turned into Q15.16 by integer arithmetic on
//! the number's bit pattern.

use vstd::arithmetic::power2::{lemma2_to64, lemma_pow2_strictly_increases, pow2};
use vstd::prelude::*;
use crate::arith::clamp;
use crate::control::Control;
use crate::estimator::Sample;
use crate::wire::{le32_value, u32_from_le};

verus! {

/// The bit pattern of -1.0, which stands for "no new reading".
pub const SENTINEL: u32 = 0xBF80_0000;

/// What arrived from the remote.
#[derive(Debug, PartialEq, Eq)]
pub enum RemoteMessage {
    Text(String),
    Binary(Vec<u8>),
    /// The peer closes the session.
    Close,
    /// A message of any other kind.
    Other,
}

/// What a message means.
#[derive(Clone, Copy, Debug, PartialEq, Eq, Structural)]
pub enum RemoteEvent {
    /// A command for the control loop.
    Command(Control),
    /// A reading for the estimator.
    Sample(Sample),
    /// The session has ended.
    Closed,
    /// Nothing to do.
    Ignored,
}

/// Why a message was not decoded.
#[derive(Clone, Copy, Debug, PartialEq, Eq, Structural)]
pub enum RemoteDecodeError {
    /// A binary message of fewer than four bytes.
    Truncated,
}

/// The magnitude of a binary32 number times 65536, rounded toward zero.
/// With the exponent field `e` and the 24-bit significand `m`, the number's
/// magnitude is `m * 2^(e - 150)`. A magnitude of 32768 or more, infinity
/// included, counts as 2^31, which is more than any fraction holds. A
/// number that is no number counts as zero; so does one with exponent
/// field 0, which is less than 2^-126.
pub open spec fn magnitude(bits: u32) -> int {
    let e = bits / 0x80_0000 % 0x100;
    let m = bits % 0x80_0000 + 0x80_0000;
    if e == 255 {
        if bits % 0x80_0000 == 0 {
            0x8000_0000
        } else {
            0
        }
    } else if e >= 142 {
        0x8000_0000
    } else if e >= 134 {
        m * pow2((e - 134) as nat)
    } else if e >= 1 {
        m as int / pow2((134 - e) as nat) as int
    } else {
        0
    }
}

/// The Q15.16 fraction nearest to a binary32 number between it and zero,
/// and the nearest fraction there is where the number is out of range.
pub open spec fn fraction_of(bits: u32) -> int {
    if bits >= 0x8000_0000 {
        clamp(-magnitude(bits), i32::MIN as int, i32::MAX as int)
    } else {
        clamp(magnitude(bits), i32::MIN as int, i32::MAX as int)
    }
}

/// The reading that a binary32 bit pattern stands for.
pub open spec fn sample_of(bits: u32) -> Sample {
    if bits == SENTINEL {
        Sample::Repeat
    } else {
        Sample::Value(fraction_of(bits) as i32)
    }
}

/// What a message means. Text other than the two commands is ignored.
/// Bytes of a binary message after the fourth are not looked at.
pub open spec fn event_of(msg: RemoteMessage) -> Result<RemoteEvent, RemoteDecodeError> {
    match msg {
        RemoteMessage::Text(text) => Ok(
            if text@ == "Calibration"@ {
                RemoteEvent::Command(Control::Calibration)
            } else if text@ == "Disable"@ {
                RemoteEvent::Command(Control::Disable)
            } else {
                RemoteEvent::Ignored
            },
        ),
        RemoteMessage::Binary(buf) => if buf@.len() < 4 {
            Err(RemoteDecodeError::Truncated)
        } else {
            Ok(RemoteEvent::Sample(sample_of(le32_value(buf@, 0) as u32)))
        },
        RemoteMessage::Close => Ok(RemoteEvent::Closed),
        RemoteMessage::Other => Ok(RemoteEvent::Ignored),
    }
}

/// The magnitude of a binary32 number times 65536, rounded toward zero.
fn magnitude_of(bits: u32) -> (r: u64)
    ensures
        r == magnitude(bits),
        r <= 0x8000_0000,
{
    let e: u64 = (bits / 0x80_0000 % 0x100) as u64;
    let frac: u64 = (bits % 0x80_0000) as u64;
    let m: u64 = frac + 0x80_0000;
    proof {
        lemma2_to64();
    }
    if e == 255 {
        if frac == 0 {
            0x8000_0000
        } else {
            0
        }
    } else if e >= 142 {
        0x8000_0000
    } else if e >= 134 {
        let k: u64 = e - 134;
        proof {
            assert(pow2(k as nat) <= 128) by {
                if k < 7 {
                    lemma_pow2_strictly_increases(k as nat, 7);
                }
            }
            assert(m * pow2(k as nat) <= 0x100_0000 * 128) by (nonlinear_arith)
                requires
                    m <= 0x100_0000,
                    pow2(k as nat) <= 128,
            ;
            vstd::bits::lemma_u64_shl_is_mul(m, k);
        }
        m << k
    } else if e >= 110 {
        let k: u64 = 134 - e;
        proof {
            vstd::bits::lemma_u64_shr_is_div(m, k);
        }
        m >> k
    } else if e >= 1 {
        proof {
            let k = (134 - e) as nat;
            lemma_pow2_strictly_increases(24, k);
            vstd::arithmetic::div_mod::lemma_basic_div(m as int, pow2(k) as int);
        }
        0
    } else {
        0
    }
}

impl Sample {
    /// The reading that a binary32 bit pattern stands for.
    pub fn from_bits(bits: u32) -> (s: Sample)
        ensures
            s == sample_of(bits),
    {
        if bits == SENTINEL {
            return Sample::Repeat;
        }
        let mag = magnitude_of(bits);
        if bits >= 0x8000_0000 {
            Sample::Value((-(mag as i64)) as i32)
        } else if mag > i32::MAX as u64 {
            Sample::Value(i32::MAX)
        } else {
            Sample::Value(mag as i32)
        }
    }
}

/// Decodes one message.
pub fn decode(msg: &RemoteMessage) -> (r: Result<RemoteEvent, RemoteDecodeError>)
    ensures
        r == event_of(*msg),
{
    match msg {
        RemoteMessage::Text(text) => {
            if *text == "Calibration".to_owned() {
                Ok(RemoteEvent::Command(Control::Calibration))
            } else if *text == "Disable".to_owned() {
                Ok(RemoteEvent::Command(Control::Disable))
            } else {
                Ok(RemoteEvent::Ignored)
            }
        },
        RemoteMessage::Binary(buf) => {
            if buf.len() < 4 {
                Err(RemoteDecodeError::Truncated)
            } else {
                Ok(RemoteEvent::Sample(Sample::from_bits(u32_from_le(buf.as_slice(), 0))))
            }
        },
        RemoteMessage::Close => Ok(RemoteEvent::Closed),
        RemoteMessage::Other => Ok(RemoteEvent::Ignored),
    }
}

} // verus!
