//! How an inbound MLOW packet is taken apart: bare, or with redundancy.
//!
//! The decoder itself works on floating-point samples and lives with the
//! host's glue.

use vstd::prelude::*;

use crate::errors::{invalid_arg, BridgeError, BridgeErrorView};

verus! {

/// The RTP payload type of MLOW with redundancy.
pub const RTP_PAYLOAD_TYPE_MLOW_RED: u8 = 121;

/// What the host gave as a payload type.
#[derive(Debug, Clone, PartialEq, Eq)]
pub enum HostPayloadType {
    /// Nothing.
    Absent,
    /// A number.
    Number {
        /// Its value, if it is whole.
        whole: Option<i64>,
        /// Its text.
        rendered: String,
    },
    /// Something else.
    NotANumber,
}

/// The payload type that the host meant, or the complaint.
pub open spec fn payload_type_of(value: HostPayloadType) -> Result<Option<u8>, BridgeErrorView> {
    match value {
        HostPayloadType::Absent => Ok(None),
        HostPayloadType::Number { whole: Some(n), .. } if 0 <= n <= 255 => Ok(Some(n as u8)),
        HostPayloadType::Number { rendered, .. } => Err(
            BridgeErrorView::InvalidArgument {
                field: "payloadType"@,
                reason: "expected RTP payload type integer between 0 and 255, got "@ + rendered@,
            },
        ),
        HostPayloadType::NotANumber => Err(
            BridgeErrorView::InvalidArgument {
                field: "payloadType"@,
                reason: "expected RTP payload type number"@,
            },
        ),
    }
}

/// Reads the payload type that the host gave.
pub fn payload_type(value: &HostPayloadType) -> (res: Result<Option<u8>, BridgeError>)
    ensures
        match (payload_type_of(*value), res) {
            (Ok(t), Ok(u)) => t == u,
            (Err(e), Err(f)) => e == f@,
            _ => false,
        },
{
    match value {
        HostPayloadType::Absent => Ok(None),
        HostPayloadType::Number { whole, rendered } => {
            match whole {
                Some(n) => {
                    if 0 <= *n && *n <= 255 {
                        return Ok(Some(*n as u8));
                    }
                },
                None => {},
            }
            let mut reason =
                "expected RTP payload type integer between 0 and 255, got ".to_owned();
            reason.push_str(rendered.as_str());
            Err(invalid_arg("payloadType", reason))
        },
        HostPayloadType::NotANumber => Err(
            invalid_arg("payloadType", "expected RTP payload type number".to_owned()),
        ),
    }
}

/// The redundancy that a packet is decoded with: that of its own payload type
/// alone, so nothing of an earlier packet sticks.
pub fn redundancy(payload_type: Option<u8>) -> (n: i32)
    ensures
        n == if payload_type == Some(RTP_PAYLOAD_TYPE_MLOW_RED) {
            1i32
        } else {
            0i32
        },
{
    match payload_type {
        Some(t) => if t == RTP_PAYLOAD_TYPE_MLOW_RED {
            1
        } else {
            0
        },
        None => 0,
    }
}

} // verus!
