//! Versioned binary protocol between a messaging core and a media engine.
//!
//! The two modules never share memory: no pointer crosses and no struct
//! layout is part of the protocol. What crosses is bytes — a 13-byte header
//! and a compact payload — encoded and decoded by hand in [`codec`].
//!
//! ```text
//! header: magic[4] | major u8 | minor u8 | opcode u8 | flags u16 LE | payload_len u32 LE
//! ```
//!
//! `major` equal is mandatory: a peer whose major differs fails the handshake
//! before any call exists (see [`negotiate`]). `minor` is additive-only: a
//! decoder rejects a truncated payload but ignores trailing bytes, so a newer
//! minor may append fields an older reader skips.

use vstd::prelude::*;

use crate::text::{decimal, push_decimal};

pub mod addon_crypto;
pub mod audio;
pub mod camel_serializer;
pub mod client_profile;
pub mod codec;
pub mod compression;
pub mod crypto;
pub mod crypto_laws;
pub mod device_props;
pub mod engine;
pub mod error_laws;
pub mod errors;
pub mod history_sync_admission;
pub mod image_utils;
pub mod js_crypto;
pub mod js_relay;
pub mod js_transport;
pub mod media_laws;
pub mod memory_profile;
pub mod messages;
pub mod mlow;
pub mod profile_laws;
pub mod protocol;
pub mod secret;
pub mod session;
pub mod settings_laws;
pub mod store;
pub mod text;
pub mod value_laws;
pub mod wire;
pub mod wire_laws;

pub use codec::{DecodeError, Reader, Writer};
pub use messages::{
    AbiEvent, AudioCodecWire, AudioFormatDto, AudioIo, BeginOpenRequest, CancelOpenRequest,
    CancelOpenResponse, CancelOutcome, CloseReason, CloseRequest, CodecSource, CommandRequest,
    DirectPeerDto, Direction, EncodedAudioOut, EncodedFrameDto, ErrorBody, EventNotification,
    GroupCallUpdateDto, GroupDeviceDto, GroupFitsRequest, GroupFitsResponse, GroupOpenSpec,
    GroupParticipantDto, GroupRelayDto, GroupRelayEndpointDto, HelloRequest, HelloResponse,
    MediaCommand, MediaFrame, OpenNotification, OpenParams, ReserveRequest, RtcpBlockDto,
    RtcpFeedbackDto, RtpProfile, SilenceReason, StatsData, StatsPush, StatsRequest, Urgency,
    VideoCaps, VideoFrameDto, VideoIn, VideoInputDto, VideoOut,
};
pub use protocol::{
    AbiErrorCode, Capabilities, Frame, Opcode, Role, FLAG_ERROR, FLAG_RESPONSE, HEADER_LEN, MAGIC,
};
pub use secret::SecretBytes;
pub use session::{Reservation, SessionError, SessionId, SessionTable};

verus! {

/// Wire major. Any peer whose major differs is incompatible, full stop.
pub const ABI_MAJOR: u8 = 1;

/// Wire minor. Additive fields only; decoders ignore trailing payload bytes.
pub const ABI_MINOR: u8 = 0;

/// The minor both sides agree to speak after a successful handshake.
#[derive(Debug, Clone, Copy, PartialEq, Eq, Structural)]
pub struct Agreed {
    /// `min(local_minor, peer_minor)`: the newer side speaks down.
    pub minor: u8,
}

/// Failure to agree on a wire version.
#[derive(Debug, Clone, Copy, PartialEq, Eq, Structural)]
pub enum VersionError {
    /// `peer_major != ABI_MAJOR`. Fails before any client exists.
    MajorMismatch {
        /// The major the peer speaks.
        peer_major: u8,
    },
}

impl VersionError {
    /// The rendered text.
    pub open spec fn text(self) -> Seq<char> {
        match self {
            VersionError::MajorMismatch { peer_major } =>
            "incompatible voip ABI major: peer speaks "@ + decimal(peer_major as nat)
                + ", this side speaks "@ + decimal(ABI_MAJOR as nat),
        }
    }

    /// Renders the error for a log or a caller.
    pub fn message(&self) -> (s: String)
        ensures
            s@ == self.text(),
    {
        match self {
            VersionError::MajorMismatch { peer_major } => {
                let mut s = "incompatible voip ABI major: peer speaks ".to_owned();
                push_decimal(&mut s, *peer_major as u64);
                s.push_str(", this side speaks ");
                push_decimal(&mut s, ABI_MAJOR as u64);
                s
            },
        }
    }
}

/// What two sides agree on: the lower of the two minors, where the majors are
/// the same.
pub open spec fn agreement(peer_major: u8, peer_minor: u8, local_minor: u8) -> Result<
    Agreed,
    VersionError,
> {
    if peer_major != ABI_MAJOR {
        Err(VersionError::MajorMismatch { peer_major })
    } else {
        Ok(
            Agreed {
                minor: if peer_minor < local_minor {
                    peer_minor
                } else {
                    local_minor
                },
            },
        )
    }
}

/// Agree on a wire version from the two headers' majors/minors.
///
/// The major must match exactly; the minor settles on the lower of the two,
/// whose reader both sides already satisfy by ignoring trailing bytes.
pub fn negotiate(peer_major: u8, peer_minor: u8, local_minor: u8) -> (res: Result<
    Agreed,
    VersionError,
>)
    ensures
        res == agreement(peer_major, peer_minor, local_minor),
        res is Ok <==> peer_major == 1,
        res matches Ok(agreed) ==> agreed.minor <= peer_minor && agreed.minor <= local_minor && (
        agreed.minor == peer_minor || agreed.minor == local_minor),
{
    if peer_major != ABI_MAJOR {
        return Err(VersionError::MajorMismatch { peer_major });
    }
    Ok(Agreed { minor: if peer_minor < local_minor { peer_minor } else { local_minor } })
}

/// Two sides of one major agree on the same minor whichever of them asks, and
/// neither is asked to speak above its own.
pub proof fn negotiation_is_symmetric(a_minor: u8, b_minor: u8)
    ensures
        agreement(ABI_MAJOR, a_minor, b_minor) == agreement(ABI_MAJOR, b_minor, a_minor),
        agreement(ABI_MAJOR, a_minor, b_minor) matches Ok(agreed) && agreed.minor <= a_minor
            && agreed.minor <= b_minor && (agreed.minor == a_minor || agreed.minor == b_minor),
{
}

/// Any other major is refused by name, whatever the minors; this one never is.
pub proof fn another_major_is_refused(peer_major: u8, peer_minor: u8, local_minor: u8)
    ensures
        agreement(peer_major, peer_minor, local_minor) is Ok <==> peer_major == 1,
        agreement(peer_major, peer_minor, local_minor) matches Err(
            VersionError::MajorMismatch { peer_major: named },
        ) ==> named == peer_major,
{
}

} // verus!
