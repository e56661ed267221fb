//! Payload bodies: one struct per message body, each with an exact `encode`
//! and `decode`. Decoders reject a short payload and ignore trailing bytes,
//! which is what lets a newer minor append fields.
//!
//! The bodies project the core's neutral records field for field, so neither
//! side invents a default the core did not supply. Addresses cross as the
//! strings the core renders; secrets cross as
//! [`SecretBytes`](crate::secret::SecretBytes).
pub mod command;
pub mod error;
pub mod event;
pub mod fields;
pub mod group;
pub mod handshake;
pub mod layout_laws;
pub mod media;
pub mod open;
pub mod refusal_laws;
pub mod stats;

pub use command::{CommandRequest, MediaCommand, Urgency};
pub use error::ErrorBody;
pub use event::{
    AbiEvent, CodecSource, EventNotification, RtcpBlockDto, RtcpFeedbackDto, SilenceReason,
};
pub use group::{
    GroupCallUpdateDto, GroupDeviceDto, GroupFitsRequest, GroupFitsResponse, GroupParticipantDto,
    GroupRelayDto, GroupRelayEndpointDto,
};
pub use handshake::{HelloRequest, HelloResponse};
pub use media::{
    EncodedAudioOut, EncodedFrameDto, MediaFrame, VideoFrameDto, VideoIn, VideoInputDto, VideoOut,
};
pub use open::{
    AudioCodecWire, AudioFormatDto, AudioIo, BeginOpenRequest, CancelOpenRequest,
    CancelOpenResponse, CancelOutcome, CloseReason, CloseRequest, DirectPeerDto, Direction,
    GroupOpenSpec, OpenNotification, OpenParams, ReserveRequest, RtpProfile, VideoCaps,
};
pub use stats::{StatsData, StatsPush, StatsRequest};
