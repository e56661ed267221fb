//! The engine side: what each request does, what a call keeps, what leaves it.

use voip_bridge::engine::call::{
    engine_format, needs_opus_mlow_escape, pcm_bytes, pcm_samples, GroupControl, Intent, LiveCall,
    MailboxAnswer, VideoControl, VideoFeed,
};
use voip_bridge::engine::neutral::{
    MediaAudioCodec, MediaAudioFormat, MediaAudioIo, MediaCloseReason, MediaEncodedFrame,
    MediaEvent, MediaSetupError, MediaSilenceReason, OpenCtx, OpenError, VideoFrame,
};
use voip_bridge::engine::open::{open_steps, plan_open, step_refused, OpenStep};
use voip_bridge::engine::opus::{
    depacketize_opus_from_mlow, encoded_input_of, encoded_input_packet, packetize_opus_for_mlow,
    rewriting_result, OpusMlowError,
};
use voip_bridge::engine::project::{close_reason_to_wire, event_to_wire, stats_to_wire};
use voip_bridge::engine::push::{
    event_push, fan_event, stats_push, EventOut, MediaFan, StatsFan,
};
use voip_bridge::engine::relay::relay_endpoint;
use voip_bridge::engine::spec::{group_update_from_dto, spec_from_params};
use voip_bridge::engine::state::{
    stats_reply, zero_stats, Action, Engine, Routed, ENGINE_CAPABILITIES,
};
use voip_bridge::messages::stats::StatsPush;
use voip_bridge::{
    AbiErrorCode, AbiEvent, AudioCodecWire, AudioFormatDto, AudioIo, BeginOpenRequest,
    CancelOpenRequest, CancelOpenResponse, CancelOutcome, Capabilities, CloseReason, CloseRequest,
    CommandRequest, Direction, EncodedAudioOut, ErrorBody, EventNotification, Frame,
    GroupCallUpdateDto, GroupFitsRequest, GroupFitsResponse, GroupOpenSpec, GroupRelayDto,
    GroupRelayEndpointDto, HelloRequest,
    HelloResponse, MediaCommand, MediaFrame, Opcode, OpenNotification, OpenParams, ReserveRequest,
    Role, RtpProfile, SecretBytes, SessionId, SilenceReason, StatsRequest, Urgency, VideoIn,
    VideoInputDto, VideoOut, ABI_MAJOR,
};

use wacore::voip::engine::SequentialTxIds;
use wacore::voip::{stun, AudioConfig, CallConfig, CallEngine, Input, Output};

const S: SessionId = SessionId {
    handle: 3,
    generation: 7,
};

fn open_params() -> OpenParams {
    OpenParams {
        direction: Direction::Incoming,
        self_lid: "111111111111111:0@lid".to_owned(),
        peer_lid: "222222222222222:0@lid".to_owned(),
        ssrc: 0x5741_0001,
        audio_io: AudioIo::Pcm,
        audio_format: AudioFormatDto {
            codec: AudioCodecWire::Mlow,
            rtp_profile: RtpProfile::Mlow,
            signaling_rate: 16_000,
            sample_rate: 16_000,
            channels: 1,
            samples_per_frame: 960,
            rtp_clock_rate: 16_000,
            rtp_timestamp_step: 960,
            rtp_payload_type: 120,
        },
        relay_token: SecretBytes::new(vec![0xAB; 16]),
        auth_token: SecretBytes::new(vec![0xCD; 8]),
        call_key: SecretBytes::new((0u8..32).collect()),
        relay_host: "203.0.113.7".to_owned(),
        relay_port: 3478,
        integrity_key: SecretBytes::new(b"relay-key".to_vec()),
        warp_mi_tag_len: 4,
        enable_media: 1,
        enable_video: 0,
        enable_sframe: 0,
        muted: 0,
        video: 0,
        initial_codec: None,
        peer_orientations: Vec::new(),
        group: None,
    }
}

fn update(creator: &str) -> GroupCallUpdateDto {
    GroupCallUpdateDto {
        call_id: "g".to_owned(),
        call_creator: creator.to_owned(),
        group_jid: None,
        transaction_id: 9,
        media: "audio".to_owned(),
        connected_limit: 8,
        joinable: 1,
        av_upgradable: 0,
        rekey_requested: 0,
        participants: Vec::new(),
        relay: None,
    }
}

fn ctx(muted: bool) -> OpenCtx {
    OpenCtx {
        muted,
        initial_codec: None,
        peer_orientations: Vec::new(),
        epoch: None,
    }
}

fn live(has_group: bool) -> LiveCall {
    LiveCall::opened(
        S,
        "call".to_owned(),
        MediaAudioFormat::mlow_16khz_60ms(),
        false,
        has_group,
        &ctx(false),
    )
}

fn ask(engine: &mut Engine, opcode: Opcode, payload: Vec<u8>) -> (Frame, Routed) {
    let bytes = Frame::request(opcode, payload).encode();
    match engine.send_frame(&bytes) {
        Ok(answer) => answer,
        Err(e) => panic!("{e}"),
    }
}

fn replied(engine: &mut Engine, opcode: Opcode, payload: Vec<u8>) -> Frame {
    let (req, routed) = ask(engine, opcode, payload);
    let reply = routed.reply.expect("a reply");
    assert_eq!(reply.opcode, req.opcode);
    reply
}

fn refused(engine: &mut Engine, opcode: Opcode, payload: Vec<u8>) -> ErrorBody {
    let reply = replied(engine, opcode, payload);
    assert!(reply.is_error());
    ErrorBody::decode(&reply.payload).unwrap()
}

fn reserve(engine: &mut Engine, session: SessionId) -> Frame {
    let body = ReserveRequest {
        session,
        call_id: "call".to_owned(),
        direction: Direction::Outgoing,
    };
    replied(engine, Opcode::Reserve, body.encode())
}

fn begin(session: SessionId) -> Vec<u8> {
    BeginOpenRequest {
        session,
        params: open_params(),
    }
    .encode()
}

/// An engine with one call running.
fn running(has_group: bool) -> Engine {
    let mut engine = Engine::new();
    assert!(reserve(&mut engine, S).is_response());
    let (_, routed) = ask(&mut engine, Opcode::BeginOpen, begin(S));
    assert!(matches!(routed.action, Action::Open { session, .. } if session == S));
    assert!(engine.opened(S, Ok(live(has_group))).is_some());
    assert!(engine.is_live(3));
    engine
}

fn command(engine: &mut Engine, command: MediaCommand) -> (Frame, Routed) {
    let body = CommandRequest {
        session: S,
        command,
    };
    ask(engine, Opcode::Command, body.encode())
}

#[test]
fn the_handshake_runs_before_anything_exists() {
    let mut engine = Engine::new();
    assert_eq!(engine.agreed_minor(), None);
    assert_eq!(
        engine.init(256, 0),
        Err("voip ABI major out of range".to_owned())
    );
    assert_eq!(
        engine.init(1, 256),
        Err("voip ABI minor out of range".to_owned())
    );
    let e = engine.init(2, 0).err().unwrap();
    assert!(e.starts_with("voip ABI handshake refused: "), "{e}");
    assert_eq!(engine.agreed_minor(), None);
    let payload = engine.init(1, 5).unwrap();
    assert_eq!(
        HelloResponse::decode(&payload).unwrap().capabilities,
        ENGINE_CAPABILITIES
    );
    assert_eq!(engine.agreed_minor(), Some(0));
    assert_eq!(ENGINE_CAPABILITIES & Capabilities::RELAY_RECONNECT, 0);
}

#[test]
fn only_the_core_says_hello() {
    let mut engine = Engine::new();
    let hello = |role| {
        HelloRequest {
            role,
            capabilities: 0,
        }
        .encode()
    };
    let body = refused(&mut engine, Opcode::Hello, hello(Role::Voip));
    assert_eq!(body.code, AbiErrorCode::BadPayload);
    assert_eq!(body.detail.as_deref(), Some("HELLO role is not core"));
    let body = refused(&mut engine, Opcode::Hello, Vec::new());
    assert_eq!(body.detail.as_deref(), Some("HELLO misformed"));
    let mut raw = Frame::request(Opcode::Hello, hello(Role::Core)).encode();
    raw[4] = ABI_MAJOR + 1;
    let (_, routed) = engine.send_frame(&raw).ok().unwrap();
    let body = ErrorBody::decode(&routed.reply.unwrap().payload).unwrap();
    assert_eq!(body.code, AbiErrorCode::BadVersion);
    assert_eq!(engine.agreed_minor(), None);
    assert!(replied(&mut engine, Opcode::Hello, hello(Role::Core)).is_response());
    assert_eq!(engine.agreed_minor(), Some(0));
}

#[test]
fn bytes_that_are_no_frame_touch_nothing() {
    let mut engine = Engine::new();
    let e = engine.send_frame(b"junk").err().unwrap();
    assert!(e.starts_with("voip frame misframed: "), "{e}");
    let body = refused(&mut engine, Opcode::Event, Vec::new());
    assert_eq!(body.code, AbiErrorCode::BadPayload);
    assert_eq!(body.detail.as_deref(), Some("push opcode sent as request"));
}

#[test]
fn a_reserved_handle_stays_with_its_holder() {
    let mut engine = Engine::new();
    assert!(reserve(&mut engine, S).is_response());
    let again = reserve(
        &mut engine,
        SessionId {
            handle: 3,
            generation: 8,
        },
    );
    let body = ErrorBody::decode(&again.payload).unwrap();
    assert_eq!(body.code, AbiErrorCode::Internal);
    assert_eq!(
        body.detail.as_deref(),
        Some("session handle still reserved; close it first")
    );
}

#[test]
fn a_stale_or_unknown_session_is_refused_everywhere() {
    let mut engine = running(false);
    let stale = SessionId {
        handle: 3,
        generation: 6,
    };
    let unknown = SessionId {
        handle: 9,
        generation: 7,
    };
    for (session, code) in [
        (stale, AbiErrorCode::StaleGeneration),
        (unknown, AbiErrorCode::UnknownSession),
    ] {
        let requests = vec![
            (Opcode::BeginOpen, begin(session)),
            (Opcode::CancelOpen, CancelOpenRequest { session }.encode()),
            (
                Opcode::Command,
                CommandRequest {
                    session,
                    command: MediaCommand::AudioMute(1),
                }
                .encode(),
            ),
            (Opcode::Stats, StatsRequest { session }.encode()),
            (
                Opcode::GroupFits,
                GroupFitsRequest {
                    session,
                    update: update("1@s.whatsapp.net"),
                    is_call_link: 0,
                }
                .encode(),
            ),
            (
                Opcode::PcmIn,
                MediaFrame {
                    session,
                    seq: 0,
                    data: vec![1, 2],
                }
                .encode(),
            ),
            (
                Opcode::VideoIn,
                VideoIn {
                    session,
                    seq: 0,
                    input: VideoInputDto {
                        data: vec![1],
                        timestamp: None,
                        input_generation: None,
                    },
                }
                .encode(),
            ),
        ];
        for (opcode, payload) in requests {
            assert_eq!(refused(&mut engine, opcode, payload).code, code);
        }
    }
    // The call that runs is as it was: its microphone is open.
    let frame = MediaFrame {
        session: S,
        seq: 1,
        data: vec![1, 0],
    };
    let (_, routed) = ask(&mut engine, Opcode::PcmIn, frame.encode());
    assert!(matches!(routed.action, Action::Mic { samples, .. } if samples == [1]));
}

#[test]
fn a_second_open_is_busy() {
    let mut engine = Engine::new();
    reserve(&mut engine, S);
    assert!(replied(&mut engine, Opcode::BeginOpen, begin(S)).is_response());
    let body = refused(&mut engine, Opcode::BeginOpen, begin(S));
    assert_eq!(body.code, AbiErrorCode::Busy);
    engine.opened(S, Ok(live(false)));
    let body = refused(&mut engine, Opcode::BeginOpen, begin(S));
    assert_eq!(body.detail.as_deref(), Some("open already in flight"));
}

#[test]
fn an_open_reports_how_it_went() {
    let mut engine = Engine::new();
    reserve(&mut engine, S);
    ask(&mut engine, Opcode::BeginOpen, begin(S));
    let push = engine
        .opened(S, Err((AbiErrorCode::Transport, "no route".to_owned())))
        .unwrap();
    let frame = Frame::decode(&push).unwrap();
    assert_eq!(frame.opcode, Opcode::Event);
    assert_eq!(
        EventNotification::decode(&frame.payload).unwrap().event,
        AbiEvent::MediaSetupFailed(format!("{}: no route", AbiErrorCode::Transport.name()))
    );
    assert!(!engine.is_live(3));

    // It can be tried again.
    ask(&mut engine, Opcode::BeginOpen, begin(S));
    let push = engine.opened(S, Ok(live(false))).unwrap();
    let frame = Frame::decode(&push).unwrap();
    assert_eq!(frame.opcode, Opcode::Open);
    assert_eq!(OpenNotification::decode(&frame.payload).unwrap().session, S);
}

#[test]
fn a_cancelled_open_installs_nothing() {
    let mut engine = Engine::new();
    reserve(&mut engine, S);
    let cancel = CancelOpenRequest { session: S }.encode();
    let outcome = |f: Frame| CancelOpenResponse::decode(&f.payload).unwrap().outcome;
    let reply = replied(&mut engine, Opcode::CancelOpen, cancel.clone());
    assert_eq!(outcome(reply), CancelOutcome::Unknown);
    ask(&mut engine, Opcode::BeginOpen, begin(S));
    let reply = replied(&mut engine, Opcode::CancelOpen, cancel.clone());
    assert_eq!(outcome(reply), CancelOutcome::Aborted);
    assert_eq!(engine.opened(S, Ok(live(false))), None);
    assert!(!engine.is_live(3));
    ask(&mut engine, Opcode::BeginOpen, begin(S));
    engine.opened(S, Ok(live(false)));
    let reply = replied(&mut engine, Opcode::CancelOpen, cancel);
    assert_eq!(outcome(reply), CancelOutcome::AlreadyOpen);
}

#[test]
fn closing_twice_is_closing_once() {
    let mut engine = running(false);
    let close = CloseRequest {
        session: S,
        reason: CloseReason::LocalHangup,
        detail: None,
    }
    .encode();
    let (_, routed) = ask(&mut engine, Opcode::Close, close.clone());
    assert!(routed.reply.unwrap().is_response());
    assert!(matches!(routed.action, Action::Drop { session, call_id } if session == S && call_id == "call"));
    assert!(!engine.is_live(3));
    let (_, routed) = ask(&mut engine, Opcode::Close, close);
    assert!(routed.reply.unwrap().is_response());
    assert!(matches!(routed.action, Action::Nothing));
    // The handle is free again.
    assert!(reserve(&mut engine, S).is_response());
}

#[test]
fn mute_gates_the_microphone_only() {
    let mut engine = running(false);
    let pcm = MediaFrame {
        session: S,
        seq: 0,
        data: vec![0x34, 0x12, 0xff],
    }
    .encode();
    let (_, routed) = command(&mut engine, MediaCommand::AudioMute(1));
    assert!(routed.reply.unwrap().is_response());
    let (_, routed) = ask(&mut engine, Opcode::PcmIn, pcm.clone());
    assert!(routed.reply.unwrap().is_response());
    assert!(matches!(routed.action, Action::Nothing));
    let (_, routed) = ask(&mut engine, Opcode::EncodedAudioIn, pcm.clone());
    assert!(matches!(routed.action, Action::Encoded { packet, .. } if packet == [0x34, 0x12, 0xff]));
    command(&mut engine, MediaCommand::AudioMute(0));
    let (_, routed) = ask(&mut engine, Opcode::PcmIn, pcm);
    assert!(matches!(routed.action, Action::Mic { samples, .. } if samples == [0x1234]));
}

#[test]
fn group_commands_need_a_group() {
    let mut alone = running(false);
    let (_, routed) = command(&mut alone, MediaCommand::GroupSendReaction("x".to_owned()));
    let body = ErrorBody::decode(&routed.reply.unwrap().payload).unwrap();
    assert_eq!(body.code, AbiErrorCode::Busy);
    assert_eq!(body.detail.as_deref(), Some("command refused"));
    let fits = GroupFitsRequest {
        session: S,
        update: update("1@s.whatsapp.net"),
        is_call_link: 0,
    }
    .encode();
    let reply = replied(&mut alone, Opcode::GroupFits, fits.clone());
    assert_eq!(GroupFitsResponse::decode(&reply.payload).unwrap().fits, 0);

    let mut group = running(true);
    let reply = replied(&mut group, Opcode::GroupFits, fits);
    assert_eq!(GroupFitsResponse::decode(&reply.payload).unwrap().fits, 1);
    let (_, routed) = command(&mut group, MediaCommand::GroupSendReaction("x".to_owned()));
    assert!(routed.reply.is_none());
    assert!(matches!(
        routed.action,
        Action::Send { intent: Intent::Group(GroupControl::Reaction(r)), .. } if r == "x"
    ));
    // A snapshot whose addresses do not parse is refused.
    let (_, routed) = command(&mut group, MediaCommand::GroupApplyUpdate(update("not a jid@")));
    assert!(routed.reply.unwrap().is_error());
}

#[test]
fn a_full_rekey_mailbox_is_offered_the_next() {
    let mut engine = running(false);
    let rekey = || MediaCommand::RekeyRecv {
        answering_lid: "a@lid".to_owned(),
        audio_codec: Some(AudioCodecWire::Opus),
    };
    let offered = |routed: Routed| match routed.action {
        Action::Send { intent, .. } => intent,
        _ => panic!("the mailbox is there"),
    };
    let (req, routed) = command(&mut engine, rekey());
    let intent = offered(routed);
    assert!(engine.sent(&req, S, &intent, MailboxAnswer::Taken).is_response());
    let (req, routed) = command(&mut engine, rekey());
    let intent = offered(routed);
    assert!(engine.sent(&req, S, &intent, MailboxAnswer::Full).is_error());
    // Backpressure: the next one is offered, and taken.
    let (req, routed) = command(&mut engine, rekey());
    let intent = offered(routed);
    assert!(engine.sent(&req, S, &intent, MailboxAnswer::Taken).is_response());
    // A mailbox that nobody reads is not tried again.
    assert!(engine.sent(&req, S, &intent, MailboxAnswer::Gone).is_error());
    let (_, routed) = command(&mut engine, rekey());
    assert!(routed.reply.unwrap().is_error());
}

#[test]
fn a_request_of_another_major_is_refused_whatever_it_asks() {
    let mut engine = Engine::new();
    assert!(reserve(&mut engine, S).is_response());
    for (opcode, payload, detail) in [
        (Opcode::Stats, StatsRequest { session: S }.encode(), "request speaks another major"),
        (Opcode::Close, Vec::new(), "request speaks another major"),
        (Opcode::Hello, Vec::new(), "HELLO speaks another major"),
    ] {
        let mut frame = Frame::request(opcode, payload);
        frame.major = ABI_MAJOR + 1;
        let (_, routed) = engine.send_frame(&frame.encode()).unwrap();
        let reply = routed.reply.unwrap();
        assert!(reply.is_error());
        let body = ErrorBody::decode(&reply.payload).unwrap();
        assert_eq!(body.code, AbiErrorCode::BadVersion);
        assert_eq!(body.detail.as_deref(), Some(detail));
    }
    // The session is where it was.
    let reply = replied(&mut engine, Opcode::Stats, StatsRequest { session: S }.encode());
    assert!(reply.is_response());
}

#[test]
fn video_commands_reach_their_mailbox() {
    let mut engine = running(false);
    let mut sent = |c: MediaCommand| match command(&mut engine, c).1.action {
        Action::Send {
            intent: Intent::Video(v),
            ..
        } => Some(v),
        _ => None,
    };
    assert_eq!(sent(MediaCommand::VideoEnable), Some(VideoControl::Enable));
    assert_eq!(
        sent(MediaCommand::VideoSetTimestampStride(3)),
        Some(VideoControl::SetTimestampStride(3))
    );
    assert!(matches!(
        sent(MediaCommand::VideoRequestPeerKeyframe(Urgency::Immediate)),
        Some(VideoControl::RequestPeerKeyframe(_))
    ));
    assert_eq!(
        sent(MediaCommand::VideoSetOrientation {
            participant: None,
            orientation: 2
        }),
        Some(VideoControl::SetOrientation(2))
    );
    assert_eq!(
        sent(MediaCommand::VideoSetOrientation {
            participant: Some("no address at all@".to_owned()),
            orientation: 2
        }),
        None
    );
}

#[test]
fn counters_are_zero_until_a_call_runs() {
    let mut engine = Engine::new();
    reserve(&mut engine, S);
    let poll = StatsRequest { session: S }.encode();
    let reply = replied(&mut engine, Opcode::Stats, poll.clone());
    assert_eq!(reply.payload, zero_stats().encode());
    let mut engine = running(false);
    let (req, routed) = ask(&mut engine, Opcode::Stats, poll);
    assert!(routed.reply.is_none());
    assert!(matches!(routed.action, Action::ReadStats { session } if session == S));
    let mut stats = zero_stats();
    stats.rtp_received = 7;
    let reply = stats_reply(&req, &stats);
    assert!(reply.is_response());
    assert_eq!(reply.payload, stats.encode());
}

#[test]
fn a_unit_with_its_stamp_is_timed() {
    let call = live(false);
    let feed = |timestamp, input_generation| {
        call.video_in(&VideoInputDto {
            data: vec![1],
            timestamp,
            input_generation,
        })
    };
    assert_eq!(
        feed(Some(9), Some(2)),
        VideoFeed::Timed {
            data: vec![1],
            timestamp: 9,
            generation: 2
        }
    );
    assert_eq!(feed(Some(9), None), VideoFeed::Untimed(vec![1]));
    assert_eq!(feed(None, Some(2)), VideoFeed::Untimed(vec![1]));
}

#[test]
fn rotations_replay_in_order_without_strangers() {
    let controls = live(false).replay_orientations(&vec![
        (None, 1),
        (Some("@@".to_owned()), 2),
        (Some("5@s.whatsapp.net".to_owned()), 3),
    ]);
    assert_eq!(controls.len(), 2);
    assert_eq!(controls[0], VideoControl::SetOrientation(1));
    assert!(matches!(
        &controls[1],
        VideoControl::SetParticipantOrientation { participant, orientation: 3 }
            if participant.user == "5"
    ));
}

#[test]
fn samples_cross_as_little_endian_pairs() {
    assert_eq!(pcm_samples(&[0x34, 0x12, 0xff, 0xff, 9]), [0x1234, -1]);
    let samples = vec![0, 1, -1, i16::MAX, i16::MIN];
    assert_eq!(pcm_samples(&pcm_bytes(&samples)), samples);
    assert_eq!(pcm_bytes(&vec![-2]), [0xfe, 0xff]);
}

#[test]
fn encoded_input_rewrites_only_opus_mlow() {
    let celt = [0xbb, 0x03, 1, 2, 3, 4, 5, 6];
    let escaped = encoded_input_packet(&celt, true).expect("CELT packet");
    assert_eq!(escaped[0], 0xdd);
    assert_eq!(&escaped[1..], &celt[1..]);
    assert_eq!(encoded_input_packet(&celt, false).unwrap(), celt);
    assert_eq!(encoded_input_packet(&[0xbb, 0x03], true).unwrap(), [0x90]);
    assert!(encoded_input_packet(&[0x08, 1, 2], true).is_none());
}

#[test]
fn an_escape_is_undone() {
    let celt = [0xbb, 0x03, 1, 2, 3, 4, 5, 6];
    let escaped = packetize_opus_for_mlow(&celt).unwrap();
    assert_eq!(depacketize_opus_from_mlow(&escaped).unwrap(), celt);
    assert!(packetize_opus_for_mlow(&[]).is_err());
    assert!(depacketize_opus_from_mlow(&[0x10, 1]).is_err());
    assert_eq!(encoded_input_of(Err(OpusMlowError::Empty)), None);
    assert_eq!(rewriting_result(Ok(vec![1])), Ok(vec![1]));
    assert!(rewriting_result(Err(OpusMlowError::NotCelt(3)))
        .err()
        .unwrap()
        .contains("Opus config 3 is not CELT-only"));
}

#[test]
fn open_params_become_a_spec() {
    let (spec, ctx) = spec_from_params(open_params(), "CID", 7).expect("a spec");
    assert_eq!(spec.key.call_id, "CID");
    assert_eq!(spec.key.generation, 7);
    assert_eq!(spec.relay_ip, "203.0.113.7");
    assert_eq!(spec.relay_port, 3478);
    assert_eq!(spec.audio.io, MediaAudioIo::Pcm);
    assert_eq!(spec.audio.format, MediaAudioFormat::mlow_16khz_60ms());
    assert!(spec.enable_media && !spec.enable_video && !spec.enable_sframe);
    assert!(spec.group.is_none());
    assert!(!ctx.muted && ctx.epoch.is_none() && ctx.initial_codec.is_none());
    assert_eq!(spec.call_key, (0u8..32).collect::<Vec<u8>>());
}

fn drain_transmits(engine: &mut CallEngine) -> Vec<Vec<u8>> {
    let mut out = Vec::new();
    loop {
        match engine.poll_output() {
            Output::Transmit(packet) => out.push(packet.to_vec()),
            Output::Timeout(_) => break,
            _ => {}
        }
    }
    out
}

#[test]
fn engine_from_open_params_allocates_and_answers_binding() {
    let (spec, _ctx) =
        spec_from_params(open_params(), "CID", 7).expect("open params become a spec");
    assert_eq!(spec.key.call_id, "CID");
    assert_eq!(spec.key.generation, 7);
    assert_eq!(spec.audio.io, MediaAudioIo::Pcm);
    assert_eq!(spec.audio.format, MediaAudioFormat::mlow_16khz_60ms());
    let config = CallConfig {
        call_id: spec.key.call_id,
        direction: wacore::voip::session::CallDirection::Incoming,
        self_lid: spec.self_lid,
        peer_lid: spec.peer_lid,
        call_key: spec.call_key,
        ssrc: spec.ssrc,
        audio: AudioConfig::MLOW_PCM,
        relay_token: spec.relay_token,
        relay_ip: spec.relay_ip,
        relay_port: spec.relay_port,
        integrity_key: spec.integrity_key,
        warp_mi_tag_len: spec.warp_mi_tag_len as usize,
        enable_media: spec.enable_media,
        enable_video: spec.enable_video,
        enable_sframe: spec.enable_sframe,
    };
    let mut engine =
        CallEngine::new(config, Box::new(SequentialTxIds::new())).expect("engine builds");

    // `start` queues the STUN allocate: the first drain must carry one.
    engine.start(0, 1_700_000_000_000);
    let first = drain_transmits(&mut engine);
    assert!(
        first
            .iter()
            .any(|b| stun::stun_message_type(b) == Some(stun::MSG_ALLOCATE_REQUEST)),
        "start must emit the STUN allocate"
    );

    // A relay binding request fed back in is answered with a binding success.
    let binding =
        stun::encode_stun_request(stun::MSG_BINDING_REQUEST, &[9u8; 12], &[], None, false);
    engine.handle_input(1, Input::RelayPacket(&binding));
    let second = drain_transmits(&mut engine);
    assert!(
        second
            .iter()
            .any(|b| stun::stun_message_type(b) == Some(stun::MSG_BINDING_SUCCESS)),
        "a binding request must be answered with a binding success"
    );
}

#[test]
fn params_that_make_no_session_are_refused() {
    let mut params = open_params();
    params.relay_port = 65536;
    assert_eq!(
        spec_from_params(params.clone(), "CID", 7).err().unwrap(),
        MediaSetupError::BadEndpoint
    );
    // A group that does not map is refused before the port is looked at.
    params.group = Some(GroupOpenSpec {
        call_creator: "bad address@".to_owned(),
        self_jid: "1@lid".to_owned(),
        initial_update: update("1@s.whatsapp.net"),
        direct_peer: None,
        epoch_transaction_id: None,
        epoch: None,
    });
    match spec_from_params(params.clone(), "CID", 7).err().unwrap() {
        MediaSetupError::Backend(e) => {
            assert!(e.starts_with("group JID this bridge predates: "), "{e}")
        }
        other => panic!("got {other:?}"),
    }
    let e = plan_open(S, "CID", params).err().unwrap();
    assert_eq!(e.code(), AbiErrorCode::BadPayload);
    assert_eq!(OpenError::Endpoint.code(), AbiErrorCode::Transport);
    assert_eq!(
        OpenError::Relay("r".to_owned()).code(),
        AbiErrorCode::Transport
    );
    assert_eq!(
        OpenError::Engine("e".to_owned()).code(),
        AbiErrorCode::Internal
    );
    let e = group_update_from_dto(&update("also bad@")).err().unwrap();
    assert!(e.starts_with("group JID refused: "), "{e}");
}

#[test]
fn a_relay_is_joined_with_its_token_and_key() {
    let mut params = open_params();
    params.auth_token = SecretBytes::new(b"token".to_vec());
    params.integrity_key = SecretBytes::new(b"the key".to_vec());
    let (spec, _) = spec_from_params(params, "CID", 7).unwrap();
    let endpoint = relay_endpoint(&spec);
    assert_eq!(endpoint.address, spec.relay_ip);
    assert_eq!(endpoint.port, 3478);
    assert_eq!(endpoint.ice_ufrag, "dG9rZW4=");
    assert_eq!(endpoint.ice_pwd, "the key");
    let mut params = open_params();
    params.auth_token = SecretBytes::new(Vec::new());
    params.integrity_key = SecretBytes::new(vec![b'a', 0xff]);
    let (spec, _) = spec_from_params(params, "CID", 7).unwrap();
    assert_eq!(relay_endpoint(&spec).ice_ufrag, "");
    assert_eq!(relay_endpoint(&spec).ice_pwd, "a\u{fffd}");
}

#[test]
fn an_endpoint_port_is_kept_or_refused() {
    let endpoint = |port: Option<u32>| GroupRelayEndpointDto {
        relay_id: 1,
        token_id: 2,
        auth_token_id: 3,
        relay_name: "r".to_owned(),
        domain_name: None,
        rtt_ms: None,
        is_fna: 0,
        ipv4: None,
        port,
    };
    let with_ports = |ports: &[Option<u32>]| GroupCallUpdateDto {
        relay: Some(GroupRelayDto {
            transaction_id: None,
            self_pid: None,
            uuid: "u".to_owned(),
            participant_uuid: "p".to_owned(),
            attribute_padding: 0,
            warp_mi_tag_len: None,
            endpoints: ports.iter().map(|p| endpoint(*p)).collect(),
        }),
        ..update("1@s.whatsapp.net")
    };
    let kept = group_update_from_dto(&with_ports(&[None, Some(65535), Some(3478)])).unwrap();
    let ports: Vec<Option<u16>> = kept.relay.unwrap().endpoints.iter().map(|e| e.port).collect();
    assert_eq!(ports, [None, Some(65535), Some(3478)]);
    assert_eq!(
        group_update_from_dto(&with_ports(&[Some(3478), Some(70000)])).err().unwrap(),
        "group relay endpoint port refused: 70000"
    );
}

#[test]
fn an_open_applies_its_epoch_and_then_its_codec() {
    let mut params = open_params();
    params.muted = 1;
    params.initial_codec = Some(AudioCodecWire::Opus);
    params.group = Some(GroupOpenSpec {
        call_creator: "1@s.whatsapp.net".to_owned(),
        self_jid: "2:1@lid".to_owned(),
        initial_update: update("1@s.whatsapp.net"),
        direct_peer: None,
        epoch_transaction_id: Some(11),
        epoch: Some(SecretBytes::new(vec![5; 24])),
    });
    let plan = plan_open(S, "CID", params).ok().unwrap();
    assert!(plan.ctx.muted);
    assert!(!plan.opus_mlow_escape);
    assert_eq!(plan.spec.group.unwrap().self_jid.device, 1);
    let steps = open_steps(&plan.ctx);
    assert!(
        steps
            == vec![
                OpenStep::ApplyEpoch {
                    transaction_id: 11,
                    epoch: vec![5; 24]
                },
                OpenStep::SwitchCodec(MediaAudioCodec::Opus),
            ]
    );
    assert_eq!(
        step_refused(&steps[0], "why"),
        OpenError::Engine("pre-attach epoch refused: why".to_owned())
    );
    assert_eq!(
        step_refused(&steps[1], "why"),
        OpenError::Engine("initial codec refused: why".to_owned())
    );
    assert!(open_steps(&ctx(false)).is_empty());
}

#[test]
fn only_opus_in_the_mlow_profile_is_escaped() {
    assert!(needs_opus_mlow_escape(MediaAudioFormat::opus_mlow_16khz_60ms()));
    assert!(!needs_opus_mlow_escape(MediaAudioFormat::mlow_16khz_60ms()));
    assert_eq!(engine_format(None), MediaAudioFormat::mlow_16khz_60ms());
    let opus = MediaAudioFormat::opus_mlow_16khz_60ms();
    assert_eq!(engine_format(Some(opus)), opus);
}

#[test]
fn addresses_parse_as_the_core_parses_them() {
    let jid = group_update_from_dto(&update("123:4@lid")).unwrap().call_creator;
    let core: wacore_binary::Jid = "123:4@lid".parse().unwrap();
    assert_eq!(jid.user, core.user.as_str());
    assert_eq!(jid.server, core.server.as_str());
    assert_eq!(jid.device, core.device);
    assert_eq!((jid.user.as_str(), jid.server.as_str(), jid.device), ("123", "lid", 4));
}

#[test]
fn a_close_is_not_an_event_of_its_own() {
    assert_eq!(event_to_wire(&MediaEvent::GroupUpdated), None);
    assert_eq!(event_to_wire(&MediaEvent::Unlisted), None);
    assert_eq!(
        event_to_wire(&MediaEvent::RelayAllocateFailed(401)),
        Some(AbiEvent::RelayAllocateFailed(401))
    );
    assert_eq!(
        event_to_wire(&MediaEvent::AudioSilent {
            silent_for_ms: 3,
            rtp_received: 2,
            frames_produced: 1,
            dominant_reason: MediaSilenceReason::CodecFlapping,
        }),
        Some(AbiEvent::AudioSilent {
            silent_for_ms: 3,
            rtp_received: 2,
            frames_produced: 1,
            dominant_reason: SilenceReason::CodecFlapping,
        })
    );
    match fan_event(S, &MediaEvent::Closed(MediaCloseReason::SendFailed("x".to_owned()))) {
        EventOut::Ended(bytes) => {
            let frame = Frame::decode(&bytes).unwrap();
            assert_eq!(frame.opcode, Opcode::MediaEnded);
            let ended = CloseRequest::decode(&frame.payload).unwrap();
            assert_eq!(ended.detail.as_deref(), Some("x"));
        }
        other => panic!("got {other:?}"),
    }
    let (reason, detail) = close_reason_to_wire(&MediaCloseReason::Local);
    assert_eq!((reason, detail), (CloseReason::LocalHangup, None));
}

#[test]
fn pushes_are_frames_of_their_own() {
    let bytes = event_push(S, AbiEvent::RelayAllocated);
    let frame = Frame::decode(&bytes).unwrap();
    assert_eq!(frame.opcode, Opcode::Event);
    assert!(!frame.is_response());
    let mut stats = zero_stats();
    stats.codec_switches = 4;
    let frame = Frame::decode(&stats_push(S, stats)).unwrap();
    assert_eq!(frame.opcode, Opcode::Stats);
    let push = StatsPush::decode(&frame.payload).unwrap();
    assert_eq!(push.session, S);
    assert_eq!(push.stats.codec_switches, 4);
}

#[test]
fn media_is_numbered_across_its_kinds() {
    let mut fan = MediaFan::new(S);
    let pcm = Frame::decode(&fan.pcm(&vec![1, -1])).unwrap();
    assert_eq!(pcm.opcode, Opcode::PcmOut);
    let pcm = MediaFrame::decode(&pcm.payload).unwrap();
    assert_eq!(pcm.data, [1, 0, 0xff, 0xff]);
    let encoded = fan.encoded(&MediaEncodedFrame {
        codec: MediaAudioCodec::Opus,
        data: vec![9],
        payload_type: 111,
        sequence_number: 77,
        timestamp: 5,
        marker: true,
        sender: None,
        device: Some("d".to_owned()),
    });
    let encoded = Frame::decode(&encoded).unwrap();
    assert_eq!(encoded.opcode, Opcode::EncodedAudioOut);
    let encoded = EncodedAudioOut::decode(&encoded.payload).unwrap();
    assert_eq!(encoded.seq, pcm.seq + 1);
    assert_eq!(encoded.frame.marker, 1);
    let video = fan.video(&VideoFrame {
        data: vec![8],
        keyframe: true,
        orientation: 1,
        sender: None,
        device: None,
        pid: Some(2),
    });
    let video = Frame::decode(&video).unwrap();
    assert_eq!(video.opcode, Opcode::VideoOut);
    let video = VideoOut::decode(&video.payload).unwrap();
    assert_eq!(video.seq, pcm.seq + 2);
    assert_eq!(video.frame.keyframe, 1);
}

#[test]
fn counters_are_pushed_when_they_moved() {
    let zero = voip_bridge::engine::neutral::MediaStats {
        rtp_received: 0,
        rtp_payload_type_unexpected: 0,
        srtp_unprotect_failed: 0,
        sframe_decrypt_failed: 0,
        audio_frames_decoded: 0,
        audio_frames_delivered: 0,
        audio_frames_concealed: 0,
        mlow_off_point_dropped: 0,
        mlow_inactive_or_sid: 0,
        foreign_frames_decoded: 0,
        audio_frames_without_decoder: 0,
        outbound_frames_without_encoder: 0,
        playout_trimmed_samples: 0,
        inbound_pipe_dropped: 0,
        audio_sink_dropped: 0,
        video_sink_dropped: 0,
        peer_keyframe_requests: 0,
        relay_packet_unclassified: 0,
        forwarding_envelope_rejected: 0,
        codec_switches: 0,
    };
    let mut fan = StatsFan { id: S, last: zero };
    assert_eq!(fan.poll(zero), None);
    let mut moved = zero;
    moved.rtp_received = 7;
    let push = fan.poll(moved).expect("stats pushed");
    let push = StatsPush::decode(&Frame::decode(&push).unwrap().payload).unwrap();
    assert_eq!(push.stats.rtp_received, 7);
    assert_eq!(push.stats, stats_to_wire(&moved));
    assert_eq!(fan.poll(moved), None);
}
