//! Fields, frames, sessions and texts, byte by byte.

use voip_bridge::text::{decimal_string, parse_u32, to_hex};
use voip_bridge::{
    negotiate, AbiErrorCode, AbiEvent, Capabilities, CloseRequest, CommandRequest, DecodeError,
    Direction, ErrorBody, Frame, GroupFitsResponse, HelloRequest, HelloResponse, MediaCommand,
    MediaFrame, Opcode, Reader, ReserveRequest, Role, SecretBytes, SessionError, SessionId,
    SessionTable, VersionError, Writer, ABI_MAJOR, ABI_MINOR, FLAG_ERROR, FLAG_RESPONSE,
    HEADER_LEN, MAGIC,
};

const S: SessionId = SessionId {
    handle: 0x0102_0304,
    generation: 5,
};

#[test]
fn fields_read_back_in_order() {
    let mut w = Writer::new();
    w.u8(7);
    w.u32_le(0x0102_0304);
    w.u64_le(0x0102_0304_0506_0708);
    w.i32_le(-3);
    w.bytes_raw(&[9, 8]);
    w.utf8("é");
    w.option(Some(&[1]));
    w.option(None);
    w.option_str(Some("x"));
    w.option_str(None);
    let bytes = w.finish();
    assert_eq!(bytes[..5], [7, 4, 3, 2, 1]);
    let mut r = Reader::new(&bytes);
    assert_eq!(r.u8(), Ok(7));
    assert_eq!(r.u32_le(), Ok(0x0102_0304));
    assert_eq!(r.u64_le(), Ok(0x0102_0304_0506_0708));
    assert_eq!(r.i32_le(), Ok(-3));
    assert_eq!(r.bytes_raw(), Ok([9u8, 8].as_slice()));
    assert_eq!(r.utf8(), Ok("é"));
    assert_eq!(r.option(), Ok(Some([1u8].as_slice())));
    assert_eq!(r.option(), Ok(None));
    assert_eq!(r.option_str(), Ok(Some("x")));
    assert_eq!(r.option_str(), Ok(None));
    assert_eq!(r.remaining(), 0);
    assert_eq!(r.consumed(), bytes.len());
}

#[test]
fn a_field_that_is_not_there_is_an_error() {
    assert_eq!(Reader::new(&[]).u8(), Err(DecodeError::Overrun));
    assert_eq!(Reader::new(&[1, 2, 3]).u32_le(), Err(DecodeError::Overrun));
    assert_eq!(Reader::new(&[0; 7]).u64_le(), Err(DecodeError::Overrun));
    assert_eq!(
        Reader::new(&[5, 0, 0, 0, 1]).bytes_raw(),
        Err(DecodeError::BadLength(5))
    );
    assert_eq!(
        Reader::new(&[1, 0, 0, 0, 0xff]).utf8(),
        Err(DecodeError::BadUtf8)
    );
    assert_eq!(
        Reader::new(&[2]).option(),
        Err(DecodeError::BadOptionFlag(2))
    );
    assert_eq!(
        Reader::new(&[3]).option_str(),
        Err(DecodeError::BadOptionFlag(3))
    );
}

#[test]
fn decode_errors_render_their_numbers() {
    let cases = vec![
        (
            DecodeError::BadMagic {
                got: [0x58, 0x5a, 0x56, 0x50],
            },
            "bad voip ABI magic: [58, 5a, 56, 50], want OZVP",
        ),
        (
            DecodeError::TruncatedHeader { len: 5 },
            "voip ABI header truncated: 5 bytes",
        ),
        (
            DecodeError::TruncatedPayload { want: 3, got: 2 },
            "voip ABI payload truncated: want 3, got 2",
        ),
        (
            DecodeError::Overrun,
            "voip ABI field ran past the payload end",
        ),
        (
            DecodeError::UnknownOpcode(0x7f),
            "unknown voip ABI opcode 0x7f",
        ),
        (
            DecodeError::BadLength(4097),
            "bad voip ABI length prefix 4097",
        ),
        (
            DecodeError::BadUtf8,
            "voip ABI UTF-8 field is not valid UTF-8",
        ),
        (
            DecodeError::BadOptionFlag(2),
            "bad voip ABI option flag 0x02",
        ),
        (
            DecodeError::BadValue {
                field: "role",
                value: 9,
            },
            "bad voip ABI role: 0x09",
        ),
    ];
    for (e, text) in cases {
        assert_eq!(e.message(), text);
    }
}

#[test]
fn a_frame_has_its_header_and_its_payload() {
    let frame = Frame::request(Opcode::Hello, vec![1, 2]);
    let bytes = frame.encode();
    assert_eq!(bytes.len(), HEADER_LEN + 2);
    assert_eq!(bytes[..4], MAGIC);
    assert_eq!(bytes[4], ABI_MAJOR);
    assert_eq!(bytes[5], ABI_MINOR);
    assert_eq!(bytes[6], Opcode::Hello.as_u8());
    assert_eq!(bytes[7..9], [0, 0]);
    assert_eq!(bytes[9..13], [2, 0, 0, 0]);
    assert_eq!(bytes[13..], [1, 2]);
    assert_eq!(Frame::decode(&bytes).unwrap(), frame);
    // What follows the payload is not looked at.
    let mut longer = bytes.clone();
    longer.push(9);
    assert_eq!(Frame::decode(&longer).unwrap(), frame);
    for n in 0..bytes.len() {
        assert!(Frame::decode(&bytes[..n]).is_err());
    }
}

#[test]
fn replies_echo_their_request() {
    let req = Frame {
        major: 1,
        minor: 0,
        opcode: Opcode::Close,
        flags: 0,
        payload: vec![1],
    };
    let ok = Frame::respond(&req, vec![2]);
    assert!(ok.is_response() && !ok.is_error());
    assert_eq!(ok.opcode, Opcode::Close);
    let no = Frame::fail(&req, AbiErrorCode::Busy, Some("wait"));
    assert!(no.is_error() && !no.is_response());
    assert_eq!(no.opcode, Opcode::Close);
    let body = ErrorBody::decode(&no.payload).unwrap();
    assert_eq!(body.code, AbiErrorCode::Busy);
    assert_eq!(body.detail.as_deref(), Some("wait"));
    assert_ne!(FLAG_RESPONSE, FLAG_ERROR);
    let bare = Frame::fail(&req, AbiErrorCode::Internal, None);
    assert_eq!(ErrorBody::decode(&bare.payload).unwrap().detail, None);
}

#[test]
fn opcodes_and_codes_have_their_bytes() {
    for b in 0..=255u8 {
        match Opcode::from_u8(b) {
            Ok(op) => assert_eq!(op.as_u8(), b),
            Err(e) => assert_eq!(e, DecodeError::UnknownOpcode(b)),
        }
        if let Some(code) = AbiErrorCode::from_u8(b) {
            assert_eq!(code.as_u8(), b);
        }
        if let Some(role) = Role::from_u8(b) {
            assert_eq!(role.as_u8(), b);
        }
    }
}

#[test]
fn majors_have_to_match_and_the_lower_minor_counts() {
    assert_eq!(negotiate(ABI_MAJOR, 3, 2).unwrap().minor, 2);
    assert_eq!(negotiate(ABI_MAJOR, 1, 2).unwrap().minor, 1);
    let e = negotiate(9, 0, 0).err().unwrap();
    assert_eq!(e, VersionError::MajorMismatch { peer_major: 9 });
    assert!(e.message().contains('9'));
}

#[test]
fn a_handle_belongs_to_one_generation() {
    let mut table = SessionTable::new();
    assert_eq!(table.validate(S).err(), Some(SessionError::Unknown));
    assert_eq!(table.reserve(S, "call"), Ok(()));
    assert_eq!(table.validate(S).unwrap().call_id, "call");
    let newer = SessionId {
        handle: S.handle,
        generation: 6,
    };
    assert_eq!(
        table.validate(newer).err(),
        Some(SessionError::Stale { current: 5 })
    );
    assert_eq!(
        table.reserve(newer, "other"),
        Err(SessionError::HandleInUse { current: 5 })
    );
    assert_eq!(table.validate(S).unwrap().call_id, "call");
    table.remove(S.handle);
    table.remove(S.handle);
    assert!(!table.contains(S.handle));
    assert_eq!(table.reserve(newer, "other"), Ok(()));
    assert_eq!(
        table.validate(S).err(),
        Some(SessionError::Stale { current: 6 })
    );
}

#[test]
fn session_errors_name_the_generation() {
    assert_eq!(
        SessionError::Unknown.message(),
        "unknown voip session handle"
    );
    assert_eq!(
        SessionError::Stale { current: 6 }.message(),
        "stale voip session generation (handle now holds generation 6)"
    );
    assert_eq!(
        SessionError::HandleInUse { current: 6 }.message(),
        "voip session handle still reserved at generation 6"
    );
}

#[test]
fn messages_lie_on_the_wire_as_laid_out() {
    let hello = HelloRequest {
        role: Role::Core,
        capabilities: Capabilities::PCM,
    };
    assert_eq!(hello.encode().len(), 5);
    let reserve = ReserveRequest {
        session: S,
        call_id: "c".to_owned(),
        direction: Direction::Incoming,
    };
    let mut expected = vec![4, 3, 2, 1, 5, 0, 0, 0, 0, 0, 0, 0, 1, 0, 0, 0, b'c'];
    expected.push(Direction::Incoming.as_u8());
    assert_eq!(reserve.encode(), expected);
}

#[test]
fn every_prefix_of_a_message_fails_and_every_extension_reads() {
    let command = CommandRequest {
        session: S,
        command: MediaCommand::RekeyRecv {
            answering_lid: "a@lid".to_owned(),
            audio_codec: None,
        },
    };
    let bytes = command.encode();
    for n in 0..bytes.len() {
        assert!(CommandRequest::decode(&bytes[..n]).is_err());
    }
    let mut longer = bytes.clone();
    longer.extend_from_slice(&[1, 2, 3]);
    assert!(CommandRequest::decode(&longer).unwrap() == command);
    let event = AbiEvent::AudioFormatMismatch {
        expected_rate: 16_000,
        received_rates: vec![8_000, 48_000],
    };
    let bytes = event.encode();
    for n in 0..bytes.len() {
        assert!(AbiEvent::decode(&bytes[..n]).is_err());
    }
}

#[test]
fn a_value_that_its_field_does_not_know_is_refused() {
    let mut hello = HelloRequest {
        role: Role::Core,
        capabilities: 0,
    }
    .encode();
    hello[0] = 200;
    assert!(matches!(
        HelloRequest::decode(&hello),
        Err(DecodeError::BadValue { value: 200, .. })
    ));
    let close = CloseRequest {
        session: S,
        reason: voip_bridge::CloseReason::Timeout,
        detail: None,
    };
    let mut bytes = close.encode();
    bytes[12] = 99;
    assert!(matches!(
        CloseRequest::decode(&bytes),
        Err(DecodeError::BadValue { value: 99, .. })
    ));
}

#[test]
fn different_messages_have_different_bytes() {
    let a = GroupFitsResponse { fits: 1, limit: 2 };
    let b = GroupFitsResponse { fits: 1, limit: 3 };
    assert_ne!(a.encode(), b.encode());
    let c = HelloResponse { capabilities: 1 };
    assert_eq!(HelloResponse::decode(&c.encode()).unwrap(), c);
    let m = MediaFrame {
        session: S,
        seq: 1,
        data: Vec::new(),
    };
    assert_eq!(MediaFrame::decode(&m.encode()).unwrap(), m);
}

#[test]
fn a_wiped_secret_is_zero() {
    let mut secret = SecretBytes::new(vec![1, 2, 3]);
    assert_eq!(secret.as_bytes(), [1, 2, 3]);
    assert_eq!(secret.redacted(), "SecretBytes([redacted; 3 bytes])");
    secret.wipe();
    assert_eq!(secret.as_bytes(), [0, 0, 0]);
    assert_eq!(secret.len(), 3);
    assert!(SecretBytes::empty().is_empty());
}

#[test]
fn numbers_and_texts_convert() {
    assert_eq!(decimal_string(0), "0");
    assert_eq!(decimal_string(u64::MAX), "18446744073709551615");
    assert_eq!(to_hex(&[0, 0xab, 0xff]), "00abff");
    assert_eq!(parse_u32("4294967295"), Some(u32::MAX));
    assert_eq!(parse_u32("4294967296"), None);
    assert_eq!(parse_u32("+7"), Some(7));
    assert_eq!(parse_u32("-7"), None);
    assert_eq!(parse_u32(""), None);
    assert_eq!(parse_u32("+"), None);
    assert_eq!(parse_u32("007"), Some(7));
    assert_eq!(parse_u32("1x"), None);
}
