//! What each failure of the core is reported as.

use voip_bridge::errors::{
    display_chain, handshake_to_bridge, internal, invalid_arg, iq_to_bridge, paircode_to_bridge,
    protocol_violation, socket_to_bridge, BridgeError, CoreRefusal, HandshakeLeaf, IqLeaf, Leaf,
    Link, PairCodeLeaf, SocketLeaf,
};

fn link(text: &str, leaf: Leaf) -> Link {
    Link {
        text: text.to_owned(),
        leaf,
    }
}

fn other(text: &str) -> Link {
    link(text, Leaf::Other)
}

fn rejected(code: u16) -> Link {
    link(
        &format!("received a server error: {code} forbidden"),
        Leaf::Iq(IqLeaf::ServerError {
            code,
            text: "forbidden".to_owned(),
        }),
    )
}

fn plain(chain: &[Link]) -> BridgeError {
    BridgeError::from_error_chain(&chain.to_vec(), false, false)
}

fn timed_out(text: &str) -> BridgeError {
    BridgeError::from_error_chain(&vec![other(text)], true, false)
}

fn unavailable(text: &str) -> BridgeError {
    BridgeError::from_error_chain(&vec![other(text)], false, true)
}

fn refused(e: CoreRefusal) -> BridgeError {
    BridgeError::from_refusal(&e)
}

#[test]
fn iq_server_error_extracts_code_and_text() {
    let be = plain(&[link(
        "received a server error: 400 bad-request",
        Leaf::Iq(IqLeaf::ServerError {
            code: 400,
            text: "bad-request".to_owned(),
        }),
    )]);
    match be {
        BridgeError::Server {
            server_code,
            server_text,
        } => {
            assert_eq!(server_code, 400);
            assert_eq!(server_text, "bad-request");
        }
        other => panic!("expected Server, got {other:?}"),
    }
}

#[test]
fn pair_error_request_failed_walks_to_iq_server_error() {
    let be = plain(&[
        other("pair request failed"),
        link(
            "received a server error: 400 bad-request",
            Leaf::Iq(IqLeaf::ServerError {
                code: 400,
                text: "bad-request".to_owned(),
            }),
        ),
    ]);
    match be {
        BridgeError::Server {
            server_code,
            server_text,
        } => {
            assert_eq!(server_code, 400);
            assert_eq!(server_text, "bad-request");
        }
        other => panic!("expected Server via chain walk, got {other:?}"),
    }
}

#[test]
fn group_description_conflict_keeps_its_server_code() {
    match refused(CoreRefusal::DescriptionConflict) {
        BridgeError::Server {
            server_code,
            server_text,
        } => {
            assert_eq!(server_code, 409);
            assert_eq!(server_text, "conflict");
        }
        other => panic!("expected Server, got {other:?}"),
    }
}

#[test]
fn other_group_errors_still_walk_the_source_chain() {
    match plain(&[other("group request failed"), rejected(403)]) {
        BridgeError::Server { server_code, .. } => assert_eq!(server_code, 403),
        other => panic!("expected Server via chain walk, got {other:?}"),
    }
}

#[test]
fn every_domain_surfaces_its_server_code() {
    let domains = vec![
        plain(&[other("group"), rejected(403)]),
        plain(&[other("community"), rejected(403)]),
        plain(&[other("contact"), rejected(403)]),
        plain(&[other("profile"), rejected(403)]),
        plain(&[other("blocking"), rejected(403)]),
        plain(&[other("newsletter"), rejected(403)]),
        // Nested two domains deep.
        plain(&[other("community"), other("group"), rejected(403)]),
    ];
    for be in domains {
        match be {
            BridgeError::Server { server_code, .. } => assert_eq!(server_code, 403),
            other => panic!("expected Server, got {other:?}"),
        }
    }
}

#[test]
fn server_error_code_carried_in_anyhow_is_a_server_error() {
    let be = plain(&[
        other("internal group error"),
        link(
            "409 conflict",
            Leaf::ServerCode {
                code: 409,
                text: "conflict".to_owned(),
            },
        ),
    ]);
    match be {
        BridgeError::Server {
            server_code,
            server_text,
        } => {
            assert_eq!(server_code, 409);
            assert_eq!(server_text, "conflict");
        }
        other => panic!("expected Server, got {other:?}"),
    }
}

#[test]
fn display_chain_collapses_repeated_neighbours() {
    let inner = rejected(403);
    let chain = vec![
        other(&inner.text),
        other(&inner.text),
        inner.clone(),
    ];
    let rendered = display_chain(&chain);
    assert_eq!(rendered, inner.text, "three identical layers collapse into one");
    assert_eq!(rendered.matches("received a server error").count(), 1);
}

#[test]
fn display_chain_keeps_distinct_layers() {
    let rendered = display_chain(&vec![other("outer layer"), rejected(400)]);
    assert!(rendered.starts_with("outer layer"));
    assert!(rendered.contains("received a server error"));
    assert_eq!(rendered, "outer layer: received a server error: 400 forbidden");
}

#[test]
fn a_text_that_comes_back_later_is_not_collapsed() {
    let rendered = display_chain(&vec![other("a"), other("b"), other("b"), other("a")]);
    assert_eq!(rendered, "a: b: a");
    assert_eq!(display_chain(&Vec::new()), "");
}

#[test]
fn pair_error_paircode_validation_walks_to_invalid_argument() {
    let be = plain(&[
        other("pairing failed"),
        link(
            "phone number is too short",
            Leaf::PairCode(PairCodeLeaf::PhoneNumberTooShort),
        ),
    ]);
    match be {
        BridgeError::InvalidArgument { field, .. } => assert_eq!(field, "phoneNumber"),
        other => panic!("expected InvalidArgument, got {other:?}"),
    }
}

#[test]
fn iq_timeout_maps_to_timeout_kind() {
    let be = plain(&[link("timed out", Leaf::Iq(IqLeaf::Timeout))]);
    assert!(matches!(be, BridgeError::Timeout));
}

#[test]
fn iq_not_connected_maps_to_not_connected_kind() {
    let be = plain(&[link("not connected", Leaf::Iq(IqLeaf::NotConnected))]);
    assert!(matches!(be, BridgeError::NotConnected));
}

#[test]
fn client_not_connected_maps_to_not_connected_kind() {
    let be = unavailable("client is not connected");
    assert!(matches!(be, BridgeError::NotConnected), "got {be:?}");
}

#[test]
fn client_error_wrapping_a_typed_leaf_still_reaches_it() {
    // The leaf is reached even where the chain as a whole is called
    // transport-gone.
    let be = BridgeError::from_error_chain(&vec![other("client"), rejected(403)], false, true);
    match be {
        BridgeError::Server { server_code, .. } => assert_eq!(server_code, 403),
        other => panic!("expected Server via chain walk, got {other:?}"),
    }

    // Two hops, through a request error that only wraps.
    let be = plain(&[
        other("client"),
        link("client state", Leaf::Iq(IqLeaf::Wrapper)),
        other("client"),
        rejected(401),
    ]);
    match be {
        BridgeError::Server { server_code, .. } => assert_eq!(server_code, 401),
        other => panic!("expected Server via chain walk, got {other:?}"),
    }
}

#[test]
fn an_error_no_one_classifies_still_lands_in_internal() {
    match plain(&[other("a failure this bridge has never seen")]) {
        BridgeError::Internal { message } => {
            assert_eq!(message, "a failure this bridge has never seen");
        }
        other => panic!("expected Internal, got {other:?}"),
    }
}

#[test]
fn source_less_variants_reach_an_actionable_kind() {
    let cases: Vec<(&str, BridgeError, &str)> = vec![
        ("ClientError::NotConnected", unavailable("not connected"), "not-connected"),
        ("ClientError::NotLoggedIn", unavailable("not logged in"), "not-connected"),
        (
            "IqError::InternalChannelClosed",
            BridgeError::from_error_chain(
                &vec![link("closed", Leaf::Iq(IqLeaf::InternalChannelClosed))],
                false,
                true,
            ),
            "not-connected",
        ),
        (
            "SocketError::SocketClosed",
            plain(&[
                link("socket", Leaf::Iq(IqLeaf::Wrapper)),
                link("socket closed", Leaf::Socket(SocketLeaf::SocketClosed)),
            ]),
            "not-connected",
        ),
        (
            "HandshakeError::Disconnected",
            plain(&[
                other("handshake"),
                link("disconnected", Leaf::Handshake(HandshakeLeaf::Disconnected)),
            ]),
            "not-connected",
        ),
        (
            "HandshakeError::StreamClosed",
            plain(&[
                other("handshake"),
                link("closed", Leaf::Handshake(HandshakeLeaf::StreamClosed)),
            ]),
            "not-connected",
        ),
        (
            "HandshakeError::Timeout",
            BridgeError::from_error_chain(
                &vec![
                    other("handshake"),
                    link("timed out", Leaf::Handshake(HandshakeLeaf::Unlisted)),
                ],
                true,
                false,
            ),
            "timeout",
        ),
        (
            "HandshakeError::UnexpectedEvent",
            plain(&[
                other("handshake"),
                link(
                    "unexpected",
                    Leaf::Handshake(HandshakeLeaf::UnexpectedEvent("stream end".to_owned())),
                ),
            ]),
            "protocol-violation",
        ),
        (
            "ConnectError::AlreadyConnected",
            refused(CoreRefusal::AlreadyConnected),
            "invalid-argument:connect",
        ),
        ("ConnectError::NotActivated", plain(&[other("not activated")]), "internal"),
        (
            "ConnectError::Shutdown",
            refused(CoreRefusal::Shutdown),
            "invalid-argument:connect",
        ),
        ("ConnectError::Timeout", timed_out("socket timed out"), "timeout"),
        (
            "SignalMaintenanceError::CorruptKey",
            refused(CoreRefusal::CorruptKey("bad length".to_owned())),
            "protocol-violation",
        ),
        (
            "SignalMaintenanceError::DrainCommitFailed",
            refused(CoreRefusal::DrainCommitFailed),
            "storage",
        ),
        (
            "SignalMaintenanceError::DrainShuttingDown",
            refused(CoreRefusal::DrainShuttingDown),
            "not-connected",
        ),
        (
            "IqError::UnexpectedResponseType",
            plain(&[link(
                "unexpected",
                Leaf::Iq(IqLeaf::UnexpectedResponseType {
                    got: Some("get".to_owned()),
                }),
            )]),
            "protocol-violation",
        ),
        (
            "IqError::DuplicateRequestId",
            plain(&[link("duplicate id 42", Leaf::Iq(IqLeaf::Wrapper))]),
            "internal",
        ),
        (
            "PresenceError::PushNameEmpty",
            refused(CoreRefusal::PushNameEmpty),
            "invalid-argument:sendPresence",
        ),
        (
            "GroupError::InvalidRequest",
            refused(CoreRefusal::InvalidRequest("no participants".to_owned())),
            "invalid-argument:request",
        ),
        (
            "GroupError::DescriptionConflict",
            refused(CoreRefusal::DescriptionConflict),
            "server",
        ),
        (
            "AppStateError::InvalidRequest",
            refused(CoreRefusal::InvalidRequest(
                "mute timestamp is in the past".to_owned(),
            )),
            "invalid-argument:request",
        ),
        (
            "BusinessError::InvalidUpdate",
            refused(CoreRefusal::InvalidUpdate("too many websites: 9".to_owned())),
            "invalid-argument:update",
        ),
        (
            "BusinessError::MalformedResponse",
            refused(CoreRefusal::MalformedResponse {
                operation: "profile".to_owned(),
                detail: "missing hours".to_owned(),
            }),
            "protocol-violation",
        ),
        (
            "CallError::EmptyCallId",
            refused(CoreRefusal::EmptyCallId),
            "invalid-argument:callId",
        ),
        ("SendError::NotLoggedIn", refused(CoreRefusal::NotLoggedIn), "not-connected"),
        (
            "SendError::InvalidRequest",
            refused(CoreRefusal::InvalidRequest("empty recipient list".to_owned())),
            "invalid-argument:request",
        ),
        (
            "SendError::NoRecipientDevice",
            refused(CoreRefusal::NoRecipientDevice("unresolved".to_owned())),
            "no-recipient-device",
        ),
        (
            "BlockingError::InvalidJid",
            refused(CoreRefusal::InvalidJid("g.us".to_owned())),
            "invalid-argument:jid",
        ),
        (
            "CommunityError::InvalidRequest",
            refused(CoreRefusal::InvalidRequest("not a community".to_owned())),
            "invalid-argument:request",
        ),
        (
            "ContactError::InvalidJid",
            refused(CoreRefusal::InvalidJid("broadcast".to_owned())),
            "invalid-argument:jid",
        ),
        (
            "MediaReuploadError::NotLoggedIn",
            refused(CoreRefusal::NotLoggedIn),
            "not-connected",
        ),
        (
            "MediaReuploadError::InvalidRequest",
            refused(CoreRefusal::InvalidRequest("no media key".to_owned())),
            "invalid-argument:request",
        ),
        (
            "MediaReuploadError::Timeout",
            refused(CoreRefusal::MediaRetryTimeout),
            "timeout",
        ),
        (
            "NewsletterError::InvalidRequest",
            refused(CoreRefusal::InvalidRequest("not a newsletter jid".to_owned())),
            "invalid-argument:request",
        ),
        (
            "PollError::InvalidPoll",
            refused(CoreRefusal::InvalidRequest("fewer than two options".to_owned())),
            "invalid-argument:request",
        ),
        ("PollError::NotLoggedIn", refused(CoreRefusal::NotLoggedIn), "not-connected"),
        (
            "ProfileError::InvalidArgument",
            refused(CoreRefusal::InvalidRequest("picture is not JPEG".to_owned())),
            "invalid-argument:request",
        ),
        (
            "RetryRequestError::UnsupportedStanzaClass",
            refused(CoreRefusal::RetryNeedsMessage),
            "invalid-argument:stanza",
        ),
        (
            "RetryRequestError::MissingAttribute",
            refused(CoreRefusal::MissingAttribute("from".to_owned())),
            "invalid-argument:stanza",
        ),
        (
            "RetryRequestError::MissingLocalIdentity",
            refused(CoreRefusal::MissingLocalIdentity),
            "not-connected",
        ),
        (
            "SignalError::Unsupported",
            plain(&[other("unexpected ciphertext variant")]),
            "internal",
        ),
        (
            "SignalError::InvalidInput",
            refused(CoreRefusal::InvalidRequest("key is 31 bytes".to_owned())),
            "invalid-argument:request",
        ),
        (
            "StanzaResponseError::MissingAttribute",
            refused(CoreRefusal::MissingAttribute("id".to_owned())),
            "invalid-argument:stanza",
        ),
        (
            "StanzaResponseError::MissingLocalIdentity",
            refused(CoreRefusal::MissingLocalIdentity),
            "not-connected",
        ),
        (
            "StanzaResponseError::UnsupportedStanzaClass",
            refused(CoreRefusal::NoSuchResponse),
            "invalid-argument:stanza",
        ),
        (
            "MexError::PayloadParsing",
            refused(CoreRefusal::MexPayload("missing data".to_owned())),
            "protocol-violation",
        ),
        (
            "MexError::ExtensionError",
            plain(&[other("1675247: not authorized")]),
            "internal",
        ),
    ];

    for (name, bridge, expected) in cases {
        let (want_kind, want_field) = match expected.split_once(':') {
            Some((kind, field)) => (kind, Some(field)),
            None => (expected, None),
        };
        assert_eq!(bridge.kind(), want_kind, "{name}");
        if let Some(want_field) = want_field {
            match &bridge {
                BridgeError::InvalidArgument { field, .. } => {
                    assert_eq!(field, want_field, "{name}");
                }
                other => panic!("{name}: no field in {other:?}"),
            }
        }
    }
}

#[test]
fn unknown_iq_variant_lands_in_internal_with_full_chain() {
    let be = plain(&[
        link("failed to encode the request", Leaf::Iq(IqLeaf::Wrapper)),
        other("encoder blew up"),
    ]);
    match be {
        BridgeError::Internal { message } => {
            assert!(message.contains("failed to encode"));
            assert!(message.contains("encoder blew up"));
        }
        other => panic!("expected Internal, got {other:?}"),
    }
}

#[test]
fn contextualized_storage_error_keeps_the_callback_reason() {
    let be = plain(&[
        other("Failed to flush signal cache"),
        link("database error", Leaf::Store),
        link(
            "JS setMany: session projection failed",
            Leaf::Callback {
                context: "setMany".to_owned(),
                message: "session projection failed".to_owned(),
            },
        ),
    ]);
    match be {
        BridgeError::Storage { operation } => {
            assert_eq!(operation, "JS setMany: session projection failed");
        }
        other => panic!("expected Storage, got {other:?}"),
    }
}

#[test]
fn a_storage_wrapper_answers_only_behind_the_core() {
    let chain = vec![
        other("flush"),
        link("first store", Leaf::Store),
        link("second store", Leaf::Store),
    ];
    assert_eq!(
        BridgeError::from_error_chain(&chain, false, false),
        BridgeError::Storage {
            operation: "first store".to_owned()
        }
    );
    assert_eq!(
        BridgeError::from_error_chain(&chain, true, false),
        BridgeError::Timeout
    );
    assert_eq!(
        BridgeError::from_error_chain(&chain, true, true),
        BridgeError::Timeout
    );
    assert_eq!(
        BridgeError::from_error_chain(&chain, false, true),
        BridgeError::NotConnected
    );
}

#[test]
fn a_record_that_does_not_serialize_names_its_key() {
    let be = plain(&[link(
        "json",
        Leaf::Json {
            op: "parse".to_owned(),
            store: "device".to_owned(),
            key: "record".to_owned(),
        },
    )]);
    assert_eq!(
        be,
        BridgeError::Storage {
            operation: "parse device/record".to_owned()
        }
    );
}

#[test]
fn every_error_renders_its_own_sentence() {
    let cases = vec![
        (
            BridgeError::Server {
                server_code: 429,
                server_text: "rate-overlimit".to_owned(),
            },
            "server",
            "server error 429: rate-overlimit",
        ),
        (BridgeError::Timeout, "timeout", "request timed out"),
        (BridgeError::NotConnected, "not-connected", "not connected"),
        (
            BridgeError::Disconnected {
                reason: "gone".to_owned(),
            },
            "disconnected",
            "disconnected by server: gone",
        ),
        (
            invalid_arg("jid", "empty".to_owned()),
            "invalid-argument",
            "invalid argument jid: empty",
        ),
        (
            protocol_violation("short".to_owned()),
            "protocol-violation",
            "protocol violation: short",
        ),
        (
            BridgeError::Crypto {
                operation: "sign".to_owned(),
            },
            "crypto",
            "crypto operation failed: sign",
        ),
        (
            BridgeError::Storage {
                operation: "write".to_owned(),
            },
            "storage",
            "storage operation failed: write",
        ),
        (
            BridgeError::NoRecipientDevice {
                reason: "none".to_owned(),
            },
            "no-recipient-device",
            "no recipient device: none",
        ),
        (internal("odd".to_owned()), "internal", "internal: odd"),
    ];
    for (e, kind, text) in cases {
        assert_eq!(e.kind(), kind);
        assert_eq!(e.message(), text);
    }
}

#[test]
fn every_pair_code_failure_has_its_words() {
    let say = |e: PairCodeLeaf| paircode_to_bridge(&e, "as rendered").message();
    assert_eq!(
        say(PairCodeLeaf::PhoneNumberRequired),
        "invalid argument phoneNumber: required"
    );
    assert_eq!(
        say(PairCodeLeaf::PhoneNumberTooShort),
        "invalid argument phoneNumber: too short (min 7 digits)"
    );
    assert_eq!(
        say(PairCodeLeaf::PhoneNumberNotInternational),
        "invalid argument phoneNumber: must not start with 0 (use international format)"
    );
    assert_eq!(
        say(PairCodeLeaf::InvalidCustomCode),
        "invalid argument customCode: must be 8 chars from Crockford Base32 alphabet"
    );
    assert_eq!(
        say(PairCodeLeaf::InvalidWrappedData {
            expected: 80,
            got: 7
        }),
        "protocol violation: wrapped data: expected 80 bytes, got 7"
    );
    assert_eq!(
        say(PairCodeLeaf::InvalidPrimaryEphemeralKey),
        "crypto operation failed: parse primary ephemeral key"
    );
    assert_eq!(
        say(PairCodeLeaf::InvalidPrimaryIdentityKey),
        "crypto operation failed: parse primary identity key"
    );
    assert_eq!(
        say(PairCodeLeaf::EphemeralKeyAgreement),
        "crypto operation failed: ephemeral DH agreement"
    );
    assert_eq!(
        say(PairCodeLeaf::IdentityKeyAgreement),
        "crypto operation failed: identity DH agreement"
    );
    assert_eq!(
        say(PairCodeLeaf::AdvSecretKeyDerivation),
        "crypto operation failed: HKDF expand for adv_secret"
    );
    assert_eq!(
        say(PairCodeLeaf::BundleKeyDerivation),
        "crypto operation failed: HKDF expand for bundle encryption key"
    );
    assert_eq!(
        say(PairCodeLeaf::BundleAead),
        "crypto operation failed: AES-GCM encrypt key bundle"
    );
    assert_eq!(
        say(PairCodeLeaf::NotWaiting),
        "protocol violation: not in waiting state for pair-code notification"
    );
    assert_eq!(
        say(PairCodeLeaf::MissingPairingRef),
        "protocol violation: server response missing pairing ref"
    );
    assert_eq!(say(PairCodeLeaf::Unlisted), "internal: as rendered");
}

#[test]
fn leaves_that_only_wrap_say_nothing() {
    assert_eq!(iq_to_bridge(&IqLeaf::Wrapper), None);
    assert_eq!(iq_to_bridge(&IqLeaf::InternalChannelClosed), None);
    assert_eq!(
        iq_to_bridge(&IqLeaf::UnexpectedResponseType { got: None }),
        Some(protocol_violation(
            "IQ response carried no type attribute".to_owned()
        ))
    );
    assert_eq!(
        iq_to_bridge(&IqLeaf::Disconnected("<stream:error/>".to_owned())),
        Some(BridgeError::Disconnected {
            reason: "<stream:error/>".to_owned()
        })
    );
    assert_eq!(socket_to_bridge(&SocketLeaf::Unlisted), None);
    assert_eq!(
        socket_to_bridge(&SocketLeaf::Cipher),
        Some(BridgeError::Crypto {
            operation: "noise cipher".to_owned()
        })
    );
    assert_eq!(handshake_to_bridge(&HandshakeLeaf::Unlisted), None);
    assert_eq!(
        handshake_to_bridge(&HandshakeLeaf::UnexpectedEvent("end".to_owned())),
        Some(protocol_violation("during handshake: end".to_owned()))
    );
}
