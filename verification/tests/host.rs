//! What crosses to and from the host: policies, profiles, properties, audio
//! decisions.

use voip_bridge::audio::{
    bin_index, check_input, check_samples, compute_duration, convert_ticks, estimated_samples,
    on_decode, packet_skip, packet_start, AudioPacket, DurationAccumulator, DurationScan,
    PacketDecode, PacketRead, ScanStep, Timing, TrackTiming, WaveformScan,
};
use voip_bridge::client_profile::{ClientProfileInput, ClientProfileOverrides};
use voip_bridge::device_props::{
    DeviceAppVersion, DeviceHistorySyncConfig, DevicePlatformType, DevicePropsInput,
};
use voip_bridge::errors::BridgeError;
use voip_bridge::history_sync_admission::{
    decision, file_length_text, from_policies, js_error_message, metadata_fields,
    HistorySyncDecision, HistorySyncMetadata, MetadataValue, Policies, PolicyAnswer,
};
use voip_bridge::mlow::{payload_type, redundancy, HostPayloadType, RTP_PAYLOAD_TYPE_MLOW_RED};

#[test]
fn callback_errors_and_non_booleans_fail_closed() {
    for answer in [
        PolicyAnswer::Threw,
        PolicyAnswer::Returned(Some(false)),
        // `undefined`, `1`, `'true'`, a promise: none is a boolean.
        PolicyAnswer::Returned(None),
    ] {
        assert_eq!(decision(answer), HistorySyncDecision::RejectAndAcknowledge);
    }
    assert_eq!(
        decision(PolicyAnswer::Returned(Some(true))),
        HistorySyncDecision::Accept
    );
}

#[test]
fn file_length_keeps_all_uint64_digits() {
    assert_eq!(file_length_text(u64::MAX), u64::MAX.to_string());
    assert_eq!(file_length_text(0), "0");
}

#[test]
fn callback_error_messages_use_stable_js_values() {
    assert_eq!(js_error_message(Some("failure".to_owned()), None), "failure");
    assert_eq!(js_error_message(None, Some("broken".to_owned())), "broken");
    assert_eq!(
        js_error_message(None, None),
        "JavaScript callback threw a non-string value"
    );
}

#[test]
fn only_a_function_is_a_policy() {
    assert_eq!(from_policies(Policies::Absent), Ok(false));
    assert_eq!(from_policies(Policies::NoCallback), Ok(false));
    assert_eq!(from_policies(Policies::Callback), Ok(true));
    let bad = |field: &str, reason: &str| {
        Err(BridgeError::InvalidArgument {
            field: field.to_owned(),
            reason: reason.to_owned(),
        })
    };
    assert_eq!(
        from_policies(Policies::NotAnObject),
        bad("policies", "must be an object")
    );
    assert_eq!(
        from_policies(Policies::Unreadable),
        bad("policies.historySyncAdmission", "could not read the callback")
    );
    assert_eq!(
        from_policies(Policies::NotAFunction),
        bad("policies.historySyncAdmission", "must be a function")
    );
}

#[test]
fn a_policy_sees_what_is_known() {
    let fields = metadata_fields(&HistorySyncMetadata {
        sync_type: Some(-1),
        chunk_order: None,
        progress: Some(100),
        file_length: Some(u64::MAX),
        inline_payload_len: Some(7),
        peer_data_request_session_id: Some("s".to_owned()),
    });
    let seen: Vec<(&str, MetadataValue)> = fields
        .iter()
        .map(|f| (f.name, f.value.clone()))
        .collect();
    assert_eq!(
        seen,
        vec![
            ("syncType", MetadataValue::Number(-1)),
            ("progress", MetadataValue::Number(100)),
            (
                "fileLength",
                MetadataValue::Text("18446744073709551615".to_owned())
            ),
            ("inlinePayloadLen", MetadataValue::Number(7)),
            (
                "peerDataRequestSessionId",
                MetadataValue::Text("s".to_owned())
            ),
        ]
    );
    let nothing = HistorySyncMetadata {
        sync_type: None,
        chunk_order: None,
        progress: None,
        file_length: None,
        inline_payload_len: None,
        peer_data_request_session_id: None,
    };
    assert!(metadata_fields(&nothing).is_empty());
}

#[test]
fn a_payload_type_has_to_be_a_small_whole_number() {
    assert_eq!(payload_type(&HostPayloadType::Absent), Ok(None));
    let number = |whole: Option<i64>, rendered: &str| {
        payload_type(&HostPayloadType::Number {
            whole,
            rendered: rendered.to_owned(),
        })
    };
    assert_eq!(number(Some(0), "0"), Ok(Some(0)));
    assert_eq!(number(Some(255), "255"), Ok(Some(255)));
    for (whole, rendered) in [(Some(256), "256"), (Some(-1), "-1"), (None, "1.5")] {
        assert_eq!(
            number(whole, rendered),
            Err(BridgeError::InvalidArgument {
                field: "payloadType".to_owned(),
                reason: format!(
                    "expected RTP payload type integer between 0 and 255, got {rendered}"
                ),
            })
        );
    }
    assert_eq!(
        payload_type(&HostPayloadType::NotANumber),
        Err(BridgeError::InvalidArgument {
            field: "payloadType".to_owned(),
            reason: "expected RTP payload type number".to_owned(),
        })
    );
}

#[test]
fn redundancy_is_that_of_the_packet_alone() {
    assert_eq!(
        RTP_PAYLOAD_TYPE_MLOW_RED,
        wacore::voip::rtp::RTP_PAYLOAD_TYPE_MLOW_RED
    );
    assert_eq!(redundancy(Some(121)), 1);
    assert_eq!(redundancy(Some(120)), 0);
    assert_eq!(redundancy(None), 0);
}

#[test]
fn a_preset_keeps_its_defaults() {
    let web = ClientProfileInput::Web {
        overrides: ClientProfileOverrides::default(),
    }
    .into_profile();
    assert_eq!(web.user_agent_platform, 14);
    assert_eq!(web.device, "Desktop");
    assert_eq!(web.os_version, "0.1.0");
    assert!(web.include_web_info && !web.passive_login);
    assert_eq!(web.phone_id, None);
    let os_version = "13".to_owned();
    let overrides = ClientProfileOverrides::default();
    let natives = [
        (
            ClientProfileInput::Android {
                os_version: os_version.clone(),
                overrides: overrides.clone(),
            },
            0,
            "Smartphone",
            "",
        ),
        (
            ClientProfileInput::SmbAndroid {
                os_version: os_version.clone(),
                overrides: overrides.clone(),
            },
            10,
            "Smartphone",
            "",
        ),
        (
            ClientProfileInput::Ios {
                os_version: os_version.clone(),
                overrides: overrides.clone(),
            },
            1,
            "iPhone",
            "Apple",
        ),
        (
            ClientProfileInput::Macos {
                os_version: os_version.clone(),
                overrides: overrides.clone(),
            },
            24,
            "Desktop",
            "Apple",
        ),
        (
            ClientProfileInput::Windows {
                os_version,
                overrides,
            },
            13,
            "Desktop",
            "",
        ),
    ];
    for (input, platform, device, maker) in natives {
        let p = input.into_profile();
        assert_eq!(p.user_agent_platform, platform);
        assert_eq!(p.device, device);
        assert_eq!(p.manufacturer, maker);
        assert_eq!(p.os_version, "13");
        assert!(!p.include_web_info);
        assert_eq!((p.locale_language.as_str(), p.locale_country.as_str()), ("en", "US"));
    }
}

#[test]
fn overrides_go_on_top_of_a_preset() {
    let p = ClientProfileInput::Web {
        overrides: ClientProfileOverrides {
            phone_id: Some("fixed-id".to_owned()),
            locale_language: Some("pt".to_owned()),
            locale_country: Some("BR".to_owned()),
            passive_login: Some(true),
        },
    }
    .into_profile();
    assert_eq!(p.phone_id.as_deref(), Some("fixed-id"));
    assert_eq!(p.locale_language, "pt");
    assert_eq!(p.locale_country, "BR");
    assert!(p.passive_login);
    assert_eq!(p.device, "Desktop");
}

fn no_config() -> DeviceHistorySyncConfig {
    DeviceHistorySyncConfig {
        full_sync_days_limit: None,
        full_sync_size_mb_limit: None,
        storage_quota_mb: None,
        recent_sync_days_limit: None,
        support_call_log_history: None,
        support_group_history: None,
        on_demand_ready: None,
        thumbnail_sync_days_limit: None,
        initial_sync_max_messages_per_chat: None,
    }
}

#[test]
fn one_setting_does_not_drop_the_others() {
    let set = DevicePropsInput {
        os: Some("linux".to_owned()),
        platform_type: Some(DevicePlatformType::Uwp),
        version: Some(DeviceAppVersion {
            primary: Some(2),
            secondary: None,
            tertiary: Some(1),
            quaternary: None,
        }),
        history_sync_config: Some(DeviceHistorySyncConfig {
            full_sync_days_limit: Some(365),
            support_group_history: Some(false),
            ..no_config()
        }),
    }
    .into_override();
    assert_eq!(set.os.as_deref(), Some("linux"));
    assert_eq!(set.platform_type, Some(DevicePlatformType::Uwp));
    assert_eq!(set.version.unwrap().primary, Some(2));
    assert_eq!(
        set.history_sync_config,
        Some(DeviceHistorySyncConfig {
            full_sync_days_limit: Some(365),
            support_call_log_history: Some(true),
            support_group_history: Some(false),
            ..no_config()
        })
    );
    let kept = DevicePropsInput {
        os: None,
        platform_type: None,
        version: None,
        history_sync_config: None,
    }
    .into_override();
    assert_eq!(kept.history_sync_config, None);
    assert_eq!(kept.os, None);
}

#[test]
fn every_setting_can_be_changed() {
    let all = DeviceHistorySyncConfig {
        full_sync_days_limit: Some(1),
        full_sync_size_mb_limit: Some(2),
        storage_quota_mb: Some(3),
        recent_sync_days_limit: Some(4),
        support_call_log_history: Some(false),
        support_group_history: Some(true),
        on_demand_ready: Some(true),
        thumbnail_sync_days_limit: Some(5),
        initial_sync_max_messages_per_chat: Some(6),
    };
    assert_eq!(all.merge_into(no_config()), all);
    assert_eq!(no_config().merge_into(all), all);
    let once = all.merge_into(no_config());
    assert_eq!(all.merge_into(once), once);
}

#[test]
fn platforms_cross_under_their_names() {
    assert_eq!(DevicePlatformType::Unknown.name(), "UNKNOWN");
    assert_eq!(DevicePlatformType::AndroidTablet.name(), "ANDROID_TABLET");
    assert_eq!(DevicePlatformType::TclTv.name(), "TCL_TV");
    assert_eq!(DevicePlatformType::Vr.name(), "VR");
    assert_eq!(DevicePlatformType::Smartglasses.name(), "SMARTGLASSES");
}

#[test]
fn about_so_many_packets_are_decoded() {
    assert_eq!(estimated_samples(None), 2_000_000);
    assert_eq!(estimated_samples(Some(5)), 5);
    assert_eq!(packet_skip(0), 1);
    assert_eq!(packet_skip(2_000_000), 3);
    assert_eq!(packet_skip(1152 * 1024 - 1), 1);
    assert_eq!(packet_skip(1152 * 1024), 2);
}

fn packet(track_id: u32, pts: i64, dur: u64) -> AudioPacket {
    AudioPacket { track_id, pts, dur }
}

/// A mono file of 16-bit samples at 8 kHz, with so many frames.
fn wave(frames: u32) -> Vec<u8> {
    let mut out = b"RIFF".to_vec();
    out.extend_from_slice(&(36 + 2 * frames).to_le_bytes());
    out.extend_from_slice(b"WAVEfmt ");
    out.extend_from_slice(&16u32.to_le_bytes());
    out.extend_from_slice(&1u16.to_le_bytes());
    out.extend_from_slice(&1u16.to_le_bytes());
    out.extend_from_slice(&8000u32.to_le_bytes());
    out.extend_from_slice(&16000u32.to_le_bytes());
    out.extend_from_slice(&2u16.to_le_bytes());
    out.extend_from_slice(&16u16.to_le_bytes());
    out.extend_from_slice(b"data");
    out.extend_from_slice(&(2 * frames).to_le_bytes());
    out.extend(std::iter::repeat(0u8).take(2 * frames as usize));
    out
}

#[test]
fn a_file_lasts_as_long_as_its_frames() {
    let t = compute_duration(wave(4000)).unwrap();
    assert_eq!(t.ticks, 4000);
    assert_eq!((t.numer, t.denom), (1, 8000));
    assert_eq!(compute_duration(wave(1)).unwrap().ticks, 1);
}

#[test]
fn bytes_that_are_no_audio_are_refused() {
    assert_eq!(compute_duration(Vec::new()), Err("Audio buffer is empty".to_owned()));
    let e = compute_duration(b"not an audio file".to_vec()).unwrap_err();
    assert!(e.starts_with("Failed to probe audio format: "), "{e}");
}

#[test]
fn a_file_without_frames_has_no_samples() {
    let e = compute_duration(wave(0)).unwrap_err();
    assert_eq!(e, "No audio samples decoded");
}

#[test]
fn a_track_is_measured_packet_by_packet() {
    let timing = TrackTiming {
        duration: None,
        time_base: Some((1, 1000)),
        num_frames: None,
        audio: None,
    };
    let mut scan = DurationScan::new(7);
    assert_eq!(scan.timing(&timing), Err("No audio samples decoded".to_owned()));
    assert_eq!(scan.on_read(&PacketRead::Packet(packet(8, 0, 9000))), ScanStep::Next);
    assert_eq!(scan.on_read(&PacketRead::Packet(packet(7, 100, 50))), ScanStep::Next);
    assert_eq!(scan.on_read(&PacketRead::ResetRequired), ScanStep::Next);
    assert_eq!(scan.on_read(&PacketRead::Packet(packet(7, 150, 50))), ScanStep::Next);
    assert_eq!(scan.on_read(&PacketRead::End), ScanStep::Finish);
    assert_eq!(
        scan.on_read(&PacketRead::Failed("bad".to_owned())),
        ScanStep::Fail("Audio decode error: bad".to_owned())
    );
    assert_eq!(scan.timing(&timing), Ok(Timing { ticks: 100, numer: 1, denom: 1000 }));
    let untimed = TrackTiming { time_base: None, ..timing };
    assert_eq!(
        scan.timing(&untimed),
        Err("Missing timing information for audio track".to_owned())
    );
}

#[test]
fn a_scan_takes_every_so_many_packets_of_its_track() {
    let mut scan = WaveformScan::new(7, None);
    assert_eq!(scan.skip, 3);
    assert_eq!(scan.on_read(&PacketRead::Packet(packet(8, 0, 1))), ScanStep::Next);
    assert_eq!(scan.packets, 0);
    assert_eq!(scan.on_read(&PacketRead::Packet(packet(7, 0, 1))), ScanStep::Next);
    assert_eq!(scan.on_read(&PacketRead::Packet(packet(7, 0, 1))), ScanStep::Next);
    assert_eq!(scan.on_read(&PacketRead::Packet(packet(7, 0, 1))), ScanStep::Decode);
    assert_eq!(scan.on_read(&PacketRead::ResetRequired), ScanStep::Reset);
    assert_eq!(scan.on_read(&PacketRead::End), ScanStep::Finish);
    assert_eq!(
        scan.on_read(&PacketRead::Failed("bad".to_owned())),
        ScanStep::Fail("Audio decode error: bad".to_owned())
    );
    assert_eq!(scan.packets, 3);
    let mut all = WaveformScan::new(7, Some(10));
    assert_eq!(all.on_read(&PacketRead::Packet(packet(7, 0, 1))), ScanStep::Decode);
}

#[test]
fn a_malformed_packet_does_not_end_a_scan() {
    assert_eq!(on_decode(&PacketDecode::Samples), ScanStep::Accumulate);
    assert_eq!(on_decode(&PacketDecode::Malformed), ScanStep::Next);
    assert_eq!(on_decode(&PacketDecode::InputOver), ScanStep::Finish);
    assert_eq!(on_decode(&PacketDecode::ResetRequired), ScanStep::Reset);
    assert_eq!(
        on_decode(&PacketDecode::Failed("x".to_owned())),
        ScanStep::Fail("Failed to decode audio frame: x".to_owned())
    );
}

#[test]
fn samples_fall_into_their_share_of_the_buckets() {
    assert_eq!(packet_start(-5), 0);
    assert_eq!(packet_start(9), 9);
    assert_eq!(bin_index(0, 0, 640), 0);
    assert_eq!(bin_index(0, 9, 640), 0);
    assert_eq!(bin_index(0, 10, 640), 1);
    assert_eq!(bin_index(630, 9, 640), 63);
    assert_eq!(bin_index(640, 0, 640), 63);
    assert_eq!(bin_index(0, 5, 0), 63);
}

#[test]
fn nothing_to_decode_is_said_so() {
    assert_eq!(check_input(1), Ok(()));
    assert_eq!(check_input(0), Err("Audio buffer is empty".to_owned()));
    assert_eq!(check_samples(1), Ok(()));
    assert_eq!(check_samples(0), Err("No audio samples decoded".to_owned()));
}

#[test]
fn packets_last_from_the_first_start_to_the_furthest_end() {
    let mut d = DurationAccumulator::default();
    assert_eq!(d.elapsed_ticks(), None);
    d.update(100, 50);
    assert_eq!(d.elapsed_ticks(), Some(50));
    d.update(400, 10);
    d.update(200, 50);
    assert_eq!(d.elapsed_ticks(), Some(310));
    let mut early = DurationAccumulator::default();
    early.update(-30, 10);
    // No end before zero counts, so the span reaches it.
    assert_eq!(early.elapsed_ticks(), Some(30));
    let mut long = DurationAccumulator::default();
    long.update(i64::MIN, 0);
    long.update(i64::MAX, u64::MAX);
    assert_eq!(long.elapsed_ticks(), None);
}

#[test]
fn a_track_states_its_length_or_is_measured() {
    let track = |duration, time_base, num_frames, audio| TrackTiming {
        duration,
        time_base,
        num_frames,
        audio,
    };
    let t = |ticks, numer, denom| {
        Some(Timing {
            ticks,
            numer,
            denom,
        })
    };
    assert_eq!(
        track(Some(90), Some((1, 30)), Some(5), Some(Some(8000))).duration_from_track_metadata(),
        t(90, 1, 30)
    );
    // A duration of nothing is not completed from the frames.
    assert_eq!(
        track(Some(0), Some((1, 30)), Some(5), Some(Some(8000))).duration_from_track_metadata(),
        None
    );
    assert_eq!(
        track(Some(90), None, Some(5), Some(Some(8000))).duration_from_track_metadata(),
        t(5, 1, 8000)
    );
    assert_eq!(
        track(None, Some((1, 30)), Some(5), Some(None)).duration_from_track_metadata(),
        t(5, 1, 30)
    );
    assert_eq!(
        track(None, None, Some(5), None).duration_from_track_metadata(),
        None
    );
    let bare = track(None, None, None, Some(Some(16000)));
    assert_eq!(bare.duration_from_track_metadata(), None);
    assert_eq!(bare.measured(Some(160)).ok(), t(160, 1, 16000));
    assert_eq!(
        bare.measured(None).err().unwrap(),
        "No audio samples decoded"
    );
    assert_eq!(
        track(None, None, None, None).measured(Some(160)).err().unwrap(),
        "Missing timing information for audio track"
    );
    assert_eq!(convert_ticks(0, Some((1, 2)), Some(3)), None);
}
