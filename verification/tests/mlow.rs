//! Inbound MLOW packets, bare and with redundancy.

use voip_bridge::mlow::redundancy;
use wacore::voip::{MlowDecoder, MlowEncoder};

fn test_tone(freq_hz: f32, count: usize, phase: f32) -> Vec<f32> {
    (0..count)
        .map(|i| {
            let t = i as f32 / 16000.0;
            (2.0 * core::f32::consts::PI * freq_hz * t + phase).sin() * 0.5
        })
        .collect()
}

/// One stream: each packet is taken apart as its own payload type says.
struct Stream {
    inner: MlowDecoder,
}

impl Stream {
    fn new() -> Self {
        Stream {
            inner: MlowDecoder::new(),
        }
    }

    fn decode(&mut self, packet: &[u8], payload_type: Option<u8>) -> Vec<f32> {
        self.inner.set_redundancy(redundancy(payload_type));
        self.inner.decode(packet)
    }

    fn reset(&mut self) {
        self.inner.reset();
    }
}

#[test]
fn empty_payload_conceals_to_60ms_silence() {
    let mut decoder = Stream::new();
    let samples = decoder.decode(&[], None);
    assert_eq!(samples.len(), 960);
    assert!(samples.iter().all(|&s| s == 0.0));
}

#[test]
fn real_voice_roundtrip_decodes_non_silent_audio() {
    let mut encoder = MlowEncoder::new();
    let pcm = test_tone(440.0, 960, 0.0);
    let packet = encoder.encode(&pcm).expect("encode frame");

    let mut decoder = Stream::new();
    let decoded = decoder.decode(&packet, Some(120));
    assert_eq!(decoded.len(), 960);
    assert!(decoded.iter().all(|s| s.is_finite()));
    // Proves real voice reconstruction rather than zero-silence concealment
    assert!(
        decoded.iter().any(|&s| s.abs() > 0.05),
        "decoded voice should reconstruct non-silent audio"
    );
}

#[test]
fn stream_maintains_state_across_frames() {
    let mut encoder = MlowEncoder::new();
    let pcm_a = test_tone(440.0, 960, 0.0);
    let pcm_b = test_tone(880.0, 960, 0.5);
    let packet_a = encoder.encode(&pcm_a).expect("encode A");
    let packet_b = encoder.encode(&pcm_b).expect("encode B");

    // Stateful decode: frame A then frame B
    let mut dec_stream = Stream::new();
    let _ = dec_stream.decode(&packet_a, Some(120));
    let stateful_b = dec_stream.decode(&packet_b, Some(120));

    // Cold decode: frame B directly without preceding frame A
    let mut dec_cold = Stream::new();
    let cold_b = dec_cold.decode(&packet_b, Some(120));

    assert_eq!(stateful_b.len(), 960);
    assert_eq!(cold_b.len(), 960);
    // Inter-frame predictor and filter history differentiate stateful from cold
    assert_ne!(
        stateful_b,
        cold_b,
        "stateful decode should differ from cold start"
    );

    // Reset restores state back to clean initial condition
    dec_stream.reset();
    let after_reset_b = dec_stream.decode(&packet_b, Some(120));
    assert_eq!(
        after_reset_b,
        cold_b,
        "after reset, decode should match cold start"
    );
}

#[test]
fn red_payload_type_121_unwraps_split_red_and_clears_sticky_redundancy() {
    let mut encoder = MlowEncoder::new();
    let pcm_a = test_tone(500.0, 960, 0.0);
    let pcm_b = test_tone(1000.0, 960, 0.0);
    let bare_a = encoder.encode(&pcm_a).expect("encode A");
    let bare_b = encoder.encode(&pcm_b).expect("encode B");

    // Wrap bare_a in SplitRed (N=1 redundancy):
    // [0x80 | time_code, size, 0x00 (main marker), redundant_payload, main_payload]
    let red_payload = [0xAAu8, 0xBB];
    let mut env = vec![0x80u8, red_payload.len() as u8, 0x00];
    env.extend_from_slice(&red_payload);
    env.extend_from_slice(&bare_a);

    let mut dec_bare = Stream::new();
    let bare_pcm = dec_bare.decode(&bare_a, Some(120));

    let mut dec_red = Stream::new();
    // PT 121 activates RED depacketizer
    let red_pcm = dec_red.decode(&env, Some(121));
    assert_eq!(
        red_pcm,
        bare_pcm,
        "RED unwrapped frame should match bare decode"
    );

    // Subsequent bare frame with PT 120 or None must NOT keep sticky redundancy
    dec_red.reset();
    let bare_next = dec_red.decode(&bare_b, Some(120));
    let mut dec_clean = Stream::new();
    let expected_next = dec_clean.decode(&bare_b, Some(120));
    assert_eq!(
        bare_next,
        expected_next,
        "redundancy state must not remain sticky on PT 120"
    );
}
