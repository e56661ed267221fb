//! Waveforms and durations of audio files.
//!
//! A file's tracks and packets come from the audio crate. How long a file lasts
//! is computed here, up to the division that makes seconds of it. The samples
//! of a waveform are floating-point numbers, so its sums stay with the host's
//! glue; what is decided here is what to do with each packet and with each
//! answer of the decoder, and which bucket a sample falls into.

use vstd::prelude::*;

verus! {

/// The buckets of a waveform.
pub const WAVEFORM_SAMPLES: usize = 64;

/// The frames that are expected of a track that does not say.
pub const DEFAULT_FRAMES: u64 = 2_000_000;

/// The frames of a typical packet.
pub const FRAMES_PER_PACKET: u64 = 1152;

/// The packets that are decoded, about.
pub const TARGET_PACKETS: u64 = 512;

/// The frames that a waveform is spread over.
pub fn estimated_samples(total_frames: Option<u64>) -> (n: u64)
    ensures
        n == match total_frames {
            Some(frames) => frames,
            None => DEFAULT_FRAMES,
        },
{
    match total_frames {
        Some(frames) => frames,
        None => DEFAULT_FRAMES,
    }
}

/// One in how many packets is decoded: as many as keep the number of decoded
/// ones near the target, and at least every one.
pub open spec fn skip_of(estimated_samples: nat) -> nat {
    let packets = if estimated_samples / 1152 < 64 {
        64
    } else {
        estimated_samples / 1152
    };
    if packets / 512 < 1 {
        1
    } else {
        packets / 512
    }
}

/// One in how many packets is decoded.
pub fn packet_skip(estimated_samples: u64) -> (n: u64)
    ensures
        n == skip_of(estimated_samples as nat),
        n >= 1,
{
    let mut packets: u64 = estimated_samples / FRAMES_PER_PACKET;
    if packets < 64 {
        packets = 64;
    }
    let skip: u64 = packets / TARGET_PACKETS;
    if skip < 1 {
        1
    } else {
        skip
    }
}

/// What a packet says of itself.
#[derive(Debug, Clone, Copy, PartialEq, Eq, Structural)]
pub struct AudioPacket {
    /// The track it belongs to.
    pub track_id: u32,
    /// When it starts, in ticks.
    pub pts: i64,
    /// How long it lasts, in ticks.
    pub dur: u64,
}

/// What reading the next packet came to.
#[derive(Debug, Clone, PartialEq, Eq)]
pub enum PacketRead {
    /// A packet.
    Packet(AudioPacket),
    /// The file is over.
    End,
    /// The track list changed.
    ResetRequired,
    /// Anything else, rendered.
    Failed(String),
}

/// What decoding a packet came to.
#[derive(Debug, Clone, PartialEq, Eq)]
pub enum PacketDecode {
    /// Samples.
    Samples,
    /// The input ended inside the packet, or is gone.
    InputOver,
    /// The packet is malformed.
    Malformed,
    /// The decoder has to be reset.
    ResetRequired,
    /// Anything else, rendered.
    Failed(String),
}

/// What to do next.
#[derive(Debug, Clone, PartialEq, Eq)]
pub enum ScanStep {
    /// Read the next packet.
    Next,
    /// Reset the decoder, then read the next packet.
    Reset,
    /// Decode this packet.
    Decode,
    /// Count the decoded samples, then read the next packet.
    Accumulate,
    /// Stop reading.
    Finish,
    /// Give up.
    Fail(String),
}

/// The values that a [`ScanStep`] carries.
pub enum ScanStepView {
    Next,
    Reset,
    Decode,
    Accumulate,
    Finish,
    Fail(Seq<char>),
}

impl View for ScanStep {
    type V = ScanStepView;

    open spec fn view(&self) -> ScanStepView {
        match *self {
            ScanStep::Next => ScanStepView::Next,
            ScanStep::Reset => ScanStepView::Reset,
            ScanStep::Decode => ScanStepView::Decode,
            ScanStep::Accumulate => ScanStepView::Accumulate,
            ScanStep::Finish => ScanStepView::Finish,
            ScanStep::Fail(e) => ScanStepView::Fail(e@),
        }
    }
}

/// How far a waveform's scan has come.
#[derive(Debug, Clone, Copy, PartialEq, Eq, Structural)]
pub struct WaveformScan {
    /// The track that is scanned.
    pub track_id: u32,
    /// One in how many packets is decoded.
    pub skip: u64,
    /// The packets of the track that were seen.
    pub packets: u64,
}

impl WaveformScan {
    /// What a read comes to. A packet of another track is passed over
    /// uncounted.
    pub open spec fn read_step(self, read: PacketRead) -> ScanStepView {
        match read {
            PacketRead::End => ScanStepView::Finish,
            PacketRead::ResetRequired => ScanStepView::Reset,
            PacketRead::Failed(e) => ScanStepView::Fail("Audio decode error: "@ + e@),
            PacketRead::Packet(p) => if p.track_id != self.track_id || (self.packets + 1)
                % self.skip as int != 0 {
                ScanStepView::Next
            } else {
                ScanStepView::Decode
            },
        }
    }

    /// The packets of the track that were seen after a read.
    pub open spec fn packets_after(self, read: PacketRead) -> int {
        match read {
            PacketRead::Packet(p) if p.track_id == self.track_id => self.packets + 1,
            _ => self.packets as int,
        }
    }

    /// A scan of a track.
    pub fn new(track_id: u32, total_frames: Option<u64>) -> (s: Self)
        ensures
            s.track_id == track_id,
            s.packets == 0,
            s.skip == skip_of(
                match total_frames {
                    Some(frames) => frames as nat,
                    None => DEFAULT_FRAMES as nat,
                },
            ),
            s.skip >= 1,
    {
        WaveformScan {
            track_id,
            skip: packet_skip(estimated_samples(total_frames)),
            packets: 0,
        }
    }

    /// Takes what reading the next packet came to.
    pub fn on_read(&mut self, read: &PacketRead) -> (step: ScanStep)
        requires
            old(self).skip >= 1,
            old(self).packets < u64::MAX,
        ensures
            step@ == old(self).read_step(*read),
            final(self).packets == old(self).packets_after(*read),
            final(self).track_id == old(self).track_id,
            final(self).skip == old(self).skip,
    {
        match read {
            PacketRead::End => ScanStep::Finish,
            PacketRead::ResetRequired => ScanStep::Reset,
            PacketRead::Failed(e) => {
                let mut s = "Audio decode error: ".to_owned();
                s.push_str(e.as_str());
                ScanStep::Fail(s)
            },
            PacketRead::Packet(p) => {
                if p.track_id != self.track_id {
                    return ScanStep::Next;
                }
                self.packets = self.packets + 1;
                if self.packets % self.skip != 0 {
                    ScanStep::Next
                } else {
                    ScanStep::Decode
                }
            },
        }
    }
}

/// Takes what decoding a packet came to. A malformed packet is passed over,
/// and an input that is over ends the scan; neither fails it.
pub fn on_decode(decode: &PacketDecode) -> (step: ScanStep)
    ensures
        step@ == match *decode {
            PacketDecode::Samples => ScanStepView::Accumulate,
            PacketDecode::InputOver => ScanStepView::Finish,
            PacketDecode::Malformed => ScanStepView::Next,
            PacketDecode::ResetRequired => ScanStepView::Reset,
            PacketDecode::Failed(e) => ScanStepView::Fail("Failed to decode audio frame: "@ + e@),
        },
{
    match decode {
        PacketDecode::Samples => ScanStep::Accumulate,
        PacketDecode::InputOver => ScanStep::Finish,
        PacketDecode::Malformed => ScanStep::Next,
        PacketDecode::ResetRequired => ScanStep::Reset,
        PacketDecode::Failed(e) => {
            let mut s = "Failed to decode audio frame: ".to_owned();
            s.push_str(e.as_str());
            ScanStep::Fail(s)
        },
    }
}

/// Where a packet starts: at its timestamp, if that is not negative.
pub fn packet_start(pts: i64) -> (start: u64)
    ensures
        start == if pts < 0 {
            0int
        } else {
            pts as int
        },
{
    if pts < 0 {
        0
    } else {
        pts as u64
    }
}

/// The bucket of a frame: its share of all frames, and the last one for what
/// lies beyond them.
pub open spec fn bucket(frame: nat, estimated_total: nat) -> nat {
    let total = if estimated_total < 1 {
        1
    } else {
        estimated_total
    };
    if frame * 64 / total < 64 {
        frame * 64 / total
    } else {
        63
    }
}

/// The bucket of a packet's `i`-th frame.
pub fn bin_index(packet_start: u64, i: u64, estimated_total: u64) -> (bin: usize)
    requires
        (packet_start + i) * 64 <= u64::MAX,
    ensures
        bin == bucket((packet_start + i) as nat, estimated_total as nat),
        bin < WAVEFORM_SAMPLES,
{
    let total: u64 = if estimated_total < 1 {
        1
    } else {
        estimated_total
    };
    let share: u64 = (packet_start + i) * 64 / total;
    if share < 64 {
        share as usize
    } else {
        WAVEFORM_SAMPLES - 1
    }
}

/// A later frame never falls into an earlier bucket.
pub proof fn buckets_are_ordered(a: nat, b: nat, estimated_total: nat)
    requires
        a <= b,
    ensures
        bucket(a, estimated_total) <= bucket(b, estimated_total),
{
    let total: nat = if estimated_total < 1 {
        1
    } else {
        estimated_total
    };
    vstd::arithmetic::mul::lemma_mul_inequality(a as int, b as int, 64);
    vstd::arithmetic::div_mod::lemma_div_is_ordered((a * 64) as int, (b * 64) as int, total as int);
}

/// Every frame that was expected falls into its own share of the buckets, so
/// none of those is cut off by the last one.
pub proof fn expected_frames_spread(frame: nat, estimated_total: nat)
    requires
        frame < estimated_total,
    ensures
        bucket(frame, estimated_total) == frame * 64 / estimated_total,
{
    vstd::arithmetic::div_mod::lemma_multiply_divide_lt(
        (frame * 64) as int,
        estimated_total as int,
        64,
    );
}

/// Whether a scan can be turned into a waveform: not without a sample.
pub fn check_samples(total_samples: u64) -> (res: Result<(), String>)
    ensures
        match res {
            Ok(()) => total_samples > 0,
            Err(e) => total_samples == 0 && e@ == "No audio samples decoded"@,
        },
{
    if total_samples == 0 {
        return Err("No audio samples decoded".to_owned());
    }
    Ok(())
}

/// Whether there is an input at all.
pub fn check_input(len: usize) -> (res: Result<(), String>)
    ensures
        match res {
            Ok(()) => len > 0,
            Err(e) => len == 0 && e@ == "Audio buffer is empty"@,
        },
{
    if len == 0 {
        return Err("Audio buffer is empty".to_owned());
    }
    Ok(())
}

/// When a packet ends.
pub open spec fn packet_end(packet: (i64, u64)) -> int {
    packet.0 + packet.1
}

/// The furthest end of some packets, and zero at the least.
pub open spec fn furthest(packets: Seq<(i64, u64)>) -> int
    decreases packets.len(),
{
    if packets.len() == 0 {
        0
    } else {
        let before = furthest(packets.drop_last());
        if packet_end(packets.last()) > before {
            packet_end(packets.last())
        } else {
            before
        }
    }
}

/// How long some packets last: from the start of the first to the furthest
/// end. Nothing, without a packet or where the first starts behind every end.
pub open spec fn elapsed(packets: Seq<(i64, u64)>) -> Option<u64> {
    if packets.len() == 0 {
        None
    } else {
        let ticks = furthest(packets) - packets[0].0;
        if 0 <= ticks <= u64::MAX {
            Some(ticks as u64)
        } else {
            None
        }
    }
}

/// The span of the packets that were seen.
#[derive(Debug, Clone, Copy, PartialEq, Eq)]
pub struct DurationAccumulator {
    first_ts: Option<i64>,
    max_end_ts: i128,
}

impl Default for DurationAccumulator {
    fn default() -> (d: Self)
        ensures
            d.spans(Seq::empty()),
    {
        DurationAccumulator { first_ts: None, max_end_ts: 0 }
    }
}

impl DurationAccumulator {
    /// Whether these are the packets that were seen, in order.
    pub closed spec fn spans(self, packets: Seq<(i64, u64)>) -> bool {
        &&& self.max_end_ts == furthest(packets)
        &&& match self.first_ts {
            None => packets.len() == 0,
            Some(ts) => packets.len() > 0 && packets[0].0 == ts,
        }
    }

    /// Takes one more packet.
    pub fn update(&mut self, ts: i64, dur: u64)
        ensures
            forall|packets: Seq<(i64, u64)>| #[trigger]
                old(self).spans(packets) ==> final(self).spans(packets.push((ts, dur))),
    {
        if self.first_ts.is_none() {
            self.first_ts = Some(ts);
        }
        let end: i128 = ts as i128 + dur as i128;
        if end > self.max_end_ts {
            self.max_end_ts = end;
        }
        assert forall|packets: Seq<(i64, u64)>| #[trigger] old(self).spans(packets) implies self.spans(
            packets.push((ts, dur)),
        ) by {
            assert(packets.push((ts, dur)).drop_last() =~= packets);
        }
    }

    /// How long the packets last.
    pub fn elapsed_ticks(&self) -> (ticks: Option<u64>)
        ensures
            forall|packets: Seq<(i64, u64)>| #[trigger]
                self.spans(packets) ==> ticks == elapsed(packets),
    {
        proof {
            assert forall|packets: Seq<(i64, u64)>| #[trigger] self.spans(packets) implies 0
                <= self.max_end_ts <= i64::MAX + u64::MAX by {
                furthest_bounds(packets);
            }
        }
        match self.first_ts {
            None => None,
            Some(start) => {
                let ticks: i128 = match self.max_end_ts.checked_sub(start as i128) {
                    Some(ticks) => ticks,
                    None => return None,
                };
                if ticks < 0 || ticks > u64::MAX as i128 {
                    None
                } else {
                    Some(ticks as u64)
                }
            },
        }
    }
}

/// The furthest end lies within what timestamps and durations can reach.
pub proof fn furthest_bounds(packets: Seq<(i64, u64)>)
    ensures
        0 <= furthest(packets) <= i64::MAX + u64::MAX,
    decreases packets.len(),
{
    if packets.len() > 0 {
        furthest_bounds(packets.drop_last());
    }
}

/// No packet that was seen ends after the span does.
pub proof fn the_span_covers_every_packet(packets: Seq<(i64, u64)>, i: int)
    requires
        0 <= i < packets.len(),
    ensures
        packet_end(packets[i]) <= furthest(packets),
    decreases packets.len(),
{
    if i < packets.len() - 1 {
        the_span_covers_every_packet(packets.drop_last(), i);
    }
}

/// Whether a result is this answer.
pub open spec fn answers(res: Result<Timing, String>, answer: Result<Timing, Seq<char>>) -> bool {
    match (res, answer) {
        (Ok(t), Ok(m)) => t == m,
        (Err(e), Err(m)) => e@ == m,
        _ => false,
    }
}

/// A length of time: so many ticks of `numer / denom` seconds each.
#[derive(Debug, Clone, Copy, PartialEq, Eq, Structural)]
pub struct Timing {
    /// The ticks.
    pub ticks: u64,
    /// What one tick is multiplied by.
    pub numer: u32,
    /// What one tick is divided by.
    pub denom: u32,
}

/// The length of time of some ticks: by the time base where there is one, else
/// by the sample rate. No ticks are no length.
pub open spec fn timing_of(
    ticks: u64,
    time_base: Option<(u32, u32)>,
    sample_rate: Option<u32>,
) -> Option<Timing> {
    if ticks == 0 {
        None
    } else {
        match (time_base, sample_rate) {
            (Some(tb), _) => Some(Timing { ticks, numer: tb.0, denom: tb.1 }),
            (None, Some(rate)) => Some(Timing { ticks, numer: 1, denom: rate }),
            (None, None) => None,
        }
    }
}

/// The length of time of some ticks.
pub fn convert_ticks(ticks: u64, time_base: Option<(u32, u32)>, sample_rate: Option<u32>) -> (t:
    Option<Timing>)
    ensures
        t == timing_of(ticks, time_base, sample_rate),
{
    if ticks == 0 {
        return None;
    }
    match (time_base, sample_rate) {
        (Some(tb), _) => Some(Timing { ticks, numer: tb.0, denom: tb.1 }),
        (None, Some(rate)) => Some(Timing { ticks, numer: 1, denom: rate }),
        (None, None) => None,
    }
}

/// What a track says of its length.
#[derive(Debug, Clone, Copy, PartialEq, Eq)]
pub struct TrackTiming {
    /// Its duration in ticks.
    pub duration: Option<u64>,
    /// The seconds of a tick, as a fraction.
    pub time_base: Option<(u32, u32)>,
    /// Its frames.
    pub num_frames: Option<u64>,
    /// Whether it has audio parameters, and in them its sample rate.
    pub audio: Option<Option<u32>>,
}

impl TrackTiming {
    /// The sample rate, if it is known.
    pub open spec fn sample_rate(self) -> Option<u32> {
        match self.audio {
            Some(rate) => rate,
            None => None,
        }
    }

    /// The length that the track itself states: its duration, if it has a time
    /// base, else its frames, if it has audio parameters.
    pub open spec fn stated(self) -> Option<Timing> {
        match (self.duration, self.time_base) {
            (Some(ticks), Some(tb)) => timing_of(ticks, Some(tb), None),
            _ => match (self.num_frames, self.audio) {
                (Some(frames), Some(rate)) => timing_of(frames, self.time_base, rate),
                _ => None,
            },
        }
    }

    /// Reads the length that the track itself states.
    pub fn duration_from_track_metadata(&self) -> (t: Option<Timing>)
        ensures
            t == self.stated(),
    {
        match (self.duration, self.time_base) {
            (Some(ticks), Some(tb)) => {
                return convert_ticks(ticks, Some(tb), None);
            },
            _ => {},
        }
        match (self.num_frames, self.audio) {
            (Some(frames), Some(rate)) => convert_ticks(frames, self.time_base, rate),
            _ => None,
        }
    }

    /// The length that the packets' span comes to.
    pub open spec fn span_timing(self, elapsed: Option<u64>) -> Result<Timing, Seq<char>> {
        match elapsed {
            None => Err("No audio samples decoded"@),
            Some(ticks) => match timing_of(ticks, self.time_base, self.sample_rate()) {
                Some(t) => Ok(t),
                None => Err("Missing timing information for audio track"@),
            },
        }
    }

    /// Turns the packets' span into a length, where the track states none.
    pub fn measured(&self, elapsed: Option<u64>) -> (res: Result<Timing, String>)
        ensures
            answers(res, self.span_timing(elapsed)),
    {
        let ticks: u64 = match elapsed {
            Some(ticks) => ticks,
            None => return Err("No audio samples decoded".to_owned()),
        };
        let rate = match self.audio {
            Some(rate) => rate,
            None => None,
        };
        match convert_ticks(ticks, self.time_base, rate) {
            Some(t) => Ok(t),
            None => Err("Missing timing information for audio track".to_owned()),
        }
    }
}

/// What an audio file holds, as far as its length depends on it.
pub struct AudioFileView {
    /// The track that is heard by default, and what it says of its length.
    pub track: Option<(u32, TrackTiming)>,
    /// The packets that are still to be read, in order; nothing stands for a
    /// read that reports a changed track list.
    pub reads: Seq<Option<AudioPacket>>,
    /// The error behind the last of them; nothing where the file just ends.
    pub failure: Option<Seq<char>>,
}

/// The packets of one track: when each starts, and how long it lasts.
pub open spec fn packets_of(reads: Seq<Option<AudioPacket>>, track_id: u32) -> Seq<(i64, u64)>
    decreases reads.len(),
{
    if reads.len() == 0 {
        Seq::empty()
    } else {
        let rest = packets_of(reads.drop_first(), track_id);
        match reads[0] {
            Some(p) if p.track_id == track_id => seq![(p.pts, p.dur)] + rest,
            _ => rest,
        }
    }
}

impl AudioFileView {
    /// How long the file lasts: as long as its track states, else from the
    /// start of the track's first packet to the furthest end of any.
    pub open spec fn duration(self) -> Result<Timing, Seq<char>> {
        match self.track {
            None => Err("No supported audio track found"@),
            Some((track_id, timing)) => match timing.stated() {
                Some(t) => Ok(t),
                None => match self.failure {
                    Some(e) => Err("Audio decode error: "@ + e),
                    None => timing.span_timing(elapsed(packets_of(self.reads, track_id))),
                },
            },
        }
    }
}

/// A file that was opened.
#[verifier::external_body]
pub struct AudioFile {
    reader: Box<dyn symphonia::core::formats::FormatReader>,
}

/// What an opened file holds. A reader of some bytes gives packets and changes
/// of the track list only so often before it ends or fails.
pub uninterp spec fn file_of(file: AudioFile) -> AudioFileView;

/// What opening some bytes comes to: what the file holds, or the error.
pub uninterp spec fn demuxed(audio: Seq<u8>) -> Result<AudioFileView, Seq<char>>;

/// Whether opening a file came to this.
pub open spec fn opens_as(
    res: Result<AudioFile, String>,
    answer: Result<AudioFileView, Seq<char>>,
) -> bool {
    match (res, answer) {
        (Ok(file), Ok(m)) => file_of(file) == m,
        (Err(e), Err(m)) => e@ == m,
        _ => false,
    }
}

/// [`symphonia::core::formats::probe::Probe::probe`] with the formats that the
/// crate knows by default, on bytes in memory: a reader, or the rendered error.
/// Both follow from the bytes alone.
#[verifier::external_body]
fn probe(audio: Vec<u8>) -> (res: Result<AudioFile, String>)
    ensures
        opens_as(res, demuxed(audio@)),
{
    let source = Box::new(std::io::Cursor::new(audio));
    let stream = symphonia::core::io::MediaSourceStream::new(source, Default::default());
    match symphonia::default::get_probe().probe(
        &symphonia::core::formats::probe::Hint::new(),
        stream,
        symphonia::core::formats::FormatOptions::default(),
        symphonia::core::meta::MetadataOptions::default(),
    ) {
        Ok(reader) => Ok(AudioFile { reader }),
        Err(e) => Err(e.to_string()),
    }
}

/// [`symphonia::core::formats::FormatReader::default_track`] of the audio tracks: its number, and what it
/// says of its length.
#[verifier::external_body]
fn default_track(file: &AudioFile) -> (track: Option<(u32, TrackTiming)>)
    ensures
        track == file_of(*file).track,
{
    let track = file.reader.default_track(symphonia::core::formats::TrackType::Audio)?;
    let timing = TrackTiming {
        duration: track.duration.map(|d| d.get()),
        time_base: track.time_base.map(|tb| (tb.numer.get(), tb.denom.get())),
        num_frames: track.num_frames,
        audio: track.codec_params.as_ref().and_then(|p| p.audio()).map(|p| p.sample_rate),
    };
    Some((track.id, timing))
}

/// [`symphonia::core::formats::FormatReader::next_packet`]: the next packet or
/// change of the track list, while there is one, and then the end or the rendered error. Nothing is
/// stated of a reader that ended or failed.
#[verifier::external_body]
fn next_read(file: &mut AudioFile) -> (read: PacketRead)
    ensures
        file_of(*old(file)).reads.len() > 0 ==> match file_of(*old(file)).reads[0] {
            Some(p) => read == PacketRead::Packet(p),
            None => read == PacketRead::ResetRequired,
        },
        file_of(*old(file)).reads.len() > 0 ==> file_of(*final(file)).reads == file_of(
            *old(file),
        ).reads.drop_first(),
        file_of(*old(file)).reads.len() > 0 ==> file_of(*final(file)).failure == file_of(
            *old(file),
        ).failure,
        file_of(*old(file)).reads.len() == 0 ==> match file_of(*old(file)).failure {
            None => read == PacketRead::End,
            Some(text) => read matches PacketRead::Failed(e) && e@ == text,
        },
{
    match file.reader.next_packet() {
        Ok(Some(p)) => PacketRead::Packet(
            AudioPacket { track_id: p.track_id, pts: p.pts.get(), dur: p.dur.get() },
        ),
        Ok(None) => PacketRead::End,
        Err(symphonia::core::errors::Error::ResetRequired) => PacketRead::ResetRequired,
        Err(e) => PacketRead::Failed(e.to_string()),
    }
}

/// How far the measuring of a track has come.
pub struct DurationScan {
    track_id: u32,
    span: DurationAccumulator,
    seen: Ghost<Seq<(i64, u64)>>,
}

impl DurationScan {
    /// The track that is measured.
    pub closed spec fn track(&self) -> u32 {
        self.track_id
    }

    /// The packets of the track that were seen, in order.
    pub closed spec fn seen(&self) -> Seq<(i64, u64)> {
        self.seen@
    }

    /// The span is that of the packets that were seen.
    pub closed spec fn wf(&self) -> bool {
        self.span.spans(self.seen@)
    }

    /// The measuring of a track, before its first packet.
    pub fn new(track_id: u32) -> (s: Self)
        ensures
            s.wf(),
            s.track() == track_id,
            s.seen() == Seq::<(i64, u64)>::empty(),
    {
        DurationScan { track_id, span: DurationAccumulator::default(), seen: Ghost(Seq::empty()) }
    }

    /// Takes what reading the next packet came to. A packet of another track
    /// is passed over, and so is a change of the track list.
    pub fn on_read(&mut self, read: &PacketRead) -> (step: ScanStep)
        requires
            old(self).wf(),
        ensures
            final(self).wf(),
            final(self).track() == old(self).track(),
            step@ == match *read {
                PacketRead::End => ScanStepView::Finish,
                PacketRead::Failed(e) => ScanStepView::Fail("Audio decode error: "@ + e@),
                _ => ScanStepView::Next,
            },
            final(self).seen() == match *read {
                PacketRead::Packet(p) if p.track_id == old(self).track() => old(self).seen().push(
                    (p.pts, p.dur),
                ),
                _ => old(self).seen(),
            },
    {
        match read {
            PacketRead::End => ScanStep::Finish,
            PacketRead::ResetRequired => ScanStep::Next,
            PacketRead::Failed(e) => {
                let mut s = "Audio decode error: ".to_owned();
                s.push_str(e.as_str());
                ScanStep::Fail(s)
            },
            PacketRead::Packet(p) => {
                if p.track_id == self.track_id {
                    self.span.update(p.pts, p.dur);
                    self.seen = Ghost(self.seen@.push((p.pts, p.dur)));
                }
                ScanStep::Next
            },
        }
    }

    /// The length that the packets come to.
    pub fn timing(&self, track: &TrackTiming) -> (res: Result<Timing, String>)
        requires
            self.wf(),
        ensures
            answers(res, track.span_timing(elapsed(self.seen()))),
    {
        track.measured(self.span.elapsed_ticks())
    }
}

/// What the length of some bytes comes to.
pub open spec fn duration_of(audio: Seq<u8>) -> Result<Timing, Seq<char>> {
    if audio.len() == 0 {
        Err("Audio buffer is empty"@)
    } else {
        match demuxed(audio) {
            Err(e) => Err("Failed to probe audio format: "@ + e),
            Ok(file) => file.duration(),
        }
    }
}

/// How long an audio file lasts.
pub fn compute_duration(audio: Vec<u8>) -> (res: Result<Timing, String>)
    ensures
        answers(res, duration_of(audio@)),
{
    check_input(audio.len())?;
    let mut file = match probe(audio) {
        Ok(file) => file,
        Err(e) => {
            let mut s = "Failed to probe audio format: ".to_owned();
            s.push_str(e.as_str());
            return Err(s);
        },
    };
    let (track_id, timing) = match default_track(&file) {
        Some(track) => track,
        None => return Err("No supported audio track found".to_owned()),
    };
    match timing.duration_from_track_metadata() {
        Some(t) => return Ok(t),
        None => {},
    }
    let ghost all = file_of(file);
    let mut scan = DurationScan::new(track_id);
    loop
        invariant
            scan.wf(),
            scan.track() == track_id,
            all.track == Some((track_id, timing)),
            timing.stated() is None,
            duration_of(audio@) == all.duration(),
            file_of(file).failure == all.failure,
            packets_of(all.reads, track_id) == scan.seen() + packets_of(
                file_of(file).reads,
                track_id,
            ),
        decreases file_of(file).reads.len(),
    {
        let ghost left = file_of(file).reads;
        let read = next_read(&mut file);
        match scan.on_read(&read) {
            ScanStep::Finish => {
                assert(packets_of(all.reads, track_id) =~= scan.seen());
                return scan.timing(&timing);
            },
            ScanStep::Fail(e) => {
                return Err(e);
            },
            _ => {
                assert(left.len() > 0);
                assert(packets_of(all.reads, track_id) =~= scan.seen() + packets_of(
                    left.drop_first(),
                    track_id,
                ));
            },
        }
    }
}

} // verus!
