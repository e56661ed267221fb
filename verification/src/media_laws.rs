//! What is offered to a relay's queue, and how a recording is measured.

use vstd::prelude::*;

use crate::audio::{
    bucket, demuxed, duration_of, elapsed, furthest, packet_end, packets_of, skip_of, timing_of,
    AudioFileView, AudioPacket, PacketRead, ScanStepView, Timing, TrackTiming, WaveformScan,
    DEFAULT_FRAMES, WAVEFORM_SAMPLES,
};
use crate::js_relay::{
    close_events, close_log, close_outcome, count_after, free_places, offered, outcome_of,
    packet_events, reason_of, reports, taken, CloseFate, PacketPush, RelayEventView, SendOutcome,
    Unsent, RELAY_EVENT_CHANNEL_CAPACITY,
};
use crate::js_transport::{
    QueueAct, TransportEventView, TransportPush, TRANSPORT_EVENT_CHANNEL_CAPACITY,
};

verus! {

/// The places that are free and those that are taken are all there are; a queue
/// without a bound is never short of any.
pub proof fn places_are_free_or_taken(cap: usize, waiting: usize)
    ensures
        waiting <= cap ==> free_places(Some(cap), waiting) + waiting == cap,
        waiting > cap ==> free_places(Some(cap), waiting) == 0,
        free_places(None, waiting) == usize::MAX,
{
}

/// The packet is offered whole and last; in front of it stands the count where
/// there is one and both fit, and nothing else.
pub proof fn a_packet_is_offered_behind_its_count(free: usize, drops: u32, bytes: Seq<u8>)
    ensures
        packet_events(free, drops, bytes).last() == RelayEventView::PacketReceived(bytes),
        drops > 0 && free >= 2 ==> packet_events(free, drops, bytes).len() == 2 && packet_events(
            free,
            drops,
            bytes,
        )[0] == RelayEventView::InboundDropped(drops),
        drops == 0 || free < 2 ==> packet_events(free, drops, bytes).len() == 1,
        reports(free, drops) <==> drops > 0 && free >= 2,
{
}

/// A count that went out is not counted again, one that did not stays, and a
/// packet without room adds one; only the end of the count wraps.
pub proof fn the_count_is_cleared_by_a_report_alone(drops: u32, packet: SendOutcome)
    ensures
        count_after(drops, Some(SendOutcome::Sent), SendOutcome::Sent) == 0,
        count_after(drops, Some(SendOutcome::Sent), SendOutcome::Full) == 1,
        count_after(drops, None, SendOutcome::Sent) == drops,
        count_after(drops, None, SendOutcome::Closed) == drops,
        (count_after(drops, None, SendOutcome::Full) as int - drops as int - 1) % 0x1_0000_0000
            == 0,
        count_after(drops, Some(SendOutcome::Full), packet) == count_after(drops, None, packet),
        count_after(drops, Some(SendOutcome::Closed), packet) == count_after(drops, None, packet),
{
}

/// What became of each offer is told in the order of the offers.
pub proof fn outcomes_are_told_in_order(push: PacketPush)
    ensures
        push.outcomes().last() == push.packet,
        push.report matches Some((_, outcome)) ==> push.outcomes().len() == 2
            && push.outcomes()[0] == outcome && push.report_outcome() == Some(outcome),
        push.report is None ==> push.outcomes().len() == 1 && push.report_outcome() is None,
{
}

/// Each offer keeps its event and its own outcome.
pub proof fn an_offer_keeps_its_outcome(
    events: Seq<RelayEventView>,
    outcomes: Seq<SendOutcome>,
    i: int,
)
    requires
        0 <= i < events.len(),
    ensures
        offered(events, outcomes).len() == events.len(),
        offered(events, outcomes)[i].0 == events[i],
        offered(events, outcomes)[i].1 == outcomes[i],
        taken(events).len() == events.len(),
        taken(events)[i].0 == events[i],
        taken(events)[i].1 == SendOutcome::Sent,
{
}

/// A close goes out behind the count; a count that does not go out holds the
/// close back with it, and a close that finds no room waits alone.
pub proof fn a_close_waits_behind_its_count(pending: u32, report: SendOutcome, close: SendOutcome)
    ensures
        pending > 0 && report != SendOutcome::Sent ==> close_outcome(pending, report, close)
            == CloseFate::Later(Some(pending)),
        pending == 0 || report == SendOutcome::Sent ==> {
            &&& close == SendOutcome::Sent <==> close_outcome(pending, report, close)
                == CloseFate::Sent
            &&& close == SendOutcome::Closed <==> close_outcome(pending, report, close)
                == CloseFate::Closed
            &&& close == SendOutcome::Full <==> close_outcome(pending, report, close)
                == CloseFate::Later(None)
        },
{
}

/// For a close the count is offered first where there is one, and the close
/// only once the count was taken.
pub proof fn a_close_is_offered_behind_its_count(
    pending: u32,
    event: RelayEventView,
    report: SendOutcome,
    close: SendOutcome,
)
    ensures
        close_events(pending, event).last() == event,
        pending > 0 ==> close_events(pending, event).len() == 2 && close_events(pending, event)[0]
            == RelayEventView::InboundDropped(pending),
        pending == 0 ==> close_events(pending, event).len() == 1,
        pending == 0 ==> close_log(pending, event, report, close) == seq![(event, close)],
        pending > 0 && report != SendOutcome::Sent ==> close_log(pending, event, report, close)
            == seq![(RelayEventView::InboundDropped(pending), report)],
        pending > 0 && report == SendOutcome::Sent ==> close_log(pending, event, report, close)
            == seq![(RelayEventView::InboundDropped(pending), SendOutcome::Sent), (event, close)],
{
    let log = close_log(pending, event, report, close);
    if pending == 0 {
        assert(log =~= seq![(event, close)]);
    } else if report != SendOutcome::Sent {
        assert(log =~= seq![(RelayEventView::InboundDropped(pending), report)]);
    } else {
        assert(log =~= seq![
            (RelayEventView::InboundDropped(pending), SendOutcome::Sent),
            (event, close),
        ]);
    }
}

/// A reason that says something is kept; an empty one is none.
pub proof fn an_empty_reason_is_none(text: Seq<char>)
    ensures
        text.len() > 0 ==> reason_of(Some(text)) == Some(text),
        text.len() == 0 ==> reason_of(Some(text)) is None,
        reason_of(None) is None,
{
}

/// A push is one offer, and a close behind it where there was one.
pub proof fn a_push_offers_once(push: TransportPush, event: TransportEventView)
    ensures
        push.acts(event)[0] == QueueAct::Offered(event, push.outcome),
        push.closed is None ==> push.acts(event).len() == 1,
        push.closed matches Some(first) ==> push.acts(event).len() == 2 && push.acts(event)[1]
            == QueueAct::Closed(first),
{
}

/// A waveform has sixty-four samples, a recording that does not say how long it
/// is counts as two million frames, and queues have room for a burst.
pub proof fn waveforms_and_queues_have_their_sizes()
    ensures
        WAVEFORM_SAMPLES == 64,
        DEFAULT_FRAMES == 2_000_000,
        RELAY_EVENT_CHANNEL_CAPACITY == 128,
        TRANSPORT_EVENT_CHANNEL_CAPACITY == 32 * 1024,
{
}

/// As long as a recording has no more than some thousand packets each is
/// decoded; beyond that one in as many as keeps about five hundred.
pub proof fn decoding_stays_near_its_target(n: nat)
    ensures
        skip_of(n) >= 1,
        n < 1152 * 1024 ==> skip_of(n) == 1,
        n >= 1152 * 512 ==> skip_of(n) * (1152 * 512) <= n < (skip_of(n) + 1) * (1152 * 512),
{
    let packets = n / 1152;
    if n >= 1152 * 512 {
        assert(packets >= 512);
        assert(packets / 512 == n / (1152 * 512)) by {
            vstd::arithmetic::div_mod::lemma_div_denominator(n as int, 1152, 512);
        }
    }
}

/// A frame falls into the bucket of its share of the whole, and what lies
/// beyond the whole into the last.
pub proof fn a_frame_falls_into_its_share(frame: nat, total: nat)
    requires
        total > 0,
    ensures
        bucket(frame, total) < 64,
        frame < total ==> bucket(frame, total) * total <= frame * 64 < (bucket(frame, total) + 1)
            * total,
        frame >= total ==> bucket(frame, total) == 63,
        bucket(frame, 0) == bucket(frame, 1),
{
    let share = (frame * 64) as int / total as int;
    vstd::arithmetic::div_mod::lemma_fundamental_div_mod((frame * 64) as int, total as int);
    if frame < total {
        crate::audio::expected_frames_spread(frame, total);
        assert(share * total <= frame * 64 && frame * 64 < (share + 1) * total) by (nonlinear_arith)
            requires
                frame * 64 == total * share + (frame * 64) as int % total as int,
                0 <= (frame * 64) as int % total as int,
                (frame * 64) as int % (total as int) < total,
        ;
    } else {
        assert(share >= 64) by (nonlinear_arith)
            requires
                frame >= total,
                total > 0,
                frame * 64 == total * share + (frame * 64) as int % total as int,
                (frame * 64) as int % (total as int) < total,
        ;
    }
}

/// The furthest end is that of some packet, or nothing ends after zero.
pub proof fn the_furthest_end_is_an_end(packets: Seq<(i64, u64)>)
    ensures
        furthest(packets) == 0 || exists|i: int|
            0 <= i < packets.len() && furthest(packets) == packet_end(#[trigger] packets[i]),
    decreases packets.len(),
{
    if packets.len() > 0 {
        let front = packets.drop_last();
        the_furthest_end_is_an_end(front);
        if packet_end(packets.last()) > furthest(front) {
            assert(packets[packets.len() - 1] == packets.last());
        } else if furthest(front) != 0 {
            let i = choose|i: int|
                0 <= i < front.len() && furthest(front) == packet_end(#[trigger] front[i]);
            assert(packets[i] == front[i]);
        }
    }
}

/// A packet ends as long after its start as it lasts, and a recording lasts
/// from the start of its first packet to the furthest end.
pub proof fn a_recording_lasts_from_its_first_start(packets: Seq<(i64, u64)>)
    ensures
        packets.len() == 0 ==> elapsed(packets) is None,
        packets.len() > 0 ==> packet_end(packets[0]) - packets[0].0 == packets[0].1,
        elapsed(packets) matches Some(ticks) ==> packets.len() > 0 && packets[0].0 + ticks
            == furthest(packets),
        packets.len() > 0 && 0 <= furthest(packets) - packets[0].0 < 0x1_0000_0000_0000_0000
            ==> elapsed(packets) is Some,
{
}

/// The packets of a track are those that name it, in order, each with its start
/// and how long it lasts.
pub proof fn a_track_has_its_own_packets(
    a: Seq<Option<AudioPacket>>,
    b: Seq<Option<AudioPacket>>,
    track: u32,
    p: AudioPacket,
)
    ensures
        packets_of(a + b, track) == packets_of(a, track) + packets_of(b, track),
        p.track_id == track ==> packets_of(seq![Some(p)], track) == seq![(p.pts, p.dur)],
        p.track_id != track ==> packets_of(seq![Some(p)], track).len() == 0,
        packets_of(seq![None::<AudioPacket>], track).len() == 0,
    decreases a.len(),
{
    let one = seq![Some(p)];
    let change = seq![None::<AudioPacket>];
    assert(one.drop_first() =~= Seq::empty());
    assert(change.drop_first() =~= Seq::empty());
    assert(packets_of(one.drop_first(), track) =~= Seq::empty());
    if p.track_id == track {
        assert(packets_of(one, track) =~= seq![(p.pts, p.dur)]);
    }
    if a.len() == 0 {
        assert(a + b =~= b);
        assert(packets_of(a, track) + packets_of(b, track) =~= packets_of(b, track));
    } else {
        a_track_has_its_own_packets(a.drop_first(), b, track, p);
        assert((a + b).drop_first() =~= a.drop_first() + b);
        assert(packets_of(a + b, track) =~= packets_of(a, track) + packets_of(b, track));
    }
}

/// Ticks are counted by the time base where there is one, else by the sample
/// rate; without ticks or without either there is no length.
pub proof fn ticks_are_counted_by_their_base(ticks: u64, base: (u32, u32), rate: u32)
    ensures
        ticks > 0 ==> timing_of(ticks, Some(base), Some(rate)) == timing_of(
            ticks,
            Some(base),
            None,
        ),
        ticks > 0 ==> (timing_of(ticks, Some(base), None) matches Some(t) && t.ticks == ticks
            && t.numer == base.0 && t.denom == base.1),
        ticks > 0 ==> (timing_of(ticks, None, Some(rate)) matches Some(t) && t.ticks == ticks
            && t.numer == 1 && t.denom == rate),
        timing_of(ticks, None, None) is None,
        timing_of(0, Some(base), Some(rate)) is None,
        timing_of(0, None, Some(rate)) is None,
{
}

/// A track's own duration counts before its frames, and needs a time base; its
/// frames need its audio parameters.
pub proof fn a_duration_counts_before_frames(t: TrackTiming)
    ensures
        t.duration is Some && t.time_base is Some ==> t.stated() == timing_of(
            t.duration->0,
            t.time_base,
            None,
        ),
        (t.duration is None || t.time_base is None) && t.num_frames is Some && t.audio is Some
            ==> t.stated() == timing_of(t.num_frames->0, t.time_base, t.audio->0),
        (t.duration is None || t.time_base is None) && (t.num_frames is None || t.audio is None)
            ==> t.stated() is None,
        t.audio is None ==> t.sample_rate() is None,
        t.audio matches Some(rate) ==> t.sample_rate() == rate,
{
}

/// What packets span is measured where the track states nothing; without a
/// packet, or a way to count, it is told what is missing.
pub proof fn a_span_is_measured_or_complained_of(t: TrackTiming, ticks: u64)
    ensures
        t.span_timing(None) == Err::<Timing, Seq<char>>("No audio samples decoded"@),
        timing_of(ticks, t.time_base, t.sample_rate()) matches Some(timing) ==> t.span_timing(
            Some(ticks),
        ) == Ok::<Timing, Seq<char>>(timing),
        timing_of(ticks, t.time_base, t.sample_rate()) is None ==> t.span_timing(Some(ticks))
            == Err::<Timing, Seq<char>>("Missing timing information for audio track"@),
{
}

/// What a track states is its length whatever follows; a read that fails is
/// told before anything is measured; a file without a track has no length.
pub proof fn what_a_track_states_is_its_length(f: AudioFileView, id: u32, t: TrackTiming)
    ensures
        f.track is None ==> f.duration() == Err::<Timing, Seq<char>>(
            "No supported audio track found"@,
        ),
        f.track == Some((id, t)) && t.stated() is Some ==> f.duration() == Ok::<Timing, Seq<char>>(
            t.stated()->0,
        ),
        f.track == Some((id, t)) && t.stated() is None && f.failure is Some ==> f.duration()
            == Err::<Timing, Seq<char>>("Audio decode error: "@ + f.failure->0),
        f.track == Some((id, t)) && t.stated() is None && f.failure is None ==> f.duration()
            == t.span_timing(elapsed(packets_of(f.reads, id))),
{
}

/// No bytes are no file; bytes that are no audio are told why; any other file
/// is as long as it is.
pub proof fn bytes_last_as_long_as_their_file(audio: Seq<u8>)
    ensures
        audio.len() == 0 ==> duration_of(audio) == Err::<Timing, Seq<char>>(
            "Audio buffer is empty"@,
        ),
        audio.len() > 0 ==> match demuxed(audio) {
            Err(e) => duration_of(audio) == Err::<Timing, Seq<char>>(
                "Failed to probe audio format: "@ + e,
            ),
            Ok(file) => duration_of(audio) == file.duration(),
        },
{
}

/// An event that a queue did not take is full or closed, and one that it took
/// is sent.
pub proof fn an_outcome_is_what_came_back(res: Result<(), Unsent>)
    ensures
        outcome_of(res) == SendOutcome::Sent <==> res is Ok,
        res matches Err(u) ==> (outcome_of(res) == SendOutcome::Full <==> u is Full) && (outcome_of(
            res,
        ) == SendOutcome::Closed <==> u is Closed),
{
}

/// Only every so many packets of the scanned track are decoded, those of others
/// are passed over uncounted, and the end of the file ends the scan.
pub proof fn one_packet_in_so_many_is_decoded(scan: WaveformScan, read: PacketRead)
    requires
        scan.skip > 0,
    ensures
        scan.read_step(read) is Decode <==> (read matches PacketRead::Packet(p) && p.track_id
            == scan.track_id && (scan.packets + 1) % scan.skip as int == 0),
        scan.read_step(read) is Finish <==> read is End,
        scan.read_step(read) is Reset <==> read is ResetRequired,
        read matches PacketRead::Failed(e) ==> (scan.read_step(read) matches ScanStepView::Fail(said)
            && said == "Audio decode error: "@ + e@),
        !(scan.read_step(read) is Accumulate),
        (read matches PacketRead::Packet(p) && p.track_id == scan.track_id) ==> scan.packets_after(
            read,
        ) == scan.packets + 1,
        !(read matches PacketRead::Packet(p) && p.track_id == scan.track_id) ==> scan.packets_after(
            read,
        ) == scan.packets,
{
}

} // verus!
