//! Opus packets inside the MLOW profile.
//!
//! A CELT packet crosses under a rewritten first byte that the MLOW receiver
//! recognises. The codec's payload is never transcoded.

use vstd::prelude::*;

use crate::text::{decimal, push_decimal};

verus! {

/// Why a packet could not be rewritten.
#[derive(Debug, Clone, Copy, PartialEq, Eq, Structural)]
pub enum OpusMlowError {
    /// There is no packet.
    Empty,
    /// The packet's configuration is not a CELT-only one.
    NotCelt(u8),
    /// The packet does not say how its frames are packed.
    InvalidFramePacking,
    /// The packet is not an MLOW CELT escape.
    NotMlowEscape,
    /// Another refusal.
    Unlisted,
}

impl OpusMlowError {
    /// The rendered text.
    pub open spec fn text(self) -> Seq<char> {
        match self {
            OpusMlowError::Empty => "empty Opus packet"@,
            OpusMlowError::NotCelt(config) => "Opus config "@ + decimal(config as nat)
                + " is not CELT-only"@,
            OpusMlowError::InvalidFramePacking => "invalid Opus frame packing"@,
            OpusMlowError::NotMlowEscape => "packet is not an MLOW CELT escape"@,
            OpusMlowError::Unlisted => "packet refused"@,
        }
    }

    /// Appends the error to a text.
    fn push_to(&self, s: &mut String)
        ensures
            final(s)@ == old(s)@ + self.text(),
    {
        match self {
            OpusMlowError::Empty => s.push_str("empty Opus packet"),
            OpusMlowError::NotCelt(config) => {
                s.push_str("Opus config ");
                push_decimal(s, *config as u64);
                s.push_str(" is not CELT-only");
                assert(s@ =~= old(s)@ + self.text());
            },
            OpusMlowError::InvalidFramePacking => s.push_str("invalid Opus frame packing"),
            OpusMlowError::NotMlowEscape => s.push_str("packet is not an MLOW CELT escape"),
            OpusMlowError::Unlisted => s.push_str("packet refused"),
        }
    }
}

/// A rewriting's result, its bytes taken as a sequence.
pub open spec fn outcome(res: Result<Vec<u8>, OpusMlowError>) -> Result<Seq<u8>, OpusMlowError> {
    match res {
        Ok(out) => Ok(out@),
        Err(e) => Err(e),
    }
}

/// A rewriting that was refused.
pub open spec fn refusal(e: OpusMlowError) -> Result<Seq<u8>, OpusMlowError> {
    Err(e)
}

/// A rewriting that went through.
pub open spec fn rewriting(out: Seq<u8>) -> Result<Seq<u8>, OpusMlowError> {
    Ok(out)
}

/// What an Opus packet becomes under MLOW's escape, or why it cannot, as
/// [`wacore::voip::packetize_opus_for_mlow`] has it.
pub uninterp spec fn opus_for_mlow(packet: Seq<u8>) -> Result<Seq<u8>, OpusMlowError>;

/// [`wacore::voip::packetize_opus_for_mlow`] on a packet of its own. The
/// result depends on the bytes alone; which packets are silence, which are
/// refused and what the first byte becomes is left to that function, but for
/// two facts: no packet is refused as empty but the empty one, and one of at
/// most two bytes is a pause, which becomes the one byte 0x90.
#[verifier::external_body]
fn escape_opus(packet: Vec<u8>) -> (res: Result<Vec<u8>, OpusMlowError>)
    ensures
        outcome(res) == opus_for_mlow(packet@),
        packet@.len() == 0 <==> outcome(res) == refusal(OpusMlowError::Empty),
        packet@.len() == 1 || packet@.len() == 2 ==> outcome(res) == rewriting(seq![0x90u8]),
{
    let mut packet = packet;
    match wacore::voip::packetize_opus_for_mlow(&mut packet) {
        Ok(()) => Ok(packet),
        Err(wacore::voip::OpusMlowPacketError::Empty) => Err(OpusMlowError::Empty),
        Err(wacore::voip::OpusMlowPacketError::NotCelt(c)) => Err(OpusMlowError::NotCelt(c)),
        Err(wacore::voip::OpusMlowPacketError::InvalidFramePacking) => Err(
            OpusMlowError::InvalidFramePacking,
        ),
        Err(wacore::voip::OpusMlowPacketError::NotMlowEscape) => Err(
            OpusMlowError::NotMlowEscape,
        ),
        Err(_) => Err(OpusMlowError::Unlisted),
    }
}

/// Whether a frame descriptor counts between 1 and 48 frames.
pub open spec fn counts_frames(descriptor: u8) -> bool {
    1 <= (descriptor & 0x3f) <= 48
}

/// The Opus packet behind an MLOW escape: the first byte is restored, the
/// rest stays. A packet that says it holds several frames names their number
/// in its second byte.
pub open spec fn opus_from_mlow(packet: Seq<u8>) -> Result<Seq<u8>, OpusMlowError> {
    if packet.len() == 0 {
        Err(OpusMlowError::Empty)
    } else if packet[0] & 0xc0 != 0xc0 {
        Err(OpusMlowError::NotMlowEscape)
    } else if packet[0] & 1 != 0 && (packet.len() < 2 || !counts_frames(packet[1])) {
        Err(OpusMlowError::InvalidFramePacking)
    } else {
        let config = (16 + ((packet[0] >> 2) & 0x0f)) as u8;
        let stereo = (packet[0] >> 1) & 1;
        let packing: u8 = if packet[0] & 1 != 0 {
            3
        } else {
            0
        };
        Ok(packet.update(0, config << 3 | stereo << 2 | packing))
    }
}

/// [`wacore::voip::depacketize_opus_from_mlow`] on a packet of its
/// own: it restores the first byte as [`opus_from_mlow`] says and refuses the
/// packets that it says are refused.
#[verifier::external_body]
fn unescape_opus(packet: Vec<u8>) -> (res: Result<Vec<u8>, OpusMlowError>)
    ensures
        outcome(res) == opus_from_mlow(packet@),
{
    let mut packet = packet;
    match wacore::voip::depacketize_opus_from_mlow(&mut packet) {
        Ok(()) => Ok(packet),
        Err(wacore::voip::OpusMlowPacketError::Empty) => Err(OpusMlowError::Empty),
        Err(wacore::voip::OpusMlowPacketError::NotCelt(c)) => Err(OpusMlowError::NotCelt(c)),
        Err(wacore::voip::OpusMlowPacketError::InvalidFramePacking) => Err(
            OpusMlowError::InvalidFramePacking,
        ),
        Err(wacore::voip::OpusMlowPacketError::NotMlowEscape) => Err(
            OpusMlowError::NotMlowEscape,
        ),
        Err(_) => Err(OpusMlowError::Unlisted),
    }
}

/// What a rewriting returned, with its error spelled out for the caller.
pub open spec fn rewritten(res: Result<Seq<u8>, OpusMlowError>) -> Result<Seq<u8>, Seq<char>> {
    match res {
        Ok(out) => Ok(out),
        Err(e) => Err("data: "@ + e.text()),
    }
}

/// Spells out a rewriting's error for the caller.
pub fn rewriting_result(res: Result<Vec<u8>, OpusMlowError>) -> (out: Result<Vec<u8>, String>)
    ensures
        match res {
            Ok(b) => out matches Ok(o) && o@ == b@,
            Err(e) => out matches Err(s) && s@ == "data: "@ + e.text(),
        },
{
    match res {
        Ok(b) => Ok(b),
        Err(e) => {
            let mut s = "data: ".to_owned();
            e.push_to(&mut s);
            Err(s)
        },
    }
}

/// Rewrite an RFC Opus CELT packet into the MLOW escape.
pub fn packetize_opus_for_mlow(data: &[u8]) -> (res: Result<Vec<u8>, String>)
    ensures
        match res {
            Ok(out) => rewritten(opus_for_mlow(data@)) == Ok::<Seq<u8>, Seq<char>>(out@),
            Err(e) => rewritten(opus_for_mlow(data@)) == Err::<Seq<u8>, Seq<char>>(e@),
        },
        res is Err <== data@.len() == 0,
        1 <= data@.len() <= 2 ==> (res matches Ok(out) && out@ == seq![0x90u8]),
{
    rewriting_result(escape_opus(vstd::slice::slice_to_vec(data)))
}

/// Restore the original RFC Opus TOC before handing the packet to a decoder.
pub fn depacketize_opus_from_mlow(data: &[u8]) -> (res: Result<Vec<u8>, String>)
    ensures
        match res {
            Ok(out) => rewritten(opus_from_mlow(data@)) == Ok::<Seq<u8>, Seq<char>>(out@),
            Err(e) => rewritten(opus_from_mlow(data@)) == Err::<Seq<u8>, Seq<char>>(e@),
        },
{
    rewriting_result(unescape_opus(vstd::slice::slice_to_vec(data)))
}

/// The packet that reaches the engine for an encoded input: the bytes as they
/// are, or their escape where the negotiated format asks for one. A packet
/// that cannot be escaped does not reach it.
pub open spec fn encoded_input(data: Seq<u8>, opus_mlow_escape: bool) -> Option<Seq<u8>> {
    if opus_mlow_escape {
        match opus_for_mlow(data) {
            Ok(packet) => Some(packet),
            Err(_) => None,
        }
    } else {
        Some(data)
    }
}

/// What reaches the engine once the rewriting answered.
pub fn encoded_input_of(res: Result<Vec<u8>, OpusMlowError>) -> (packet: Option<Vec<u8>>)
    ensures
        match res {
            Ok(b) => packet matches Some(p) && p@ == b@,
            Err(_) => packet is None,
        },
{
    match res {
        Ok(b) => Some(b),
        Err(_) => None,
    }
}

/// The engine, not the core, owns the codec payload grammar. A packet that is
/// not CELT must not reach the engine under an MLOW RTP profile.
pub fn encoded_input_packet(data: &[u8], opus_mlow_escape: bool) -> (packet: Option<Vec<u8>>)
    ensures
        match packet {
            Some(p) => encoded_input(data@, opus_mlow_escape) == Some(p@),
            None => encoded_input(data@, opus_mlow_escape) is None,
        },
        !opus_mlow_escape ==> (packet matches Some(p) && p@ == data@),
        opus_mlow_escape && data@.len() == 0 ==> packet is None,
{
    let bytes = vstd::slice::slice_to_vec(data);
    if opus_mlow_escape {
        encoded_input_of(escape_opus(bytes))
    } else {
        Some(bytes)
    }
}

} // verus!
