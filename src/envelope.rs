use vstd::prelude::*;

use crate::bytes::{
    be_nat, copy_bytes32, le_nat, lemma_be_nat_bound, lemma_le_nat_bound, lemma_pow256_values,
    read_be, read_le,
};
use crate::error::MessageBridgeError;

verus! {

/// Fixed header length of a legacy envelope; its payload starts here.
pub const LEGACY_HEADER_SIZE: usize = 59;

/// Fixed header length of a current envelope, up to and including the payload length field.
pub const CURRENT_HEADER_SIZE: usize = 95;

/// The two buffer layouts in which attested envelopes arrive.
#[derive(Clone, Copy, Debug, PartialEq, Eq, Structural)]
pub enum Layout {
    /// Big-endian fields: origin at 16, sender at 18, sequence at 50, payload from 59 to the end.
    Legacy,
    /// Stored-account form, tagged by the marker `b"vaa"` in its first three bytes:
    /// little-endian sequence at 49, origin at 57, sender at 59,
    /// payload length at 91, payload from 95.
    Current,
}

/// What an envelope says of itself.
#[derive(Clone, Debug, PartialEq, Eq)]
pub struct ParsedEnvelope {
    pub origin_network: u16,
    pub sender_address: [u8; 32],
    pub sequence: u64,
    pub payload: Vec<u8>,
}

/// The layout that the buffer `s` announces by its leading marker.
pub open spec fn layout_of(s: Seq<u8>) -> Layout {
    if s.len() >= 3 && s[0] == 0x76u8 && s[1] == 0x61u8 && s[2] == 0x61u8 {
        Layout::Current
    } else {
        Layout::Legacy
    }
}

/// The payload length that a current envelope `s` declares.
pub open spec fn declared_payload_len(s: Seq<u8>) -> nat {
    le_nat(s.subrange(91, 95))
}

/// The origin network written in the envelope `s`.
pub open spec fn envelope_origin(s: Seq<u8>) -> u16 {
    match layout_of(s) {
        Layout::Legacy => be_nat(s.subrange(16, 18)) as u16,
        Layout::Current => le_nat(s.subrange(57, 59)) as u16,
    }
}

/// The sender address written in the envelope `s`.
pub open spec fn envelope_sender(s: Seq<u8>) -> Seq<u8> {
    match layout_of(s) {
        Layout::Legacy => s.subrange(18, 50),
        Layout::Current => s.subrange(59, 91),
    }
}

/// The sequence number written in the envelope `s`.
pub open spec fn envelope_sequence(s: Seq<u8>) -> u64 {
    match layout_of(s) {
        Layout::Legacy => be_nat(s.subrange(50, 58)) as u64,
        Layout::Current => le_nat(s.subrange(49, 57)) as u64,
    }
}

/// The payload carried by the envelope `s`.
pub open spec fn envelope_payload(s: Seq<u8>) -> Seq<u8> {
    match layout_of(s) {
        Layout::Legacy => s.subrange(59, s.len() as int),
        Layout::Current => s.subrange(95, 95 + declared_payload_len(s) as int),
    }
}

/// Why parsing the envelope `s` against the asserted origin and sequence fails,
/// or `None` where it succeeds.
pub open spec fn envelope_error(s: Seq<u8>, origin: u16, sequence: u64) -> Option<
    MessageBridgeError,
> {
    let header: nat = match layout_of(s) {
        Layout::Legacy => 59,
        Layout::Current => 95,
    };
    if s.len() < header {
        Some(MessageBridgeError::EnvelopeTooShort)
    } else if layout_of(s) == Layout::Current && s.len() < 95 + declared_payload_len(s) {
        Some(MessageBridgeError::TruncatedEnvelope)
    } else if envelope_origin(s) != origin || envelope_sequence(s) != sequence {
        Some(MessageBridgeError::EnvelopeMismatch)
    } else {
        None
    }
}

/// A current envelope whose declared payload runs past the end of the buffer is refused
/// as truncated, whatever the asserted origin and sequence.
pub proof fn lemma_overlong_payload_truncated(s: Seq<u8>, origin: u16, sequence: u64)
    requires
        layout_of(s) == Layout::Current,
        s.len() >= CURRENT_HEADER_SIZE,
        declared_payload_len(s) > s.len() - CURRENT_HEADER_SIZE,
    ensures
        envelope_error(s, origin, sequence) == Some(MessageBridgeError::TruncatedEnvelope),
{
}

/// Tells the layout of `buf` from its leading marker.
pub fn classify(buf: &[u8]) -> (r: Layout)
    ensures
        r == layout_of(buf@),
{
    if buf.len() >= 3 && buf[0] == 0x76u8 && buf[1] == 0x61u8 && buf[2] == 0x61u8 {
        Layout::Current
    } else {
        Layout::Legacy
    }
}

/// Copies `data[lo..hi]` into a new vector.
fn copy_range(data: &[u8], lo: usize, hi: usize) -> (r: Vec<u8>)
    requires
        lo <= hi <= data@.len(),
    ensures
        r@ == data@.subrange(lo as int, hi as int),
{
    let mut r: Vec<u8> = Vec::new();
    let mut i: usize = lo;
    while i < hi
        invariant
            lo <= i <= hi <= data@.len(),
            r@ == data@.subrange(lo as int, i as int),
        decreases hi - i,
    {
        r.push(data[i]);
        i = i + 1;
        assert(r@ =~= data@.subrange(lo as int, i as int));
    }
    r
}

/// Reads a legacy envelope; `buf` is at least as long as its header.
fn parse_legacy(buf: &[u8]) -> (r: ParsedEnvelope)
    requires
        layout_of(buf@) == Layout::Legacy,
        buf@.len() >= LEGACY_HEADER_SIZE,
    ensures
        r.origin_network == envelope_origin(buf@),
        r.sender_address@ == envelope_sender(buf@),
        r.sequence == envelope_sequence(buf@),
        r.payload@ == envelope_payload(buf@),
{
    let origin = read_be(buf, 16, 18);
    let sender_address = copy_bytes32(buf, 18);
    let sequence = read_be(buf, 50, 58);
    let payload = copy_range(buf, 59, buf.len());
    proof {
        lemma_be_nat_bound(buf@.subrange(16, 18));
        lemma_be_nat_bound(buf@.subrange(50, 58));
        lemma_pow256_values();
    }
    ParsedEnvelope {
        origin_network: origin as u16,
        sender_address,
        sequence: sequence as u64,
        payload,
    }
}

/// Reads the fixed header fields of a current envelope.
fn parse_current_header(buf: &[u8]) -> (r: (u16, [u8; 32], u64, u32))
    requires
        layout_of(buf@) == Layout::Current,
        buf@.len() >= CURRENT_HEADER_SIZE,
    ensures
        r.0 == envelope_origin(buf@),
        r.1@ == envelope_sender(buf@),
        r.2 == envelope_sequence(buf@),
        r.3 as nat == declared_payload_len(buf@),
{
    let sequence = read_le(buf, 49, 57);
    let origin = read_le(buf, 57, 59);
    let sender_address = copy_bytes32(buf, 59);
    let payload_len = read_le(buf, 91, 95);
    proof {
        lemma_le_nat_bound(buf@.subrange(49, 57));
        lemma_le_nat_bound(buf@.subrange(57, 59));
        lemma_le_nat_bound(buf@.subrange(91, 95));
        lemma_pow256_values();
    }
    (origin as u16, sender_address, sequence as u64, payload_len as u32)
}

/// Extracts origin network, sender, sequence and payload from an attested envelope in
/// either layout, and checks that the caller's asserted origin and sequence are the
/// envelope's own.
pub fn parse_envelope(buf: &[u8], origin_network: u16, sequence: u64) -> (r: Result<
    ParsedEnvelope,
    MessageBridgeError,
>)
    ensures
        match r {
            Ok(p) => {
                &&& envelope_error(buf@, origin_network, sequence) is None
                &&& p.origin_network == envelope_origin(buf@)
                &&& p.sender_address@ == envelope_sender(buf@)
                &&& p.sequence == envelope_sequence(buf@)
                &&& p.payload@ == envelope_payload(buf@)
            },
            Err(e) => envelope_error(buf@, origin_network, sequence) == Some(e),
        },
{
    let parsed = match classify(buf) {
        Layout::Legacy => {
            if buf.len() < LEGACY_HEADER_SIZE {
                return Err(MessageBridgeError::EnvelopeTooShort);
            }
            parse_legacy(buf)
        },
        Layout::Current => {
            if buf.len() < CURRENT_HEADER_SIZE {
                return Err(MessageBridgeError::EnvelopeTooShort);
            }
            let (origin, sender_address, seq, payload_len) = parse_current_header(buf);
            if payload_len as usize > buf.len() - CURRENT_HEADER_SIZE {
                return Err(MessageBridgeError::TruncatedEnvelope);
            }
            let payload = copy_range(
                buf,
                CURRENT_HEADER_SIZE,
                CURRENT_HEADER_SIZE + payload_len as usize,
            );
            ParsedEnvelope { origin_network: origin, sender_address, sequence: seq, payload }
        },
    };
    if parsed.origin_network != origin_network || parsed.sequence != sequence {
        return Err(MessageBridgeError::EnvelopeMismatch);
    }
    Ok(parsed)
}

} // verus!
