use vstd::prelude::*;

use crate::bytes::{
    be_bytes, be_nat, copy_bytes32, lemma_be_bytes_len, lemma_be_nat_bound,
    lemma_be_round_trip_small, lemma_pow256_values, push_be, read_be,
};
use crate::error::MessageBridgeError;

verus! {

/// Length of the compact payload: destination network (2) and value (16).
pub const COMPACT_PAYLOAD_SIZE: usize = 18;

/// Length of the extended payload: correlation tag (32), destination network (2), value (16).
pub const EXTENDED_PAYLOAD_SIZE: usize = 50;

/// The compact value payload, written big-endian as
/// `destination_chain_id (2 bytes) ‖ value (16 bytes)`.
#[derive(Clone, Copy, Debug, PartialEq, Eq, Structural)]
pub struct ValueMessage {
    pub destination_chain_id: u16,
    pub value: u128,
}

/// The extended value payload, written big-endian as
/// `tx_id (32 bytes) ‖ destination_chain_id (2 bytes) ‖ value (16 bytes)`.
#[derive(Clone, Copy, Debug, PartialEq, Eq)]
pub struct InboundMessage {
    pub tx_id: [u8; 32],
    pub destination_chain_id: u16,
    pub value: u128,
}

/// The compact wire form of a destination and a value.
pub open spec fn compact_wire(destination: u16, value: u128) -> Seq<u8> {
    be_bytes(destination as nat, 2) + be_bytes(value as nat, 16)
}

/// What decoding `s` in the compact form gives.
pub open spec fn compact_decoded(s: Seq<u8>) -> Result<ValueMessage, MessageBridgeError> {
    if s.len() < 18 {
        Err(MessageBridgeError::InvalidPayload)
    } else {
        Ok(
            ValueMessage {
                destination_chain_id: be_nat(s.subrange(0, 2)) as u16,
                value: be_nat(s.subrange(2, 18)) as u128,
            },
        )
    }
}

/// The destination network that an extended payload `s` (at least 50 bytes) carries.
pub open spec fn extended_destination(s: Seq<u8>) -> u16 {
    be_nat(s.subrange(32, 34)) as u16
}

/// The value that an extended payload `s` (at least 50 bytes) carries.
pub open spec fn extended_value(s: Seq<u8>) -> u128 {
    be_nat(s.subrange(34, 50)) as u128
}

impl ValueMessage {
    /// Writes the message in its compact wire form.
    pub fn encode(&self) -> (r: Vec<u8>)
        ensures
            r@ == compact_wire(self.destination_chain_id, self.value),
            r@.len() == COMPACT_PAYLOAD_SIZE,
    {
        let mut buf: Vec<u8> = Vec::with_capacity(COMPACT_PAYLOAD_SIZE);
        push_be(&mut buf, self.destination_chain_id as u128, 2);
        push_be(&mut buf, self.value, 16);
        proof {
            assert(buf@ =~= compact_wire(self.destination_chain_id, self.value));
            lemma_be_bytes_len(self.destination_chain_id as nat, 2);
            lemma_be_bytes_len(self.value as nat, 16);
        }
        buf
    }

    /// Reads a message from the first 18 bytes of `data`; bytes after them are ignored.
    pub fn decode(data: &[u8]) -> (r: Result<Self, MessageBridgeError>)
        ensures
            r == compact_decoded(data@),
    {
        if data.len() < COMPACT_PAYLOAD_SIZE {
            return Err(MessageBridgeError::InvalidPayload);
        }
        let destination_chain_id = read_u16_be(data, 0);
        let value = read_be(data, 2, 18);
        Ok(ValueMessage { destination_chain_id, value })
    }
}

impl InboundMessage {
    /// Reads a message from the first 50 bytes of `data`; bytes after them are ignored.
    pub fn decode(data: &[u8]) -> (r: Result<Self, MessageBridgeError>)
        ensures
            match r {
                Ok(m) => {
                    &&& data@.len() >= EXTENDED_PAYLOAD_SIZE
                    &&& m.tx_id@ == data@.subrange(0, 32)
                    &&& m.destination_chain_id == extended_destination(data@)
                    &&& m.value == extended_value(data@)
                },
                Err(e) => data@.len() < EXTENDED_PAYLOAD_SIZE && e
                    == MessageBridgeError::InvalidPayload,
            },
    {
        if data.len() < EXTENDED_PAYLOAD_SIZE {
            return Err(MessageBridgeError::InvalidPayload);
        }
        let tx_id = copy_bytes32(data, 0);
        let destination_chain_id = read_u16_be(data, 32);
        let value = read_be(data, 34, 50);
        Ok(InboundMessage { tx_id, destination_chain_id, value })
    }
}

/// Reads the two bytes at `at` as a big-endian `u16`.
fn read_u16_be(data: &[u8], at: usize) -> (r: u16)
    requires
        at + 2 <= data@.len(),
        at + 2 <= usize::MAX,
    ensures
        r as nat == be_nat(data@.subrange(at as int, at + 2)),
{
    let v = read_be(data, at, at + 2);
    proof {
        lemma_be_nat_bound(data@.subrange(at as int, at + 2));
        lemma_pow256_values();
    }
    v as u16
}

/// Decoding the compact form of any destination and value gives them back.
pub proof fn lemma_compact_round_trip(destination: u16, value: u128)
    ensures
        compact_decoded(compact_wire(destination, value)) == Ok::<ValueMessage, MessageBridgeError>(
            ValueMessage { destination_chain_id: destination, value },
        ),
{
    let s = compact_wire(destination, value);
    lemma_pow256_values();
    lemma_be_round_trip_small(destination as nat, 2);
    lemma_be_round_trip_small(value as nat, 16);
    assert(s.subrange(0, 2) =~= be_bytes(destination as nat, 2));
    assert(s.subrange(2, 18) =~= be_bytes(value as nat, 16));
}

} // verus!
