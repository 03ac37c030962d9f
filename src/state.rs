use vstd::prelude::*;

verus! {

/// Whether every byte of `a` is zero.
pub open spec fn is_zero_address(a: Seq<u8>) -> bool {
    forall|i: int| 0 <= i < a.len() ==> a[i] == 0u8
}

/// Compares two 32-byte addresses byte by byte.
pub fn same_address(a: &[u8; 32], b: &[u8; 32]) -> (r: bool)
    ensures
        r == (a@ == b@),
{
    let mut i: usize = 0;
    while i < 32
        invariant
            i <= 32,
            a@.len() == 32,
            b@.len() == 32,
            forall|j: int| 0 <= j < i ==> a@[j] == b@[j],
        decreases 32 - i,
    {
        if a[i] != b[i] {
            return false;
        }
        i = i + 1;
    }
    assert(a@ =~= b@);
    true
}

/// Tells whether every byte of a 32-byte address is zero.
pub fn zero_address(a: &[u8; 32]) -> (r: bool)
    ensures
        r == is_zero_address(a@),
{
    let mut i: usize = 0;
    while i < 32
        invariant
            i <= 32,
            a@.len() == 32,
            forall|j: int| 0 <= j < i ==> a@[j] == 0u8,
        decreases 32 - i,
    {
        if a[i] != 0 {
            return false;
        }
        i = i + 1;
    }
    true
}

/// The bridge's configuration: its owner, the attestation network's accounts that it
/// works with, the local network id and the outbound nonce.
#[derive(Clone, Copy, Debug, PartialEq, Eq)]
pub struct Config {
    /// May register emitters.
    pub owner: [u8; 32],
    /// The attestation network's core program.
    pub wormhole_program: [u8; 32],
    /// The core program's bridge data account, which holds the message fee.
    pub wormhole_bridge: [u8; 32],
    /// Receives the message fee.
    pub wormhole_fee_collector: [u8; 32],
    /// The address that signs this bridge's outbound messages.
    pub wormhole_emitter: [u8; 32],
    /// The core program's sequence counter for this emitter.
    pub wormhole_sequence: [u8; 32],
    /// The local network id.
    pub chain_id: u16,
    /// The nonce of the next outbound message.
    pub nonce: u32,
}

/// The trusted sender registered for one origin network.
#[derive(Clone, Copy, Debug, PartialEq, Eq)]
pub struct ForeignEmitter {
    /// The origin network.
    pub chain_id: u16,
    /// The sender address on that network.
    pub address: [u8; 32],
    /// `true` for the compact 18-byte payload, `false` for the extended 50-byte one.
    pub is_default_payload: bool,
}

impl ForeignEmitter {
    /// Whether `emitter_address` is exactly the registered address.
    pub fn verify(&self, emitter_address: &[u8; 32]) -> (r: bool)
        ensures
            r == (self.address@ == emitter_address@),
    {
        same_address(&self.address, emitter_address)
    }
}

/// The record of one applied inbound message; its existence is the replay guard.
#[derive(Clone, Copy, Debug, PartialEq, Eq, Structural)]
pub struct ReceivedMessage {
    pub sequence: u64,
    pub emitter_chain: u16,
    pub value: u128,
    /// Always zero: the batch is not recoverable from the envelope.
    pub batch_id: u32,
}

/// The bump seed of the address that signs outbound messages.
#[derive(Clone, Copy, Debug, PartialEq, Eq, Structural)]
pub struct WormholeEmitter {
    pub bump: u8,
}

/// The last value applied from an inbound message.
#[derive(Clone, Copy, Debug, PartialEq, Eq, Structural)]
pub struct CurrentValue {
    pub value: u128,
}

} // verus!
