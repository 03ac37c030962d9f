use vstd::prelude::*;

verus! {

/// What `initialize` reads: the owner and the attestation network's accounts.
#[derive(Clone, Copy, Debug, PartialEq, Eq)]
pub struct Initialize {
    pub owner: [u8; 32],
    pub wormhole_program: [u8; 32],
    pub wormhole_bridge: [u8; 32],
    pub wormhole_fee_collector: [u8; 32],
    pub wormhole_emitter: [u8; 32],
    pub wormhole_sequence: [u8; 32],
    /// Bump seed of the emitter address.
    pub wormhole_emitter_bump: u8,
}

/// What `register_emitter` reads: the signer of the instruction.
#[derive(Clone, Copy, Debug, PartialEq, Eq)]
pub struct RegisterEmitter {
    pub owner: [u8; 32],
}

/// What `send_value` reads: the payer's balance and the attestation network's
/// accounts that the instruction was handed.
#[derive(Clone, Debug, PartialEq, Eq)]
pub struct SendValue {
    /// The payer's balance.
    pub payer_lamports: u64,
    pub wormhole_bridge: [u8; 32],
    /// The contents of the bridge data account; the message fee is a little-endian
    /// `u64` at bytes 16..24.
    pub bridge_data: Vec<u8>,
    pub wormhole_fee_collector: [u8; 32],
    pub wormhole_sequence: [u8; 32],
}

/// What `receive_value` reads: the attested envelope.
#[derive(Clone, Debug, PartialEq, Eq)]
pub struct ReceiveValue {
    pub posted_vaa: Vec<u8>,
}

} // verus!
