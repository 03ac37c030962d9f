use vstd::prelude::*;

use crate::bytes::{le_nat, lemma_le_nat_bound, lemma_pow256_values, read_le};
use crate::context::{Initialize, ReceiveValue, RegisterEmitter, SendValue};
use crate::envelope::{envelope_error, envelope_payload, envelope_sender, parse_envelope};
use crate::error::MessageBridgeError;
use crate::message::{
    compact_decoded, compact_wire, extended_destination, extended_value, InboundMessage,
    ValueMessage,
};
use crate::registry::{registration_error, EmitterRegistry};
use crate::replay::{message_key, ReplayGuard};
use crate::state::{same_address, Config, CurrentValue, ForeignEmitter, ReceivedMessage, WormholeEmitter};

verus! {

/// The attestation network's id of the local network.
pub const SOLANA_CHAIN_ID: u16 = 1;

/// The finality that outbound messages ask for.
pub const CONSISTENCY_LEVEL: u8 = 1;

/// All the state of one bridge.
pub struct MessageBridge {
    pub config: Config,
    pub current_value: CurrentValue,
    pub wormhole_emitter: WormholeEmitter,
    pub emitters: EmitterRegistry,
    pub received: ReplayGuard,
}

impl MessageBridge {
    /// The registry holds no entry for the local network and the replay records sit
    /// under their own keys.
    pub open spec fn wf(&self) -> bool {
        &&& self.emitters.wf(self.config.chain_id)
        &&& self.received.wf()
    }
}

/// A message that the bridge has approved for emission: the fee to pay first (none
/// when zero), the nonce to tag it with and the encoded payload.
#[derive(Clone, Debug, PartialEq, Eq)]
pub struct OutboundMessage {
    pub fee: u64,
    pub nonce: u32,
    pub payload: Vec<u8>,
}

/// The message fee that the bridge data account `data` holds: the little-endian `u64`
/// at bytes 16..24, or zero when the account is shorter.
pub open spec fn bridge_fee(data: Seq<u8>) -> nat {
    if data.len() >= 24 {
        le_nat(data.subrange(16, 24))
    } else {
        0
    }
}

/// Why sending to `destination` under `config` with the accounts of `ctx` fails, or
/// `None` where it succeeds.
pub open spec fn send_error(config: Config, ctx: SendValue, destination: u16) -> Option<
    MessageBridgeError,
> {
    if destination == config.chain_id {
        Some(MessageBridgeError::InvalidDestinationChainId)
    } else if ctx.wormhole_bridge@ != config.wormhole_bridge@ || ctx.wormhole_fee_collector@
        != config.wormhole_fee_collector@ || ctx.wormhole_sequence@
        != config.wormhole_sequence@ {
        Some(MessageBridgeError::InvalidWormholeConfig)
    } else if ctx.payer_lamports < bridge_fee(ctx.bridge_data@) {
        Some(MessageBridgeError::InsufficientFee)
    } else if config.nonce == u32::MAX {
        Some(MessageBridgeError::NonceExhausted)
    } else {
        None
    }
}

/// The configuration after a message with its nonce has been emitted.
pub open spec fn after_emission(config: Config) -> Config {
    Config { nonce: (config.nonce + 1) as u32, ..config }
}

/// The value that `payload` carries for the network `local`, read in the compact form
/// when `compact` holds and in the extended form otherwise.
pub open spec fn payload_value(compact: bool, payload: Seq<u8>, local: u16) -> Result<
    u128,
    MessageBridgeError,
> {
    if compact {
        match compact_decoded(payload) {
            Err(e) => Err(e),
            Ok(m) => if m.destination_chain_id == local {
                Ok(m.value)
            } else {
                Err(MessageBridgeError::InvalidDestinationChainId)
            },
        }
    } else if payload.len() < 50 {
        Err(MessageBridgeError::InvalidPayload)
    } else if extended_destination(payload) == local {
        Ok(extended_value(payload))
    } else {
        Err(MessageBridgeError::InvalidDestinationChainId)
    }
}

/// The value that applying the envelope `buf`, asserted to come from `origin` with
/// `sequence`, sets on a bridge of network `local` with these registered emitters and
/// records; or why it is refused.
pub open spec fn receive_outcome(
    local: u16,
    emitters: Map<u16, ForeignEmitter>,
    received: Map<u128, ReceivedMessage>,
    buf: Seq<u8>,
    origin: u16,
    sequence: u64,
) -> Result<u128, MessageBridgeError> {
    match envelope_error(buf, origin, sequence) {
        Some(e) => Err(e),
        None => if !emitters.contains_key(origin) {
            Err(MessageBridgeError::UnknownEmitter)
        } else if emitters[origin].address@ != envelope_sender(buf) {
            Err(MessageBridgeError::InvalidForeignEmitter)
        } else if received.contains_key(message_key(origin, sequence)) {
            Err(MessageBridgeError::AlreadyProcessed)
        } else {
            payload_value(emitters[origin].is_default_payload, envelope_payload(buf), local)
        },
    }
}

/// The record that applying `value` from (`origin`, `sequence`) leaves.
pub open spec fn applied_record(origin: u16, sequence: u64, value: u128) -> ReceivedMessage {
    ReceivedMessage { sequence, emitter_chain: origin, value, batch_id: 0 }
}

/// A send to the local network is refused before anything else is looked at, so no
/// fee is paid and no message is handed out.
pub proof fn lemma_send_to_self_refused(config: Config, ctx: SendValue)
    ensures
        send_error(config, ctx, config.chain_id) == Some(
            MessageBridgeError::InvalidDestinationChainId,
        ),
{
}

/// A send that is approved and then emitted moves the nonce on by exactly one and
/// changes nothing else in the configuration.
pub proof fn lemma_send_advances_nonce_once(config: Config, ctx: SendValue, destination: u16)
    requires
        send_error(config, ctx, destination) is None,
    ensures
        config.nonce < u32::MAX,
        after_emission(config).nonce == config.nonce + 1,
        after_emission(config) == (Config { nonce: after_emission(config).nonce, ..config }),
{
}

/// Once an envelope from (`origin`, `sequence`) has been applied, no envelope asserting
/// the same pair is applied again; one that passes parsing and sender checks is refused
/// as already processed.
pub proof fn lemma_applied_at_most_once(
    local: u16,
    emitters: Map<u16, ForeignEmitter>,
    received: Map<u128, ReceivedMessage>,
    first: Seq<u8>,
    second: Seq<u8>,
    origin: u16,
    sequence: u64,
)
    requires
        receive_outcome(local, emitters, received, first, origin, sequence) is Ok,
    ensures
        ({
            let v = receive_outcome(local, emitters, received, first, origin, sequence)->Ok_0;
            let after = received.insert(
                message_key(origin, sequence),
                applied_record(origin, sequence, v),
            );
            &&& receive_outcome(local, emitters, after, second, origin, sequence) is Err
            &&& (envelope_error(second, origin, sequence) is None && emitters.contains_key(origin)
                && emitters[origin].address@ == envelope_sender(second)) ==> receive_outcome(
                local,
                emitters,
                after,
                second,
                origin,
                sequence,
            ) == Err::<u128, MessageBridgeError>(MessageBridgeError::AlreadyProcessed)
        }),
{
}

/// Sets up a bridge for the local network: nonce and current value zero, no emitters,
/// no records.
pub fn initialize(ctx: &Initialize) -> (r: MessageBridge)
    ensures
        r.wf(),
        r.config == (Config {
            owner: ctx.owner,
            wormhole_program: ctx.wormhole_program,
            wormhole_bridge: ctx.wormhole_bridge,
            wormhole_fee_collector: ctx.wormhole_fee_collector,
            wormhole_emitter: ctx.wormhole_emitter,
            wormhole_sequence: ctx.wormhole_sequence,
            chain_id: SOLANA_CHAIN_ID,
            nonce: 0,
        }),
        r.current_value.value == 0,
        r.wormhole_emitter.bump == ctx.wormhole_emitter_bump,
        r.emitters@ == Map::<u16, ForeignEmitter>::empty(),
        r.received@ == Map::<u128, ReceivedMessage>::empty(),
{
    let config = Config {
        owner: ctx.owner,
        wormhole_program: ctx.wormhole_program,
        wormhole_bridge: ctx.wormhole_bridge,
        wormhole_fee_collector: ctx.wormhole_fee_collector,
        wormhole_emitter: ctx.wormhole_emitter,
        wormhole_sequence: ctx.wormhole_sequence,
        chain_id: SOLANA_CHAIN_ID,
        nonce: 0,
    };
    MessageBridge {
        config,
        current_value: CurrentValue { value: 0 },
        wormhole_emitter: WormholeEmitter { bump: ctx.wormhole_emitter_bump },
        emitters: EmitterRegistry::new(),
        received: ReplayGuard::new(),
    }
}

/// Registers the trusted sender of another network; only the owner may do so.
pub fn register_emitter(
    bridge: &mut MessageBridge,
    ctx: &RegisterEmitter,
    chain_id: u16,
    emitter_address: [u8; 32],
    is_default_payload: bool,
) -> (r: Result<(), MessageBridgeError>)
    requires
        old(bridge).wf(),
    ensures
        final(bridge).wf(),
        final(bridge).config == old(bridge).config,
        final(bridge).current_value == old(bridge).current_value,
        final(bridge).wormhole_emitter == old(bridge).wormhole_emitter,
        final(bridge).received@ == old(bridge).received@,
        ctx.owner@ != old(bridge).config.owner@ ==> r == Err::<(), MessageBridgeError>(
            MessageBridgeError::OwnerOnly,
        ) && final(bridge).emitters@ == old(bridge).emitters@,
        ctx.owner@ == old(bridge).config.owner@ ==> match r {
            Ok(()) => registration_error(old(bridge).config.chain_id, chain_id, emitter_address@)
                is None && final(bridge).emitters@ == old(bridge).emitters@.insert(
                chain_id,
                ForeignEmitter { chain_id, address: emitter_address, is_default_payload },
            ),
            Err(e) => registration_error(old(bridge).config.chain_id, chain_id, emitter_address@)
                == Some(e) && final(bridge).emitters@ == old(bridge).emitters@,
        },
{
    if !same_address(&ctx.owner, &bridge.config.owner) {
        return Err(MessageBridgeError::OwnerOnly);
    }
    let local = bridge.config.chain_id;
    bridge.emitters.register(local, chain_id, emitter_address, is_default_payload)
}

/// Reads the message fee from the bridge data account.
pub fn read_bridge_fee(data: &[u8]) -> (r: u64)
    ensures
        r as nat == bridge_fee(data@),
{
    if data.len() >= 24 {
        let fee = read_le(data, 16, 24);
        proof {
            lemma_le_nat_bound(data@.subrange(16, 24));
            lemma_pow256_values();
        }
        fee as u64
    } else {
        0
    }
}

/// Approves sending `value` to `destination_chain_id`: the destination is another
/// network, the accounts are the configured ones and the payer can cover the fee.
/// The host pays the fee, emits the payload with the nonce, and only then calls
/// `Config::record_emission`; a refused send hands out nothing and changes nothing.
pub fn send_value(config: &Config, ctx: &SendValue, destination_chain_id: u16, value: u128) -> (r:
    Result<OutboundMessage, MessageBridgeError>)
    ensures
        match r {
            Ok(m) => {
                &&& send_error(*config, *ctx, destination_chain_id) is None
                &&& m.fee as nat == bridge_fee(ctx.bridge_data@)
                &&& m.nonce == config.nonce
                &&& m.payload@ == compact_wire(destination_chain_id, value)
            },
            Err(e) => send_error(*config, *ctx, destination_chain_id) == Some(e),
        },
{
    if destination_chain_id == config.chain_id {
        return Err(MessageBridgeError::InvalidDestinationChainId);
    }
    if !same_address(&ctx.wormhole_bridge, &config.wormhole_bridge) || !same_address(
        &ctx.wormhole_fee_collector,
        &config.wormhole_fee_collector,
    ) || !same_address(&ctx.wormhole_sequence, &config.wormhole_sequence) {
        return Err(MessageBridgeError::InvalidWormholeConfig);
    }
    let fee = read_bridge_fee(&ctx.bridge_data);
    if ctx.payer_lamports < fee {
        return Err(MessageBridgeError::InsufficientFee);
    }
    if config.nonce == u32::MAX {
        return Err(MessageBridgeError::NonceExhausted);
    }
    let payload = ValueMessage { destination_chain_id, value }.encode();
    Ok(OutboundMessage { fee, nonce: config.nonce, payload })
}

impl Config {
    /// Moves the nonce on once `sent`, approved under this configuration, was emitted.
    pub fn record_emission(&mut self, sent: &OutboundMessage)
        requires
            old(self).nonce == sent.nonce,
            sent.nonce < u32::MAX,
        ensures
            *final(self) == after_emission(*old(self)),
    {
        self.nonce = self.nonce + 1;
    }
}

/// The value that `payload` carries for the network `local`, read in the format that
/// the emitter was registered with.
pub fn decode_value(is_default_payload: bool, payload: &[u8], local: u16) -> (r: Result<
    u128,
    MessageBridgeError,
>)
    ensures
        r == payload_value(is_default_payload, payload@, local),
{
    if is_default_payload {
        match ValueMessage::decode(payload) {
            Err(e) => Err(e),
            Ok(m) => if m.destination_chain_id == local {
                Ok(m.value)
            } else {
                Err(MessageBridgeError::InvalidDestinationChainId)
            },
        }
    } else {
        match InboundMessage::decode(payload) {
            Err(e) => Err(e),
            Ok(m) => if m.destination_chain_id == local {
                Ok(m.value)
            } else {
                Err(MessageBridgeError::InvalidDestinationChainId)
            },
        }
    }
}

/// Applies an attested inbound envelope exactly once: parses it, checks its sender
/// against the registry, refuses a (origin, sequence) pair seen before, decodes the
/// value for the local network, then records the pair and sets the current value.
/// A refusal changes nothing.
pub fn receive_value(
    bridge: &mut MessageBridge,
    ctx: &ReceiveValue,
    _vaa_hash: [u8; 32],
    emitter_chain: u16,
    sequence: u64,
) -> (r: Result<(), MessageBridgeError>)
    requires
        old(bridge).wf(),
    ensures
        final(bridge).wf(),
        final(bridge).config == old(bridge).config,
        final(bridge).wormhole_emitter == old(bridge).wormhole_emitter,
        final(bridge).emitters@ == old(bridge).emitters@,
        match receive_outcome(
            old(bridge).config.chain_id,
            old(bridge).emitters@,
            old(bridge).received@,
            ctx.posted_vaa@,
            emitter_chain,
            sequence,
        ) {
            Ok(v) => {
                &&& r is Ok
                &&& final(bridge).current_value.value == v
                &&& final(bridge).received@ == old(bridge).received@.insert(
                    message_key(emitter_chain, sequence),
                    applied_record(emitter_chain, sequence, v),
                )
            },
            Err(e) => {
                &&& r == Err::<(), MessageBridgeError>(e)
                &&& final(bridge).current_value == old(bridge).current_value
                &&& final(bridge).received@ == old(bridge).received@
            },
        },
{
    let parsed = match parse_envelope(&ctx.posted_vaa, emitter_chain, sequence) {
        Ok(p) => p,
        Err(e) => return Err(e),
    };
    let emitter = match bridge.emitters.lookup(parsed.origin_network) {
        Some(e) => e,
        None => return Err(MessageBridgeError::UnknownEmitter),
    };
    if !emitter.verify(&parsed.sender_address) {
        return Err(MessageBridgeError::InvalidForeignEmitter);
    }
    if bridge.received.is_claimed(emitter_chain, sequence) {
        return Err(MessageBridgeError::AlreadyProcessed);
    }
    let value = match decode_value(
        emitter.is_default_payload,
        parsed.payload.as_slice(),
        bridge.config.chain_id,
    ) {
        Ok(v) => v,
        Err(e) => return Err(e),
    };
    let record = ReceivedMessage { sequence, emitter_chain, value, batch_id: 0 };
    let claimed = bridge.received.claim(record);
    bridge.current_value.value = value;
    claimed
}

} // verus!
