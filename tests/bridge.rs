use message_bridge::{
    decode_value, initialize, read_bridge_fee, receive_value, register_emitter, send_value,
    Initialize, MessageBridge, MessageBridgeError, ReceiveValue, RegisterEmitter, SendValue,
    ValueMessage, SOLANA_CHAIN_ID,
};

const OWNER: [u8; 32] = [0xaa; 32];
const SENDER: [u8; 32] = [0x55; 32];

fn setup() -> MessageBridge {
    initialize(&Initialize {
        owner: OWNER,
        wormhole_program: [1; 32],
        wormhole_bridge: [2; 32],
        wormhole_fee_collector: [3; 32],
        wormhole_emitter: [4; 32],
        wormhole_sequence: [5; 32],
        wormhole_emitter_bump: 254,
    })
}

fn owner() -> RegisterEmitter {
    RegisterEmitter { owner: OWNER }
}

fn compact_payload(dest: u16, value: u128) -> Vec<u8> {
    ValueMessage { destination_chain_id: dest, value }.encode()
}

fn extended_payload(dest: u16, value: u128) -> Vec<u8> {
    let mut p = vec![0x77u8; 32];
    p.extend_from_slice(&dest.to_be_bytes());
    p.extend_from_slice(&value.to_be_bytes());
    p
}

fn envelope(origin: u16, sender: [u8; 32], sequence: u64, payload: &[u8]) -> ReceiveValue {
    let mut b = b"vaa".to_vec();
    b.extend_from_slice(&[0u8; 46]);
    b.extend_from_slice(&sequence.to_le_bytes());
    b.extend_from_slice(&origin.to_le_bytes());
    b.extend_from_slice(&sender);
    b.extend_from_slice(&(payload.len() as u32).to_le_bytes());
    b.extend_from_slice(payload);
    ReceiveValue { posted_vaa: b }
}

fn send_ctx(lamports: u64, fee: u64) -> SendValue {
    let mut data = vec![0u8; 16];
    data.extend_from_slice(&fee.to_le_bytes());
    SendValue {
        payer_lamports: lamports,
        wormhole_bridge: [2; 32],
        bridge_data: data,
        wormhole_fee_collector: [3; 32],
        wormhole_sequence: [5; 32],
    }
}

#[test]
fn initialize_sets_up_empty_bridge() {
    let b = setup();
    assert_eq!(b.config.owner, OWNER);
    assert_eq!(b.config.wormhole_sequence, [5; 32]);
    assert_eq!(b.config.chain_id, SOLANA_CHAIN_ID);
    assert_eq!(b.config.nonce, 0);
    assert_eq!(b.current_value.value, 0);
    assert_eq!(b.wormhole_emitter.bump, 254);
    assert!(b.emitters.lookup(2).is_none());
    assert!(!b.received.is_claimed(2, 0));
}

#[test]
fn register_then_lookup_and_overwrite() {
    let mut b = setup();
    assert_eq!(register_emitter(&mut b, &owner(), 2, SENDER, true), Ok(()));
    let e = b.emitters.lookup(2).unwrap();
    assert_eq!(e.chain_id, 2);
    assert_eq!(e.address, SENDER);
    assert!(e.is_default_payload);
    assert!(e.verify(&SENDER));
    assert!(!e.verify(&[0x56; 32]));
    assert_eq!(register_emitter(&mut b, &owner(), 2, [0x66; 32], false), Ok(()));
    let e = b.emitters.lookup(2).unwrap();
    assert_eq!(e.address, [0x66; 32]);
    assert!(!e.is_default_payload);
}

#[test]
fn register_local_network_is_refused_for_any_address() {
    let mut b = setup();
    for addr in [SENDER, [0; 32], [0xff; 32]] {
        assert_eq!(
            register_emitter(&mut b, &owner(), 1, addr, true),
            Err(MessageBridgeError::CannotRegisterSolanaEmitter)
        );
    }
    assert!(b.emitters.lookup(1).is_none());
}

#[test]
fn register_zero_address_is_refused() {
    let mut b = setup();
    assert_eq!(
        register_emitter(&mut b, &owner(), 2, [0; 32], true),
        Err(MessageBridgeError::ZeroEmitterAddress)
    );
    assert!(b.emitters.lookup(2).is_none());
}

#[test]
fn register_by_non_owner_is_refused() {
    let mut b = setup();
    assert_eq!(
        register_emitter(&mut b, &RegisterEmitter { owner: [0xab; 32] }, 2, SENDER, true),
        Err(MessageBridgeError::OwnerOnly)
    );
    assert!(b.emitters.lookup(2).is_none());
}

#[test]
fn duplicate_envelope_applies_once() {
    let mut b = setup();
    register_emitter(&mut b, &owner(), 7, SENDER, true).unwrap();
    let first = envelope(7, SENDER, 42, &compact_payload(1, 1000));
    assert_eq!(receive_value(&mut b, &first, [0; 32], 7, 42), Ok(()));
    assert_eq!(b.current_value.value, 1000);
    let second = envelope(7, SENDER, 42, &compact_payload(1, 2000));
    assert_eq!(
        receive_value(&mut b, &second, [0; 32], 7, 42),
        Err(MessageBridgeError::AlreadyProcessed)
    );
    assert_eq!(b.current_value.value, 1000);
    let rec = b.received.record(7, 42).unwrap();
    assert_eq!(rec.sequence, 42);
    assert_eq!(rec.emitter_chain, 7);
    assert_eq!(rec.value, 1000);
    assert_eq!(rec.batch_id, 0);
    assert_eq!(receive_value(&mut b, &first, [0; 32], 7, 42), Err(MessageBridgeError::AlreadyProcessed));
    let next = envelope(7, SENDER, 43, &compact_payload(1, 3000));
    assert_eq!(receive_value(&mut b, &next, [0; 32], 7, 43), Ok(()));
    assert_eq!(b.current_value.value, 3000);
}

#[test]
fn receive_from_unknown_network_is_refused() {
    let mut b = setup();
    let env = envelope(9, SENDER, 1, &compact_payload(1, 5));
    assert_eq!(receive_value(&mut b, &env, [0; 32], 9, 1), Err(MessageBridgeError::UnknownEmitter));
    assert!(!b.received.is_claimed(9, 1));
}

#[test]
fn receive_from_untrusted_sender_is_refused() {
    let mut b = setup();
    register_emitter(&mut b, &owner(), 2, SENDER, true).unwrap();
    let env = envelope(2, [0x56; 32], 1, &compact_payload(1, 5));
    assert_eq!(
        receive_value(&mut b, &env, [0; 32], 2, 1),
        Err(MessageBridgeError::InvalidForeignEmitter)
    );
    assert_eq!(b.current_value.value, 0);
}

#[test]
fn receive_for_another_destination_is_refused_without_claim() {
    let mut b = setup();
    register_emitter(&mut b, &owner(), 2, SENDER, true).unwrap();
    let env = envelope(2, SENDER, 1, &compact_payload(3, 5));
    assert_eq!(
        receive_value(&mut b, &env, [0; 32], 2, 1),
        Err(MessageBridgeError::InvalidDestinationChainId)
    );
    assert!(!b.received.is_claimed(2, 1));
    assert_eq!(b.current_value.value, 0);
}

#[test]
fn receive_extended_payload() {
    let mut b = setup();
    register_emitter(&mut b, &owner(), 56, SENDER, false).unwrap();
    let env = envelope(56, SENDER, 8, &extended_payload(1, u128::MAX));
    assert_eq!(receive_value(&mut b, &env, [0; 32], 56, 8), Ok(()));
    assert_eq!(b.current_value.value, u128::MAX);
}

#[test]
fn short_extended_payload_fails_even_if_compact_length() {
    let mut b = setup();
    register_emitter(&mut b, &owner(), 56, SENDER, false).unwrap();
    let env = envelope(56, SENDER, 8, &compact_payload(1, 5));
    assert_eq!(receive_value(&mut b, &env, [0; 32], 56, 8), Err(MessageBridgeError::InvalidPayload));
    assert!(!b.received.is_claimed(56, 8));
}

#[test]
fn receive_empty_legacy_payload_fails_downstream() {
    let mut b = setup();
    register_emitter(&mut b, &owner(), 7, SENDER, true).unwrap();
    let mut buf = vec![1u8; 16];
    buf.extend_from_slice(&7u16.to_be_bytes());
    buf.extend_from_slice(&SENDER);
    buf.extend_from_slice(&42u64.to_be_bytes());
    buf.push(1);
    let env = ReceiveValue { posted_vaa: buf };
    assert_eq!(receive_value(&mut b, &env, [0; 32], 7, 42), Err(MessageBridgeError::InvalidPayload));
    assert_eq!(b.current_value.value, 0);
}

#[test]
fn receive_with_mismatched_parameters_is_refused() {
    let mut b = setup();
    register_emitter(&mut b, &owner(), 7, SENDER, true).unwrap();
    let env = envelope(7, SENDER, 42, &compact_payload(1, 5));
    assert_eq!(receive_value(&mut b, &env, [0; 32], 7, 41), Err(MessageBridgeError::EnvelopeMismatch));
}

#[test]
fn decode_value_exact() {
    assert_eq!(decode_value(true, &compact_payload(1, 77), 1), Ok(77));
    assert_eq!(decode_value(false, &extended_payload(1, 78), 1), Ok(78));
    assert_eq!(
        decode_value(false, &extended_payload(2, 78), 1),
        Err(MessageBridgeError::InvalidDestinationChainId)
    );
}

#[test]
fn send_to_local_network_is_refused_and_nonce_kept() {
    let b = setup();
    let before = b.config.nonce;
    assert_eq!(
        send_value(&b.config, &send_ctx(1000, 10), SOLANA_CHAIN_ID, 5).err(),
        Some(MessageBridgeError::InvalidDestinationChainId)
    );
    assert_eq!(b.config.nonce, before);
}

#[test]
fn send_then_emission_advances_nonce_by_one() {
    let mut b = setup();
    let sent = send_value(&b.config, &send_ctx(1000, 10), 2, 5).unwrap();
    assert_eq!(sent.fee, 10);
    assert_eq!(sent.nonce, 0);
    assert_eq!(sent.payload, compact_payload(2, 5));
    assert_eq!(b.config.nonce, 0);
    b.config.record_emission(&sent);
    assert_eq!(b.config.nonce, 1);
    let again = send_value(&b.config, &send_ctx(1000, 0), 2, 6).unwrap();
    assert_eq!(again.nonce, 1);
    assert_eq!(again.fee, 0);
    b.config.record_emission(&again);
    assert_eq!(b.config.nonce, 2);
}

#[test]
fn send_with_insufficient_fee_is_refused_and_nonce_kept() {
    let b = setup();
    assert_eq!(
        send_value(&b.config, &send_ctx(9, 10), 2, 5).err(),
        Some(MessageBridgeError::InsufficientFee)
    );
    assert_eq!(b.config.nonce, 0);
    assert!(send_value(&b.config, &send_ctx(10, 10), 2, 5).is_ok());
}

#[test]
fn send_with_wrong_account_is_refused() {
    let b = setup();
    let mut ctx = send_ctx(1000, 10);
    ctx.wormhole_fee_collector = [9; 32];
    assert_eq!(
        send_value(&b.config, &ctx, 2, 5).err(),
        Some(MessageBridgeError::InvalidWormholeConfig)
    );
}

#[test]
fn send_with_exhausted_nonce_is_refused() {
    let mut b = setup();
    b.config.nonce = u32::MAX;
    assert_eq!(
        send_value(&b.config, &send_ctx(1000, 10), 2, 5).err(),
        Some(MessageBridgeError::NonceExhausted)
    );
}

#[test]
fn bridge_fee_is_read_little_endian_or_zero() {
    let mut data = vec![0u8; 16];
    data.extend_from_slice(&0x0102_0304_0506_0708u64.to_le_bytes());
    assert_eq!(read_bridge_fee(&data), 0x0102_0304_0506_0708);
    assert_eq!(read_bridge_fee(&data[..23]), 0);
    assert_eq!(read_bridge_fee(&[]), 0);
}
