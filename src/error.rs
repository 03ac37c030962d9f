use vstd::prelude::*;

verus! {

/// Every way an instruction of the bridge can fail.
#[derive(Clone, Copy, Debug, PartialEq, Eq, Structural)]
pub enum MessageBridgeError {
    /// The signer is not the owner recorded in the configuration.
    OwnerOnly,
    /// An account handed to an instruction is not the one the configuration names.
    InvalidWormholeConfig,
    /// The sender of an inbound envelope differs from the registered emitter.
    InvalidForeignEmitter,
    /// No emitter is registered for the envelope's origin network.
    UnknownEmitter,
    /// The destination network is the local one (outbound), or not the local one (inbound).
    InvalidDestinationChainId,
    /// An emitter cannot be registered for the local network.
    CannotRegisterSolanaEmitter,
    /// An emitter address cannot be all zero bytes.
    ZeroEmitterAddress,
    /// A value payload is shorter than its wire format.
    InvalidPayload,
    /// An envelope is shorter than its layout's fixed header.
    EnvelopeTooShort,
    /// An envelope declares a payload longer than the bytes that follow its header.
    TruncatedEnvelope,
    /// The asserted origin network or sequence differs from the envelope's own.
    EnvelopeMismatch,
    /// The (origin network, sequence) pair has been applied before.
    AlreadyProcessed,
    /// The payer cannot cover the attestation network's fee.
    InsufficientFee,
    /// The outbound nonce has reached its largest value.
    NonceExhausted,
}

} // verus!
