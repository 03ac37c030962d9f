//! Validating core of a cross-chain value bridge: the payload codec, the registry of
//! trusted senders, the parser of attested envelopes in their two layouts, the replay
//! guard, and the inbound and outbound pipelines that tie them together.
pub mod bytes;
pub mod context;
pub mod envelope;
pub mod error;
pub mod message;
pub mod program;
pub mod registry;
pub mod replay;
pub mod state;

pub use context::{Initialize, ReceiveValue, RegisterEmitter, SendValue};
pub use envelope::{classify, parse_envelope, Layout, ParsedEnvelope};
pub use error::MessageBridgeError;
pub use message::{InboundMessage, ValueMessage};
pub use program::{
    decode_value, initialize, read_bridge_fee, receive_value, register_emitter, send_value,
    MessageBridge, OutboundMessage, CONSISTENCY_LEVEL, SOLANA_CHAIN_ID,
};
pub use registry::EmitterRegistry;
pub use replay::ReplayGuard;
pub use state::{Config, CurrentValue, ForeignEmitter, ReceivedMessage, WormholeEmitter};
