use std::collections::HashMap;
use vstd::prelude::*;

use crate::error::MessageBridgeError;
use crate::state::ReceivedMessage;

verus! {

broadcast use vstd::std_specs::hash::group_hash_axioms;

/// The single number under which the pair (origin network, sequence) is recorded:
/// the origin in the high 64 bits, the sequence in the low 64.
pub open spec fn message_key(origin: u16, sequence: u64) -> u128 {
    ((origin as u128) << 64u128) | (sequence as u128)
}

/// Distinct pairs are recorded under distinct keys.
pub proof fn lemma_message_key_injective(o1: u16, s1: u64, o2: u16, s2: u64)
    ensures
        message_key(o1, s1) == message_key(o2, s2) ==> o1 == o2 && s1 == s2,
{
    assert((((o1 as u128) << 64u128) | (s1 as u128)) == (((o2 as u128) << 64u128) | (
    s2 as u128)) ==> o1 == o2 && s1 == s2) by (bit_vector);
}

fn key_of(origin: u16, sequence: u64) -> (r: u128)
    ensures
        r == message_key(origin, sequence),
{
    ((origin as u128) << 64u128) | (sequence as u128)
}

/// The records of applied inbound messages, at most one per (origin network, sequence).
pub struct ReplayGuard {
    claims: HashMap<u128, ReceivedMessage>,
}

impl View for ReplayGuard {
    type V = Map<u128, ReceivedMessage>;

    closed spec fn view(&self) -> Map<u128, ReceivedMessage> {
        self.claims@
    }
}

impl ReplayGuard {
    /// Whether the pair (`origin`, `sequence`) has been claimed.
    pub open spec fn claimed(&self, origin: u16, sequence: u64) -> bool {
        self@.contains_key(message_key(origin, sequence))
    }

    /// Every record sits under the key of its own origin and sequence.
    pub open spec fn wf(&self) -> bool {
        forall|k: u128|
            #[trigger] self@.contains_key(k) ==> message_key(
                self@[k].emitter_chain,
                self@[k].sequence,
            ) == k
    }

    pub fn new() -> (r: Self)
        ensures
            r@ == Map::<u128, ReceivedMessage>::empty(),
    {
        ReplayGuard { claims: HashMap::new() }
    }

    pub fn is_claimed(&self, origin: u16, sequence: u64) -> (r: bool)
        ensures
            r == self.claimed(origin, sequence),
    {
        self.claims.contains_key(&key_of(origin, sequence))
    }

    /// The record kept for (`origin`, `sequence`), if it was claimed.
    pub fn record(&self, origin: u16, sequence: u64) -> (r: Option<ReceivedMessage>)
        ensures
            r == (if self.claimed(origin, sequence) {
                Some(self@[message_key(origin, sequence)])
            } else {
                None
            }),
    {
        match self.claims.get(&key_of(origin, sequence)) {
            Some(m) => Some(*m),
            None => None,
        }
    }

    /// Creates the record for the message's (origin, sequence) if there is none yet,
    /// and fails, changing nothing, if there is one.
    pub fn claim(&mut self, message: ReceivedMessage) -> (r: Result<(), MessageBridgeError>)
        requires
            old(self).wf(),
        ensures
            final(self).wf(),
            old(self).claimed(message.emitter_chain, message.sequence) ==> r == Err::<
                (),
                MessageBridgeError,
            >(MessageBridgeError::AlreadyProcessed) && final(self)@ == old(self)@,
            !old(self).claimed(message.emitter_chain, message.sequence) ==> r is Ok && final(self)@
                == old(self)@.insert(message_key(message.emitter_chain, message.sequence), message),
            forall|o: u16, s: u64|
                (o != message.emitter_chain || s != message.sequence) ==> (#[trigger] final(self).claimed(o, s)
                    == old(self).claimed(o, s)),
    {
        let key = key_of(message.emitter_chain, message.sequence);
        if self.claims.contains_key(&key) {
            return Err(MessageBridgeError::AlreadyProcessed);
        }
        self.claims.insert(key, message);
        proof {
            assert forall|o: u16, s: u64|
                (o != message.emitter_chain || s != message.sequence) implies #[trigger] self.claimed(o, s)
                    == old(self).claimed(o, s) by {
                lemma_message_key_injective(o, s, message.emitter_chain, message.sequence);
            }
            assert forall|k: u128| #[trigger] self@.contains_key(k) implies message_key(
                self@[k].emitter_chain,
                self@[k].sequence,
            ) == k by {
                if k != key {
                    assert(old(self)@.contains_key(k));
                }
            }
        }
        Ok(())
    }
}

} // verus!
