use std::collections::HashMap;
use vstd::prelude::*;

use crate::error::MessageBridgeError;
use crate::state::{is_zero_address, zero_address, ForeignEmitter};

verus! {

broadcast use vstd::std_specs::hash::group_hash_axioms;

/// The trusted senders, one per origin network.
pub struct EmitterRegistry {
    emitters: HashMap<u16, ForeignEmitter>,
}

impl View for EmitterRegistry {
    type V = Map<u16, ForeignEmitter>;

    closed spec fn view(&self) -> Map<u16, ForeignEmitter> {
        self.emitters@
    }
}

/// Why registering `chain_id` with `address` fails on a network whose id is `local`,
/// or `None` where it succeeds.
pub open spec fn registration_error(local: u16, chain_id: u16, address: Seq<u8>) -> Option<
    MessageBridgeError,
> {
    if chain_id == local {
        Some(MessageBridgeError::CannotRegisterSolanaEmitter)
    } else if is_zero_address(address) {
        Some(MessageBridgeError::ZeroEmitterAddress)
    } else {
        None
    }
}

/// Registering an emitter for the local network is refused as such, whatever the address.
pub proof fn lemma_local_registration_refused(local: u16, address: Seq<u8>)
    ensures
        registration_error(local, local, address) == Some(
            MessageBridgeError::CannotRegisterSolanaEmitter,
        ),
{
}

impl EmitterRegistry {
    /// Every entry sits under its own origin network, which is not `local`, and has a
    /// non-zero address.
    pub open spec fn wf(&self, local: u16) -> bool {
        forall|k: u16|
            #[trigger] self@.contains_key(k) ==> self@[k].chain_id == k && k != local
                && !is_zero_address(self@[k].address@)
    }

    pub fn new() -> (r: Self)
        ensures
            r@ == Map::<u16, ForeignEmitter>::empty(),
    {
        EmitterRegistry { emitters: HashMap::new() }
    }

    /// The emitter registered for `chain_id`, if any.
    pub fn lookup(&self, chain_id: u16) -> (r: Option<ForeignEmitter>)
        ensures
            r == (if self@.contains_key(chain_id) {
                Some(self@[chain_id])
            } else {
                None
            }),
    {
        match self.emitters.get(&chain_id) {
            Some(e) => Some(*e),
            None => None,
        }
    }

    /// Registers `address` as the trusted sender of `chain_id`, replacing any earlier
    /// entry; refused for the local network `local` and for the zero address.
    pub fn register(
        &mut self,
        local: u16,
        chain_id: u16,
        address: [u8; 32],
        is_default_payload: bool,
    ) -> (r: Result<(), MessageBridgeError>)
        requires
            old(self).wf(local),
        ensures
            final(self).wf(local),
            match r {
                Ok(()) => registration_error(local, chain_id, address@) is None && final(self)@
                    == old(self)@.insert(
                    chain_id,
                    ForeignEmitter { chain_id, address, is_default_payload },
                ),
                Err(e) => registration_error(local, chain_id, address@) == Some(e) && final(self)@ == old(self)@,
            },
    {
        if chain_id == local {
            return Err(MessageBridgeError::CannotRegisterSolanaEmitter);
        }
        if zero_address(&address) {
            return Err(MessageBridgeError::ZeroEmitterAddress);
        }
        self.emitters.insert(chain_id, ForeignEmitter { chain_id, address, is_default_payload });
        proof {
            assert forall|k: u16| #[trigger] self@.contains_key(k) implies self@[k].chain_id == k
                && k != local && !is_zero_address(self@[k].address@) by {
                if k != chain_id {
                    assert(old(self)@.contains_key(k));
                }
            }
        }
        Ok(())
    }
}

} // verus!
