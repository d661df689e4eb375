//! Resolution of the invocation context of one bridge call.

use vstd::prelude::*;
use crate::error::BridgeError;
use crate::memory::GuestMemory;
use crate::registry::ObjectRegistry;

verus! {

/// The per-instance state that the runtime keeps for a running guest: its
/// linear memory, where it exports one, and the registry of its objects.
pub struct GuestInstance {
    memory: Option<GuestMemory>,
    registry: ObjectRegistry,
}

/// What one bridge call may touch: the calling guest's memory, for reading,
/// and the registry of its objects, borrowed exclusively until the call ends.
pub struct CallContext<'a> {
    /// The calling guest's linear memory.
    pub memory: &'a GuestMemory,
    /// The registry of the calling guest's objects.
    pub registry: &'a mut ObjectRegistry,
}

impl GuestInstance {
    /// The guest's memory, where the instance gives access to one.
    pub closed spec fn memory(&self) -> Option<Seq<u8>> {
        match self.memory {
            Some(m) => Some(m@),
            None => None,
        }
    }

    /// The registry of the instance's objects.
    pub closed spec fn registry(&self) -> ObjectRegistry {
        self.registry
    }

    /// The state of an instance with the given memory, if it exports one,
    /// and the given registry.
    pub fn new(memory: Option<GuestMemory>, registry: ObjectRegistry) -> (g: GuestInstance)
        ensures
            g.memory() == match memory {
                Some(m) => Some(m@),
                None => None,
            },
            g.registry() == registry,
    {
        GuestInstance { memory, registry }
    }

    /// The registry, for the host operations that load and unload objects.
    pub fn registry_mut(&mut self) -> (r: &mut ObjectRegistry)
        ensures
            *r == old(self).registry(),
            final(self).registry() == *final(r),
            final(self).memory() == old(self).memory(),
    {
        &mut self.registry
    }

    /// Resolves the context of a call into this instance. Fails only when
    /// the instance gives no access to a memory, which no guest input can
    /// bring about.
    pub fn resolve_context(&mut self) -> (r: Result<CallContext<'_>, BridgeError>)
        ensures
            final(self).memory() == old(self).memory(),
            match r {
                Ok(ctx) => {
                    &&& old(self).memory() == Some(ctx.memory@)
                    &&& *ctx.registry == old(self).registry()
                    &&& final(self).registry() == *final(ctx.registry)
                },
                Err(e) => {
                    &&& e == BridgeError::ContextResolutionFailure
                    &&& old(self).memory() is None
                    &&& final(self).registry() == old(self).registry()
                },
            },
    {
        match &self.memory {
            Some(memory) => Ok(CallContext { memory, registry: &mut self.registry }),
            None => Err(BridgeError::ContextResolutionFailure),
        }
    }
}

} // verus!
