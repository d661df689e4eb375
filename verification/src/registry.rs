//! The host-owned table from guest handles to live objects.

use std::collections::HashMap;
use vstd::prelude::*;
use crate::error::BridgeError;
use crate::object::HostObject;

verus! {

broadcast use vstd::std_specs::hash::group_hash_axioms;

/// The first handle that a registry issues.
pub const FIRST_HANDLE: u64 = 1;

/// The table of live objects. The guest holds handles only; every handle it
/// passes in is looked up here before anything is done with it.
pub struct ObjectRegistry {
    objects: HashMap<u64, HostObject>,
    next_handle: u64,
}

impl View for ObjectRegistry {
    type V = Map<u64, Map<Seq<char>, i32>>;

    /// The live objects by handle, each as its mapping from names to
    /// descriptors.
    closed spec fn view(&self) -> Map<u64, Map<Seq<char>, i32>> {
        Map::new(|h: u64| self.objects@.contains_key(h), |h: u64| self.objects@[h]@)
    }
}

/// `HashMap::get_mut` on a table of objects: a mutable borrow of the value
/// under `key`, where there is one. When the borrow ends the table holds
/// whatever the borrow then holds under `key`, and is otherwise as before.
#[verifier::external_body]
fn table_get_mut(table: &mut HashMap<u64, HostObject>, key: u64) -> (r: Option<&mut HostObject>)
    ensures
        match r {
            Some(object) => {
                &&& old(table)@.contains_key(key)
                &&& *object == old(table)@[key]
                &&& final(table)@ == old(table)@.insert(key, *final(object))
            },
            None => !old(table)@.contains_key(key) && final(table)@ == old(table)@,
        },
{
    table.get_mut(&key)
}

impl ObjectRegistry {
    /// The handle that the next registration will issue. Every handle below
    /// it, from `FIRST_HANDLE` on, has been issued.
    pub closed spec fn next_handle(&self) -> u64 {
        self.next_handle
    }

    /// True when `handle` names a live object.
    pub open spec fn is_live(&self, handle: u64) -> bool {
        self@.contains_key(handle)
    }

    /// Validity: every live handle has been issued.
    pub open spec fn wf(&self) -> bool {
        &&& FIRST_HANDLE <= self.next_handle()
        &&& forall|h: u64| self.is_live(h) ==> FIRST_HANDLE <= h < self.next_handle()
    }

    /// A registry without objects.
    pub fn new() -> (r: ObjectRegistry)
        ensures
            r@ == Map::<u64, Map<Seq<char>, i32>>::empty(),
            r.next_handle() == FIRST_HANDLE,
            r.wf(),
    {
        let r = ObjectRegistry { objects: HashMap::new(), next_handle: FIRST_HANDLE };
        assert(r@ =~= Map::<u64, Map<Seq<char>, i32>>::empty());
        r
    }

    /// Tells whether `handle` names a live object.
    pub fn contains(&self, handle: u64) -> (r: bool)
        ensures
            r == self.is_live(handle),
    {
        self.objects.contains_key(&handle)
    }

    /// Takes ownership of `object` and issues the handle that names it from
    /// now on: one that was never issued before. Returns `None`, and drops
    /// the object, when no handle is left to issue.
    pub fn register(&mut self, object: HostObject) -> (r: Option<u64>)
        requires
            old(self).wf(),
        ensures
            final(self).wf(),
            match r {
                Some(handle) => {
                    &&& handle == old(self).next_handle()
                    &&& !old(self).is_live(handle)
                    &&& final(self)@ == old(self)@.insert(handle, object@)
                    &&& final(self).next_handle() == handle + 1
                },
                None => {
                    &&& old(self).next_handle() == u64::MAX
                    &&& final(self)@ == old(self)@
                    &&& final(self).next_handle() == old(self).next_handle()
                },
            },
    {
        if self.next_handle == u64::MAX {
            return None;
        }
        let handle = self.next_handle;
        assert(!self.is_live(handle));
        self.objects.insert(handle, object);
        self.next_handle = handle + 1;
        assert(self@ =~= old(self)@.insert(handle, object@));
        assert forall|h: u64| self.is_live(h) implies FIRST_HANDLE <= h < self.next_handle() by {
            if h != handle {
                assert(old(self).is_live(h));
            }
        }
        Some(handle)
    }

    /// Ends the life of the object that `handle` names and hands it back.
    /// The handle is not issued again.
    pub fn release(&mut self, handle: u64) -> (r: Option<HostObject>)
        ensures
            old(self).wf() ==> final(self).wf(),
            final(self)@ == old(self)@.remove(handle),
            final(self).next_handle() == old(self).next_handle(),
            match r {
                Some(object) => {
                    &&& old(self).is_live(handle)
                    &&& object@ == old(self)@[handle]
                    &&& object.wf()
                },
                None => !old(self).is_live(handle),
            },
    {
        let r = self.objects.remove(&handle);
        proof {
            if let Some(object) = &r {
                use_type_invariant(object);
            }
        }
        assert(self@ =~= old(self)@.remove(handle));
        assert forall|h: u64| old(self).wf() && self.is_live(h) implies FIRST_HANDLE <= h
            < self.next_handle() by {
            assert(old(self).is_live(h));
        }
        r
    }

    /// The live object that `handle` names, for reading.
    pub fn resolve(&self, handle: u64) -> (r: Result<&HostObject, BridgeError>)
        ensures
            match r {
                Ok(object) => self.is_live(handle) && object@ == self@[handle] && object.wf(),
                Err(e) => e == BridgeError::InvalidHandle && !self.is_live(handle),
            },
    {
        match self.objects.get(&handle) {
            Some(object) => {
                proof {
                    use_type_invariant(object);
                }
                Ok(object)
            },
            None => Err(BridgeError::InvalidHandle),
        }
    }

    /// The live object that `handle` names, borrowed exclusively. A stale or
    /// unknown handle is an ordinary outcome and leaves the registry as it
    /// was. When the borrow ends, the registry holds under `handle` what the
    /// borrow then holds, and nothing else has changed.
    pub fn resolve_mut(&mut self, handle: u64) -> (r: Result<&mut HostObject, BridgeError>)
        ensures
            final(self).next_handle() == old(self).next_handle(),
            match r {
                Ok(object) => {
                    &&& old(self).is_live(handle)
                    &&& object@ == old(self)@[handle]
                    &&& object.wf()
                    &&& final(self)@ == old(self)@.insert(handle, final(object)@)
                },
                Err(e) => {
                    &&& e == BridgeError::InvalidHandle
                    &&& !old(self).is_live(handle)
                    &&& final(self)@ == old(self)@
                },
            },
    {
        match table_get_mut(&mut self.objects, handle) {
            Some(object) => {
                proof {
                    use_type_invariant(&*object);
                }
                Ok(object)
            },
            None => Err(BridgeError::InvalidHandle),
        }
    }
}

} // verus!
