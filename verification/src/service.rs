//! The cluster-wide service registry, seen through the handle a node holds.
//!
//! The registry tracks which node identities are currently active, and it
//! keeps a log of every registration and deregistration request it was
//! asked to perform — successful or not — so that lifecycle obligations
//! (register once at construction, deregister once at destruction) can be
//! stated and checked.

use vstd::prelude::*;

use crate::mailer::Mailer;
use crate::node_id::NodeId;

verus! {

/// The registry rejected a registration (for instance, the identity is
/// already active).
#[derive(Clone, Copy, PartialEq, Eq, Structural, Debug)]
pub struct RegistrationError {}

/// The registry could not deregister the identity (for instance, it was
/// not active).
#[derive(Clone, Copy, PartialEq, Eq, Structural, Debug)]
pub struct DeregistrationError {}

/// One request made of the registry.
#[derive(Clone, Copy, PartialEq, Eq, Structural, Debug)]
pub enum ServiceRequest {
    /// Register the identity as active and reachable.
    Add(NodeId),
    /// Deregister the identity.
    Remove(NodeId),
}

/// A handle onto the service registry.
#[derive(PartialEq, Eq, Debug)]
pub struct ServiceHandle {
    /// The identities currently registered, in registration order.
    pub nodes: Vec<NodeId>,
    /// Every request ever asked of the registry, in order.
    pub log: Vec<ServiceRequest>,
}

impl ServiceHandle {
    /// Registered identities are pairwise distinct.
    pub open spec fn wf(&self) -> bool {
        forall|i: int, j: int|
            0 <= i < j < self.nodes@.len() ==> self.nodes@[i] != self.nodes@[j]
    }

    /// A handle onto an empty registry.
    pub fn new() -> (s: ServiceHandle)
        ensures
            s.nodes@ == Seq::<NodeId>::empty(),
            s.log@ == Seq::<ServiceRequest>::empty(),
            s.wf(),
    {
        ServiceHandle { nodes: Vec::new(), log: Vec::new() }
    }

    /// Whether `id` is currently registered.
    pub fn contains_node(&self, id: NodeId) -> (b: bool)
        ensures
            b == self.nodes@.contains(id),
    {
        let mut i: usize = 0;
        let n = self.nodes.len();
        while i < n
            invariant
                0 <= i <= n,
                n == self.nodes@.len(),
                forall|j: int| 0 <= j < i ==> self.nodes@[j] != id,
            decreases n - i,
        {
            if self.nodes[i] == id {
                return true;
            }
            i += 1;
        }
        false
    }

    /// Registers `id` as active and reachable through `_mailer`.
    ///
    /// The request is logged whatever its outcome. It succeeds exactly
    /// when `id` was not registered yet; a duplicate identity is rejected
    /// and the registry is left unchanged. The mailer handle itself is
    /// routing state of the transport layer and leaves no trace here.
    pub fn add_node(&mut self, id: NodeId, _mailer: &Mailer) -> (r: Result<(), RegistrationError>)
        requires
            old(self).wf(),
        ensures
            final(self).log@ == old(self).log@.push(ServiceRequest::Add(id)),
            r is Ok <==> !old(self).nodes@.contains(id),
            r is Ok ==> final(self).nodes@ == old(self).nodes@.push(id),
            r is Err ==> final(self).nodes@ == old(self).nodes@,
            final(self).wf(),
    {
        self.log.push(ServiceRequest::Add(id));
        if self.contains_node(id) {
            Err(RegistrationError {})
        } else {
            self.nodes.push(id);
            proof {
                assert forall|i: int, j: int|
                    0 <= i < j < self.nodes@.len() implies self.nodes@[i] != self.nodes@[j] by {
                    if j == self.nodes@.len() - 1 {
                        assert(self.nodes@[i] == old(self).nodes@[i]);
                        assert(!old(self).nodes@.contains(id));
                    }
                }
            }
            Ok(())
        }
    }

    /// Deregisters `id`.
    ///
    /// The request is logged whatever its outcome. It succeeds exactly
    /// when `id` was registered, and then removes that one entry; asking
    /// for an unknown identity fails and leaves the registry unchanged.
    pub fn remove_node(&mut self, id: NodeId) -> (r: Result<(), DeregistrationError>)
        requires
            old(self).wf(),
        ensures
            final(self).log@ == old(self).log@.push(ServiceRequest::Remove(id)),
            r is Ok <==> old(self).nodes@.contains(id),
            r is Ok ==> exists|i: int|
                0 <= i < old(self).nodes@.len() && old(self).nodes@[i] == id
                    && final(self).nodes@ == old(self).nodes@.remove(i),
            r is Err ==> final(self).nodes@ == old(self).nodes@,
            final(self).wf(),
    {
        self.log.push(ServiceRequest::Remove(id));
        let mut i: usize = 0;
        let n = self.nodes.len();
        while i < n
            invariant
                0 <= i <= n,
                n == self.nodes@.len(),
                forall|j: int| 0 <= j < i ==> self.nodes@[j] != id,
                self.nodes == old(self).nodes,
                self.log@ == old(self).log@.push(ServiceRequest::Remove(id)),
                old(self).wf(),
            decreases n - i,
        {
            if self.nodes[i] == id {
                let ghost before = self.nodes@;
                self.nodes.remove(i);
                proof {
                    assert(before.contains(id));
                    assert forall|a: int, b: int|
                        0 <= a < b < self.nodes@.len() implies self.nodes@[a] != self.nodes@[b] by {
                        assert(self.nodes@[a] == if a < i { before[a] } else { before[a + 1] });
                        assert(self.nodes@[b] == if b < i { before[b] } else { before[b + 1] });
                    }
                }
                return Ok(());
            }
            i += 1;
        }
        Err(DeregistrationError {})
    }
}

/// Law (registration symmetry): registering a fresh identity and then
/// deregistering it — whichever entry the registry removes for it —
/// restores the registered set exactly.
pub proof fn lemma_registration_symmetry(nodes: Seq<NodeId>, id: NodeId, i: int)
    requires
        !nodes.contains(id),
        0 <= i < nodes.push(id).len(),
        nodes.push(id)[i] == id,
    ensures
        nodes.push(id).remove(i) == nodes,
{
    assert(i == nodes.len());
    assert(nodes.push(id).remove(i) =~= nodes);
}

} // verus!
