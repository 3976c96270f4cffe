//! The singleton registry of provider identities.

use vstd::prelude::*;

use crate::error::ErrorCode;
use crate::identity::Identity;

verus! {

/// Bytes of the registry record before the node list: discriminator tag,
/// derivation index, and the list's length prefix.
pub const REGISTRY_BASE_SIZE: usize = 13;

/// Bytes one listed identity occupies in the persisted record.
pub const REGISTRY_NODE_ENTRY_SIZE: usize = 32;

/// De-duplicated list of the provider identities that registered.
///
/// Membership here gates the endpoint assignment path. Closing a provider
/// does not prune its entry; a stale entry is harmless because assignment
/// re-validates the provider record itself (existence and `active`) at use.
#[derive(Clone, Debug)]
pub struct NodeRegistry {
    /// Owner identities of the registered provider nodes, oldest first.
    pub nodes: Vec<Identity>,
}

impl View for NodeRegistry {
    type V = Seq<Identity>;

    open spec fn view(&self) -> Seq<Identity> {
        self.nodes@
    }
}

impl NodeRegistry {
    /// The registry never lists an identity twice.
    pub open spec fn wf(&self) -> bool {
        forall|i: int, j: int| 0 <= i < j < self@.len() ==> self@[i] != self@[j]
    }

    /// Bytes the persisted record needs to hold `num_nodes` entries; the
    /// backing storage is grown to exactly this before each insertion.
    pub fn calculate_size(num_nodes: usize) -> (size: usize)
        requires
            num_nodes as int
                <= (usize::MAX as int - REGISTRY_BASE_SIZE as int)
                    / (REGISTRY_NODE_ENTRY_SIZE as int),
        ensures
            size == REGISTRY_BASE_SIZE + num_nodes * REGISTRY_NODE_ENTRY_SIZE,
    {
        proof {
            let cap = usize::MAX as int - REGISTRY_BASE_SIZE as int;
            let entry = REGISTRY_NODE_ENTRY_SIZE as int;
            assert(num_nodes as int * entry <= (cap / entry) * entry <= cap)
                by (nonlinear_arith)
                requires
                    num_nodes as int <= cap / entry,
                    entry == 32,
                    cap >= 0,
            ;
        }
        REGISTRY_BASE_SIZE + num_nodes * REGISTRY_NODE_ENTRY_SIZE
    }

    /// Whether `id` is listed.
    pub fn contains_node(&self, id: Identity) -> (r: bool)
        ensures
            r == self@.contains(id),
    {
        let n = self.nodes.len();
        let mut i: usize = 0;
        while i < n
            invariant
                n == self@.len(),
                0 <= i <= n,
                forall|k: int| 0 <= k < i ==> self@[k] != id,
            decreases n - i,
        {
            if self.nodes[i] == id {
                return true;
            }
            i = i + 1;
        }
        false
    }

    /// Runtime check of [`NodeRegistry::wf`], for callers outside the
    /// verified core that must establish it before an operation.
    pub fn is_wf(&self) -> (r: bool)
        ensures
            r == self.wf(),
    {
        let n = self.nodes.len();
        let mut i: usize = 0;
        while i < n
            invariant
                n == self@.len(),
                0 <= i <= n,
                forall|p: int, q: int| 0 <= p < q < i ==> self@[p] != self@[q],
            decreases n - i,
        {
            let mut j: usize = 0;
            while j < i
                invariant
                    n == self@.len(),
                    0 <= j <= i < n,
                    forall|p: int| 0 <= p < j ==> self@[p] != self@[i as int],
                decreases i - j,
            {
                if self.nodes[j] == self.nodes[i] {
                    assert(!self.wf());
                    return false;
                }
                j = j + 1;
            }
            i = i + 1;
        }
        true
    }

    /// List `id`, unless it is already listed; insertion is idempotent.
    pub(crate) fn register(&mut self, id: Identity)
        requires
            old(self).wf(),
        ensures
            old(self)@.contains(id) ==> final(self)@ == old(self)@,
            !old(self)@.contains(id) ==> final(self)@ == old(self)@.push(id),
            final(self).wf(),
            final(self)@.contains(id),
    {
        if !self.contains_node(id) {
            self.nodes.push(id);
            assert(self@.contains(id)) by {
                assert(self@.last() == id);
            }
        }
    }
}

/// One-time initialization of the registry singleton to the empty list.
///
/// Like the vault there is no hidden default; re-initialization is refused.
pub fn node_registry_initialize(
    existing: Option<&NodeRegistry>,
) -> (r: Result<NodeRegistry, ErrorCode>)
    ensures
        existing is Some ==> r == Err::<NodeRegistry, ErrorCode>(ErrorCode::AlreadyExists),
        existing is None ==> (r matches Ok(reg) && reg@ =~= Seq::<Identity>::empty() && reg.wf()),
{
    if existing.is_some() {
        return Err(ErrorCode::AlreadyExists);
    }
    Ok(NodeRegistry { nodes: Vec::new() })
}

} // verus!
