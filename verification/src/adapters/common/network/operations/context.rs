use vstd::prelude::*;

use crate::device::network::manager::{NetworkManager, NetworkManagerImpl};
use crate::device::network::protocols::NetworkProtocol;

verus! {

/// Context for network operations; owns the network manager they go through.
pub struct OperationsContext<M: NetworkManager> {
    pub manager: M,
}

impl<M: NetworkManager> OperationsContext<M> {
    /// The network manager.
    pub open spec fn manager(&self) -> M {
        self.manager
    }

    /// A context around `manager`.
    pub fn new(manager: M) -> (r: Self)
        ensures
            r.manager() == manager,
    {
        OperationsContext { manager }
    }
}

impl OperationsContext<NetworkManagerImpl> {
    /// A context around a manager with no protocol registered.
    pub fn default() -> (r: Self)
        ensures
            r.manager().registered() == Set::<NetworkProtocol>::empty(),
    {
        Self::new(NetworkManagerImpl::new())
    }
}

} // verus!
