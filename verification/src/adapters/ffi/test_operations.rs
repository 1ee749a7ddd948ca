use vstd::prelude::*;

use crate::adapters::common::network::operations::OperationsContext;
use crate::adapters::common::network::test_mocks::TestNetworkManager;

verus! {

/// An operations context around the test manager `manager`.
pub fn setup_test_context(manager: TestNetworkManager) -> (r: OperationsContext<TestNetworkManager>)
    ensures
        r.manager() == manager,
{
    OperationsContext::new(manager)
}

} // verus!
