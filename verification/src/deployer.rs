use vstd::prelude::*;

use crate::artifact::Artifact;
use crate::chain::{contract_address, LedgerModel};
use crate::handle::ContractHandle;

verus! {

/// The deployer, run against the model ledger: consumes the artifact,
/// submits the deployment transaction signed by `client` with the encoded
/// constructor arguments, and returns the handle binding the fresh address
/// to the artifact's interface and to `client`. One deployment slot is
/// consumed; the attempt is never retried here — retries are an
/// orchestrator-level policy.
pub fn deploy(
    ledger: &mut LedgerModel,
    artifact: Artifact,
    constructor_args: &[u8],
    client: u64,
) -> (r: ContractHandle)
    requires
        old(ledger).deployment_count() < u128::MAX,
    ensures
        r.address == contract_address(old(ledger).deployment_count()),
        r.interface == artifact.interface,
        r.client == client,
        final(ledger).deployment_count() == old(ledger).deployment_count() + 1,
        final(ledger).native_balances() == old(ledger).native_balances(),
{
    let address = ledger.deploy_contract(artifact.bytecode.as_slice(), constructor_args);
    ContractHandle::bind(address, artifact.interface, client)
}

} // verus!
