use vstd::prelude::*;

use crate::machine::Address;

verus! {

/// Relies on the derived Clone of ethers::abi::Abi (ethabi's `Contract`):
/// a field-for-field copy, equal to its source.
#[verifier::external_body]
fn clone_interface(a: &ethers::abi::Abi) -> (r: ethers::abi::Abi)
    ensures
        r == *a,
{
    a.clone()
}

/// A handle to a deployed contract: its address, its interface descriptor,
/// and the client identity whose signature its calls carry. The identity is
/// a small handle that the embedding program maps to its real RPC clients.
pub struct ContractHandle {
    pub address: Address,
    pub interface: ethers::abi::Abi,
    pub client: u64,
}

impl ContractHandle {
    /// Binds a freshly deployed address and its interface to the client
    /// that deployed it.
    pub fn bind(address: Address, interface: ethers::abi::Abi, client: u64) -> (r: Self)
        ensures
            r.address == address,
            r.interface == interface,
            r.client == client,
    {
        ContractHandle { address, interface, client }
    }

    /// The same contract acting as `client`: a new handle with the same
    /// address and interface, not a mutation of this one.
    pub fn rebind(&self, client: u64) -> (r: Self)
        ensures
            r.address == self.address,
            r.interface == self.interface,
            r.client == client,
    {
        ContractHandle { address: self.address, interface: clone_interface(&self.interface), client }
    }
}

} // verus!
