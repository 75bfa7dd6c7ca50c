use vstd::prelude::*;

use crate::errors::OrchestratorError;
use crate::machine::Address;
use crate::token::{bal, transfer_allowed, transfer_effect, BalanceTable};

verus! {

/// The high bytes that mark the addresses the model ledger assigns to
/// deployed contracts, keeping them apart from the account addresses used
/// in a run.
pub const CONTRACT_ADDRESS_HI: u32 = 0xC0;

/// The address the model ledger assigns to its `n`-th deployment.
pub open spec fn contract_address(n: u128) -> Address {
    Address { hi: CONTRACT_ADDRESS_HI, lo: n }
}

/// The library's model of the ledger around the contracts: the native coin
/// balances that the funding stage draws on, and the allocation of one
/// fresh contract address per deployment. The real ledger lives behind the
/// RPC endpoint; this model states the behaviour the workflow relies on.
pub struct LedgerModel {
    native: BalanceTable,
    deployments: u128,
}

impl LedgerModel {
    /// The native coin balances the ledger records.
    pub closed spec fn native_balances(&self) -> Map<Address, u64> {
        self.native@
    }

    /// How many contracts have been deployed so far.
    pub closed spec fn deployment_count(&self) -> u128 {
        self.deployments
    }

    /// A ledger whose genesis credits `balance` of the native coin to the
    /// one pre-funded account `prefunded`.
    pub fn new(prefunded: Address, balance: u64) -> (r: Self)
        ensures
            r.native_balances() == Map::<Address, u64>::empty().insert(prefunded, balance),
            r.deployment_count() == 0,
    {
        let mut native = BalanceTable::new();
        native.set(prefunded, balance);
        LedgerModel { native, deployments: 0 }
    }

    /// The native coin balance recorded for `a`.
    pub fn native_balance_of(&self, a: Address) -> (r: u64)
        ensures
            r == bal(self.native_balances(), a),
    {
        self.native.get(a)
    }

    /// Submits the funding value-transfer from `from` to `to` and waits for
    /// its confirmation. It confirms with a success status exactly when
    /// `from` holds at least `amount` of the native coin (and the
    /// recipient's balance does not overflow); anything else is the fatal
    /// `FundingFailed`, and moves nothing.
    pub fn fund(&mut self, from: Address, to: Address, amount: u64) -> (r: Result<
        (),
        OrchestratorError,
    >)
        ensures
            r is Ok <==> transfer_allowed(old(self).native_balances(), from, to, amount),
            r is Ok ==> final(self).native_balances() == transfer_effect(
                old(self).native_balances(),
                from,
                to,
                amount,
            ),
            r is Err ==> final(self).native_balances() == old(self).native_balances(),
            final(self).deployment_count() == old(self).deployment_count(),
            r matches Err(e) ==> e == OrchestratorError::FundingFailed,
    {
        let from_bal = self.native.get(from);
        if from_bal < amount {
            return Err(OrchestratorError::FundingFailed);
        }
        if from == to {
            return Ok(());
        }
        let to_bal = self.native.get(to);
        if to_bal > u64::MAX - amount {
            return Err(OrchestratorError::FundingFailed);
        }
        self.native.set(from, from_bal - amount);
        self.native.set(to, to_bal + amount);
        Ok(())
    }

    /// Deploys a contract and returns its address. The ledger assigns the
    /// next fresh address whatever bytecode and constructor arguments were
    /// submitted: repeating an identical deployment is never deduplicated.
    pub fn deploy_contract(&mut self, bytecode: &[u8], constructor_args: &[u8]) -> (r: Address)
        requires
            old(self).deployment_count() < u128::MAX,
        ensures
            r == contract_address(old(self).deployment_count()),
            final(self).deployment_count() == old(self).deployment_count() + 1,
            final(self).native_balances() == old(self).native_balances(),
    {
        let addr = Address { hi: CONTRACT_ADDRESS_HI, lo: self.deployments };
        self.deployments = self.deployments + 1;
        addr
    }
}

/// Idempotence-of-intent law: two deployments never share an address, even
/// when artifact and constructor arguments are identical — each deployment
/// consumes its own slot, and the addresses of distinct slots differ.
pub proof fn lemma_repeated_deployment_distinct(n1: u128, n2: u128)
    requires
        n1 != n2,
    ensures
        contract_address(n1) != contract_address(n2),
{
}

} // verus!
