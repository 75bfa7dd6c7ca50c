use vstd::prelude::*;

use crate::errors::OrchestratorError;
use crate::machine::Address;
use crate::token::{
    bal, allowance_of, spend_allowance_effect, transfer_allowed, transfer_effect,
    transfer_from_allowed, DepositContract, TokenContract,
};

verus! {

/// The transact stage run against the token model: the deployer's transfer
/// to the counterparty, the counterparty's approval of the deposit
/// contract, and the counterparty's deposit call, in that order. Each
/// call's result is inspected before the next is submitted; the first
/// failure stops the chain with `TransactionFailed`, and what was already
/// confirmed is not rolled back.
pub fn execute_transfer_chain(
    token: &mut TokenContract,
    deposit: &DepositContract,
    deployer: Address,
    counterparty: Address,
    amount: u64,
) -> (r: Result<(), OrchestratorError>)
    ensures
        ({
            let b0 = old(token).balances();
            let al0 = old(token).allowances();
            let b1 = transfer_effect(b0, deployer, counterparty, amount);
            let al1 = al0.insert((counterparty, deposit.address), amount);
            &&& (r is Ok <==> (transfer_allowed(b0, deployer, counterparty, amount)
                && transfer_from_allowed(
                b1,
                al1,
                deposit.address,
                counterparty,
                deposit.address,
                amount,
            )))
            &&& (r is Ok ==> final(token).balances() == transfer_effect(
                b1,
                counterparty,
                deposit.address,
                amount,
            ))
            &&& (r is Ok ==> final(token).allowances() == spend_allowance_effect(
                al1,
                deposit.address,
                counterparty,
                amount,
            ))
            &&& (!transfer_allowed(b0, deployer, counterparty, amount) ==> final(token).balances()
                == b0 && final(token).allowances() == al0)
            &&& ((transfer_allowed(b0, deployer, counterparty, amount) && !transfer_from_allowed(
                b1,
                al1,
                deposit.address,
                counterparty,
                deposit.address,
                amount,
            )) ==> final(token).balances() == b1 && final(token).allowances() == al1)
            &&& (r matches Err(e) ==> e == OrchestratorError::TransactionFailed)
        }),
{
    match token.transfer(deployer, counterparty, amount) {
        Ok(u) => u,
        Err(e) => {
            return Err(e);
        },
    };
    match token.approve(counterparty, deposit.address, amount) {
        Ok(u) => u,
        Err(e) => {
            return Err(e);
        },
    };
    match deposit.deposit(token, counterparty, amount) {
        Ok(u) => u,
        Err(e) => {
            return Err(e);
        },
    };
    Ok(())
}

/// The verify stage: reads the token balance recorded for the deposit
/// contract's address and requires it to equal the transacted amount
/// exactly; a mismatch is a `VerificationFailed`, kept distinct from a
/// transaction failure.
pub fn verify_deposit_balance(
    token: &TokenContract,
    deposit: &DepositContract,
    amount: u64,
) -> (r: Result<u64, OrchestratorError>)
    ensures
        r is Ok <==> bal(token.balances(), deposit.address) == amount,
        r matches Ok(v) ==> v == amount,
        r matches Err(e) ==> e == OrchestratorError::VerificationFailed,
{
    let recorded = token.balance_of(deposit.address);
    if recorded == amount {
        Ok(recorded)
    } else {
        Err(OrchestratorError::VerificationFailed)
    }
}

/// The whole transact-and-verify tail of the workflow against the model.
/// Whenever the deployer holds at least `amount`, the three participants
/// are distinct, and the deposit contract starts with no recorded balance,
/// the chain is owed success and the verified balance is exactly `amount`.
pub fn run_transact_stage(
    token: &mut TokenContract,
    deposit: &DepositContract,
    deployer: Address,
    counterparty: Address,
    amount: u64,
) -> (r: Result<u64, OrchestratorError>)
    requires
        bal(old(token).balances(), deployer) >= amount,
        bal(old(token).balances(), counterparty) + amount <= u64::MAX,
        bal(old(token).balances(), deposit.address) == 0,
        deployer != counterparty,
        counterparty != deposit.address,
        deployer != deposit.address,
    ensures
        r == Ok::<u64, OrchestratorError>(amount),
        bal(final(token).balances(), deposit.address) == amount,
{
    let chained = execute_transfer_chain(token, deposit, deployer, counterparty, amount);
    proof {
        let b0 = old(token).balances();
        let b1 = transfer_effect(b0, deployer, counterparty, amount);
        assert(bal(b1, counterparty) == bal(b0, counterparty) + amount);
        assert(bal(b1, deposit.address) == 0);
        assert(bal(transfer_effect(b1, counterparty, deposit.address, amount), deposit.address)
            == amount);
    }
    match chained {
        Ok(u) => u,
        Err(e) => {
            return Err(e);
        },
    };
    verify_deposit_balance(token, deposit, amount)
}

} // verus!
