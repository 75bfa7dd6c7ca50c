use ledgerflow::chain::LedgerModel;
use ledgerflow::errors::OrchestratorError;
use ledgerflow::handle::ContractHandle;
use ledgerflow::machine::Address;
use ledgerflow::token::{DepositContract, TokenContract};
use ledgerflow::transact::{execute_transfer_chain, run_transact_stage, verify_deposit_balance};

fn addr(n: u128) -> Address {
    Address { hi: 0, lo: n }
}

#[test]
fn end_to_end_deposit_balance_is_exactly_the_amount() {
    let deployer = addr(1);
    let alice = addr(2);
    let deposit_addr = addr(11);
    let mut token = TokenContract::new(deployer, 1_000_000);
    let deposit = DepositContract::new(deposit_addr);
    let verified = run_transact_stage(&mut token, &deposit, deployer, alice, 1000);
    assert_eq!(verified, Ok(1000));
    assert_eq!(token.balance_of(deposit_addr), 1000);
    assert_eq!(token.balance_of(alice), 0);
    assert_eq!(token.balance_of(deployer), 999_000);
    assert_eq!(token.allowance(alice, deposit_addr), 0);
}

#[test]
fn deposit_without_confirmed_approval_fails() {
    let deployer = addr(1);
    let alice = addr(2);
    let deposit_addr = addr(11);
    let mut token = TokenContract::new(deployer, 1_000_000);
    let deposit = DepositContract::new(deposit_addr);
    token.transfer(deployer, alice, 1000).unwrap();
    // The approval was never confirmed: the deposit must fail, not succeed
    // nondeterministically.
    let r = deposit.deposit(&mut token, alice, 1000);
    assert_eq!(r, Err(OrchestratorError::TransactionFailed));
    assert_eq!(token.balance_of(deposit_addr), 0);
    assert_eq!(token.balance_of(alice), 1000);
}

#[test]
fn transfer_with_insufficient_balance_fails() {
    let deployer = addr(1);
    let alice = addr(2);
    let mut token = TokenContract::new(deployer, 10);
    let r = token.transfer(deployer, alice, 1000);
    assert_eq!(r, Err(OrchestratorError::TransactionFailed));
    assert_eq!(token.balance_of(deployer), 10);
}

#[test]
fn transfer_chain_stops_at_first_failure() {
    let deployer = addr(1);
    let alice = addr(2);
    let deposit_addr = addr(11);
    let mut token = TokenContract::new(deployer, 10);
    let deposit = DepositContract::new(deposit_addr);
    let r = execute_transfer_chain(&mut token, &deposit, deployer, alice, 1000);
    assert_eq!(r, Err(OrchestratorError::TransactionFailed));
    assert_eq!(token.balance_of(deployer), 10);
    assert_eq!(token.allowance(alice, deposit_addr), 0);
}

#[test]
fn approval_overwrites_and_transfer_from_spends() {
    let owner = addr(1);
    let spender = addr(2);
    let mut token = TokenContract::new(owner, 1_000_000);
    token.approve(owner, spender, 50).unwrap();
    token.approve(owner, spender, 1000).unwrap();
    assert_eq!(token.allowance(owner, spender), 1000);
    token.transfer_from(spender, owner, spender, 400).unwrap();
    assert_eq!(token.allowance(owner, spender), 600);
    assert_eq!(token.balance_of(spender), 400);
    assert_eq!(token.balance_of(owner), 999_600);
}

#[test]
fn verification_reports_mismatch_distinctly() {
    let deployer = addr(1);
    let deposit_addr = addr(11);
    let token = TokenContract::new(deployer, 1_000_000);
    let deposit = DepositContract::new(deposit_addr);
    let r = verify_deposit_balance(&token, &deposit, 1000);
    assert_eq!(r, Err(OrchestratorError::VerificationFailed));
}

#[test]
fn funding_with_insufficient_source_balance_fails() {
    let source = addr(0);
    let alice = addr(2);
    let mut ledger = LedgerModel::new(source, 1);
    let r = ledger.fund(source, alice, 2);
    assert_eq!(r, Err(OrchestratorError::FundingFailed));
    assert_eq!(ledger.native_balance_of(source), 1);
    assert_eq!(ledger.native_balance_of(alice), 0);
}

#[test]
fn funding_both_identities_moves_one_unit_each() {
    let source = addr(0);
    let deployer = addr(1);
    let alice = addr(2);
    let mut ledger = LedgerModel::new(source, 10);
    ledger.fund(source, deployer, 1).unwrap();
    ledger.fund(source, alice, 1).unwrap();
    assert_eq!(ledger.native_balance_of(deployer), 1);
    assert_eq!(ledger.native_balance_of(alice), 1);
    assert_eq!(ledger.native_balance_of(source), 8);
}

#[test]
fn repeated_deployment_of_same_artifact_gets_distinct_addresses() {
    let source = addr(0);
    let mut ledger = LedgerModel::new(source, 10);
    let bytecode = vec![0x60, 0x01];
    let first = ledger.deploy_contract(&bytecode, &[]);
    let second = ledger.deploy_contract(&bytecode, &[]);
    assert_ne!(first, second);
}

#[test]
fn rebinding_keeps_address_and_interface() {
    let interface = ethers::abi::Abi::default();
    let handle = ContractHandle::bind(addr(10), interface, 1);
    let rebound = handle.rebind(2);
    assert_eq!(rebound.address, handle.address);
    assert_eq!(rebound.interface, handle.interface);
    assert_eq!(rebound.client, 2);
    assert_eq!(handle.client, 1);
}

#[test]
fn deployer_consumes_artifact_and_binds_fresh_addresses() {
    const ABI_JSON: &str = r#"[{"inputs":[],"name":"total","outputs":[{"internalType":"uint256","name":"","type":"uint256"}],"stateMutability":"view","type":"function"}]"#;
    let make_artifact = || {
        ledgerflow::artifact::load_artifact(
            Some(ABI_JSON.as_bytes().to_vec()),
            Some(b"0x6001600101".to_vec()),
        )
        .unwrap()
    };
    let mut ledger = LedgerModel::new(addr(0), 10);
    // The same artifact and the same (empty) constructor arguments, twice,
    // from the same identity: two distinct, independently valid addresses.
    let first = ledgerflow::deployer::deploy(&mut ledger, make_artifact(), &[], 1);
    let second = ledgerflow::deployer::deploy(&mut ledger, make_artifact(), &[], 1);
    assert_ne!(first.address, second.address);
    assert_eq!(first.client, 1);
    assert_eq!(first.interface, second.interface);
}

