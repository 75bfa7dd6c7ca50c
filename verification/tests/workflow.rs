use ledgerflow::errors::{OrchestratorError, Stage};
use ledgerflow::machine::{
    Address, Orchestrator, WorkflowAction, WorkflowEvent, WorkflowState,
};

fn addr(n: u128) -> Address {
    Address { hi: 0, lo: n }
}

#[test]
fn happy_path_runs_every_stage_in_order() {
    let deployer = addr(1);
    let alice = addr(2);
    let token = addr(10);
    let deposit = addr(11);
    let mut orch = Orchestrator::new(1000);
    assert_eq!(orch.state, WorkflowState::Connecting);

    let a = orch.step(WorkflowEvent::Connected { chain_id: 31337 });
    assert_eq!(a, WorkflowAction::ProvisionIdentities { chain_id: 31337 });
    let a = orch.step(WorkflowEvent::IdentitiesProvisioned { deployer, counterparty: alice });
    assert_eq!(a, WorkflowAction::SubmitFunding { recipient: deployer });
    let a = orch.step(WorkflowEvent::FundingResult { confirmed: true });
    assert_eq!(a, WorkflowAction::SubmitFunding { recipient: alice });
    let a = orch.step(WorkflowEvent::FundingResult { confirmed: true });
    assert_eq!(a, WorkflowAction::SubmitDeployToken);
    let a = orch.step(WorkflowEvent::DeployConfirmed { address: token });
    assert_eq!(a, WorkflowAction::SubmitDeployDeposit);
    let a = orch.step(WorkflowEvent::DeployConfirmed { address: deposit });
    assert_eq!(a, WorkflowAction::RebindHandles { token, deposit });
    let a = orch.step(WorkflowEvent::HandlesRebound);
    assert_eq!(a, WorkflowAction::SubmitTransfer { token, recipient: alice, amount: 1000 });
    let a = orch.step(WorkflowEvent::TxResult { confirmed: true });
    assert_eq!(a, WorkflowAction::SubmitApprove { token, spender: deposit, amount: 1000 });
    let a = orch.step(WorkflowEvent::TxResult { confirmed: true });
    assert_eq!(a, WorkflowAction::SubmitDeposit { deposit, token, amount: 1000 });
    let a = orch.step(WorkflowEvent::TxResult { confirmed: true });
    assert_eq!(a, WorkflowAction::QueryBalance { token, holder: deposit });
    let a = orch.step(WorkflowEvent::BalanceObserved { balance: 1000 });
    assert_eq!(a, WorkflowAction::Finish { balance: 1000 });
    assert_eq!(orch.state, WorkflowState::Completed { balance: 1000 });
    assert!(!orch.accepts_event(&WorkflowEvent::TxResult { confirmed: true }));
}

#[test]
fn connection_failure_is_endpoint_unreachable() {
    let mut orch = Orchestrator::new(1000);
    let a = orch.step(WorkflowEvent::ConnectFailed);
    assert_eq!(
        a,
        WorkflowAction::Fail { stage: Stage::Connect, error: OrchestratorError::EndpointUnreachable }
    );
}

#[test]
fn funding_failure_is_fatal_and_nothing_is_deployed() {
    let mut orch = Orchestrator::new(1000);
    orch.step(WorkflowEvent::Connected { chain_id: 1 });
    orch.step(WorkflowEvent::IdentitiesProvisioned { deployer: addr(1), counterparty: addr(2) });
    let a = orch.step(WorkflowEvent::FundingResult { confirmed: false });
    assert_eq!(
        a,
        WorkflowAction::Fail { stage: Stage::Fund, error: OrchestratorError::FundingFailed }
    );
    assert_eq!(
        orch.state,
        WorkflowState::Failed { stage: Stage::Fund, error: OrchestratorError::FundingFailed }
    );
    // A failed run consumes nothing further, so no deployment can follow.
    assert!(!orch.accepts_event(&WorkflowEvent::FundingResult { confirmed: true }));
    assert!(!orch.accepts_event(&WorkflowEvent::DeployConfirmed { address: addr(10) }));
}

#[test]
fn second_funding_failure_is_fatal_too() {
    let mut orch = Orchestrator::new(1000);
    orch.step(WorkflowEvent::Connected { chain_id: 1 });
    orch.step(WorkflowEvent::IdentitiesProvisioned { deployer: addr(1), counterparty: addr(2) });
    orch.step(WorkflowEvent::FundingResult { confirmed: true });
    let a = orch.step(WorkflowEvent::FundingResult { confirmed: false });
    assert_eq!(
        a,
        WorkflowAction::Fail { stage: Stage::Fund, error: OrchestratorError::FundingFailed }
    );
}

#[test]
fn rejected_deployment_fails_the_deploy_stage() {
    let mut orch = Orchestrator::new(1000);
    orch.step(WorkflowEvent::Connected { chain_id: 1 });
    orch.step(WorkflowEvent::IdentitiesProvisioned { deployer: addr(1), counterparty: addr(2) });
    orch.step(WorkflowEvent::FundingResult { confirmed: true });
    orch.step(WorkflowEvent::FundingResult { confirmed: true });
    let a = orch.step(WorkflowEvent::DeployRejected);
    assert_eq!(
        a,
        WorkflowAction::Fail { stage: Stage::Deploy, error: OrchestratorError::DeploymentRejected }
    );
}

#[test]
fn deployment_timeout_fails_the_deploy_stage() {
    let mut orch = Orchestrator::new(1000);
    orch.step(WorkflowEvent::Connected { chain_id: 1 });
    orch.step(WorkflowEvent::IdentitiesProvisioned { deployer: addr(1), counterparty: addr(2) });
    orch.step(WorkflowEvent::FundingResult { confirmed: true });
    orch.step(WorkflowEvent::FundingResult { confirmed: true });
    orch.step(WorkflowEvent::DeployConfirmed { address: addr(10) });
    let a = orch.step(WorkflowEvent::DeployTimedOut);
    assert_eq!(
        a,
        WorkflowAction::Fail { stage: Stage::Deploy, error: OrchestratorError::DeploymentTimeout }
    );
}

#[test]
fn failed_transfer_stops_before_approval() {
    let mut orch = Orchestrator::new(1000);
    orch.step(WorkflowEvent::Connected { chain_id: 1 });
    orch.step(WorkflowEvent::IdentitiesProvisioned { deployer: addr(1), counterparty: addr(2) });
    orch.step(WorkflowEvent::FundingResult { confirmed: true });
    orch.step(WorkflowEvent::FundingResult { confirmed: true });
    orch.step(WorkflowEvent::DeployConfirmed { address: addr(10) });
    orch.step(WorkflowEvent::DeployConfirmed { address: addr(11) });
    orch.step(WorkflowEvent::HandlesRebound);
    let a = orch.step(WorkflowEvent::TxResult { confirmed: false });
    assert_eq!(
        a,
        WorkflowAction::Fail { stage: Stage::Transact, error: OrchestratorError::TransactionFailed }
    );
    assert!(!orch.accepts_event(&WorkflowEvent::TxResult { confirmed: true }));
}

#[test]
fn deposit_is_submitted_only_after_confirmed_approval() {
    let token = addr(10);
    let deposit = addr(11);
    let mut orch = Orchestrator::new(1000);
    orch.step(WorkflowEvent::Connected { chain_id: 1 });
    orch.step(WorkflowEvent::IdentitiesProvisioned { deployer: addr(1), counterparty: addr(2) });
    orch.step(WorkflowEvent::FundingResult { confirmed: true });
    orch.step(WorkflowEvent::FundingResult { confirmed: true });
    orch.step(WorkflowEvent::DeployConfirmed { address: token });
    orch.step(WorkflowEvent::DeployConfirmed { address: deposit });
    orch.step(WorkflowEvent::HandlesRebound);
    // Transfer confirmed: the next action is the approval, not the deposit.
    let a = orch.step(WorkflowEvent::TxResult { confirmed: true });
    assert_eq!(a, WorkflowAction::SubmitApprove { token, spender: deposit, amount: 1000 });
    // A failed approval ends the run; the deposit is never submitted.
    let a = orch.step(WorkflowEvent::TxResult { confirmed: false });
    assert_eq!(
        a,
        WorkflowAction::Fail { stage: Stage::Transact, error: OrchestratorError::TransactionFailed }
    );
    assert!(!orch.accepts_event(&WorkflowEvent::TxResult { confirmed: true }));
}

#[test]
fn balance_mismatch_is_verification_failure() {
    let mut orch = Orchestrator::new(1000);
    orch.step(WorkflowEvent::Connected { chain_id: 1 });
    orch.step(WorkflowEvent::IdentitiesProvisioned { deployer: addr(1), counterparty: addr(2) });
    orch.step(WorkflowEvent::FundingResult { confirmed: true });
    orch.step(WorkflowEvent::FundingResult { confirmed: true });
    orch.step(WorkflowEvent::DeployConfirmed { address: addr(10) });
    orch.step(WorkflowEvent::DeployConfirmed { address: addr(11) });
    orch.step(WorkflowEvent::HandlesRebound);
    orch.step(WorkflowEvent::TxResult { confirmed: true });
    orch.step(WorkflowEvent::TxResult { confirmed: true });
    orch.step(WorkflowEvent::TxResult { confirmed: true });
    let a = orch.step(WorkflowEvent::BalanceObserved { balance: 999 });
    assert_eq!(
        a,
        WorkflowAction::Fail { stage: Stage::Verify, error: OrchestratorError::VerificationFailed }
    );
}
