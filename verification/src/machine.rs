use vstd::prelude::*;

use crate::errors::{OrchestratorError, Stage};

verus! {

/// A 20-byte identifier of an account or contract on the ledger, held as
/// its four high bytes followed by its sixteen low bytes.
#[derive(Clone, Copy, Debug, PartialEq, Eq, Structural)]
pub struct Address {
    pub hi: u32,
    pub lo: u128,
}

/// The states of the strictly ordered workflow. Each non-terminal state
/// waits for exactly the confirmation of the work submitted when it was
/// entered; no later transaction is submitted before that confirmation
/// arrives.
#[derive(Clone, Copy, Debug, PartialEq, Eq, Structural)]
pub enum WorkflowState {
    /// Waiting for the connection to the endpoint and the chain identifier.
    Connecting,
    /// Waiting for the two freshly generated signing identities.
    Provisioning,
    /// Waiting for the funding transfer to the deployer to confirm.
    FundingDeployer { counterparty: Address },
    /// Waiting for the funding transfer to the counterparty to confirm.
    FundingCounterparty { counterparty: Address },
    /// Waiting for the token contract deployment to confirm.
    DeployingToken { counterparty: Address },
    /// Waiting for the deposit contract deployment to confirm.
    DeployingDeposit { counterparty: Address, token: Address },
    /// Waiting for the counterparty-side handles to be rebound.
    Rebinding { counterparty: Address, token: Address, deposit: Address },
    /// Waiting for the token transfer to the counterparty to confirm.
    Transferring { token: Address, deposit: Address },
    /// Waiting for the counterparty's approval of the deposit contract to
    /// confirm.
    Approving { token: Address, deposit: Address },
    /// Waiting for the counterparty's deposit call to confirm.
    Depositing { token: Address, deposit: Address },
    /// Waiting for the token balance recorded for the deposit contract.
    Verifying,
    /// The run ended with the balance invariant checked.
    Completed { balance: u64 },
    /// The run ended at the tagged stage with the given error.
    Failed { stage: Stage, error: OrchestratorError },
}

/// What the embedding program reports back to the orchestrator: the outcome
/// of the one piece of outside work that the last action asked for.
#[derive(Clone, Copy, Debug, PartialEq, Eq, Structural)]
pub enum WorkflowEvent {
    Connected { chain_id: u64 },
    ConnectFailed,
    IdentitiesProvisioned { deployer: Address, counterparty: Address },
    /// Whether the funding transfer was confirmed with a success status.
    FundingResult { confirmed: bool },
    DeployConfirmed { address: Address },
    DeployRejected,
    DeployTimedOut,
    HandlesRebound,
    /// Whether the submitted call was confirmed with a success status.
    TxResult { confirmed: bool },
    BalanceObserved { balance: u64 },
}

/// The next piece of outside work the orchestrator asks the embedding
/// program to perform, or the end of the run.
#[derive(Clone, Copy, Debug, PartialEq, Eq, Structural)]
pub enum WorkflowAction {
    /// Generate the deployer and counterparty identities for this chain.
    ProvisionIdentities { chain_id: u64 },
    /// Send one unit from the pre-funded account to `recipient` and wait.
    SubmitFunding { recipient: Address },
    /// Deploy the token contract, signed by the deployer, and wait.
    SubmitDeployToken,
    /// Deploy the deposit contract, signed by the deployer, and wait.
    SubmitDeployDeposit,
    /// Bind counterparty-side handles to the two deployed addresses.
    RebindHandles { token: Address, deposit: Address },
    /// Transfer `amount` tokens from the deployer to `recipient` and wait.
    SubmitTransfer { token: Address, recipient: Address, amount: u64 },
    /// Approve `spender` for `amount` tokens, as the counterparty, and wait.
    SubmitApprove { token: Address, spender: Address, amount: u64 },
    /// Call the deposit entry point with the token and amount, as the
    /// counterparty, and wait.
    SubmitDeposit { deposit: Address, token: Address, amount: u64 },
    /// Read the token balance recorded for `holder`.
    QueryBalance { token: Address, holder: Address },
    /// Report the verified balance and exit successfully.
    Finish { balance: u64 },
    /// Report the stage-tagged error and exit with a failure status.
    Fail { stage: Stage, error: OrchestratorError },
}

/// Which events a state can consume. Terminal states consume none.
pub open spec fn accepts(s: WorkflowState, e: WorkflowEvent) -> bool {
    match (s, e) {
        (WorkflowState::Connecting, WorkflowEvent::Connected { .. }) => true,
        (WorkflowState::Connecting, WorkflowEvent::ConnectFailed) => true,
        (WorkflowState::Provisioning, WorkflowEvent::IdentitiesProvisioned { .. }) => true,
        (WorkflowState::FundingDeployer { .. }, WorkflowEvent::FundingResult { .. }) => true,
        (WorkflowState::FundingCounterparty { .. }, WorkflowEvent::FundingResult { .. }) => true,
        (WorkflowState::DeployingToken { .. }, WorkflowEvent::DeployConfirmed { .. }) => true,
        (WorkflowState::DeployingToken { .. }, WorkflowEvent::DeployRejected) => true,
        (WorkflowState::DeployingToken { .. }, WorkflowEvent::DeployTimedOut) => true,
        (WorkflowState::DeployingDeposit { .. }, WorkflowEvent::DeployConfirmed { .. }) => true,
        (WorkflowState::DeployingDeposit { .. }, WorkflowEvent::DeployRejected) => true,
        (WorkflowState::DeployingDeposit { .. }, WorkflowEvent::DeployTimedOut) => true,
        (WorkflowState::Rebinding { .. }, WorkflowEvent::HandlesRebound) => true,
        (WorkflowState::Transferring { .. }, WorkflowEvent::TxResult { .. }) => true,
        (WorkflowState::Approving { .. }, WorkflowEvent::TxResult { .. }) => true,
        (WorkflowState::Depositing { .. }, WorkflowEvent::TxResult { .. }) => true,
        (WorkflowState::Verifying, WorkflowEvent::BalanceObserved { .. }) => true,
        _ => false,
    }
}

/// The terminal pair a stage failure moves to: the `Failed` state and the
/// `Fail` action, both tagged the same way.
pub open spec fn failure(stage: Stage, error: OrchestratorError) -> (WorkflowState, WorkflowAction) {
    (WorkflowState::Failed { stage, error }, WorkflowAction::Fail { stage, error })
}

/// The complete transition table of the workflow, for the accepted
/// state/event pairs: the state entered and the action asked for next.
pub open spec fn transition(s: WorkflowState, amount: u64, e: WorkflowEvent) -> (
    WorkflowState,
    WorkflowAction,
) {
    match (s, e) {
        (WorkflowState::Connecting, WorkflowEvent::Connected { chain_id }) => (
            WorkflowState::Provisioning,
            WorkflowAction::ProvisionIdentities { chain_id },
        ),
        (WorkflowState::Connecting, WorkflowEvent::ConnectFailed) => failure(
            Stage::Connect,
            OrchestratorError::EndpointUnreachable,
        ),
        (
            WorkflowState::Provisioning,
            WorkflowEvent::IdentitiesProvisioned { deployer, counterparty },
        ) => (
            WorkflowState::FundingDeployer { counterparty },
            WorkflowAction::SubmitFunding { recipient: deployer },
        ),
        (
            WorkflowState::FundingDeployer { counterparty },
            WorkflowEvent::FundingResult { confirmed },
        ) => if confirmed {
            (
                WorkflowState::FundingCounterparty { counterparty },
                WorkflowAction::SubmitFunding { recipient: counterparty },
            )
        } else {
            failure(Stage::Fund, OrchestratorError::FundingFailed)
        },
        (
            WorkflowState::FundingCounterparty { counterparty },
            WorkflowEvent::FundingResult { confirmed },
        ) => if confirmed {
            (WorkflowState::DeployingToken { counterparty }, WorkflowAction::SubmitDeployToken)
        } else {
            failure(Stage::Fund, OrchestratorError::FundingFailed)
        },
        (
            WorkflowState::DeployingToken { counterparty },
            WorkflowEvent::DeployConfirmed { address },
        ) => (
            WorkflowState::DeployingDeposit { counterparty, token: address },
            WorkflowAction::SubmitDeployDeposit,
        ),
        (WorkflowState::DeployingToken { .. }, WorkflowEvent::DeployRejected) => failure(
            Stage::Deploy,
            OrchestratorError::DeploymentRejected,
        ),
        (WorkflowState::DeployingToken { .. }, WorkflowEvent::DeployTimedOut) => failure(
            Stage::Deploy,
            OrchestratorError::DeploymentTimeout,
        ),
        (
            WorkflowState::DeployingDeposit { counterparty, token },
            WorkflowEvent::DeployConfirmed { address },
        ) => (
            WorkflowState::Rebinding { counterparty, token, deposit: address },
            WorkflowAction::RebindHandles { token, deposit: address },
        ),
        (WorkflowState::DeployingDeposit { .. }, WorkflowEvent::DeployRejected) => failure(
            Stage::Deploy,
            OrchestratorError::DeploymentRejected,
        ),
        (WorkflowState::DeployingDeposit { .. }, WorkflowEvent::DeployTimedOut) => failure(
            Stage::Deploy,
            OrchestratorError::DeploymentTimeout,
        ),
        (
            WorkflowState::Rebinding { counterparty, token, deposit },
            WorkflowEvent::HandlesRebound,
        ) => (
            WorkflowState::Transferring { token, deposit },
            WorkflowAction::SubmitTransfer { token, recipient: counterparty, amount },
        ),
        (WorkflowState::Transferring { token, deposit }, WorkflowEvent::TxResult { confirmed }) => if confirmed {
            (
                WorkflowState::Approving { token, deposit },
                WorkflowAction::SubmitApprove { token, spender: deposit, amount },
            )
        } else {
            failure(Stage::Transact, OrchestratorError::TransactionFailed)
        },
        (WorkflowState::Approving { token, deposit }, WorkflowEvent::TxResult { confirmed }) => if confirmed {
            (
                WorkflowState::Depositing { token, deposit },
                WorkflowAction::SubmitDeposit { deposit, token, amount },
            )
        } else {
            failure(Stage::Transact, OrchestratorError::TransactionFailed)
        },
        (WorkflowState::Depositing { token, deposit }, WorkflowEvent::TxResult { confirmed }) => if confirmed {
            (WorkflowState::Verifying, WorkflowAction::QueryBalance { token, holder: deposit })
        } else {
            failure(Stage::Transact, OrchestratorError::TransactionFailed)
        },
        (WorkflowState::Verifying, WorkflowEvent::BalanceObserved { balance }) => if balance
            == amount {
            (WorkflowState::Completed { balance }, WorkflowAction::Finish { balance })
        } else {
            failure(Stage::Verify, OrchestratorError::VerificationFailed)
        },
        _ => arbitrary(),
    }
}

/// The workflow orchestrator: the amount to move through the
/// transfer -> approve -> deposit chain, fixed at the start, and the current
/// state, advanced one confirmed event at a time.
pub struct Orchestrator {
    pub amount: u64,
    pub state: WorkflowState,
}

impl Orchestrator {
    /// A run about to connect, that will move `amount` tokens through the
    /// transfer -> approve -> deposit chain.
    pub fn new(amount: u64) -> (r: Self)
        ensures
            r.amount == amount,
            r.state == WorkflowState::Connecting,
    {
        Orchestrator { amount, state: WorkflowState::Connecting }
    }

    /// Whether the current state can consume this event.
    pub fn accepts_event(&self, e: &WorkflowEvent) -> (r: bool)
        ensures
            r == accepts(self.state, *e),
    {
        match (self.state, *e) {
            (WorkflowState::Connecting, WorkflowEvent::Connected { .. }) => true,
            (WorkflowState::Connecting, WorkflowEvent::ConnectFailed) => true,
            (WorkflowState::Provisioning, WorkflowEvent::IdentitiesProvisioned { .. }) => true,
            (WorkflowState::FundingDeployer { .. }, WorkflowEvent::FundingResult { .. }) => true,
            (WorkflowState::FundingCounterparty { .. }, WorkflowEvent::FundingResult { .. }) => true,
            (WorkflowState::DeployingToken { .. }, WorkflowEvent::DeployConfirmed { .. }) => true,
            (WorkflowState::DeployingToken { .. }, WorkflowEvent::DeployRejected) => true,
            (WorkflowState::DeployingToken { .. }, WorkflowEvent::DeployTimedOut) => true,
            (WorkflowState::DeployingDeposit { .. }, WorkflowEvent::DeployConfirmed { .. }) => true,
            (WorkflowState::DeployingDeposit { .. }, WorkflowEvent::DeployRejected) => true,
            (WorkflowState::DeployingDeposit { .. }, WorkflowEvent::DeployTimedOut) => true,
            (WorkflowState::Rebinding { .. }, WorkflowEvent::HandlesRebound) => true,
            (WorkflowState::Transferring { .. }, WorkflowEvent::TxResult { .. }) => true,
            (WorkflowState::Approving { .. }, WorkflowEvent::TxResult { .. }) => true,
            (WorkflowState::Depositing { .. }, WorkflowEvent::TxResult { .. }) => true,
            (WorkflowState::Verifying, WorkflowEvent::BalanceObserved { .. }) => true,
            _ => false,
        }
    }

    /// Consumes the outcome of the last piece of outside work and returns
    /// the next action, exactly as the transition table says.
    pub fn step(&mut self, e: WorkflowEvent) -> (a: WorkflowAction)
        requires
            accepts(old(self).state, e),
        ensures
            final(self).amount == old(self).amount,
            (final(self).state, a) == transition(old(self).state, old(self).amount, e),
    {
        let amount = self.amount;
        let (next, action) = match (self.state, e) {
            (WorkflowState::Connecting, WorkflowEvent::Connected { chain_id }) => (
                WorkflowState::Provisioning,
                WorkflowAction::ProvisionIdentities { chain_id },
            ),
            (WorkflowState::Connecting, WorkflowEvent::ConnectFailed) => Self::fail(
                Stage::Connect,
                OrchestratorError::EndpointUnreachable,
            ),
            (
                WorkflowState::Provisioning,
                WorkflowEvent::IdentitiesProvisioned { deployer, counterparty },
            ) => (
                WorkflowState::FundingDeployer { counterparty },
                WorkflowAction::SubmitFunding { recipient: deployer },
            ),
            (
                WorkflowState::FundingDeployer { counterparty },
                WorkflowEvent::FundingResult { confirmed },
            ) => if confirmed {
                (
                    WorkflowState::FundingCounterparty { counterparty },
                    WorkflowAction::SubmitFunding { recipient: counterparty },
                )
            } else {
                Self::fail(Stage::Fund, OrchestratorError::FundingFailed)
            },
            (
                WorkflowState::FundingCounterparty { counterparty },
                WorkflowEvent::FundingResult { confirmed },
            ) => if confirmed {
                (WorkflowState::DeployingToken { counterparty }, WorkflowAction::SubmitDeployToken)
            } else {
                Self::fail(Stage::Fund, OrchestratorError::FundingFailed)
            },
            (
                WorkflowState::DeployingToken { counterparty },
                WorkflowEvent::DeployConfirmed { address },
            ) => (
                WorkflowState::DeployingDeposit { counterparty, token: address },
                WorkflowAction::SubmitDeployDeposit,
            ),
            (WorkflowState::DeployingToken { .. }, WorkflowEvent::DeployRejected) => Self::fail(
                Stage::Deploy,
                OrchestratorError::DeploymentRejected,
            ),
            (WorkflowState::DeployingToken { .. }, WorkflowEvent::DeployTimedOut) => Self::fail(
                Stage::Deploy,
                OrchestratorError::DeploymentTimeout,
            ),
            (
                WorkflowState::DeployingDeposit { counterparty, token },
                WorkflowEvent::DeployConfirmed { address },
            ) => (
                WorkflowState::Rebinding { counterparty, token, deposit: address },
                WorkflowAction::RebindHandles { token, deposit: address },
            ),
            (WorkflowState::DeployingDeposit { .. }, WorkflowEvent::DeployRejected) => Self::fail(
                Stage::Deploy,
                OrchestratorError::DeploymentRejected,
            ),
            (WorkflowState::DeployingDeposit { .. }, WorkflowEvent::DeployTimedOut) => Self::fail(
                Stage::Deploy,
                OrchestratorError::DeploymentTimeout,
            ),
            (
                WorkflowState::Rebinding { counterparty, token, deposit },
                WorkflowEvent::HandlesRebound,
            ) => (
                WorkflowState::Transferring { token, deposit },
                WorkflowAction::SubmitTransfer { token, recipient: counterparty, amount },
            ),
            (
                WorkflowState::Transferring { token, deposit },
                WorkflowEvent::TxResult { confirmed },
            ) => if confirmed {
                (
                    WorkflowState::Approving { token, deposit },
                    WorkflowAction::SubmitApprove { token, spender: deposit, amount },
                )
            } else {
                Self::fail(Stage::Transact, OrchestratorError::TransactionFailed)
            },
            (
                WorkflowState::Approving { token, deposit },
                WorkflowEvent::TxResult { confirmed },
            ) => if confirmed {
                (
                    WorkflowState::Depositing { token, deposit },
                    WorkflowAction::SubmitDeposit { deposit, token, amount },
                )
            } else {
                Self::fail(Stage::Transact, OrchestratorError::TransactionFailed)
            },
            (
                WorkflowState::Depositing { token, deposit },
                WorkflowEvent::TxResult { confirmed },
            ) => if confirmed {
                (WorkflowState::Verifying, WorkflowAction::QueryBalance { token, holder: deposit })
            } else {
                Self::fail(Stage::Transact, OrchestratorError::TransactionFailed)
            },
            (WorkflowState::Verifying, WorkflowEvent::BalanceObserved { balance }) => if balance
                == amount {
                (WorkflowState::Completed { balance }, WorkflowAction::Finish { balance })
            } else {
                Self::fail(Stage::Verify, OrchestratorError::VerificationFailed)
            },
            _ => vstd::pervasive::unreached(),
        };
        self.state = next;
        action
    }

    fn fail(stage: Stage, error: OrchestratorError) -> (r: (WorkflowState, WorkflowAction))
        ensures
            r == failure(stage, error),
    {
        (WorkflowState::Failed { stage, error }, WorkflowAction::Fail { stage, error })
    }
}

/// Ordering law: the deposit call is submitted exactly on the event that
/// confirms the approval as successful — never before the approval is
/// confirmed, and never after a failed approval.
pub proof fn lemma_deposit_needs_confirmed_approval(
    s: WorkflowState,
    amount: u64,
    e: WorkflowEvent,
)
    requires
        accepts(s, e),
    ensures
        (transition(s, amount, e).1 matches WorkflowAction::SubmitDeposit { .. }) <==> (s matches
            WorkflowState::Approving { .. } && e matches WorkflowEvent::TxResult {
            confirmed: true,
        }),
{
}

/// Ordering law: the approval is submitted exactly on the event that
/// confirms the transfer as successful.
pub proof fn lemma_approve_needs_confirmed_transfer(
    s: WorkflowState,
    amount: u64,
    e: WorkflowEvent,
)
    requires
        accepts(s, e),
    ensures
        (transition(s, amount, e).1 matches WorkflowAction::SubmitApprove { .. }) <==> (s matches
            WorkflowState::Transferring { .. } && e matches WorkflowEvent::TxResult {
            confirmed: true,
        }),
{
}

/// Funding-failure law: a funding transfer whose confirmation reports
/// failure ends the run at the Fund stage with `FundingFailed`, and a
/// deployment is submitted only from the state in which both funding
/// transfers have been confirmed as successful.
pub proof fn lemma_funding_failure_fatal(s: WorkflowState, amount: u64, e: WorkflowEvent)
    requires
        accepts(s, e),
    ensures
        ((s matches WorkflowState::FundingDeployer { .. } || s matches
            WorkflowState::FundingCounterparty { .. }) && e matches WorkflowEvent::FundingResult {
            confirmed: false,
        }) ==> transition(s, amount, e) == failure(Stage::Fund, OrchestratorError::FundingFailed),
        (transition(s, amount, e).1 matches WorkflowAction::SubmitDeployToken) <==> (s matches
            WorkflowState::FundingCounterparty { .. } && e matches WorkflowEvent::FundingResult {
            confirmed: true,
        }),
{
}

/// Ordering law, closing the chain: each transact-stage state is entered
/// exactly by submitting the work it then waits for, so a run reaches
/// `Depositing` only through a submitted approval whose confirmation the
/// `Approving` state consumed first.
pub proof fn lemma_states_wait_for_their_own_submission(
    s: WorkflowState,
    amount: u64,
    e: WorkflowEvent,
)
    requires
        accepts(s, e),
    ensures
        transition(s, amount, e).0 matches WorkflowState::Transferring { .. } ==> transition(
            s,
            amount,
            e,
        ).1 matches WorkflowAction::SubmitTransfer { .. },
        transition(s, amount, e).0 matches WorkflowState::Approving { .. } ==> transition(
            s,
            amount,
            e,
        ).1 matches WorkflowAction::SubmitApprove { .. },
        transition(s, amount, e).0 matches WorkflowState::Depositing { .. } ==> transition(
            s,
            amount,
            e,
        ).1 matches WorkflowAction::SubmitDeposit { .. },
{
}

/// Terminal law: a completed or failed run consumes no further event, so
/// nothing at all — in particular no deployment and no transaction — is
/// submitted after a failure.
pub proof fn lemma_terminal_states_consume_nothing(s: WorkflowState, e: WorkflowEvent)
    requires
        s matches WorkflowState::Completed { .. } || s matches WorkflowState::Failed { .. },
    ensures
        !accepts(s, e),
{
}

/// Verification law: the run completes only when the observed balance
/// equals the configured amount exactly; any other observation fails the
/// Verify stage with `VerificationFailed`.
pub proof fn lemma_verification_is_exact(s: WorkflowState, amount: u64, e: WorkflowEvent)
    requires
        accepts(s, e),
    ensures
        transition(s, amount, e).0 matches WorkflowState::Completed { balance } ==> (s matches
            WorkflowState::Verifying && e == (WorkflowEvent::BalanceObserved { balance }) && balance
            == amount),
{
}

} // verus!
