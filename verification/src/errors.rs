use vstd::prelude::*;

verus! {

/// Every way the workflow can fail, across all of its components.
///
/// The loader reports `ArtifactNotFound` and `ArtifactMalformed`; the
/// deployer reports `DeploymentRejected` and `DeploymentTimeout`; the three
/// dependent calls of the transact stage report `TransactionFailed`; the
/// funding stage reports `FundingFailed`; the final balance check reports
/// `VerificationFailed`; and the connection stage reports
/// `EndpointUnreachable`. Errors always travel upward to the orchestrator,
/// which alone decides to end the run.
#[derive(Clone, Copy, Debug, PartialEq, Eq, Structural)]
pub enum OrchestratorError {
    ArtifactNotFound,
    ArtifactMalformed,
    DeploymentRejected,
    DeploymentTimeout,
    TransactionFailed,
    FundingFailed,
    VerificationFailed,
    EndpointUnreachable,
}

/// The strictly ordered stages of the workflow. A failure is always tagged
/// with the stage that produced it.
#[derive(Clone, Copy, Debug, PartialEq, Eq, Structural)]
pub enum Stage {
    Connect,
    Provision,
    Fund,
    Deploy,
    Rebind,
    Transact,
    Verify,
}

} // verus!
