//! Steps of a deployment transaction and their static properties.

use vstd::prelude::*;

verus! {

/// Options controlling the build phase of an environment deployment.
#[derive(Clone, Copy, PartialEq, Eq, Structural, Debug)]
pub struct DeploymentOption {
    /// Build an application image even when the registry already holds it.
    pub force_build: bool,
    /// Push an image even when the registry already holds it.
    pub force_push: bool,
}

/// The kind tag of a step, plus the `Waiting` sentinel used before any step
/// has started.
#[derive(Clone, Copy, PartialEq, Eq, Structural, Debug)]
pub enum StepName {
    CreateKubernetes,
    DeleteKubernetes,
    PauseKubernetes,
    BuildEnvironment,
    DeployEnvironment,
    PauseEnvironment,
    DeleteEnvironment,
    Waiting,
}

impl StepName {
    /// A step kind may be canceled only while nothing irreversible has
    /// started: while the transaction is still waiting, or during an image
    /// build. Every cluster-lifecycle or environment step must run to
    /// completion (or be rolled back) once started.
    pub open spec fn cancellable(self) -> bool {
        match self {
            StepName::BuildEnvironment => true,
            StepName::Waiting => true,
            _ => false,
        }
    }

    /// True exactly for `BuildEnvironment` and `Waiting`.
    pub fn can_be_canceled(&self) -> (r: bool)
        ensures
            r == self.cancellable(),
    {
        match self {
            StepName::CreateKubernetes => false,
            StepName::DeleteKubernetes => false,
            StepName::PauseKubernetes => false,
            StepName::DeployEnvironment => false,
            StepName::PauseEnvironment => false,
            StepName::DeleteEnvironment => false,
            StepName::BuildEnvironment => true,
            StepName::Waiting => true,
        }
    }
}

/// One lifecycle operation queued in a transaction. Environment steps carry
/// the index of the environment in the transaction's environment arena.
#[derive(Clone, Copy, PartialEq, Eq, Structural, Debug)]
pub enum Step {
    CreateKubernetes,
    DeleteKubernetes,
    PauseKubernetes,
    BuildEnvironment(usize, DeploymentOption),
    DeployEnvironment(usize),
    PauseEnvironment(usize),
    DeleteEnvironment(usize),
}

impl Step {
    /// The kind tag of this step.
    pub open spec fn spec_step_name(self) -> StepName {
        match self {
            Step::CreateKubernetes => StepName::CreateKubernetes,
            Step::DeleteKubernetes => StepName::DeleteKubernetes,
            Step::PauseKubernetes => StepName::PauseKubernetes,
            Step::BuildEnvironment(..) => StepName::BuildEnvironment,
            Step::DeployEnvironment(..) => StepName::DeployEnvironment,
            Step::PauseEnvironment(..) => StepName::PauseEnvironment,
            Step::DeleteEnvironment(..) => StepName::DeleteEnvironment,
        }
    }

    /// True for the cluster-lifecycle steps, which have compensating
    /// rollback hooks; environment steps have none.
    pub open spec fn is_infrastructure(self) -> bool {
        match self {
            Step::CreateKubernetes => true,
            Step::DeleteKubernetes => true,
            Step::PauseKubernetes => true,
            _ => false,
        }
    }

    /// The index of the environment the step acts on, if any.
    pub open spec fn environment_index(self) -> Option<usize> {
        match self {
            Step::BuildEnvironment(e, _) => Some(e),
            Step::DeployEnvironment(e) => Some(e),
            Step::PauseEnvironment(e) => Some(e),
            Step::DeleteEnvironment(e) => Some(e),
            _ => None,
        }
    }

    /// The kind tag of this step.
    pub fn step_name(&self) -> (r: StepName)
        ensures
            r == self.spec_step_name(),
    {
        match self {
            Step::CreateKubernetes => StepName::CreateKubernetes,
            Step::DeleteKubernetes => StepName::DeleteKubernetes,
            Step::PauseKubernetes => StepName::PauseKubernetes,
            Step::BuildEnvironment(..) => StepName::BuildEnvironment,
            Step::DeployEnvironment(..) => StepName::DeployEnvironment,
            Step::PauseEnvironment(..) => StepName::PauseEnvironment,
            Step::DeleteEnvironment(..) => StepName::DeleteEnvironment,
        }
    }
}

} // verus!
