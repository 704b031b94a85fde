//! The engine context a transaction runs against.
//!
//! Every side effect of a commit — cluster lifecycle calls, registry and
//! build operations, progress notifications, cancellation polls — goes
//! through the [`EngineOps`] trait. The trait keeps a ghost log of the calls
//! made so far, so the sequencer's contracts can state exactly which
//! collaborator calls happen, in which order, and with which arguments.
//!
//! [`ScriptedEngine`] is the crate's own implementation: it records every
//! call and answers from a pre-set script, which is what the tests drive
//! commits against. Implementations that reach a real cluster live outside
//! the verified library and must uphold the same recording discipline.

use vstd::prelude::*;
use crate::environment::Environment;
use crate::errors::{
    duplicate_engine_error,
    BuildError,
    ContainerRegistryError,
    EngineConfigError,
    EngineError,
    Tag,
};
use crate::image::{Build, Image};
use crate::service::{Action, ProgressLevel, ProgressScope, ProgressScopeView, ServiceType};
use crate::step::StepName;

verus! {

/// Outcome of one build collaborator invocation.
#[derive(Clone, Copy, PartialEq, Eq, Structural, Debug)]
pub enum BuildStatus {
    Built,
    Aborted,
    Failed,
}

/// The [`BuildStatus`] of a build collaborator result.
pub open spec fn build_status_of(r: Result<(), BuildError>) -> BuildStatus {
    match r {
        Ok(_) => BuildStatus::Built,
        Err(BuildError::Aborted { .. }) => BuildStatus::Aborted,
        Err(BuildError::Other { .. }) => BuildStatus::Failed,
    }
}

/// One collaborator call, as recorded in the ghost log of an engine.
pub enum EngineCall {
    /// The step-change observer was told the current step kind.
    StepChange(StepName),
    /// The abort predicate was polled and answered the given value.
    AbortCheck(bool),
    /// The cluster-lifecycle collaborator ran its create operation.
    ClusterCreate(bool),
    /// The cluster-lifecycle collaborator ran its pause operation.
    ClusterPause(bool),
    /// The cluster-lifecycle collaborator ran its delete operation.
    ClusterDelete(bool),
    /// The compensating hook for a failed create ran.
    ClusterCreateRevert(bool),
    /// The compensating hook for a failed pause ran.
    ClusterPauseRevert(bool),
    /// The compensating hook for a failed delete ran.
    ClusterDeleteRevert(bool),
    /// The container registry itself was created (or ensured).
    RegistryCreate(bool),
    /// The registry was asked whether it already holds an image.
    ImageCheck { image: Seq<char>, exists: bool },
    /// A repository was created (or ensured) with a retention policy.
    RepositoryCreate { repository: Seq<char>, retention_sec: u64, ok: bool },
    /// The build collaborator built and pushed an image.
    ImageBuild { image: Seq<char>, status: BuildStatus },
    /// A per-application build progress notification was emitted.
    BuildProgress { application_id: Seq<char>, level: ProgressLevel, message: Seq<char> },
    /// A terminal per-service success/failure notification was emitted.
    TerminalProgress { scope: ProgressScopeView, action: Action, is_error: bool },
    /// The environment executor applied an action to a whole environment.
    /// `failure` is `None` on success; on failure it carries the ids of
    /// the services the executor completed before failing, and the error.
    EnvironmentApply {
        environment: u128,
        action: Action,
        failure: Option<(Seq<u128>, crate::errors::EngineErrorView)>,
    },
}

/// The engine context: cluster, registry, build and environment
/// collaborators behind one interface, with a ghost log of calls.
pub trait EngineOps: Sized {
    /// The calls made so far, oldest first.
    spec fn log(&self) -> Seq<EngineCall>;

    /// The image retention the cluster is configured with, in seconds.
    spec fn retention_sec_spec(&self) -> u64;

    /// Checks the engine configuration; run before any step.
    fn is_valid(&self) -> (r: Result<(), EngineConfigError>);

    /// Checks the cluster configuration; run before any step.
    fn kubernetes_is_valid(&self) -> (r: Result<(), EngineError>);

    /// The image retention the cluster is configured with, in seconds.
    fn registry_image_retention_sec(&self) -> (r: u64)
        ensures
            r == self.retention_sec_spec(),
    ;

    /// Notifies the step-change observer.
    fn on_step_change(&mut self, step: &StepName)
        ensures
            final(self).log() == old(self).log().push(EngineCall::StepChange(*step)),
            final(self).retention_sec_spec() == old(self).retention_sec_spec(),
    ;

    /// Polls the abort predicate.
    fn is_aborted(&mut self) -> (r: bool)
        ensures
            final(self).log() == old(self).log().push(EngineCall::AbortCheck(r)),
            final(self).retention_sec_spec() == old(self).retention_sec_spec(),
    ;

    /// Creates the cluster.
    fn on_create(&mut self) -> (r: Result<(), EngineError>)
        ensures
            final(self).log() == old(self).log().push(EngineCall::ClusterCreate(r is Ok)),
            final(self).retention_sec_spec() == old(self).retention_sec_spec(),
    ;

    /// Pauses the cluster.
    fn on_pause(&mut self) -> (r: Result<(), EngineError>)
        ensures
            final(self).log() == old(self).log().push(EngineCall::ClusterPause(r is Ok)),
            final(self).retention_sec_spec() == old(self).retention_sec_spec(),
    ;

    /// Deletes the cluster.
    fn on_delete(&mut self) -> (r: Result<(), EngineError>)
        ensures
            final(self).log() == old(self).log().push(EngineCall::ClusterDelete(r is Ok)),
            final(self).retention_sec_spec() == old(self).retention_sec_spec(),
    ;

    /// Compensating hook for a failed cluster creation.
    fn on_create_error(&mut self) -> (r: Result<(), EngineError>)
        ensures
            final(self).log() == old(self).log().push(EngineCall::ClusterCreateRevert(r is Ok)),
            final(self).retention_sec_spec() == old(self).retention_sec_spec(),
    ;

    /// Compensating hook for a failed cluster pause.
    fn on_pause_error(&mut self) -> (r: Result<(), EngineError>)
        ensures
            final(self).log() == old(self).log().push(EngineCall::ClusterPauseRevert(r is Ok)),
            final(self).retention_sec_spec() == old(self).retention_sec_spec(),
    ;

    /// Compensating hook for a failed cluster deletion.
    fn on_delete_error(&mut self) -> (r: Result<(), EngineError>)
        ensures
            final(self).log() == old(self).log().push(EngineCall::ClusterDeleteRevert(r is Ok)),
            final(self).retention_sec_spec() == old(self).retention_sec_spec(),
    ;

    /// Creates (or ensures) the container registry.
    fn create_registry(&mut self) -> (r: Result<(), ContainerRegistryError>)
        ensures
            final(self).log() == old(self).log().push(EngineCall::RegistryCreate(r is Ok)),
            final(self).retention_sec_spec() == old(self).retention_sec_spec(),
    ;

    /// Asks the registry whether it already holds the image.
    fn does_image_exist(&mut self, image: &Image) -> (r: bool)
        ensures
            final(self).log() == old(self).log().push(
                EngineCall::ImageCheck { image: image@.full_name(), exists: r },
            ),
            final(self).retention_sec_spec() == old(self).retention_sec_spec(),
    ;

    /// Creates (or ensures) a repository with the given retention policy.
    fn create_repository(&mut self, repository: &str, retention_sec: u64) -> (r: Result<
        (),
        ContainerRegistryError,
    >)
        ensures
            final(self).log() == old(self).log().push(
                EngineCall::RepositoryCreate {
                    repository: repository@,
                    retention_sec,
                    ok: r is Ok,
                },
            ),
            final(self).retention_sec_spec() == old(self).retention_sec_spec(),
    ;

    /// Builds and pushes the image of a build handle. The abort predicate is
    /// threaded through by the implementation so a long build can be
    /// interrupted cooperatively.
    fn build_image(&mut self, build: &Build) -> (r: Result<(), BuildError>)
        ensures
            final(self).log() == old(self).log().push(
                EngineCall::ImageBuild {
                    image: build@.image.full_name(),
                    status: build_status_of(r),
                },
            ),
            final(self).retention_sec_spec() == old(self).retention_sec_spec(),
    ;

    /// Emits a per-application build progress notification.
    fn build_progress(&mut self, application_id: &str, level: ProgressLevel, message: &str)
        ensures
            final(self).log() == old(self).log().push(
                EngineCall::BuildProgress {
                    application_id: application_id@,
                    level,
                    message: message@,
                },
            ),
            final(self).retention_sec_spec() == old(self).retention_sec_spec(),
    ;

    /// Emits a terminal per-service success/failure notification.
    fn terminal_progress(&mut self, scope: &ProgressScope, action: Action, is_error: bool)
        ensures
            final(self).log() == old(self).log().push(
                EngineCall::TerminalProgress { scope: scope@, action, is_error },
            ),
            final(self).retention_sec_spec() == old(self).retention_sec_spec(),
    ;

    /// Applies a lifecycle action to all services of an environment. On
    /// failure the executor reports the ids of the services it completed
    /// before failing, so the caller can report the remainder.
    fn apply_environment(&mut self, environment: &Environment, action: Action) -> (r: Result<
        (),
        (Vec<u128>, EngineError),
    >)
        ensures
            r is Ok ==> final(self).log() == old(self).log().push(
                EngineCall::EnvironmentApply {
                    environment: environment@.long_id,
                    action,
                    failure: None,
                },
            ),
            r matches Err(p) ==> final(self).log() == old(self).log().push(
                EngineCall::EnvironmentApply {
                    environment: environment@.long_id,
                    action,
                    failure: Some((p.0@, p.1@)),
                },
            ),
            final(self).retention_sec_spec() == old(self).retention_sec_spec(),
    ;
}

/// One collaborator call, as a plain value a recording engine can store.
#[derive(Clone, PartialEq, Debug)]
pub enum EngineCallRecord {
    StepChange(StepName),
    AbortCheck(bool),
    ClusterCreate(bool),
    ClusterPause(bool),
    ClusterDelete(bool),
    ClusterCreateRevert(bool),
    ClusterPauseRevert(bool),
    ClusterDeleteRevert(bool),
    RegistryCreate(bool),
    ImageCheck { image: String, exists: bool },
    RepositoryCreate { repository: String, retention_sec: u64, ok: bool },
    ImageBuild { image: String, status: BuildStatus },
    BuildProgress { application_id: String, level: ProgressLevel, message: String },
    TerminalProgress { scope: ProgressScope, action: Action, is_error: bool },
    EnvironmentApply {
        environment: u128,
        action: Action,
        failure: Option<(Vec<u128>, EngineError)>,
    },
}

impl View for EngineCallRecord {
    type V = EngineCall;

    open spec fn view(&self) -> EngineCall {
        match self {
            EngineCallRecord::StepChange(s) => EngineCall::StepChange(*s),
            EngineCallRecord::AbortCheck(b) => EngineCall::AbortCheck(*b),
            EngineCallRecord::ClusterCreate(b) => EngineCall::ClusterCreate(*b),
            EngineCallRecord::ClusterPause(b) => EngineCall::ClusterPause(*b),
            EngineCallRecord::ClusterDelete(b) => EngineCall::ClusterDelete(*b),
            EngineCallRecord::ClusterCreateRevert(b) => EngineCall::ClusterCreateRevert(*b),
            EngineCallRecord::ClusterPauseRevert(b) => EngineCall::ClusterPauseRevert(*b),
            EngineCallRecord::ClusterDeleteRevert(b) => EngineCall::ClusterDeleteRevert(*b),
            EngineCallRecord::RegistryCreate(b) => EngineCall::RegistryCreate(*b),
            EngineCallRecord::ImageCheck { image, exists } => EngineCall::ImageCheck {
                image: image@,
                exists: *exists,
            },
            EngineCallRecord::RepositoryCreate { repository, retention_sec, ok } =>
                EngineCall::RepositoryCreate {
                repository: repository@,
                retention_sec: *retention_sec,
                ok: *ok,
            },
            EngineCallRecord::ImageBuild { image, status } => EngineCall::ImageBuild {
                image: image@,
                status: *status,
            },
            EngineCallRecord::BuildProgress { application_id, level, message } =>
                EngineCall::BuildProgress {
                application_id: application_id@,
                level: *level,
                message: message@,
            },
            EngineCallRecord::TerminalProgress { scope, action, is_error } =>
                EngineCall::TerminalProgress {
                scope: scope@,
                action: *action,
                is_error: *is_error,
            },
            EngineCallRecord::EnvironmentApply { environment, action, failure } =>
                EngineCall::EnvironmentApply {
                environment: *environment,
                action: *action,
                failure: match failure {
                    Some(f) => Some((f.0@, f.1@)),
                    None => None,
                },
            },
        }
    }
}

/// Copies a list of service ids.
fn copy_ids(v: &Vec<u128>) -> (r: Vec<u128>)
    ensures
        r@ == v@,
{
    let mut out: Vec<u128> = Vec::new();
    let mut i: usize = 0;
    while i < v.len()
        invariant
            0 <= i <= v.len(),
            out@ == v@.take(i as int),
        decreases v.len() - i,
    {
        out.push(v[i]);
        proof {
            assert(v@.take(i + 1) =~= v@.take(i as int).push(v@[i as int]));
        }
        i += 1;
    }
    proof {
        assert(v@.take(v@.len() as int) =~= v@);
    }
    out
}

/// An engine whose collaborators answer from a pre-set script and record
/// every call. This is the implementation the crate's tests drive commits
/// against; it also documents what a real engine must record.
pub struct ScriptedEngine {
    /// Script: answer of the engine configuration check.
    pub engine_valid: bool,
    /// Script: answer of the cluster configuration check.
    pub kubernetes_valid: bool,
    /// Script: answer of every abort poll.
    pub abort: bool,
    /// Script: outcome of every cluster lifecycle operation.
    pub cluster_ok: bool,
    /// Script: outcome of every compensating hook.
    pub revert_ok: bool,
    /// Script: outcome of registry creation.
    pub registry_ok: bool,
    /// Script: outcome of repository creation.
    pub repository_ok: bool,
    /// Script: the full names of the images the registry already holds.
    pub existing_images: Vec<String>,
    /// Script: outcome of every build.
    pub build_status: BuildStatus,
    /// Script: outcome of every environment application.
    pub environment_ok: bool,
    /// Script: the processed ids reported with a failed environment
    /// application.
    pub processed_service_ids: Vec<u128>,
    /// The configured image retention in seconds.
    pub retention_sec: u64,
    /// Every call made so far, oldest first.
    pub calls: Vec<EngineCallRecord>,
}

impl ScriptedEngine {
    /// A scripted engine where everything succeeds and nothing is aborted.
    pub fn new_all_ok(retention_sec: u64) -> (r: ScriptedEngine)
        ensures
            r.log() == Seq::<EngineCall>::empty(),
            r.retention_sec_spec() == retention_sec,
            r.engine_valid && r.kubernetes_valid && !r.abort,
            r.cluster_ok && r.revert_ok && r.registry_ok && r.repository_ok,
            r.build_status == BuildStatus::Built,
            r.environment_ok,
            r.existing_images@.len() == 0,
            r.processed_service_ids@.len() == 0,
    {
        let r = ScriptedEngine {
            engine_valid: true,
            kubernetes_valid: true,
            abort: false,
            cluster_ok: true,
            revert_ok: true,
            registry_ok: true,
            repository_ok: true,
            existing_images: Vec::new(),
            build_status: BuildStatus::Built,
            environment_ok: true,
            processed_service_ids: Vec::new(),
            retention_sec,
            calls: Vec::new(),
        };
        proof {
            assert(r.log() =~= Seq::<EngineCall>::empty());
        }
        r
    }

    /// Records one call.
    fn record(&mut self, call: EngineCallRecord)
        ensures
            final(self).log() == old(self).log().push(call@),
            *final(self) == (ScriptedEngine { calls: final(self).calls, ..*old(self) }),
    {
        self.calls.push(call);
        proof {
            assert(self.log() =~= old(self).log().push(self.calls@.last()@));
        }
    }
}

impl EngineOps for ScriptedEngine {
    open spec fn log(&self) -> Seq<EngineCall> {
        self.calls@.map_values(|c: EngineCallRecord| c@)
    }

    open spec fn retention_sec_spec(&self) -> u64 {
        self.retention_sec
    }

    fn is_valid(&self) -> (r: Result<(), EngineConfigError>) {
        if self.engine_valid {
            Ok(())
        } else {
            Err(EngineConfigError::NotValid { message: String::from_str("engine config refused") })
        }
    }

    fn kubernetes_is_valid(&self) -> (r: Result<(), EngineError>) {
        if self.kubernetes_valid {
            Ok(())
        } else {
            Err(
                EngineError::new_from_safe(
                    Tag::InfrastructureError,
                    String::from_str("kubernetes config refused"),
                ),
            )
        }
    }

    fn registry_image_retention_sec(&self) -> (r: u64) {
        self.retention_sec
    }

    fn on_step_change(&mut self, step: &StepName) {
        self.record(EngineCallRecord::StepChange(*step));
    }

    fn is_aborted(&mut self) -> (r: bool) {
        let r = self.abort;
        self.record(EngineCallRecord::AbortCheck(r));
        r
    }

    fn on_create(&mut self) -> (r: Result<(), EngineError>) {
        let ok = self.cluster_ok;
        self.record(EngineCallRecord::ClusterCreate(ok));
        if ok {
            Ok(())
        } else {
            Err(
                EngineError::new_from_safe(
                    Tag::InfrastructureError,
                    String::from_str("cluster create failed"),
                ),
            )
        }
    }

    fn on_pause(&mut self) -> (r: Result<(), EngineError>) {
        let ok = self.cluster_ok;
        self.record(EngineCallRecord::ClusterPause(ok));
        if ok {
            Ok(())
        } else {
            Err(
                EngineError::new_from_safe(
                    Tag::InfrastructureError,
                    String::from_str("cluster pause failed"),
                ),
            )
        }
    }

    fn on_delete(&mut self) -> (r: Result<(), EngineError>) {
        let ok = self.cluster_ok;
        self.record(EngineCallRecord::ClusterDelete(ok));
        if ok {
            Ok(())
        } else {
            Err(
                EngineError::new_from_safe(
                    Tag::InfrastructureError,
                    String::from_str("cluster delete failed"),
                ),
            )
        }
    }

    fn on_create_error(&mut self) -> (r: Result<(), EngineError>) {
        let ok = self.revert_ok;
        self.record(EngineCallRecord::ClusterCreateRevert(ok));
        if ok {
            Ok(())
        } else {
            Err(
                EngineError::new_from_safe(
                    Tag::InfrastructureError,
                    String::from_str("cluster create revert failed"),
                ),
            )
        }
    }

    fn on_pause_error(&mut self) -> (r: Result<(), EngineError>) {
        let ok = self.revert_ok;
        self.record(EngineCallRecord::ClusterPauseRevert(ok));
        if ok {
            Ok(())
        } else {
            Err(
                EngineError::new_from_safe(
                    Tag::InfrastructureError,
                    String::from_str("cluster pause revert failed"),
                ),
            )
        }
    }

    fn on_delete_error(&mut self) -> (r: Result<(), EngineError>) {
        let ok = self.revert_ok;
        self.record(EngineCallRecord::ClusterDeleteRevert(ok));
        if ok {
            Ok(())
        } else {
            Err(
                EngineError::new_from_safe(
                    Tag::InfrastructureError,
                    String::from_str("cluster delete revert failed"),
                ),
            )
        }
    }

    fn create_registry(&mut self) -> (r: Result<(), ContainerRegistryError>) {
        let ok = self.registry_ok;
        self.record(EngineCallRecord::RegistryCreate(ok));
        if ok {
            Ok(())
        } else {
            Err(ContainerRegistryError { safe_message: String::from_str("registry refused") })
        }
    }

    fn does_image_exist(&mut self, image: &Image) -> (r: bool) {
        let full = image.full_image_name_with_tag();
        let mut found = false;
        let mut i: usize = 0;
        while i < self.existing_images.len()
            invariant
                0 <= i <= self.existing_images.len(),
            decreases self.existing_images.len() - i,
        {
            if self.existing_images[i].eq(&full) {
                found = true;
            }
            i += 1;
        }
        self.record(EngineCallRecord::ImageCheck { image: full, exists: found });
        found
    }

    fn create_repository(&mut self, repository: &str, retention_sec: u64) -> (r: Result<
        (),
        ContainerRegistryError,
    >) {
        let ok = self.repository_ok;
        self.record(
            EngineCallRecord::RepositoryCreate {
                repository: repository.to_owned(),
                retention_sec,
                ok,
            },
        );
        if ok {
            Ok(())
        } else {
            Err(ContainerRegistryError { safe_message: String::from_str("repository refused") })
        }
    }

    fn build_image(&mut self, build: &Build) -> (r: Result<(), BuildError>) {
        let full = build.image.full_image_name_with_tag();
        let status = self.build_status;
        self.record(EngineCallRecord::ImageBuild { image: full, status });
        match status {
            BuildStatus::Built => Ok(()),
            BuildStatus::Aborted => Err(
                BuildError::Aborted { message: String::from_str("build canceled") },
            ),
            BuildStatus::Failed => Err(
                BuildError::Other { message: String::from_str("build failed") },
            ),
        }
    }

    fn build_progress(&mut self, application_id: &str, level: ProgressLevel, message: &str) {
        self.record(
            EngineCallRecord::BuildProgress {
                application_id: application_id.to_owned(),
                level,
                message: message.to_owned(),
            },
        );
    }

    fn terminal_progress(&mut self, scope: &ProgressScope, action: Action, is_error: bool) {
        self.record(
            EngineCallRecord::TerminalProgress {
                scope: ProgressScope { service_type: scope.service_type, id: scope.id.clone() },
                action,
                is_error,
            },
        );
    }

    fn apply_environment(&mut self, environment: &Environment, action: Action) -> (r: Result<
        (),
        (Vec<u128>, EngineError),
    >) {
        let ok = self.environment_ok;
        if ok {
            self.record(
                EngineCallRecord::EnvironmentApply {
                    environment: environment.long_id(),
                    action,
                    failure: None,
                },
            );
            Ok(())
        } else {
            let processed = copy_ids(&self.processed_service_ids);
            let err = EngineError::new_from_safe(
                Tag::EnvironmentError,
                String::from_str("environment action failed"),
            );
            self.record(
                EngineCallRecord::EnvironmentApply {
                    environment: environment.long_id(),
                    action,
                    failure: Some(
                        (copy_ids(&self.processed_service_ids), duplicate_engine_error(&err)),
                    ),
                },
            );
            Err((processed, err))
        }
    }
}

} // verus!
