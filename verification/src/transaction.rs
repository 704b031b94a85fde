//! The transactional step sequencer.
//!
//! A [`Transaction`] accumulates an ordered list of [`Step`]s and, on
//! commit, executes them strictly in insertion order against the engine's
//! collaborators. It tracks every started step in an executed list, rolls
//! infrastructure steps back through their compensating hooks, polls the
//! abort predicate at cancellable boundaries, and accounts for partial
//! failures of multi-service environment operations.
//!
//! The contracts speak about the engine's ghost call log (see
//! [`crate::engine`]): they pin down exactly which collaborator calls a
//! commit makes, in which order, for every scripted outcome.

use vstd::prelude::*;
use crate::application::{Application, ApplicationView};
use crate::engine::{BuildStatus, EngineCall, EngineOps};
use crate::environment::{Environment, EnvironmentView};
use crate::errors::{
    BuildError,
    build_error_to_engine_error,
    to_engine_error,
    EngineConfigError,
    EngineError,
    Tag,
};
use crate::service::{Action, ProgressLevel, ProgressScope, ProgressScopeView, ServiceInfoView, ServiceType};
use crate::step::{DeploymentOption, Step, StepName};

verus! {

/// The outcome of a commit. Cancellation is reported apart from hard
/// failure because the two have different caller-visible semantics: a
/// cancellation is not retried or alerted on, an error is.
#[derive(Debug)]
pub enum TransactionResult {
    Success,
    Canceled,
    Error(Box<EngineError>),
}

/// The outcome of a rollback: it fails only when a compensating hook
/// itself fails, wrapping the hook's error.
#[derive(Debug)]
pub enum RollbackError {
    CommitError(Box<EngineError>),
    NoFailoverEnvironment,
    Nothing,
}

/// Errors of queueing an environment step. Queueing always succeeds, so no
/// function of this crate ever produces a value of this type; it exists for
/// the callers' `Result` plumbing.
#[derive(Debug, Clone)]
pub enum EnvironmentError {
    Invalid,
}

/// The views of a list of environments.
pub open spec fn envs_view(envs: Seq<Environment>) -> Seq<EnvironmentView> {
    envs.map_values(|e: Environment| e@)
}

/// The cluster-lifecycle call an infrastructure step makes, with its
/// outcome.
pub open spec fn infra_call(step: Step, ok: bool) -> EngineCall {
    match step {
        Step::CreateKubernetes => EngineCall::ClusterCreate(ok),
        Step::PauseKubernetes => EngineCall::ClusterPause(ok),
        _ => EngineCall::ClusterDelete(ok),
    }
}

/// The compensating hook an infrastructure step runs on rollback, with its
/// outcome.
pub open spec fn revert_call(step: Step, ok: bool) -> EngineCall {
    match step {
        Step::CreateKubernetes => EngineCall::ClusterCreateRevert(ok),
        Step::PauseKubernetes => EngineCall::ClusterPauseRevert(ok),
        _ => EngineCall::ClusterDeleteRevert(ok),
    }
}

/// The calls a fully successful rollback of the given executed steps makes:
/// one compensating hook per infrastructure step, in original execution
/// order; environment steps have no compensating action.
pub open spec fn rollback_calls_ok(executed: Seq<Step>) -> Seq<EngineCall>
    decreases executed.len(),
{
    if executed.len() == 0 {
        Seq::empty()
    } else {
        rollback_calls_ok(executed.drop_last()) + if executed.last().is_infrastructure() {
            seq![revert_call(executed.last(), true)]
        } else {
            Seq::<EngineCall>::empty()
        }
    }
}

/// What a rollback of the given executed steps appends to the engine log:
/// either every hook succeeded, or the hooks of a strict prefix succeeded
/// and one infrastructure step's hook failed, where iteration stopped.
pub open spec fn rollback_trace_ok(
    executed: Seq<Step>,
    appended: Seq<EngineCall>,
    ok: bool,
) -> bool {
    if ok {
        appended == rollback_calls_ok(executed)
    } else {
        exists|k: int|
            0 <= k < executed.len() && #[trigger] executed[k].is_infrastructure() && appended
                == rollback_calls_ok(executed.take(k)) + seq![revert_call(executed[k], false)]
    }
}

/// The progress message for a build outcome: success.
pub open spec fn build_success_message(image: Seq<char>) -> Seq<char> {
    "Container image "@ + image + " is built and ready to use"@
}

/// The progress message for a build outcome: explicit cancellation.
pub open spec fn build_canceled_message(image: Seq<char>) -> Seq<char> {
    "Container image "@ + image + " build has been canceled"@
}

/// The progress message for a build outcome: generic failure.
pub open spec fn build_failed_message(image: Seq<char>) -> Seq<char> {
    "Container image "@ + image + " failed to be built"@
}

/// The progress message emitted after a build attempt.
pub open spec fn build_message(image: Seq<char>, status: BuildStatus) -> Seq<char> {
    match status {
        BuildStatus::Built => build_success_message(image),
        BuildStatus::Aborted => build_canceled_message(image),
        BuildStatus::Failed => build_failed_message(image),
    }
}

/// The progress level of a build outcome: only success is informational.
pub open spec fn build_level(status: BuildStatus) -> ProgressLevel {
    if status == BuildStatus::Built {
        ProgressLevel::Info
    } else {
        ProgressLevel::Error
    }
}

/// Builds the progress message for a build attempt.
fn build_message_string(image: &str, status: BuildStatus) -> (r: String)
    ensures
        r@ == build_message(image@, status),
{
    let mut s = String::new();
    s.append("Container image ");
    s.append(image);
    match status {
        BuildStatus::Built => {
            s.append(" is built and ready to use");
            assert(s@ =~= build_success_message(image@));
        },
        BuildStatus::Aborted => {
            s.append(" build has been canceled");
            assert(s@ =~= build_canceled_message(image@));
        },
        BuildStatus::Failed => {
            s.append(" failed to be built");
            assert(s@ =~= build_failed_message(image@));
        },
    }
    s
}

/// The applications of an environment that are to be built: those flagged
/// for creation, in order.
pub open spec fn to_build(apps: Seq<ApplicationView>) -> Seq<ApplicationView>
    decreases apps.len(),
{
    if apps.len() == 0 {
        Seq::empty()
    } else {
        to_build(apps.drop_last()) + if apps.last().action == Action::Create {
            seq![apps.last()]
        } else {
            Seq::<ApplicationView>::empty()
        }
    }
}

/// The calls made while one application is built successfully: the registry
/// check (unless the build is forced), the repository creation, the build
/// itself, and the informational progress notification.
pub open spec fn app_build_calls(
    a: ApplicationView,
    force_build: bool,
    retention_sec: u64,
) -> Seq<EngineCall> {
    let image = a.build.image.full_name();
    let check: Seq<EngineCall> = if force_build {
        Seq::empty()
    } else {
        seq![EngineCall::ImageCheck { image, exists: false }]
    };
    check + seq![
        EngineCall::RepositoryCreate {
            repository: a.build.image.repository_name,
            retention_sec,
            ok: true,
        },
        EngineCall::ImageBuild { image, status: BuildStatus::Built },
        EngineCall::BuildProgress {
            application_id: a.id,
            level: ProgressLevel::Info,
            message: build_success_message(image),
        },
    ]
}

/// `trace` is exactly a successful processing of `apps`, in order: each
/// application is either skipped because its image already exists (and the
/// build is not forced), or built through [`app_build_calls`].
pub open spec fn apps_built_ok(
    apps: Seq<ApplicationView>,
    force_build: bool,
    retention_sec: u64,
    trace: Seq<EngineCall>,
) -> bool
    decreases apps.len(),
{
    if apps.len() == 0 {
        trace.len() == 0
    } else {
        let a = apps.last();
        let pre = apps.drop_last();
        ||| {
            &&& !force_build
            &&& trace.len() >= 1
            &&& trace.last() == (EngineCall::ImageCheck {
                image: a.build.image.full_name(),
                exists: true,
            })
            &&& apps_built_ok(pre, force_build, retention_sec, trace.drop_last())
        }
        ||| {
            let seg = app_build_calls(a, force_build, retention_sec);
            &&& trace.len() >= seg.len()
            &&& trace.skip(trace.len() - seg.len()) == seg
            &&& apps_built_ok(pre, force_build, retention_sec, trace.take(trace.len() - seg.len()))
        }
    }
}

/// `seg` is exactly the calls of the application attempt that ended the
/// build phase: either its repository could not be created, or its build
/// failed or was aborted (after which the error-level progress notification
/// still goes out). `tag` classifies the resulting error.
pub open spec fn app_fail_seg(
    a: ApplicationView,
    force_build: bool,
    retention_sec: u64,
    seg: Seq<EngineCall>,
    tag: Tag,
) -> bool {
    let image = a.build.image.full_name();
    let check: Seq<EngineCall> = if force_build {
        Seq::empty()
    } else {
        seq![EngineCall::ImageCheck { image, exists: false }]
    };
    ||| {
        &&& seg == check + seq![
            EngineCall::RepositoryCreate {
                repository: a.build.image.repository_name,
                retention_sec,
                ok: false,
            },
        ]
        &&& tag == Tag::ContainerRegistryError
    }
    ||| exists|st: BuildStatus|
        {
            &&& st != BuildStatus::Built
            &&& seg == check + seq![
                EngineCall::RepositoryCreate {
                    repository: a.build.image.repository_name,
                    retention_sec,
                    ok: true,
                },
                EngineCall::ImageBuild { image, status: st },
                EngineCall::BuildProgress {
                    application_id: a.id,
                    level: ProgressLevel::Error,
                    message: build_message(image, st),
                },
            ]
            &&& (st == BuildStatus::Aborted ==> tag == Tag::TaskCancellationRequested)
            &&& (st == BuildStatus::Failed ==> tag == Tag::BuildError)
        }
}

/// What the build phase of a `BuildEnvironment` step appends to the engine
/// log, and how its result relates to it. With nothing to build, nothing is
/// called. Otherwise the registry is ensured first; then the applications
/// flagged for creation are processed strictly in order, and the first
/// failing application ends the phase (fail-fast).
pub open spec fn build_trace_ok(
    apps: Seq<ApplicationView>,
    force_build: bool,
    retention_sec: u64,
    trace: Seq<EngineCall>,
    r: Result<(), EngineError>,
) -> bool {
    let tb = to_build(apps);
    if tb.len() == 0 {
        r is Ok && trace.len() == 0
    } else if r is Ok {
        &&& trace.len() >= 1
        &&& trace[0] == EngineCall::RegistryCreate(true)
        &&& apps_built_ok(tb, force_build, retention_sec, trace.skip(1))
    } else {
        let tag = r->Err_0.tag;
        ||| {
            &&& trace == seq![EngineCall::RegistryCreate(false)]
            &&& tag == Tag::ContainerRegistryError
        }
        ||| {
            &&& trace.len() >= 1
            &&& trace[0] == EngineCall::RegistryCreate(true)
            &&& exists|i: int, m: int|
                {
                    &&& 0 <= i < tb.len()
                    &&& 0 <= m <= trace.len() - 1
                    &&& apps_built_ok(
                        #[trigger] tb.take(i),
                        force_build,
                        retention_sec,
                        #[trigger] trace.subrange(1, m + 1),
                    )
                    &&& app_fail_seg(tb[i], force_build, retention_sec, trace.skip(m + 1), tag)
                }
        }
    }
}

/// The terminal failure notifications for one service list of a failed
/// environment operation: one error report per service the executor did not
/// process, in list order. An environment whose action is `Nothing` reports
/// nothing.
pub open spec fn report_services(
    kind: ServiceType,
    services: Seq<ServiceInfoView>,
    action: Action,
    processed: Seq<u128>,
) -> Seq<EngineCall>
    decreases services.len(),
{
    if services.len() == 0 {
        Seq::empty()
    } else {
        report_services(kind, services.drop_last(), action, processed) + if !processed.contains(
            services.last().long_id,
        ) && action != Action::Nothing {
            seq![
                EngineCall::TerminalProgress {
                    scope: ProgressScopeView { service_type: kind, id: services.last().id },
                    action,
                    is_error: true,
                },
            ]
        } else {
            Seq::<EngineCall>::empty()
        }
    }
}

/// The terminal failure notifications for the application list of a failed
/// environment operation; see [`report_services`].
pub open spec fn report_applications(
    applications: Seq<ApplicationView>,
    action: Action,
    processed: Seq<u128>,
) -> Seq<EngineCall>
    decreases applications.len(),
{
    if applications.len() == 0 {
        Seq::empty()
    } else {
        report_applications(applications.drop_last(), action, processed) + if !processed.contains(
            applications.last().long_id,
        ) && action != Action::Nothing {
            seq![
                EngineCall::TerminalProgress {
                    scope: ProgressScopeView {
                        service_type: ServiceType::Application,
                        id: applications.last().id,
                    },
                    action,
                    is_error: true,
                },
            ]
        } else {
            Seq::<EngineCall>::empty()
        }
    }
}

/// All terminal failure notifications of a failed environment operation:
/// every service the executor did not process is reported exactly once, in
/// the fixed order databases, then applications, then routers. This order
/// is a contract the callers' status rendering depends on.
pub open spec fn report_calls(env: EnvironmentView, processed: Seq<u128>) -> Seq<EngineCall> {
    report_services(ServiceType::Database, env.databases, env.action, processed)
        + report_applications(env.applications, env.action, processed) + report_services(
        ServiceType::Router,
        env.routers,
        env.action,
        processed,
    )
}

/// What a failed environment operation appends to the engine log: the
/// executor call reporting the processed set, then a rollback of the
/// executed steps, then the terminal failure reports of [`report_calls`].
pub open spec fn env_fail_trace(
    env: EnvironmentView,
    action: Action,
    executed: Seq<Step>,
    appended: Seq<EngineCall>,
) -> bool {
    &&& appended.len() >= 1
    &&& appended[0] matches EngineCall::EnvironmentApply {
        environment: e2,
        action: a2,
        failure: Some(f),
    } && {
        let rep = report_calls(env, f.0);
        let rb = appended.subrange(1, appended.len() - rep.len());
        &&& e2 == env.long_id
        &&& a2 == action
        &&& appended.len() >= 1 + rep.len()
        &&& appended.skip(appended.len() - rep.len()) == rep
        &&& (rollback_trace_ok(executed, rb, true) || rollback_trace_ok(executed, rb, false))
    }
}

/// What one environment step appends to the engine log after its abort
/// poll, and how its outcome relates to it.
pub open spec fn env_step_trace_ok(
    env: EnvironmentView,
    action: Action,
    executed: Seq<Step>,
    appended: Seq<EngineCall>,
    ok: bool,
) -> bool {
    if ok {
        appended == seq![
            EngineCall::EnvironmentApply { environment: env.long_id, action, failure: None },
        ]
    } else {
        env_fail_trace(env, action, executed, appended)
    }
}

/// The lifecycle action an environment step drives the executor with.
pub open spec fn step_action(step: Step) -> Action {
    match step {
        Step::DeployEnvironment(..) => Action::Create,
        Step::PauseEnvironment(..) => Action::Pause,
        Step::DeleteEnvironment(..) => Action::Delete,
        _ => Action::Nothing,
    }
}

/// The calls one successfully executed step appends to the engine log: the
/// step-change notification, then the step's own calls, with every outcome
/// successful.
pub open spec fn step_success_seg(
    step: Step,
    envs: Seq<EnvironmentView>,
    retention_sec: u64,
    seg: Seq<EngineCall>,
) -> bool {
    match step {
        Step::CreateKubernetes | Step::DeleteKubernetes | Step::PauseKubernetes => seg == seq![
            EngineCall::StepChange(step.spec_step_name()),
            infra_call(step, true),
        ],
        Step::BuildEnvironment(e, option) => {
            &&& seg.len() >= 2
            &&& seg[0] == EngineCall::StepChange(StepName::BuildEnvironment)
            &&& seg[1] == EngineCall::AbortCheck(false)
            &&& e < envs.len()
            &&& build_trace_ok(
                envs[e as int].applications,
                option.force_build,
                retention_sec,
                seg.skip(2),
                Result::<(), EngineError>::Ok(()),
            )
        },
        Step::DeployEnvironment(e) | Step::PauseEnvironment(e) | Step::DeleteEnvironment(e) => {
            &&& e < envs.len()
            &&& seg == seq![
                EngineCall::StepChange(step.spec_step_name()),
                EngineCall::AbortCheck(false),
                EngineCall::EnvironmentApply {
                    environment: envs[e as int].long_id,
                    action: step_action(step),
                    failure: None,
                },
            ]
        },
    }
}

/// `trace` is exactly the calls of a run of `steps` in which every step
/// succeeded, in order.
pub open spec fn steps_success_trace(
    steps: Seq<Step>,
    envs: Seq<EnvironmentView>,
    retention_sec: u64,
    trace: Seq<EngineCall>,
) -> bool
    decreases steps.len(),
{
    if steps.len() == 0 {
        trace.len() == 0
    } else {
        exists|m: int|
            {
                &&& 0 <= m <= trace.len()
                &&& steps_success_trace(
                    steps.drop_last(),
                    envs,
                    retention_sec,
                    #[trigger] trace.take(m),
                )
                &&& step_success_seg(steps.last(), envs, retention_sec, trace.skip(m))
            }
    }
}

/// The calls the failing step appends to the engine log, and how the
/// commit's result relates to them. `executed` is the full executed record,
/// failing step included, which is what a rollback walks.
pub open spec fn step_failure_seg(
    step: Step,
    envs: Seq<EnvironmentView>,
    executed: Seq<Step>,
    retention_sec: u64,
    seg: Seq<EngineCall>,
    r: TransactionResult,
) -> bool {
    &&& seg.len() >= 1
    &&& seg[0] == EngineCall::StepChange(step.spec_step_name())
    &&& match step {
        Step::CreateKubernetes | Step::DeleteKubernetes | Step::PauseKubernetes => {
            &&& seg.len() >= 2
            &&& seg[1] == infra_call(step, false)
            &&& (rollback_trace_ok(executed, seg.skip(2), true) || rollback_trace_ok(
                executed,
                seg.skip(2),
                false,
            ))
            &&& r is Error
        },
        Step::BuildEnvironment(e, option) => {
            ||| {
                &&& seg == seq![
                    EngineCall::StepChange(StepName::BuildEnvironment),
                    EngineCall::AbortCheck(true),
                ]
                &&& r is Canceled
            }
            ||| {
                &&& seg.len() >= 2
                &&& seg[1] == EngineCall::AbortCheck(false)
                &&& e < envs.len()
                &&& exists|err: EngineError|
                    {
                        &&& build_trace_ok(
                            envs[e as int].applications,
                            option.force_build,
                            retention_sec,
                            seg.skip(2),
                            Result::<(), EngineError>::Err(err),
                        )
                        &&& ((#[trigger] err.tag) == Tag::TaskCancellationRequested ==> r is Canceled)
                        &&& (err.tag != Tag::TaskCancellationRequested ==> (r matches
                            TransactionResult::Error(b) && b == err))
                    }
            }
        },
        Step::DeployEnvironment(e) | Step::PauseEnvironment(e) | Step::DeleteEnvironment(e) => {
            ||| {
                &&& seg == seq![
                    EngineCall::StepChange(step.spec_step_name()),
                    EngineCall::AbortCheck(true),
                ]
                &&& r is Canceled
            }
            ||| {
                &&& seg.len() >= 2
                &&& seg[1] == EngineCall::AbortCheck(false)
                &&& e < envs.len()
                &&& env_fail_trace(envs[e as int], step_action(step), executed, seg.skip(2))
                &&& r is Error
                &&& (seg[2] matches EngineCall::EnvironmentApply { failure: Some(f), .. } ==> (
                r matches TransactionResult::Error(b) && b@ == f.1))
            }
        },
    }
}

/// The full contract of a commit's engine interaction. On success, every
/// pending step executed in insertion order. Otherwise the executed record
/// is the prefix of the pending steps up to and including the failing one:
/// the steps before it ran successfully, the last executed step failed (or
/// was canceled at its abort poll), and nothing after it ran.
pub open spec fn commit_trace_ok(
    steps: Seq<Step>,
    envs: Seq<EnvironmentView>,
    retention_sec: u64,
    trace: Seq<EngineCall>,
    r: TransactionResult,
    executed: Seq<Step>,
) -> bool {
    if r is Success {
        &&& executed == steps
        &&& steps_success_trace(steps, envs, retention_sec, trace)
    } else {
        &&& 1 <= executed.len() <= steps.len()
        &&& executed == steps.take(executed.len() as int)
        &&& exists|m: int|
            {
                &&& 0 <= m <= trace.len()
                &&& steps_success_trace(
                    executed.drop_last(),
                    envs,
                    retention_sec,
                    #[trigger] trace.take(m),
                )
                &&& step_failure_seg(
                    executed.last(),
                    envs,
                    executed,
                    retention_sec,
                    trace.skip(m),
                    r,
                )
            }
    }
}

/// Splitting a service list splits its build list at the matching point.
pub proof fn lemma_to_build_split(apps: Seq<ApplicationView>, j: int)
    requires
        0 <= j <= apps.len(),
    ensures
        to_build(apps) == to_build(apps.take(j)) + to_build(apps.skip(j)),
    decreases apps.len(),
{
    if j == apps.len() {
        assert(apps.take(j) =~= apps);
        assert(apps.skip(j).len() == 0);
        assert(to_build(apps) =~= to_build(apps.take(j)) + to_build(apps.skip(j)));
    } else {
        let pre = apps.drop_last();
        lemma_to_build_split(pre, j);
        assert(apps.take(j) =~= pre.take(j));
        assert(apps.skip(j).drop_last() =~= pre.skip(j));
        assert(apps.skip(j).last() == apps.last());
        assert(apps.skip(j).len() > 0);
        if apps.last().action == Action::Create {
            assert(to_build(apps) =~= to_build(pre).push(apps.last()));
            assert(to_build(apps.skip(j)) =~= to_build(pre.skip(j)).push(apps.last()));
        } else {
            assert(to_build(apps) =~= to_build(pre));
            assert(to_build(apps.skip(j)) =~= to_build(pre.skip(j)));
        }
        assert(to_build(apps) =~= to_build(apps.take(j)) + to_build(apps.skip(j)));
    }
}

/// True when the id list holds the given id.
fn ids_contain(ids: &Vec<u128>, id: u128) -> (r: bool)
    ensures
        r == ids@.contains(id),
{
    let mut i: usize = 0;
    while i < ids.len()
        invariant
            0 <= i <= ids.len(),
            forall|j: int| 0 <= j < i ==> ids@[j] != id,
        decreases ids.len() - i,
    {
        if ids[i] == id {
            assert(ids@.contains(id));
            return true;
        }
        i += 1;
    }
    assert(!ids@.contains(id));
    false
}

/// A transaction: pending steps, the record of started steps, the current
/// step kind, the environments the steps refer to, and the engine the
/// steps run against.
pub struct Transaction<E: EngineOps> {
    engine: E,
    environments: Vec<Environment>,
    steps: Vec<Step>,
    executed_steps: Vec<Step>,
    current_step: StepName,
}

impl<E: EngineOps> Transaction<E> {
    /// The engine held by this transaction.
    pub closed spec fn engine_spec(&self) -> E {
        self.engine
    }

    /// The views of the registered environments.
    pub closed spec fn environments_view(&self) -> Seq<EnvironmentView> {
        envs_view(self.environments@)
    }

    /// The pending steps, in insertion order.
    pub closed spec fn steps_view(&self) -> Seq<Step> {
        self.steps@
    }

    /// The started steps, in execution order.
    pub closed spec fn executed_view(&self) -> Seq<Step> {
        self.executed_steps@
    }

    /// The current step kind.
    pub closed spec fn current_step_spec(&self) -> StepName {
        self.current_step
    }

    /// Every queued environment step refers to a registered environment.
    pub open spec fn wf(&self) -> bool {
        forall|j: int|
            0 <= j < self.steps_view().len() ==> match (
            #[trigger] self.steps_view()[j]).environment_index() {
                Some(e) => e < self.environments_view().len(),
                None => true,
            }
    }

    /// Builds a transaction after validating the engine and cluster
    /// configuration, and reports the initial `Waiting` state to the
    /// step-change observer.
    pub fn new(engine: E) -> (r: Result<Transaction<E>, EngineConfigError>)
        ensures
            r matches Ok(tx) ==> {
                &&& tx.steps_view().len() == 0
                &&& tx.executed_view().len() == 0
                &&& tx.environments_view().len() == 0
                &&& tx.current_step_spec() == StepName::Waiting
                &&& tx.engine_spec().log() == engine.log().push(
                    EngineCall::StepChange(StepName::Waiting),
                )
                &&& tx.engine_spec().retention_sec_spec() == engine.retention_sec_spec()
                &&& tx.wf()
            },
    {
        if let Err(e) = engine.is_valid() {
            return Err(e);
        }
        if let Err(e) = engine.kubernetes_is_valid() {
            return Err(EngineConfigError::KubernetesNotValid(e));
        }
        let mut tx = Transaction {
            engine,
            environments: Vec::new(),
            steps: Vec::new(),
            executed_steps: Vec::new(),
            current_step: StepName::Waiting,
        };
        tx.set_current_step(StepName::Waiting);
        Ok(tx)
    }

    /// Borrows the engine, e.g. to inspect a recording engine's call list.
    pub fn engine(&self) -> (r: &E)
        ensures
            r == self.engine_spec(),
    {
        &self.engine
    }

    /// The current step kind: `Waiting` before any step has started,
    /// otherwise the kind of the last started step.
    pub fn current_step(&self) -> (r: StepName)
        ensures
            r == self.current_step_spec(),
    {
        self.current_step
    }

    /// The started steps, in execution order.
    pub fn executed_steps(&self) -> (r: &Vec<Step>)
        ensures
            r@ == self.executed_view(),
    {
        &self.executed_steps
    }

    /// The pending steps, in insertion order.
    pub fn steps(&self) -> (r: &Vec<Step>)
        ensures
            r@ == self.steps_view(),
    {
        &self.steps
    }

    /// Updates the current step kind and notifies the step-change observer.
    pub fn set_current_step(&mut self, step: StepName)
        ensures
            final(self).current_step_spec() == step,
            final(self).engine_spec().log() == old(self).engine_spec().log().push(
                EngineCall::StepChange(step),
            ),
            final(self).engine_spec().retention_sec_spec() == old(
                self,
            ).engine_spec().retention_sec_spec(),
            final(self).steps_view() == old(self).steps_view(),
            final(self).executed_view() == old(self).executed_view(),
            final(self).environments_view() == old(self).environments_view(),
    {
        self.engine.on_step_change(&step);
        self.current_step = step;
    }

    /// Registers an environment and hands back the index the steps refer
    /// to it by.
    pub fn add_environment(&mut self, environment: Environment) -> (r: usize)
        ensures
            r == old(self).environments_view().len(),
            final(self).environments_view() == old(self).environments_view().push(environment@),
            final(self).steps_view() == old(self).steps_view(),
            final(self).executed_view() == old(self).executed_view(),
            final(self).current_step_spec() == old(self).current_step_spec(),
            final(self).engine_spec() == old(self).engine_spec(),
            old(self).wf() ==> final(self).wf(),
    {
        let r = self.environments.len();
        self.environments.push(environment);
        proof {
            assert(final(self).environments_view() =~= old(self).environments_view().push(
                environment@,
            ));
        }
        r
    }

    /// Queues a cluster creation step. No execution side effect.
    pub fn create_kubernetes(&mut self) -> (r: Result<(), EngineError>)
        ensures
            r is Ok,
            final(self).steps_view() == old(self).steps_view().push(Step::CreateKubernetes),
            final(self).executed_view() == old(self).executed_view(),
            final(self).environments_view() == old(self).environments_view(),
            final(self).current_step_spec() == old(self).current_step_spec(),
            final(self).engine_spec() == old(self).engine_spec(),
            old(self).wf() ==> final(self).wf(),
    {
        self.steps.push(Step::CreateKubernetes);
        Ok(())
    }

    /// Queues a cluster pause step. No execution side effect.
    pub fn pause_kubernetes(&mut self) -> (r: Result<(), EngineError>)
        ensures
            r is Ok,
            final(self).steps_view() == old(self).steps_view().push(Step::PauseKubernetes),
            final(self).executed_view() == old(self).executed_view(),
            final(self).environments_view() == old(self).environments_view(),
            final(self).current_step_spec() == old(self).current_step_spec(),
            final(self).engine_spec() == old(self).engine_spec(),
            old(self).wf() ==> final(self).wf(),
    {
        self.steps.push(Step::PauseKubernetes);
        Ok(())
    }

    /// Queues a cluster deletion step. No execution side effect.
    pub fn delete_kubernetes(&mut self) -> (r: Result<(), EngineError>)
        ensures
            r is Ok,
            final(self).steps_view() == old(self).steps_view().push(Step::DeleteKubernetes),
            final(self).executed_view() == old(self).executed_view(),
            final(self).environments_view() == old(self).environments_view(),
            final(self).current_step_spec() == old(self).current_step_spec(),
            final(self).engine_spec() == old(self).engine_spec(),
            old(self).wf() ==> final(self).wf(),
    {
        self.steps.push(Step::DeleteKubernetes);
        Ok(())
    }

    /// Queues a build step for an environment. No execution side effect.
    pub fn build_environment(&mut self, environment: usize, option: DeploymentOption) -> (r:
        Result<(), EnvironmentError>)
        requires
            environment < old(self).environments_view().len(),
        ensures
            r is Ok,
            final(self).steps_view() == old(self).steps_view().push(
                Step::BuildEnvironment(environment, option),
            ),
            final(self).executed_view() == old(self).executed_view(),
            final(self).environments_view() == old(self).environments_view(),
            final(self).current_step_spec() == old(self).current_step_spec(),
            final(self).engine_spec() == old(self).engine_spec(),
            old(self).wf() ==> final(self).wf(),
    {
        self.steps.push(Step::BuildEnvironment(environment, option));
        Ok(())
    }

    /// Queues a build step followed by a deploy step for an environment.
    pub fn deploy_environment_with_options(
        &mut self,
        environment: usize,
        option: DeploymentOption,
    ) -> (r: Result<(), EnvironmentError>)
        requires
            environment < old(self).environments_view().len(),
        ensures
            r is Ok,
            final(self).steps_view() == old(self).steps_view().push(
                Step::BuildEnvironment(environment, option),
            ).push(Step::DeployEnvironment(environment)),
            final(self).executed_view() == old(self).executed_view(),
            final(self).environments_view() == old(self).environments_view(),
            final(self).current_step_spec() == old(self).current_step_spec(),
            final(self).engine_spec() == old(self).engine_spec(),
            old(self).wf() ==> final(self).wf(),
    {
        let r = self.build_environment(environment, option);
        match r {
            Ok(_) => {},
            Err(e) => {
                return Err(e);
            },
        }
        self.steps.push(Step::DeployEnvironment(environment));
        Ok(())
    }

    /// Queues a build step and a deploy step with the default options:
    /// nothing is forced.
    pub fn deploy_environment(&mut self, environment: usize) -> (r: Result<(), EnvironmentError>)
        requires
            environment < old(self).environments_view().len(),
        ensures
            r is Ok,
            final(self).steps_view() == old(self).steps_view().push(
                Step::BuildEnvironment(
                    environment,
                    DeploymentOption { force_build: false, force_push: false },
                ),
            ).push(Step::DeployEnvironment(environment)),
            final(self).executed_view() == old(self).executed_view(),
            final(self).environments_view() == old(self).environments_view(),
            final(self).current_step_spec() == old(self).current_step_spec(),
            final(self).engine_spec() == old(self).engine_spec(),
            old(self).wf() ==> final(self).wf(),
    {
        self.deploy_environment_with_options(
            environment,
            DeploymentOption { force_build: false, force_push: false },
        )
    }

    /// Queues a pause step for an environment. No execution side effect.
    pub fn pause_environment(&mut self, environment: usize) -> (r: Result<(), EnvironmentError>)
        requires
            environment < old(self).environments_view().len(),
        ensures
            r is Ok,
            final(self).steps_view() == old(self).steps_view().push(
                Step::PauseEnvironment(environment),
            ),
            final(self).executed_view() == old(self).executed_view(),
            final(self).environments_view() == old(self).environments_view(),
            final(self).current_step_spec() == old(self).current_step_spec(),
            final(self).engine_spec() == old(self).engine_spec(),
            old(self).wf() ==> final(self).wf(),
    {
        self.steps.push(Step::PauseEnvironment(environment));
        Ok(())
    }

    /// Queues a delete step for an environment. No execution side effect.
    pub fn delete_environment(&mut self, environment: usize) -> (r: Result<(), EnvironmentError>)
        requires
            environment < old(self).environments_view().len(),
        ensures
            r is Ok,
            final(self).steps_view() == old(self).steps_view().push(
                Step::DeleteEnvironment(environment),
            ),
            final(self).executed_view() == old(self).executed_view(),
            final(self).environments_view() == old(self).environments_view(),
            final(self).current_step_spec() == old(self).current_step_spec(),
            final(self).engine_spec() == old(self).engine_spec(),
            old(self).wf() ==> final(self).wf(),
    {
        self.steps.push(Step::DeleteEnvironment(environment));
        Ok(())
    }

    /// Walks the executed steps in original order and runs the compensating
    /// hook of each infrastructure step; environment steps have no
    /// compensating action. Stops at the first hook failure, wrapping the
    /// hook's error. A rollback of an empty record makes no call at all.
    pub fn rollback(&mut self) -> (r: Result<(), RollbackError>)
        ensures
            final(self).steps_view() == old(self).steps_view(),
            final(self).executed_view() == old(self).executed_view(),
            final(self).environments_view() == old(self).environments_view(),
            final(self).current_step_spec() == old(self).current_step_spec(),
            final(self).engine_spec().retention_sec_spec() == old(
                self,
            ).engine_spec().retention_sec_spec(),
            final(self).engine_spec().log().len() >= old(self).engine_spec().log().len(),
            final(self).engine_spec().log().take(old(self).engine_spec().log().len() as int)
                == old(self).engine_spec().log(),
            rollback_trace_ok(
                old(self).executed_view(),
                final(self).engine_spec().log().skip(old(self).engine_spec().log().len() as int),
                r is Ok,
            ),
            r matches Err(e) ==> e is CommitError,
            old(self).executed_view().len() == 0 ==> r is Ok && final(self).engine_spec().log()
                == old(self).engine_spec().log(),
    {
        let ghost base_log = self.engine.log();
        let ghost executed = self.executed_steps@;
        let mut i: usize = 0;
        while i < self.executed_steps.len()
            invariant
                0 <= i <= self.executed_steps.len(),
                executed == old(self).executed_steps@,
                base_log == old(self).engine.log(),
                self.executed_steps@ == executed,
                self.steps@ == old(self).steps@,
                self.environments@ == old(self).environments@,
                self.current_step == old(self).current_step,
                self.engine.retention_sec_spec() == old(self).engine.retention_sec_spec(),
                self.engine.log().len() >= base_log.len(),
                self.engine.log().take(base_log.len() as int) == base_log,
                self.engine.log().skip(base_log.len() as int) == rollback_calls_ok(
                    executed.take(i as int),
                ),
            decreases self.executed_steps.len() - i,
        {
            let step = self.executed_steps[i];
            let hook_result: Option<Result<(), EngineError>> = match step {
                Step::CreateKubernetes => Some(self.engine.on_create_error()),
                Step::DeleteKubernetes => Some(self.engine.on_delete_error()),
                Step::PauseKubernetes => Some(self.engine.on_pause_error()),
                Step::BuildEnvironment(..) => None,
                Step::DeployEnvironment(..) => None,
                Step::PauseEnvironment(..) => None,
                Step::DeleteEnvironment(..) => None,
            };
            proof {
                assert(executed.take(i + 1).drop_last() =~= executed.take(i as int));
                assert(executed.take(i + 1).last() == executed[i as int]);
            }
            match hook_result {
                None => {
                    proof {
                        assert(self.engine.log().skip(base_log.len() as int)
                            == rollback_calls_ok(executed.take(i + 1)));
                    }
                },
                Some(Ok(())) => {
                    proof {
                        assert(self.engine.log().take(base_log.len() as int) =~= base_log);
                        assert(self.engine.log().skip(base_log.len() as int)
                            =~= rollback_calls_ok(executed.take(i as int)).push(
                            revert_call(executed[i as int], true),
                        ));
                        assert(rollback_calls_ok(executed.take(i + 1)) =~= rollback_calls_ok(
                            executed.take(i as int),
                        ).push(revert_call(executed[i as int], true)));
                    }
                },
                Some(Err(err)) => {
                    proof {
                        assert(self.engine.log().take(base_log.len() as int) =~= base_log);
                        assert(self.engine.log().skip(base_log.len() as int)
                            =~= rollback_calls_ok(executed.take(i as int)) + seq![
                            revert_call(executed[i as int], false),
                        ]);
                        assert(0 <= i < executed.len() && executed[i as int].is_infrastructure()
                            && self.engine.log().skip(base_log.len() as int)
                            == rollback_calls_ok(executed.take(i as int)) + seq![
                            revert_call(executed[i as int], false),
                        ]);
                    }
                    return Err(RollbackError::CommitError(Box::new(err)));
                },
            }
            i += 1;
        }
        proof {
            assert(executed.take(executed.len() as int) =~= executed);
        }
        Ok(())
    }

    /// Builds and pushes the images of the applications flagged for
    /// creation, strictly in order, failing fast on the first failure. An
    /// application is skipped when the registry already holds its image and
    /// the build is not forced. The registry, then the application's
    /// repository, are ensured before any build is attempted.
    fn build_and_push_applications(
        engine: &mut E,
        applications: &Vec<Application>,
        option: &DeploymentOption,
    ) -> (r: Result<(), EngineError>)
        ensures
            final(engine).retention_sec_spec() == old(engine).retention_sec_spec(),
            final(engine).log().len() >= old(engine).log().len(),
            final(engine).log().take(old(engine).log().len() as int) == old(engine).log(),
            build_trace_ok(
                applications@.map_values(|a: Application| a@),
                option.force_build,
                old(engine).retention_sec_spec(),
                final(engine).log().skip(old(engine).log().len() as int),
                r,
            ),
    {
        let ghost apps = applications@.map_values(|a: Application| a@);
        let ghost base_log = engine.log();
        let ghost retention_g = engine.retention_sec_spec();

        // If nothing is flagged for creation, there is nothing to do.
        let mut any_create = false;
        let mut i: usize = 0;
        while i < applications.len()
            invariant
                0 <= i <= applications.len(),
                apps == applications@.map_values(|a: Application| a@),
                any_create == (to_build(apps.take(i as int)).len() > 0),
                base_log == old(engine).log(),
                retention_g == old(engine).retention_sec_spec(),
            decreases applications.len() - i,
        {
            proof {
                assert(apps.take(i + 1).drop_last() =~= apps.take(i as int));
                assert(apps.take(i + 1).last() == apps[i as int]);
            }
            let is_create = match applications[i].action() {
                Action::Create => true,
                _ => false,
            };
            proof {
                if is_create {
                    assert(to_build(apps.take(i + 1)) =~= to_build(apps.take(i as int)).push(
                        apps[i as int],
                    ));
                } else {
                    assert(to_build(apps.take(i + 1)) =~= to_build(apps.take(i as int)));
                }
            }
            if is_create {
                any_create = true;
            }
            i += 1;
        }
        proof {
            assert(apps.take(apps.len() as int) =~= apps);
        }
        if !any_create {
            proof {
                assert(engine.log().skip(base_log.len() as int) =~= Seq::<EngineCall>::empty());
            }
            return Ok(());
        }
        // The registry must exist before anything is pushed to it.
        match engine.create_registry() {
            Ok(_) => {},
            Err(e) => {
                let err = to_engine_error(e);
                proof {
                    assert(engine.log().take(base_log.len() as int) =~= base_log);
                    assert(engine.log().skip(base_log.len() as int) =~= seq![
                        EngineCall::RegistryCreate(false),
                    ]);
                }
                return Err(err);
            },
        }
        let retention = engine.registry_image_retention_sec();
        let mut i: usize = 0;
        while i < applications.len()
            invariant
                0 <= i <= applications.len(),
                apps == applications@.map_values(|a: Application| a@),
                to_build(apps).len() > 0,
                base_log == old(engine).log(),
                retention_g == old(engine).retention_sec_spec(),
                retention == retention_g,
                engine.retention_sec_spec() == retention_g,
                engine.log().len() > base_log.len(),
                engine.log().take(base_log.len() as int) == base_log,
                engine.log()[base_log.len() as int] == EngineCall::RegistryCreate(true),
                apps_built_ok(
                    to_build(apps.take(i as int)),
                    option.force_build,
                    retention_g,
                    engine.log().skip(base_log.len() as int + 1),
                ),
            decreases applications.len() - i,
        {
            let ghost tb_i = to_build(apps.take(i as int));
            let ghost trace_i = engine.log().skip(base_log.len() as int + 1);
            proof {
                assert(apps.take(i + 1).drop_last() =~= apps.take(i as int));
                assert(apps.take(i + 1).last() == apps[i as int]);
            }
            let app = &applications[i];
            let is_create = match app.action() {
                Action::Create => true,
                _ => false,
            };
            if !is_create {
                proof {
                    assert(to_build(apps.take(i + 1)) =~= tb_i);
                }
                i += 1;
                continue ;
            }
            let ghost a = apps[i as int];
            proof {
                assert(to_build(apps.take(i + 1)) =~= tb_i.push(a));
                assert(to_build(apps.take(i + 1)).drop_last() =~= tb_i);
            }
            // Skip the build if the registry already holds the image.
            if !option.force_build {
                if engine.does_image_exist(&app.build().image) {
                    proof {
                        let t2 = engine.log().skip(base_log.len() as int + 1);
                        assert(engine.log().take(base_log.len() as int) =~= base_log);
                        assert(t2 =~= trace_i.push(
                            EngineCall::ImageCheck {
                                image: a.build.image.full_name(),
                                exists: true,
                            },
                        ));
                        assert(t2.drop_last() =~= trace_i);
                        assert(apps_built_ok(
                            to_build(apps.take(i + 1)),
                            option.force_build,
                            retention_g,
                            t2,
                        ));
                    }
                    i += 1;
                    continue ;
                }
            }
            let ghost check: Seq<EngineCall> = if option.force_build {
                Seq::empty()
            } else {
                seq![EngineCall::ImageCheck { image: a.build.image.full_name(), exists: false }]
            };
            // The repository must exist before the image is pushed to it.
            let repo_result = engine.create_repository(
                app.build().image.repository_name.as_str(),
                retention,
            );
            match repo_result {
                Ok(_) => {},
                Err(e) => {
                    let err = to_engine_error(e);
                    proof {
                        let t = engine.log().skip(base_log.len() as int);
                        assert(engine.log().take(base_log.len() as int) =~= base_log);
                        lemma_to_build_split(apps, i + 1);
                        let tb = to_build(apps);
                        let iw = tb_i.len() as int;
                        assert(tb[iw] == a);
                        assert(tb.take(iw) =~= tb_i);
                        let m = trace_i.len() as int;
                        assert(t.subrange(1, m + 1) =~= trace_i);
                        assert(t.skip(m + 1) =~= check + seq![
                            EngineCall::RepositoryCreate {
                                repository: a.build.image.repository_name,
                                retention_sec: retention_g,
                                ok: false,
                            },
                        ]);
                        assert(app_fail_seg(
                            tb[iw],
                            option.force_build,
                            retention_g,
                            t.skip(m + 1),
                            err.tag,
                        ));
                        assert(t[0] == EngineCall::RegistryCreate(true));
                    }
                    return Err(err);
                },
            }
            // Everything is set up: try to build, then report the outcome.
            let build_result = engine.build_image(app.build());
            let status = match &build_result {
                Ok(_) => BuildStatus::Built,
                Err(BuildError::Aborted { .. }) => BuildStatus::Aborted,
                Err(BuildError::Other { .. }) => BuildStatus::Failed,
            };
            let full = app.build().image.full_image_name_with_tag();
            let msg = build_message_string(full.as_str(), status);
            let level = match status {
                BuildStatus::Built => ProgressLevel::Info,
                _ => ProgressLevel::Error,
            };
            engine.build_progress(app.id(), level, msg.as_str());
            match build_result {
                Ok(_) => {
                    proof {
                        let t2 = engine.log().skip(base_log.len() as int + 1);
                        let seg = app_build_calls(a, option.force_build, retention_g);
                        assert(engine.log().take(base_log.len() as int) =~= base_log);
                        assert(t2 =~= trace_i + seg);
                        assert(t2.skip(t2.len() - seg.len()) =~= seg);
                        assert(t2.take(t2.len() - seg.len()) =~= trace_i);
                        assert(apps_built_ok(
                            to_build(apps.take(i + 1)),
                            option.force_build,
                            retention_g,
                            t2,
                        ));
                    }
                    i += 1;
                },
                Err(e) => {
                    let err = build_error_to_engine_error(e);
                    proof {
                        let t = engine.log().skip(base_log.len() as int);
                        assert(engine.log().take(base_log.len() as int) =~= base_log);
                        lemma_to_build_split(apps, i + 1);
                        let tb = to_build(apps);
                        let iw = tb_i.len() as int;
                        assert(tb[iw] == a);
                        assert(tb.take(iw) =~= tb_i);
                        let m = trace_i.len() as int;
                        assert(t.subrange(1, m + 1) =~= trace_i);
                        assert(t.skip(m + 1) =~= check + seq![
                            EngineCall::RepositoryCreate {
                                repository: a.build.image.repository_name,
                                retention_sec: retention_g,
                                ok: true,
                            },
                            EngineCall::ImageBuild {
                                image: a.build.image.full_name(),
                                status,
                            },
                            EngineCall::BuildProgress {
                                application_id: a.id,
                                level: ProgressLevel::Error,
                                message: build_message(a.build.image.full_name(), status),
                            },
                        ]);
                        assert(app_fail_seg(
                            tb[iw],
                            option.force_build,
                            retention_g,
                            t.skip(m + 1),
                            err.tag,
                        ));
                        assert(t[0] == EngineCall::RegistryCreate(true));
                    }
                    return Err(err);
                },
            }
        }
        proof {
            assert(apps.take(apps.len() as int) =~= apps);
            let t = engine.log().skip(base_log.len() as int);
            assert(t[0] == EngineCall::RegistryCreate(true));
            assert(t.skip(1) =~= engine.log().skip(base_log.len() as int + 1));
        }
        Ok(())
    }

    /// Emits a terminal failure notification for every service of the list
    /// the executor did not process, in list order. An environment whose
    /// action is `Nothing` has nothing to report.
    fn report_failed_services(
        engine: &mut E,
        kind: ServiceType,
        services: &Vec<crate::service::ServiceInfo>,
        env_action: Action,
        processed: &Vec<u128>,
    )
        ensures
            final(engine).retention_sec_spec() == old(engine).retention_sec_spec(),
            final(engine).log().len() >= old(engine).log().len(),
            final(engine).log().take(old(engine).log().len() as int) == old(engine).log(),
            final(engine).log().skip(old(engine).log().len() as int) == report_services(
                kind,
                services@.map_values(|s: crate::service::ServiceInfo| s@),
                env_action,
                processed@,
            ),
    {
        let ghost svcs = services@.map_values(|s: crate::service::ServiceInfo| s@);
        let ghost base_log = engine.log();
        let mut k: usize = 0;
        while k < services.len()
            invariant
                0 <= k <= services.len(),
                svcs == services@.map_values(|s: crate::service::ServiceInfo| s@),
                base_log == old(engine).log(),
                engine.retention_sec_spec() == old(engine).retention_sec_spec(),
                engine.log().len() >= base_log.len(),
                engine.log().take(base_log.len() as int) == base_log,
                engine.log().skip(base_log.len() as int) == report_services(
                    kind,
                    svcs.take(k as int),
                    env_action,
                    processed@,
                ),
            decreases services.len() - k,
        {
            proof {
                assert(svcs.take(k + 1).drop_last() =~= svcs.take(k as int));
                assert(svcs.take(k + 1).last() == svcs[k as int]);
            }
            let svc = &services[k];
            let already_processed = ids_contain(processed, svc.long_id);
            if !already_processed && env_action != Action::Nothing {
                let scope = ProgressScope { service_type: kind, id: svc.id.clone() };
                engine.terminal_progress(&scope, env_action, true);
                proof {
                    assert(engine.log().take(base_log.len() as int) =~= base_log);
                    assert(engine.log().skip(base_log.len() as int) =~= report_services(
                        kind,
                        svcs.take(k as int),
                        env_action,
                        processed@,
                    ).push(
                        EngineCall::TerminalProgress {
                            scope: ProgressScopeView {
                                service_type: kind,
                                id: svcs[k as int].id,
                            },
                            action: env_action,
                            is_error: true,
                        },
                    ));
                    assert(engine.log().skip(base_log.len() as int) =~= report_services(
                        kind,
                        svcs.take(k + 1),
                        env_action,
                        processed@,
                    ));
                }
            } else {
                proof {
                    assert(report_services(kind, svcs.take(k + 1), env_action, processed@)
                        =~= report_services(kind, svcs.take(k as int), env_action, processed@));
                }
            }
            k += 1;
        }
        proof {
            assert(svcs.take(svcs.len() as int) =~= svcs);
        }
    }

    /// Emits a terminal failure notification for every application the
    /// executor did not process, in list order; see
    /// [`Self::report_failed_services`].
    fn report_failed_applications(
        engine: &mut E,
        applications: &Vec<Application>,
        env_action: Action,
        processed: &Vec<u128>,
    )
        ensures
            final(engine).retention_sec_spec() == old(engine).retention_sec_spec(),
            final(engine).log().len() >= old(engine).log().len(),
            final(engine).log().take(old(engine).log().len() as int) == old(engine).log(),
            final(engine).log().skip(old(engine).log().len() as int) == report_applications(
                applications@.map_values(|a: Application| a@),
                env_action,
                processed@,
            ),
    {
        let ghost apps = applications@.map_values(|a: Application| a@);
        let ghost base_log = engine.log();
        let mut k: usize = 0;
        while k < applications.len()
            invariant
                0 <= k <= applications.len(),
                apps == applications@.map_values(|a: Application| a@),
                base_log == old(engine).log(),
                engine.retention_sec_spec() == old(engine).retention_sec_spec(),
                engine.log().len() >= base_log.len(),
                engine.log().take(base_log.len() as int) == base_log,
                engine.log().skip(base_log.len() as int) == report_applications(
                    apps.take(k as int),
                    env_action,
                    processed@,
                ),
            decreases applications.len() - k,
        {
            proof {
                assert(apps.take(k + 1).drop_last() =~= apps.take(k as int));
                assert(apps.take(k + 1).last() == apps[k as int]);
            }
            let app = &applications[k];
            let already_processed = ids_contain(processed, app.long_id());
            if !already_processed && env_action != Action::Nothing {
                let scope = ProgressScope {
                    service_type: ServiceType::Application,
                    id: app.id().to_owned(),
                };
                engine.terminal_progress(&scope, env_action, true);
                proof {
                    assert(engine.log().take(base_log.len() as int) =~= base_log);
                    assert(engine.log().skip(base_log.len() as int) =~= report_applications(
                        apps.take(k as int),
                        env_action,
                        processed@,
                    ).push(
                        EngineCall::TerminalProgress {
                            scope: ProgressScopeView {
                                service_type: ServiceType::Application,
                                id: apps[k as int].id,
                            },
                            action: env_action,
                            is_error: true,
                        },
                    ));
                    assert(engine.log().skip(base_log.len() as int) =~= report_applications(
                        apps.take(k + 1),
                        env_action,
                        processed@,
                    ));
                }
            } else {
                proof {
                    assert(report_applications(apps.take(k + 1), env_action, processed@)
                        =~= report_applications(apps.take(k as int), env_action, processed@));
                }
            }
            k += 1;
        }
        proof {
            assert(apps.take(apps.len() as int) =~= apps);
        }
    }

    /// Turns an infrastructure operation's outcome into a transaction
    /// result; on failure the executed steps are rolled back first. The
    /// original error stays authoritative: a rollback failure is never
    /// surfaced over it.
    fn commit_infrastructure(&mut self, result: Result<(), EngineError>) -> (r: TransactionResult)
        ensures
            final(self).steps_view() == old(self).steps_view(),
            final(self).executed_view() == old(self).executed_view(),
            final(self).environments_view() == old(self).environments_view(),
            final(self).current_step_spec() == old(self).current_step_spec(),
            final(self).engine_spec().retention_sec_spec() == old(
                self,
            ).engine_spec().retention_sec_spec(),
            final(self).engine_spec().log().len() >= old(self).engine_spec().log().len(),
            final(self).engine_spec().log().take(old(self).engine_spec().log().len() as int)
                == old(self).engine_spec().log(),
            result is Ok ==> r is Success && final(self).engine_spec().log() == old(
                self,
            ).engine_spec().log(),
            result matches Err(err) ==> {
                &&& (rollback_trace_ok(
                    old(self).executed_view(),
                    final(self).engine_spec().log().skip(
                        old(self).engine_spec().log().len() as int,
                    ),
                    true,
                ) || rollback_trace_ok(
                    old(self).executed_view(),
                    final(self).engine_spec().log().skip(
                        old(self).engine_spec().log().len() as int,
                    ),
                    false,
                ))
                &&& r matches TransactionResult::Error(b) && b == err
            },
    {
        match result {
            Ok(_) => TransactionResult::Success,
            Err(err) => {
                let _rollback_result = self.rollback();
                TransactionResult::Error(Box::new(err))
            },
        }
    }

    /// Runs one environment step's executor call. On failure it rolls the
    /// executed steps back and then reports a terminal failure for every
    /// service the executor did not process — databases first, then
    /// applications, then routers, an order the callers depend on.
    #[verifier::rlimit(100)]
    fn commit_environment(&mut self, environment: usize, action: Action) -> (r: TransactionResult)
        requires
            environment < old(self).environments_view().len(),
        ensures
            final(self).steps_view() == old(self).steps_view(),
            final(self).executed_view() == old(self).executed_view(),
            final(self).environments_view() == old(self).environments_view(),
            final(self).current_step_spec() == old(self).current_step_spec(),
            final(self).engine_spec().retention_sec_spec() == old(
                self,
            ).engine_spec().retention_sec_spec(),
            final(self).engine_spec().log().len() >= old(self).engine_spec().log().len(),
            final(self).engine_spec().log().take(old(self).engine_spec().log().len() as int)
                == old(self).engine_spec().log(),
            env_step_trace_ok(
                old(self).environments_view()[environment as int],
                action,
                old(self).executed_view(),
                final(self).engine_spec().log().skip(old(self).engine_spec().log().len() as int),
                r is Success,
            ),
            r is Success || r is Error,
            r matches TransactionResult::Error(b) ==> (final(self).engine_spec().log().skip(
                old(self).engine_spec().log().len() as int,
            )[0] matches EngineCall::EnvironmentApply { failure: Some(f), .. } && b@ == f.1),
    {
        let ghost base_log = self.engine.log();
        let ghost env_v = envs_view(self.environments@)[environment as int];
        let result = self.engine.apply_environment(&self.environments[environment], action);
        match result {
            Ok(_) => {
                proof {
                    assert(self.engine.log().take(base_log.len() as int) =~= base_log);
                    assert(self.engine.log().skip(base_log.len() as int) =~= seq![
                        EngineCall::EnvironmentApply {
                            environment: env_v.long_id,
                            action,
                            failure: None,
                        },
                    ]);
                }
                TransactionResult::Success
            },
            Err((processed, err)) => {
                let ghost apply_entry = EngineCall::EnvironmentApply {
                    environment: env_v.long_id,
                    action,
                    failure: Some((processed@, err@)),
                };
                let ghost err_view = err@;
                let ghost log1 = self.engine.log();
                let rollback_result = self.rollback();
                let ghost rb = self.engine.log().skip(log1.len() as int);
                let ghost rb_ok = rollback_result is Ok;
                let env_action = self.environments[environment].action;
                let ghost log2 = self.engine.log();
                Self::report_failed_services(
                    &mut self.engine,
                    ServiceType::Database,
                    &self.environments[environment].databases,
                    env_action,
                    &processed,
                );
                let ghost log3 = self.engine.log();
                let ghost rep_db = log3.skip(log2.len() as int);
                Self::report_failed_applications(
                    &mut self.engine,
                    &self.environments[environment].applications,
                    env_action,
                    &processed,
                );
                let ghost log4 = self.engine.log();
                let ghost rep_app = log4.skip(log3.len() as int);
                Self::report_failed_services(
                    &mut self.engine,
                    ServiceType::Router,
                    &self.environments[environment].routers,
                    env_action,
                    &processed,
                );
                proof {
                    let t = self.engine.log().skip(base_log.len() as int);
                    let rep = report_calls(env_v, processed@);
                    let rep_router = self.engine.log().skip(log4.len() as int);
                    assert(log1 =~= base_log.push(apply_entry));
                    assert(log2 =~= log1 + rb);
                    assert(log3 =~= log2 + rep_db);
                    assert(log4 =~= log3 + rep_app);
                    assert(self.engine.log() =~= log4 + rep_router);
                    assert(env_action == env_v.action);
                    assert(rep_db == report_services(
                        ServiceType::Database,
                        env_v.databases,
                        env_v.action,
                        processed@,
                    ));
                    assert(rep_app == report_applications(
                        env_v.applications,
                        env_v.action,
                        processed@,
                    ));
                    assert(rep_router == report_services(
                        ServiceType::Router,
                        env_v.routers,
                        env_v.action,
                        processed@,
                    ));
                    assert(self.engine.log().take(base_log.len() as int) =~= base_log);
                    assert(t =~= seq![apply_entry] + rb + rep_db + rep_app + rep_router);
                    assert(rep =~= rep_db + rep_app + rep_router);
                    assert(t.skip(t.len() - rep.len()) =~= rep);
                    assert(t.subrange(1, t.len() - rep.len()) =~= rb);
                    assert(t[0] == apply_entry);
                    assert(rollback_trace_ok(old(self).executed_view(), rb, rb_ok));
                    assert(env_fail_trace(env_v, action, old(self).executed_view(), t));
                }
                TransactionResult::Error(Box::new(err))
            },
        }
    }

    /// Executes the pending steps strictly in insertion order, recording
    /// each into the executed list and announcing it to the step-change
    /// observer before it runs. The first step that does not succeed ends
    /// the commit; later pending steps never execute. Cancellation is
    /// polled before every environment step; a failed infrastructure step
    /// rolls back, and a failed environment operation rolls back and then
    /// reports its unprocessed services.
    ///
    /// A transaction commits once: the executed record must still be
    /// empty. The transaction stays borrowable afterwards so the executed
    /// record and the engine's call list remain inspectable.
    #[verifier::rlimit(100)]
    pub fn commit(&mut self) -> (r: TransactionResult)
        requires
            old(self).wf(),
            old(self).executed_view().len() == 0,
        ensures
            final(self).steps_view() == old(self).steps_view(),
            final(self).environments_view() == old(self).environments_view(),
            final(self).engine_spec().retention_sec_spec() == old(
                self,
            ).engine_spec().retention_sec_spec(),
            final(self).engine_spec().log().len() >= old(self).engine_spec().log().len(),
            final(self).engine_spec().log().take(old(self).engine_spec().log().len() as int)
                == old(self).engine_spec().log(),
            final(self).executed_view() == old(self).steps_view().take(
                final(self).executed_view().len() as int,
            ),
            final(self).executed_view().len() <= old(self).steps_view().len(),
            r is Success ==> final(self).executed_view() == old(self).steps_view(),
            final(self).current_step_spec() == if final(self).executed_view().len() == 0 {
                old(self).current_step_spec()
            } else {
                final(self).executed_view().last().spec_step_name()
            },
            commit_trace_ok(
                old(self).steps_view(),
                old(self).environments_view(),
                old(self).engine_spec().retention_sec_spec(),
                final(self).engine_spec().log().skip(old(self).engine_spec().log().len() as int),
                r,
                final(self).executed_view(),
            ),
    {
        let ghost steps_g = self.steps@;
        let ghost envs_g = envs_view(self.environments@);
        let ghost base_log = self.engine.log();
        let ghost retention_g = self.engine.retention_sec_spec();
        proof {
            assert(self.executed_steps@ =~= steps_g.take(0));
        }
        let n = self.steps.len();
        let mut i: usize = 0;
        while i < n
            invariant
                0 <= i <= n,
                n == self.steps@.len(),
                old(self).wf(),
                steps_g == old(self).steps_view(),
                envs_g == old(self).environments_view(),
                base_log == old(self).engine_spec().log(),
                retention_g == old(self).engine_spec().retention_sec_spec(),
                self.steps@ == steps_g,
                envs_view(self.environments@) == envs_g,
                self.engine.retention_sec_spec() == retention_g,
                self.executed_steps@ == steps_g.take(i as int),
                self.current_step_spec() == if i == 0 {
                    old(self).current_step_spec()
                } else {
                    steps_g[i as int - 1].spec_step_name()
                },
                self.engine.log().len() >= base_log.len(),
                self.engine.log().take(base_log.len() as int) == base_log,
                steps_success_trace(
                    steps_g.take(i as int),
                    envs_g,
                    retention_g,
                    self.engine.log().skip(base_log.len() as int),
                ),
            decreases n - i,
        {
            let step = self.steps[i];
            let ghost log_start = self.engine.log();
            let ghost trace_i = self.engine.log().skip(base_log.len() as int);
            proof {
                assert(steps_g.take(i + 1).drop_last() =~= steps_g.take(i as int));
                assert(steps_g.take(i + 1).last() == steps_g[i as int]);
            }
            self.executed_steps.push(step);
            self.set_current_step(step.step_name());
            proof {
                assert(self.executed_steps@ =~= steps_g.take(i + 1));
                assert(self.engine.log().take(base_log.len() as int) =~= base_log);
            }
            match step {
                Step::CreateKubernetes | Step::DeleteKubernetes | Step::PauseKubernetes => {
                    let result = match step {
                        Step::CreateKubernetes => self.engine.on_create(),
                        Step::DeleteKubernetes => self.engine.on_delete(),
                        _ => self.engine.on_pause(),
                    };
                    let ghost log_after_infra = self.engine.log();
                    let tr = self.commit_infrastructure(result);
                    match tr {
                        TransactionResult::Success => {
                            proof {
                                let t_new = self.engine.log().skip(base_log.len() as int);
                                assert(self.engine.log() =~= log_start + seq![
                                    EngineCall::StepChange(step.spec_step_name()),
                                    infra_call(step, true),
                                ]);
                                assert(self.engine.log().take(base_log.len() as int) =~= base_log);
                                assert(t_new.take(trace_i.len() as int) =~= trace_i);
                                assert(t_new.skip(trace_i.len() as int) =~= seq![
                                    EngineCall::StepChange(step.spec_step_name()),
                                    infra_call(step, true),
                                ]);
                                assert(steps_success_trace(
                                    steps_g.take(i + 1),
                                    envs_g,
                                    retention_g,
                                    t_new,
                                ));
                            }
                        },
                        r2 => {
                            proof {
                                let t_new = self.engine.log().skip(base_log.len() as int);
                                let seg = t_new.skip(trace_i.len() as int);
                                let rb_seg = self.engine.log().skip(log_after_infra.len() as int);
                                assert(log_after_infra =~= log_start + seq![
                                    EngineCall::StepChange(step.spec_step_name()),
                                    infra_call(step, false),
                                ]);
                                assert(self.engine.log() =~= log_after_infra + rb_seg);
                                assert(self.engine.log() =~= log_start + seq![
                                    EngineCall::StepChange(step.spec_step_name()),
                                    infra_call(step, false),
                                ] + rb_seg);
                                assert(self.engine.log().take(base_log.len() as int) =~= base_log);
                                assert(t_new.take(trace_i.len() as int) =~= trace_i);
                                assert(seg[0] == EngineCall::StepChange(step.spec_step_name()));
                                assert(seg[1] == infra_call(step, false));
                                assert(seg.skip(2) =~= rb_seg);
                                assert(step_failure_seg(
                                    step,
                                    envs_g,
                                    steps_g.take(i + 1),
                                    retention_g,
                                    seg,
                                    r2,
                                ));
                                assert(commit_trace_ok(
                                    steps_g,
                                    envs_g,
                                    retention_g,
                                    t_new,
                                    r2,
                                    steps_g.take(i + 1),
                                ));
                            }
                            return r2;
                        },
                    }
                },
                Step::BuildEnvironment(e, option) => {
                    proof {
                        assert(steps_g[i as int].environment_index() == Some(e));
                        assert(e < envs_g.len());
                    }
                    if self.engine.is_aborted() {
                        proof {
                            let t_new = self.engine.log().skip(base_log.len() as int);
                            let seg = t_new.skip(trace_i.len() as int);
                            assert(self.engine.log().take(base_log.len() as int) =~= base_log);
                            assert(self.engine.log() =~= log_start + seq![
                                EngineCall::StepChange(StepName::BuildEnvironment),
                                EngineCall::AbortCheck(true),
                            ]);
                            assert(t_new.take(trace_i.len() as int) =~= trace_i);
                            assert(seg =~= seq![
                                EngineCall::StepChange(StepName::BuildEnvironment),
                                EngineCall::AbortCheck(true),
                            ]);
                            assert(step_failure_seg(
                                step,
                                envs_g,
                                steps_g.take(i + 1),
                                retention_g,
                                seg,
                                TransactionResult::Canceled,
                            ));
                            assert(commit_trace_ok(
                                steps_g,
                                envs_g,
                                retention_g,
                                t_new,
                                TransactionResult::Canceled,
                                steps_g.take(i + 1),
                            ));
                        }
                        return TransactionResult::Canceled;
                    }
                    let ghost log_pre_build = self.engine.log();
                    let result = Self::build_and_push_applications(
                        &mut self.engine,
                        &self.environments[e].applications,
                        &option,
                    );
                    proof {
                        assert(self.environments@[e as int]@.applications == envs_g[
                            e as int].applications);
                    }
                    match result {
                        Ok(_) => {
                            proof {
                                let t_new = self.engine.log().skip(base_log.len() as int);
                                let seg = t_new.skip(trace_i.len() as int);
                                let b_seg = self.engine.log().skip(log_pre_build.len() as int);
                                assert(log_pre_build =~= log_start + seq![
                                    EngineCall::StepChange(StepName::BuildEnvironment),
                                    EngineCall::AbortCheck(false),
                                ]);
                                assert(self.engine.log() =~= log_pre_build + b_seg);
                                assert(self.engine.log() =~= log_start + seq![
                                    EngineCall::StepChange(StepName::BuildEnvironment),
                                    EngineCall::AbortCheck(false),
                                ] + b_seg);
                                assert(self.engine.log().take(base_log.len() as int) =~= base_log);
                                assert(t_new.take(trace_i.len() as int) =~= trace_i);
                                assert(seg[0] == EngineCall::StepChange(StepName::BuildEnvironment));
                                assert(seg[1] == EngineCall::AbortCheck(false));
                                assert(seg.skip(2) =~= b_seg);
                                assert(step_success_seg(step, envs_g, retention_g, seg));
                                assert(steps_success_trace(
                                    steps_g.take(i + 1),
                                    envs_g,
                                    retention_g,
                                    t_new,
                                ));
                            }
                        },
                        Err(err) => {
                            let ghost err_g = err;
                            let canceled = err.tag == Tag::TaskCancellationRequested;
                            if canceled {
                                proof {
                                    let t_new = self.engine.log().skip(base_log.len() as int);
                                    let seg = t_new.skip(trace_i.len() as int);
                                    let b_seg = self.engine.log().skip(
                                        log_pre_build.len() as int,
                                    );
                                    assert(log_pre_build =~= log_start + seq![
                                        EngineCall::StepChange(StepName::BuildEnvironment),
                                        EngineCall::AbortCheck(false),
                                    ]);
                                    assert(self.engine.log() =~= log_pre_build + b_seg);
                                    assert(self.engine.log() =~= log_start + seq![
                                        EngineCall::StepChange(StepName::BuildEnvironment),
                                        EngineCall::AbortCheck(false),
                                    ] + b_seg);
                                    assert(self.engine.log().take(base_log.len() as int)
                                        =~= base_log);
                                    assert(t_new.take(trace_i.len() as int) =~= trace_i);
                                    assert(seg[0] == EngineCall::StepChange(
                                        StepName::BuildEnvironment,
                                    ));
                                    assert(seg[1] == EngineCall::AbortCheck(false));
                                    assert(seg.skip(2) =~= b_seg);
                                    assert(build_trace_ok(
                                        envs_g[e as int].applications,
                                        option.force_build,
                                        retention_g,
                                        seg.skip(2),
                                        Result::<(), EngineError>::Err(err_g),
                                    ));
                                    assert(step_failure_seg(
                                        step,
                                        envs_g,
                                        steps_g.take(i + 1),
                                        retention_g,
                                        seg,
                                        TransactionResult::Canceled,
                                    ));
                                    assert(commit_trace_ok(
                                        steps_g,
                                        envs_g,
                                        retention_g,
                                        t_new,
                                        TransactionResult::Canceled,
                                        steps_g.take(i + 1),
                                    ));
                                }
                                return TransactionResult::Canceled;
                            } else {
                                let r2 = TransactionResult::Error(Box::new(err));
                                proof {
                                    let t_new = self.engine.log().skip(base_log.len() as int);
                                    let seg = t_new.skip(trace_i.len() as int);
                                    let b_seg = self.engine.log().skip(
                                        log_pre_build.len() as int,
                                    );
                                    assert(log_pre_build =~= log_start + seq![
                                        EngineCall::StepChange(StepName::BuildEnvironment),
                                        EngineCall::AbortCheck(false),
                                    ]);
                                    assert(self.engine.log() =~= log_pre_build + b_seg);
                                    assert(self.engine.log() =~= log_start + seq![
                                        EngineCall::StepChange(StepName::BuildEnvironment),
                                        EngineCall::AbortCheck(false),
                                    ] + b_seg);
                                    assert(self.engine.log().take(base_log.len() as int)
                                        =~= base_log);
                                    assert(t_new.take(trace_i.len() as int) =~= trace_i);
                                    assert(seg[0] == EngineCall::StepChange(
                                        StepName::BuildEnvironment,
                                    ));
                                    assert(seg[1] == EngineCall::AbortCheck(false));
                                    assert(seg.skip(2) =~= b_seg);
                                    assert(build_trace_ok(
                                        envs_g[e as int].applications,
                                        option.force_build,
                                        retention_g,
                                        seg.skip(2),
                                        Result::<(), EngineError>::Err(err_g),
                                    ));
                                    assert(step_failure_seg(
                                        step,
                                        envs_g,
                                        steps_g.take(i + 1),
                                        retention_g,
                                        seg,
                                        r2,
                                    ));
                                    assert(commit_trace_ok(
                                        steps_g,
                                        envs_g,
                                        retention_g,
                                        t_new,
                                        r2,
                                        steps_g.take(i + 1),
                                    ));
                                }
                                return r2;
                            }
                        },
                    }
                },
                Step::DeployEnvironment(e) | Step::PauseEnvironment(e)
                    | Step::DeleteEnvironment(e) => {
                    proof {
                        assert(steps_g[i as int].environment_index() == Some(e));
                        assert(e < envs_g.len());
                    }
                    if self.engine.is_aborted() {
                        proof {
                            let t_new = self.engine.log().skip(base_log.len() as int);
                            let seg = t_new.skip(trace_i.len() as int);
                            assert(self.engine.log().take(base_log.len() as int) =~= base_log);
                            assert(self.engine.log() =~= log_start + seq![
                                EngineCall::StepChange(step.spec_step_name()),
                                EngineCall::AbortCheck(true),
                            ]);
                            assert(t_new.take(trace_i.len() as int) =~= trace_i);
                            assert(seg =~= seq![
                                EngineCall::StepChange(step.spec_step_name()),
                                EngineCall::AbortCheck(true),
                            ]);
                            assert(step_failure_seg(
                                step,
                                envs_g,
                                steps_g.take(i + 1),
                                retention_g,
                                seg,
                                TransactionResult::Canceled,
                            ));
                            assert(commit_trace_ok(
                                steps_g,
                                envs_g,
                                retention_g,
                                t_new,
                                TransactionResult::Canceled,
                                steps_g.take(i + 1),
                            ));
                        }
                        return TransactionResult::Canceled;
                    }
                    let action = match step {
                        Step::DeployEnvironment(..) => Action::Create,
                        Step::PauseEnvironment(..) => Action::Pause,
                        _ => Action::Delete,
                    };
                    proof {
                        assert(action == step_action(step));
                    }
                    let ghost log_pre_env = self.engine.log();
                    let tr = self.commit_environment(e, action);
                    match tr {
                        TransactionResult::Success => {
                            proof {
                                let t_new = self.engine.log().skip(base_log.len() as int);
                                let seg = t_new.skip(trace_i.len() as int);
                                let e_seg = self.engine.log().skip(log_pre_env.len() as int);
                                assert(log_pre_env =~= log_start + seq![
                                    EngineCall::StepChange(step.spec_step_name()),
                                    EngineCall::AbortCheck(false),
                                ]);
                                assert(self.engine.log() =~= log_pre_env + e_seg);
                                assert(self.engine.log() =~= log_start + seq![
                                    EngineCall::StepChange(step.spec_step_name()),
                                    EngineCall::AbortCheck(false),
                                ] + e_seg);
                                assert(self.engine.log().take(base_log.len() as int) =~= base_log);
                                assert(t_new.take(trace_i.len() as int) =~= trace_i);
                                assert(seg =~= seq![
                                    EngineCall::StepChange(step.spec_step_name()),
                                    EngineCall::AbortCheck(false),
                                    EngineCall::EnvironmentApply {
                                        environment: envs_g[e as int].long_id,
                                        action: step_action(step),
                                        failure: None,
                                    },
                                ]);
                                assert(step_success_seg(step, envs_g, retention_g, seg));
                                assert(steps_success_trace(
                                    steps_g.take(i + 1),
                                    envs_g,
                                    retention_g,
                                    t_new,
                                ));
                            }
                        },
                        r2 => {
                            proof {
                                let t_new = self.engine.log().skip(base_log.len() as int);
                                let seg = t_new.skip(trace_i.len() as int);
                                let e_seg = self.engine.log().skip(log_pre_env.len() as int);
                                assert(log_pre_env =~= log_start + seq![
                                    EngineCall::StepChange(step.spec_step_name()),
                                    EngineCall::AbortCheck(false),
                                ]);
                                assert(self.engine.log() =~= log_pre_env + e_seg);
                                assert(self.engine.log() =~= log_start + seq![
                                    EngineCall::StepChange(step.spec_step_name()),
                                    EngineCall::AbortCheck(false),
                                ] + e_seg);
                                assert(self.engine.log().take(base_log.len() as int) =~= base_log);
                                assert(t_new.take(trace_i.len() as int) =~= trace_i);
                                assert(seg[0] == EngineCall::StepChange(step.spec_step_name()));
                                assert(seg[1] == EngineCall::AbortCheck(false));
                                assert(seg.skip(2) =~= e_seg);
                                assert(env_fail_trace(
                                    envs_g[e as int],
                                    step_action(step),
                                    steps_g.take(i + 1),
                                    seg.skip(2),
                                ));
                                assert(step_failure_seg(
                                    step,
                                    envs_g,
                                    steps_g.take(i + 1),
                                    retention_g,
                                    seg,
                                    r2,
                                ));
                                assert(commit_trace_ok(
                                    steps_g,
                                    envs_g,
                                    retention_g,
                                    t_new,
                                    r2,
                                    steps_g.take(i + 1),
                                ));
                            }
                            return r2;
                        },
                    }
                },
            }
            i += 1;
        }
        proof {
            assert(steps_g.take(n as int) =~= steps_g);
        }
        TransactionResult::Success
    }
}

/// No two applications of the list target the same image reference.
pub open spec fn distinct_images(apps: Seq<ApplicationView>) -> bool {
    forall|i: int, j: int|
        0 <= i < j < apps.len() ==> (#[trigger] apps[i]).build.image.full_name() != (
        #[trigger] apps[j]).build.image.full_name()
}

/// The trace holds a build call for the given image reference.
pub open spec fn has_build_of(trace: Seq<EngineCall>, image: Seq<char>) -> bool {
    exists|j: int|
        0 <= j < trace.len() && ((#[trigger] trace[j]) matches EngineCall::ImageBuild {
            image: im,
            ..
        } && im == image)
}

/// Law: a forced build phase never asks the registry whether an image
/// exists, and builds every application it processes.
pub proof fn lemma_forced_build_always_builds(
    apps: Seq<ApplicationView>,
    retention_sec: u64,
    trace: Seq<EngineCall>,
)
    requires
        apps_built_ok(apps, true, retention_sec, trace),
    ensures
        forall|j: int| 0 <= j < trace.len() ==> !((#[trigger] trace[j]) is ImageCheck),
        forall|i: int|
            0 <= i < apps.len() ==> trace.contains(
                EngineCall::ImageBuild {
                    image: (#[trigger] apps[i]).build.image.full_name(),
                    status: BuildStatus::Built,
                },
            ),
    decreases apps.len(),
{
    if apps.len() == 0 {
    } else {
        let a = apps.last();
        let seg = app_build_calls(a, true, retention_sec);
        let pre_trace = trace.take(trace.len() - seg.len());
        lemma_forced_build_always_builds(apps.drop_last(), retention_sec, pre_trace);
        assert forall|j: int| 0 <= j < trace.len() implies !((#[trigger] trace[j])
            is ImageCheck) by {
            if j < pre_trace.len() {
                assert(trace[j] == pre_trace[j]);
            } else {
                assert(trace[j] == seg[j - pre_trace.len()]);
            }
        }
        assert forall|i: int| 0 <= i < apps.len() implies trace.contains(
            EngineCall::ImageBuild {
                image: (#[trigger] apps[i]).build.image.full_name(),
                status: BuildStatus::Built,
            },
        ) by {
            let call = EngineCall::ImageBuild {
                image: apps[i].build.image.full_name(),
                status: BuildStatus::Built,
            };
            if i < apps.len() - 1 {
                assert(apps.drop_last()[i] == apps[i]);
                let k = choose|k: int| 0 <= k < pre_trace.len() && pre_trace[k] == call;
                assert(trace[k] == call);
            } else {
                assert(trace[trace.len() - 2] == seg[seg.len() - 2]);
                assert(seg[seg.len() - 2] == call);
            }
        }
    }
}

/// Law: when the build is not forced, an application whose image the
/// registry already holds is skipped — its image is never built — and an
/// application whose image is missing is built. Every build call of the
/// phase belongs to one of the processed applications.
pub proof fn lemma_unforced_build_skips_existing(
    apps: Seq<ApplicationView>,
    retention_sec: u64,
    trace: Seq<EngineCall>,
)
    requires
        apps_built_ok(apps, false, retention_sec, trace),
        distinct_images(apps),
    ensures
        forall|j: int|
            0 <= j < trace.len() ==> ((#[trigger] trace[j]) matches EngineCall::ImageBuild {
                image,
                ..
            } ==> exists|i: int|
                0 <= i < apps.len() && (#[trigger] apps[i]).build.image.full_name() == image),
        forall|i: int|
            0 <= i < apps.len() ==> {
                let image = (#[trigger] apps[i]).build.image.full_name();
                ||| (trace.contains(EngineCall::ImageCheck { image, exists: true })
                    && !has_build_of(trace, image))
                ||| (trace.contains(EngineCall::ImageCheck { image, exists: false })
                    && trace.contains(
                    EngineCall::ImageBuild { image, status: BuildStatus::Built },
                ))
            },
    decreases apps.len(),
{
    if apps.len() == 0 {
    } else {
        let a = apps.last();
        let pre = apps.drop_last();
        let skip_entry = EngineCall::ImageCheck { image: a.build.image.full_name(), exists: true };
        let skipped = trace.len() >= 1 && trace.last() == skip_entry && apps_built_ok(
            pre,
            false,
            retention_sec,
            trace.drop_last(),
        );
        let seg = app_build_calls(a, false, retention_sec);
        let pre_trace = if skipped {
            trace.drop_last()
        } else {
            trace.take(trace.len() - seg.len())
        };
        lemma_unforced_build_skips_existing(pre, retention_sec, pre_trace);
        assert(forall|i: int| 0 <= i < pre.len() ==> (#[trigger] pre[i]) == apps[i]);
        assert forall|j: int| 0 <= j < trace.len() implies ((#[trigger] trace[j]) matches
            EngineCall::ImageBuild { image, .. } ==> exists|i: int|
            0 <= i < apps.len() && (#[trigger] apps[i]).build.image.full_name() == image) by {
            match trace[j] {
                EngineCall::ImageBuild { image, .. } => {
                    if j < pre_trace.len() {
                        assert(trace[j] == pre_trace[j]);
                        let i = choose|i: int|
                            0 <= i < pre.len() && (#[trigger] pre[i]).build.image.full_name()
                                == image;
                        assert(apps[i].build.image.full_name() == image);
                    } else if skipped {
                        assert(trace[j] == skip_entry);
                        assert(false);
                    } else {
                        assert(trace[j] == seg[j - pre_trace.len()]);
                        assert(image == a.build.image.full_name());
                        assert(apps[apps.len() - 1].build.image.full_name() == image);
                    }
                },
                _ => {},
            }
        }
        assert forall|i: int| 0 <= i < apps.len() implies {
            let image = (#[trigger] apps[i]).build.image.full_name();
            ||| (trace.contains(EngineCall::ImageCheck { image, exists: true })
                && !has_build_of(trace, image))
            ||| (trace.contains(EngineCall::ImageCheck { image, exists: false })
                && trace.contains(EngineCall::ImageBuild { image, status: BuildStatus::Built }))
        } by {
            let image = apps[i].build.image.full_name();
            if i < apps.len() - 1 {
                let pre_image = pre[i].build.image.full_name();
                assert(pre_image == image);
                if pre_trace.contains(EngineCall::ImageCheck { image, exists: true })
                    && !has_build_of(pre_trace, image) {
                    let k = choose|k: int|
                        0 <= k < pre_trace.len() && pre_trace[k] == (EngineCall::ImageCheck {
                            image,
                            exists: true,
                        });
                    assert(trace[k] == EngineCall::ImageCheck { image, exists: true });
                    assert(trace.contains(EngineCall::ImageCheck { image, exists: true }));
                    assert forall|j: int| 0 <= j < trace.len() implies !((#[trigger] trace[j])
                        matches EngineCall::ImageBuild { image: im, .. } && im == image) by {
                        if j < pre_trace.len() {
                            assert(trace[j] == pre_trace[j]);
                            match trace[j] {
                                EngineCall::ImageBuild { image: im, .. } => {
                                    if im == image {
                                        assert(has_build_of(pre_trace, image));
                                    }
                                },
                                _ => {},
                            }
                        } else if skipped {
                            assert(trace[j] == skip_entry);
                        } else {
                            assert(trace[j] == seg[j - pre_trace.len()]);
                            match trace[j] {
                                EngineCall::ImageBuild { image: im, .. } => {
                                    assert(im == a.build.image.full_name());
                                    assert(im != image);
                                },
                                _ => {},
                            }
                        }
                    }
                    assert(!has_build_of(trace, image));
                } else {
                    let k1 = choose|k: int|
                        0 <= k < pre_trace.len() && pre_trace[k] == (EngineCall::ImageCheck {
                            image,
                            exists: false,
                        });
                    let k2 = choose|k: int|
                        0 <= k < pre_trace.len() && pre_trace[k] == (EngineCall::ImageBuild {
                            image,
                            status: BuildStatus::Built,
                        });
                    assert(trace[k1] == EngineCall::ImageCheck { image, exists: false });
                    assert(trace[k2] == EngineCall::ImageBuild {
                        image,
                        status: BuildStatus::Built,
                    });
                }
            } else {
                if skipped {
                    assert(trace.last() == skip_entry);
                    assert(trace.contains(EngineCall::ImageCheck { image, exists: true }));
                    assert forall|j: int| 0 <= j < trace.len() implies !((#[trigger] trace[j])
                        matches EngineCall::ImageBuild { image: im, .. } && im == image) by {
                        if j < pre_trace.len() {
                            assert(trace[j] == pre_trace[j]);
                            match trace[j] {
                                EngineCall::ImageBuild { image: im, .. } => {
                                    if im == image {
                                        let i2 = choose|i2: int|
                                            0 <= i2 < pre.len() && (
                                            #[trigger] pre[i2]).build.image.full_name() == im;
                                        assert(apps[i2].build.image.full_name() == image);
                                        assert(false);
                                    }
                                },
                                _ => {},
                            }
                        }
                    }
                    assert(!has_build_of(trace, image));
                } else {
                    assert(trace[pre_trace.len() as int] == seg[0]);
                    assert(seg[0] == EngineCall::ImageCheck { image, exists: false });
                    assert(trace[pre_trace.len() as int + 2] == seg[2]);
                    assert(seg[2] == EngineCall::ImageBuild {
                        image,
                        status: BuildStatus::Built,
                    });
                    assert(trace.contains(EngineCall::ImageCheck { image, exists: false }));
                    assert(trace.contains(EngineCall::ImageBuild {
                        image,
                        status: BuildStatus::Built,
                    }));
                }
            }
        }
    }
}

/// Law: a `BuildEnvironment` step whose abort poll already answers true is
/// canceled outright — the two recorded calls are the step-change
/// notification and the poll, so neither the registry nor the build
/// collaborator is ever invoked.
pub proof fn lemma_abort_before_build_calls_nothing(
    step: Step,
    envs: Seq<EnvironmentView>,
    executed: Seq<Step>,
    retention_sec: u64,
    seg: Seq<EngineCall>,
)
    requires
        step is BuildEnvironment,
        step_failure_seg(step, envs, executed, retention_sec, seg, TransactionResult::Canceled),
        seg.len() >= 2,
        seg[1] == EngineCall::AbortCheck(true),
    ensures
        seg.len() == 2,
        forall|j: int|
            0 <= j < seg.len() ==> match #[trigger] seg[j] {
                EngineCall::ImageBuild { .. } => false,
                EngineCall::ImageCheck { .. } => false,
                EngineCall::RegistryCreate(..) => false,
                EngineCall::RepositoryCreate { .. } => false,
                _ => true,
            },
{
    assert(seg == seq![
        EngineCall::StepChange(StepName::BuildEnvironment),
        EngineCall::AbortCheck(true),
    ]);
    assert(seg[0] == EngineCall::StepChange(StepName::BuildEnvironment));
}

/// How many terminal notifications of the trace carry the given scope.
pub open spec fn scope_report_count(trace: Seq<EngineCall>, scope: ProgressScopeView) -> nat
    decreases trace.len(),
{
    if trace.len() == 0 {
        0
    } else {
        scope_report_count(trace.drop_last(), scope) + match trace.last() {
            EngineCall::TerminalProgress { scope: sc, .. } => if sc == scope {
                1nat
            } else {
                0nat
            },
            _ => 0nat,
        }
    }
}

/// Counting distributes over concatenation.
pub proof fn lemma_scope_report_count_add(
    t1: Seq<EngineCall>,
    t2: Seq<EngineCall>,
    scope: ProgressScopeView,
)
    ensures
        scope_report_count(t1 + t2, scope) == scope_report_count(t1, scope)
            + scope_report_count(t2, scope),
    decreases t2.len(),
{
    if t2.len() == 0 {
        assert(t1 + t2 =~= t1);
    } else {
        lemma_scope_report_count_add(t1, t2.drop_last(), scope);
        assert((t1 + t2).drop_last() =~= t1 + t2.drop_last());
        assert((t1 + t2).last() == t2.last());
    }
}

/// No two services of the list share a short id.
pub open spec fn distinct_service_ids(services: Seq<ServiceInfoView>) -> bool {
    forall|i: int, j: int|
        0 <= i < j < services.len() ==> (#[trigger] services[i]).id != (
        #[trigger] services[j]).id
}

/// No two applications of the list share a short id.
pub open spec fn distinct_application_ids(applications: Seq<ApplicationView>) -> bool {
    forall|i: int, j: int|
        0 <= i < j < applications.len() ==> (#[trigger] applications[i]).id != (
        #[trigger] applications[j]).id
}

/// A report for one service list never mentions a scope whose id belongs to
/// none of its services, nor a scope of another kind.
pub proof fn lemma_report_services_foreign(
    kind: ServiceType,
    services: Seq<ServiceInfoView>,
    action: Action,
    processed: Seq<u128>,
    scope: ProgressScopeView,
)
    requires
        scope.service_type != kind || forall|i: int|
            0 <= i < services.len() ==> (#[trigger] services[i]).id != scope.id,
    ensures
        scope_report_count(report_services(kind, services, action, processed), scope) == 0,
    decreases services.len(),
{
    if services.len() == 0 {
    } else {
        let pre = services.drop_last();
        assert(forall|i: int| 0 <= i < pre.len() ==> (#[trigger] pre[i]) == services[i]);
        lemma_report_services_foreign(kind, pre, action, processed, scope);
        let tail: Seq<EngineCall> = if !processed.contains(services.last().long_id) && action
            != Action::Nothing {
            seq![
                EngineCall::TerminalProgress {
                    scope: ProgressScopeView { service_type: kind, id: services.last().id },
                    action,
                    is_error: true,
                },
            ]
        } else {
            Seq::empty()
        };
        lemma_scope_report_count_add(report_services(kind, pre, action, processed), tail, scope);
        if tail.len() == 1 {
            assert(scope_report_count(tail, scope) == scope_report_count(
                tail.drop_last(),
                scope,
            ) + 1nat - 1nat + match tail.last() {
                EngineCall::TerminalProgress { scope: sc, .. } => if sc == scope {
                    1nat
                } else {
                    0nat
                },
                _ => 0nat,
            });
            assert(services[services.len() - 1].id != scope.id || scope.service_type != kind);
            assert(scope_report_count(tail, scope) == 0);
        }
    }
}

/// The report for one service list mentions the scope of its `k`-th service
/// exactly once when the executor did not process that service (and the
/// environment's action is not `Nothing`), and never otherwise.
pub proof fn lemma_report_services_count(
    kind: ServiceType,
    services: Seq<ServiceInfoView>,
    action: Action,
    processed: Seq<u128>,
    k: int,
)
    requires
        0 <= k < services.len(),
        distinct_service_ids(services),
    ensures
        scope_report_count(
            report_services(kind, services, action, processed),
            ProgressScopeView { service_type: kind, id: services[k].id },
        ) == if !processed.contains(services[k].long_id) && action != Action::Nothing {
            1nat
        } else {
            0nat
        },
    decreases services.len(),
{
    let scope = ProgressScopeView { service_type: kind, id: services[k].id };
    let pre = services.drop_last();
    assert(forall|i: int| 0 <= i < pre.len() ==> (#[trigger] pre[i]) == services[i]);
    let tail: Seq<EngineCall> = if !processed.contains(services.last().long_id) && action
        != Action::Nothing {
        seq![
            EngineCall::TerminalProgress {
                scope: ProgressScopeView { service_type: kind, id: services.last().id },
                action,
                is_error: true,
            },
        ]
    } else {
        Seq::empty()
    };
    lemma_scope_report_count_add(report_services(kind, pre, action, processed), tail, scope);
    if tail.len() == 1 {
        assert(scope_report_count(tail.drop_last(), scope) == 0);
        assert(scope_report_count(tail, scope) == match tail.last() {
            EngineCall::TerminalProgress { scope: sc, .. } => if sc == scope {
                1nat
            } else {
                0nat
            },
            _ => 0nat,
        });
    }
    if k == services.len() - 1 {
        lemma_report_services_foreign(kind, pre, action, processed, scope);
    } else {
        lemma_report_services_count(kind, pre, action, processed, k);
        assert(services.last().id != services[k].id);
    }
}

/// Like [`lemma_report_services_foreign`], for the application list.
pub proof fn lemma_report_applications_foreign(
    applications: Seq<ApplicationView>,
    action: Action,
    processed: Seq<u128>,
    scope: ProgressScopeView,
)
    requires
        scope.service_type != ServiceType::Application || forall|i: int|
            0 <= i < applications.len() ==> (#[trigger] applications[i]).id != scope.id,
    ensures
        scope_report_count(report_applications(applications, action, processed), scope) == 0,
    decreases applications.len(),
{
    if applications.len() == 0 {
    } else {
        let pre = applications.drop_last();
        assert(forall|i: int| 0 <= i < pre.len() ==> (#[trigger] pre[i]) == applications[i]);
        lemma_report_applications_foreign(pre, action, processed, scope);
        let tail: Seq<EngineCall> = if !processed.contains(applications.last().long_id) && action
            != Action::Nothing {
            seq![
                EngineCall::TerminalProgress {
                    scope: ProgressScopeView {
                        service_type: ServiceType::Application,
                        id: applications.last().id,
                    },
                    action,
                    is_error: true,
                },
            ]
        } else {
            Seq::empty()
        };
        lemma_scope_report_count_add(report_applications(pre, action, processed), tail, scope);
        if tail.len() == 1 {
            assert(scope_report_count(tail.drop_last(), scope) == 0);
        assert(scope_report_count(tail, scope) == match tail.last() {
                EngineCall::TerminalProgress { scope: sc, .. } => if sc == scope {
                    1nat
                } else {
                    0nat
                },
                _ => 0nat,
            });
            assert(applications[applications.len() - 1].id != scope.id || scope.service_type
                != ServiceType::Application);
        }
    }
}

/// Like [`lemma_report_services_count`], for the application list.
pub proof fn lemma_report_applications_count(
    applications: Seq<ApplicationView>,
    action: Action,
    processed: Seq<u128>,
    k: int,
)
    requires
        0 <= k < applications.len(),
        distinct_application_ids(applications),
    ensures
        scope_report_count(
            report_applications(applications, action, processed),
            ProgressScopeView { service_type: ServiceType::Application, id: applications[k].id },
        ) == if !processed.contains(applications[k].long_id) && action != Action::Nothing {
            1nat
        } else {
            0nat
        },
    decreases applications.len(),
{
    let scope = ProgressScopeView {
        service_type: ServiceType::Application,
        id: applications[k].id,
    };
    let pre = applications.drop_last();
    assert(forall|i: int| 0 <= i < pre.len() ==> (#[trigger] pre[i]) == applications[i]);
    let tail: Seq<EngineCall> = if !processed.contains(applications.last().long_id) && action
        != Action::Nothing {
        seq![
            EngineCall::TerminalProgress {
                scope: ProgressScopeView {
                    service_type: ServiceType::Application,
                    id: applications.last().id,
                },
                action,
                is_error: true,
            },
        ]
    } else {
        Seq::empty()
    };
    lemma_scope_report_count_add(report_applications(pre, action, processed), tail, scope);
    if tail.len() == 1 {
        assert(scope_report_count(tail.drop_last(), scope) == 0);
        assert(scope_report_count(tail, scope) == match tail.last() {
            EngineCall::TerminalProgress { scope: sc, .. } => if sc == scope {
                1nat
            } else {
                0nat
            },
            _ => 0nat,
        });
    }
    if k == applications.len() - 1 {
        lemma_report_applications_foreign(pre, action, processed, scope);
    } else {
        lemma_report_applications_count(pre, action, processed, k);
        assert(applications.last().id != applications[k].id);
    }
}

/// Law: after a failed environment operation, the terminal reports cover
/// exactly the services the executor did not process — each reported
/// exactly once, none of the processed ones reported at all. The order is
/// fixed by construction: [`report_calls`] lists the database reports, then
/// the application reports, then the router reports.
pub proof fn lemma_failure_reports_exactly_unprocessed(
    env: EnvironmentView,
    processed: Seq<u128>,
)
    requires
        distinct_service_ids(env.databases),
        distinct_application_ids(env.applications),
        distinct_service_ids(env.routers),
    ensures
        forall|k: int|
            0 <= k < env.databases.len() ==> scope_report_count(
                report_calls(env, processed),
                ProgressScopeView {
                    service_type: ServiceType::Database,
                    id: (#[trigger] env.databases[k]).id,
                },
            ) == if !processed.contains(env.databases[k].long_id) && env.action
                != Action::Nothing {
                1nat
            } else {
                0nat
            },
        forall|k: int|
            0 <= k < env.applications.len() ==> scope_report_count(
                report_calls(env, processed),
                ProgressScopeView {
                    service_type: ServiceType::Application,
                    id: (#[trigger] env.applications[k]).id,
                },
            ) == if !processed.contains(env.applications[k].long_id) && env.action
                != Action::Nothing {
                1nat
            } else {
                0nat
            },
        forall|k: int|
            0 <= k < env.routers.len() ==> scope_report_count(
                report_calls(env, processed),
                ProgressScopeView {
                    service_type: ServiceType::Router,
                    id: (#[trigger] env.routers[k]).id,
                },
            ) == if !processed.contains(env.routers[k].long_id) && env.action != Action::Nothing {
                1nat
            } else {
                0nat
            },
{
    let rep_db = report_services(ServiceType::Database, env.databases, env.action, processed);
    let rep_app = report_applications(env.applications, env.action, processed);
    let rep_router = report_services(ServiceType::Router, env.routers, env.action, processed);
    assert forall|k: int| 0 <= k < env.databases.len() implies scope_report_count(
        report_calls(env, processed),
        ProgressScopeView {
            service_type: ServiceType::Database,
            id: (#[trigger] env.databases[k]).id,
        },
    ) == if !processed.contains(env.databases[k].long_id) && env.action != Action::Nothing {
        1nat
    } else {
        0nat
    } by {
        let scope = ProgressScopeView {
            service_type: ServiceType::Database,
            id: env.databases[k].id,
        };
        lemma_scope_report_count_add(rep_db + rep_app, rep_router, scope);
        lemma_scope_report_count_add(rep_db, rep_app, scope);
        lemma_report_services_count(ServiceType::Database, env.databases, env.action, processed, k);
        lemma_report_applications_foreign(env.applications, env.action, processed, scope);
        lemma_report_services_foreign(ServiceType::Router, env.routers, env.action, processed, scope);
    }
    assert forall|k: int| 0 <= k < env.applications.len() implies scope_report_count(
        report_calls(env, processed),
        ProgressScopeView {
            service_type: ServiceType::Application,
            id: (#[trigger] env.applications[k]).id,
        },
    ) == if !processed.contains(env.applications[k].long_id) && env.action != Action::Nothing {
        1nat
    } else {
        0nat
    } by {
        let scope = ProgressScopeView {
            service_type: ServiceType::Application,
            id: env.applications[k].id,
        };
        lemma_scope_report_count_add(rep_db + rep_app, rep_router, scope);
        lemma_scope_report_count_add(rep_db, rep_app, scope);
        lemma_report_services_foreign(ServiceType::Database, env.databases, env.action, processed, scope);
        lemma_report_applications_count(env.applications, env.action, processed, k);
        lemma_report_services_foreign(ServiceType::Router, env.routers, env.action, processed, scope);
    }
    assert forall|k: int| 0 <= k < env.routers.len() implies scope_report_count(
        report_calls(env, processed),
        ProgressScopeView {
            service_type: ServiceType::Router,
            id: (#[trigger] env.routers[k]).id,
        },
    ) == if !processed.contains(env.routers[k].long_id) && env.action != Action::Nothing {
        1nat
    } else {
        0nat
    } by {
        let scope = ProgressScopeView { service_type: ServiceType::Router, id: env.routers[k].id };
        lemma_scope_report_count_add(rep_db + rep_app, rep_router, scope);
        lemma_scope_report_count_add(rep_db, rep_app, scope);
        lemma_report_services_foreign(ServiceType::Database, env.databases, env.action, processed, scope);
        lemma_report_applications_foreign(env.applications, env.action, processed, scope);
        lemma_report_services_count(ServiceType::Router, env.routers, env.action, processed, k);
    }
}

} // verus!
