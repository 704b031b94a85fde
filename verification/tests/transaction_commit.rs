//! Commit, rollback, build-pipeline and partial-failure behaviour of the
//! step sequencer, driven against the recording engine.

use qovery_engine::application::{
    Application, ApplicationAdvancedSettings, EnvironmentVariable, Port, ProbeType, Storage,
};
use qovery_engine::engine::{BuildStatus, EngineCallRecord, ScriptedEngine};
use qovery_engine::environment::Environment;
use qovery_engine::image::{Build, Image};
use qovery_engine::service::{Action, ProgressLevel, ServiceInfo, ServiceType};
use qovery_engine::step::{DeploymentOption, Step, StepName};
use qovery_engine::transaction::{Transaction, TransactionResult};

fn sample_settings() -> ApplicationAdvancedSettings {
    ApplicationAdvancedSettings {
        deployment_delay_start_time_sec: 30,
        liveness_probe_type: ProbeType::Tcp,
        liveness_probe_http_get_path: "/".to_string(),
        liveness_probe_initial_delay_seconds: 30,
        liveness_probe_period_seconds: 10,
        liveness_probe_timeout_seconds: 5,
        liveness_probe_success_threshold: 1,
        liveness_probe_failure_threshold: 3,
        readiness_probe_type: ProbeType::Http,
        readiness_probe_http_get_path: "/healthz".to_string(),
        readiness_probe_initial_delay_seconds: 30,
        readiness_probe_period_seconds: 10,
        readiness_probe_timeout_seconds: 1,
        readiness_probe_success_threshold: 1,
        readiness_probe_failure_threshold: 9,
        hpa_cpu_average_utilization_percent: 60,
    }
}

fn sample_app(long_id: u128, action: Action, image_name: &str) -> Application {
    Application::new(
        long_id,
        action,
        "web",
        vec![Port { port: 8080, is_default: true, publicly_accessible: true }],
        "500m".to_string(),
        "1000m".to_string(),
        512,
        1,
        3,
        Build {
            image: Image {
                name: image_name.to_string(),
                tag: "v1".to_string(),
                commit_id: "0123456789abcdef".to_string(),
                repository_name: image_name.to_string(),
                registry_secret_name: "registry-secret".to_string(),
            },
        },
        Vec::<Storage>::new(),
        Vec::<EnvironmentVariable>::new(),
        sample_settings(),
    )
    .unwrap()
}

fn service(long_id: u128, id: &str) -> ServiceInfo {
    ServiceInfo {
        id: id.to_string(),
        long_id,
        name: id.to_string(),
        action: Action::Create,
    }
}

fn environment(action: Action, applications: Vec<Application>) -> Environment {
    Environment::new(0xB1, 0xA1, 0xC1, action, applications, Vec::new(), Vec::new(), Vec::new())
}

#[test]
fn commit_executes_steps_in_insertion_order() {
    let engine = ScriptedEngine::new_all_ok(3600);
    let mut tx = Transaction::new(engine).unwrap();
    tx.create_kubernetes().unwrap();
    tx.pause_kubernetes().unwrap();
    let result = tx.commit();
    assert!(matches!(result, TransactionResult::Success));
    assert_eq!(
        tx.executed_steps().as_slice(),
        &[Step::CreateKubernetes, Step::PauseKubernetes],
    );
    let calls = &tx.engine().calls;
    assert_eq!(
        calls.as_slice(),
        &[
            EngineCallRecord::StepChange(StepName::Waiting),
            EngineCallRecord::StepChange(StepName::CreateKubernetes),
            EngineCallRecord::ClusterCreate(true),
            EngineCallRecord::StepChange(StepName::PauseKubernetes),
            EngineCallRecord::ClusterPause(true),
        ],
    );
}

#[test]
fn failed_step_stops_the_commit_and_rolls_back() {
    let mut engine = ScriptedEngine::new_all_ok(3600);
    engine.cluster_ok = false;
    let mut tx = Transaction::new(engine).unwrap();
    tx.create_kubernetes().unwrap();
    tx.delete_kubernetes().unwrap();
    let result = tx.commit();
    assert!(matches!(result, TransactionResult::Error(_)));
    // Only the failing step is recorded; the later step never starts.
    assert_eq!(tx.executed_steps().as_slice(), &[Step::CreateKubernetes]);
    let calls = &tx.engine().calls;
    assert_eq!(
        calls.as_slice(),
        &[
            EngineCallRecord::StepChange(StepName::Waiting),
            EngineCallRecord::StepChange(StepName::CreateKubernetes),
            EngineCallRecord::ClusterCreate(false),
            EngineCallRecord::ClusterCreateRevert(true),
        ],
    );
}

#[test]
fn rollback_is_a_no_op_on_an_empty_transaction() {
    let engine = ScriptedEngine::new_all_ok(3600);
    let mut tx = Transaction::new(engine).unwrap();
    let before = tx.engine().calls.len();
    let result = tx.rollback();
    assert!(result.is_ok());
    assert_eq!(tx.engine().calls.len(), before);
}

#[test]
fn rollback_processes_only_executed_steps() {
    let mut engine = ScriptedEngine::new_all_ok(3600);
    engine.cluster_ok = false;
    let mut tx = Transaction::new(engine).unwrap();
    tx.create_kubernetes().unwrap();
    tx.pause_kubernetes().unwrap();
    let _ = tx.commit();
    assert_eq!(tx.executed_steps().as_slice(), &[Step::CreateKubernetes]);
    let before = tx.engine().calls.len();
    let result = tx.rollback();
    assert!(result.is_ok());
    // One compensating hook for the single executed step, nothing else.
    let calls = &tx.engine().calls;
    assert_eq!(calls.len(), before + 1);
    assert_eq!(calls[before], EngineCallRecord::ClusterCreateRevert(true));
}

#[test]
fn build_is_skipped_when_image_exists_and_build_is_not_forced() {
    let mut engine = ScriptedEngine::new_all_ok(3600);
    engine.existing_images.push("app1:v1".to_string());
    let mut tx = Transaction::new(engine).unwrap();
    let env = tx.add_environment(environment(
        Action::Create,
        vec![sample_app(0x11, Action::Create, "app1")],
    ));
    tx.build_environment(env, DeploymentOption { force_build: false, force_push: false })
        .unwrap();
    let result = tx.commit();
    assert!(matches!(result, TransactionResult::Success));
    let calls = &tx.engine().calls;
    assert!(calls.contains(&EngineCallRecord::ImageCheck {
        image: "app1:v1".to_string(),
        exists: true,
    }));
    assert!(!calls.iter().any(|c| matches!(c, EngineCallRecord::ImageBuild { .. })));
    assert!(!calls.iter().any(|c| matches!(c, EngineCallRecord::RepositoryCreate { .. })));
}

#[test]
fn build_runs_when_image_is_missing() {
    let engine = ScriptedEngine::new_all_ok(3600);
    let mut tx = Transaction::new(engine).unwrap();
    let env = tx.add_environment(environment(
        Action::Create,
        vec![sample_app(0x11, Action::Create, "app1")],
    ));
    tx.build_environment(env, DeploymentOption { force_build: false, force_push: false })
        .unwrap();
    let result = tx.commit();
    assert!(matches!(result, TransactionResult::Success));
    let calls = &tx.engine().calls;
    assert!(calls.contains(&EngineCallRecord::ImageCheck {
        image: "app1:v1".to_string(),
        exists: false,
    }));
    assert!(calls.contains(&EngineCallRecord::RepositoryCreate {
        repository: "app1".to_string(),
        retention_sec: 3600,
        ok: true,
    }));
    assert!(calls.contains(&EngineCallRecord::ImageBuild {
        image: "app1:v1".to_string(),
        status: BuildStatus::Built,
    }));
}

#[test]
fn forced_build_always_builds_without_asking_the_registry() {
    let mut engine = ScriptedEngine::new_all_ok(3600);
    engine.existing_images.push("app1:v1".to_string());
    let mut tx = Transaction::new(engine).unwrap();
    let env = tx.add_environment(environment(
        Action::Create,
        vec![sample_app(0x11, Action::Create, "app1")],
    ));
    tx.build_environment(env, DeploymentOption { force_build: true, force_push: false })
        .unwrap();
    let result = tx.commit();
    assert!(matches!(result, TransactionResult::Success));
    let calls = &tx.engine().calls;
    assert!(!calls.iter().any(|c| matches!(c, EngineCallRecord::ImageCheck { .. })));
    assert!(calls.contains(&EngineCallRecord::ImageBuild {
        image: "app1:v1".to_string(),
        status: BuildStatus::Built,
    }));
}

#[test]
fn applications_not_flagged_for_creation_are_not_built() {
    let engine = ScriptedEngine::new_all_ok(3600);
    let mut tx = Transaction::new(engine).unwrap();
    let env = tx.add_environment(environment(
        Action::Create,
        vec![sample_app(0x11, Action::Pause, "app1")],
    ));
    tx.build_environment(env, DeploymentOption { force_build: false, force_push: false })
        .unwrap();
    let result = tx.commit();
    assert!(matches!(result, TransactionResult::Success));
    // Nothing to build at all: the registry is not even ensured.
    let calls = &tx.engine().calls;
    assert!(!calls.iter().any(|c| matches!(c, EngineCallRecord::RegistryCreate(_))));
    assert!(!calls.iter().any(|c| matches!(c, EngineCallRecord::ImageBuild { .. })));
}

#[test]
fn aborted_build_reports_canceled() {
    let mut engine = ScriptedEngine::new_all_ok(3600);
    engine.build_status = BuildStatus::Aborted;
    let mut tx = Transaction::new(engine).unwrap();
    let env = tx.add_environment(environment(
        Action::Create,
        vec![sample_app(0x11, Action::Create, "app1")],
    ));
    tx.build_environment(env, DeploymentOption { force_build: false, force_push: false })
        .unwrap();
    let result = tx.commit();
    assert!(matches!(result, TransactionResult::Canceled));
    let calls = &tx.engine().calls;
    assert!(calls.iter().any(|c| matches!(
        c,
        EngineCallRecord::BuildProgress { level: ProgressLevel::Error, .. },
    )));
}

#[test]
fn failed_build_reports_error_and_fails_fast() {
    let mut engine = ScriptedEngine::new_all_ok(3600);
    engine.build_status = BuildStatus::Failed;
    let mut tx = Transaction::new(engine).unwrap();
    let env = tx.add_environment(environment(
        Action::Create,
        vec![
            sample_app(0x11, Action::Create, "app1"),
            sample_app(0x12, Action::Create, "app2"),
        ],
    ));
    tx.build_environment(env, DeploymentOption { force_build: false, force_push: false })
        .unwrap();
    let result = tx.commit();
    assert!(matches!(result, TransactionResult::Error(_)));
    // Fail-fast: the second application is never attempted.
    let builds: Vec<&EngineCallRecord> = tx
        .engine()
        .calls
        .iter()
        .filter(|c| matches!(c, EngineCallRecord::ImageBuild { .. }))
        .collect();
    assert_eq!(builds.len(), 1);
    assert_eq!(
        builds[0],
        &EngineCallRecord::ImageBuild { image: "app1:v1".to_string(), status: BuildStatus::Failed },
    );
}

#[test]
fn abort_before_build_cancels_without_invoking_the_build_collaborator() {
    let mut engine = ScriptedEngine::new_all_ok(3600);
    engine.abort = true;
    let mut tx = Transaction::new(engine).unwrap();
    let env = tx.add_environment(environment(
        Action::Create,
        vec![sample_app(0x11, Action::Create, "app1")],
    ));
    tx.build_environment(env, DeploymentOption { force_build: false, force_push: false })
        .unwrap();
    let result = tx.commit();
    assert!(matches!(result, TransactionResult::Canceled));
    let calls = &tx.engine().calls;
    assert_eq!(
        calls.as_slice(),
        &[
            EngineCallRecord::StepChange(StepName::Waiting),
            EngineCallRecord::StepChange(StepName::BuildEnvironment),
            EngineCallRecord::AbortCheck(true),
        ],
    );
}

#[test]
fn deploy_environment_queues_build_then_deploy() {
    let engine = ScriptedEngine::new_all_ok(3600);
    let mut tx = Transaction::new(engine).unwrap();
    let env = tx.add_environment(environment(Action::Create, Vec::new()));
    tx.deploy_environment(env).unwrap();
    assert_eq!(
        tx.steps().as_slice(),
        &[
            Step::BuildEnvironment(env, DeploymentOption { force_build: false, force_push: false }),
            Step::DeployEnvironment(env),
        ],
    );
    let result = tx.commit();
    assert!(matches!(result, TransactionResult::Success));
    let calls = &tx.engine().calls;
    assert!(calls.iter().any(|c| matches!(
        c,
        EngineCallRecord::EnvironmentApply { action: Action::Create, failure: None, .. },
    )));
}

#[test]
fn failed_environment_action_reports_exactly_the_unprocessed_services() {
    // Services A and C were processed by the executor; B and D were not.
    let mut engine = ScriptedEngine::new_all_ok(3600);
    engine.environment_ok = false;
    engine.processed_service_ids.push(0xA);
    engine.processed_service_ids.push(0xC);
    let mut tx = Transaction::new(engine).unwrap();
    let mut env = environment(Action::Pause, Vec::new());
    env.databases.push(service(0xA, "db-a"));
    env.databases.push(service(0xB, "db-b"));
    env.containers.push(service(0xC0, "ct-c0"));
    env.routers.push(service(0xD, "rt-d"));
    env.applications.push(sample_app(0xC, Action::Create, "app-c"));
    let env_id = tx.add_environment(env);
    tx.pause_environment(env_id).unwrap();
    let result = tx.commit();
    assert!(matches!(result, TransactionResult::Error(_)));
    let reports: Vec<&EngineCallRecord> = tx
        .engine()
        .calls
        .iter()
        .filter(|c| matches!(c, EngineCallRecord::TerminalProgress { .. }))
        .collect();
    // Exactly B (a database) and D (a router), in that fixed order, each
    // reported once, each as an error, under the environment's action.
    assert_eq!(reports.len(), 2);
    match reports[0] {
        EngineCallRecord::TerminalProgress { scope, action, is_error } => {
            assert_eq!(scope.service_type, ServiceType::Database);
            assert_eq!(scope.id, "db-b");
            assert_eq!(*action, Action::Pause);
            assert!(*is_error);
        }
        _ => unreachable!(),
    }
    match reports[1] {
        EngineCallRecord::TerminalProgress { scope, action, is_error } => {
            assert_eq!(scope.service_type, ServiceType::Router);
            assert_eq!(scope.id, "rt-d");
            assert_eq!(*action, Action::Pause);
            assert!(*is_error);
        }
        _ => unreachable!(),
    }
}

#[test]
fn step_names_can_be_canceled_only_while_waiting_or_building() {
    assert!(StepName::Waiting.can_be_canceled());
    assert!(StepName::BuildEnvironment.can_be_canceled());
    assert!(!StepName::CreateKubernetes.can_be_canceled());
    assert!(!StepName::DeleteKubernetes.can_be_canceled());
    assert!(!StepName::PauseKubernetes.can_be_canceled());
    assert!(!StepName::DeployEnvironment.can_be_canceled());
    assert!(!StepName::PauseEnvironment.can_be_canceled());
    assert!(!StepName::DeleteEnvironment.can_be_canceled());
}

#[test]
fn invalid_engine_configuration_refuses_the_transaction() {
    let mut engine = ScriptedEngine::new_all_ok(3600);
    engine.kubernetes_valid = false;
    let result = Transaction::<ScriptedEngine>::new(engine);
    assert!(result.is_err());
}

#[test]
fn registry_failure_aborts_the_build_phase_before_any_build() {
    let mut engine = ScriptedEngine::new_all_ok(3600);
    engine.registry_ok = false;
    let mut tx = Transaction::new(engine).unwrap();
    let env = tx.add_environment(environment(
        Action::Create,
        vec![sample_app(0x11, Action::Create, "app1")],
    ));
    tx.build_environment(env, DeploymentOption { force_build: false, force_push: false })
        .unwrap();
    let result = tx.commit();
    assert!(matches!(result, TransactionResult::Error(_)));
    let calls = &tx.engine().calls;
    assert!(calls.contains(&EngineCallRecord::RegistryCreate(false)));
    assert!(!calls.iter().any(|c| matches!(c, EngineCallRecord::ImageCheck { .. })));
    assert!(!calls.iter().any(|c| matches!(c, EngineCallRecord::ImageBuild { .. })));
}

#[test]
fn repository_failure_aborts_before_the_build() {
    let mut engine = ScriptedEngine::new_all_ok(3600);
    engine.repository_ok = false;
    let mut tx = Transaction::new(engine).unwrap();
    let env = tx.add_environment(environment(
        Action::Create,
        vec![sample_app(0x11, Action::Create, "app1")],
    ));
    tx.build_environment(env, DeploymentOption { force_build: false, force_push: false })
        .unwrap();
    let result = tx.commit();
    assert!(matches!(result, TransactionResult::Error(_)));
    let calls = &tx.engine().calls;
    assert!(calls.contains(&EngineCallRecord::RepositoryCreate {
        repository: "app1".to_string(),
        retention_sec: 3600,
        ok: false,
    }));
    assert!(!calls.iter().any(|c| matches!(c, EngineCallRecord::ImageBuild { .. })));
}

#[test]
fn abort_before_an_environment_action_cancels_it() {
    let mut engine = ScriptedEngine::new_all_ok(3600);
    engine.abort = true;
    let mut tx = Transaction::new(engine).unwrap();
    let env = tx.add_environment(environment(Action::Delete, Vec::new()));
    tx.delete_environment(env).unwrap();
    let result = tx.commit();
    assert!(matches!(result, TransactionResult::Canceled));
    assert!(!tx
        .engine()
        .calls
        .iter()
        .any(|c| matches!(c, EngineCallRecord::EnvironmentApply { .. })));
}

#[test]
fn successful_environment_actions_report_no_terminal_failure() {
    let engine = ScriptedEngine::new_all_ok(3600);
    let mut tx = Transaction::new(engine).unwrap();
    let mut env = environment(Action::Pause, Vec::new());
    env.databases.push(service(0xA, "db-a"));
    let env_id = tx.add_environment(env);
    tx.pause_environment(env_id).unwrap();
    let result = tx.commit();
    assert!(matches!(result, TransactionResult::Success));
    assert!(!tx
        .engine()
        .calls
        .iter()
        .any(|c| matches!(c, EngineCallRecord::TerminalProgress { .. })));
}
