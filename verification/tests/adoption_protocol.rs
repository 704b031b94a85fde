//! The ownership-adoption protocol of the networking-plugin unit, driven
//! against the recording cluster runner.

use qovery_engine::cni::{
    AwsVpcCniChart, DaemonSetSelector, DaemonSetSpec, KubeCallRecord, KubeDaemonSet, KubeRunner,
    ScriptedKube,
};
use qovery_engine::helm::ChartInfo;

fn cni_chart() -> AwsVpcCniChart {
    let mut chart_info = ChartInfo::new_with_defaults(
        "aws-vpc-cni".to_string(),
        "./charts/aws-vpc-cni".to_string(),
    );
    chart_info.selector = Some("k8s-app=aws-node".to_string());
    AwsVpcCniChart { chart_info }
}

fn runner() -> ScriptedKube {
    ScriptedKube {
        cleanup_ok: true,
        mutate_ok: true,
        daemonsets: Vec::new(),
        calls: Vec::new(),
    }
}

fn legacy_probe_answer() -> Option<KubeDaemonSet> {
    // The filtered query matches nothing: the resource is still managed
    // under the legacy scheme.
    Some(KubeDaemonSet { spec: None, items: Some(Vec::new()) })
}

fn managed_probe_answer() -> Option<KubeDaemonSet> {
    // The filtered query matches the daemon set: already managed under the
    // new scheme.
    Some(KubeDaemonSet { spec: None, items: Some(vec!["aws-node".to_string()]) })
}

#[test]
fn legacy_resource_gets_three_mutations_per_kind_then_a_settle_wait() {
    let chart = cni_chart();
    let mut kube = runner();
    kube.daemonsets.push(legacy_probe_answer());
    let result = chart.pre_exec(&mut kube);
    assert!(result.is_ok());
    let calls = &kube.calls;
    // Cleanup, probe, four kinds of three mutations each, one settle wait.
    assert_eq!(calls.len(), 1 + 1 + 12 + 1);
    assert!(matches!(calls[0], KubeCallRecord::DeleteCrashLoopingPods { ok: true, .. }));
    assert!(matches!(calls[1], KubeCallRecord::GetDaemonSet { .. }));
    let kinds = ["daemonSet", "clusterRole", "clusterRoleBinding", "serviceAccount"];
    for (i, kind) in kinds.iter().enumerate() {
        let base = 2 + 3 * i;
        assert_eq!(
            calls[base],
            KubeCallRecord::Annotate {
                kind: kind.to_string(),
                name: "aws-node".to_string(),
                annotation: "meta.helm.sh/release-name=aws-vpc-cni".to_string(),
                ok: true,
            },
        );
        assert_eq!(
            calls[base + 1],
            KubeCallRecord::Annotate {
                kind: kind.to_string(),
                name: "aws-node".to_string(),
                annotation: "meta.helm.sh/release-namespace=kube-system".to_string(),
                ok: true,
            },
        );
        assert_eq!(
            calls[base + 2],
            KubeCallRecord::Label {
                kind: kind.to_string(),
                name: "aws-node".to_string(),
                label: "app.kubernetes.io/managed-by=Helm".to_string(),
                ok: true,
            },
        );
    }
    assert_eq!(calls[14], KubeCallRecord::Settle { seconds: 30 });
}

#[test]
fn managed_resource_gets_no_mutation_at_all() {
    let chart = cni_chart();
    let mut kube = runner();
    kube.daemonsets.push(managed_probe_answer());
    let result = chart.pre_exec(&mut kube);
    assert!(result.is_ok());
    let calls = &kube.calls;
    assert_eq!(calls.len(), 2);
    assert!(matches!(calls[0], KubeCallRecord::DeleteCrashLoopingPods { .. }));
    assert!(matches!(calls[1], KubeCallRecord::GetDaemonSet { .. }));
}

#[test]
fn failed_probe_aborts_the_hook_and_mutates_nothing() {
    let chart = cni_chart();
    let mut kube = runner();
    // No scripted answer: the query fails, the ownership state is unknown.
    let result = chart.pre_exec(&mut kube);
    assert!(result.is_err());
    assert!(!kube.calls.iter().any(|c| matches!(
        c,
        KubeCallRecord::Annotate { .. } | KubeCallRecord::Label { .. },
    )));
}

#[test]
fn failed_cleanup_is_best_effort_and_does_not_abort() {
    let chart = cni_chart();
    let mut kube = runner();
    kube.cleanup_ok = false;
    kube.daemonsets.push(legacy_probe_answer());
    let result = chart.pre_exec(&mut kube);
    assert!(result.is_ok());
    // The failed cleanup is recorded, and the adoption still runs in full.
    assert!(matches!(kube.calls[0], KubeCallRecord::DeleteCrashLoopingPods { ok: false, .. }));
    assert_eq!(kube.calls.len(), 1 + 1 + 12 + 1);
    assert_eq!(kube.calls[14], KubeCallRecord::Settle { seconds: 30 });
}

#[test]
fn failed_mutation_aborts_the_adoption() {
    let chart = cni_chart();
    let mut kube = runner();
    kube.mutate_ok = false;
    kube.daemonsets.push(legacy_probe_answer());
    let result = chart.pre_exec(&mut kube);
    assert!(result.is_err());
    // The first mutation failed; nothing further was attempted, no settle.
    assert_eq!(kube.calls.len(), 3);
    assert!(matches!(
        kube.calls[2],
        KubeCallRecord::Annotate { ok: false, .. },
    ));
    assert!(!kube.calls.iter().any(|c| matches!(c, KubeCallRecord::Settle { .. })));
}

#[test]
fn old_version_probe_reads_the_match_labels() {
    let chart = cni_chart();
    let mut kube = runner();
    kube.daemonsets.push(Some(KubeDaemonSet {
        spec: Some(DaemonSetSpec {
            selector: DaemonSetSelector { k8s_app: Some("aws-node".to_string()) },
        }),
        items: None,
    }));
    assert_eq!(chart.is_cni_old_installed_version(&mut kube).unwrap(), true);
    let mut kube2 = runner();
    kube2.daemonsets.push(Some(KubeDaemonSet {
        spec: Some(DaemonSetSpec {
            selector: DaemonSetSelector { k8s_app: Some("other".to_string()) },
        }),
        items: None,
    }));
    assert_eq!(chart.is_cni_old_installed_version(&mut kube2).unwrap(), false);
    let mut kube3 = runner();
    kube3.daemonsets.push(Some(KubeDaemonSet { spec: None, items: None }));
    assert!(chart.is_cni_old_installed_version(&mut kube3).is_err());
}

#[test]
fn managed_probe_requires_an_empty_match() {
    let chart = cni_chart();
    let mut kube = runner();
    kube.daemonsets.push(legacy_probe_answer());
    assert_eq!(chart.enable_cni_managed_by_helm(&mut kube), true);
    let mut kube2 = runner();
    kube2.daemonsets.push(managed_probe_answer());
    assert_eq!(chart.enable_cni_managed_by_helm(&mut kube2), false);
}
