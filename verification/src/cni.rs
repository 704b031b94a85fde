//! The networking-plugin install unit and its ownership-adoption protocol.
//!
//! Before the networking plugin is installed, the live node-agent daemon
//! set may still be managed under a legacy scheme, installed out of band.
//! Installing over it would destroy and recreate it. The adoption protocol
//! probes the live resource and, when it is still legacy-managed, rewrites
//! the ownership metadata of every relevant resource kind with a fixed
//! sequence of idempotent mutations, then waits a fixed settle period so
//! the controller can reconcile before the new install takes over.
//!
//! All cluster accesses go through the [`KubeRunner`] trait, which keeps a
//! ghost log of the calls made, so the protocol's contract states exactly
//! which mutations happen, in which order, for every probe outcome.

use vstd::prelude::*;
use crate::errors::CommandError;
use crate::helm::ChartInfo;

verus! {

/// The label selector of a live daemon set, as far as the protocol reads
/// it: the `k8s-app` match label, if any.
#[derive(Clone, PartialEq, Debug)]
pub struct DaemonSetSelector {
    pub k8s_app: Option<String>,
}

/// The spec of a live daemon set, as far as the protocol reads it.
#[derive(Clone, PartialEq, Debug)]
pub struct DaemonSetSpec {
    pub selector: DaemonSetSelector,
}

/// What a daemon-set query returns: the spec of a single daemon set, or
/// the names of the daemon sets matching a selector.
#[derive(Clone, PartialEq, Debug)]
pub struct KubeDaemonSet {
    pub spec: Option<DaemonSetSpec>,
    pub items: Option<Vec<String>>,
}

/// Mathematical view of a [`KubeDaemonSet`].
pub struct KubeDaemonSetView {
    pub k8s_app: Option<Option<Seq<char>>>,
    pub items: Option<Seq<Seq<char>>>,
}

impl View for KubeDaemonSet {
    type V = KubeDaemonSetView;

    open spec fn view(&self) -> KubeDaemonSetView {
        KubeDaemonSetView {
            k8s_app: match self.spec {
                Some(ref sp) => Some(
                    match sp.selector.k8s_app {
                        Some(ref s) => Some(s@),
                        None => None,
                    },
                ),
                None => None,
            },
            items: match self.items {
                Some(ref v) => Some(v@.map_values(|s: String| s@)),
                None => None,
            },
        }
    }
}

/// One cluster access, as recorded in the ghost log of a [`KubeRunner`].
pub enum KubeCall {
    /// Crash-looping pods matching a selector were deleted (best-effort
    /// cleanup).
    DeleteCrashLoopingPods { namespace: Seq<char>, selector: Seq<char>, ok: bool },
    /// A daemon-set query ran; `result` is what it returned, `None` on
    /// failure.
    GetDaemonSet {
        name: Seq<char>,
        namespace: Seq<char>,
        selector: Option<Seq<char>>,
        result: Option<KubeDaemonSetView>,
    },
    /// An annotation was written, overwrite-safe.
    Annotate { kind: Seq<char>, name: Seq<char>, annotation: Seq<char>, ok: bool },
    /// A label was written, overwrite-safe.
    Label { kind: Seq<char>, name: Seq<char>, label: Seq<char>, ok: bool },
    /// The protocol waited for the controller to reconcile.
    Settle { seconds: u64 },
}

/// The cluster collaborator the adoption protocol runs against, with a
/// ghost log of the calls made so far.
pub trait KubeRunner: Sized {
    /// The calls made so far, oldest first.
    spec fn log(&self) -> Seq<KubeCall>;

    /// Deletes any crash-looping pods matching the selector.
    fn delete_crash_looping_pods(&mut self, namespace: &str, selector: &str) -> (r: Result<
        (),
        CommandError,
    >)
        ensures
            final(self).log() == old(self).log().push(
                KubeCall::DeleteCrashLoopingPods {
                    namespace: namespace@,
                    selector: selector@,
                    ok: r is Ok,
                },
            ),
    ;

    /// Queries a daemon set, optionally filtered by a label selector.
    fn get_daemonset(&mut self, name: &str, namespace: &str, selector: Option<&str>) -> (r:
        Result<KubeDaemonSet, CommandError>)
        ensures
            final(self).log() == old(self).log().push(
                KubeCall::GetDaemonSet {
                    name: name@,
                    namespace: namespace@,
                    selector: match selector {
                        Some(s) => Some(s@),
                        None => None,
                    },
                    result: match r {
                        Ok(ref ds) => Some(ds@),
                        Err(_) => None,
                    },
                },
            ),
    ;

    /// Writes an annotation on a resource, overwriting any previous value.
    fn annotate(&mut self, kind: &str, name: &str, annotation: &str) -> (r: Result<
        (),
        CommandError,
    >)
        ensures
            final(self).log() == old(self).log().push(
                KubeCall::Annotate {
                    kind: kind@,
                    name: name@,
                    annotation: annotation@,
                    ok: r is Ok,
                },
            ),
    ;

    /// Writes a label on a resource, overwriting any previous value.
    fn label(&mut self, kind: &str, name: &str, label: &str) -> (r: Result<(), CommandError>)
        ensures
            final(self).log() == old(self).log().push(
                KubeCall::Label { kind: kind@, name: name@, label: label@, ok: r is Ok },
            ),
    ;

    /// Waits a fixed period for the controller to reconcile.
    fn settle(&mut self, seconds: u64)
        ensures
            final(self).log() == old(self).log().push(KubeCall::Settle { seconds }),
    ;
}

/// The release-name annotation the new install expects.
pub open spec fn release_name_annotation(release_name: Seq<char>) -> Seq<char> {
    "meta.helm.sh/release-name="@ + release_name
}

/// The three idempotent mutations adopting one resource kind, in the fixed
/// order: release-name annotation, release-namespace annotation,
/// managed-by label.
pub open spec fn kind_adoption_calls(kind: Seq<char>, release_name: Seq<char>) -> Seq<KubeCall> {
    seq![
        KubeCall::Annotate {
            kind,
            name: "aws-node"@,
            annotation: release_name_annotation(release_name),
            ok: true,
        },
        KubeCall::Annotate {
            kind,
            name: "aws-node"@,
            annotation: "meta.helm.sh/release-namespace=kube-system"@,
            ok: true,
        },
        KubeCall::Label {
            kind,
            name: "aws-node"@,
            label: "app.kubernetes.io/managed-by=Helm"@,
            ok: true,
        },
    ]
}

/// The resource kinds whose ownership metadata the protocol rewrites, in
/// the order it visits them.
pub open spec fn adoption_kinds() -> Seq<Seq<char>> {
    seq!["daemonSet"@, "clusterRole"@, "clusterRoleBinding"@, "serviceAccount"@]
}

/// All mutations of a fully successful adoption: three per resource kind,
/// kinds in the fixed order.
pub open spec fn adoption_calls(release_name: Seq<char>) -> Seq<KubeCall> {
    kind_adoption_calls(adoption_kinds()[0], release_name) + kind_adoption_calls(
        adoption_kinds()[1],
        release_name,
    ) + kind_adoption_calls(adoption_kinds()[2], release_name) + kind_adoption_calls(
        adoption_kinds()[3],
        release_name,
    )
}

/// The same call with its outcome turned into a failure.
pub open spec fn failed_call(call: KubeCall) -> KubeCall {
    match call {
        KubeCall::Annotate { kind, name, annotation, .. } => KubeCall::Annotate {
            kind,
            name,
            annotation,
            ok: false,
        },
        KubeCall::Label { kind, name, label, .. } => KubeCall::Label {
            kind,
            name,
            label,
            ok: false,
        },
        _ => call,
    }
}

/// What the daemon-set probe for the management scheme answers: the
/// resource is still legacy-managed exactly when the query succeeded and
/// no daemon set carried the new scheme's labels.
pub open spec fn legacy_managed(result: Option<KubeDaemonSetView>) -> bool {
    match result {
        Some(ds) => match ds.items {
            Some(items) => items.len() == 0,
            None => false,
        },
        None => false,
    }
}

/// What an adoption run appends to the runner's log after its probe, and
/// how its result relates to it. A legacy-managed resource gets the full
/// mutation sequence and the settle wait — or the successful prefix up to
/// the first failing mutation, which aborts the run. A resource already
/// managed under the new scheme gets no mutation at all.
pub open spec fn adoption_trace_ok(
    release_name: Seq<char>,
    managed_legacy: bool,
    appended: Seq<KubeCall>,
    r_ok: bool,
) -> bool {
    if !managed_legacy {
        appended.len() == 0 && r_ok
    } else if r_ok {
        appended == adoption_calls(release_name).push(KubeCall::Settle { seconds: 30 })
    } else {
        exists|k: int|
            0 <= k < adoption_calls(release_name).len() && appended == #[trigger] adoption_calls(
                release_name,
            ).take(k).push(failed_call(adoption_calls(release_name)[k]))
    }
}

/// The networking-plugin unit, carrying the ownership-adoption hook.
#[derive(Clone, Debug)]
pub struct AwsVpcCniChart {
    pub chart_info: ChartInfo,
}

impl AwsVpcCniChart {
    /// The unit's configuration.
    pub fn get_chart_info(&self) -> (r: &ChartInfo)
        ensures
            r@ == self.chart_info@,
    {
        &self.chart_info
    }

    /// Probes whether the live node-agent daemon set still carries the old
    /// install's own label scheme, which decides whether existing
    /// annotation and label values must be kept. Fails when the daemon set
    /// cannot be read or reports no spec.
    pub fn is_cni_old_installed_version<K: KubeRunner>(&self, runner: &mut K) -> (r: Result<
        bool,
        CommandError,
    >)
        ensures
            final(runner).log().len() == old(runner).log().len() + 1,
            final(runner).log().take(old(runner).log().len() as int) == old(runner).log(),
            final(runner).log().last() matches KubeCall::GetDaemonSet {
                name,
                namespace,
                selector,
                result,
            } && {
                &&& name == "aws-node"@
                &&& namespace == namespace_string_view(self.chart_info@)
                &&& selector is None
                &&& match result {
                    None => r is Err,
                    Some(ds) => match ds.k8s_app {
                        None => r is Err,
                        Some(k8s_app) => r matches Ok(b) && (b <==> k8s_app == Some(
                            "aws-node"@,
                        )),
                    },
                }
            },
    {
        let namespace = self.chart_info.get_namespace_string();
        let queried = runner.get_daemonset("aws-node", namespace.as_str(), None);
        proof {
            assert(final(runner).log().take(old(runner).log().len() as int) =~= old(
                runner,
            ).log());
        }
        match queried {
            Ok(ds) => match ds.spec {
                None => Err(
                    CommandError::new_from_safe_message(
                        String::from_str(
                            "spec was not found in the daemon set while probing the networking plugin",
                        ),
                    ),
                ),
                Some(spec) => match spec.selector.k8s_app {
                    Some(k8s_app) => Ok(k8s_app.eq(&String::from_str("aws-node"))),
                    None => Ok(false),
                },
            },
            Err(e) => Err(e),
        }
    }

    /// Probes whether the live resource is still managed under the legacy
    /// scheme: true exactly when the filtered query succeeds and no daemon
    /// set carries the new scheme's labels, so ownership must be adopted
    /// before install. A failed query answers false; a caller that must
    /// distinguish a failed query queries the daemon set itself.
    pub fn enable_cni_managed_by_helm<K: KubeRunner>(&self, runner: &mut K) -> (r: bool)
        ensures
            final(runner).log().len() == old(runner).log().len() + 1,
            final(runner).log().take(old(runner).log().len() as int) == old(runner).log(),
            final(runner).log().last() matches KubeCall::GetDaemonSet {
                name,
                namespace,
                selector,
                result,
            } && {
                &&& name == self.chart_info@.name
                &&& namespace == namespace_string_view(self.chart_info@)
                &&& selector == Some("k8s-app=aws-node,app.kubernetes.io/managed-by=Helm"@)
                &&& r == legacy_managed(result)
            },
    {
        let namespace = self.chart_info.get_namespace_string();
        let queried = runner.get_daemonset(
            self.chart_info.name.as_str(),
            namespace.as_str(),
            Some("k8s-app=aws-node,app.kubernetes.io/managed-by=Helm"),
        );
        proof {
            assert(final(runner).log().take(old(runner).log().len() as int) =~= old(
                runner,
            ).log());
        }
        match queried {
            Ok(ds) => match ds.items {
                Some(items) => items.len() == 0,
                None => false,
            },
            Err(_) => false,
        }
    }

    /// Rewrites the ownership metadata of one resource kind: the
    /// release-name annotation, the release-namespace annotation, then the
    /// managed-by label. Stops at the first failure.
    fn adopt_kind<K: KubeRunner>(runner: &mut K, kind: &str, release_name: &str) -> (r: Result<
        (),
        CommandError,
    >)
        ensures
            final(runner).log().len() >= old(runner).log().len(),
            final(runner).log().take(old(runner).log().len() as int) == old(runner).log(),
            r is Ok ==> final(runner).log().skip(old(runner).log().len() as int)
                == kind_adoption_calls(kind@, release_name@),
            r is Err ==> exists|k: int|
                0 <= k < 3 && final(runner).log().skip(old(runner).log().len() as int)
                    == #[trigger] kind_adoption_calls(kind@, release_name@).take(k).push(
                    failed_call(kind_adoption_calls(kind@, release_name@)[k]),
                ),
    {
        let ghost base_log = runner.log();
        let ghost calls = kind_adoption_calls(kind@, release_name@);
        let mut release_annotation = String::new();
        release_annotation.append("meta.helm.sh/release-name=");
        release_annotation.append(release_name);
        proof {
            assert(release_annotation@ =~= release_name_annotation(release_name@));
        }
        let r1 = runner.annotate(kind, "aws-node", release_annotation.as_str());
        proof {
            assert(runner.log().take(base_log.len() as int) =~= base_log);
        }
        if r1.is_err() {
            proof {
                assert(runner.log().skip(base_log.len() as int) =~= calls.take(0).push(
                    failed_call(calls[0]),
                ));
            }
            return r1;
        }
        let r2 = runner.annotate(kind, "aws-node", "meta.helm.sh/release-namespace=kube-system");
        proof {
            assert(runner.log().take(base_log.len() as int) =~= base_log);
        }
        if r2.is_err() {
            proof {
                assert(runner.log().skip(base_log.len() as int) =~= calls.take(1).push(
                    failed_call(calls[1]),
                ));
            }
            return r2;
        }
        let r3 = runner.label(kind, "aws-node", "app.kubernetes.io/managed-by=Helm");
        proof {
            assert(runner.log().take(base_log.len() as int) =~= base_log);
        }
        if r3.is_err() {
            proof {
                assert(runner.log().skip(base_log.len() as int) =~= calls.take(2).push(
                    failed_call(calls[2]),
                ));
            }
            return r3;
        }
        proof {
            assert(runner.log().skip(base_log.len() as int) =~= calls);
        }
        Ok(())
    }

    /// The ownership-adoption pre-apply hook. First the cleanup:
    /// crash-looping pods matching the unit's selector are deleted —
    /// best-effort, a failure is recorded but never aborts the hook. Then
    /// the management probe; a failed probe aborts with an explicit error,
    /// because rewriting a resource in an unknown ownership state is
    /// unsafe. If the live resource is still legacy-managed, every
    /// relevant resource kind gets the three ownership mutations in the
    /// fixed order, followed by a thirty-second settle wait, before the
    /// install proceeds. If it is already managed under the new scheme,
    /// nothing is mutated. Any mutation failure aborts the hook with its
    /// error; the hook is never retried automatically.
    pub fn pre_exec<K: KubeRunner>(&self, runner: &mut K) -> (r: Result<(), CommandError>)
        ensures
            final(runner).log().len() >= old(runner).log().len(),
            final(runner).log().take(old(runner).log().len() as int) == old(runner).log(),
            ({
                let appended = final(runner).log().skip(old(runner).log().len() as int);
                let cleanup: int = if self.chart_info@.selector is Some {
                    1int
                } else {
                    0int
                };
                &&& appended.len() >= cleanup + 1
                &&& (self.chart_info@.selector matches Some(sel) ==> appended[0]
                    == (KubeCall::DeleteCrashLoopingPods {
                    namespace: namespace_string_view(self.chart_info@),
                    selector: sel,
                    ok: appended[0]->DeleteCrashLoopingPods_ok,
                }))
                &&& appended[cleanup] matches KubeCall::GetDaemonSet { result, .. } && match result {
                    None => appended.len() == cleanup + 1 && r is Err,
                    Some(_) => adoption_trace_ok(
                        self.chart_info@.name,
                        legacy_managed(result),
                        appended.skip(cleanup + 1),
                        r is Ok,
                    ),
                }
            }),
    {
        let ghost base_log = runner.log();
        let namespace = self.chart_info.get_namespace_string();
        proof {
            assert(namespace@ == namespace_string_view(self.chart_info@));
        }
        // Cleanup of crash-looping pods before touching the live
        // resource: best-effort, a failure is recorded and nothing more.
        if let Some(ref selector) = self.chart_info.selector {
            let _cleanup_result = runner.delete_crash_looping_pods(
                namespace.as_str(),
                selector.as_str(),
            );
            proof {
                assert(runner.log().take(base_log.len() as int) =~= base_log);
                assert(runner.log().last() matches KubeCall::DeleteCrashLoopingPods {
                    namespace: ns,
                    selector: sel,
                    ..
                } && ns == namespace_string_view(self.chart_info@) && sel
                    == self.chart_info@.selector->0);
            }
        }
        let ghost log_cleanup = runner.log();
        // The management probe decides everything that follows; a failure
        // leaves the ownership state unknown and aborts the hook.
        let probe = runner.get_daemonset(
            self.chart_info.name.as_str(),
            namespace.as_str(),
            Some("k8s-app=aws-node,app.kubernetes.io/managed-by=Helm"),
        );
        let ghost log_probe = runner.log();
        let ghost cleanup: int = if self.chart_info@.selector is Some {
            1int
        } else {
            0int
        };
        proof {
            assert(runner.log().take(base_log.len() as int) =~= base_log);
            assert(runner.log().take(log_cleanup.len() as int) =~= log_cleanup);
            assert(log_probe.len() == base_log.len() + cleanup + 1);
            if cleanup == 1 {
                assert(log_probe[base_log.len() as int] == log_cleanup.last());
            }
        }
        let daemonset = match probe {
            Ok(ds) => ds,
            Err(e) => {
                proof {
                    let appended = runner.log().skip(base_log.len() as int);
                    assert(appended[cleanup] == log_probe.last());
                    if cleanup == 1 {
                        assert(appended[0] == log_cleanup.last());
                    }
                    assert(appended.len() == cleanup + 1);
                }
                return Err(e);
            },
        };
        let managed_legacy = match daemonset.items {
            Some(ref items) => items.len() == 0,
            None => false,
        };
        if !managed_legacy {
            proof {
                let appended = runner.log().skip(base_log.len() as int);
                assert(appended[cleanup] == log_probe.last());
                if cleanup == 1 {
                    assert(appended[0] == log_cleanup.last());
                }
                assert(appended.skip(cleanup + 1) =~= Seq::<KubeCall>::empty());
            }
            return Ok(());
        }
        let kinds: [&'static str; 4] = ["daemonSet", "clusterRole", "clusterRoleBinding", "serviceAccount"];
        let ghost all_calls = adoption_calls(self.chart_info@.name);
        proof {
            assert(all_calls =~= kind_adoption_calls("daemonSet"@, self.chart_info@.name)
                + kind_adoption_calls("clusterRole"@, self.chart_info@.name)
                + kind_adoption_calls("clusterRoleBinding"@, self.chart_info@.name)
                + kind_adoption_calls("serviceAccount"@, self.chart_info@.name));
            assert forall|j: int| 0 <= j < 4 implies all_calls.subrange(3 * j, 3 * j + 3)
                == kind_adoption_calls(kinds@[j]@, self.chart_info@.name) by {
                assert(all_calls.subrange(3 * j, 3 * j + 3) =~= kind_adoption_calls(
                    kinds@[j]@,
                    self.chart_info@.name,
                ));
            }
        }
        let mut k: usize = 0;
        while k < 4
            invariant
                0 <= k <= 4,
                base_log == old(runner).log(),
                self.chart_info@.selector is Some <==> cleanup == 1,
                self.chart_info@.selector is None <==> cleanup == 0,
                log_probe.len() == base_log.len() + cleanup + 1,
                log_probe.take(base_log.len() as int) == base_log,
                cleanup == 1 ==> (log_probe[base_log.len() as int] matches
                    KubeCall::DeleteCrashLoopingPods { namespace: ns, selector: sel, .. } && ns
                    == namespace_string_view(self.chart_info@) && sel
                    == self.chart_info@.selector->0),
                log_probe.last() matches KubeCall::GetDaemonSet { result, .. }
                    && legacy_managed(result),
                all_calls == adoption_calls(self.chart_info@.name),
                all_calls.len() == 12,
                kinds@.len() == 4,
                forall|j: int|
                    0 <= j < 4 ==> all_calls.subrange(3 * j, 3 * j + 3) == kind_adoption_calls(
                        kinds@[j]@,
                        self.chart_info@.name,
                    ),
                runner.log().len() >= log_probe.len(),
                runner.log().take(log_probe.len() as int) == log_probe,
                runner.log().skip(log_probe.len() as int) == all_calls.take(3 * k),
            decreases 4 - k,
        {
            proof {
                assert(all_calls.subrange(3 * k, 3 * k + 3) == kind_adoption_calls(
                    kinds@[k as int]@,
                    self.chart_info@.name,
                ));
            }
            let ghost log_k = runner.log();
            let adopted = Self::adopt_kind(runner, kinds[k], self.chart_info.name.as_str());
            let ghost kc = kind_adoption_calls(kinds@[k as int]@, self.chart_info@.name);
            proof {
                assert(runner.log().take(log_k.len() as int) == log_k);
                assert(log_k.skip(log_probe.len() as int) == all_calls.take(3 * k));
            }
            match adopted {
                Ok(_) => {
                    proof {
                        assert(runner.log() =~= log_k + kc);
                        assert(runner.log().take(log_probe.len() as int) =~= log_probe);
                        assert(all_calls.take(3 * (k + 1)) =~= all_calls.take(3 * k)
                            + all_calls.subrange(3 * k, 3 * k + 3));
                        assert(runner.log().skip(log_probe.len() as int) =~= all_calls.take(3 * k)
                            + all_calls.subrange(3 * k, 3 * k + 3));
                    }
                },
                Err(e) => {
                    proof {
                        let kk = choose|kk: int|
                            0 <= kk < 3 && runner.log().skip(log_k.len() as int)
                                == #[trigger] kc.take(kk).push(failed_call(kc[kk]));
                        assert(runner.log() =~= log_k + kc.take(kk).push(failed_call(kc[kk])));
                        assert(runner.log().take(log_probe.len() as int) =~= log_probe);
                        assert(runner.log().take(base_log.len() as int) =~= base_log);
                        assert(all_calls[3 * k + kk] == all_calls.subrange(3 * k, 3 * k + 3)[kk]);
                        assert(all_calls[3 * k + kk] == kc[kk]);
                        assert(all_calls.take(3 * k + kk) =~= all_calls.take(3 * k) + kc.take(kk));
                        assert(runner.log().skip(log_probe.len() as int) =~= all_calls.take(
                            3 * k + kk,
                        ).push(failed_call(all_calls[3 * k + kk])));
                        assert(adoption_trace_ok(
                            self.chart_info@.name,
                            true,
                            runner.log().skip(log_probe.len() as int),
                            false,
                        ));
                        let appended = runner.log().skip(base_log.len() as int);
                        assert(appended[cleanup] == log_probe.last());
                        if cleanup == 1 {
                            assert(appended[0] == log_probe[base_log.len() as int]);
                        }
                        assert(appended.skip(cleanup + 1) =~= runner.log().skip(
                            log_probe.len() as int,
                        ));
                    }
                    return Err(e);
                },
            }
            k += 1;
        }
        let ghost log_full = runner.log();
        runner.settle(30);
        proof {
            assert(runner.log() =~= log_full.push(KubeCall::Settle { seconds: 30 }));
            assert(runner.log().take(base_log.len() as int) =~= base_log);
            assert(runner.log().take(log_probe.len() as int) =~= log_probe);
            assert(all_calls.take(12) =~= all_calls);
            assert(runner.log().skip(log_probe.len() as int) =~= all_calls.push(
                KubeCall::Settle { seconds: 30 },
            ));
            let appended = runner.log().skip(base_log.len() as int);
            assert(appended[cleanup] == log_probe.last());
            if cleanup == 1 {
                assert(appended[0] == log_probe[base_log.len() as int]);
            }
            assert(appended.skip(cleanup + 1) =~= runner.log().skip(log_probe.len() as int));
        }
        Ok(())
    }
}

/// The string form of a unit's namespace, for contracts: the custom
/// namespace when one is set, else the fixed namespace's name.
pub open spec fn namespace_string_view(info: crate::helm::ChartInfoView) -> Seq<char> {
    if info.namespace == crate::helm::HelmChartNamespaces::Custom && info.custom_namespace
        is Some {
        info.custom_namespace->0
    } else {
        crate::helm::namespace_view(info.namespace)
    }
}

/// Law: with the legacy-label probe answering true, a successful adoption
/// makes exactly three mutating calls per resource kind — the release-name
/// annotation, the release-namespace annotation, then the managed-by
/// label, in that order — followed by the settle wait; with the probe
/// answering false, it makes no call at all.
pub proof fn lemma_adoption_mutations(release_name: Seq<char>, appended: Seq<KubeCall>)
    requires
        adoption_trace_ok(release_name, true, appended, true),
    ensures
        appended.len() == 13,
        forall|j: int|
            0 <= j < 4 ==> appended.subrange(3 * j, 3 * j + 3) == kind_adoption_calls(
                #[trigger] adoption_kinds()[j],
                release_name,
            ),
        appended.last() == (KubeCall::Settle { seconds: 30 }),
{
    let calls = adoption_calls(release_name);
    assert(appended.len() == 13);
    assert forall|j: int| 0 <= j < 4 implies appended.subrange(3 * j, 3 * j + 3)
        == kind_adoption_calls(#[trigger] adoption_kinds()[j], release_name) by {
        assert(appended.subrange(3 * j, 3 * j + 3) =~= kind_adoption_calls(
            adoption_kinds()[j],
            release_name,
        ));
    }
}

} // verus!

verus! {

/// One cluster access, as a plain value a recording runner can store.
#[derive(Clone, PartialEq, Debug)]
pub enum KubeCallRecord {
    DeleteCrashLoopingPods { namespace: String, selector: String, ok: bool },
    GetDaemonSet {
        name: String,
        namespace: String,
        selector: Option<String>,
        result: Option<KubeDaemonSet>,
    },
    Annotate { kind: String, name: String, annotation: String, ok: bool },
    Label { kind: String, name: String, label: String, ok: bool },
    Settle { seconds: u64 },
}

impl View for KubeCallRecord {
    type V = KubeCall;

    open spec fn view(&self) -> KubeCall {
        match self {
            KubeCallRecord::DeleteCrashLoopingPods { namespace, selector, ok } =>
                KubeCall::DeleteCrashLoopingPods {
                namespace: namespace@,
                selector: selector@,
                ok: *ok,
            },
            KubeCallRecord::GetDaemonSet { name, namespace, selector, result } =>
                KubeCall::GetDaemonSet {
                name: name@,
                namespace: namespace@,
                selector: match selector {
                    Some(s) => Some(s@),
                    None => None,
                },
                result: match result {
                    Some(ds) => Some(ds@),
                    None => None,
                },
            },
            KubeCallRecord::Annotate { kind, name, annotation, ok } => KubeCall::Annotate {
                kind: kind@,
                name: name@,
                annotation: annotation@,
                ok: *ok,
            },
            KubeCallRecord::Label { kind, name, label, ok } => KubeCall::Label {
                kind: kind@,
                name: name@,
                label: label@,
                ok: *ok,
            },
            KubeCallRecord::Settle { seconds } => KubeCall::Settle { seconds: *seconds },
        }
    }
}

/// Copies a daemon-set value.
fn duplicate_daemonset(ds: &KubeDaemonSet) -> (r: KubeDaemonSet)
    ensures
        r@ == ds@,
{
    let spec_copy: Option<DaemonSetSpec> = match ds.spec {
        Some(ref sp) => Some(
            DaemonSetSpec {
                selector: DaemonSetSelector {
                    k8s_app: match sp.selector.k8s_app {
                        Some(ref s) => Some(s.clone()),
                        None => None,
                    },
                },
            },
        ),
        None => None,
    };
    let items_copy: Option<Vec<String>> = match ds.items {
        Some(ref v) => {
            let mut out: Vec<String> = Vec::new();
            let mut i: usize = 0;
            while i < v.len()
                invariant
                    0 <= i <= v.len(),
                    out@.len() == i,
                    forall|j: int| 0 <= j < i ==> (#[trigger] out@[j])@ == v@[j]@,
                decreases v.len() - i,
            {
                out.push(v[i].clone());
                i += 1;
            }
            proof {
                assert(out@.map_values(|s: String| s@) =~= v@.map_values(|s: String| s@));
            }
            Some(out)
        },
        None => None,
    };
    let r = KubeDaemonSet { spec: spec_copy, items: items_copy };
    r
}

/// A cluster runner whose queries answer from a pre-set script and which
/// records every call; the crate's tests drive the adoption protocol
/// against it.
pub struct ScriptedKube {
    /// Script: outcome of the crash-looping-pod cleanup.
    pub cleanup_ok: bool,
    /// Script: outcome of every annotate and label call.
    pub mutate_ok: bool,
    /// Script: the answers of the daemon-set queries, oldest first; an
    /// exhausted script answers with an error.
    pub daemonsets: Vec<Option<KubeDaemonSet>>,
    /// Every call made so far, oldest first.
    pub calls: Vec<KubeCallRecord>,
}

impl ScriptedKube {
    /// Records one call.
    fn record(&mut self, call: KubeCallRecord)
        ensures
            final(self).log() == old(self).log().push(call@),
            final(self).cleanup_ok == old(self).cleanup_ok,
            final(self).mutate_ok == old(self).mutate_ok,
    {
        self.calls.push(call);
        proof {
            assert(self.log() =~= old(self).log().push(self.calls@.last()@));
        }
    }
}

impl KubeRunner for ScriptedKube {
    open spec fn log(&self) -> Seq<KubeCall> {
        self.calls@.map_values(|c: KubeCallRecord| c@)
    }

    fn delete_crash_looping_pods(&mut self, namespace: &str, selector: &str) -> (r: Result<
        (),
        CommandError,
    >) {
        let ok = self.cleanup_ok;
        self.record(
            KubeCallRecord::DeleteCrashLoopingPods {
                namespace: namespace.to_owned(),
                selector: selector.to_owned(),
                ok,
            },
        );
        if ok {
            Ok(())
        } else {
            Err(
                CommandError::new_from_safe_message(
                    String::from_str("failed to delete crash-looping pods"),
                ),
            )
        }
    }

    fn get_daemonset(&mut self, name: &str, namespace: &str, selector: Option<&str>) -> (r:
        Result<KubeDaemonSet, CommandError>) {
        let scripted: Option<KubeDaemonSet> = if self.daemonsets.len() > 0 {
            self.daemonsets.remove(0)
        } else {
            None
        };
        let selector_copy: Option<String> = match selector {
            Some(s) => Some(s.to_owned()),
            None => None,
        };
        match scripted {
            Some(ds) => {
                let result_copy = duplicate_daemonset(&ds);
                self.record(
                    KubeCallRecord::GetDaemonSet {
                        name: name.to_owned(),
                        namespace: namespace.to_owned(),
                        selector: selector_copy,
                        result: Some(result_copy),
                    },
                );
                Ok(ds)
            },
            None => {
                self.record(
                    KubeCallRecord::GetDaemonSet {
                        name: name.to_owned(),
                        namespace: namespace.to_owned(),
                        selector: selector_copy,
                        result: None,
                    },
                );
                Err(
                    CommandError::new_from_safe_message(
                        String::from_str("failed to query the daemon set"),
                    ),
                )
            },
        }
    }

    fn annotate(&mut self, kind: &str, name: &str, annotation: &str) -> (r: Result<
        (),
        CommandError,
    >) {
        let ok = self.mutate_ok;
        self.record(
            KubeCallRecord::Annotate {
                kind: kind.to_owned(),
                name: name.to_owned(),
                annotation: annotation.to_owned(),
                ok,
            },
        );
        if ok {
            Ok(())
        } else {
            Err(CommandError::new_from_safe_message(String::from_str("failed to annotate")))
        }
    }

    fn label(&mut self, kind: &str, name: &str, label: &str) -> (r: Result<(), CommandError>) {
        let ok = self.mutate_ok;
        self.record(
            KubeCallRecord::Label {
                kind: kind.to_owned(),
                name: name.to_owned(),
                label: label.to_owned(),
                ok,
            },
        );
        if ok {
            Ok(())
        } else {
            Err(CommandError::new_from_safe_message(String::from_str("failed to label")))
        }
    }

    fn settle(&mut self, seconds: u64) {
        self.record(KubeCallRecord::Settle { seconds });
    }
}

} // verus!
