//! The leveled install plan for a managed cluster: every platform add-on
//! with its fully resolved configuration, partitioned into ordered levels.
//!
//! Levels reflect real dependency order: identity and storage-class units
//! first, the certificate authority next, autoscaling next, metrics, log,
//! DNS and node-lifecycle units next, ingress next, and everything that
//! depends on ingress, certificates or agents last. Feature flags append
//! units to specific levels. Callers apply levels strictly in order; units
//! within one level carry no ordering guarantee.

use vstd::prelude::*;
use crate::cni::AwsVpcCniChart;
use crate::dns::DnsProviderConfiguration;
use crate::errors::CommandError;
use crate::helm::{
    ChartInfo,
    ChartSetValue,
    ChartValuesGenerated,
    CommonChart,
    CoreDNSConfigChart,
    CrdsUpdate,
    HelmAction,
    HelmChartNamespaces,
    HelmUnit,
    UnitVersion,
    level_names,
};
use crate::text::{bool_to_string, bool_view, decimal_view, u64_to_string};

verus! {

/// The provisioned credentials and identities read from the rendered
/// infrastructure configuration, consumed when units are built.
#[derive(Clone, Debug)]
pub struct AwsEksQoveryTerraformConfig {
    pub aws_iam_eks_user_mapper_key: String,
    pub aws_iam_eks_user_mapper_secret: String,
    pub aws_iam_cluster_autoscaler_key: String,
    pub aws_iam_cluster_autoscaler_secret: String,
    pub aws_iam_cloudwatch_key: String,
    pub aws_iam_cloudwatch_secret: String,
    pub loki_storage_config_aws_s3: String,
    pub aws_iam_loki_storage_key: String,
    pub aws_iam_loki_storage_secret: String,
}

/// How the cluster's network is provisioned.
#[derive(Clone, Copy, PartialEq, Eq, Structural, Debug)]
pub enum VpcQoveryNetworkMode {
    WithNatGateways,
    WithoutNatGateways,
}

/// Where the orchestration engine runs.
#[derive(Clone, Copy, PartialEq, Eq, Structural, Debug)]
pub enum EngineLocation {
    ClientSide,
    QoverySide,
}

/// The engine unit is installed only when the engine runs cluster-side;
/// otherwise a previous install is destroyed.
pub open spec fn engine_action_view(location: EngineLocation) -> HelmAction {
    match location {
        EngineLocation::ClientSide => HelmAction::Deploy,
        EngineLocation::QoverySide => HelmAction::Destroy,
    }
}

/// The engine unit's apply action for an engine location.
pub fn get_engine_helm_action_from_location(location: &EngineLocation) -> (r: HelmAction)
    ensures
        r == engine_action_view(*location),
{
    match location {
        EngineLocation::ClientSide => HelmAction::Deploy,
        EngineLocation::QoverySide => HelmAction::Destroy,
    }
}

/// Control-plane endpoints and credentials consumed by the agent and
/// engine units.
#[derive(Clone, Debug)]
pub struct Options {
    pub qovery_api_url: String,
    pub qovery_grpc_url: String,
    pub agent_version_controller_token: String,
    pub engine_version_controller_token: String,
    pub jwt_token: String,
    pub qovery_nats_url: String,
    pub qovery_nats_user: String,
    pub qovery_nats_password: String,
}

/// Tunable cluster settings consumed by the plan.
#[derive(Clone, Debug)]
pub struct ClusterAdvancedSettings {
    pub aws_iam_user_mapper_group_name: String,
    pub loki_log_retention_in_week: u32,
    pub registry_image_retention_time_sec: u64,
    pub pleco_resources_ttl: u32,
}

/// Everything the plan construction needs about the target cluster.
#[derive(Clone, Debug)]
pub struct EksChartsConfigPrerequisites {
    pub organization_id: String,
    pub organization_long_id: u128,
    pub cluster_id: String,
    pub cluster_long_id: u128,
    pub region: String,
    pub cluster_name: String,
    pub cloud_provider: String,
    pub test_cluster: bool,
    pub aws_access_key_id: String,
    pub aws_secret_access_key: String,
    pub vpc_qovery_network_mode: VpcQoveryNetworkMode,
    pub qovery_engine_location: EngineLocation,
    pub ff_log_history_enabled: bool,
    pub ff_metrics_history_enabled: bool,
    pub managed_dns_name: String,
    pub managed_dns_helm_format: String,
    pub managed_dns_resolvers_terraform_format: String,
    pub external_dns_provider: String,
    pub dns_email_report: String,
    pub acme_url: String,
    pub dns_provider_config: DnsProviderConfiguration,
    pub disable_pleco: bool,
    pub infra_options: Options,
    pub cluster_advanced_settings: ClusterAdvancedSettings,
}

/// The path of a chart below the chart prefix.
fn chart_path(prefix: &str, chart: &str) -> (r: String)
    ensures
        r@ == prefix@ + "/"@ + chart@,
{
    let mut s = String::new();
    s.append(prefix);
    s.append("/");
    s.append(chart);
    assert(s@ =~= prefix@ + "/"@ + chart@);
    s
}

/// One `key=value` override.
fn set_value(key: &'static str, value: String) -> (r: ChartSetValue)
    ensures
        r@ == (key@, value@),
{
    ChartSetValue { key: key.to_owned(), value }
}

/// One `key=value` override with a fixed value.
fn set_value_static(key: &'static str, value: &'static str) -> (r: ChartSetValue)
    ensures
        r@ == (key@, value@),
{
    ChartSetValue { key: key.to_owned(), value: value.to_owned() }
}

/// The `<weeks>w` retention value consumed by the log store.
fn weeks_value(weeks: u32) -> (r: String)
    ensures
        r@ == decimal_view(weeks as int) + "w"@,
{
    let mut s = u64_to_string(weeks as u64);
    s.append("w");
    assert(s@ =~= decimal_view(weeks as int) + "w"@);
    s
}

/// The storage-class unit.
fn q_storage_class_chart(prefix: &str) -> (r: CommonChart)
    ensures
        r.chart_info@.name == "q-storageclass"@,
        r.chart_info@.path == prefix@ + "/"@ + "/charts/q-storageclass"@,
        r.chart_info@.namespace == HelmChartNamespaces::KubeSystem,
        r.chart_info@.values.len() == 0,
{
    CommonChart {
        chart_info: ChartInfo::new_with_defaults(
            String::from_str("q-storageclass"),
            chart_path(prefix, "/charts/q-storageclass"),
        ),
    }
}

/// The networking-plugin unit; `original_match_labels` keeps the previous
/// install's labels when the live daemon set still carries the old label
/// scheme.
fn aws_vpc_cni_chart(
    prefix: &str,
    region: &str,
    cluster_name: &str,
    original_match_labels: bool,
) -> (r: AwsVpcCniChart)
    ensures
        r.chart_info@.name == "aws-vpc-cni"@,
        r.chart_info@.path == prefix@ + "/"@ + "charts/aws-vpc-cni"@,
        r.chart_info@.namespace == HelmChartNamespaces::KubeSystem,
        r.chart_info@.values == seq![
            ("image.region"@, region@),
            ("init.image.region"@, region@),
            ("image.pullPolicy"@, "IfNotPresent"@),
            ("crd.create"@, "false"@),
            ("env.CLUSTER_NAME"@, cluster_name@),
            ("env.MINIMUM_IP_TARGET"@, "60"@),
            ("env.WARM_IP_TARGET"@, "10"@),
            ("env.MAX_ENI"@, "100"@),
            ("resources.requests.cpu"@, "50m"@),
            ("originalMatchLabels"@, bool_view(original_match_labels)),
        ],
{
    let mut chart_info = ChartInfo::new_with_defaults(
        String::from_str("aws-vpc-cni"),
        chart_path(prefix, "charts/aws-vpc-cni"),
    );
    proof {
        assert(chart_info@.values.len() == 0);
        assert(chart_info.values@.len() == 0);
    }
    chart_info.values.push(set_value("image.region", region.to_owned()));
    chart_info.values.push(set_value("init.image.region", region.to_owned()));
    chart_info.values.push(set_value_static("image.pullPolicy", "IfNotPresent"));
    chart_info.values.push(set_value_static("crd.create", "false"));
    chart_info.values.push(set_value("env.CLUSTER_NAME", cluster_name.to_owned()));
    chart_info.values.push(set_value_static("env.MINIMUM_IP_TARGET", "60"));
    chart_info.values.push(set_value_static("env.WARM_IP_TARGET", "10"));
    chart_info.values.push(set_value_static("env.MAX_ENI", "100"));
    chart_info.values.push(set_value_static("resources.requests.cpu", "50m"));
    chart_info.values.push(
        set_value("originalMatchLabels", bool_to_string(original_match_labels).to_owned()),
    );
    let r = AwsVpcCniChart { chart_info };
    proof {
        assert(r.chart_info@.values =~~= seq![
            ("image.region"@, region@),
            ("init.image.region"@, region@),
            ("image.pullPolicy"@, "IfNotPresent"@),
            ("crd.create"@, "false"@),
            ("env.CLUSTER_NAME"@, cluster_name@),
            ("env.MINIMUM_IP_TARGET"@, "60"@),
            ("env.WARM_IP_TARGET"@, "10"@),
            ("env.MAX_ENI"@, "100"@),
            ("resources.requests.cpu"@, "50m"@),
            ("originalMatchLabels"@, bool_view(original_match_labels)),
        ]);
    }
    r
}

/// The identity-mapper unit, carrying its provisioned access keys.
fn aws_iam_eks_user_mapper_chart(
    prefix: &str,
    config: &AwsEksQoveryTerraformConfig,
    region: &str,
    sync_iam_group: &str,
) -> (r: CommonChart)
    ensures
        r.chart_info@.name == "iam-eks-user-mapper"@,
        r.chart_info@.path == prefix@ + "/"@ + "charts/iam-eks-user-mapper"@,
        r.chart_info@.namespace == HelmChartNamespaces::KubeSystem,
        r.chart_info@.values == seq![
            ("aws.accessKey"@, config.aws_iam_eks_user_mapper_key@),
            ("aws.secretKey"@, config.aws_iam_eks_user_mapper_secret@),
            ("aws.region"@, region@),
            ("syncIamGroup"@, sync_iam_group@),
            ("resources.limits.cpu"@, "20m"@),
            ("resources.requests.cpu"@, "10m"@),
            ("resources.limits.memory"@, "32Mi"@),
            ("resources.requests.memory"@, "32Mi"@),
        ],
{
    let mut chart_info = ChartInfo::new_with_defaults(
        String::from_str("iam-eks-user-mapper"),
        chart_path(prefix, "charts/iam-eks-user-mapper"),
    );
    proof {
        assert(chart_info@.values.len() == 0);
        assert(chart_info.values@.len() == 0);
    }
    chart_info.values.push(
        set_value("aws.accessKey", config.aws_iam_eks_user_mapper_key.clone()),
    );
    chart_info.values.push(
        set_value("aws.secretKey", config.aws_iam_eks_user_mapper_secret.clone()),
    );
    chart_info.values.push(set_value("aws.region", region.to_owned()));
    chart_info.values.push(set_value("syncIamGroup", sync_iam_group.to_owned()));
    chart_info.values.push(set_value_static("resources.limits.cpu", "20m"));
    chart_info.values.push(set_value_static("resources.requests.cpu", "10m"));
    chart_info.values.push(set_value_static("resources.limits.memory", "32Mi"));
    chart_info.values.push(set_value_static("resources.requests.memory", "32Mi"));
    let r = CommonChart { chart_info };
    proof {
        assert(r.chart_info@.values =~~= seq![
            ("aws.accessKey"@, config.aws_iam_eks_user_mapper_key@),
            ("aws.secretKey"@, config.aws_iam_eks_user_mapper_secret@),
            ("aws.region"@, region@),
            ("syncIamGroup"@, sync_iam_group@),
            ("resources.limits.cpu"@, "20m"@),
            ("resources.requests.cpu"@, "10m"@),
            ("resources.limits.memory"@, "32Mi"@),
            ("resources.requests.memory"@, "32Mi"@),
        ]);
    }
    r
}

/// The node-termination-handler unit.
fn aws_node_term_handler_chart(prefix: &str) -> (r: CommonChart)
    ensures
        r.chart_info@.name == "aws-node-term-handler"@,
        r.chart_info@.path == prefix@ + "/"@ + "charts/aws-node-termination-handler"@,
        r.chart_info@.namespace == HelmChartNamespaces::KubeSystem,
        r.chart_info@.values == seq![
            ("nameOverride"@, "aws-node-term-handler"@),
            ("fullnameOverride"@, "aws-node-term-handler"@),
            ("enableSpotInterruptionDraining"@, "true"@),
            ("enableScheduledEventDraining"@, "true"@),
            ("deleteLocalData"@, "true"@),
            ("ignoreDaemonSets"@, "true"@),
            ("podTerminationGracePeriod"@, "300"@),
            ("nodeTerminationGracePeriod"@, "120"@),
        ],
{
    let mut chart_info = ChartInfo::new_with_defaults(
        String::from_str("aws-node-term-handler"),
        chart_path(prefix, "charts/aws-node-termination-handler"),
    );
    proof {
        assert(chart_info@.values.len() == 0);
        assert(chart_info.values@.len() == 0);
    }
    chart_info.values.push(set_value_static("nameOverride", "aws-node-term-handler"));
    chart_info.values.push(set_value_static("fullnameOverride", "aws-node-term-handler"));
    chart_info.values.push(set_value_static("enableSpotInterruptionDraining", "true"));
    chart_info.values.push(set_value_static("enableScheduledEventDraining", "true"));
    chart_info.values.push(set_value_static("deleteLocalData", "true"));
    chart_info.values.push(set_value_static("ignoreDaemonSets", "true"));
    chart_info.values.push(set_value_static("podTerminationGracePeriod", "300"));
    chart_info.values.push(set_value_static("nodeTerminationGracePeriod", "120"));
    let r = CommonChart { chart_info };
    proof {
        assert(r.chart_info@.values =~~= seq![
            ("nameOverride"@, "aws-node-term-handler"@),
            ("fullnameOverride"@, "aws-node-term-handler"@),
            ("enableSpotInterruptionDraining"@, "true"@),
            ("enableScheduledEventDraining"@, "true"@),
            ("deleteLocalData"@, "true"@),
            ("ignoreDaemonSets"@, "true"@),
            ("podTerminationGracePeriod"@, "300"@),
            ("nodeTerminationGracePeriod"@, "120"@),
        ]);
    }
    r
}

/// The console-view unit.
fn aws_ui_view_chart(prefix: &str) -> (r: CommonChart)
    ensures
        r.chart_info@.name == "aws-ui-view"@,
        r.chart_info@.path == prefix@ + "/"@ + "charts/aws-ui-view"@,
        r.chart_info@.namespace == HelmChartNamespaces::KubeSystem,
        r.chart_info@.values.len() == 0,
{
    CommonChart {
        chart_info: ChartInfo::new_with_defaults(
            String::from_str("aws-ui-view"),
            chart_path(prefix, "charts/aws-ui-view"),
        ),
    }
}

/// The autoscaler unit, carrying its provisioned access keys.
fn cluster_autoscaler_chart(
    prefix: &str,
    config: &AwsEksQoveryTerraformConfig,
    cloud_provider: &str,
    region: &str,
    cluster_name: &str,
    metrics_enabled: bool,
) -> (r: CommonChart)
    ensures
        r.chart_info@.name == "cluster-autoscaler"@,
        r.chart_info@.path == prefix@ + "/"@ + "common/charts/cluster-autoscaler"@,
        r.chart_info@.namespace == HelmChartNamespaces::KubeSystem,
        r.chart_info@.values == seq![
            ("cloudProvider"@, cloud_provider@),
            ("awsRegion"@, region@),
            ("autoDiscovery.clusterName"@, cluster_name@),
            ("awsAccessKeyID"@, config.aws_iam_cluster_autoscaler_key@),
            ("awsSecretAccessKey"@, config.aws_iam_cluster_autoscaler_secret@),
            ("priorityClassName"@, "system-cluster-critical"@),
            ("extraArgs.balance-similar-node-groups"@, "true"@),
            ("serviceMonitor.enabled"@, bool_view(metrics_enabled)),
            ("serviceMonitor.namespace"@, "prometheus"@),
            ("resources.limits.cpu"@, "100m"@),
            ("resources.requests.cpu"@, "100m"@),
            ("resources.limits.memory"@, "640Mi"@),
            ("resources.requests.memory"@, "640Mi"@),
        ],
{
    let mut chart_info = ChartInfo::new_with_defaults(
        String::from_str("cluster-autoscaler"),
        chart_path(prefix, "common/charts/cluster-autoscaler"),
    );
    proof {
        assert(chart_info@.values.len() == 0);
        assert(chart_info.values@.len() == 0);
    }
    chart_info.values.push(set_value("cloudProvider", cloud_provider.to_owned()));
    chart_info.values.push(set_value("awsRegion", region.to_owned()));
    chart_info.values.push(set_value("autoDiscovery.clusterName", cluster_name.to_owned()));
    chart_info.values.push(
        set_value("awsAccessKeyID", config.aws_iam_cluster_autoscaler_key.clone()),
    );
    chart_info.values.push(
        set_value("awsSecretAccessKey", config.aws_iam_cluster_autoscaler_secret.clone()),
    );
    chart_info.values.push(set_value_static("priorityClassName", "system-cluster-critical"));
    chart_info.values.push(set_value_static("extraArgs.balance-similar-node-groups", "true"));
    chart_info.values.push(
        set_value("serviceMonitor.enabled", bool_to_string(metrics_enabled).to_owned()),
    );
    chart_info.values.push(set_value_static("serviceMonitor.namespace", "prometheus"));
    chart_info.values.push(set_value_static("resources.limits.cpu", "100m"));
    chart_info.values.push(set_value_static("resources.requests.cpu", "100m"));
    chart_info.values.push(set_value_static("resources.limits.memory", "640Mi"));
    chart_info.values.push(set_value_static("resources.requests.memory", "640Mi"));
    let r = CommonChart { chart_info };
    proof {
        assert(r.chart_info@.values =~~= seq![
            ("cloudProvider"@, cloud_provider@),
            ("awsRegion"@, region@),
            ("autoDiscovery.clusterName"@, cluster_name@),
            ("awsAccessKeyID"@, config.aws_iam_cluster_autoscaler_key@),
            ("awsSecretAccessKey"@, config.aws_iam_cluster_autoscaler_secret@),
            ("priorityClassName"@, "system-cluster-critical"@),
            ("extraArgs.balance-similar-node-groups"@, "true"@),
            ("serviceMonitor.enabled"@, bool_view(metrics_enabled)),
            ("serviceMonitor.namespace"@, "prometheus"@),
            ("resources.limits.cpu"@, "100m"@),
            ("resources.requests.cpu"@, "100m"@),
            ("resources.limits.memory"@, "640Mi"@),
            ("resources.requests.memory"@, "640Mi"@),
        ]);
    }
    r
}

/// The cluster-DNS configuration unit, carrying the managed DNS domain and
/// resolvers.
fn coredns_config_chart(
    prefix: &str,
    managed_dns_helm_format: &str,
    managed_dns_resolvers_terraform_format: &str,
) -> (r: CoreDNSConfigChart)
    ensures
        r.chart_info@.name == "coredns"@,
        r.chart_info@.path == prefix@ + "/"@ + "/charts/coredns-config"@,
        r.chart_info@.namespace == HelmChartNamespaces::KubeSystem,
        r.chart_info@.values == seq![
            ("managed_dns"@, managed_dns_helm_format@),
            ("managed_dns_resolvers"@, managed_dns_resolvers_terraform_format@),
        ],
{
    let mut chart_info = ChartInfo::new_with_defaults(
        String::from_str("coredns"),
        chart_path(prefix, "/charts/coredns-config"),
    );
    proof {
        assert(chart_info@.values.len() == 0);
        assert(chart_info.values@.len() == 0);
    }
    chart_info.values.push(set_value("managed_dns", managed_dns_helm_format.to_owned()));
    chart_info.values.push(
        set_value("managed_dns_resolvers", managed_dns_resolvers_terraform_format.to_owned()),
    );
    let r = CoreDNSConfigChart { chart_info };
    proof {
        assert(r.chart_info@.values =~~= seq![
            ("managed_dns"@, managed_dns_helm_format@),
            ("managed_dns_resolvers"@, managed_dns_resolvers_terraform_format@),
        ]);
    }
    r
}

} // verus!

verus! {

/// The DNS-record publisher unit.
fn external_dns_chart(prefix: &str) -> (r: CommonChart)
    ensures
        r.chart_info@.name == "externaldns"@,
        r.chart_info@.path == prefix@ + "/"@ + "common/charts/external-dns"@,
        r.chart_info@.namespace == HelmChartNamespaces::KubeSystem,
        r.chart_info@.values_files == seq![prefix@ + "/"@ + "chart_values/external-dns.yaml"@],
        r.chart_info@.values == seq![
            ("resources.limits.cpu"@, "50m"@),
            ("resources.requests.cpu"@, "50m"@),
            ("resources.limits.memory"@, "50Mi"@),
            ("resources.requests.memory"@, "50Mi"@),
        ],
{
    let mut chart_info = ChartInfo::new_with_defaults(
        String::from_str("externaldns"),
        chart_path(prefix, "common/charts/external-dns"),
    );
    proof {
        assert(chart_info@.values.len() == 0);
        assert(chart_info.values@.len() == 0);
        assert(chart_info@.values_files.len() == 0);
        assert(chart_info.values_files@.len() == 0);
    }
    chart_info.values_files.push(chart_path(prefix, "chart_values/external-dns.yaml"));
    chart_info.values.push(set_value_static("resources.limits.cpu", "50m"));
    chart_info.values.push(set_value_static("resources.requests.cpu", "50m"));
    chart_info.values.push(set_value_static("resources.limits.memory", "50Mi"));
    chart_info.values.push(set_value_static("resources.requests.memory", "50Mi"));
    let r = CommonChart { chart_info };
    proof {
        assert(r.chart_info@.values_files =~= seq![
            prefix@ + "/"@ + "chart_values/external-dns.yaml"@,
        ]);
        assert(r.chart_info@.values =~= seq![
            ("resources.limits.cpu"@, "50m"@),
            ("resources.requests.cpu"@, "50m"@),
            ("resources.limits.memory"@, "50Mi"@),
            ("resources.requests.memory"@, "50Mi"@),
        ]);
    }
    r
}

/// The log-shipper unit, pointed at the log store's cluster address.
fn promtail_chart(prefix: &str) -> (r: CommonChart)
    ensures
        r.chart_info@.name == "promtail"@,
        r.chart_info@.path == prefix@ + "/"@ + "common/charts/promtail"@,
        r.chart_info@.namespace == HelmChartNamespaces::KubeSystem,
        r.chart_info@.last_breaking_version_requiring_restart == Some(
            UnitVersion { major: 5, minor: 1, patch: 0 },
        ),
        r.chart_info@.values_files == seq![prefix@ + "/"@ + "chart_values/promtail.yaml"@],
        r.chart_info@.values == seq![
            ("config.clients[0].url"@, "http://loki.logging.svc:3100/loki/api/v1/push"@),
            ("priorityClassName"@, "system-node-critical"@),
            ("resources.limits.cpu"@, "100m"@),
            ("resources.requests.cpu"@, "100m"@),
            ("resources.limits.memory"@, "128Mi"@),
            ("resources.requests.memory"@, "128Mi"@),
        ],
{
    let mut chart_info = ChartInfo::new_with_defaults(
        String::from_str("promtail"),
        chart_path(prefix, "common/charts/promtail"),
    );
    proof {
        assert(chart_info@.values.len() == 0);
        assert(chart_info.values@.len() == 0);
        assert(chart_info@.values_files.len() == 0);
        assert(chart_info.values_files@.len() == 0);
    }
    chart_info.last_breaking_version_requiring_restart = Some(UnitVersion::new(5, 1, 0));
    chart_info.values_files.push(chart_path(prefix, "chart_values/promtail.yaml"));
    chart_info.values.push(
        set_value_static(
            "config.clients[0].url",
            "http://loki.logging.svc:3100/loki/api/v1/push",
        ),
    );
    chart_info.values.push(set_value_static("priorityClassName", "system-node-critical"));
    chart_info.values.push(set_value_static("resources.limits.cpu", "100m"));
    chart_info.values.push(set_value_static("resources.requests.cpu", "100m"));
    chart_info.values.push(set_value_static("resources.limits.memory", "128Mi"));
    chart_info.values.push(set_value_static("resources.requests.memory", "128Mi"));
    let r = CommonChart { chart_info };
    proof {
        assert(r.chart_info@.values_files =~= seq![
            prefix@ + "/"@ + "chart_values/promtail.yaml"@,
        ]);
        assert(r.chart_info@.values =~= seq![
            ("config.clients[0].url"@, "http://loki.logging.svc:3100/loki/api/v1/push"@),
            ("priorityClassName"@, "system-node-critical"@),
            ("resources.limits.cpu"@, "100m"@),
            ("resources.requests.cpu"@, "100m"@),
            ("resources.limits.memory"@, "128Mi"@),
            ("resources.requests.memory"@, "128Mi"@),
        ]);
    }
    r
}

/// The log-store unit, carrying its provisioned storage credentials and
/// the configured retention.
fn loki_chart(
    prefix: &str,
    config: &AwsEksQoveryTerraformConfig,
    region: &str,
    retention_weeks: u32,
) -> (r: CommonChart)
    ensures
        r.chart_info@.name == "loki"@,
        r.chart_info@.path == prefix@ + "/"@ + "common/charts/loki"@,
        r.chart_info@.namespace == HelmChartNamespaces::Logging,
        r.chart_info@.timeout_in_seconds == 900,
        r.chart_info@.values_files == seq![prefix@ + "/"@ + "chart_values/loki.yaml"@],
        r.chart_info@.values == seq![
            (
                "config.chunk_store_config.max_look_back_period"@,
                decimal_view(retention_weeks as int) + "w"@,
            ),
            (
                "config.table_manager.retention_period"@,
                decimal_view(retention_weeks as int) + "w"@,
            ),
            ("config.storage_config.aws.s3"@, config.loki_storage_config_aws_s3@),
            ("config.storage_config.aws.region"@, region@),
            ("aws_iam_loki_storage_key"@, config.aws_iam_loki_storage_key@),
            ("aws_iam_loki_storage_secret"@, config.aws_iam_loki_storage_secret@),
            ("config.storage_config.aws.sse_encryption"@, "true"@),
            ("resources.limits.cpu"@, "1"@),
            ("resources.requests.cpu"@, "300m"@),
            ("resources.limits.memory"@, "2Gi"@),
            ("resources.requests.memory"@, "1Gi"@),
        ],
{
    let mut chart_info = ChartInfo::new_with_defaults(
        String::from_str("loki"),
        chart_path(prefix, "common/charts/loki"),
    );
    proof {
        assert(chart_info@.values.len() == 0);
        assert(chart_info.values@.len() == 0);
        assert(chart_info@.values_files.len() == 0);
        assert(chart_info.values_files@.len() == 0);
    }
    chart_info.namespace = HelmChartNamespaces::Logging;
    chart_info.timeout_in_seconds = 900;
    chart_info.values_files.push(chart_path(prefix, "chart_values/loki.yaml"));
    chart_info.values.push(
        set_value("config.chunk_store_config.max_look_back_period", weeks_value(retention_weeks)),
    );
    chart_info.values.push(
        set_value("config.table_manager.retention_period", weeks_value(retention_weeks)),
    );
    chart_info.values.push(
        set_value("config.storage_config.aws.s3", config.loki_storage_config_aws_s3.clone()),
    );
    chart_info.values.push(set_value("config.storage_config.aws.region", region.to_owned()));
    chart_info.values.push(
        set_value("aws_iam_loki_storage_key", config.aws_iam_loki_storage_key.clone()),
    );
    chart_info.values.push(
        set_value("aws_iam_loki_storage_secret", config.aws_iam_loki_storage_secret.clone()),
    );
    chart_info.values.push(set_value_static("config.storage_config.aws.sse_encryption", "true"));
    chart_info.values.push(set_value_static("resources.limits.cpu", "1"));
    chart_info.values.push(set_value_static("resources.requests.cpu", "300m"));
    chart_info.values.push(set_value_static("resources.limits.memory", "2Gi"));
    chart_info.values.push(set_value_static("resources.requests.memory", "1Gi"));
    let r = CommonChart { chart_info };
    proof {
        assert(r.chart_info@.values_files =~= seq![prefix@ + "/"@ + "chart_values/loki.yaml"@]);
        assert(r.chart_info@.values =~= seq![
            (
                "config.chunk_store_config.max_look_back_period"@,
                decimal_view(retention_weeks as int) + "w"@,
            ),
            (
                "config.table_manager.retention_period"@,
                decimal_view(retention_weeks as int) + "w"@,
            ),
            ("config.storage_config.aws.s3"@, config.loki_storage_config_aws_s3@),
            ("config.storage_config.aws.region"@, region@),
            ("aws_iam_loki_storage_key"@, config.aws_iam_loki_storage_key@),
            ("aws_iam_loki_storage_secret"@, config.aws_iam_loki_storage_secret@),
            ("config.storage_config.aws.sse_encryption"@, "true"@),
            ("resources.limits.cpu"@, "1"@),
            ("resources.requests.cpu"@, "300m"@),
            ("resources.limits.memory"@, "2Gi"@),
            ("resources.requests.memory"@, "1Gi"@),
        ]);
    }
    r
}

/// The metrics-stack unit. Its concrete overrides are fixed; the
/// bootstrap resources are fetched before install.
fn kube_prometheus_stack_chart(prefix: &str) -> (r: CommonChart)
    ensures
        r.chart_info@.name == "kube-prometheus-stack"@,
        r.chart_info@.path == prefix@ + "/"@ + "/common/charts/kube-prometheus-stack"@,
        r.chart_info@.namespace == HelmChartNamespaces::Prometheus,
        r.chart_info@.timeout_in_seconds == 480,
        r.chart_info@.values_files == seq![
            prefix@ + "/"@ + "chart_values/kube-prometheus-stack.yaml"@,
        ],
        r.chart_info@.crds_update matches Some(c) && c.resources.len() == 8,
        r.chart_info@.values.len() == 10,
        r.chart_info@.values[3] == (
            "prometheus.prometheusSpec.externalUrl"@,
            "http://prometheus-operated.prometheus.svc"@,
        ),
{
    let mut chart_info = ChartInfo::new_with_defaults(
        String::from_str("kube-prometheus-stack"),
        chart_path(prefix, "/common/charts/kube-prometheus-stack"),
    );
    proof {
        assert(chart_info@.values.len() == 0);
        assert(chart_info.values@.len() == 0);
        assert(chart_info@.values_files.len() == 0);
        assert(chart_info.values_files@.len() == 0);
    }
    chart_info.namespace = HelmChartNamespaces::Prometheus;
    chart_info.timeout_in_seconds = 480;
    let mut crd_resources: Vec<String> = Vec::new();
    crd_resources.push(String::from_str("monitoring.coreos.com_alertmanagerconfigs.yaml"));
    crd_resources.push(String::from_str("monitoring.coreos.com_alertmanagers.yaml"));
    crd_resources.push(String::from_str("monitoring.coreos.com_podmonitors.yaml"));
    crd_resources.push(String::from_str("monitoring.coreos.com_probes.yaml"));
    crd_resources.push(String::from_str("monitoring.coreos.com_prometheuses.yaml"));
    crd_resources.push(String::from_str("monitoring.coreos.com_prometheusrules.yaml"));
    crd_resources.push(String::from_str("monitoring.coreos.com_servicemonitors.yaml"));
    crd_resources.push(String::from_str("monitoring.coreos.com_thanosrulers.yaml"));
    chart_info.crds_update = Some(
        CrdsUpdate {
            path: String::from_str(
                "https://raw.githubusercontent.com/prometheus-operator/prometheus-operator/v0.56.0/example/prometheus-operator-crd",
            ),
            resources: crd_resources,
        },
    );
    chart_info.values_files.push(chart_path(prefix, "chart_values/kube-prometheus-stack.yaml"));
    chart_info.values.push(set_value_static("installCRDs", "true"));
    chart_info.values.push(set_value_static("nameOverride", "prometheus-operator"));
    chart_info.values.push(set_value_static("fullnameOverride", "prometheus-operator"));
    chart_info.values.push(
        set_value_static(
            "prometheus.prometheusSpec.externalUrl",
            "http://prometheus-operated.prometheus.svc",
        ),
    );
    chart_info.values.push(set_value_static("prometheusOperator.tls.enabled", "false"));
    chart_info.values.push(
        set_value_static("prometheusOperator.admissionWebhooks.enabled", "false"),
    );
    chart_info.values.push(
        set_value_static("prometheus-node-exporter.prometheus.monitor.enabled", "false"),
    );
    chart_info.values.push(set_value_static("grafana.serviceMonitor.enabled", "false"));
    chart_info.values.push(set_value_static("kubelet.serviceMonitor.resource", "true"));
    chart_info.values.push(
        set_value_static("kubelet.serviceMonitor.resourcePath", "/metrics/resource"),
    );
    let r = CommonChart { chart_info };
    proof {
        assert(r.chart_info@.values_files =~= seq![
            prefix@ + "/"@ + "chart_values/kube-prometheus-stack.yaml"@,
        ]);
        assert(r.chart_info@.values.len() == 10);
        assert(r.chart_info@.values[3] == (
            "prometheus.prometheusSpec.externalUrl"@,
            "http://prometheus-operated.prometheus.svc"@,
        ));
        assert(r.chart_info@.crds_update->0.resources.len() == 8);
    }
    r
}

/// The custom-metrics adapter unit, pointed at the metrics stack.
fn prometheus_adapter_chart(prefix: &str) -> (r: CommonChart)
    ensures
        r.chart_info@.name == "prometheus-adapter"@,
        r.chart_info@.path == prefix@ + "/"@ + "common/charts/prometheus-adapter"@,
        r.chart_info@.namespace == HelmChartNamespaces::Prometheus,
        r.chart_info@.last_breaking_version_requiring_restart == Some(
            UnitVersion { major: 3, minor: 3, patch: 1 },
        ),
        r.chart_info@.values == seq![
            ("metricsRelistInterval"@, "30s"@),
            ("prometheus.url"@, "http://prometheus-operated.prometheus.svc"@),
            ("podDisruptionBudget.enabled"@, "true"@),
            ("podDisruptionBudget.maxUnavailable"@, "1"@),
            ("resources.limits.cpu"@, "250m"@),
            ("resources.requests.cpu"@, "250m"@),
            ("resources.limits.memory"@, "384Mi"@),
            ("resources.requests.memory"@, "384Mi"@),
        ],
{
    let mut chart_info = ChartInfo::new_with_defaults(
        String::from_str("prometheus-adapter"),
        chart_path(prefix, "common/charts/prometheus-adapter"),
    );
    proof {
        assert(chart_info@.values.len() == 0);
        assert(chart_info.values@.len() == 0);
    }
    chart_info.namespace = HelmChartNamespaces::Prometheus;
    chart_info.last_breaking_version_requiring_restart = Some(UnitVersion::new(3, 3, 1));
    chart_info.values.push(set_value_static("metricsRelistInterval", "30s"));
    chart_info.values.push(
        set_value_static("prometheus.url", "http://prometheus-operated.prometheus.svc"),
    );
    chart_info.values.push(set_value_static("podDisruptionBudget.enabled", "true"));
    chart_info.values.push(set_value_static("podDisruptionBudget.maxUnavailable", "1"));
    chart_info.values.push(set_value_static("resources.limits.cpu", "250m"));
    chart_info.values.push(set_value_static("resources.requests.cpu", "250m"));
    chart_info.values.push(set_value_static("resources.limits.memory", "384Mi"));
    chart_info.values.push(set_value_static("resources.requests.memory", "384Mi"));
    let r = CommonChart { chart_info };
    proof {
        assert(r.chart_info@.values =~= seq![
            ("metricsRelistInterval"@, "30s"@),
            ("prometheus.url"@, "http://prometheus-operated.prometheus.svc"@),
            ("podDisruptionBudget.enabled"@, "true"@),
            ("podDisruptionBudget.maxUnavailable"@, "1"@),
            ("resources.limits.cpu"@, "250m"@),
            ("resources.requests.cpu"@, "250m"@),
            ("resources.limits.memory"@, "384Mi"@),
            ("resources.requests.memory"@, "384Mi"@),
        ]);
    }
    r
}

/// The resource-metrics unit.
fn metrics_server_chart(prefix: &str) -> (r: CommonChart)
    ensures
        r.chart_info@.name == "metrics-server"@,
        r.chart_info@.path == prefix@ + "/"@ + "common/charts/metrics-server"@,
        r.chart_info@.namespace == HelmChartNamespaces::KubeSystem,
        r.chart_info@.values_files == seq![prefix@ + "/"@ + "chart_values/metrics-server.yaml"@],
        r.chart_info@.values == seq![
            ("resources.limits.cpu"@, "250m"@),
            ("resources.requests.cpu"@, "250m"@),
            ("resources.limits.memory"@, "256Mi"@),
            ("resources.requests.memory"@, "256Mi"@),
        ],
{
    let mut chart_info = ChartInfo::new_with_defaults(
        String::from_str("metrics-server"),
        chart_path(prefix, "common/charts/metrics-server"),
    );
    proof {
        assert(chart_info@.values.len() == 0);
        assert(chart_info.values@.len() == 0);
        assert(chart_info@.values_files.len() == 0);
        assert(chart_info.values_files@.len() == 0);
    }
    chart_info.values_files.push(chart_path(prefix, "chart_values/metrics-server.yaml"));
    chart_info.values.push(set_value_static("resources.limits.cpu", "250m"));
    chart_info.values.push(set_value_static("resources.requests.cpu", "250m"));
    chart_info.values.push(set_value_static("resources.limits.memory", "256Mi"));
    chart_info.values.push(set_value_static("resources.requests.memory", "256Mi"));
    let r = CommonChart { chart_info };
    proof {
        assert(r.chart_info@.values_files =~= seq![
            prefix@ + "/"@ + "chart_values/metrics-server.yaml"@,
        ]);
        assert(r.chart_info@.values =~= seq![
            ("resources.limits.cpu"@, "250m"@),
            ("resources.requests.cpu"@, "250m"@),
            ("resources.limits.memory"@, "256Mi"@),
            ("resources.requests.memory"@, "256Mi"@),
        ]);
    }
    r
}

/// The cluster-state exporter unit.
fn kube_state_metrics_chart(prefix: &str) -> (r: CommonChart)
    ensures
        r.chart_info@.name == "kube-state-metrics"@,
        r.chart_info@.path == prefix@ + "/"@ + "common/charts/kube-state-metrics"@,
        r.chart_info@.namespace == HelmChartNamespaces::Prometheus,
        r.chart_info@.last_breaking_version_requiring_restart == Some(
            UnitVersion { major: 4, minor: 6, patch: 0 },
        ),
        r.chart_info@.values == seq![
            ("prometheus.monitor.enabled"@, "true"@),
            ("resources.limits.cpu"@, "75m"@),
            ("resources.requests.cpu"@, "75m"@),
            ("resources.limits.memory"@, "384Mi"@),
            ("resources.requests.memory"@, "384Mi"@),
        ],
{
    let mut chart_info = ChartInfo::new_with_defaults(
        String::from_str("kube-state-metrics"),
        chart_path(prefix, "common/charts/kube-state-metrics"),
    );
    proof {
        assert(chart_info@.values.len() == 0);
        assert(chart_info.values@.len() == 0);
    }
    chart_info.namespace = HelmChartNamespaces::Prometheus;
    chart_info.last_breaking_version_requiring_restart = Some(UnitVersion::new(4, 6, 0));
    chart_info.values.push(set_value_static("prometheus.monitor.enabled", "true"));
    chart_info.values.push(set_value_static("resources.limits.cpu", "75m"));
    chart_info.values.push(set_value_static("resources.requests.cpu", "75m"));
    chart_info.values.push(set_value_static("resources.limits.memory", "384Mi"));
    chart_info.values.push(set_value_static("resources.requests.memory", "384Mi"));
    let r = CommonChart { chart_info };
    proof {
        assert(r.chart_info@.values =~= seq![
            ("prometheus.monitor.enabled"@, "true"@),
            ("resources.limits.cpu"@, "75m"@),
            ("resources.requests.cpu"@, "75m"@),
            ("resources.limits.memory"@, "384Mi"@),
            ("resources.requests.memory"@, "384Mi"@),
        ]);
    }
    r
}

/// The generated data-source configuration of the dashboard unit,
/// carrying the provisioned monitoring credentials and the region.
pub open spec fn grafana_datasources_view(
    region: Seq<char>,
    cloudwatch_key: Seq<char>,
    cloudwatch_secret: Seq<char>,
) -> Seq<char> {
    "datasources:\n  datasources.yaml:\n    apiVersion: 1\n    datasources:\n      - name: Prometheus\n        type: prometheus\n        url: \"http://prometheus-operated.prometheus.svc:9090\"\n        access: proxy\n        isDefault: true\n      - name: PromLoki\n        type: prometheus\n        url: \"http://loki.logging.svc:3100/loki\"\n        access: proxy\n        isDefault: false\n      - name: Loki\n        type: loki\n        url: \"http://loki.logging.svc:3100\"\n      - name: Cloudwatch\n        type: cloudwatch\n        jsonData:\n          authType: keys\n          defaultRegion: "@
        + region + "\n        secureJsonData:\n          accessKey: '"@ + cloudwatch_key
        + "'\n          secretKey: '"@ + cloudwatch_secret + "'\n"@
}

/// The dashboard unit, with its generated data-source configuration.
fn grafana_chart(prefix: &str, config: &AwsEksQoveryTerraformConfig, region: &str) -> (r:
    CommonChart)
    ensures
        r.chart_info@.name == "grafana"@,
        r.chart_info@.path == prefix@ + "/"@ + "common/charts/grafana"@,
        r.chart_info@.namespace == HelmChartNamespaces::Prometheus,
        r.chart_info@.values_files == seq![prefix@ + "/"@ + "chart_values/grafana.yaml"@],
        r.chart_info@.yaml_files_content == seq![
            (
                "grafana_generated.yaml"@,
                grafana_datasources_view(
                    region@,
                    config.aws_iam_cloudwatch_key@,
                    config.aws_iam_cloudwatch_secret@,
                ),
            ),
        ],
{
    let mut chart_info = ChartInfo::new_with_defaults(
        String::from_str("grafana"),
        chart_path(prefix, "common/charts/grafana"),
    );
    proof {
        assert(chart_info@.values_files.len() == 0);
        assert(chart_info.values_files@.len() == 0);
        assert(chart_info@.yaml_files_content.len() == 0);
        assert(chart_info.yaml_files_content@.len() == 0);
    }
    chart_info.namespace = HelmChartNamespaces::Prometheus;
    chart_info.values_files.push(chart_path(prefix, "chart_values/grafana.yaml"));
    let mut yaml = String::new();
    yaml.append(
        "datasources:\n  datasources.yaml:\n    apiVersion: 1\n    datasources:\n      - name: Prometheus\n        type: prometheus\n        url: \"http://prometheus-operated.prometheus.svc:9090\"\n        access: proxy\n        isDefault: true\n      - name: PromLoki\n        type: prometheus\n        url: \"http://loki.logging.svc:3100/loki\"\n        access: proxy\n        isDefault: false\n      - name: Loki\n        type: loki\n        url: \"http://loki.logging.svc:3100\"\n      - name: Cloudwatch\n        type: cloudwatch\n        jsonData:\n          authType: keys\n          defaultRegion: ",
    );
    yaml.append(region);
    yaml.append("\n        secureJsonData:\n          accessKey: '");
    yaml.append(config.aws_iam_cloudwatch_key.as_str());
    yaml.append("'\n          secretKey: '");
    yaml.append(config.aws_iam_cloudwatch_secret.as_str());
    yaml.append("'\n");
    proof {
        assert(yaml@ =~= grafana_datasources_view(
            region@,
            config.aws_iam_cloudwatch_key@,
            config.aws_iam_cloudwatch_secret@,
        ));
    }
    chart_info.yaml_files_content.push(
        ChartValuesGenerated { filename: String::from_str("grafana_generated.yaml"), yaml_content: yaml },
    );
    let r = CommonChart { chart_info };
    proof {
        assert(r.chart_info@.values_files =~= seq![prefix@ + "/"@ + "chart_values/grafana.yaml"@]);
        assert(r.chart_info@.yaml_files_content =~= seq![
            (
                "grafana_generated.yaml"@,
                grafana_datasources_view(
                    region@,
                    config.aws_iam_cloudwatch_key@,
                    config.aws_iam_cloudwatch_secret@,
                ),
            ),
        ]);
    }
    r
}

} // verus!

verus! {

/// The certificate-authority unit.
fn cert_manager_chart(prefix: &str, metrics_enabled: bool) -> (r: CommonChart)
    ensures
        r.chart_info@.name == "cert-manager"@,
        r.chart_info@.path == prefix@ + "/"@ + "common/charts/cert-manager"@,
        r.chart_info@.namespace == HelmChartNamespaces::CertManager,
        r.chart_info@.last_breaking_version_requiring_restart == Some(
            UnitVersion { major: 1, minor: 4, patch: 4 },
        ),
        r.chart_info@.values.len() == 20,
        r.chart_info@.values[6] == (
            "prometheus.servicemonitor.enabled"@,
            bool_view(metrics_enabled),
        ),
        r.chart_info@.values[0] == ("installCRDs"@, "true"@),
{
    let mut chart_info = ChartInfo::new_with_defaults(
        String::from_str("cert-manager"),
        chart_path(prefix, "common/charts/cert-manager"),
    );
    proof {
        assert(chart_info@.values.len() == 0);
        assert(chart_info.values@.len() == 0);
    }
    chart_info.namespace = HelmChartNamespaces::CertManager;
    chart_info.last_breaking_version_requiring_restart = Some(UnitVersion::new(1, 4, 4));
    chart_info.values.push(set_value_static("installCRDs", "true"));
    chart_info.values.push(
        set_value_static("startupapicheck.jobAnnotations.helm\\.sh/hook", "post-install\\,post-upgrade"),
    );
    chart_info.values.push(
        set_value_static("startupapicheck.rbac.annotations.helm\\.sh/hook", "post-install\\,post-upgrade"),
    );
    chart_info.values.push(
        set_value_static(
            "startupapicheck.serviceAccount.annotations.helm\\.sh/hook",
            "post-install\\,post-upgrade",
        ),
    );
    chart_info.values.push(set_value_static("replicaCount", "1"));
    chart_info.values.push(
        set_value_static(
            "extraArgs",
            "{--dns01-recursive-nameservers-only,--dns01-recursive-nameservers=1.1.1.1:53\\,8.8.8.8:53}",
        ),
    );
    chart_info.values.push(
        set_value("prometheus.servicemonitor.enabled", bool_to_string(metrics_enabled).to_owned()),
    );
    chart_info.values.push(set_value_static("prometheus.servicemonitor.prometheusInstance", "qovery"));
    chart_info.values.push(set_value_static("resources.limits.cpu", "200m"));
    chart_info.values.push(set_value_static("resources.requests.cpu", "100m"));
    chart_info.values.push(set_value_static("resources.limits.memory", "1Gi"));
    chart_info.values.push(set_value_static("resources.requests.memory", "1Gi"));
    chart_info.values.push(set_value_static("webhook.resources.limits.cpu", "200m"));
    chart_info.values.push(set_value_static("webhook.resources.requests.cpu", "50m"));
    chart_info.values.push(set_value_static("webhook.resources.limits.memory", "128Mi"));
    chart_info.values.push(set_value_static("webhook.resources.requests.memory", "128Mi"));
    chart_info.values.push(set_value_static("cainjector.resources.limits.cpu", "500m"));
    chart_info.values.push(set_value_static("cainjector.resources.requests.cpu", "100m"));
    chart_info.values.push(set_value_static("cainjector.resources.limits.memory", "1Gi"));
    chart_info.values.push(set_value_static("cainjector.resources.requests.memory", "1Gi"));
    let r = CommonChart { chart_info };
    proof {
        assert(r.chart_info@.values.len() == 20);
        assert(r.chart_info@.values[6] == (
            "prometheus.servicemonitor.enabled"@,
            bool_view(metrics_enabled),
        ));
        assert(r.chart_info@.values[0] == ("installCRDs"@, "true"@));
    }
    r
}

/// The certificate-issuer configuration unit, resolved for the DNS
/// provider in use.
fn cert_manager_config_chart(
    prefix: &str,
    dns_provider_config: &DnsProviderConfiguration,
    dns_email_report: &str,
    acme_url: &str,
    managed_dns_helm_format: &str,
) -> (r: CommonChart)
    ensures
        r.chart_info@.name == "cert-manager-configs"@,
        r.chart_info@.path == prefix@ + "/"@ + "common/charts/cert-manager-configs"@,
        r.chart_info@.namespace == HelmChartNamespaces::CertManager,
        r.chart_info@.values == seq![
            ("externalDnsProvider"@, dns_provider_config.cert_manager_config_name()),
            ("acme.letsEncrypt.emailReport"@, dns_email_report@),
            ("acme.letsEncrypt.acmeUrl"@, acme_url@),
            ("managedDns"@, managed_dns_helm_format@),
        ] + (match *dns_provider_config {
            DnsProviderConfiguration::Cloudflare(ref c) => seq![
                ("provider.cloudflare.apiToken"@, c.cloudflare_api_token@),
                ("provider.cloudflare.email"@, c.cloudflare_email@),
            ],
            DnsProviderConfiguration::QoveryDns(ref q) => seq![
                ("provider.pdns.apiUrl"@, q.api_url@),
                ("provider.pdns.apiKey"@, q.api_key@),
            ],
        }),
{
    let mut chart_info = ChartInfo::new_with_defaults(
        String::from_str("cert-manager-configs"),
        chart_path(prefix, "common/charts/cert-manager-configs"),
    );
    proof {
        assert(chart_info@.values.len() == 0);
        assert(chart_info.values@.len() == 0);
    }
    chart_info.namespace = HelmChartNamespaces::CertManager;
    chart_info.values.push(
        set_value("externalDnsProvider", dns_provider_config.get_cert_manager_config_name()),
    );
    chart_info.values.push(set_value("acme.letsEncrypt.emailReport", dns_email_report.to_owned()));
    chart_info.values.push(set_value("acme.letsEncrypt.acmeUrl", acme_url.to_owned()));
    chart_info.values.push(set_value("managedDns", managed_dns_helm_format.to_owned()));
    match dns_provider_config {
        DnsProviderConfiguration::Cloudflare(c) => {
            chart_info.values.push(
                set_value("provider.cloudflare.apiToken", c.cloudflare_api_token.clone()),
            );
            chart_info.values.push(
                set_value("provider.cloudflare.email", c.cloudflare_email.clone()),
            );
        },
        DnsProviderConfiguration::QoveryDns(q) => {
            chart_info.values.push(set_value("provider.pdns.apiUrl", q.api_url.clone()));
            chart_info.values.push(set_value("provider.pdns.apiKey", q.api_key.clone()));
        },
    }
    let r = CommonChart { chart_info };
    proof {
        assert(r.chart_info@.values =~= seq![
            ("externalDnsProvider"@, dns_provider_config.cert_manager_config_name()),
            ("acme.letsEncrypt.emailReport"@, dns_email_report@),
            ("acme.letsEncrypt.acmeUrl"@, acme_url@),
            ("managedDns"@, managed_dns_helm_format@),
        ] + (match *dns_provider_config {
            DnsProviderConfiguration::Cloudflare(ref c) => seq![
                ("provider.cloudflare.apiToken"@, c.cloudflare_api_token@),
                ("provider.cloudflare.email"@, c.cloudflare_email@),
            ],
            DnsProviderConfiguration::QoveryDns(ref q) => seq![
                ("provider.pdns.apiUrl"@, q.api_url@),
                ("provider.pdns.apiKey"@, q.api_key@),
            ],
        }));
    }
    r
}

/// The certificate webhook unit for the managed DNS provider, carrying its
/// endpoint and key.
fn qovery_cert_manager_webhook_chart(
    prefix: &str,
    api_url: &str,
    api_key: &str,
) -> (r: CommonChart)
    ensures
        r.chart_info@.name == "qovery-cert-manager-webhook"@,
        r.chart_info@.path == prefix@ + "/"@ + "common/charts/qovery-cert-manager-webhook"@,
        r.chart_info@.namespace == HelmChartNamespaces::CertManager,
        r.chart_info@.values == seq![
            ("secret.apiKey"@, api_key@),
            ("secret.apiUrl"@, api_url@),
            ("certManager.serviceAccountName"@, "cert-manager"@),
            ("certManager.namespace"@, "cert-manager"@),
            ("resources.limits.memory"@, "48Mi"@),
            ("resources.requests.memory"@, "48Mi"@),
        ],
{
    let mut chart_info = ChartInfo::new_with_defaults(
        String::from_str("qovery-cert-manager-webhook"),
        chart_path(prefix, "common/charts/qovery-cert-manager-webhook"),
    );
    proof {
        assert(chart_info@.values.len() == 0);
        assert(chart_info.values@.len() == 0);
    }
    chart_info.namespace = HelmChartNamespaces::CertManager;
    chart_info.values.push(set_value("secret.apiKey", api_key.to_owned()));
    chart_info.values.push(set_value("secret.apiUrl", api_url.to_owned()));
    chart_info.values.push(set_value_static("certManager.serviceAccountName", "cert-manager"));
    chart_info.values.push(set_value_static("certManager.namespace", "cert-manager"));
    chart_info.values.push(set_value_static("resources.limits.memory", "48Mi"));
    chart_info.values.push(set_value_static("resources.requests.memory", "48Mi"));
    let r = CommonChart { chart_info };
    proof {
        assert(r.chart_info@.values =~= seq![
            ("secret.apiKey"@, api_key@),
            ("secret.apiUrl"@, api_url@),
            ("certManager.serviceAccountName"@, "cert-manager"@),
            ("certManager.namespace"@, "cert-manager"@),
            ("resources.limits.memory"@, "48Mi"@),
            ("resources.requests.memory"@, "48Mi"@),
        ]);
    }
    r
}

/// The ingress-controller unit.
fn nginx_ingress_chart(prefix: &str) -> (r: CommonChart)
    ensures
        r.chart_info@.name == "nginx-ingress"@,
        r.chart_info@.path == prefix@ + "/"@ + "common/charts/ingress-nginx"@,
        r.chart_info@.namespace == HelmChartNamespaces::NginxIngress,
        r.chart_info@.timeout_in_seconds == 300,
        r.chart_info@.values_files == seq![prefix@ + "/"@ + "chart_values/nginx-ingress.yaml"@],
        r.chart_info@.values == seq![
            ("controller.admissionWebhooks.enabled"@, "false"@),
            ("controller.resources.limits.cpu"@, "200m"@),
            ("controller.resources.requests.cpu"@, "100m"@),
            ("controller.resources.limits.memory"@, "768Mi"@),
            ("controller.resources.requests.memory"@, "768Mi"@),
            ("defaultBackend.resources.limits.cpu"@, "20m"@),
            ("defaultBackend.resources.requests.cpu"@, "10m"@),
            ("defaultBackend.resources.limits.memory"@, "32Mi"@),
            ("defaultBackend.resources.requests.memory"@, "32Mi"@),
        ],
{
    let mut chart_info = ChartInfo::new_with_defaults(
        String::from_str("nginx-ingress"),
        chart_path(prefix, "common/charts/ingress-nginx"),
    );
    proof {
        assert(chart_info@.values.len() == 0);
        assert(chart_info.values@.len() == 0);
        assert(chart_info@.values_files.len() == 0);
        assert(chart_info.values_files@.len() == 0);
    }
    chart_info.namespace = HelmChartNamespaces::NginxIngress;
    chart_info.timeout_in_seconds = 300;
    chart_info.values_files.push(chart_path(prefix, "chart_values/nginx-ingress.yaml"));
    chart_info.values.push(set_value_static("controller.admissionWebhooks.enabled", "false"));
    chart_info.values.push(set_value_static("controller.resources.limits.cpu", "200m"));
    chart_info.values.push(set_value_static("controller.resources.requests.cpu", "100m"));
    chart_info.values.push(set_value_static("controller.resources.limits.memory", "768Mi"));
    chart_info.values.push(set_value_static("controller.resources.requests.memory", "768Mi"));
    chart_info.values.push(set_value_static("defaultBackend.resources.limits.cpu", "20m"));
    chart_info.values.push(set_value_static("defaultBackend.resources.requests.cpu", "10m"));
    chart_info.values.push(set_value_static("defaultBackend.resources.limits.memory", "32Mi"));
    chart_info.values.push(set_value_static("defaultBackend.resources.requests.memory", "32Mi"));
    let r = CommonChart { chart_info };
    proof {
        assert(r.chart_info@.values_files =~= seq![
            prefix@ + "/"@ + "chart_values/nginx-ingress.yaml"@,
        ]);
        assert(r.chart_info@.values =~= seq![
            ("controller.admissionWebhooks.enabled"@, "false"@),
            ("controller.resources.limits.cpu"@, "200m"@),
            ("controller.resources.requests.cpu"@, "100m"@),
            ("controller.resources.limits.memory"@, "768Mi"@),
            ("controller.resources.requests.memory"@, "768Mi"@),
            ("defaultBackend.resources.limits.cpu"@, "20m"@),
            ("defaultBackend.resources.requests.cpu"@, "10m"@),
            ("defaultBackend.resources.limits.memory"@, "32Mi"@),
            ("defaultBackend.resources.requests.memory"@, "32Mi"@),
        ]);
    }
    r
}

/// The cleanup-daemon unit, carrying the cluster credentials it scans
/// with.
fn pleco_chart(
    prefix: &str,
    aws_access_key_id: &str,
    aws_secret_access_key: &str,
    cluster_id: &str,
) -> (r: CommonChart)
    ensures
        r.chart_info@.name == "pleco"@,
        r.chart_info@.path == prefix@ + "/"@ + "common/charts/pleco"@,
        r.chart_info@.namespace == HelmChartNamespaces::KubeSystem,
        r.chart_info@.values_files == seq![prefix@ + "/"@ + "chart_values/pleco-aws.yaml"@],
        r.chart_info@.values == seq![
            ("environmentVariables.AWS_ACCESS_KEY_ID"@, aws_access_key_id@),
            ("environmentVariables.AWS_SECRET_ACCESS_KEY"@, aws_secret_access_key@),
            ("environmentVariables.PLECO_IDENTIFIER"@, cluster_id@),
            ("environmentVariables.LOG_LEVEL"@, "debug"@),
        ],
{
    let mut chart_info = ChartInfo::new_with_defaults(
        String::from_str("pleco"),
        chart_path(prefix, "common/charts/pleco"),
    );
    proof {
        assert(chart_info@.values.len() == 0);
        assert(chart_info.values@.len() == 0);
        assert(chart_info@.values_files.len() == 0);
        assert(chart_info.values_files@.len() == 0);
    }
    chart_info.values_files.push(chart_path(prefix, "chart_values/pleco-aws.yaml"));
    chart_info.values.push(
        set_value("environmentVariables.AWS_ACCESS_KEY_ID", aws_access_key_id.to_owned()),
    );
    chart_info.values.push(
        set_value("environmentVariables.AWS_SECRET_ACCESS_KEY", aws_secret_access_key.to_owned()),
    );
    chart_info.values.push(
        set_value("environmentVariables.PLECO_IDENTIFIER", cluster_id.to_owned()),
    );
    chart_info.values.push(set_value_static("environmentVariables.LOG_LEVEL", "debug"));
    let r = CommonChart { chart_info };
    proof {
        assert(r.chart_info@.values_files =~= seq![
            prefix@ + "/"@ + "chart_values/pleco-aws.yaml"@,
        ]);
        assert(r.chart_info@.values =~= seq![
            ("environmentVariables.AWS_ACCESS_KEY_ID"@, aws_access_key_id@),
            ("environmentVariables.AWS_SECRET_ACCESS_KEY"@, aws_secret_access_key@),
            ("environmentVariables.PLECO_IDENTIFIER"@, cluster_id@),
            ("environmentVariables.LOG_LEVEL"@, "debug"@),
        ]);
    }
    r
}

/// The cluster-agent unit, wired to the control plane; the log endpoint is
/// set only when log history is enabled.
fn cluster_agent_chart(
    prefix: &str,
    options: &Options,
    cluster_id: &str,
    log_history_enabled: bool,
) -> (r: CommonChart)
    ensures
        r.chart_info@.name == "cluster-agent"@,
        r.chart_info@.path == prefix@ + "/"@ + "common/charts/qovery-cluster-agent"@,
        r.chart_info@.namespace == HelmChartNamespaces::Qovery,
        r.chart_info@.values == seq![
            ("environmentVariables.CLUSTER_ID"@, cluster_id@),
            ("environmentVariables.CLUSTER_JWT_TOKEN"@, options.jwt_token@),
            ("environmentVariables.GRPC_SERVER"@, options.qovery_grpc_url@),
        ] + (if log_history_enabled {
            seq![("environmentVariables.LOKI_URL"@, "http://loki.logging.svc.cluster.local:3100"@)]
        } else {
            Seq::<(Seq<char>, Seq<char>)>::empty()
        }),
{
    let mut chart_info = ChartInfo::new_with_defaults(
        String::from_str("cluster-agent"),
        chart_path(prefix, "common/charts/qovery-cluster-agent"),
    );
    proof {
        assert(chart_info@.values.len() == 0);
        assert(chart_info.values@.len() == 0);
    }
    chart_info.namespace = HelmChartNamespaces::Qovery;
    chart_info.values.push(set_value("environmentVariables.CLUSTER_ID", cluster_id.to_owned()));
    chart_info.values.push(
        set_value("environmentVariables.CLUSTER_JWT_TOKEN", options.jwt_token.clone()),
    );
    chart_info.values.push(
        set_value("environmentVariables.GRPC_SERVER", options.qovery_grpc_url.clone()),
    );
    if log_history_enabled {
        chart_info.values.push(
            set_value_static(
                "environmentVariables.LOKI_URL",
                "http://loki.logging.svc.cluster.local:3100",
            ),
        );
    }
    let r = CommonChart { chart_info };
    proof {
        assert(r.chart_info@.values =~= seq![
            ("environmentVariables.CLUSTER_ID"@, cluster_id@),
            ("environmentVariables.CLUSTER_JWT_TOKEN"@, options.jwt_token@),
            ("environmentVariables.GRPC_SERVER"@, options.qovery_grpc_url@),
        ] + (if log_history_enabled {
            seq![("environmentVariables.LOKI_URL"@, "http://loki.logging.svc.cluster.local:3100"@)]
        } else {
            Seq::<(Seq<char>, Seq<char>)>::empty()
        }));
    }
    r
}

/// The shell-agent unit, wired to the control plane.
fn shell_agent_chart(prefix: &str, options: &Options, cluster_id: &str) -> (r: CommonChart)
    ensures
        r.chart_info@.name == "shell-agent"@,
        r.chart_info@.path == prefix@ + "/"@ + "common/charts/qovery-shell-agent"@,
        r.chart_info@.namespace == HelmChartNamespaces::Qovery,
        r.chart_info@.values == seq![
            ("environmentVariables.CLUSTER_ID"@, cluster_id@),
            ("environmentVariables.CLUSTER_JWT_TOKEN"@, options.jwt_token@),
            ("environmentVariables.GRPC_SERVER"@, options.qovery_grpc_url@),
        ],
{
    let mut chart_info = ChartInfo::new_with_defaults(
        String::from_str("shell-agent"),
        chart_path(prefix, "common/charts/qovery-shell-agent"),
    );
    proof {
        assert(chart_info@.values.len() == 0);
        assert(chart_info.values@.len() == 0);
    }
    chart_info.namespace = HelmChartNamespaces::Qovery;
    chart_info.values.push(set_value("environmentVariables.CLUSTER_ID", cluster_id.to_owned()));
    chart_info.values.push(
        set_value("environmentVariables.CLUSTER_JWT_TOKEN", options.jwt_token.clone()),
    );
    chart_info.values.push(
        set_value("environmentVariables.GRPC_SERVER", options.qovery_grpc_url.clone()),
    );
    let r = CommonChart { chart_info };
    proof {
        assert(r.chart_info@.values =~= seq![
            ("environmentVariables.CLUSTER_ID"@, cluster_id@),
            ("environmentVariables.CLUSTER_JWT_TOKEN"@, options.jwt_token@),
            ("environmentVariables.GRPC_SERVER"@, options.qovery_grpc_url@),
        ]);
    }
    r
}

/// The superseded agent unit: a previous install is destroyed.
fn qovery_agent_chart(prefix: &str) -> (r: CommonChart)
    ensures
        r.chart_info@.name == "qovery-agent"@,
        r.chart_info@.path == prefix@ + "/"@ + "common/charts/qovery/qovery-agent"@,
        r.chart_info@.namespace == HelmChartNamespaces::Qovery,
        r.chart_info@.action == HelmAction::Destroy,
        r.chart_info@.values.len() == 0,
{
    let mut chart_info = ChartInfo::new_with_defaults(
        String::from_str("qovery-agent"),
        chart_path(prefix, "common/charts/qovery/qovery-agent"),
    );
    chart_info.namespace = HelmChartNamespaces::Qovery;
    chart_info.action = HelmAction::Destroy;
    CommonChart { chart_info }
}

/// The orchestration-engine unit, carrying the resolved engine version and
/// the control-plane messaging credentials; installed or destroyed
/// depending on where the engine runs.
fn qovery_engine_chart(
    prefix: &str,
    options: &Options,
    engine_version: &str,
    location: &EngineLocation,
    organization_id: &str,
    cloud_provider: &str,
    region: &str,
    metrics_enabled: bool,
) -> (r: CommonChart)
    ensures
        r.chart_info@.name == "qovery-engine"@,
        r.chart_info@.path == prefix@ + "/"@ + "common/charts/qovery-engine"@,
        r.chart_info@.namespace == HelmChartNamespaces::Qovery,
        r.chart_info@.action == engine_action_view(*location),
        r.chart_info@.timeout_in_seconds == 900,
        r.chart_info@.values == seq![
            ("image.tag"@, engine_version@),
            ("autoscaler.min_replicas"@, "1"@),
            ("metrics.enabled"@, bool_view(metrics_enabled)),
            ("volumes.storageClassName"@, "aws-ebs-gp2-0"@),
            ("environmentVariables.QOVERY_NATS_URL"@, options.qovery_nats_url@),
            ("environmentVariables.QOVERY_NATS_USER"@, options.qovery_nats_user@),
            ("environmentVariables.QOVERY_NATS_PASSWORD"@, options.qovery_nats_password@),
            ("environmentVariables.ORGANIZATION"@, organization_id@),
            ("environmentVariables.CLOUD_PROVIDER"@, cloud_provider@),
            ("environmentVariables.REGION"@, region@),
            ("environmentVariables.LIB_ROOT_DIR"@, "/home/qovery/lib"@),
            ("environmentVariables.DOCKER_HOST"@, "tcp://0.0.0.0:2375"@),
            ("engineResources.limits.cpu"@, "1"@),
            ("engineResources.requests.cpu"@, "500m"@),
            ("engineResources.limits.memory"@, "512Mi"@),
            ("engineResources.requests.memory"@, "512Mi"@),
            ("buildResources.limits.cpu"@, "1"@),
            ("buildResources.requests.cpu"@, "500m"@),
            ("buildResources.limits.memory"@, "4Gi"@),
            ("buildResources.requests.memory"@, "4Gi"@),
        ],
{
    let mut chart_info = ChartInfo::new_with_defaults(
        String::from_str("qovery-engine"),
        chart_path(prefix, "common/charts/qovery-engine"),
    );
    proof {
        assert(chart_info@.values.len() == 0);
        assert(chart_info.values@.len() == 0);
    }
    chart_info.namespace = HelmChartNamespaces::Qovery;
    chart_info.action = get_engine_helm_action_from_location(location);
    chart_info.timeout_in_seconds = 900;
    chart_info.values.push(set_value("image.tag", engine_version.to_owned()));
    chart_info.values.push(set_value_static("autoscaler.min_replicas", "1"));
    chart_info.values.push(
        set_value("metrics.enabled", bool_to_string(metrics_enabled).to_owned()),
    );
    chart_info.values.push(set_value_static("volumes.storageClassName", "aws-ebs-gp2-0"));
    chart_info.values.push(
        set_value("environmentVariables.QOVERY_NATS_URL", options.qovery_nats_url.clone()),
    );
    chart_info.values.push(
        set_value("environmentVariables.QOVERY_NATS_USER", options.qovery_nats_user.clone()),
    );
    chart_info.values.push(
        set_value(
            "environmentVariables.QOVERY_NATS_PASSWORD",
            options.qovery_nats_password.clone(),
        ),
    );
    chart_info.values.push(
        set_value("environmentVariables.ORGANIZATION", organization_id.to_owned()),
    );
    chart_info.values.push(
        set_value("environmentVariables.CLOUD_PROVIDER", cloud_provider.to_owned()),
    );
    chart_info.values.push(set_value("environmentVariables.REGION", region.to_owned()));
    chart_info.values.push(
        set_value_static("environmentVariables.LIB_ROOT_DIR", "/home/qovery/lib"),
    );
    chart_info.values.push(
        set_value_static("environmentVariables.DOCKER_HOST", "tcp://0.0.0.0:2375"),
    );
    chart_info.values.push(set_value_static("engineResources.limits.cpu", "1"));
    chart_info.values.push(set_value_static("engineResources.requests.cpu", "500m"));
    chart_info.values.push(set_value_static("engineResources.limits.memory", "512Mi"));
    chart_info.values.push(set_value_static("engineResources.requests.memory", "512Mi"));
    chart_info.values.push(set_value_static("buildResources.limits.cpu", "1"));
    chart_info.values.push(set_value_static("buildResources.requests.cpu", "500m"));
    chart_info.values.push(set_value_static("buildResources.limits.memory", "4Gi"));
    chart_info.values.push(set_value_static("buildResources.requests.memory", "4Gi"));
    let r = CommonChart { chart_info };
    proof {
        assert(r.chart_info@.values =~= seq![
            ("image.tag"@, engine_version@),
            ("autoscaler.min_replicas"@, "1"@),
            ("metrics.enabled"@, bool_view(metrics_enabled)),
            ("volumes.storageClassName"@, "aws-ebs-gp2-0"@),
            ("environmentVariables.QOVERY_NATS_URL"@, options.qovery_nats_url@),
            ("environmentVariables.QOVERY_NATS_USER"@, options.qovery_nats_user@),
            ("environmentVariables.QOVERY_NATS_PASSWORD"@, options.qovery_nats_password@),
            ("environmentVariables.ORGANIZATION"@, organization_id@),
            ("environmentVariables.CLOUD_PROVIDER"@, cloud_provider@),
            ("environmentVariables.REGION"@, region@),
            ("environmentVariables.LIB_ROOT_DIR"@, "/home/qovery/lib"@),
            ("environmentVariables.DOCKER_HOST"@, "tcp://0.0.0.0:2375"@),
            ("engineResources.limits.cpu"@, "1"@),
            ("engineResources.requests.cpu"@, "500m"@),
            ("engineResources.limits.memory"@, "512Mi"@),
            ("engineResources.requests.memory"@, "512Mi"@),
            ("buildResources.limits.cpu"@, "1"@),
            ("buildResources.requests.cpu"@, "500m"@),
            ("buildResources.limits.memory"@, "4Gi"@),
            ("buildResources.requests.memory"@, "4Gi"@),
        ]);
    }
    r
}

} // verus!

verus! {

/// The names of the first level's units: identity, storage class, cluster
/// DNS, networking plugin and console view — plus the metrics stack and
/// the log shipper when their histories are enabled.
pub open spec fn level1_names(metrics: bool, logs: bool) -> Seq<Seq<char>> {
    seq![
        "iam-eks-user-mapper"@,
        "q-storageclass"@,
        "coredns"@,
        "aws-vpc-cni"@,
        "aws-ui-view"@,
    ] + (if metrics {
        seq!["kube-prometheus-stack"@]
    } else {
        Seq::<Seq<char>>::empty()
    }) + (if logs {
        seq!["promtail"@]
    } else {
        Seq::<Seq<char>>::empty()
    })
}

/// The names of the second level's units: the dependents of the metrics
/// stack, the log store, and the dashboard when either history is enabled.
pub open spec fn level2_names(metrics: bool, logs: bool) -> Seq<Seq<char>> {
    (if metrics {
        seq!["prometheus-adapter"@, "kube-state-metrics"@]
    } else {
        Seq::<Seq<char>>::empty()
    }) + (if logs {
        seq!["loki"@]
    } else {
        Seq::<Seq<char>>::empty()
    }) + (if metrics || logs {
        seq!["grafana"@]
    } else {
        Seq::<Seq<char>>::empty()
    })
}

/// The names of the third level's units: the certificate authority.
pub open spec fn level3_names() -> Seq<Seq<char>> {
    seq!["cert-manager"@]
}

/// The names of the fourth level's units: autoscaling, plus the
/// provider-specific certificate webhook when the managed DNS provider is
/// in use.
pub open spec fn level4_names(qovery_dns: bool) -> Seq<Seq<char>> {
    seq!["cluster-autoscaler"@] + (if qovery_dns {
        seq!["qovery-cert-manager-webhook"@]
    } else {
        Seq::<Seq<char>>::empty()
    })
}

/// The names of the fifth level's units: resource metrics, node lifecycle
/// and DNS publishing.
pub open spec fn level5_names() -> Seq<Seq<char>> {
    seq!["metrics-server"@, "aws-node-term-handler"@, "externaldns"@]
}

/// The names of the sixth level's units: ingress, plus the cleanup daemon
/// unless it is explicitly disabled.
pub open spec fn level6_names(pleco: bool) -> Seq<Seq<char>> {
    seq!["nginx-ingress"@] + (if pleco {
        seq!["pleco"@]
    } else {
        Seq::<Seq<char>>::empty()
    })
}

/// The names of the last level's units: everything depending on ingress,
/// certificates or agents.
pub open spec fn level7_names() -> Seq<Seq<char>> {
    seq![
        "cert-manager-configs"@,
        "qovery-agent"@,
        "cluster-agent"@,
        "shell-agent"@,
        "qovery-engine"@,
    ]
}

/// Law: with metrics history enabled and log history disabled, the
/// metrics stack stands in the first level and its two dependents (with
/// the dashboard) in the second; with both histories disabled, no metrics
/// or log unit stands in any level — the first level holds exactly its
/// five baseline units and the second level is empty.
pub proof fn lemma_observability_unit_placement()
    ensures
        level1_names(true, false) == seq![
            "iam-eks-user-mapper"@,
            "q-storageclass"@,
            "coredns"@,
            "aws-vpc-cni"@,
            "aws-ui-view"@,
            "kube-prometheus-stack"@,
        ],
        level2_names(true, false) == seq![
            "prometheus-adapter"@,
            "kube-state-metrics"@,
            "grafana"@,
        ],
        level1_names(false, false) == seq![
            "iam-eks-user-mapper"@,
            "q-storageclass"@,
            "coredns"@,
            "aws-vpc-cni"@,
            "aws-ui-view"@,
        ],
        level2_names(false, false) == Seq::<Seq<char>>::empty(),
{
    assert(level1_names(true, false) =~= seq![
        "iam-eks-user-mapper"@,
        "q-storageclass"@,
        "coredns"@,
        "aws-vpc-cni"@,
        "aws-ui-view"@,
        "kube-prometheus-stack"@,
    ]);
    assert(level2_names(true, false) =~= seq![
        "prometheus-adapter"@,
        "kube-state-metrics"@,
        "grafana"@,
    ]);
    assert(level1_names(false, false) =~= seq![
        "iam-eks-user-mapper"@,
        "q-storageclass"@,
        "coredns"@,
        "aws-vpc-cni"@,
        "aws-ui-view"@,
    ]);
    assert(level2_names(false, false) =~= Seq::<Seq<char>>::empty());
}

/// Builds the leveled install plan for the cluster: every unit with its
/// fully resolved configuration (secrets pulled from the rendered
/// infrastructure configuration, feature-dependent values, cluster
/// identifiers), partitioned into the seven dependency levels. The
/// networking-plugin probe result and the resolved engine version are
/// passed in by the caller.
#[verifier::rlimit(100)]
pub fn eks_aws_helm_charts(
    qovery_terraform_config: &AwsEksQoveryTerraformConfig,
    chart_config_prerequisites: &EksChartsConfigPrerequisites,
    chart_prefix_path: Option<&str>,
    is_cni_old_installed_version: bool,
    qovery_engine_version: &str,
) -> (r: Result<Vec<Vec<HelmUnit>>, CommandError>)
    ensures
        r is Ok,
        ({
            let levels = r->Ok_0@;
            let metrics = chart_config_prerequisites.ff_metrics_history_enabled;
            let logs = chart_config_prerequisites.ff_log_history_enabled;
            let qovery_dns = chart_config_prerequisites.dns_provider_config is QoveryDns;
            let pleco = !chart_config_prerequisites.disable_pleco;
            &&& levels.len() == 7
            &&& level_names(levels[0]@) == level1_names(metrics, logs)
            &&& level_names(levels[1]@) == level2_names(metrics, logs)
            &&& level_names(levels[2]@) == level3_names()
            &&& level_names(levels[3]@) == level4_names(qovery_dns)
            &&& level_names(levels[4]@) == level5_names()
            &&& level_names(levels[5]@) == level6_names(pleco)
            &&& level_names(levels[6]@) == level7_names()
            &&& levels[0]@[3] is VpcCni
            &&& levels[0]@[3].chart_info_view().values.last() == (
                "originalMatchLabels"@,
                bool_view(is_cni_old_installed_version),
            )
            &&& levels[0]@[0].chart_info_view().values[0] == (
                "aws.accessKey"@,
                qovery_terraform_config.aws_iam_eks_user_mapper_key@,
            )
            &&& levels[3]@[0].chart_info_view().values[3] == (
                "awsAccessKeyID"@,
                qovery_terraform_config.aws_iam_cluster_autoscaler_key@,
            )
            &&& levels[6]@[4].chart_info_view().values[0] == (
                "image.tag"@,
                qovery_engine_version@,
            )
            &&& levels[6]@[4].chart_info_view().action == engine_action_view(
                chart_config_prerequisites.qovery_engine_location,
            )
            &&& (logs ==> levels[1]@[if metrics {
                2int
            } else {
                0int
            }].chart_info_view().values[2] == (
                "config.storage_config.aws.s3"@,
                qovery_terraform_config.loki_storage_config_aws_s3@,
            ))
            &&& (qovery_dns ==> levels[3]@[1].chart_info_view().values[0] == (
                "secret.apiKey"@,
                chart_config_prerequisites.dns_provider_config->QoveryDns_0.api_key@,
            ))
            &&& (pleco ==> levels[5]@[1].chart_info_view().values[0] == (
                "environmentVariables.AWS_ACCESS_KEY_ID"@,
                chart_config_prerequisites.aws_access_key_id@,
            ))
        }),
{
    let chart_prefix: &str = match chart_prefix_path {
        Some(p) => p,
        None => "./",
    };
    let metrics = chart_config_prerequisites.ff_metrics_history_enabled;
    let logs = chart_config_prerequisites.ff_log_history_enabled;

    // Level 1: identity, storage class, cluster DNS, networking plugin,
    // console view.
    let mut level_1: Vec<HelmUnit> = Vec::new();
    level_1.push(
        HelmUnit::Common(
            aws_iam_eks_user_mapper_chart(
                chart_prefix,
                qovery_terraform_config,
                chart_config_prerequisites.region.as_str(),
                chart_config_prerequisites.cluster_advanced_settings.aws_iam_user_mapper_group_name.as_str(),
            ),
        ),
    );
    level_1.push(HelmUnit::Common(q_storage_class_chart(chart_prefix)));
    level_1.push(
        HelmUnit::CoreDnsConfig(
            coredns_config_chart(
                chart_prefix,
                chart_config_prerequisites.managed_dns_helm_format.as_str(),
                chart_config_prerequisites.managed_dns_resolvers_terraform_format.as_str(),
            ),
        ),
    );
    level_1.push(
        HelmUnit::VpcCni(
            aws_vpc_cni_chart(
                chart_prefix,
                chart_config_prerequisites.region.as_str(),
                chart_config_prerequisites.cluster_name.as_str(),
                is_cni_old_installed_version,
            ),
        ),
    );
    level_1.push(HelmUnit::Common(aws_ui_view_chart(chart_prefix)));

    let mut level_2: Vec<HelmUnit> = Vec::new();

    let mut level_3: Vec<HelmUnit> = Vec::new();
    level_3.push(HelmUnit::Common(cert_manager_chart(chart_prefix, metrics)));

    let mut level_4: Vec<HelmUnit> = Vec::new();
    level_4.push(
        HelmUnit::Common(
            cluster_autoscaler_chart(
                chart_prefix,
                qovery_terraform_config,
                chart_config_prerequisites.cloud_provider.as_str(),
                chart_config_prerequisites.region.as_str(),
                chart_config_prerequisites.cluster_name.as_str(),
                metrics,
            ),
        ),
    );

    let mut level_5: Vec<HelmUnit> = Vec::new();
    level_5.push(HelmUnit::Common(metrics_server_chart(chart_prefix)));
    level_5.push(HelmUnit::Common(aws_node_term_handler_chart(chart_prefix)));
    level_5.push(HelmUnit::Common(external_dns_chart(chart_prefix)));

    let mut level_6: Vec<HelmUnit> = Vec::new();
    level_6.push(HelmUnit::Common(nginx_ingress_chart(chart_prefix)));

    let mut level_7: Vec<HelmUnit> = Vec::new();
    level_7.push(
        HelmUnit::Common(
            cert_manager_config_chart(
                chart_prefix,
                &chart_config_prerequisites.dns_provider_config,
                chart_config_prerequisites.dns_email_report.as_str(),
                chart_config_prerequisites.acme_url.as_str(),
                chart_config_prerequisites.managed_dns_helm_format.as_str(),
            ),
        ),
    );
    level_7.push(HelmUnit::Common(qovery_agent_chart(chart_prefix)));
    level_7.push(
        HelmUnit::Common(
            cluster_agent_chart(
                chart_prefix,
                &chart_config_prerequisites.infra_options,
                chart_config_prerequisites.cluster_id.as_str(),
                logs,
            ),
        ),
    );
    level_7.push(
        HelmUnit::Common(
            shell_agent_chart(
                chart_prefix,
                &chart_config_prerequisites.infra_options,
                chart_config_prerequisites.cluster_id.as_str(),
            ),
        ),
    );
    level_7.push(
        HelmUnit::Common(
            qovery_engine_chart(
                chart_prefix,
                &chart_config_prerequisites.infra_options,
                qovery_engine_version,
                &chart_config_prerequisites.qovery_engine_location,
                chart_config_prerequisites.organization_id.as_str(),
                chart_config_prerequisites.cloud_provider.as_str(),
                chart_config_prerequisites.region.as_str(),
                metrics,
            ),
        ),
    );

    // Observability units, appended to the first two levels by the
    // feature flags.
    if metrics {
        level_1.push(HelmUnit::Common(kube_prometheus_stack_chart(chart_prefix)));
        level_2.push(HelmUnit::Common(prometheus_adapter_chart(chart_prefix)));
        level_2.push(HelmUnit::Common(kube_state_metrics_chart(chart_prefix)));
    }
    if logs {
        level_1.push(HelmUnit::Common(promtail_chart(chart_prefix)));
        level_2.push(
            HelmUnit::Common(
                loki_chart(
                    chart_prefix,
                    qovery_terraform_config,
                    chart_config_prerequisites.region.as_str(),
                    chart_config_prerequisites.cluster_advanced_settings.loki_log_retention_in_week,
                ),
            ),
        );
    }
    if metrics || logs {
        level_2.push(HelmUnit::Common(grafana_chart(
            chart_prefix,
            qovery_terraform_config,
            chart_config_prerequisites.region.as_str(),
        )));
    }

    // The certificate webhook for the managed DNS provider.
    let qovery_dns = match &chart_config_prerequisites.dns_provider_config {
        DnsProviderConfiguration::QoveryDns(_) => true,
        DnsProviderConfiguration::Cloudflare(_) => false,
    };
    if let DnsProviderConfiguration::QoveryDns(ref qovery_dns_config) =
        chart_config_prerequisites.dns_provider_config {
        level_4.push(
            HelmUnit::Common(
                qovery_cert_manager_webhook_chart(
                    chart_prefix,
                    qovery_dns_config.api_url.as_str(),
                    qovery_dns_config.api_key.as_str(),
                ),
            ),
        );
    }

    // The cleanup daemon, unless explicitly disabled.
    if !chart_config_prerequisites.disable_pleco {
        level_6.push(
            HelmUnit::Common(
                pleco_chart(
                    chart_prefix,
                    chart_config_prerequisites.aws_access_key_id.as_str(),
                    chart_config_prerequisites.aws_secret_access_key.as_str(),
                    chart_config_prerequisites.cluster_id.as_str(),
                ),
            ),
        );
    }

    proof {
        assert(level_names(level_1@) =~= level1_names(metrics, logs));
        assert(level_names(level_2@) =~= level2_names(metrics, logs));
        assert(level_names(level_3@) =~= level3_names());
        assert(level_names(level_4@) =~= level4_names(qovery_dns));
        assert(level_names(level_5@) =~= level5_names());
        assert(level_names(level_6@) =~= level6_names(
            !chart_config_prerequisites.disable_pleco,
        ));
        assert(level_names(level_7@) =~= level7_names());
    }
    let mut levels: Vec<Vec<HelmUnit>> = Vec::new();
    levels.push(level_1);
    levels.push(level_2);
    levels.push(level_3);
    levels.push(level_4);
    levels.push(level_5);
    levels.push(level_6);
    levels.push(level_7);
    Ok(levels)
}

} // verus!
