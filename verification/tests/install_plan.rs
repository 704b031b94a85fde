//! Leveled plan construction: level contents under the feature flags, and
//! the threading of provisioned credentials into the units.

use qovery_engine::dns::{CloudflareDnsConfig, DnsProviderConfiguration, QoveryDnsConfig};
use qovery_engine::eks_charts::{
    eks_aws_helm_charts, AwsEksQoveryTerraformConfig, ClusterAdvancedSettings, EksChartsConfigPrerequisites,
    EngineLocation, Options, VpcQoveryNetworkMode,
};
use qovery_engine::helm::{HelmAction, HelmUnit};

fn terraform_config() -> AwsEksQoveryTerraformConfig {
    AwsEksQoveryTerraformConfig {
        aws_iam_eks_user_mapper_key: "mapper-key".to_string(),
        aws_iam_eks_user_mapper_secret: "mapper-secret".to_string(),
        aws_iam_cluster_autoscaler_key: "autoscaler-key".to_string(),
        aws_iam_cluster_autoscaler_secret: "autoscaler-secret".to_string(),
        aws_iam_cloudwatch_key: "cloudwatch-key".to_string(),
        aws_iam_cloudwatch_secret: "cloudwatch-secret".to_string(),
        loki_storage_config_aws_s3: "s3://logs-bucket/eu-west-3".to_string(),
        aws_iam_loki_storage_key: "loki-key".to_string(),
        aws_iam_loki_storage_secret: "loki-secret".to_string(),
    }
}

fn prerequisites(
    metrics: bool,
    logs: bool,
    qovery_dns: bool,
    disable_pleco: bool,
) -> EksChartsConfigPrerequisites {
    EksChartsConfigPrerequisites {
        organization_id: "org".to_string(),
        organization_long_id: 0x1,
        cluster_id: "cluster-1".to_string(),
        cluster_long_id: 0x2,
        region: "eu-west-3".to_string(),
        cluster_name: "qovery-cluster".to_string(),
        cloud_provider: "aws".to_string(),
        test_cluster: false,
        aws_access_key_id: "access-key".to_string(),
        aws_secret_access_key: "secret-key".to_string(),
        vpc_qovery_network_mode: VpcQoveryNetworkMode::WithoutNatGateways,
        qovery_engine_location: EngineLocation::ClientSide,
        ff_log_history_enabled: logs,
        ff_metrics_history_enabled: metrics,
        managed_dns_name: "example.com".to_string(),
        managed_dns_helm_format: "example.com".to_string(),
        managed_dns_resolvers_terraform_format: "1.1.1.1".to_string(),
        external_dns_provider: "pdns".to_string(),
        dns_email_report: "ops@example.com".to_string(),
        acme_url: "https://acme.example.com".to_string(),
        dns_provider_config: if qovery_dns {
            DnsProviderConfiguration::QoveryDns(QoveryDnsConfig {
                api_url: "https://dns.example.com".to_string(),
                api_key: "dns-api-key".to_string(),
            })
        } else {
            DnsProviderConfiguration::Cloudflare(CloudflareDnsConfig {
                cloudflare_email: "dns@example.com".to_string(),
                cloudflare_api_token: "cf-token".to_string(),
            })
        },
        disable_pleco,
        infra_options: Options {
            qovery_api_url: "https://api.example.com".to_string(),
            qovery_grpc_url: "https://grpc.example.com".to_string(),
            agent_version_controller_token: "agent-token".to_string(),
            engine_version_controller_token: "engine-token".to_string(),
            jwt_token: "jwt".to_string(),
            qovery_nats_url: "nats://nats.example.com".to_string(),
            qovery_nats_user: "nats-user".to_string(),
            qovery_nats_password: "nats-password".to_string(),
        },
        cluster_advanced_settings: ClusterAdvancedSettings {
            aws_iam_user_mapper_group_name: "admins".to_string(),
            loki_log_retention_in_week: 12,
            registry_image_retention_time_sec: 3600,
            pleco_resources_ttl: 14400,
        },
    }
}

fn names(level: &[HelmUnit]) -> Vec<String> {
    level.iter().map(|u| u.get_chart_info().name.clone()).collect()
}

#[test]
fn metrics_enabled_places_the_stack_in_level_one_and_dependents_in_level_two() {
    let levels = eks_aws_helm_charts(&terraform_config(), &prerequisites(true, false, false, false), Some("./lib"), false, "v1.2.3")
        .unwrap();
    assert_eq!(levels.len(), 7);
    assert_eq!(
        names(&levels[0]),
        ["iam-eks-user-mapper", "q-storageclass", "coredns", "aws-vpc-cni", "aws-ui-view", "kube-prometheus-stack"],
    );
    assert_eq!(names(&levels[1]), ["prometheus-adapter", "kube-state-metrics", "grafana"]);
}

#[test]
fn no_observability_flag_means_no_metrics_or_log_unit_in_any_level() {
    let levels = eks_aws_helm_charts(&terraform_config(), &prerequisites(false, false, false, false), Some("./lib"), false, "v1.2.3")
        .unwrap();
    assert_eq!(
        names(&levels[0]),
        ["iam-eks-user-mapper", "q-storageclass", "coredns", "aws-vpc-cni", "aws-ui-view"],
    );
    assert!(names(&levels[1]).is_empty());
    let excluded = ["kube-prometheus-stack", "prometheus-adapter", "kube-state-metrics", "promtail", "loki", "grafana"];
    for level in &levels {
        for name in names(level) {
            assert!(!excluded.contains(&name.as_str()));
        }
    }
}

#[test]
fn log_history_places_the_shipper_in_level_one_and_the_store_in_level_two() {
    let levels = eks_aws_helm_charts(&terraform_config(), &prerequisites(false, true, false, false), Some("./lib"), false, "v1.2.3")
        .unwrap();
    assert_eq!(
        names(&levels[0]),
        ["iam-eks-user-mapper", "q-storageclass", "coredns", "aws-vpc-cni", "aws-ui-view", "promtail"],
    );
    assert_eq!(names(&levels[1]), ["loki", "grafana"]);
    // The log store carries the provisioned storage configuration.
    let loki = &levels[1][0];
    let values = &loki.get_chart_info().values;
    assert_eq!(values[0].value, "12w");
    assert_eq!(values[2].key, "config.storage_config.aws.s3");
    assert_eq!(values[2].value, "s3://logs-bucket/eu-west-3");
}

#[test]
fn fixed_levels_hold_their_baseline_units() {
    let levels = eks_aws_helm_charts(&terraform_config(), &prerequisites(false, false, false, false), Some("./lib"), false, "v1.2.3")
        .unwrap();
    assert_eq!(names(&levels[2]), ["cert-manager"]);
    assert_eq!(names(&levels[3]), ["cluster-autoscaler"]);
    assert_eq!(names(&levels[4]), ["metrics-server", "aws-node-term-handler", "externaldns"]);
    assert_eq!(names(&levels[5]), ["nginx-ingress", "pleco"]);
    assert_eq!(
        names(&levels[6]),
        ["cert-manager-configs", "qovery-agent", "cluster-agent", "shell-agent", "qovery-engine"],
    );
}

#[test]
fn managed_dns_provider_adds_the_certificate_webhook() {
    let levels = eks_aws_helm_charts(&terraform_config(), &prerequisites(false, false, true, false), Some("./lib"), false, "v1.2.3")
        .unwrap();
    assert_eq!(names(&levels[3]), ["cluster-autoscaler", "qovery-cert-manager-webhook"]);
    let webhook = &levels[3][1];
    let values = &webhook.get_chart_info().values;
    assert_eq!(values[0].key, "secret.apiKey");
    assert_eq!(values[0].value, "dns-api-key");
    assert_eq!(values[1].value, "https://dns.example.com");
}

#[test]
fn disabling_the_cleanup_daemon_removes_it_from_level_six() {
    let levels = eks_aws_helm_charts(&terraform_config(), &prerequisites(false, false, false, true), Some("./lib"), false, "v1.2.3")
        .unwrap();
    assert_eq!(names(&levels[5]), ["nginx-ingress"]);
}

#[test]
fn the_networking_plugin_keeps_its_probe_result_and_secrets_thread_through() {
    let levels = eks_aws_helm_charts(&terraform_config(), &prerequisites(false, false, false, false), Some("./lib"), true, "v1.2.3")
        .unwrap();
    let cni = &levels[0][3];
    assert!(matches!(cni, HelmUnit::VpcCni(_)));
    let cni_values = &cni.get_chart_info().values;
    let last = cni_values.last().unwrap();
    assert_eq!(last.key, "originalMatchLabels");
    assert_eq!(last.value, "true");
    // The identity mapper carries the provisioned mapper key.
    let mapper_values = &levels[0][0].get_chart_info().values;
    assert_eq!(mapper_values[0].key, "aws.accessKey");
    assert_eq!(mapper_values[0].value, "mapper-key");
    // The autoscaler carries its own key.
    let autoscaler_values = &levels[3][0].get_chart_info().values;
    assert_eq!(autoscaler_values[3].key, "awsAccessKeyID");
    assert_eq!(autoscaler_values[3].value, "autoscaler-key");
    // The engine unit carries the resolved version and runs cluster-side.
    let engine = levels[6][4].get_chart_info();
    assert_eq!(engine.values[0].key, "image.tag");
    assert_eq!(engine.values[0].value, "v1.2.3");
    assert!(matches!(engine.action, HelmAction::Deploy));
}

#[test]
fn engine_hosted_by_the_control_plane_destroys_a_previous_install() {
    let mut prerequisites_value = prerequisites(false, false, false, false);
    prerequisites_value.qovery_engine_location = EngineLocation::QoverySide;
    let levels = eks_aws_helm_charts(&terraform_config(), &prerequisites_value, Some("./lib"), false, "v1.2.3")
        .unwrap();
    let engine = levels[6][4].get_chart_info();
    assert!(matches!(engine.action, HelmAction::Destroy));
}
