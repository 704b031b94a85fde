//! Identity derivation, namespaces, application accessors and the
//! template context.

use qovery_engine::application::{
    Application, ApplicationAdvancedSettings, ApplicationService, EnvironmentVariable, Port,
    ProbeType, Storage, cut,
};
use qovery_engine::dns::{CloudflareDnsConfig, DnsProviderConfiguration, QoveryDnsConfig};
use qovery_engine::environment::Environment;
use qovery_engine::helm::{HelmAction, HelmChartNamespaces};
use qovery_engine::ids::to_short_id;
use qovery_engine::image::{Build, Image};
use qovery_engine::router::{CustomDomain, Router, RouterAdvancedSettings};
use qovery_engine::service::Action;
use qovery_engine::template::{ClusterInfo, TemplateValue};
use qovery_engine::text::u64_to_string;

fn settings() -> ApplicationAdvancedSettings {
    ApplicationAdvancedSettings {
        deployment_delay_start_time_sec: 0,
        liveness_probe_type: ProbeType::Tcp,
        liveness_probe_http_get_path: "/".to_string(),
        liveness_probe_initial_delay_seconds: 100,
        liveness_probe_period_seconds: 30,
        liveness_probe_timeout_seconds: 30,
        liveness_probe_success_threshold: 1,
        liveness_probe_failure_threshold: 10,
        readiness_probe_type: ProbeType::Http,
        readiness_probe_http_get_path: "/healthz".to_string(),
        readiness_probe_initial_delay_seconds: 10,
        readiness_probe_period_seconds: 5,
        readiness_probe_timeout_seconds: 5,
        readiness_probe_success_threshold: 1,
        readiness_probe_failure_threshold: 3,
        hpa_cpu_average_utilization_percent: 60,
    }
}

fn app() -> Application {
    Application::new(
        0xDEADBEEF_0000_0000_0000_0000_0000_0001,
        Action::Create,
        "backend",
        vec![
            Port { port: 80, is_default: false, publicly_accessible: false },
            Port { port: 8080, is_default: true, publicly_accessible: true },
        ],
        "250m".to_string(),
        "500m".to_string(),
        256,
        1,
        2,
        Build {
            image: Image {
                name: "backend".to_string(),
                tag: "abc1234".to_string(),
                commit_id: "abc1234def5678".to_string(),
                repository_name: "backend".to_string(),
                registry_secret_name: "registry-secret".to_string(),
            },
        },
        vec![Storage { id: "vol1".to_string(), size_in_gib: 10 }],
        vec![EnvironmentVariable { key: "MODE".to_string(), value: "prod".to_string() }],
        settings(),
    )
    .unwrap()
}

#[test]
fn short_ids_take_the_first_eight_hexadecimal_digits() {
    let id = to_short_id(0xDEADBEEF_0000_0000_0000_0000_0000_0001);
    assert_eq!(id, "zdeadbeef");
    assert_eq!(to_short_id(0), "z00000000");
}

#[test]
fn namespaces_join_the_project_and_environment_short_ids() {
    let env = Environment::new(
        0xBBBBBBBB_0000_0000_0000_0000_0000_0000,
        0xAAAAAAAA_0000_0000_0000_0000_0000_0000,
        0xCCCCCCCC_0000_0000_0000_0000_0000_0000,
        Action::Create,
        Vec::new(),
        Vec::new(),
        Vec::new(),
        Vec::new(),
    );
    assert_eq!(env.namespace(), "zaaaaaaaa-zbbbbbbbb");
    assert_eq!(env.id, "zbbbbbbbb");
    assert_eq!(env.project_id, "zaaaaaaaa");
    assert_eq!(env.owner_id, "FAKE");
}

#[test]
fn application_accessors_reflect_the_configuration() {
    let a = app();
    assert_eq!(a.id(), "zdeadbeef");
    assert_eq!(a.name(), "backend");
    assert_eq!(a.commit_id(), "abc1234def5678");
    assert_eq!(a.selector(), "appId=zdeadbeef");
    assert_eq!(a.sanitized_name(), "app-zdeadbeef");
    assert_eq!(a.helm_release_name(), "application-zdeadbeef-zdeadbeef");
    assert_eq!(
        a.helm_chart_dir("/root/lib", "aws"),
        "/root/lib/aws/charts/q-application",
    );
    assert!(a.is_stateful());
    assert!(a.publicly_accessible());
    assert_eq!(a.build().image.full_image_name_with_tag(), "backend:abc1234");
}

#[test]
fn startup_timeout_takes_the_larger_probe_budget_with_a_floor() {
    let a = app();
    // Liveness: 100 + (30 + 30) * 10 = 700; readiness: 10 + (5 + 5) * 3 = 40.
    assert_eq!(a.startup_timeout(), 700);
}

#[test]
fn startup_timeout_never_goes_below_ten_minutes() {
    let mut s = settings();
    s.liveness_probe_initial_delay_seconds = 1;
    s.liveness_probe_period_seconds = 1;
    s.liveness_probe_timeout_seconds = 1;
    s.liveness_probe_failure_threshold = 1;
    let a = Application::new(
        1,
        Action::Create,
        "tiny",
        Vec::new(),
        "100m".to_string(),
        "100m".to_string(),
        64,
        1,
        1,
        Build {
            image: Image {
                name: "tiny".to_string(),
                tag: "v".to_string(),
                commit_id: "0123456".to_string(),
                repository_name: "tiny".to_string(),
                registry_secret_name: "s".to_string(),
            },
        },
        Vec::new(),
        Vec::new(),
        s,
    )
    .unwrap();
    assert_eq!(a.startup_timeout(), 600);
}

#[test]
fn cut_truncates_only_long_strings() {
    assert_eq!(cut("short".to_string(), 50), "short");
    let long = "x".repeat(60);
    assert_eq!(cut(long, 50), "x".repeat(50));
}

#[test]
fn decimal_rendering_matches() {
    assert_eq!(u64_to_string(0), "0");
    assert_eq!(u64_to_string(7), "7");
    assert_eq!(u64_to_string(1234), "1234");
}

#[test]
fn cert_manager_config_names_follow_the_provider() {
    let cloudflare = DnsProviderConfiguration::Cloudflare(CloudflareDnsConfig {
        cloudflare_email: "a@example.com".to_string(),
        cloudflare_api_token: "t".to_string(),
    });
    assert_eq!(cloudflare.get_cert_manager_config_name(), "cloudflare");
    let qovery_dns = DnsProviderConfiguration::QoveryDns(QoveryDnsConfig {
        api_url: "https://dns.example.com".to_string(),
        api_key: "k".to_string(),
    });
    assert_eq!(qovery_dns.get_cert_manager_config_name(), "pdns");
}

#[test]
fn template_context_lists_the_expected_entries() {
    let a = app();
    let env = Environment::new(0xB2, 0xA2, 0xC2, Action::Create, Vec::new(), Vec::new(), Vec::new(), Vec::new());
    let cluster = ClusterInfo {
        region: "eu-west-3".to_string(),
        zone: "eu-west-3a".to_string(),
        name: "qovery-cluster".to_string(),
        registry_secret_name: "registry-secret".to_string(),
        resource_expiration_in_seconds: 7200,
    };
    let entries = a.default_tera_context(&cluster, &env);
    assert_eq!(entries[0].key, "id");
    assert!(matches!(&entries[0].value, TemplateValue::Text(t) if t == "zdeadbeef"));
    let private_port = entries.iter().find(|e| e.key == "private_port").unwrap();
    assert!(matches!(&private_port.value, TemplateValue::UInt(8080)));
    let helm_app_version = entries.iter().find(|e| e.key == "helm_app_version").unwrap();
    assert!(matches!(&helm_app_version.value, TemplateValue::Text(t) if t == "abc1234"));
    let image = entries.iter().find(|e| e.key == "image_name_with_tag").unwrap();
    assert!(matches!(&image.value, TemplateValue::Text(t) if t == "backend:abc1234"));
    let readiness_http = entries.iter().find(|e| e.key == "readiness_probe_http_enabled").unwrap();
    assert!(matches!(&readiness_http.value, TemplateValue::Bool(true)));
    let liveness_http = entries.iter().find(|e| e.key == "liveness_probe_http_enabled").unwrap();
    assert!(matches!(&liveness_http.value, TemplateValue::Bool(false)));
    let expiration = entries.iter().find(|e| e.key == "resource_expiration_in_seconds").unwrap();
    assert!(matches!(&expiration.value, TemplateValue::UInt(7200)));
}

#[test]
fn router_charts_target_the_environment_namespace() {
    let router = Router::new(
        0x1234ABCD_0000_0000_0000_0000_0000_0000,
        Action::Create,
        "edge",
        "app.example.com",
        vec![CustomDomain {
            domain: "www.example.org".to_string(),
            target_domain: "app.example.com".to_string(),
        }],
        RouterAdvancedSettings { custom_domain_check_enabled: true },
    );
    let chart = router.deployment_chart_info("/tmp/workspace", "zaaaaaaaa-zbbbbbbbb");
    assert_eq!(chart.name, "router-z1234abcd");
    assert!(matches!(chart.namespace, HelmChartNamespaces::Custom));
    assert_eq!(chart.custom_namespace.as_deref(), Some("zaaaaaaaa-zbbbbbbbb"));
    assert!(matches!(chart.action, HelmAction::Deploy));
    let deletion = router.deletion_chart_info("/tmp/workspace", "zaaaaaaaa-zbbbbbbbb");
    assert!(matches!(deletion.action, HelmAction::Destroy));
}

#[test]
fn custom_domains_are_checked_only_when_enabled() {
    let router = Router::new(
        0x1,
        Action::Create,
        "edge",
        "app.example.com",
        vec![CustomDomain {
            domain: "www.example.org".to_string(),
            target_domain: "app.example.com".to_string(),
        }],
        RouterAdvancedSettings { custom_domain_check_enabled: true },
    );
    let (default_domain, customs) = router.domains_to_check();
    assert_eq!(default_domain, "app.example.com");
    assert_eq!(customs.len(), 1);
    assert_eq!(customs[0].domain, "www.example.org");
    let disabled = Router::new(
        0x1,
        Action::Create,
        "edge",
        "app.example.com",
        vec![CustomDomain {
            domain: "www.example.org".to_string(),
            target_domain: "app.example.com".to_string(),
        }],
        RouterAdvancedSettings { custom_domain_check_enabled: false },
    );
    let (_, none) = disabled.domains_to_check();
    assert!(none.is_empty());
}
