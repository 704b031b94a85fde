//! The deployment-template context of an application: the ordered list of
//! key/value entries handed to the per-service template renderer.

use vstd::prelude::*;
use crate::application::{Application, ApplicationView, EnvironmentVariable, Port, ProbeType};
use crate::environment::{Environment, EnvironmentView};

verus! {

/// A value of a template entry.
#[derive(Clone, Debug)]
pub enum TemplateValue {
    Text(String),
    UInt(u64),
    U128(u128),
    Bool(bool),
    EnvironmentVariables(Vec<EnvironmentVariable>),
    Ports(Vec<Port>),
}

/// Mathematical view of a [`TemplateValue`].
pub enum TemplateValueView {
    Text(Seq<char>),
    UInt(u64),
    U128(u128),
    Bool(bool),
    EnvironmentVariables(Seq<(Seq<char>, Seq<char>)>),
    Ports(Seq<Port>),
}

impl View for TemplateValue {
    type V = TemplateValueView;

    open spec fn view(&self) -> TemplateValueView {
        match self {
            TemplateValue::Text(s) => TemplateValueView::Text(s@),
            TemplateValue::UInt(n) => TemplateValueView::UInt(*n),
            TemplateValue::U128(n) => TemplateValueView::U128(*n),
            TemplateValue::Bool(b) => TemplateValueView::Bool(*b),
            TemplateValue::EnvironmentVariables(v) => TemplateValueView::EnvironmentVariables(
                v@.map_values(|e: EnvironmentVariable| (e.key@, e.value@)),
            ),
            TemplateValue::Ports(p) => TemplateValueView::Ports(p@),
        }
    }
}

/// One template entry.
#[derive(Clone, Debug)]
pub struct TemplateEntry {
    pub key: String,
    pub value: TemplateValue,
}

impl View for TemplateEntry {
    type V = (Seq<char>, TemplateValueView);

    open spec fn view(&self) -> (Seq<char>, TemplateValueView) {
        (self.key@, self.value@)
    }
}

/// What the template renderer needs to know about the cluster.
#[derive(Clone, Debug)]
pub struct ClusterInfo {
    pub region: String,
    pub zone: String,
    pub name: String,
    pub registry_secret_name: String,
    pub resource_expiration_in_seconds: u32,
}

/// Mathematical view of a [`ClusterInfo`].
pub struct ClusterInfoView {
    pub region: Seq<char>,
    pub zone: Seq<char>,
    pub name: Seq<char>,
    pub registry_secret_name: Seq<char>,
    pub resource_expiration_in_seconds: u32,
}

impl View for ClusterInfo {
    type V = ClusterInfoView;

    open spec fn view(&self) -> ClusterInfoView {
        ClusterInfoView {
            region: self.region@,
            zone: self.zone@,
            name: self.name@,
            registry_secret_name: self.registry_secret_name@,
            resource_expiration_in_seconds: self.resource_expiration_in_seconds,
        }
    }
}

/// The first port flagged as default, if any.
pub open spec fn default_port_of(ports: Seq<Port>) -> Option<Port>
    decreases ports.len(),
{
    if ports.len() == 0 {
        None
    } else if ports[0].is_default {
        Some(ports[0])
    } else {
        default_port_of(ports.skip(1))
    }
}

/// The probe-kind entries for one probe: enabled, tcp, http.
pub open spec fn probe_entries(prefix_enabled: Seq<char>, prefix_tcp: Seq<char>, prefix_http: Seq<char>, t: ProbeType) -> Seq<(Seq<char>, TemplateValueView)> {
    seq![
        (prefix_enabled, TemplateValueView::Bool(t != ProbeType::Disabled)),
        (prefix_tcp, TemplateValueView::Bool(t == ProbeType::Tcp)),
        (prefix_http, TemplateValueView::Bool(t == ProbeType::Http)),
    ]
}

/// The full template context of an application, in insertion order. The
/// deprecated deployment start delay overrides both probes' initial delays
/// when it is larger than either of them.
pub open spec fn tera_entries_view(
    app: ApplicationView,
    cluster: ClusterInfoView,
    env: EnvironmentView,
) -> Seq<(Seq<char>, TemplateValueView)> {
    let s = app.advanced_settings;
    let delay_override = s.deployment_delay_start_time_sec
        > s.liveness_probe_initial_delay_seconds || s.deployment_delay_start_time_sec
        > s.readiness_probe_initial_delay_seconds;
    let liveness_delay: u16 = if delay_override {
        s.deployment_delay_start_time_sec
    } else {
        s.liveness_probe_initial_delay_seconds
    };
    let readiness_delay: u16 = if delay_override {
        s.deployment_delay_start_time_sec
    } else {
        s.readiness_probe_initial_delay_seconds
    };
    seq![
        ("id"@, TemplateValueView::Text(app.id)),
        ("long_id"@, TemplateValueView::U128(app.long_id)),
        ("owner_id"@, TemplateValueView::Text(env.owner_id)),
        ("project_id"@, TemplateValueView::Text(env.project_id)),
        ("project_long_id"@, TemplateValueView::U128(env.project_long_id)),
        ("organization_id"@, TemplateValueView::Text(env.organization_id)),
        ("organization_long_id"@, TemplateValueView::U128(env.organization_long_id)),
        ("environment_id"@, TemplateValueView::Text(env.id)),
        ("environment_long_id"@, TemplateValueView::U128(env.long_id)),
        ("region"@, TemplateValueView::Text(cluster.region)),
        ("zone"@, TemplateValueView::Text(cluster.zone)),
        ("name"@, TemplateValueView::Text(app.name)),
        ("sanitized_name"@, TemplateValueView::Text("app-"@ + app.id)),
        ("namespace"@, TemplateValueView::Text(env.namespace)),
        ("cluster_name"@, TemplateValueView::Text(cluster.name)),
        ("total_cpus"@, TemplateValueView::Text(app.total_cpus)),
        ("total_ram_in_mib"@, TemplateValueView::UInt(app.total_ram_in_mib as u64)),
        ("min_instances"@, TemplateValueView::UInt(app.min_instances as u64)),
        ("max_instances"@, TemplateValueView::UInt(app.max_instances as u64)),
        (
            "hpa_cpu_average_utilization_percent"@,
            TemplateValueView::UInt(s.hpa_cpu_average_utilization_percent as u64),
        ),
    ] + (match default_port_of(app.ports) {
        Some(p) => seq![
            ("is_private_port"@, TemplateValueView::Bool(true)),
            ("private_port"@, TemplateValueView::UInt(p.port as u64)),
        ],
        None => seq![("is_private_port"@, TemplateValueView::Bool(false))],
    }) + seq![
        ("version"@, TemplateValueView::Text(app.build.image.commit_id)),
        (
            "helm_app_version"@,
            TemplateValueView::Text(app.build.image.commit_id.subrange(0, 7)),
        ),
        ("image_name_with_tag"@, TemplateValueView::Text(app.build.image.full_name())),
        (
            "liveness_probe_initial_delay_seconds"@,
            TemplateValueView::UInt(liveness_delay as u64),
        ),
        (
            "readiness_probe_initial_delay_seconds"@,
            TemplateValueView::UInt(readiness_delay as u64),
        ),
        (
            "liveness_probe_http_get_path"@,
            TemplateValueView::Text(s.liveness_probe_http_get_path),
        ),
        (
            "readiness_probe_http_get_path"@,
            TemplateValueView::Text(s.readiness_probe_http_get_path),
        ),
        (
            "liveness_probe_period_seconds"@,
            TemplateValueView::UInt(s.liveness_probe_period_seconds as u64),
        ),
        (
            "readiness_probe_period_seconds"@,
            TemplateValueView::UInt(s.readiness_probe_period_seconds as u64),
        ),
        (
            "liveness_probe_timeout_seconds"@,
            TemplateValueView::UInt(s.liveness_probe_timeout_seconds as u64),
        ),
        (
            "readiness_probe_timeout_seconds"@,
            TemplateValueView::UInt(s.readiness_probe_timeout_seconds as u64),
        ),
        (
            "liveness_probe_success_threshold"@,
            TemplateValueView::UInt(s.liveness_probe_success_threshold as u64),
        ),
        (
            "readiness_probe_success_threshold"@,
            TemplateValueView::UInt(s.readiness_probe_success_threshold as u64),
        ),
        (
            "liveness_probe_failure_threshold"@,
            TemplateValueView::UInt(s.liveness_probe_failure_threshold as u64),
        ),
        (
            "readiness_probe_failure_threshold"@,
            TemplateValueView::UInt(s.readiness_probe_failure_threshold as u64),
        ),
    ] + probe_entries(
        "readiness_probe_enabled"@,
        "readiness_probe_tcp_enabled"@,
        "readiness_probe_http_enabled"@,
        s.readiness_probe_type,
    ) + probe_entries(
        "liveness_probe_enabled"@,
        "liveness_probe_tcp_enabled"@,
        "liveness_probe_http_enabled"@,
        s.liveness_probe_type,
    ) + seq![
        (
            "environment_variables"@,
            TemplateValueView::EnvironmentVariables(
                app.environment_variables.map_values(
                    |e: crate::application::EnvironmentVariableView| (e.key, e.value),
                ),
            ),
        ),
        ("ports"@, TemplateValueView::Ports(app.ports)),
        ("is_registry_secret"@, TemplateValueView::Bool(true)),
        ("registry_secret"@, TemplateValueView::Text(cluster.registry_secret_name)),
        (
            "resource_expiration_in_seconds"@,
            TemplateValueView::UInt(cluster.resource_expiration_in_seconds as u64),
        ),
    ]
}

} // verus!

verus! {

/// A text entry.
fn entry_text(key: &'static str, value: String) -> (r: TemplateEntry)
    ensures
        r@ == (key@, TemplateValueView::Text(value@)),
{
    TemplateEntry { key: key.to_owned(), value: TemplateValue::Text(value) }
}

/// An unsigned-number entry.
fn entry_uint(key: &'static str, value: u64) -> (r: TemplateEntry)
    ensures
        r@ == (key@, TemplateValueView::UInt(value)),
{
    TemplateEntry { key: key.to_owned(), value: TemplateValue::UInt(value) }
}

/// A long-id entry.
fn entry_u128(key: &'static str, value: u128) -> (r: TemplateEntry)
    ensures
        r@ == (key@, TemplateValueView::U128(value)),
{
    TemplateEntry { key: key.to_owned(), value: TemplateValue::U128(value) }
}

/// A boolean entry.
fn entry_bool(key: &'static str, value: bool) -> (r: TemplateEntry)
    ensures
        r@ == (key@, TemplateValueView::Bool(value)),
{
    TemplateEntry { key: key.to_owned(), value: TemplateValue::Bool(value) }
}

impl Application {
    /// Builds the template context of this application: identity, owner
    /// and project identifiers, placement, resources, the default private
    /// port if any, probe configuration (with the deprecated start delay
    /// overriding both probes' initial delays when it is larger), the
    /// environment variables, the ports, and the registry secret.
    #[verifier::rlimit(100)]
    pub fn default_tera_context(&self, cluster: &ClusterInfo, environment: &Environment) -> (r:
        Vec<TemplateEntry>)
        requires
            self@.build.image.commit_id.len() >= 7,
        ensures
            r@.map_values(|e: TemplateEntry| e@) == tera_entries_view(
                self@,
                cluster@,
                environment@,
            ),
    {
        let mut out: Vec<TemplateEntry> = Vec::new();
        out.push(entry_text("id", self.id().to_owned()));
        out.push(entry_u128("long_id", self.long_id()));
        out.push(entry_text("owner_id", environment.owner_id.clone()));
        out.push(entry_text("project_id", environment.project_id.clone()));
        out.push(entry_u128("project_long_id", environment.project_long_id));
        out.push(entry_text("organization_id", environment.organization_id.clone()));
        out.push(entry_u128("organization_long_id", environment.organization_long_id));
        out.push(entry_text("environment_id", environment.id.clone()));
        out.push(entry_u128("environment_long_id", environment.long_id));
        out.push(entry_text("region", cluster.region.clone()));
        out.push(entry_text("zone", cluster.zone.clone()));
        out.push(entry_text("name", self.name().to_owned()));
        out.push(entry_text("sanitized_name", self.sanitized_name()));
        out.push(entry_text("namespace", environment.namespace().to_owned()));
        out.push(entry_text("cluster_name", cluster.name.clone()));
        out.push(entry_text("total_cpus", self.total_cpus()));
        out.push(entry_uint("total_ram_in_mib", self.total_ram_in_mib() as u64));
        out.push(entry_uint("min_instances", self.min_instances() as u64));
        out.push(entry_uint("max_instances", self.max_instances() as u64));
        out.push(
            entry_uint(
                "hpa_cpu_average_utilization_percent",
                self.advanced_settings().hpa_cpu_average_utilization_percent as u64,
            ),
        );
        // The default port decides whether a private port is exposed.
        let ports = self.ports();
        proof {
            assert(self@.ports.skip(0) =~= self@.ports);
        }
        let mut i: usize = 0;
        while i < ports.len() && !ports[i].is_default
            invariant
                0 <= i <= ports@.len(),
                ports@ == self@.ports,
                default_port_of(self@.ports) == default_port_of(self@.ports.skip(i as int)),
            decreases ports@.len() - i,
        {
            proof {
                assert(self@.ports.skip(i as int)[0] == self@.ports[i as int]);
                assert(self@.ports.skip(i as int).skip(1) =~= self@.ports.skip(i + 1));
            }
            i += 1;
        }
        let default_port: Option<Port> = if i < ports.len() {
            proof {
                assert(self@.ports.skip(i as int)[0] == self@.ports[i as int]);
                assert(default_port_of(self@.ports) == Some(self@.ports[i as int]));
            }
            Some(ports[i])
        } else {
            proof {
                assert(self@.ports.skip(self@.ports.len() as int).len() == 0);
                assert(default_port_of(self@.ports) is None);
            }
            None
        };
        match default_port {
            Some(p) => {
                out.push(entry_bool("is_private_port", true));
                out.push(entry_uint("private_port", p.port as u64));
            },
            None => {
                out.push(entry_bool("is_private_port", false));
            },
        }
        out.push(entry_text("version", self.commit_id()));
        let helm_app_version = self.build().image.commit_id.as_str().substring_char(
            0,
            7,
        ).to_owned();
        out.push(entry_text("helm_app_version", helm_app_version));
        out.push(entry_text("image_name_with_tag", self.build().image.full_image_name_with_tag()));
        let s = self.advanced_settings();
        let delay_override = s.deployment_delay_start_time_sec
            > s.liveness_probe_initial_delay_seconds || s.deployment_delay_start_time_sec
            > s.readiness_probe_initial_delay_seconds;
        let liveness_delay: u16 = if delay_override {
            s.deployment_delay_start_time_sec
        } else {
            s.liveness_probe_initial_delay_seconds
        };
        let readiness_delay: u16 = if delay_override {
            s.deployment_delay_start_time_sec
        } else {
            s.readiness_probe_initial_delay_seconds
        };
        out.push(entry_uint("liveness_probe_initial_delay_seconds", liveness_delay as u64));
        out.push(entry_uint("readiness_probe_initial_delay_seconds", readiness_delay as u64));
        out.push(entry_text("liveness_probe_http_get_path", s.liveness_probe_http_get_path.clone()));
        out.push(
            entry_text("readiness_probe_http_get_path", s.readiness_probe_http_get_path.clone()),
        );
        out.push(
            entry_uint("liveness_probe_period_seconds", s.liveness_probe_period_seconds as u64),
        );
        out.push(
            entry_uint("readiness_probe_period_seconds", s.readiness_probe_period_seconds as u64),
        );
        out.push(
            entry_uint("liveness_probe_timeout_seconds", s.liveness_probe_timeout_seconds as u64),
        );
        out.push(
            entry_uint(
                "readiness_probe_timeout_seconds",
                s.readiness_probe_timeout_seconds as u64,
            ),
        );
        out.push(
            entry_uint(
                "liveness_probe_success_threshold",
                s.liveness_probe_success_threshold as u64,
            ),
        );
        out.push(
            entry_uint(
                "readiness_probe_success_threshold",
                s.readiness_probe_success_threshold as u64,
            ),
        );
        out.push(
            entry_uint(
                "liveness_probe_failure_threshold",
                s.liveness_probe_failure_threshold as u64,
            ),
        );
        out.push(
            entry_uint(
                "readiness_probe_failure_threshold",
                s.readiness_probe_failure_threshold as u64,
            ),
        );
        let readiness_type = s.readiness_probe_type;
        out.push(entry_bool("readiness_probe_enabled", readiness_type != ProbeType::Disabled));
        out.push(entry_bool("readiness_probe_tcp_enabled", readiness_type == ProbeType::Tcp));
        out.push(entry_bool("readiness_probe_http_enabled", readiness_type == ProbeType::Http));
        let liveness_type = s.liveness_probe_type;
        out.push(entry_bool("liveness_probe_enabled", liveness_type != ProbeType::Disabled));
        out.push(entry_bool("liveness_probe_tcp_enabled", liveness_type == ProbeType::Tcp));
        out.push(entry_bool("liveness_probe_http_enabled", liveness_type == ProbeType::Http));
        // Environment variables, as plain key/value pairs.
        let vars = self.environment_variables();
        let mut vars_copy: Vec<EnvironmentVariable> = Vec::new();
        let mut i: usize = 0;
        while i < vars.len()
            invariant
                0 <= i <= vars@.len(),
                vars@.map_values(|e: EnvironmentVariable| e@) == self@.environment_variables,
                vars_copy@.len() == i,
                forall|j: int|
                    0 <= j < i ==> (#[trigger] vars_copy@[j]).key@ == vars@[j].key@
                        && vars_copy@[j].value@ == vars@[j].value@,
            decreases vars@.len() - i,
        {
            vars_copy.push(
                EnvironmentVariable { key: vars[i].key.clone(), value: vars[i].value.clone() },
            );
            i += 1;
        }
        let vars_entry = TemplateEntry {
            key: String::from_str("environment_variables"),
            value: TemplateValue::EnvironmentVariables(vars_copy),
        };
        proof {
            assert(vars_entry@.1 matches TemplateValueView::EnvironmentVariables(pairs)
                && pairs =~= self@.environment_variables.map_values(
                |e: crate::application::EnvironmentVariableView| (e.key, e.value),
            ));
        }
        out.push(vars_entry);
        // The ports themselves.
        let mut ports_copy: Vec<Port> = Vec::new();
        let mut i: usize = 0;
        while i < ports.len()
            invariant
                0 <= i <= ports@.len(),
                ports@ == self@.ports,
                ports_copy@ == ports@.take(i as int),
            decreases ports@.len() - i,
        {
            ports_copy.push(ports[i]);
            proof {
                assert(ports@.take(i + 1) =~= ports@.take(i as int).push(ports@[i as int]));
            }
            i += 1;
        }
        proof {
            assert(ports@.take(ports@.len() as int) =~= ports@);
        }
        out.push(
            TemplateEntry {
                key: String::from_str("ports"),
                value: TemplateValue::Ports(ports_copy),
            },
        );
        out.push(entry_bool("is_registry_secret", true));
        out.push(entry_text("registry_secret", cluster.registry_secret_name.clone()));
        out.push(
            entry_uint(
                "resource_expiration_in_seconds",
                cluster.resource_expiration_in_seconds as u64,
            ),
        );
        proof {
            assert(out@.map_values(|e: TemplateEntry| e@) =~= tera_entries_view(
                self@,
                cluster@,
                environment@,
            ));
        }
        out
    }
}

} // verus!
