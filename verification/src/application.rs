//! The application service model: identity, resources, ports, build handle
//! and the advanced settings that drive probe and timeout computation.

use vstd::prelude::*;
use crate::image::{Build, BuildView};
use crate::ids::{short_id_view, to_short_id};
use crate::service::{Action, ServiceType};

verus! {

/// An invalid application configuration.
#[derive(Debug)]
pub enum ApplicationError {
    InvalidConfig(String),
}

/// A port exposed by an application.
#[derive(Clone, Copy, PartialEq, Eq, Structural, Debug)]
pub struct Port {
    pub port: u16,
    pub is_default: bool,
    pub publicly_accessible: bool,
}

/// A persistent volume attached to an application.
#[derive(Clone, Debug)]
pub struct Storage {
    pub id: String,
    pub size_in_gib: u32,
}

/// Mathematical view of a [`Storage`].
pub struct StorageView {
    pub id: Seq<char>,
    pub size_in_gib: u32,
}

impl View for Storage {
    type V = StorageView;

    open spec fn view(&self) -> StorageView {
        StorageView { id: self.id@, size_in_gib: self.size_in_gib }
    }
}

/// An environment variable injected into an application.
#[derive(Clone, Debug)]
pub struct EnvironmentVariable {
    pub key: String,
    pub value: String,
}

/// Mathematical view of an [`EnvironmentVariable`].
pub struct EnvironmentVariableView {
    pub key: Seq<char>,
    pub value: Seq<char>,
}

impl View for EnvironmentVariable {
    type V = EnvironmentVariableView;

    open spec fn view(&self) -> EnvironmentVariableView {
        EnvironmentVariableView { key: self.key@, value: self.value@ }
    }
}

/// How a liveness or readiness probe checks an application.
#[derive(Clone, Copy, PartialEq, Eq, Structural, Debug)]
pub enum ProbeType {
    Disabled,
    Tcp,
    Http,
}

/// Tunable settings of an application deployment.
#[derive(Clone, Debug)]
pub struct ApplicationAdvancedSettings {
    pub deployment_delay_start_time_sec: u16,
    pub liveness_probe_type: ProbeType,
    pub liveness_probe_http_get_path: String,
    pub liveness_probe_initial_delay_seconds: u16,
    pub liveness_probe_period_seconds: u16,
    pub liveness_probe_timeout_seconds: u16,
    pub liveness_probe_success_threshold: u16,
    pub liveness_probe_failure_threshold: u16,
    pub readiness_probe_type: ProbeType,
    pub readiness_probe_http_get_path: String,
    pub readiness_probe_initial_delay_seconds: u16,
    pub readiness_probe_period_seconds: u16,
    pub readiness_probe_timeout_seconds: u16,
    pub readiness_probe_success_threshold: u16,
    pub readiness_probe_failure_threshold: u16,
    pub hpa_cpu_average_utilization_percent: u16,
}

/// Mathematical view of [`ApplicationAdvancedSettings`].
pub struct ApplicationAdvancedSettingsView {
    pub deployment_delay_start_time_sec: u16,
    pub liveness_probe_type: ProbeType,
    pub liveness_probe_http_get_path: Seq<char>,
    pub liveness_probe_initial_delay_seconds: u16,
    pub liveness_probe_period_seconds: u16,
    pub liveness_probe_timeout_seconds: u16,
    pub liveness_probe_success_threshold: u16,
    pub liveness_probe_failure_threshold: u16,
    pub readiness_probe_type: ProbeType,
    pub readiness_probe_http_get_path: Seq<char>,
    pub readiness_probe_initial_delay_seconds: u16,
    pub readiness_probe_period_seconds: u16,
    pub readiness_probe_timeout_seconds: u16,
    pub readiness_probe_success_threshold: u16,
    pub readiness_probe_failure_threshold: u16,
    pub hpa_cpu_average_utilization_percent: u16,
}

impl View for ApplicationAdvancedSettings {
    type V = ApplicationAdvancedSettingsView;

    open spec fn view(&self) -> ApplicationAdvancedSettingsView {
        ApplicationAdvancedSettingsView {
            deployment_delay_start_time_sec: self.deployment_delay_start_time_sec,
            liveness_probe_type: self.liveness_probe_type,
            liveness_probe_http_get_path: self.liveness_probe_http_get_path@,
            liveness_probe_initial_delay_seconds: self.liveness_probe_initial_delay_seconds,
            liveness_probe_period_seconds: self.liveness_probe_period_seconds,
            liveness_probe_timeout_seconds: self.liveness_probe_timeout_seconds,
            liveness_probe_success_threshold: self.liveness_probe_success_threshold,
            liveness_probe_failure_threshold: self.liveness_probe_failure_threshold,
            readiness_probe_type: self.readiness_probe_type,
            readiness_probe_http_get_path: self.readiness_probe_http_get_path@,
            readiness_probe_initial_delay_seconds: self.readiness_probe_initial_delay_seconds,
            readiness_probe_period_seconds: self.readiness_probe_period_seconds,
            readiness_probe_timeout_seconds: self.readiness_probe_timeout_seconds,
            readiness_probe_success_threshold: self.readiness_probe_success_threshold,
            readiness_probe_failure_threshold: self.readiness_probe_failure_threshold,
            hpa_cpu_average_utilization_percent: self.hpa_cpu_average_utilization_percent,
        }
    }
}

/// The worst-case startup time, in seconds, that a probe configuration
/// allows before an application must be considered failed: the later of the
/// two probes' budgets, but at least ten minutes.
pub open spec fn startup_timeout_secs(s: ApplicationAdvancedSettingsView) -> int {
    let readiness = s.readiness_probe_initial_delay_seconds + (
    s.readiness_probe_timeout_seconds + s.readiness_probe_period_seconds)
        * s.readiness_probe_failure_threshold;
    let liveness = s.liveness_probe_initial_delay_seconds + (s.liveness_probe_timeout_seconds
        + s.liveness_probe_period_seconds) * s.liveness_probe_failure_threshold;
    let probe = if readiness >= liveness {
        readiness
    } else {
        liveness
    };
    if probe >= 600 {
        probe
    } else {
        600
    }
}

/// An application: a buildable, deployable service.
#[derive(Clone, Debug)]
pub struct Application {
    id: String,
    long_id: u128,
    action: Action,
    name: String,
    ports: Vec<Port>,
    total_cpus: String,
    cpu_burst: String,
    total_ram_in_mib: u32,
    min_instances: u32,
    max_instances: u32,
    build: Build,
    storage: Vec<Storage>,
    environment_variables: Vec<EnvironmentVariable>,
    advanced_settings: ApplicationAdvancedSettings,
}

/// Mathematical view of an [`Application`].
pub struct ApplicationView {
    pub id: Seq<char>,
    pub long_id: u128,
    pub action: Action,
    pub name: Seq<char>,
    pub ports: Seq<Port>,
    pub total_cpus: Seq<char>,
    pub cpu_burst: Seq<char>,
    pub total_ram_in_mib: u32,
    pub min_instances: u32,
    pub max_instances: u32,
    pub build: BuildView,
    pub storage: Seq<StorageView>,
    pub environment_variables: Seq<EnvironmentVariableView>,
    pub advanced_settings: ApplicationAdvancedSettingsView,
}

impl View for Application {
    type V = ApplicationView;

    closed spec fn view(&self) -> ApplicationView {
        ApplicationView {
            id: self.id@,
            long_id: self.long_id,
            action: self.action,
            name: self.name@,
            ports: self.ports@,
            total_cpus: self.total_cpus@,
            cpu_burst: self.cpu_burst@,
            total_ram_in_mib: self.total_ram_in_mib,
            min_instances: self.min_instances,
            max_instances: self.max_instances,
            build: self.build@,
            storage: self.storage@.map_values(|s: Storage| s@),
            environment_variables: self.environment_variables@.map_values(
                |e: EnvironmentVariable| e@,
            ),
            advanced_settings: self.advanced_settings@,
        }
    }
}

impl Application {
    /// Builds an application; the short id is derived from the long id.
    pub fn new(
        long_id: u128,
        action: Action,
        name: &str,
        ports: Vec<Port>,
        total_cpus: String,
        cpu_burst: String,
        total_ram_in_mib: u32,
        min_instances: u32,
        max_instances: u32,
        build: Build,
        storage: Vec<Storage>,
        environment_variables: Vec<EnvironmentVariable>,
        advanced_settings: ApplicationAdvancedSettings,
    ) -> (r: Result<Application, ApplicationError>)
        ensures
            r is Ok,
            ({
                let a = r->Ok_0@;
                &&& a.id == short_id_view(long_id)
                &&& a.long_id == long_id
                &&& a.action == action
                &&& a.name == name@
                &&& a.ports == ports@
                &&& a.total_cpus == total_cpus@
                &&& a.cpu_burst == cpu_burst@
                &&& a.total_ram_in_mib == total_ram_in_mib
                &&& a.min_instances == min_instances
                &&& a.max_instances == max_instances
                &&& a.build == build@
                &&& a.storage == storage@.map_values(|s: Storage| s@)
                &&& a.environment_variables == environment_variables@.map_values(
                    |e: EnvironmentVariable| e@,
                )
                &&& a.advanced_settings == advanced_settings@
            }),
    {
        Ok(
            Application {
                id: to_short_id(long_id),
                long_id,
                action,
                name: name.to_owned(),
                ports,
                total_cpus,
                cpu_burst,
                total_ram_in_mib,
                min_instances,
                max_instances,
                build,
                storage,
                environment_variables,
                advanced_settings,
            },
        )
    }

    /// The short id.
    pub fn id(&self) -> (r: &str)
        ensures
            r@ == self@.id,
    {
        self.id.as_str()
    }

    /// The long (128-bit) id.
    pub fn long_id(&self) -> (r: u128)
        ensures
            r == self@.long_id,
    {
        self.long_id
    }

    /// The display name.
    pub fn name(&self) -> (r: &str)
        ensures
            r@ == self@.name,
    {
        self.name.as_str()
    }

    /// The commit the image is built from.
    pub fn commit_id(&self) -> (r: String)
        ensures
            r@ == self@.build.image.commit_id,
    {
        self.build.image.commit_id.clone()
    }

    /// The lifecycle action requested for this application.
    pub fn action(&self) -> (r: &Action)
        ensures
            r == self@.action,
    {
        &self.action
    }

    /// This is an application.
    pub fn service_type(&self) -> (r: ServiceType)
        ensures
            r == ServiceType::Application,
    {
        ServiceType::Application
    }

    /// The requested CPU allocation.
    pub fn total_cpus(&self) -> (r: String)
        ensures
            r@ == self@.total_cpus,
    {
        self.total_cpus.clone()
    }

    /// The burstable CPU allocation.
    pub fn cpu_burst(&self) -> (r: String)
        ensures
            r@ == self@.cpu_burst,
    {
        self.cpu_burst.clone()
    }

    /// The requested memory allocation in MiB.
    pub fn total_ram_in_mib(&self) -> (r: u32)
        ensures
            r == self@.total_ram_in_mib,
    {
        self.total_ram_in_mib
    }

    /// The autoscaling floor.
    pub fn min_instances(&self) -> (r: u32)
        ensures
            r == self@.min_instances,
    {
        self.min_instances
    }

    /// The autoscaling ceiling.
    pub fn max_instances(&self) -> (r: u32)
        ensures
            r == self@.max_instances,
    {
        self.max_instances
    }

    /// The ports of this application.
    pub fn ports(&self) -> (r: &Vec<Port>)
        ensures
            r@ == self@.ports,
    {
        &self.ports
    }

    /// The environment variables of this application.
    pub fn environment_variables(&self) -> (r: &Vec<EnvironmentVariable>)
        ensures
            r@.map_values(|e: EnvironmentVariable| e@) == self@.environment_variables,
    {
        &self.environment_variables
    }

    /// The advanced settings of this application.
    pub fn advanced_settings(&self) -> (r: &ApplicationAdvancedSettings)
        ensures
            r@ == self@.advanced_settings,
    {
        &self.advanced_settings
    }

    /// An application with at least one attached volume is stateful.
    pub fn is_stateful(&self) -> (r: bool)
        ensures
            r == (self@.storage.len() > 0),
    {
        self.storage.len() > 0
    }

    /// True when at least one port is publicly accessible.
    pub fn publicly_accessible(&self) -> (r: bool)
        ensures
            r == exists|i: int|
                0 <= i < self@.ports.len() && self@.ports[i].publicly_accessible,
    {
        let mut i: usize = 0;
        while i < self.ports.len()
            invariant
                0 <= i <= self.ports.len(),
                forall|j: int| 0 <= j < i ==> !self@.ports[j].publicly_accessible,
            decreases self.ports.len() - i,
        {
            if self.ports[i].publicly_accessible {
                assert(0 <= i < self@.ports.len() && self@.ports[i as int].publicly_accessible);
                return true;
            }
            i += 1;
        }
        false
    }

    /// The label selector matching this application's pods.
    pub fn selector(&self) -> (r: String)
        ensures
            r@ == "appId="@ + self@.id,
    {
        let mut s = String::new();
        s.append("appId=");
        s.append(self.id.as_str());
        assert(s@ =~= "appId="@ + self@.id);
        s
    }

    /// The selector, in the optional form the install engine consumes.
    pub fn helm_selector(&self) -> (r: Option<String>)
        ensures
            r is Some,
            r->0@ == "appId="@ + self@.id,
    {
        Some(self.selector())
    }

    /// The release name under which the application is installed, cut to at
    /// most fifty characters.
    pub fn helm_release_name(&self) -> (r: String)
        ensures
            r@ == cut_view("application-"@ + self@.id + "-"@ + self@.id, 50),
    {
        let mut s = String::new();
        s.append("application-");
        s.append(self.id.as_str());
        s.append("-");
        s.append(self.id.as_str());
        assert(s@ =~= "application-"@ + self@.id + "-"@ + self@.id);
        cut(s, 50)
    }

    /// The chart directory for applications, under the given library root
    /// and provider directory.
    pub fn helm_chart_dir(&self, lib_root_dir: &str, provider_directory: &str) -> (r: String)
        ensures
            r@ == lib_root_dir@ + "/"@ + provider_directory@ + "/charts/q-application"@,
    {
        let mut s = String::new();
        s.append(lib_root_dir);
        s.append("/");
        s.append(provider_directory);
        s.append("/charts/q-application");
        assert(s@ =~= lib_root_dir@ + "/"@ + provider_directory@ + "/charts/q-application"@);
        s
    }

    /// The sanitized resource name, `app-` followed by the short id. Short
    /// ids consist of lowercase hexadecimal digits and `z`, so no further
    /// escaping is needed.
    pub fn sanitized_name(&self) -> (r: String)
        ensures
            r@ == "app-"@ + self@.id,
    {
        let mut s = String::new();
        s.append("app-");
        s.append(self.id.as_str());
        assert(s@ =~= "app-"@ + self@.id);
        s
    }

    /// The build handle.
    pub fn build(&self) -> (r: &Build)
        ensures
            r@ == self@.build,
    {
        &self.build
    }

    /// The build handle, mutably.
    pub fn build_mut(&mut self) -> (r: &mut Build)
        ensures
            r@ == old(self)@.build,
            final(self)@ == (ApplicationView { build: final(r)@, ..old(self)@ }),
    {
        &mut self.build
    }
}

/// What the build pipeline needs from an application-kind service: its build
/// handle, settings, and the worst-case startup budget.
pub trait ApplicationService: Sized {
    /// View of the build handle.
    spec fn build_spec(&self) -> BuildView;

    /// View of the advanced settings.
    spec fn advanced_settings_spec(&self) -> ApplicationAdvancedSettingsView;

    /// View of the exposed ports.
    spec fn ports_spec(&self) -> Seq<Port>;

    /// The build handle.
    fn get_build(&self) -> (r: &Build)
        ensures
            r@ == self.build_spec(),
    ;

    /// The advanced settings.
    fn get_advanced_settings(&self) -> (r: &ApplicationAdvancedSettings)
        ensures
            r@ == self.advanced_settings_spec(),
    ;

    /// The publicly accessible ports.
    fn public_ports(&self) -> (r: Vec<Port>)
        ensures
            r@ == self.ports_spec().filter(|p: Port| p.publicly_accessible),
    ;

    /// The worst-case startup time in seconds.
    fn startup_timeout(&self) -> (r: u64)
        ensures
            r == startup_timeout_secs(self.advanced_settings_spec()),
    ;
}

impl ApplicationService for Application {
    open spec fn build_spec(&self) -> BuildView {
        self@.build
    }

    open spec fn advanced_settings_spec(&self) -> ApplicationAdvancedSettingsView {
        self@.advanced_settings
    }

    open spec fn ports_spec(&self) -> Seq<Port> {
        self@.ports
    }

    fn get_build(&self) -> (r: &Build) {
        &self.build
    }

    fn get_advanced_settings(&self) -> (r: &ApplicationAdvancedSettings) {
        &self.advanced_settings
    }

    fn public_ports(&self) -> (r: Vec<Port>) {
        let mut out: Vec<Port> = Vec::new();
        let mut i: usize = 0;
        while i < self.ports.len()
            invariant
                0 <= i <= self.ports.len(),
                out@ == self.ports@.take(i as int).filter(|p: Port| p.publicly_accessible),
            decreases self.ports.len() - i,
        {
            proof {
                assert(self.ports@.take(i + 1).drop_last() =~= self.ports@.take(i as int));
                reveal_with_fuel(Seq::filter, 2);
            }
            if self.ports[i].publicly_accessible {
                out.push(self.ports[i]);
            }
            i += 1;
        }
        proof {
            assert(self.ports@.take(self.ports@.len() as int) =~= self.ports@);
        }
        out
    }

    fn startup_timeout(&self) -> (r: u64) {
        let s = &self.advanced_settings;
        proof {
            let rt = s.readiness_probe_timeout_seconds as int;
            let rp = s.readiness_probe_period_seconds as int;
            let rf = s.readiness_probe_failure_threshold as int;
            assert(0 <= (rt + rp) * rf <= 131070 * 65535) by (nonlinear_arith)
                requires
                    0 <= rt <= 65535,
                    0 <= rp <= 65535,
                    0 <= rf <= 65535,
            ;
            let lt = s.liveness_probe_timeout_seconds as int;
            let lp = s.liveness_probe_period_seconds as int;
            let lf = s.liveness_probe_failure_threshold as int;
            assert(0 <= (lt + lp) * lf <= 131070 * 65535) by (nonlinear_arith)
                requires
                    0 <= lt <= 65535,
                    0 <= lp <= 65535,
                    0 <= lf <= 65535,
            ;
        }
        let readiness: u64 = s.readiness_probe_initial_delay_seconds as u64 + (
        s.readiness_probe_timeout_seconds as u64 + s.readiness_probe_period_seconds as u64)
            * s.readiness_probe_failure_threshold as u64;
        let liveness: u64 = s.liveness_probe_initial_delay_seconds as u64 + (
        s.liveness_probe_timeout_seconds as u64 + s.liveness_probe_period_seconds as u64)
            * s.liveness_probe_failure_threshold as u64;
        let probe: u64 = if readiness >= liveness {
            readiness
        } else {
            liveness
        };
        if probe >= 600 {
            probe
        } else {
            600
        }
    }
}

/// The view of a string cut to at most `n` characters.
pub open spec fn cut_view(s: Seq<char>, n: int) -> Seq<char> {
    if s.len() <= n {
        s
    } else {
        s.subrange(0, n)
    }
}

/// Cuts a string to at most `n` characters.
pub fn cut(s: String, n: usize) -> (r: String)
    ensures
        r@ == cut_view(s@, n as int),
{
    let len = s.as_str().unicode_len();
    if len <= n {
        s
    } else {
        let t = s.as_str().substring_char(0, n);
        t.to_owned()
    }
}

} // verus!
