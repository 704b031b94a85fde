//! Install units ("charts") and the leveled plan structure.
//!
//! An install unit carries a fully resolved configuration: name, chart
//! path, target namespace, apply action, timeout, set values, and optional
//! bootstrap resources. Units are grouped into levels; levels are applied
//! strictly in order, while units within one level carry no relative
//! ordering guarantee.

use vstd::prelude::*;

verus! {

/// One `key=value` override handed to the chart renderer.
#[derive(Clone, Debug)]
pub struct ChartSetValue {
    pub key: String,
    pub value: String,
}

impl View for ChartSetValue {
    type V = (Seq<char>, Seq<char>);

    open spec fn view(&self) -> (Seq<char>, Seq<char>) {
        (self.key@, self.value@)
    }
}

/// A generated values file: its name and its full content.
#[derive(Clone, Debug)]
pub struct ChartValuesGenerated {
    pub filename: String,
    pub yaml_content: String,
}

impl View for ChartValuesGenerated {
    type V = (Seq<char>, Seq<char>);

    open spec fn view(&self) -> (Seq<char>, Seq<char>) {
        (self.filename@, self.yaml_content@)
    }
}

/// Bootstrap resources (custom resource definitions) fetched before the
/// unit itself is installed.
#[derive(Clone, Debug)]
pub struct CrdsUpdate {
    pub path: String,
    pub resources: Vec<String>,
}

/// Mathematical view of a [`CrdsUpdate`].
pub struct CrdsUpdateView {
    pub path: Seq<char>,
    pub resources: Seq<Seq<char>>,
}

impl View for CrdsUpdate {
    type V = CrdsUpdateView;

    open spec fn view(&self) -> CrdsUpdateView {
        CrdsUpdateView {
            path: self.path@,
            resources: self.resources@.map_values(|s: String| s@),
        }
    }
}

/// The namespaces units are installed into.
#[derive(Clone, Copy, PartialEq, Eq, Structural, Debug)]
pub enum HelmChartNamespaces {
    KubeSystem,
    Prometheus,
    Logging,
    CertManager,
    NginxIngress,
    Qovery,
    Custom,
}

/// What to do with a unit: install it, or destroy a previous install.
#[derive(Clone, Copy, PartialEq, Eq, Structural, Debug)]
pub enum HelmAction {
    Deploy,
    Destroy,
}

/// A released version, as plain numbers: the marker for the minimum
/// version whose upgrade forces a restart.
#[derive(Clone, Copy, PartialEq, Eq, Structural, Debug)]
pub struct UnitVersion {
    pub major: u64,
    pub minor: u64,
    pub patch: u64,
}

impl UnitVersion {
    /// A version from its three components.
    pub fn new(major: u64, minor: u64, patch: u64) -> (r: UnitVersion)
        ensures
            r == (UnitVersion { major, minor, patch }),
    {
        UnitVersion { major, minor, patch }
    }
}

/// The fully resolved configuration of one install unit.
#[derive(Clone, Debug)]
pub struct ChartInfo {
    pub name: String,
    pub path: String,
    pub namespace: HelmChartNamespaces,
    pub custom_namespace: Option<String>,
    pub action: HelmAction,
    pub timeout_in_seconds: u64,
    pub values: Vec<ChartSetValue>,
    pub values_files: Vec<String>,
    pub yaml_files_content: Vec<ChartValuesGenerated>,
    pub last_breaking_version_requiring_restart: Option<UnitVersion>,
    pub crds_update: Option<CrdsUpdate>,
    pub selector: Option<String>,
}

/// Mathematical view of a [`ChartInfo`].
pub struct ChartInfoView {
    pub name: Seq<char>,
    pub path: Seq<char>,
    pub namespace: HelmChartNamespaces,
    pub custom_namespace: Option<Seq<char>>,
    pub action: HelmAction,
    pub timeout_in_seconds: u64,
    pub values: Seq<(Seq<char>, Seq<char>)>,
    pub values_files: Seq<Seq<char>>,
    pub yaml_files_content: Seq<(Seq<char>, Seq<char>)>,
    pub last_breaking_version_requiring_restart: Option<UnitVersion>,
    pub crds_update: Option<CrdsUpdateView>,
    pub selector: Option<Seq<char>>,
}

impl View for ChartInfo {
    type V = ChartInfoView;

    open spec fn view(&self) -> ChartInfoView {
        ChartInfoView {
            name: self.name@,
            path: self.path@,
            namespace: self.namespace,
            custom_namespace: match self.custom_namespace {
                Some(ref s) => Some(s@),
                None => None,
            },
            action: self.action,
            timeout_in_seconds: self.timeout_in_seconds,
            values: self.values@.map_values(|v: ChartSetValue| v@),
            values_files: self.values_files@.map_values(|s: String| s@),
            yaml_files_content: self.yaml_files_content@.map_values(
                |v: ChartValuesGenerated| v@,
            ),
            last_breaking_version_requiring_restart: self.last_breaking_version_requiring_restart,
            crds_update: match self.crds_update {
                Some(ref c) => Some(c@),
                None => None,
            },
            selector: match self.selector {
                Some(ref s) => Some(s@),
                None => None,
            },
        }
    }
}

/// The string form of a unit's namespace.
pub open spec fn namespace_view(ns: HelmChartNamespaces) -> Seq<char> {
    match ns {
        HelmChartNamespaces::KubeSystem => "kube-system"@,
        HelmChartNamespaces::Prometheus => "prometheus"@,
        HelmChartNamespaces::Logging => "logging"@,
        HelmChartNamespaces::CertManager => "cert-manager"@,
        HelmChartNamespaces::NginxIngress => "nginx-ingress"@,
        HelmChartNamespaces::Qovery => "qovery"@,
        HelmChartNamespaces::Custom => "custom"@,
    }
}

impl ChartInfo {
    /// A unit with the given name and chart path, and the default
    /// configuration otherwise: installed into `kube-system`, with a
    /// three-minute timeout and no overrides.
    pub fn new_with_defaults(name: String, path: String) -> (r: ChartInfo)
        ensures
            r@.name == name@,
            r@.path == path@,
            r@.namespace == HelmChartNamespaces::KubeSystem,
            r@.custom_namespace is None,
            r@.action == HelmAction::Deploy,
            r@.timeout_in_seconds == 180,
            r@.values == Seq::<(Seq<char>, Seq<char>)>::empty(),
            r@.values_files == Seq::<Seq<char>>::empty(),
            r@.yaml_files_content == Seq::<(Seq<char>, Seq<char>)>::empty(),
            r@.last_breaking_version_requiring_restart is None,
            r@.crds_update is None,
            r@.selector is None,
    {
        let r = ChartInfo {
            name,
            path,
            namespace: HelmChartNamespaces::KubeSystem,
            custom_namespace: None,
            action: HelmAction::Deploy,
            timeout_in_seconds: 180,
            values: Vec::new(),
            values_files: Vec::new(),
            yaml_files_content: Vec::new(),
            last_breaking_version_requiring_restart: None,
            crds_update: None,
            selector: None,
        };
        proof {
            assert(r@.values =~= Seq::<(Seq<char>, Seq<char>)>::empty());
            assert(r@.values_files =~= Seq::<Seq<char>>::empty());
            assert(r@.yaml_files_content =~= Seq::<(Seq<char>, Seq<char>)>::empty());
        }
        r
    }

    /// The string form of the unit's namespace: the custom namespace when
    /// one is set, else the fixed namespace's name.
    pub fn get_namespace_string(&self) -> (r: String)
        ensures
            self@.namespace == HelmChartNamespaces::Custom && self@.custom_namespace is Some
                ==> r@ == self@.custom_namespace->0,
            !(self@.namespace == HelmChartNamespaces::Custom && self@.custom_namespace is Some)
                ==> r@ == namespace_view(self@.namespace),
    {
        if let HelmChartNamespaces::Custom = self.namespace {
            if let Some(ref custom) = self.custom_namespace {
                return custom.clone();
            }
        }
        let s: &'static str = match self.namespace {
            HelmChartNamespaces::KubeSystem => "kube-system",
            HelmChartNamespaces::Prometheus => "prometheus",
            HelmChartNamespaces::Logging => "logging",
            HelmChartNamespaces::CertManager => "cert-manager",
            HelmChartNamespaces::NginxIngress => "nginx-ingress",
            HelmChartNamespaces::Qovery => "qovery",
            HelmChartNamespaces::Custom => "custom",
        };
        s.to_owned()
    }
}

/// A plain install unit with no pre-apply hook.
#[derive(Clone, Debug)]
pub struct CommonChart {
    pub chart_info: ChartInfo,
}

impl CommonChart {
    /// The unit's configuration.
    pub fn get_chart_info(&self) -> (r: &ChartInfo)
        ensures
            r@ == self.chart_info@,
    {
        &self.chart_info
    }
}

/// The cluster-DNS configuration unit.
#[derive(Clone, Debug)]
pub struct CoreDNSConfigChart {
    pub chart_info: ChartInfo,
}

impl CoreDNSConfigChart {
    /// The unit's configuration.
    pub fn get_chart_info(&self) -> (r: &ChartInfo)
        ensures
            r@ == self.chart_info@,
    {
        &self.chart_info
    }
}

/// One install unit of a level: a closed set of unit kinds. The
/// networking-plugin unit carries the ownership-adoption pre-apply hook;
/// the others have none.
#[derive(Clone, Debug)]
pub enum HelmUnit {
    Common(CommonChart),
    CoreDnsConfig(CoreDNSConfigChart),
    VpcCni(crate::cni::AwsVpcCniChart),
}

impl HelmUnit {
    /// The view of the unit's configuration.
    pub open spec fn chart_info_view(self) -> ChartInfoView {
        match self {
            HelmUnit::Common(c) => c.chart_info@,
            HelmUnit::CoreDnsConfig(c) => c.chart_info@,
            HelmUnit::VpcCni(c) => c.chart_info@,
        }
    }

    /// The unit's name.
    pub open spec fn name_view(self) -> Seq<char> {
        self.chart_info_view().name
    }

    /// The unit's configuration.
    pub fn get_chart_info(&self) -> (r: &ChartInfo)
        ensures
            r@ == self.chart_info_view(),
    {
        match self {
            HelmUnit::Common(c) => &c.chart_info,
            HelmUnit::CoreDnsConfig(c) => &c.chart_info,
            HelmUnit::VpcCni(c) => &c.chart_info,
        }
    }
}

/// The names of the units of one level, in the order they were appended.
pub open spec fn level_names(level: Seq<HelmUnit>) -> Seq<Seq<char>> {
    level.map_values(|u: HelmUnit| u.name_view())
}

} // verus!
