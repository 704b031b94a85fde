//! The router service model and the decisions of its deployment actions:
//! which chart configuration an install or a removal uses, and which
//! domains the post-deployment check resolves.

use vstd::prelude::*;
use crate::application::{cut, cut_view};
use crate::helm::{ChartInfo, HelmAction, HelmChartNamespaces};
use crate::ids::{short_id_view, to_short_id};
use crate::service::Action;

verus! {

/// A custom domain routed to a service, and the domain it must resolve
/// to.
#[derive(Clone, Debug)]
pub struct CustomDomain {
    pub domain: String,
    pub target_domain: String,
}

/// Mathematical view of a [`CustomDomain`].
pub struct CustomDomainView {
    pub domain: Seq<char>,
    pub target_domain: Seq<char>,
}

impl View for CustomDomain {
    type V = CustomDomainView;

    open spec fn view(&self) -> CustomDomainView {
        CustomDomainView { domain: self.domain@, target_domain: self.target_domain@ }
    }
}

/// Tunable settings of a router deployment.
#[derive(Clone, Debug)]
pub struct RouterAdvancedSettings {
    pub custom_domain_check_enabled: bool,
}

/// A router: the ingress-facing service of an environment.
pub struct Router {
    pub id: String,
    pub long_id: u128,
    pub name: String,
    pub action: Action,
    pub default_domain: String,
    pub custom_domains: Vec<CustomDomain>,
    pub advanced_settings: RouterAdvancedSettings,
}

/// Mathematical view of a [`Router`].
pub struct RouterView {
    pub id: Seq<char>,
    pub long_id: u128,
    pub name: Seq<char>,
    pub action: Action,
    pub default_domain: Seq<char>,
    pub custom_domains: Seq<CustomDomainView>,
    pub custom_domain_check_enabled: bool,
}

impl View for Router {
    type V = RouterView;

    open spec fn view(&self) -> RouterView {
        RouterView {
            id: self.id@,
            long_id: self.long_id,
            name: self.name@,
            action: self.action,
            default_domain: self.default_domain@,
            custom_domains: self.custom_domains@.map_values(|c: CustomDomain| c@),
            custom_domain_check_enabled: self.advanced_settings.custom_domain_check_enabled,
        }
    }
}

impl Router {
    /// Builds a router; the short id is derived from the long id.
    pub fn new(
        long_id: u128,
        action: Action,
        name: &str,
        default_domain: &str,
        custom_domains: Vec<CustomDomain>,
        advanced_settings: RouterAdvancedSettings,
    ) -> (r: Router)
        ensures
            r@.id == short_id_view(long_id),
            r@.long_id == long_id,
            r@.name == name@,
            r@.action == action,
            r@.default_domain == default_domain@,
            r@.custom_domains == custom_domains@.map_values(|c: CustomDomain| c@),
            r@.custom_domain_check_enabled == advanced_settings.custom_domain_check_enabled,
    {
        Router {
            id: to_short_id(long_id),
            long_id,
            name: name.to_owned(),
            action,
            default_domain: default_domain.to_owned(),
            custom_domains,
            advanced_settings,
        }
    }

    /// The release name under which the router is installed, cut to at
    /// most fifty characters.
    pub fn helm_release_name(&self) -> (r: String)
        ensures
            r@ == cut_view("router-"@ + self@.id, 50),
    {
        let mut s = String::new();
        s.append("router-");
        s.append(self.id.as_str());
        assert(s@ =~= "router-"@ + self@.id);
        cut(s, 50)
    }

    /// The chart configuration installing this router into its
    /// environment's namespace.
    pub fn deployment_chart_info(
        &self,
        workspace_directory: &str,
        environment_namespace: &str,
    ) -> (r: ChartInfo)
        ensures
            r@.name == cut_view("router-"@ + self@.id, 50),
            r@.path == workspace_directory@,
            r@.namespace == HelmChartNamespaces::Custom,
            r@.custom_namespace == Some(environment_namespace@),
            r@.action == HelmAction::Deploy,
            r@.values.len() == 0,
    {
        let mut chart_info = ChartInfo::new_with_defaults(
            self.helm_release_name(),
            workspace_directory.to_owned(),
        );
        chart_info.namespace = HelmChartNamespaces::Custom;
        chart_info.custom_namespace = Some(environment_namespace.to_owned());
        chart_info
    }

    /// The chart configuration removing this router's previous install
    /// from its environment's namespace.
    pub fn deletion_chart_info(
        &self,
        workspace_directory: &str,
        environment_namespace: &str,
    ) -> (r: ChartInfo)
        ensures
            r@.name == cut_view("router-"@ + self@.id, 50),
            r@.path == workspace_directory@,
            r@.namespace == HelmChartNamespaces::Custom,
            r@.custom_namespace == Some(environment_namespace@),
            r@.action == HelmAction::Destroy,
            r@.values.len() == 0,
    {
        let mut chart_info = self.deployment_chart_info(
            workspace_directory,
            environment_namespace,
        );
        chart_info.action = HelmAction::Destroy;
        chart_info
    }

    /// The domains the post-deployment check resolves: the default domain
    /// always (to an address), and the custom domains (to their targets)
    /// only when the custom-domain check is enabled.
    pub fn domains_to_check(&self) -> (r: (String, Vec<CustomDomain>))
        ensures
            r.0@ == self@.default_domain,
            self@.custom_domain_check_enabled ==> r.1@.map_values(|c: CustomDomain| c@)
                == self@.custom_domains,
            !self@.custom_domain_check_enabled ==> r.1@.len() == 0,
    {
        let default_domain = self.default_domain.clone();
        if !self.advanced_settings.custom_domain_check_enabled {
            return (default_domain, Vec::new());
        }
        let mut customs: Vec<CustomDomain> = Vec::new();
        let mut i: usize = 0;
        while i < self.custom_domains.len()
            invariant
                0 <= i <= self.custom_domains@.len(),
                customs@.len() == i,
                forall|j: int|
                    0 <= j < i ==> (#[trigger] customs@[j]).domain@
                        == self.custom_domains@[j].domain@ && customs@[j].target_domain@
                        == self.custom_domains@[j].target_domain@,
            decreases self.custom_domains@.len() - i,
        {
            customs.push(
                CustomDomain {
                    domain: self.custom_domains[i].domain.clone(),
                    target_domain: self.custom_domains[i].target_domain.clone(),
                },
            );
            i += 1;
        }
        proof {
            assert(customs@.map_values(|c: CustomDomain| c@) =~= self.custom_domains@.map_values(
                |c: CustomDomain| c@,
            ));
        }
        (default_domain, customs)
    }
}

} // verus!
