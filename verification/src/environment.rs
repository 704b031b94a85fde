//! An environment: a namespace-scoped collection of application, container,
//! router and database services, with one lifecycle action for the whole
//! collection.

use vstd::prelude::*;
use crate::application::{Application, ApplicationView};
use crate::ids::{short_id_view, to_short_id};
use crate::service::{Action, ServiceInfo, ServiceInfoView};

verus! {

/// An environment and the services it contains. The environment's own
/// action applies to the transaction step; each contained service still
/// carries its own action, filterable independently.
pub struct Environment {
    pub namespace: String,
    pub id: String,
    pub long_id: u128,
    pub project_id: String,
    pub project_long_id: u128,
    pub owner_id: String,
    pub organization_id: String,
    pub organization_long_id: u128,
    pub action: Action,
    pub applications: Vec<Application>,
    pub containers: Vec<ServiceInfo>,
    pub routers: Vec<ServiceInfo>,
    pub databases: Vec<ServiceInfo>,
}

/// Mathematical view of an [`Environment`].
pub struct EnvironmentView {
    pub namespace: Seq<char>,
    pub id: Seq<char>,
    pub long_id: u128,
    pub project_id: Seq<char>,
    pub project_long_id: u128,
    pub owner_id: Seq<char>,
    pub organization_id: Seq<char>,
    pub organization_long_id: u128,
    pub action: Action,
    pub applications: Seq<ApplicationView>,
    pub containers: Seq<ServiceInfoView>,
    pub routers: Seq<ServiceInfoView>,
    pub databases: Seq<ServiceInfoView>,
}

impl View for Environment {
    type V = EnvironmentView;

    open spec fn view(&self) -> EnvironmentView {
        EnvironmentView {
            namespace: self.namespace@,
            id: self.id@,
            long_id: self.long_id,
            project_id: self.project_id@,
            project_long_id: self.project_long_id,
            owner_id: self.owner_id@,
            organization_id: self.organization_id@,
            organization_long_id: self.organization_long_id,
            action: self.action,
            applications: self.applications@.map_values(|a: Application| a@),
            containers: self.containers@.map_values(|s: ServiceInfo| s@),
            routers: self.routers@.map_values(|s: ServiceInfo| s@),
            databases: self.databases@.map_values(|s: ServiceInfo| s@),
        }
    }
}

/// The namespace an environment lives in: derived deterministically from
/// the project and environment short ids, joined by a dash.
pub open spec fn namespace_view(project_long_id: u128, long_id: u128) -> Seq<char> {
    short_id_view(project_long_id) + seq!['-'] + short_id_view(long_id)
}

impl Environment {
    /// Builds an environment. Short ids and the namespace are derived from
    /// the 128-bit ids.
    pub fn new(
        long_id: u128,
        project_long_id: u128,
        organization_long_id: u128,
        action: Action,
        applications: Vec<Application>,
        containers: Vec<ServiceInfo>,
        routers: Vec<ServiceInfo>,
        databases: Vec<ServiceInfo>,
    ) -> (r: Environment)
        ensures
            r@.namespace == namespace_view(project_long_id, long_id),
            r@.id == short_id_view(long_id),
            r@.long_id == long_id,
            r@.project_id == short_id_view(project_long_id),
            r@.project_long_id == project_long_id,
            r@.owner_id == "FAKE"@,
            r@.organization_id == short_id_view(organization_long_id),
            r@.organization_long_id == organization_long_id,
            r@.action == action,
            r@.applications == applications@.map_values(|a: Application| a@),
            r@.containers == containers@.map_values(|s: ServiceInfo| s@),
            r@.routers == routers@.map_values(|s: ServiceInfo| s@),
            r@.databases == databases@.map_values(|s: ServiceInfo| s@),
    {
        let project_id = to_short_id(project_long_id);
        let env_id = to_short_id(long_id);
        let mut namespace = project_id.clone();
        namespace.append("-");
        namespace.append(env_id.as_str());
        proof {
            reveal_strlit("-");
            assert(namespace@ =~= namespace_view(project_long_id, long_id));
        }
        Environment {
            namespace,
            id: env_id,
            long_id,
            project_id,
            project_long_id,
            owner_id: String::from_str("FAKE"),
            organization_id: to_short_id(organization_long_id),
            organization_long_id,
            action,
            applications,
            containers,
            routers,
            databases,
        }
    }

    /// The long (128-bit) id of the environment.
    pub fn long_id(&self) -> (r: u128)
        ensures
            r == self@.long_id,
    {
        self.long_id
    }

    /// The namespace the environment's resources live in.
    pub fn namespace(&self) -> (r: &str)
        ensures
            r@ == self@.namespace,
    {
        self.namespace.as_str()
    }
}

} // verus!
