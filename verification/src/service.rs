//! Common service model: lifecycle actions, service kinds and progress
//! notifications.

use vstd::prelude::*;

verus! {

/// The lifecycle action attached to an environment or to one of its
/// services.
#[derive(Clone, Copy, PartialEq, Eq, Structural, Debug)]
pub enum Action {
    Create,
    Pause,
    Delete,
    Nothing,
}

/// The kind of a service within an environment.
#[derive(Clone, Copy, PartialEq, Eq, Structural, Debug)]
pub enum ServiceType {
    Application,
    Container,
    Router,
    Database,
}

/// Severity of a progress notification.
#[derive(Clone, Copy, PartialEq, Eq, Structural, Debug)]
pub enum ProgressLevel {
    Info,
    Warn,
    Error,
}

/// Identifies the service a progress notification is about.
#[derive(Clone, PartialEq, Eq, Debug)]
pub struct ProgressScope {
    pub service_type: ServiceType,
    pub id: String,
}

/// Mathematical view of a progress scope.
pub struct ProgressScopeView {
    pub service_type: ServiceType,
    pub id: Seq<char>,
}

impl View for ProgressScope {
    type V = ProgressScopeView;

    open spec fn view(&self) -> ProgressScopeView {
        ProgressScopeView { service_type: self.service_type, id: self.id@ }
    }
}

/// A container, router or database service as the sequencer sees it:
/// identity plus its own lifecycle action.
#[derive(Clone, Debug)]
pub struct ServiceInfo {
    pub id: String,
    pub long_id: u128,
    pub name: String,
    pub action: Action,
}

/// Mathematical view of a [`ServiceInfo`].
pub struct ServiceInfoView {
    pub id: Seq<char>,
    pub long_id: u128,
    pub name: Seq<char>,
    pub action: Action,
}

impl View for ServiceInfo {
    type V = ServiceInfoView;

    open spec fn view(&self) -> ServiceInfoView {
        ServiceInfoView {
            id: self.id@,
            long_id: self.long_id,
            name: self.name@,
            action: self.action,
        }
    }
}

} // verus!
