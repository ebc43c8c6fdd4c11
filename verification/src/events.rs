//! What passes between the pipeline and whoever drives it: the commands that
//! the pipeline gives, the events that answer them, and the reports that it
//! makes on the way.

use crate::endpoint::{Endpoint, EndpointView};
use crate::error::{GatewayError, RegistryError};
use crate::fhir::{Resource, ResourceView};
use crate::mainzelliste::{Category, Token, TokenView};
use crate::reply::{ClinicalReply, ClinicalReplyView, RegistryReply, RegistryReplyView};
use vstd::prelude::*;

verus! {

/// The seconds to wait before the clinical data server is probed again.
pub const POLL_SECONDS: u64 = 10;

/// The answer to a command, as it came back from one of the servers.
#[derive(Debug, Clone, PartialEq)]
pub enum Event {
    /// The answer to a probe of the clinical data server.
    Probed(ClinicalReply),
    /// The answer to a session request.
    SessionOpened(RegistryReply),
    /// The answer to a token request.
    TokenIssued(RegistryReply),
    /// The answer to a request for the patients of a token.
    PatientsResolved(RegistryReply),
    /// The answer to a search for a patient.
    PatientFetched(ClinicalReply),
    /// The answer to the write of a patient resource.
    PatientStored(ClinicalReply),
}

/// What the driver is to do next. Every command but the last three is a
/// request, and its answer is the next event.
#[derive(Debug, Clone, PartialEq)]
pub enum Command {
    /// Wait for so many seconds, then get the endpoint.
    Probe { endpoint: Endpoint, delay_seconds: u64 },
    /// Post to the endpoint, without a body.
    OpenSession { endpoint: Endpoint },
    /// Post the body to the endpoint.
    RequestToken { endpoint: Endpoint, body: Token },
    /// Get the endpoint.
    ResolvePatients { endpoint: Endpoint },
    /// Get the endpoint.
    FetchPatient { endpoint: Endpoint },
    /// Put the resource, whole, to the endpoint.
    StorePatient { endpoint: Endpoint, resource: Resource },
    /// The event answered no request: nothing has changed, and the request
    /// that is open, if there is one, stays open.
    Ignore,
    /// The run is complete.
    Finish,
    /// The run has failed.
    Abort,
}

/// A line of the account that the pipeline gives of a run.
#[derive(Debug, Clone, PartialEq)]
pub enum Report {
    /// The run begins.
    Starting,
    /// The clinical data server is not ready yet.
    WaitingForServer,
    /// The patients of a project are taken up.
    ProjectStarted { project: String },
    /// No session could be opened.
    SessionFailed { cause: RegistryError },
    /// The registry gave no token for a project in a category.
    NotConfigured { project: String, category: Category, cause: RegistryError },
    /// The registry gave no patients for a project in a category.
    NoPatients { project: String, category: Category, cause: RegistryError },
    /// The registry gave so many patients for a project in a category.
    PatientsFound { count: usize, project: String, category: Category },
    /// The patient with this pseudonym carries the marker of the project.
    PatientTagged { pseudonym: String },
    /// The patient with this pseudonym could not be fetched.
    PatientNotFound { pseudonym: String, cause: GatewayError },
    /// The patient with this pseudonym could not be stored.
    StoreFailed { pseudonym: String, cause: GatewayError },
}

/// Mathematical model of an [`Event`].
pub ghost enum EventView {
    Probed(ClinicalReplyView),
    SessionOpened(RegistryReplyView),
    TokenIssued(RegistryReplyView),
    PatientsResolved(RegistryReplyView),
    PatientFetched(ClinicalReplyView),
    PatientStored(ClinicalReplyView),
}

/// Mathematical model of a [`Command`].
pub ghost enum CommandView {
    Probe { endpoint: EndpointView, delay_seconds: u64 },
    OpenSession { endpoint: EndpointView },
    RequestToken { endpoint: EndpointView, body: TokenView },
    ResolvePatients { endpoint: EndpointView },
    FetchPatient { endpoint: EndpointView },
    StorePatient { endpoint: EndpointView, resource: ResourceView },
    Ignore,
    Finish,
    Abort,
}

/// Mathematical model of a [`Report`].
pub ghost enum ReportView {
    Starting,
    WaitingForServer,
    ProjectStarted { project: Seq<char> },
    SessionFailed { cause: RegistryError },
    NotConfigured { project: Seq<char>, category: Category, cause: RegistryError },
    NoPatients { project: Seq<char>, category: Category, cause: RegistryError },
    PatientsFound { count: nat, project: Seq<char>, category: Category },
    PatientTagged { pseudonym: Seq<char> },
    PatientNotFound { pseudonym: Seq<char>, cause: GatewayError },
    StoreFailed { pseudonym: Seq<char>, cause: GatewayError },
}

impl DeepView for Event {
    type V = EventView;

    open spec fn deep_view(&self) -> EventView {
        match self {
            Event::Probed(reply) => EventView::Probed(reply@),
            Event::SessionOpened(reply) => EventView::SessionOpened(reply@),
            Event::TokenIssued(reply) => EventView::TokenIssued(reply@),
            Event::PatientsResolved(reply) => EventView::PatientsResolved(reply@),
            Event::PatientFetched(reply) => EventView::PatientFetched(reply@),
            Event::PatientStored(reply) => EventView::PatientStored(reply@),
        }
    }
}

impl View for Event {
    type V = EventView;

    open spec fn view(&self) -> EventView {
        self.deep_view()
    }
}

impl DeepView for Command {
    type V = CommandView;

    open spec fn deep_view(&self) -> CommandView {
        match self {
            Command::Probe { endpoint, delay_seconds } => CommandView::Probe {
                endpoint: endpoint@,
                delay_seconds: *delay_seconds,
            },
            Command::OpenSession { endpoint } => CommandView::OpenSession { endpoint: endpoint@ },
            Command::RequestToken { endpoint, body } => CommandView::RequestToken {
                endpoint: endpoint@,
                body: body@,
            },
            Command::ResolvePatients { endpoint } => CommandView::ResolvePatients {
                endpoint: endpoint@,
            },
            Command::FetchPatient { endpoint } => CommandView::FetchPatient { endpoint: endpoint@ },
            Command::StorePatient { endpoint, resource } => CommandView::StorePatient {
                endpoint: endpoint@,
                resource: resource@,
            },
            Command::Ignore => CommandView::Ignore,
            Command::Finish => CommandView::Finish,
            Command::Abort => CommandView::Abort,
        }
    }
}

impl View for Command {
    type V = CommandView;

    open spec fn view(&self) -> CommandView {
        self.deep_view()
    }
}

impl DeepView for Report {
    type V = ReportView;

    open spec fn deep_view(&self) -> ReportView {
        match self {
            Report::Starting => ReportView::Starting,
            Report::WaitingForServer => ReportView::WaitingForServer,
            Report::ProjectStarted { project } => ReportView::ProjectStarted { project: project@ },
            Report::SessionFailed { cause } => ReportView::SessionFailed { cause: *cause },
            Report::NotConfigured { project, category, cause } => ReportView::NotConfigured {
                project: project@,
                category: *category,
                cause: *cause,
            },
            Report::NoPatients { project, category, cause } => ReportView::NoPatients {
                project: project@,
                category: *category,
                cause: *cause,
            },
            Report::PatientsFound { count, project, category } => ReportView::PatientsFound {
                count: *count as nat,
                project: project@,
                category: *category,
            },
            Report::PatientTagged { pseudonym } => ReportView::PatientTagged {
                pseudonym: pseudonym@,
            },
            Report::PatientNotFound { pseudonym, cause } => ReportView::PatientNotFound {
                pseudonym: pseudonym@,
                cause: *cause,
            },
            Report::StoreFailed { pseudonym, cause } => ReportView::StoreFailed {
                pseudonym: pseudonym@,
                cause: *cause,
            },
        }
    }
}

impl View for Report {
    type V = ReportView;

    open spec fn view(&self) -> ReportView {
        self.deep_view()
    }
}

impl Report {
    /// Whether the line speaks of a failure.
    pub open spec fn failure(self) -> bool {
        match self {
            Report::SessionFailed { .. } => true,
            Report::NotConfigured { .. } => true,
            Report::PatientNotFound { .. } => true,
            Report::StoreFailed { .. } => true,
            _ => false,
        }
    }

    /// Tells whether the line speaks of a failure.
    pub fn is_failure(&self) -> (yes: bool)
        ensures
            yes == self.failure(),
    {
        match self {
            Report::SessionFailed { .. } => true,
            Report::NotConfigured { .. } => true,
            Report::PatientNotFound { .. } => true,
            Report::StoreFailed { .. } => true,
            _ => false,
        }
    }
}

} // verus!
