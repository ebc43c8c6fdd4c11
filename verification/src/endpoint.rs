//! Where the requests of the pipeline go: a server and a reference on it.

use crate::config::Config;
use vstd::prelude::*;

verus! {

/// One of the two servers that the pipeline talks to.
#[derive(Debug, Clone, Copy, PartialEq, Eq, Structural)]
pub enum Server {
    /// The pseudonym registry.
    Registry,
    /// The clinical data server.
    Clinical,
}

/// The target of a request: a server, and a reference that is resolved
/// against the base address of that server.
#[derive(Debug, Clone, PartialEq)]
pub struct Endpoint {
    pub server: Server,
    pub reference: String,
}

/// Mathematical model of an [`Endpoint`].
pub ghost struct EndpointView {
    pub server: Server,
    pub reference: Seq<char>,
}

impl DeepView for Endpoint {
    type V = EndpointView;

    open spec fn deep_view(&self) -> EndpointView {
        EndpointView { server: self.server, reference: self.reference@ }
    }
}

impl View for Endpoint {
    type V = EndpointView;

    open spec fn view(&self) -> EndpointView {
        self.deep_view()
    }
}

/// Where sessions are opened.
pub open spec fn sessions_of() -> EndpointView {
    EndpointView { server: Server::Registry, reference: "/patientlist/sessions"@ }
}

/// Where the tokens of a session are requested.
pub open spec fn tokens_of(session: Seq<char>) -> EndpointView {
    EndpointView {
        server: Server::Registry,
        reference: "/patientlist/sessions/"@ + session + "/tokens"@,
    }
}

/// Where the patients that a token covers are read.
pub open spec fn patients_of(token: Seq<char>) -> EndpointView {
    EndpointView { server: Server::Registry, reference: "/patientlist/patients/tokenId/"@ + token }
}

/// Where the clinical data server says what it can do.
pub open spec fn metadata_of() -> EndpointView {
    EndpointView { server: Server::Clinical, reference: "/fhir/metadata"@ }
}

/// Where the patients with a given identifier are searched.
pub open spec fn patient_search_of(pseudonym: Seq<char>) -> EndpointView {
    EndpointView { server: Server::Clinical, reference: "/fhir/Patient?identifier="@ + pseudonym }
}

/// Where the patient resource with a given id is kept.
pub open spec fn patient_of(id: Seq<char>) -> EndpointView {
    EndpointView { server: Server::Clinical, reference: "/fhir/Patient/"@ + id }
}

/// The result of resolving a reference against a base address, as
/// `Url::join` computes it on the base that `Url::parse` reads; nothing where
/// either of the two fails.
pub uninterp spec fn url_join(base: Seq<char>, reference: Seq<char>) -> Option<Seq<char>>;

/// Resolves a reference against a base address.
///
/// Calls `reqwest::Url::parse` on the base and `Url::join` on what it gives,
/// and hands back the text of the resulting address. The contract claims
/// that the outcome is a function of the two texts alone.
#[verifier::external_body]
fn join_url(base: &str, reference: &str) -> (address: Option<String>)
    ensures
        address.deep_view() == url_join(base@, reference@),
{
    match reqwest::Url::parse(base) {
        Ok(base) => match base.join(reference) {
            Ok(address) => Some(String::from(address)),
            Err(_) => None,
        },
        Err(_) => None,
    }
}

impl Endpoint {
    /// The endpoint where sessions are opened.
    pub fn sessions() -> (endpoint: Endpoint)
        ensures
            endpoint@ == sessions_of(),
    {
        Endpoint { server: Server::Registry, reference: String::from_str("/patientlist/sessions") }
    }

    /// The endpoint where the tokens of a session are requested.
    pub fn tokens(session: &str) -> (endpoint: Endpoint)
        ensures
            endpoint@ == tokens_of(session@),
    {
        let mut reference = String::from_str("/patientlist/sessions/");
        reference.append(session);
        reference.append("/tokens");
        Endpoint { server: Server::Registry, reference }
    }

    /// The endpoint where the patients that a token covers are read.
    pub fn patients(token: &str) -> (endpoint: Endpoint)
        ensures
            endpoint@ == patients_of(token@),
    {
        let mut reference = String::from_str("/patientlist/patients/tokenId/");
        reference.append(token);
        Endpoint { server: Server::Registry, reference }
    }

    /// The endpoint where the clinical data server says what it can do.
    pub fn metadata() -> (endpoint: Endpoint)
        ensures
            endpoint@ == metadata_of(),
    {
        Endpoint { server: Server::Clinical, reference: String::from_str("/fhir/metadata") }
    }

    /// The endpoint where the patients with a given identifier are searched.
    pub fn patient_search(pseudonym: &str) -> (endpoint: Endpoint)
        ensures
            endpoint@ == patient_search_of(pseudonym@),
    {
        let mut reference = String::from_str("/fhir/Patient?identifier=");
        reference.append(pseudonym);
        Endpoint { server: Server::Clinical, reference }
    }

    /// The endpoint where the patient resource with a given id is kept.
    pub fn patient(id: &str) -> (endpoint: Endpoint)
        ensures
            endpoint@ == patient_of(id@),
    {
        let mut reference = String::from_str("/fhir/Patient/");
        reference.append(id);
        Endpoint { server: Server::Clinical, reference }
    }

    /// The base address of the server of this endpoint.
    pub open spec fn base_of(self, config: Config) -> Seq<char> {
        match self.server {
            Server::Registry => config.mainzelliste_url@,
            Server::Clinical => config.fhir_server_url@,
        }
    }

    /// The full address of the endpoint under a configuration: its reference
    /// resolved against the base address of its server. There is none where
    /// the two do not make an address.
    pub fn address(&self, config: &Config) -> (address: Option<String>)
        ensures
            address.deep_view() == url_join(self.base_of(*config), self.reference@),
    {
        match self.server {
            Server::Registry => join_url(config.mainzelliste_url.as_str(), self.reference.as_str()),
            Server::Clinical => join_url(config.fhir_server_url.as_str(), self.reference.as_str()),
        }
    }
}

} // verus!
