//! The ways in which the registry and the clinical data server fail.

use vstd::prelude::*;

verus! {

/// A failure of the pseudonym registry.
#[derive(Debug, Clone, Copy, PartialEq, Eq, Structural)]
pub enum RegistryError {
    /// The request did not get through.
    Unreachable,
    /// The registry answered with a status that is no success.
    Rejected,
    /// The registry does not know the project in the category asked for.
    NotConfigured,
    /// The answer lacks what it was asked for.
    MalformedResponse,
}

/// A failure of the clinical data server.
#[derive(Debug, Clone, Copy, PartialEq, Eq, Structural)]
pub enum GatewayError {
    /// The request did not get through.
    Unreachable,
    /// The server answered with a status that is no success.
    Rejected,
    /// The answer is no search result.
    ParseError,
    /// The search result holds no patient.
    NotFound,
}

impl RegistryError {
    /// A line that says what went wrong.
    pub fn message(self) -> (line: &'static str)
        ensures
            line@ == match self {
                RegistryError::Unreachable => "Could not reach the pseudonym registry"@,
                RegistryError::Rejected => "Unsuccessful status code"@,
                RegistryError::NotConfigured => "Not configured in the pseudonym registry"@,
                RegistryError::MalformedResponse => "Malformed response"@,
            },
    {
        match self {
            RegistryError::Unreachable => "Could not reach the pseudonym registry",
            RegistryError::Rejected => "Unsuccessful status code",
            RegistryError::NotConfigured => "Not configured in the pseudonym registry",
            RegistryError::MalformedResponse => "Malformed response",
        }
    }
}

impl GatewayError {
    /// A line that says what went wrong.
    pub fn message(self) -> (line: &'static str)
        ensures
            line@ == match self {
                GatewayError::Unreachable => "Could not reach fhir_server"@,
                GatewayError::Rejected => "Unsuccessful status code"@,
                GatewayError::ParseError => "Fail to parse patient resource"@,
                GatewayError::NotFound => "Could not find any patient"@,
            },
    {
        match self {
            GatewayError::Unreachable => "Could not reach fhir_server",
            GatewayError::Rejected => "Unsuccessful status code",
            GatewayError::ParseError => "Fail to parse patient resource",
            GatewayError::NotFound => "Could not find any patient",
        }
    }
}

} // verus!
