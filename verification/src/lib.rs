//! Links pseudonymised patients of a record-linkage registry to the patient
//! resources of a clinical data server and tags each resolved patient with a
//! project-membership marker.

pub mod config;
pub mod endpoint;
pub mod error;
pub mod events;
pub mod fhir;
pub mod gateway;
pub mod json;
pub mod mainzelliste;
pub mod model;
pub mod pipeline;
pub mod project;
pub mod registry;
pub mod reply;
pub mod runs;
pub mod session;
pub mod tagging;
