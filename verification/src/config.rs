//! What a run is configured with.

use vstd::prelude::*;

verus! {

/// The addresses of the two servers, the key of the registry and the name of
/// the site.
#[derive(Debug, Clone)]
pub struct Config {
    /// Base address of the pseudonym registry.
    pub mainzelliste_url: String,
    /// Key that every request to the registry carries in a header.
    pub mainzelliste_apikey: String,
    /// Name of the site, of which the identifier types are made.
    pub site_name: String,
    /// Base address of the clinical data server.
    pub fhir_server_url: String,
}

/// Mathematical model of a [`Config`].
pub ghost struct ConfigView {
    pub mainzelliste_url: Seq<char>,
    pub mainzelliste_apikey: Seq<char>,
    pub site_name: Seq<char>,
    pub fhir_server_url: Seq<char>,
}

impl View for Config {
    type V = ConfigView;

    open spec fn view(&self) -> ConfigView {
        ConfigView {
            mainzelliste_url: self.mainzelliste_url@,
            mainzelliste_apikey: self.mainzelliste_apikey@,
            site_name: self.site_name@,
            fhir_server_url: self.fhir_server_url@,
        }
    }
}

} // verus!
