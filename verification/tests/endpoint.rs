use project_tagger::config::Config;
use project_tagger::endpoint::{Endpoint, Server};

fn config() -> Config {
    Config {
        mainzelliste_url: "http://bridgehead-patientlist:8080".to_string(),
        mainzelliste_apikey: "key".to_string(),
        site_name: "SITE".to_string(),
        fhir_server_url: "http://bridgehead-ccp-blaze:8080".to_string(),
    }
}

#[test]
fn registry_endpoints() {
    assert_eq!(
        Endpoint::sessions(),
        Endpoint { server: Server::Registry, reference: "/patientlist/sessions".to_string() }
    );
    assert_eq!(
        Endpoint::tokens("abc123"),
        Endpoint {
            server: Server::Registry,
            reference: "/patientlist/sessions/abc123/tokens".to_string()
        }
    );
    assert_eq!(
        Endpoint::patients("t1"),
        Endpoint {
            server: Server::Registry,
            reference: "/patientlist/patients/tokenId/t1".to_string()
        }
    );
}

#[test]
fn clinical_endpoints() {
    assert_eq!(
        Endpoint::metadata(),
        Endpoint { server: Server::Clinical, reference: "/fhir/metadata".to_string() }
    );
    assert_eq!(
        Endpoint::patient_search("xyz"),
        Endpoint { server: Server::Clinical, reference: "/fhir/Patient?identifier=xyz".to_string() }
    );
    assert_eq!(
        Endpoint::patient("p42"),
        Endpoint { server: Server::Clinical, reference: "/fhir/Patient/p42".to_string() }
    );
}

#[test]
fn address_resolves_the_reference_against_the_base_of_its_server() {
    assert_eq!(
        Endpoint::sessions().address(&config()),
        Some("http://bridgehead-patientlist:8080/patientlist/sessions".to_string())
    );
    assert_eq!(
        Endpoint::patient_search("xyz").address(&config()),
        Some("http://bridgehead-ccp-blaze:8080/fhir/Patient?identifier=xyz".to_string())
    );
}

#[test]
fn address_replaces_the_path_of_the_base() {
    let mut config = config();
    config.fhir_server_url = "https://example.org/base/".to_string();
    assert_eq!(
        Endpoint::patient("p42").address(&config),
        Some("https://example.org/fhir/Patient/p42".to_string())
    );
}

#[test]
fn a_base_that_is_no_address_gives_none() {
    let mut config = config();
    config.mainzelliste_url = "not an address".to_string();
    assert_eq!(Endpoint::sessions().address(&config), None);
    config.mainzelliste_url = "mailto:someone@example.org".to_string();
    assert_eq!(Endpoint::sessions().address(&config), None);
}
