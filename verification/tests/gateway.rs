use project_tagger::error::GatewayError;
use project_tagger::fhir::{Entry, Resource, Root};
use project_tagger::gateway::{is_ready, patient_from, stored};
use project_tagger::reply::{succeeded, ClinicalReply};

fn patient(id: &str) -> Resource {
    Resource { id: id.to_string(), resource_type: "Patient".to_string(), ..Resource::default() }
}

fn bundle(ids: &[&str]) -> Root {
    Root {
        entry: ids
            .iter()
            .map(|id| Entry { full_url: format!("http://fhir/{id}"), resource: patient(id) })
            .collect(),
        total: ids.len() as i64,
        resource_type: "Bundle".to_string(),
        type_field: "searchset".to_string(),
        ..Root::default()
    }
}

#[test]
fn success_is_two_hundred_to_two_hundred_ninety_nine() {
    assert!(!succeeded(199));
    assert!(succeeded(200));
    assert!(succeeded(204));
    assert!(succeeded(299));
    assert!(!succeeded(300));
    assert!(!succeeded(404));
    assert!(!succeeded(500));
}

#[test]
fn ready_needs_an_answer_that_is_a_success() {
    assert!(is_ready(&ClinicalReply::Answered { status: 200, bundle: None }));
    assert!(!is_ready(&ClinicalReply::Answered { status: 503, bundle: None }));
    assert!(!is_ready(&ClinicalReply::Unreachable));
}

#[test]
fn patient_from_takes_the_first_match() {
    let reply = ClinicalReply::Answered { status: 200, bundle: Some(bundle(&["p42", "p43"])) };
    assert_eq!(patient_from(reply), Ok(patient("p42")));
}

#[test]
fn patient_from_a_single_match() {
    let reply = ClinicalReply::Answered { status: 200, bundle: Some(bundle(&["p1"])) };
    assert_eq!(patient_from(reply), Ok(patient("p1")));
}

#[test]
fn patient_from_failures() {
    assert_eq!(patient_from(ClinicalReply::Unreachable), Err(GatewayError::Unreachable));
    assert_eq!(
        patient_from(ClinicalReply::Answered { status: 500, bundle: Some(bundle(&["p1"])) }),
        Err(GatewayError::Rejected)
    );
    assert_eq!(
        patient_from(ClinicalReply::Answered { status: 200, bundle: None }),
        Err(GatewayError::ParseError)
    );
    assert_eq!(
        patient_from(ClinicalReply::Answered { status: 200, bundle: Some(bundle(&[])) }),
        Err(GatewayError::NotFound)
    );
}

#[test]
fn stored_outcomes() {
    assert_eq!(stored(&ClinicalReply::Answered { status: 200, bundle: None }), Ok(()));
    assert_eq!(stored(&ClinicalReply::Answered { status: 201, bundle: None }), Ok(()));
    assert_eq!(
        stored(&ClinicalReply::Answered { status: 412, bundle: None }),
        Err(GatewayError::Rejected)
    );
    assert_eq!(stored(&ClinicalReply::Unreachable), Err(GatewayError::Unreachable));
}

#[test]
fn gateway_error_messages() {
    assert_eq!(GatewayError::Unreachable.message(), "Could not reach fhir_server");
    assert_eq!(GatewayError::Rejected.message(), "Unsuccessful status code");
    assert_eq!(GatewayError::ParseError.message(), "Fail to parse patient resource");
    assert_eq!(GatewayError::NotFound.message(), "Could not find any patient");
}
