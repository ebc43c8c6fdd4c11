use project_tagger::endpoint::Endpoint;
use project_tagger::error::{GatewayError, RegistryError};
use project_tagger::events::{Command, Event, Report};
use project_tagger::fhir::{Entry, Extension, Resource, Root};
use project_tagger::mainzelliste::{token_request, Category};
use project_tagger::pipeline::{Pipeline, Transition};
use project_tagger::project::Project;
use project_tagger::reply::{ClinicalReply, RegistryReply};

fn project(code: &str, name: &str) -> Project {
    Project::new(code.to_string(), name.to_string())
}

fn patient(id: &str) -> Resource {
    Resource { id: id.to_string(), resource_type: "Patient".to_string(), ..Resource::default() }
}

fn status(status: u16) -> ClinicalReply {
    ClinicalReply::Answered { status, bundle: None }
}

fn found(resource: Resource) -> ClinicalReply {
    ClinicalReply::Answered {
        status: 200,
        bundle: Some(Root {
            entry: vec![Entry { full_url: String::new(), resource }],
            ..Root::default()
        }),
    }
}

fn body(status: u16, body: &str) -> RegistryReply {
    RegistryReply::Answered { status, location: None, body: body.as_bytes().to_vec() }
}

fn session(id: &str) -> RegistryReply {
    RegistryReply::Answered {
        status: 201,
        location: Some(format!("http://registry/patientlist/sessions/{id}/")),
        body: Vec::new(),
    }
}

fn token(id: &str) -> RegistryReply {
    body(201, &format!(r#"{{"tokenId":"{id}"}}"#))
}

fn patients(pseudonyms: &[&str]) -> RegistryReply {
    let entries: Vec<String> = pseudonyms
        .iter()
        .map(|pseudonym| format!(r#"{{"ids":[{{"idString":"{pseudonym}"}}]}}"#))
        .collect();
    body(200, &format!("[{}]", entries.join(",")))
}

fn marker(code: &str) -> Extension {
    Extension { url: format!("http://dktk.dkfz.de/fhir/projects/{code}") }
}

fn request_token(session: &str, project: &Project, category: Category) -> Command {
    Command::RequestToken {
        endpoint: Endpoint::tokens(session),
        body: token_request(project, "SITE", category),
    }
}

fn fetch(pseudonym: &str) -> Command {
    Command::FetchPatient { endpoint: Endpoint::patient_search(pseudonym) }
}

fn store(resource: Resource) -> Command {
    Command::StorePatient { endpoint: Endpoint::patient(&resource.id), resource }
}

/// Drives a pipeline over the events and hands back the last transition,
/// with all the lines and commands on the way.
fn drive(first: Transition, events: Vec<Event>) -> (Pipeline, Vec<Report>, Vec<Command>) {
    let mut reports = first.reports;
    let mut commands = vec![first.command];
    let mut pipeline = first.pipeline;
    for event in events {
        let next = pipeline.step(event);
        reports.extend(next.reports);
        commands.push(next.command);
        pipeline = next.pipeline;
    }
    (pipeline, reports, commands)
}

/// A pipeline over the projects whose session `s1` is open.
fn opened(projects: Vec<Project>) -> Transition {
    let first = Pipeline::start("SITE".to_string(), projects);
    let ready = first.pipeline.step(Event::Probed(status(200)));
    ready.pipeline.step(Event::SessionOpened(session("s1")))
}

#[test]
fn a_run_starts_with_a_probe() {
    let first = Pipeline::start("SITE".to_string(), vec![project("P1", "One")]);
    assert_eq!(first.reports, vec![Report::Starting]);
    assert_eq!(first.command, Command::Probe { endpoint: Endpoint::metadata(), delay_seconds: 0 });
    assert!(!first.pipeline.is_over());
}

#[test]
fn a_server_that_is_not_ready_is_probed_again_after_ten_seconds() {
    let first = Pipeline::start("SITE".to_string(), vec![project("P1", "One")]);
    let again = Command::Probe { endpoint: Endpoint::metadata(), delay_seconds: 10 };
    let (pipeline, reports, commands) = drive(
        first,
        vec![
            Event::Probed(ClinicalReply::Unreachable),
            Event::Probed(status(503)),
            Event::Probed(ClinicalReply::Unreachable),
        ],
    );
    assert_eq!(
        reports,
        vec![
            Report::Starting,
            Report::WaitingForServer,
            Report::WaitingForServer,
            Report::WaitingForServer,
        ]
    );
    assert_eq!(commands[1..], [again.clone(), again.clone(), again]);
    assert!(!pipeline.is_over());
}

#[test]
fn a_ready_server_leads_to_the_session_request() {
    let first = Pipeline::start("SITE".to_string(), vec![project("P1", "One")]);
    let next = first.pipeline.step(Event::Probed(status(200)));
    assert_eq!(next.reports, Vec::new());
    assert_eq!(next.command, Command::OpenSession { endpoint: Endpoint::sessions() });
}

#[test]
fn a_session_that_cannot_be_opened_ends_the_run() {
    for (reply, cause) in [
        (RegistryReply::Unreachable, RegistryError::Unreachable),
        (body(500, ""), RegistryError::Rejected),
        (body(200, ""), RegistryError::MalformedResponse),
    ] {
        let first = Pipeline::start("SITE".to_string(), vec![project("P1", "One")]);
        let ready = first.pipeline.step(Event::Probed(status(200)));
        let failed = ready.pipeline.step(Event::SessionOpened(reply));
        assert_eq!(failed.reports, vec![Report::SessionFailed { cause }]);
        assert_eq!(failed.command, Command::Abort);
        assert!(failed.pipeline.is_over());
        let after = failed.pipeline.step(Event::Probed(status(200)));
        assert_eq!(after.command, Command::Ignore);
        assert!(after.pipeline.is_over());
    }
}

#[test]
fn an_open_session_leads_to_the_first_token_request() {
    let p1 = project("P1", "One");
    let next = opened(vec![p1.clone()]);
    assert_eq!(next.reports, vec![Report::ProjectStarted { project: "One".to_string() }]);
    assert_eq!(next.command, request_token("s1", &p1, Category::Local));
}

#[test]
fn a_run_without_projects_is_complete_once_the_session_is_open() {
    let next = opened(Vec::new());
    assert_eq!(next.reports, Vec::new());
    assert_eq!(next.command, Command::Finish);
    assert!(next.pipeline.is_over());
}

#[test]
fn one_patient_is_fetched_tagged_and_stored() {
    let p1 = project("P1", "One");
    let mut tagged = patient("p42");
    tagged.extension = Some(vec![marker("P1")]);
    let (pipeline, reports, commands) = drive(
        opened(vec![p1.clone()]),
        vec![
            Event::TokenIssued(token("t1")),
            Event::PatientsResolved(patients(&["xyz"])),
            Event::PatientFetched(found(patient("p42"))),
            Event::PatientStored(status(200)),
            Event::TokenIssued(body(400, "")),
        ],
    );
    assert_eq!(
        commands,
        vec![
            request_token("s1", &p1, Category::Local),
            Command::ResolvePatients { endpoint: Endpoint::patients("t1") },
            fetch("xyz"),
            store(tagged),
            request_token("s1", &p1, Category::Global),
            Command::Finish,
        ]
    );
    assert_eq!(
        reports,
        vec![
            Report::ProjectStarted { project: "One".to_string() },
            Report::PatientsFound {
                count: 1,
                project: "One".to_string(),
                category: Category::Local
            },
            Report::PatientTagged { pseudonym: "xyz".to_string() },
            Report::NotConfigured {
                project: "One".to_string(),
                category: Category::Global,
                cause: RegistryError::NotConfigured,
            },
        ]
    );
    assert!(pipeline.is_over());
}

#[test]
fn the_stored_resource_of_the_scenario_has_exactly_one_marker() {
    let p1 = project("P1", "One");
    let (_, _, commands) = drive(
        opened(vec![p1]),
        vec![
            Event::TokenIssued(token("t1")),
            Event::PatientsResolved(patients(&["xyz"])),
            Event::PatientFetched(found(patient("p42"))),
        ],
    );
    match &commands[1] {
        Command::ResolvePatients { endpoint } => {
            assert_eq!(endpoint.reference, "/patientlist/patients/tokenId/t1")
        }
        other => panic!("unexpected command {other:?}"),
    }
    match &commands[0] {
        Command::RequestToken { endpoint, body } => {
            assert_eq!(endpoint.reference, "/patientlist/sessions/s1/tokens");
            assert_eq!(body.data.search_ids[0].id_type, "P1_SITE_L-ID");
            assert_eq!(body.data.result_ids, vec!["BK_SITE_L-ID".to_string()]);
        }
        other => panic!("unexpected command {other:?}"),
    }
    match &commands[3] {
        Command::StorePatient { endpoint, resource } => {
            assert_eq!(endpoint.reference, "/fhir/Patient/p42");
            assert_eq!(resource.id, "p42");
            assert_eq!(
                resource.extension,
                Some(vec![Extension { url: "http://dktk.dkfz.de/fhir/projects/P1".to_string() }])
            );
        }
        other => panic!("unexpected command {other:?}"),
    }
}

#[test]
fn a_failing_fetch_leaves_the_other_patients_alone() {
    let p1 = project("P1", "One");
    let tagged = |id: &str| {
        let mut resource = patient(id);
        resource.extension = Some(vec![marker("P1")]);
        resource
    };
    let (_, reports, commands) = drive(
        opened(vec![p1.clone()]),
        vec![
            Event::TokenIssued(token("t1")),
            Event::PatientsResolved(patients(&["a", "b", "c"])),
            Event::PatientFetched(found(patient("pa"))),
            Event::PatientStored(status(200)),
            Event::PatientFetched(status(200)),
            Event::PatientFetched(found(patient("pc"))),
            Event::PatientStored(status(201)),
        ],
    );
    assert_eq!(
        commands[2..],
        [
            fetch("a"),
            store(tagged("pa")),
            fetch("b"),
            fetch("c"),
            store(tagged("pc")),
            request_token("s1", &p1, Category::Global),
        ]
    );
    assert_eq!(
        reports[2..],
        [
            Report::PatientTagged { pseudonym: "a".to_string() },
            Report::PatientNotFound { pseudonym: "b".to_string(), cause: GatewayError::ParseError },
            Report::PatientTagged { pseudonym: "c".to_string() },
        ]
    );
    let failures: Vec<&Report> = reports.iter().filter(|line| line.is_failure()).collect();
    assert_eq!(failures.len(), 1);
}

#[test]
fn every_failure_of_a_patient_is_reported_with_its_cause() {
    let p1 = project("P1", "One");
    let empty = ClinicalReply::Answered { status: 200, bundle: Some(Root::default()) };
    let (_, reports, commands) = drive(
        opened(vec![p1.clone()]),
        vec![
            Event::TokenIssued(token("t1")),
            Event::PatientsResolved(patients(&["a", "b", "c", "d", "e", "f"])),
            Event::PatientFetched(ClinicalReply::Unreachable),
            Event::PatientFetched(status(404)),
            Event::PatientFetched(status(200)),
            Event::PatientFetched(empty),
            Event::PatientFetched(found(patient("pe"))),
            Event::PatientStored(ClinicalReply::Unreachable),
            Event::PatientFetched(found(patient("pf"))),
            Event::PatientStored(status(500)),
        ],
    );
    let not_found = |pseudonym: &str, cause| Report::PatientNotFound {
        pseudonym: pseudonym.to_string(),
        cause,
    };
    let store_failed =
        |pseudonym: &str, cause| Report::StoreFailed { pseudonym: pseudonym.to_string(), cause };
    assert_eq!(
        reports[2..],
        [
            not_found("a", GatewayError::Unreachable),
            not_found("b", GatewayError::Rejected),
            not_found("c", GatewayError::ParseError),
            not_found("d", GatewayError::NotFound),
            store_failed("e", GatewayError::Unreachable),
            store_failed("f", GatewayError::Rejected),
        ]
    );
    assert_eq!(commands.last(), Some(&request_token("s1", &p1, Category::Global)));
}

#[test]
fn a_unit_that_is_not_configured_does_not_stop_the_run() {
    let p1 = project("P1", "One");
    let p2 = project("DKTK000002089", "Two");
    let (pipeline, reports, commands) = drive(
        opened(vec![p1.clone(), p2.clone()]),
        vec![
            Event::TokenIssued(body(400, "unknown id type")),
            Event::TokenIssued(RegistryReply::Unreachable),
            Event::TokenIssued(body(200, "{}")),
            Event::TokenIssued(token("t4")),
        ],
    );
    let not_configured = |project: &str, category, cause| Report::NotConfigured {
        project: project.to_string(),
        category,
        cause,
    };
    assert_eq!(
        commands,
        vec![
            request_token("s1", &p1, Category::Local),
            request_token("s1", &p1, Category::Global),
            request_token("s1", &p2, Category::Local),
            request_token("s1", &p2, Category::Global),
            Command::ResolvePatients { endpoint: Endpoint::patients("t4") },
        ]
    );
    assert_eq!(
        reports,
        vec![
            Report::ProjectStarted { project: "One".to_string() },
            not_configured("One", Category::Local, RegistryError::NotConfigured),
            not_configured("One", Category::Global, RegistryError::Unreachable),
            Report::ProjectStarted { project: "Two".to_string() },
            not_configured("Two", Category::Local, RegistryError::MalformedResponse),
        ]
    );
    assert!(!pipeline.is_over());
}

#[test]
fn a_unit_without_patients_is_passed_over() {
    let p1 = project("P1", "One");
    let (pipeline, reports, commands) = drive(
        opened(vec![p1.clone()]),
        vec![
            Event::TokenIssued(token("t1")),
            Event::PatientsResolved(patients(&[])),
            Event::TokenIssued(token("t2")),
            Event::PatientsResolved(body(500, "")),
        ],
    );
    assert_eq!(
        reports,
        vec![
            Report::ProjectStarted { project: "One".to_string() },
            Report::PatientsFound {
                count: 0,
                project: "One".to_string(),
                category: Category::Local
            },
            Report::NoPatients {
                project: "One".to_string(),
                category: Category::Global,
                cause: RegistryError::Rejected,
            },
        ]
    );
    assert_eq!(
        commands,
        vec![
            request_token("s1", &p1, Category::Local),
            Command::ResolvePatients { endpoint: Endpoint::patients("t1") },
            request_token("s1", &p1, Category::Global),
            Command::ResolvePatients { endpoint: Endpoint::patients("t2") },
            Command::Finish,
        ]
    );
    assert!(pipeline.is_over());
}

#[test]
fn an_event_that_answers_no_request_changes_nothing() {
    let p1 = project("P1", "One");
    let next = opened(vec![p1.clone()]);
    let ignored = next.pipeline.step(Event::PatientStored(status(200)));
    assert_eq!(ignored.reports, Vec::new());
    assert_eq!(ignored.command, Command::Ignore);
    let resumed = ignored.pipeline.step(Event::TokenIssued(token("t1")));
    assert_eq!(resumed.command, Command::ResolvePatients { endpoint: Endpoint::patients("t1") });
}

#[test]
fn a_complete_run_ignores_every_event() {
    let done = opened(Vec::new());
    let after = done.pipeline.step(Event::TokenIssued(token("t1")));
    assert_eq!(after.command, Command::Ignore);
    assert!(after.pipeline.is_over());
}

#[test]
fn failure_lines() {
    assert!(Report::SessionFailed { cause: RegistryError::Rejected }.is_failure());
    assert!(!Report::Starting.is_failure());
    assert!(!Report::PatientTagged { pseudonym: "a".to_string() }.is_failure());
    assert!(!Report::PatientsFound {
        count: 0,
        project: "One".to_string(),
        category: Category::Local
    }
    .is_failure());
}
