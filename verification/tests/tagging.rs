use project_tagger::fhir::{Extension, Identifier, Meta, Resource};
use project_tagger::project::Project;
use project_tagger::tagging::{has_marker, marker_url, tag_project, PROJECT_NAMESPACE};

fn patient(id: &str) -> Resource {
    Resource { id: id.to_string(), resource_type: "Patient".to_string(), ..Resource::default() }
}

fn marker(url: &str) -> Extension {
    Extension { url: url.to_string() }
}

fn project(code: &str) -> Project {
    Project::new(code.to_string(), format!("project {code}"))
}

#[test]
fn project_new_keeps_code_and_name() {
    let project = Project::new("DKTK000000791".to_string(), "ReKo".to_string());
    assert_eq!(project.id, "DKTK000000791");
    assert_eq!(project.name, "ReKo");
}

#[test]
fn marker_url_is_namespace_and_code() {
    assert_eq!(PROJECT_NAMESPACE, "http://dktk.dkfz.de/fhir/projects/");
    assert_eq!(marker_url("P1"), "http://dktk.dkfz.de/fhir/projects/P1");
    assert_eq!(marker_url(""), "http://dktk.dkfz.de/fhir/projects/");
}

#[test]
fn has_marker_compares_whole_urls() {
    let list = vec![marker("http://a/1"), marker("http://a/12")];
    assert!(has_marker(&list, &"http://a/12".to_string()));
    assert!(!has_marker(&list, &"http://a/2".to_string()));
    assert!(!has_marker(&Vec::new(), &"http://a/1".to_string()));
}

#[test]
fn tagging_an_untagged_patient_adds_one_marker() {
    let tagged = tag_project(patient("p42"), &project("P1"));
    assert_eq!(tagged.extension, Some(vec![marker("http://dktk.dkfz.de/fhir/projects/P1")]));
    assert_eq!(tagged.id, "p42");
}

#[test]
fn tagging_a_patient_with_an_empty_list_adds_one_marker() {
    let mut resource = patient("p42");
    resource.extension = Some(Vec::new());
    let tagged = tag_project(resource, &project("P1"));
    assert_eq!(tagged.extension, Some(vec![marker("http://dktk.dkfz.de/fhir/projects/P1")]));
}

#[test]
fn tagging_twice_leaves_exactly_one_marker() {
    let p1 = project("P1");
    let once = tag_project(patient("p42"), &p1);
    let twice = tag_project(once.clone(), &p1);
    assert_eq!(twice, once);
    let list = twice.extension.unwrap();
    let wanted = marker("http://dktk.dkfz.de/fhir/projects/P1");
    assert_eq!(list.iter().filter(|found| **found == wanted).count(), 1);
}

#[test]
fn tagging_keeps_other_markers_in_their_order() {
    let mut resource = patient("p1");
    resource.extension = Some(vec![marker("http://x/b"), marker("http://x/a")]);
    let tagged = tag_project(resource, &project("DKTK000002089"));
    assert_eq!(
        tagged.extension,
        Some(vec![
            marker("http://x/b"),
            marker("http://x/a"),
            marker("http://dktk.dkfz.de/fhir/projects/DKTK000002089"),
        ])
    );
}

#[test]
fn tagging_a_tagged_patient_changes_nothing() {
    let mut resource = patient("p1");
    resource.extension = Some(vec![
        marker("http://dktk.dkfz.de/fhir/projects/DKTK000002089"),
        marker("http://x/a"),
    ]);
    let before = resource.clone();
    assert_eq!(tag_project(resource, &project("DKTK000002089")), before);
}

#[test]
fn tagging_with_two_projects_adds_two_markers() {
    let tagged = tag_project(tag_project(patient("p1"), &project("P1")), &project("DKTK000002089"));
    assert_eq!(
        tagged.extension,
        Some(vec![
            marker("http://dktk.dkfz.de/fhir/projects/P1"),
            marker("http://dktk.dkfz.de/fhir/projects/DKTK000002089"),
        ])
    );
}

#[test]
fn tagging_leaves_every_other_field_alone() {
    let resource = Resource {
        meta: Meta {
            version_id: "7".to_string(),
            last_updated: "2023-01-01T00:00:00Z".to_string(),
            profile: vec!["http://profile".to_string()],
        },
        birth_date: Some("1970-01-01".to_string()),
        resource_type: "Patient".to_string(),
        gender: Some("female".to_string()),
        name: None,
        deceased_date_time: Some("2020-02-02".to_string()),
        deceased: Some(true),
        id: "p42".to_string(),
        identifier: Some(vec![Identifier { value: "xyz".to_string(), ..Identifier::default() }]),
        extension: None,
    };
    let tagged = tag_project(resource.clone(), &project("P1"));
    assert_eq!(tagged.meta, resource.meta);
    assert_eq!(tagged.birth_date, resource.birth_date);
    assert_eq!(tagged.resource_type, resource.resource_type);
    assert_eq!(tagged.gender, resource.gender);
    assert_eq!(tagged.name, resource.name);
    assert_eq!(tagged.deceased_date_time, resource.deceased_date_time);
    assert_eq!(tagged.deceased, resource.deceased);
    assert_eq!(tagged.id, resource.id);
    assert_eq!(tagged.identifier, resource.identifier);
}
