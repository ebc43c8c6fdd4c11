use project_tagger::mainzelliste::{
    result_id_type, search_id_type, token_request, AuditTrail, Category, Data, SearchId, Token,
};
use project_tagger::project::Project;

#[test]
fn category_letters() {
    assert_eq!(Category::Local.code(), "L");
    assert_eq!(Category::Global.code(), "G");
}

#[test]
fn search_id_type_joins_code_site_and_category() {
    assert_eq!(search_id_type("P1", "SITE", Category::Local), "P1_SITE_L-ID");
    assert_eq!(
        search_id_type("DKTK000000791", "Berlin", Category::Global),
        "DKTK000000791_Berlin_G-ID"
    );
}

#[test]
fn result_id_type_joins_site_and_category() {
    assert_eq!(result_id_type("SITE", Category::Local), "BK_SITE_L-ID");
    assert_eq!(result_id_type("Berlin", Category::Global), "BK_Berlin_G-ID");
}

#[test]
fn token_request_asks_to_read_every_patient_of_the_project() {
    let project = Project::new("P1".to_string(), "One".to_string());
    let request = token_request(&project, "SITE", Category::Local);
    assert_eq!(
        request,
        Token {
            type_field: "readPatients".to_string(),
            data: Data {
                search_ids: vec![SearchId {
                    id_string: "*".to_string(),
                    id_type: "P1_SITE_L-ID".to_string(),
                }],
                result_ids: vec!["BK_SITE_L-ID".to_string()],
                audit_trail: AuditTrail {
                    username: "test".to_string(),
                    remote_system: "test".to_string(),
                    reason_for_change: "keine".to_string(),
                },
            },
        }
    );
}
