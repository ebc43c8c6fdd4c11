use project_tagger::error::RegistryError;
use project_tagger::json::{Json, Member};
use project_tagger::registry::{
    patients_from, pseudonym, pseudonyms, session_from, token_from, token_id,
};
use project_tagger::reply::RegistryReply;

fn answered(status: u16, location: Option<&str>, body: &str) -> RegistryReply {
    RegistryReply::Answered {
        status,
        location: location.map(str::to_string),
        body: body.as_bytes().to_vec(),
    }
}

fn text(value: &str) -> Json {
    Json::Text(value.to_string())
}

fn object(members: Vec<(&str, Json)>) -> Json {
    Json::Object(
        members.into_iter().map(|(name, value)| Member { name: name.to_string(), value }).collect(),
    )
}

fn entry(id_string: Json) -> Json {
    object(vec![("ids", Json::Array(vec![object(vec![("idString", id_string)])]))])
}

#[test]
fn session_from_a_created_session() {
    let reply = answered(201, Some("http://registry/patientlist/sessions/abc123/"), "");
    assert_eq!(session_from(&reply), Ok("abc123".to_string()));
}

#[test]
fn session_from_an_unreachable_registry() {
    assert_eq!(session_from(&RegistryReply::Unreachable), Err(RegistryError::Unreachable));
}

#[test]
fn session_from_a_rejection() {
    let reply = answered(401, Some("http://registry/patientlist/sessions/abc123/"), "");
    assert_eq!(session_from(&reply), Err(RegistryError::Rejected));
    assert_eq!(session_from(&answered(199, None, "")), Err(RegistryError::Rejected));
    assert_eq!(session_from(&answered(300, None, "")), Err(RegistryError::Rejected));
}

#[test]
fn session_from_an_answer_without_location() {
    assert_eq!(session_from(&answered(201, None, "")), Err(RegistryError::MalformedResponse));
}

#[test]
fn session_from_a_location_without_session() {
    assert_eq!(
        session_from(&answered(200, Some("abc123"), "")),
        Err(RegistryError::MalformedResponse)
    );
}

#[test]
fn token_id_reads_the_member() {
    let document = object(vec![("id", text("x")), ("tokenId", text("t-1"))]);
    assert_eq!(token_id(&document), Some("t-1".to_string()));
}

#[test]
fn token_id_must_be_a_text() {
    assert_eq!(token_id(&object(vec![("tokenId", Json::Number("7".to_string()))])), None);
    assert_eq!(token_id(&object(vec![("tokenId", Json::Null)])), None);
    assert_eq!(token_id(&object(vec![])), None);
    assert_eq!(token_id(&Json::Array(vec![text("tokenId")])), None);
}

#[test]
fn token_from_a_token_answer() {
    let reply = answered(201, None, r#"{"id":"x","tokenId":"t-1","type":"readPatients"}"#);
    assert_eq!(token_from(&reply), Ok("t-1".to_string()));
}

#[test]
fn token_from_reads_escapes_as_the_parser_does() {
    let reply = answered(200, None, r#"{"tokenId":"ab\"c"}"#);
    assert_eq!(token_from(&reply), Ok("ab\"c".to_string()));
}

#[test]
fn token_from_takes_the_last_of_two_members_of_one_name() {
    let reply = answered(200, None, r#"{"tokenId":"first","tokenId":"second"}"#);
    assert_eq!(token_from(&reply), Ok("second".to_string()));
}

#[test]
fn token_from_a_rejection_means_not_configured() {
    let reply = answered(400, None, r#"{"tokenId":"t-1"}"#);
    assert_eq!(token_from(&reply), Err(RegistryError::NotConfigured));
}

#[test]
fn token_from_an_unreachable_registry() {
    assert_eq!(token_from(&RegistryReply::Unreachable), Err(RegistryError::Unreachable));
}

#[test]
fn token_from_a_body_without_token() {
    assert_eq!(
        token_from(&answered(200, None, r#"{"id":"x"}"#)),
        Err(RegistryError::MalformedResponse)
    );
    assert_eq!(
        token_from(&answered(200, None, r#"{"tokenId":12}"#)),
        Err(RegistryError::MalformedResponse)
    );
}

#[test]
fn token_from_a_body_that_is_no_json() {
    assert_eq!(token_from(&answered(200, None, "<html>")), Err(RegistryError::MalformedResponse));
    assert_eq!(token_from(&answered(200, None, "")), Err(RegistryError::MalformedResponse));
    assert_eq!(
        token_from(&answered(200, None, r#"{"tokenId":"t"} trailing"#)),
        Err(RegistryError::MalformedResponse)
    );
}

#[test]
fn pseudonym_is_the_id_string_of_the_first_id() {
    let document = object(vec![(
        "ids",
        Json::Array(vec![
            object(vec![("idType", text("BK_SITE_L-ID")), ("idString", text("xyz"))]),
            object(vec![("idString", text("other"))]),
        ]),
    )]);
    assert_eq!(pseudonym(&document), Some("xyz".to_string()));
}

#[test]
fn pseudonym_of_a_match_without_one() {
    assert_eq!(pseudonym(&object(vec![])), None);
    assert_eq!(pseudonym(&object(vec![("ids", Json::Array(vec![]))])), None);
    assert_eq!(pseudonym(&object(vec![("ids", text("xyz"))])), None);
    assert_eq!(pseudonym(&entry(Json::Bool(true))), None);
    assert_eq!(pseudonym(&text("xyz")), None);
}

#[test]
fn pseudonyms_skips_matches_without_one() {
    let document = Json::Array(vec![
        entry(text("a")),
        object(vec![("ids", Json::Array(vec![]))]),
        entry(text("b")),
        Json::Null,
        entry(text("a")),
    ]);
    assert_eq!(
        pseudonyms(&document),
        Some(vec!["a".to_string(), "b".to_string(), "a".to_string()])
    );
}

#[test]
fn pseudonyms_of_what_is_no_list() {
    assert_eq!(pseudonyms(&object(vec![])), None);
    assert_eq!(pseudonyms(&Json::Array(vec![])), Some(Vec::new()));
}

#[test]
fn patients_from_a_list_answer() {
    let body = r#"[{"ids":[{"idType":"BK_SITE_L-ID","idString":"xyz","tentative":false}]},
                   {"ids":[]},
                   {"ids":[{"idString":"abc"},{"idString":"def"}]}]"#;
    assert_eq!(
        patients_from(&answered(200, None, body)),
        Ok(vec!["xyz".to_string(), "abc".to_string()])
    );
}

#[test]
fn patients_from_an_empty_list_is_no_error() {
    assert_eq!(patients_from(&answered(200, None, "[]")), Ok(Vec::new()));
}

#[test]
fn patients_from_failures() {
    assert_eq!(patients_from(&RegistryReply::Unreachable), Err(RegistryError::Unreachable));
    assert_eq!(patients_from(&answered(404, None, "[]")), Err(RegistryError::Rejected));
    assert_eq!(
        patients_from(&answered(200, None, r#"{"ids":[]}"#)),
        Err(RegistryError::MalformedResponse)
    );
    assert_eq!(
        patients_from(&answered(200, None, "[{]")),
        Err(RegistryError::MalformedResponse)
    );
}

#[test]
fn patients_from_a_body_that_is_no_text() {
    let reply = RegistryReply::Answered { status: 200, location: None, body: vec![0xff, 0xfe] };
    assert_eq!(patients_from(&reply), Err(RegistryError::MalformedResponse));
}

#[test]
fn registry_error_messages() {
    assert_eq!(RegistryError::Unreachable.message(), "Could not reach the pseudonym registry");
    assert_eq!(RegistryError::Rejected.message(), "Unsuccessful status code");
    assert_eq!(RegistryError::NotConfigured.message(), "Not configured in the pseudonym registry");
    assert_eq!(RegistryError::MalformedResponse.message(), "Malformed response");
}
