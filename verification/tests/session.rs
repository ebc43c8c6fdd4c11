use project_tagger::session::session_id;

#[test]
fn session_id_is_the_last_segment() {
    assert_eq!(
        session_id("http://registry:8080/patientlist/sessions/abc123/"),
        Some("abc123".to_string())
    );
}

#[test]
fn session_id_without_trailing_separator() {
    assert_eq!(session_id("/patientlist/sessions/abc123"), Some("abc123".to_string()));
}

#[test]
fn session_id_drops_every_trailing_separator() {
    assert_eq!(session_id("/sessions/abc123///"), Some("abc123".to_string()));
}

#[test]
fn session_id_after_a_leading_separator() {
    assert_eq!(session_id("/abc"), Some("abc".to_string()));
}

#[test]
fn location_without_separator_names_no_session() {
    assert_eq!(session_id("abc123"), None);
    assert_eq!(session_id("abc123/"), None);
}

#[test]
fn empty_location_names_no_session() {
    assert_eq!(session_id(""), None);
    assert_eq!(session_id("/"), None);
    assert_eq!(session_id("////"), None);
}

#[test]
fn location_outside_ascii_names_no_session() {
    assert_eq!(session_id("/sessions/äbc"), None);
}
