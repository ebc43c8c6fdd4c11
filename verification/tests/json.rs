use project_tagger::json::{Json, Member};

fn member(name: &str, value: Json) -> Member {
    Member { name: name.to_string(), value }
}

#[test]
fn member_of_an_object() {
    let document = Json::Object(vec![member("a", Json::Bool(true)), member("b", Json::Null)]);
    assert_eq!(document.member(&"a".to_string()), Some(&Json::Bool(true)));
    assert_eq!(document.member(&"b".to_string()), Some(&Json::Null));
    assert_eq!(document.member(&"c".to_string()), None);
}

#[test]
fn member_of_what_is_no_object() {
    assert_eq!(Json::Array(vec![Json::Null]).member(&"a".to_string()), None);
    assert_eq!(Json::Text("a".to_string()).member(&"a".to_string()), None);
}

#[test]
fn element_of_an_array() {
    let document = Json::Array(vec![Json::Bool(false), Json::Number("1".to_string())]);
    assert_eq!(document.element(0), Some(&Json::Bool(false)));
    assert_eq!(document.element(1), Some(&Json::Number("1".to_string())));
    assert_eq!(document.element(2), None);
}

#[test]
fn element_of_what_is_no_array() {
    assert_eq!(Json::Object(vec![member("0", Json::Null)]).element(0), None);
}

#[test]
fn text_of_a_string() {
    assert_eq!(Json::Text("x".to_string()).text(), Some(&"x".to_string()));
    assert_eq!(Json::Number("1".to_string()).text(), None);
    assert_eq!(Json::Null.text(), None);
}
