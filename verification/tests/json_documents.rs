use mc_launcher::json::{parse_json, Json};

#[test]
fn parse_reads_an_object_with_its_members() {
    let doc = parse_json("{\"version\": \"0.15.0\", \"stable\": true, \"size\": 42}").unwrap();
    assert_eq!(doc.text_at("version"), Some("0.15.0"));
    assert_eq!(doc.flag_at("stable"), Some(true));
    assert_eq!(doc.number_at("size"), Some(42));
    assert!(doc.get("missing").is_none());
}

#[test]
fn parse_rejects_what_is_not_json() {
    let err = parse_json("not json").unwrap_err();
    assert!(!err.is_empty());
}

#[test]
fn numbers_that_are_not_unsigned_integers_have_no_u64() {
    let doc = parse_json("[1, -1, 1.5, 18446744073709551615]").unwrap();
    let items = doc.as_array().unwrap();
    assert_eq!(items.len(), 4);
    assert_eq!(items[0].as_u64(), Some(1));
    assert_eq!(items[1].as_u64(), None);
    assert_eq!(items[2].as_u64(), None);
    assert_eq!(items[3].as_u64(), Some(u64::MAX));
    assert!(matches!(&items[1], Json::Number { literal, .. } if literal == "-1"));
}

#[test]
fn nested_documents_keep_their_structure() {
    let doc = parse_json(
        "{\"libraries\":[{\"name\":\"a:b:1\",\"downloads\":{\"artifact\":{\"size\":3}}},null,true,\"x\"],\"n\":{}}",
    )
    .unwrap();
    let libraries = doc.get("libraries").unwrap().as_array().unwrap();
    assert_eq!(libraries.len(), 4);
    assert_eq!(libraries[0].text_at("name"), Some("a:b:1"));
    let artifact = libraries[0].get("downloads").unwrap().get("artifact").unwrap();
    assert_eq!(artifact.number_at("size"), Some(3));
    assert!(matches!(libraries[1], Json::Null));
    assert_eq!(libraries[2].as_bool(), Some(true));
    assert_eq!(libraries[3].as_str(), Some("x"));
    assert!(libraries[3].get("name").is_none());
    assert!(doc.get("n").unwrap().get("x").is_none());
    assert!(doc.as_array().is_none());
    assert_eq!(doc.as_str(), None);
    assert_eq!(doc.text_at("libraries"), None);
    assert_eq!(doc.number_at("missing"), None);
    assert_eq!(doc.flag_at("n"), None);
}

#[test]
fn the_last_of_two_members_with_one_key_is_kept() {
    let doc = parse_json("{\"a\":1,\"a\":2}").unwrap();
    assert_eq!(doc.number_at("a"), Some(2));
}

#[test]
fn a_clone_of_a_document_says_the_same() {
    let doc = parse_json("{\"a\":[1,{\"b\":\"c\"}],\"d\":null}").unwrap();
    let copy = doc.clone();
    assert_eq!(copy.get("a").unwrap().as_array().unwrap()[1].text_at("b"), Some("c"));
    assert!(matches!(copy.get("d"), Some(Json::Null)));
}

#[test]
fn hand_made_objects_answer_with_their_first_member() {
    let doc = Json::Object(vec![
        ("k".to_string(), Json::Bool(true)),
        ("k".to_string(), Json::Bool(false)),
    ]);
    assert_eq!(doc.flag_at("k"), Some(true));
}
