use recipe_pipeline::json::{find_member, is_one_of, members_without, Json, Member};

fn member(key: &str, value: Json) -> Member {
    Member { key: key.to_string(), value }
}

#[test]
fn accessors_tell_the_kinds_apart() {
    let text = Json::string("t".to_string());
    assert_eq!(text.as_str(), Some(&"t".to_string()));
    assert_eq!(text.as_array(), None);
    assert_eq!(text.as_object(), None);
    assert_eq!(text.as_number(), None);
    assert_eq!(text.get("t"), None);
    let number = Json::Number("1".to_string());
    assert_eq!(number.as_number(), Some(&"1".to_string()));
    assert_eq!(number.as_str(), None);
    let list = Json::array(vec![Json::Null]);
    assert_eq!(list.as_array(), Some(&vec![Json::Null]));
    assert_eq!(Json::literal("x"), Json::Str("x".to_string()));
}

#[test]
fn get_takes_the_first_member_of_a_name() {
    let object = Json::object(vec![
        member("a", Json::Bool(true)),
        member("a", Json::Bool(false)),
    ]);
    assert_eq!(object.get("a"), Some(&Json::Bool(true)));
    let members = object.as_object().expect("members");
    assert_eq!(find_member(members, "a"), Some(&Json::Bool(true)));
    assert_eq!(find_member(members, "b"), None);
}

#[test]
fn duplicate_copies_the_whole_document() {
    let document = Json::object(vec![
        member(
            "a",
            Json::array(vec![
                Json::Number("1".to_string()),
                Json::object(vec![member("b", Json::literal("c"))]),
            ]),
        ),
        member("d", Json::Null),
    ]);
    assert_eq!(document.duplicate(), document);
    let one = member("k", Json::array(vec![Json::Null]));
    assert_eq!(one.duplicate(), one);
}

#[test]
fn members_without_drops_the_named_members() {
    let members = vec![
        member("a", Json::Null),
        member("b", Json::Bool(true)),
        member("c", Json::Null),
        member("b", Json::Bool(false)),
    ];
    let keys = vec!["b".to_string(), "x".to_string()];
    assert_eq!(
        members_without(&members, &keys),
        vec![member("a", Json::Null), member("c", Json::Null)]
    );
    assert_eq!(members_without(&members, &vec![]).len(), 4);
    assert!(is_one_of(&"x".to_string(), &keys));
    assert!(!is_one_of(&"a".to_string(), &keys));
}
