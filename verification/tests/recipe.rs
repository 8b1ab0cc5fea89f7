use recipe_pipeline::error::PipelineError;
use recipe_pipeline::json::{Json, Member};
use recipe_pipeline::recipe::{
    accept, normalize_completion, normalize_parsed, recipe_list_of, recipe_of, strings_of,
    AcceptableResponses, ExtractedRecipe,
};

fn document(value: &serde_json::Value) -> Json {
    match value {
        serde_json::Value::Null => Json::Null,
        serde_json::Value::Bool(b) => Json::Bool(*b),
        serde_json::Value::Number(n) => Json::Number(n.to_string()),
        serde_json::Value::String(s) => Json::Str(s.clone()),
        serde_json::Value::Array(items) => Json::Array(items.iter().map(document).collect()),
        serde_json::Value::Object(map) => Json::Object(
            map.iter()
                .map(|(key, value)| Member { key: key.clone(), value: document(value) })
                .collect(),
        ),
    }
}

fn parse(text: &str) -> Option<Json> {
    serde_json::from_str::<serde_json::Value>(text).ok().map(|value| document(&value))
}

fn soup() -> ExtractedRecipe {
    ExtractedRecipe {
        title: "Soup".to_string(),
        ingredients: vec!["water".to_string()],
        instructions: vec!["boil".to_string()],
    }
}

const SOUP: &str = "{\"title\":\"Soup\",\"ingredients\":[\"water\"],\"instructions\":[\"boil\"]}";

#[test]
fn a_fenced_list_normalizes_to_its_recipe() {
    let body = "```json\n[{\"title\":\"Soup\",\"ingredients\":[\"water\"],\"instructions\":[\"boil\"]}]\n```";
    assert_eq!(normalize_completion(body), Ok(vec![soup()]));
}

#[test]
fn both_envelopes_give_the_same_recipes() {
    let bare = format!("[{}, {}]", SOUP, SOUP);
    let wrapped = format!("{{\"recipes\": [{}, {}]}}", SOUP, SOUP);
    assert_eq!(normalize_completion(&bare), Ok(vec![soup(), soup()]));
    assert_eq!(normalize_completion(&wrapped), normalize_completion(&bare));
}

#[test]
fn the_fence_does_not_matter() {
    for payload in [format!("[{}]", SOUP), format!("{{\"recipes\": [{}]}}", SOUP), "[]".to_string()] {
        let fenced = format!("```json\n{}\n```", payload);
        assert_eq!(normalize_completion(&fenced), normalize_completion(&payload));
        assert!(normalize_completion(&payload).is_ok());
    }
}

#[test]
fn backticks_in_a_recipe_stay() {
    let expected = vec![ExtractedRecipe {
        title: "a```b".to_string(),
        ingredients: vec!["```json".to_string()],
        instructions: vec!["``` stir ```".to_string()],
    }];
    let payload =
        "[{\"title\":\"a```b\",\"ingredients\":[\"```json\"],\"instructions\":[\"``` stir ```\"]}]";
    assert_eq!(normalize_completion(payload), Ok(expected.clone()));
    assert_eq!(normalize_completion(&format!("```json\n{}\n```", payload)), Ok(expected.clone()));
    assert_eq!(normalize_completion(&format!("```json\r\n{}\r\n```", payload)), Ok(expected));
}

#[test]
fn the_recipes_come_out_in_the_order_of_the_payload() {
    let payload = "[{\"title\":\"1\",\"ingredients\":[\"b\",\"a\",\"b\"],\"instructions\":[\"y\",\"x\"]},{\"title\":\"0\",\"ingredients\":[],\"instructions\":[]},{\"title\":\"1\",\"ingredients\":[\"b\",\"a\",\"b\"],\"instructions\":[\"y\",\"x\"]}]";
    let first = ExtractedRecipe {
        title: "1".to_string(),
        ingredients: vec!["b".to_string(), "a".to_string(), "b".to_string()],
        instructions: vec!["y".to_string(), "x".to_string()],
    };
    let second = ExtractedRecipe { title: "0".to_string(), ingredients: vec![], instructions: vec![] };
    assert_eq!(normalize_completion(payload), Ok(vec![first.clone(), second, first]));
}

#[test]
fn an_empty_list_is_no_recipe() {
    assert_eq!(normalize_completion("[]"), Ok(vec![]));
    assert_eq!(normalize_completion("{\"recipes\": []}"), Ok(vec![]));
}

#[test]
fn other_members_are_ignored() {
    let body = "{\"note\": 1, \"recipes\": [{\"title\":\"T\",\"ingredients\":[],\"instructions\":[],\"servings\":2}]}";
    assert_eq!(
        normalize_completion(body),
        Ok(vec![ExtractedRecipe { title: "T".to_string(), ingredients: vec![], instructions: vec![] }])
    );
}

#[test]
fn text_that_is_no_json_is_a_shape_error_with_the_payload() {
    assert_eq!(
        normalize_completion("```json\nsorry, no recipes\n```"),
        Err(PipelineError::ResponseShapeError { detail: "sorry, no recipes".to_string() })
    );
}

#[test]
fn json_of_another_shape_is_a_shape_error_with_the_payload() {
    for body in [
        "{}",
        "\"recipes\"",
        "{\"recipes\": {}}",
        "[{\"title\":\"T\",\"ingredients\":[]}]",
        "[{\"title\":1,\"ingredients\":[],\"instructions\":[]}]",
        "[{\"title\":\"T\",\"ingredients\":[1],\"instructions\":[]}]",
        "[{\"title\":\"T\",\"ingredients\":\"water\",\"instructions\":[]}]",
        "[[]]",
    ] {
        assert_eq!(
            normalize_completion(body),
            Err(PipelineError::ResponseShapeError { detail: body.to_string() })
        );
    }
}

#[test]
fn normalize_parsed_goes_by_the_document() {
    let document = parse(&format!("[{}]", SOUP));
    assert_eq!(normalize_parsed("p".to_string(), document), Ok(vec![soup()]));
    assert_eq!(
        normalize_parsed("p".to_string(), None),
        Err(PipelineError::ResponseShapeError { detail: "p".to_string() })
    );
    assert_eq!(
        normalize_parsed("p".to_string(), Some(Json::Null)),
        Err(PipelineError::ResponseShapeError { detail: "p".to_string() })
    );
}

#[test]
fn accept_tells_the_envelope() {
    let bare = parse(&format!("[{}]", SOUP)).expect("json");
    let wrapped = parse(&format!("{{\"recipes\": [{}]}}", SOUP)).expect("json");
    assert_eq!(accept(&bare), Some(AcceptableResponses::Array(vec![soup()])));
    assert_eq!(accept(&wrapped), Some(AcceptableResponses::Object { recipes: vec![soup()] }));
    assert_eq!(accept(&Json::Null), None);
}

#[test]
fn retrieve_takes_the_recipes_out_of_either_envelope() {
    assert_eq!(AcceptableResponses::Array(vec![soup()]).retrieve(), vec![soup()]);
    assert_eq!(AcceptableResponses::Object { recipes: vec![soup()] }.retrieve(), vec![soup()]);
    assert_eq!(AcceptableResponses::Array(vec![]).retrieve(), vec![]);
}

#[test]
fn the_readers_go_by_the_shape() {
    let strings = parse("[\"a\", \"b\"]").expect("json");
    assert_eq!(strings_of(&strings), Some(vec!["a".to_string(), "b".to_string()]));
    assert_eq!(strings_of(&parse("[\"a\", 1]").expect("json")), None);
    assert_eq!(strings_of(&Json::Null), None);
    assert_eq!(recipe_of(&parse(SOUP).expect("json")), Some(soup()));
    assert_eq!(recipe_of(&strings), None);
    assert_eq!(recipe_list_of(&parse("[]").expect("json")), Some(vec![]));
    assert_eq!(recipe_list_of(&parse(SOUP).expect("json")), None);
}
