use pubchem_client::formula::cid_texts;
use pubchem_client::jsonval::{at, get, num_of, str_of, Json};

fn identifier_list(cids: Vec<Json>) -> Json {
    Json::Obj(vec![(
        "IdentifierList".to_string(),
        Json::Obj(vec![("CID".to_string(), Json::Arr(cids))]),
    )])
}

#[test]
fn cid_texts_renders_numbers_in_order() {
    let body = identifier_list(vec![Json::Num(7), Json::Num(-2), Json::Num(1748569479)]);
    assert_eq!(
        cid_texts(&body),
        Ok(vec!["7".to_string(), "-2".to_string(), "1748569479".to_string()])
    );
}

#[test]
fn cid_texts_of_missing_list_is_empty() {
    assert_eq!(cid_texts(&Json::Null), Ok(Vec::new()));
    assert_eq!(cid_texts(&Json::Obj(Vec::new())), Ok(Vec::new()));
}

#[test]
fn cid_texts_takes_the_first_five() {
    let six = (1..=6i64).map(Json::Num).collect();
    assert_eq!(
        cid_texts(&identifier_list(six)),
        Ok(vec!["1", "2", "3", "4", "5"].into_iter().map(String::from).collect())
    );
}

#[test]
fn object_lookup_finds_the_first_matching_key() {
    let obj = Json::Obj(vec![
        ("a".to_string(), Json::Num(1)),
        ("b".to_string(), Json::Num(2)),
        ("a".to_string(), Json::Num(3)),
    ]);
    assert_eq!(get(&obj, &"a".to_string()).and_then(num_of), Some(1));
    assert_eq!(get(&obj, &"b".to_string()).and_then(num_of), Some(2));
    assert!(get(&obj, &"c".to_string()).is_none());
    assert!(get(&Json::Num(5), &"a".to_string()).is_none());
}

#[test]
fn array_lookup_checks_bounds() {
    let arr = Json::Arr(vec![Json::Str("x".to_string()), Json::Bool(true)]);
    assert_eq!(at(&arr, 0).and_then(str_of).map(String::as_str), Some("x"));
    assert!(at(&arr, 2).is_none());
    assert!(at(&Json::Null, 0).is_none());
}
