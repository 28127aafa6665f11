use pubchem_client::formula::{formula_first, formula_poll, FormulaStep};
use pubchem_client::{ExtractError, DELAY_MILLIS};

const WAITING_BODY: &str =
    r#"{"Waiting":{"Message":"Your request is running","ListKey":"1748569479215796481"}}"#;

const DIRECT_BODY: &str = r#"{"IdentifierList":{"CID":[22311,15600,8082]}}"#;

const SIX_CIDS_BODY: &str = r#"{"IdentifierList":{"CID":[1,2,3,4,5,6]}}"#;

fn cids(step: Result<FormulaStep, ExtractError>) -> Vec<String> {
    match step {
        Ok(FormulaStep::Done(cids)) => cids,
        _ => panic!("expected an immediately resolved step"),
    }
}

fn poll_key(step: Result<FormulaStep, ExtractError>) -> String {
    match step {
        Ok(FormulaStep::Poll(key)) => key,
        _ => panic!("expected a queued step"),
    }
}

#[test]
fn waiting_body_demands_one_poll_with_the_job_key() {
    assert_eq!(poll_key(formula_first(200, WAITING_BODY)), "1748569479215796481");
}

#[test]
fn poll_response_resolves_to_its_cid_list() {
    assert_eq!(
        formula_poll(200, DIRECT_BODY),
        Ok(vec!["22311".to_string(), "15600".to_string(), "8082".to_string()])
    );
}

#[test]
fn direct_body_resolves_without_poll() {
    assert_eq!(
        cids(formula_first(200, DIRECT_BODY)),
        vec!["22311".to_string(), "15600".to_string(), "8082".to_string()]
    );
}

#[test]
fn other_waiting_message_resolves_directly() {
    let body = r#"{"Waiting":{"Message":"Queued","ListKey":"k"}}"#;
    assert_eq!(cids(formula_first(200, body)), Vec::<String>::new());
}

#[test]
fn body_without_identifier_list_resolves_to_empty() {
    assert_eq!(cids(formula_first(200, "{}")), Vec::<String>::new());
}

#[test]
fn non_ok_status_resolves_to_empty_without_parsing() {
    assert_eq!(cids(formula_first(404, "dropped body")), Vec::<String>::new());
    assert_eq!(formula_poll(503, "not json"), Ok(Vec::new()));
}

#[test]
fn result_list_is_capped_at_five_entries() {
    assert_eq!(
        cids(formula_first(200, SIX_CIDS_BODY)),
        vec!["1".to_string(), "2".to_string(), "3".to_string(), "4".to_string(), "5".to_string()]
    );
    assert_eq!(formula_poll(200, SIX_CIDS_BODY).unwrap().len(), 5);
}

#[test]
fn waiting_body_without_key_is_a_shape_error() {
    let body = r#"{"Waiting":{"Message":"Your request is running"}}"#;
    assert_eq!(
        match formula_first(200, body) {
            Err(e) => e,
            Ok(_) => panic!("expected an error"),
        },
        ExtractError::Shape
    );
}

#[test]
fn malformed_first_body_is_a_parse_error() {
    assert!(matches!(formula_first(200, "{oops"), Err(ExtractError::Parse)));
    assert!(matches!(formula_poll(200, "{oops"), Err(ExtractError::Parse)));
}

#[test]
fn non_number_identifier_is_a_shape_error() {
    let body = r#"{"IdentifierList":{"CID":[1,"two",3]}}"#;
    assert!(matches!(formula_first(200, body), Err(ExtractError::Shape)));
}

#[test]
fn configured_delay_is_two_hundred_milliseconds() {
    assert_eq!(DELAY_MILLIS, 200);
}
