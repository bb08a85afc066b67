use element_finder::error::ScrapeError;
use element_finder::fetch::{element_line, extract, is_success, FetchOutcome};

const TITLE_PAGE: &str = "<html><h1 class=\"entry-title\">ACME Corp</h1></html>";

#[test]
fn success_statuses_are_200_to_299() {
    assert!(!is_success(0));
    assert!(!is_success(100));
    assert!(!is_success(199));
    assert!(is_success(200));
    assert!(is_success(204));
    assert!(is_success(299));
    assert!(!is_success(300));
    assert!(!is_success(404));
    assert!(!is_success(500));
    assert!(!is_success(u16::MAX));
}

#[test]
fn response_is_classified_by_status() {
    assert_eq!(
        FetchOutcome::from_response(200, "body".to_string()),
        FetchOutcome::Success("body".to_string())
    );
    assert_eq!(
        FetchOutcome::from_response(299, String::new()),
        FetchOutcome::Success(String::new())
    );
    assert_eq!(
        FetchOutcome::from_response(404, "not found page".to_string()),
        FetchOutcome::HttpFailure(404)
    );
    assert_eq!(FetchOutcome::from_response(301, String::new()), FetchOutcome::HttpFailure(301));
    assert_eq!(FetchOutcome::from_response(199, String::new()), FetchOutcome::HttpFailure(199));
}

#[test]
fn not_found_is_reported_without_extraction() {
    let outcome = FetchOutcome::from_response(404, TITLE_PAGE.to_string());
    assert_eq!(outcome, FetchOutcome::HttpFailure(404));
    let result = extract(outcome, "h1", Some("class"), Some("entry-title"));
    assert_eq!(result, Err(ScrapeError::HttpFailure(404)));
}

#[test]
fn http_failure_comes_before_validation() {
    let result = extract(FetchOutcome::HttpFailure(503), "h1", None, Some("entry-title"));
    assert_eq!(result, Err(ScrapeError::HttpFailure(503)));
}

#[test]
fn transport_failure_keeps_its_description() {
    let outcome = FetchOutcome::TransportFailure("connection refused".to_string());
    let result = extract(outcome, "h1", Some("class"), Some("entry-title"));
    assert_eq!(result, Err(ScrapeError::TransportFailure("connection refused".to_string())));
}

#[test]
fn successful_body_is_parsed_and_searched() {
    let outcome = FetchOutcome::from_response(200, TITLE_PAGE.to_string());
    let result = extract(outcome, "h1", Some("class"), Some("entry-title"));
    assert_eq!(result, Ok(vec!["ACME Corp".to_string()]));
}

#[test]
fn successful_body_with_partial_attribute_fails_validation() {
    let outcome = FetchOutcome::Success(TITLE_PAGE.to_string());
    let result = extract(outcome, "h1", None, Some("entry-title"));
    assert_eq!(result, Err(ScrapeError::Validation));
}

#[test]
fn successful_body_without_match_is_empty() {
    let outcome = FetchOutcome::Success("<p>nothing here</p>".to_string());
    let result = extract(outcome, "h1", None, None);
    assert_eq!(result, Ok(Vec::new()));
}

#[test]
fn output_line_has_the_element_prefix() {
    assert_eq!(element_line("ACME Corp"), "Element: ACME Corp");
    assert_eq!(element_line(""), "Element: ");
    assert_eq!(element_line(" x "), "Element:  x ");
}
