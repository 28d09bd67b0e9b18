use fetchloop::errors::FetchError;
use fetchloop::single_shot::single_shot_outcome;

#[test]
fn http_500_returns_an_error_and_no_bytes() {
    let outcome = single_shot_outcome(500, vec![1, 2, 3]);
    assert_eq!(outcome, Err(FetchError::UnexpectedStatus(500)));
}

#[test]
fn http_200_delivers_the_body_unchanged() {
    let body: Vec<u8> = (0u8..=255).collect();
    let outcome = single_shot_outcome(200, body.clone());
    let delivered = outcome.expect("a 200 delivers");
    assert_eq!(delivered.len(), 256);
    assert_eq!(delivered, body);
}

#[test]
fn redirect_statuses_are_not_delivered_by_a_single_shot() {
    let outcome = single_shot_outcome(302, vec![7]);
    assert_eq!(outcome, Err(FetchError::UnexpectedStatus(302)));
}

#[test]
fn each_failure_has_its_own_log_line() {
    assert_eq!(FetchError::Network.message(), "Network error while fetching");
    assert_eq!(
        FetchError::UnexpectedStatus(404).message(),
        "Unexpected response status: 404"
    );
    assert_eq!(
        FetchError::RedirectMissingLocation.message(),
        "Redirect without Location header"
    );
    assert_eq!(FetchError::TooManyRedirects.message(), "Too many redirects");
    assert_eq!(FetchError::Storage.message(), "Could not write the fetched resource");
}
