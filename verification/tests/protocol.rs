//! The client identity, poll envelope and confirmation gate, exercised on
//! concrete values.

use hawkbit::{Client, ClientAuthorization, ConfirmationRequest, ConfirmationResponse, Error, Reply};

fn new_client(url: &str, auth: ClientAuthorization) -> Result<Client, Error> {
    Client::new(url, "DEFAULT", "Target1", auth)
}

#[test]
fn target_token_attaches_one_header() {
    let client = new_client(
        "http://my-server.com:8080",
        ClientAuthorization::TargetToken("sekrit".to_string()),
    )
    .unwrap();
    let header = client.authorization_header().clone();
    assert_eq!(header, Some("TargetToken sekrit".to_string()));
}

#[test]
fn gateway_token_attaches_one_header() {
    let client = new_client(
        "http://my-server.com:8080",
        ClientAuthorization::GatewayToken("shared".to_string()),
    )
    .unwrap();
    let header = client.authorization_header().clone();
    assert_eq!(header, Some("GatewayToken shared".to_string()));
}

#[test]
fn no_token_attaches_no_header() {
    let client = new_client("http://my-server.com:8080", ClientAuthorization::NoToken).unwrap();
    assert_eq!(client.authorization_header().clone(), None);
}

#[test]
fn illegal_token_is_a_token_error() {
    let r = new_client(
        "http://my-server.com:8080",
        ClientAuthorization::TargetToken("bad\ntoken".to_string()),
    );
    assert_eq!(r.err(), Some(Error::InvalidToken));
}

#[test]
fn base_url_joins_controller_path() {
    let client = new_client("http://my-server.com:8080", ClientAuthorization::NoToken).unwrap();
    assert_eq!(
        client.base_url_string(),
        "http://my-server.com:8080/DEFAULT/controller/v1/Target1"
    );
}

#[test]
fn base_url_ignores_trailing_slash() {
    let a = new_client("http://h", ClientAuthorization::NoToken).unwrap();
    let b = new_client("http://h/", ClientAuthorization::NoToken).unwrap();
    assert_eq!(a.base_url_string(), b.base_url_string());

    let c = new_client("http://h/site", ClientAuthorization::NoToken).unwrap();
    let d = new_client("http://h/site/", ClientAuthorization::NoToken).unwrap();
    assert_eq!(c.base_url_string(), d.base_url_string());
    assert_eq!(
        c.base_url_string(),
        "http://h/site/DEFAULT/controller/v1/Target1"
    );
}

#[test]
fn relative_url_is_a_parse_error() {
    let r = new_client("not a url", ClientAuthorization::NoToken);
    assert_eq!(r.err(), Some(Error::ParseUrlError));
}

#[test]
fn url_error_takes_precedence_over_token_error() {
    let r = new_client(
        "not a url",
        ClientAuthorization::TargetToken("bad\ntoken".to_string()),
    );
    assert_eq!(r.err(), Some(Error::ParseUrlError));
}

#[test]
fn polling_sleep_parses_interval() {
    let reply = Reply::new(Some("00:00:30".to_string()), None, None, None);
    assert_eq!(reply.polling_sleep(), Ok(30));

    let reply = Reply::new(Some("01:02:03".to_string()), None, None, None);
    assert_eq!(reply.polling_sleep(), Ok(3723));
}

#[test]
fn invalid_sleep_is_the_dedicated_error() {
    for bad in ["30", "", "aa:bb:cc", "00:60:00", "00:00:60", "0:00:300", "00-00-30"] {
        let reply = Reply::new(Some(bad.to_string()), None, None, None);
        assert_eq!(reply.polling_sleep(), Err(Error::InvalidSleep), "input {:?}", bad);
    }
    let reply = Reply::new(None, None, None, None);
    assert_eq!(reply.polling_sleep(), Err(Error::InvalidSleep));
}

#[test]
fn absent_links_are_not_errors() {
    let reply = Reply::new(Some("00:00:30".to_string()), None, None, None);
    assert!(reply.confirmation_base().is_none());
    assert!(reply.deployment_base_url().is_none());
    assert!(reply.cancel_action_url().is_none());
}

#[test]
fn feedback_url_strips_query_and_appends_segment() {
    let req = ConfirmationRequest::new("https://h/t/c/confirmationBase/5?x=1".to_string());
    let post = req.confirm().unwrap();
    assert_eq!(post.url, "https://h/t/c/confirmationBase/5/feedback");
    assert_eq!(post.body.confirmation, ConfirmationResponse::Confirmed);
    assert_eq!(post.body.code, 1);
    assert!(post.body.details.is_empty());
}

#[test]
fn decline_posts_denied_with_negative_code() {
    let req = ConfirmationRequest::new("https://h/t/c/confirmationBase/5?x=1".to_string());
    let post = req.decline().unwrap();
    assert_eq!(post.url, "https://h/t/c/confirmationBase/5/feedback");
    assert_eq!(post.body.confirmation, ConfirmationResponse::Denied);
    assert_eq!(post.body.code, -1);
    assert!(post.body.details.is_empty());
}

#[test]
fn feedback_url_tolerates_trailing_slash() {
    let req = ConfirmationRequest::new("https://h/t/c/confirmationBase/5/".to_string());
    let post = req.confirm().unwrap();
    assert_eq!(post.url, "https://h/t/c/confirmationBase/5/feedback");
}

#[test]
fn non_hierarchical_url_fails_explicitly() {
    let req = ConfirmationRequest::new("mailto:operator@example.com".to_string());
    assert_eq!(req.confirm().err(), Some(Error::ParseUrlError));
}

#[test]
fn confirmation_round_trip_through_wire_format() {
    let confirmed = hawkbit::Confirmation::new(ConfirmationResponse::Confirmed, 1);
    let body = format!(
        "{{\"confirmation\":\"{}\",\"code\":{},\"details\":[]}}",
        confirmed.confirmation.wire_name(),
        confirmed.code
    );
    let value: serde_json::Value = serde_json::from_str(&body).unwrap();
    let decision = value.get("confirmation").unwrap().as_str().unwrap();
    assert_eq!(decision, "confirmed");
    assert_eq!(
        ConfirmationResponse::from_wire(decision),
        Some(ConfirmationResponse::Confirmed)
    );

    let denied = hawkbit::Confirmation::new(ConfirmationResponse::Denied, -1);
    let body = format!(
        "{{\"confirmation\":\"{}\",\"code\":{},\"details\":[]}}",
        denied.confirmation.wire_name(),
        denied.code
    );
    let value: serde_json::Value = serde_json::from_str(&body).unwrap();
    let decision = value.get("confirmation").unwrap().as_str().unwrap();
    assert_eq!(decision, "denied");
    assert_eq!(
        ConfirmationResponse::from_wire(decision),
        Some(ConfirmationResponse::Denied)
    );
}

#[test]
fn from_wire_rejects_other_names() {
    assert_eq!(ConfirmationResponse::from_wire("Confirmed"), None);
    assert_eq!(ConfirmationResponse::from_wire(""), None);
}

#[test]
fn confirmation_scenario_end_to_end() {
    // One poll: a confirmation gate is pending, and the server asks for a
    // thirty-second interval.
    let reply = Reply::new(
        Some("00:00:30".to_string()),
        None,
        Some("https://h/t/c/confirmationBase/7".to_string()),
        None,
    );
    assert_eq!(reply.polling_sleep(), Ok(30));
    let request = reply.confirmation_base().unwrap();
    let post = request.confirm().unwrap();
    assert_eq!(post.url, "https://h/t/c/confirmationBase/7/feedback");
    assert_eq!(post.body.confirmation, ConfirmationResponse::Confirmed);
    assert_eq!(post.body.code, 1);
    assert!(post.body.details.is_empty());

    // The next poll surfaces a deployment link instead of a confirmation.
    let next = Reply::new(
        Some("00:00:30".to_string()),
        Some("https://h/t/c/deploymentBase/7".to_string()),
        None,
        None,
    );
    assert!(next.confirmation_base().is_none());
    assert_eq!(
        next.deployment_base_url().clone(),
        Some("https://h/t/c/deploymentBase/7".to_string())
    );
}

#[test]
fn feedback_url_derivation_rule_is_shared() {
    assert_eq!(
        hawkbit::http_url::feedback_url_string("https://h/t/c/confirmationBase/5?x=1").unwrap(),
        "https://h/t/c/confirmationBase/5/feedback"
    );
    assert_eq!(
        hawkbit::http_url::feedback_url_string("https://h/t/c/deploymentBase/9").unwrap(),
        "https://h/t/c/deploymentBase/9/feedback"
    );
    assert!(hawkbit::http_url::feedback_url_string("data:text/plain,x").is_err());
}
