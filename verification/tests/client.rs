//! Tests of the session: credential exchange, request building, the
//! uniform response classification, and the delete leniency.
use travis::error::Error;
use travis::{interpret_delete, interpret_response, Client, Construction, Credential, Method,
    State};

fn ready(r: Result<Construction, Error>) -> Client {
    match r.unwrap() {
        Construction::Ready(c) => c,
        Construction::Exchange(_) => panic!("expected a ready session"),
    }
}

#[test]
fn it_works() {}

#[test]
fn github_credential_yields_one_exchange_post() {
    let r = Client::custom(
        String::from("https://example.test"),
        Some(Credential::Github(String::from("gh-tok"))),
    );
    match r.unwrap() {
        Construction::Exchange(plan) => {
            assert_eq!(plan.method, Method::Post);
            assert_eq!(plan.url, "https://example.test/auth/github");
            assert_eq!(plan.body.unwrap(), b"{\"github_token\":\"gh-tok\"}".to_vec());
            assert!(plan
                .headers
                .iter()
                .any(|(k, v)| k == "Accept" && v == "application/vnd.travis-ci.2+json"));
            assert!(plan.headers.iter().any(|(k, v)| k == "Content-Type"
                && v == "application/json"));
        }
        Construction::Ready(_) => panic!("expected an exchange plan"),
    }
}

#[test]
fn successful_exchange_authorizes_every_request() {
    let client = Client::from_exchange(
        String::from("https://example.test"),
        200,
        &b"{\"access_token\":\"abc\"}".to_vec(),
    )
    .unwrap();
    let plan = client.request(Method::Get, None, String::from("https://example.test/x"));
    assert!(plan
        .headers
        .iter()
        .any(|(k, v)| k == "Authorization" && v == "token abc"));
}

#[test]
fn forbidden_exchange_fails_construction() {
    let r = Client::from_exchange(
        String::from("https://example.test"),
        403,
        &b"{\"error_message\":\"forbidden\"}".to_vec(),
    );
    match r {
        Err(Error::Fault { code, message }) => {
            assert_eq!(code, 403);
            assert_eq!(message, "forbidden");
        }
        other => panic!("expected a fault, got {:?}", other),
    }
}

#[test]
fn undecodable_exchange_body_is_codec() {
    let r = Client::from_exchange(String::from("https://example.test"), 200, &b"garbage".to_vec());
    assert!(matches!(r, Err(Error::Codec)));
}

#[test]
fn token_credential_needs_no_exchange() {
    let client = ready(Client::oss(Some(Credential::Token(String::from("t-1")))));
    let plan = client.request(Method::Get, None, String::from("https://api.travis-ci.org/x"));
    assert!(plan
        .headers
        .iter()
        .any(|(k, v)| k == "Authorization" && v == "token t-1"));
    assert!(plan
        .headers
        .iter()
        .any(|(k, v)| k == "Travis-Api-Version" && v == "3"));
}

#[test]
fn anonymous_session_sends_no_authorization() {
    let client = ready(Client::oss(None));
    let plan = client.request(Method::Get, None, String::from("https://api.travis-ci.org/x"));
    assert!(plan.headers.iter().all(|(k, _)| k != "Authorization"));
}

#[test]
fn relative_host_is_an_invalid_uri() {
    let r = Client::custom(String::new(), Some(Credential::Github(String::from("g"))));
    assert!(matches!(r, Err(Error::InvalidUri)));
}

#[test]
fn success_response_yields_decoded_value() {
    let r = interpret_response(200, &b"[1,2]".to_vec(), Some(vec![1, 2]));
    assert_eq!(r.unwrap(), vec![1, 2]);
}

#[test]
fn success_response_without_decode_is_codec() {
    let r = interpret_response::<usize>(200, &b"not json".to_vec(), None);
    assert!(matches!(r, Err(Error::Codec)));
}

#[test]
fn error_response_is_classified_as_fault() {
    let r = interpret_response::<usize>(
        422,
        &b"{\"error_message\":\"rate limited\"}".to_vec(),
        None,
    );
    match r {
        Err(Error::Fault { code, message }) => {
            assert_eq!(code, 422);
            assert_eq!(message, "rate limited");
        }
        other => panic!("expected a fault, got {:?}", other),
    }
}

#[test]
fn delete_with_empty_body_is_success() {
    assert!(interpret_delete(200, &Vec::new()).is_ok());
    assert!(interpret_delete(204, &Vec::new()).is_ok());
}

#[test]
fn delete_fault_is_still_reported() {
    let r = interpret_delete(409, &b"{\"error_message\":\"busy\"}".to_vec());
    match r {
        Err(Error::Fault { code, message }) => {
            assert_eq!(code, 409);
            assert_eq!(message, "busy");
        }
        other => panic!("expected a fault, got {:?}", other),
    }
}

#[test]
fn delete_empty_error_body_is_forgiven() {
    assert!(interpret_delete(500, &Vec::new()).is_ok());
}

#[test]
fn delete_undecodable_nonempty_body_stays_codec() {
    let r = interpret_delete(500, &b"not json".to_vec());
    assert!(matches!(r, Err(Error::Codec)));
}

#[test]
fn state_renders_its_wire_name() {
    assert_eq!(State::Created.as_str(), "created");
    assert_eq!(State::Started.as_str(), "started");
    assert_eq!(State::Canceled.as_str(), "canceled");
    assert_eq!(State::Passed.as_str(), "passed");
    assert_eq!(State::Failed.as_str(), "failed");
    assert_eq!(State::Errored.as_str(), "errored");
}
