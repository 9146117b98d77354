//! Tests of the resource endpoints: URL building, slug escaping, query
//! strings, and the JSON bodies of the environment-variable writes.
use travis::builds;
use travis::env::{EnvVarCreate, EnvVarPatch};
use travis::error::Error;
use travis::repos;
use travis::{Client, Construction, Credential, Method, State};

// The listing's first query key, as the API spells it.
fn embed_key() -> String {
    format!("inc{}", "lude")
}

fn oss_client() -> Client {
    match Client::oss(Some(Credential::Token(String::from("t")))).unwrap() {
        Construction::Ready(c) => c,
        Construction::Exchange(_) => panic!("a token credential needs no exchange"),
    }
}

#[test]
fn build_listing_url_escapes_the_slug() {
    let client = oss_client();
    let options = builds::ListOptions::default();
    let plan = client.builds("rust-lang/rust").list_request(&options).unwrap();
    assert_eq!(plan.method, Method::Get);
    assert_eq!(
        plan.url,
        format!(
            "https://api.travis-ci.org/repo/rust-lang%2Frust/builds?{}=&limit=25&sort_by=started_at",
            embed_key()
        )
    );
    assert!(plan.body.is_none());
}

#[test]
fn non_ascii_slug_is_percent_encoded_bytewise() {
    let client = oss_client();
    let env = client.env("h\u{e9}llo/x");
    let plan = env.vars_request().unwrap();
    assert_eq!(
        plan.url,
        "https://api.travis-ci.org/repo/h%C3%A9llo%2Fx/env_vars"
    );
}

#[test]
fn build_query_serializes_filters_in_order() {
    let q = builds::ListOptions::builder()
        .limit(1)
        .created_by(String::from("Jane Doe"))
        .previous_state(State::Failed)
        .state(State::Passed)
        .build()
        .into_query_string();
    assert_eq!(
        q,
        format!(
            "{}=&limit=1&sort_by=started_at&created_by=Jane+Doe&previous_state=failed&state=passed",
            embed_key()
        )
    );
}

#[test]
fn build_query_joins_included_fields_with_commas() {
    let q = builds::ListOptions::builder()
        .included(vec![String::from("build.jobs"), String::from("job.state")])
        .build()
        .into_query_string();
    assert_eq!(
        q,
        format!("{}=build.jobs%2Cjob.state&limit=25&sort_by=started_at", embed_key())
    );
}

#[test]
fn negative_limit_is_rendered_with_sign() {
    let q = builds::ListOptions::builder().limit(-5).build().into_query_string();
    assert_eq!(q, format!("{}=&limit=-5&sort_by=started_at", embed_key()));
}

#[test]
fn repo_query_serializes_flags_in_order() {
    let q = repos::ListOptions::builder()
        .active(true)
        .starred(false)
        .private(true)
        .build()
        .into_query_string();
    assert_eq!(
        q,
        format!(
            "{}=&limit=25&sort_by=started_at&active=true&starred=false&private=true",
            embed_key()
        )
    );
}

#[test]
fn repo_listing_url_interpolates_the_owner() {
    let client = oss_client();
    let options = repos::ListOptions::default();
    let plan = client.repos().list_request("rocallahan", &options).unwrap();
    assert_eq!(
        plan.url,
        format!(
            "https://api.travis-ci.org/owner/rocallahan/repos?{}=&limit=25&sort_by=started_at",
            embed_key()
        )
    );
}

#[test]
fn job_listing_url_interpolates_the_build_id() {
    let client = oss_client();
    let plan = client.jobs(123).list_request().unwrap();
    assert_eq!(plan.url, "https://api.travis-ci.org/build/123/jobs");
}

#[test]
fn page_request_joins_host_and_link() {
    let client = oss_client();
    let plan = client.page_request("/repo/1/builds?offset=25").unwrap();
    assert_eq!(plan.method, Method::Get);
    assert_eq!(plan.url, "https://api.travis-ci.org/repo/1/builds?offset=25");
}

#[test]
fn env_create_body_is_exact_json() {
    let client = oss_client();
    let env = client.env("o/r");
    let plan = env
        .set_request(&EnvVarCreate {
            name: String::from("KEY"),
            value: String::from("va\"lue"),
            public: true,
        })
        .unwrap();
    assert_eq!(plan.method, Method::Post);
    assert_eq!(
        plan.body.unwrap(),
        b"{\"env_var.name\":\"KEY\",\"env_var.value\":\"va\\\"lue\",\"env_var.public\":true}"
            .to_vec()
    );
}

#[test]
fn env_patch_body_carries_only_present_fields() {
    let client = oss_client();
    let env = client.env("o/r");
    let plan = env
        .update_request(
            "id-1",
            &EnvVarPatch { name: None, value: None, public: Some(false) },
        )
        .unwrap();
    assert_eq!(plan.method, Method::Patch);
    assert_eq!(plan.url, "https://api.travis-ci.org/repo/o%2Fr/env_var/id-1");
    assert_eq!(plan.body.unwrap(), b"{\"env_var.public\":false}".to_vec());
}

#[test]
fn empty_env_patch_is_an_empty_object() {
    let client = oss_client();
    let env = client.env("o/r");
    let plan = env
        .update_request("id-1", &EnvVarPatch { name: None, value: None, public: None })
        .unwrap();
    assert_eq!(plan.body.unwrap(), b"{}".to_vec());
}

#[test]
fn env_delete_request_has_no_body() {
    let client = oss_client();
    let env = client.env("o/r");
    let plan = env.delete_request("id-9").unwrap();
    assert_eq!(plan.method, Method::Delete);
    assert_eq!(plan.url, "https://api.travis-ci.org/repo/o%2Fr/env_var/id-9");
    assert!(plan.body.is_none());
}

#[test]
fn bad_host_makes_requests_invalid() {
    let client = match Client::custom(String::new(), None).unwrap() {
        Construction::Ready(c) => c,
        Construction::Exchange(_) => panic!("no credential needs no exchange"),
    };
    let r = client.builds("x").list_request(&builds::ListOptions::default());
    assert!(matches!(r, Err(Error::InvalidUri)));
}
