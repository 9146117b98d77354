//! Client-side core of a paginated CI REST API: credential exchange,
//! uniform request building, response classification, and a lazy
//! cursor-based pagination engine.
//!
//! The crate builds every request as a plain [`RequestPlan`] value and
//! classifies every response from its status code and raw body bytes, so
//! that the host transport only has to dispatch plans and hand back bytes.
use vstd::prelude::*;
use vstd::string::StrSliceExecFns;
use vstd::string::StringExecFns;
use vstd::utf8::encode_utf8;

pub mod builds;
pub mod commits;
pub mod env;
pub mod error;
pub mod jobs;
pub mod paginate;
pub mod repos;
pub mod text;
pub mod wire;

use crate::builds::Builds;
use crate::env::Env;
use crate::error::{classify_fault, is_success, spec_classify_fault, spec_is_success, Error,
    ErrorSpec};
use crate::jobs::Jobs;
use crate::repos::Repos;

verus! {

/// Enumeration of build and job states.
#[derive(Debug, Clone, Copy, PartialEq, Eq, Structural)]
pub enum State {
    /// Workload was created but not yet started.
    Created,
    /// Workload was started but has not completed.
    Started,
    /// Workload started but was canceled.
    Canceled,
    /// Workload completed with a successful exit status.
    Passed,
    /// Workload completed with a failure exit status.
    Failed,
    /// The build errored.
    Errored,
}

impl State {
    /// The lower-case wire name of the state.
    pub open spec fn spec_as_str(self) -> Seq<char> {
        match self {
            State::Created => "created"@,
            State::Started => "started"@,
            State::Canceled => "canceled"@,
            State::Passed => "passed"@,
            State::Failed => "failed"@,
            State::Errored => "errored"@,
        }
    }

    /// Render the state as its lower-case wire name.
    pub fn as_str(&self) -> (s: &'static str)
        ensures
            s@ == self.spec_as_str(),
    {
        match self {
            State::Created => "created",
            State::Started => "started",
            State::Canceled => "canceled",
            State::Passed => "passed",
            State::Failed => "failed",
            State::Errored => "errored",
        }
    }
}

/// The kinds of API credential used to authenticate the client.
#[derive(Debug)]
pub enum Credential {
    /// A pre-issued API token, usable immediately.
    Token(String),
    /// A GitHub token, exchanged for an API token by one network call
    /// when the client is constructed.
    Github(String),
}

impl Clone for Credential {
    fn clone(&self) -> (c: Self)
        ensures
            c == *self,
    {
        match self {
            Credential::Token(t) => Credential::Token(t.clone()),
            Credential::Github(g) => Credential::Github(g.clone()),
        }
    }
}

/// A git branch ref.
#[derive(Debug, Clone)]
pub struct Branch {
    pub name: String,
}

/// A repository owner (user or organization).
#[derive(Debug, Clone)]
pub struct Owner {
    pub id: usize,
    pub login: String,
}

/// The HTTP method of a request plan.
#[derive(Debug, Clone, Copy, PartialEq, Eq, Structural)]
pub enum Method {
    Get,
    Post,
    Patch,
    Delete,
}

/// One fully built HTTP request: everything the host transport needs to
/// dispatch it, as plain values.
#[derive(Debug, Clone)]
pub struct RequestPlan {
    pub method: Method,
    pub url: String,
    pub headers: Vec<(String, String)>,
    pub body: Option<Vec<u8>>,
}

/// The user-agent string sent with every request.
pub open spec fn user_agent() -> Seq<char> {
    "Travis/0.1.0"@
}

/// Headers of an ordinary API request: user agent, API version, JSON
/// content type, and a bearer `Authorization` header exactly when the
/// session holds a token.
pub open spec fn api_headers(token: Option<Seq<char>>) -> Seq<(Seq<char>, Seq<char>)> {
    let base = seq![
        ("User-Agent"@, user_agent()),
        ("Travis-Api-Version"@, "3"@),
        ("Content-Type"@, "application/json"@),
    ];
    match token {
        Some(t) => base.push(("Authorization"@, "token "@ + t)),
        None => base,
    }
}

/// Headers of the one-time credential exchange request.
pub open spec fn exchange_headers() -> Seq<(Seq<char>, Seq<char>)> {
    seq![
        ("User-Agent"@, user_agent()),
        ("Accept"@, "application/vnd.travis-ci.2+json"@),
        ("Content-Type"@, "application/json"@),
    ]
}

/// The JSON body of the credential exchange request.
pub open spec fn github_body(gh: Seq<char>) -> Seq<char> {
    "{\"github_token\":"@ + wire::json_quoted(gh) + "}"@
}

fn github_body_string(gh: &String) -> (s: String)
    ensures
        s@ == github_body(gh@),
{
    let mut s = String::from_str("{\"github_token\":");
    let quoted = wire::json_quote(gh.as_str());
    s.append(quoted.as_str());
    s.append("}");
    s
}

/// Entry point for all API operations: the resolved session.
///
/// Holds the target host and the resolved credential; it is immutable
/// after construction and may be cloned freely.
#[derive(Debug)]
pub struct Client {
    pub host: String,
    pub credential: Option<Credential>,
}

impl Clone for Client {
    fn clone(&self) -> (c: Self)
        ensures
            c == *self,
    {
        Client { host: self.host.clone(), credential: self.credential.clone() }
    }
}

/// The outcome of starting client construction: either a session that is
/// ready, or the single exchange request that must be dispatched first
/// and answered through [`Client::from_exchange`].
#[derive(Debug)]
pub enum Construction {
    Ready(Client),
    Exchange(RequestPlan),
}

/// What [`Client::custom`] returns for each kind of credential: a ready
/// session for a pre-issued token or no credential, and exactly one
/// exchange `POST {host}/auth/github` plan for a GitHub token.
pub open spec fn constructed(
    host: Seq<char>,
    credential: Option<Credential>,
    r: Result<Construction, Error>,
) -> bool {
    match credential {
        Some(Credential::Github(gh)) => {
            let url = host + "/auth/github"@;
            if wire::uri_ok(url) {
                match r {
                    Ok(Construction::Exchange(p)) => {
                        &&& p.method == Method::Post
                        &&& p.url@ == url
                        &&& match p.body {
                            Some(b) => b@ == encode_utf8(github_body(gh@)),
                            None => false,
                        }
                        &&& p.headers.deep_view() == exchange_headers()
                    },
                    _ => false,
                }
            } else {
                r matches Err(e) && e@ == ErrorSpec::InvalidUri
            }
        },
        Some(Credential::Token(t)) => r matches Ok(Construction::Ready(c)) && c.host@ == host
            && c.token_view() == Some(t@),
        None => r matches Ok(Construction::Ready(c)) && c.host@ == host && c.token_view() is None,
    }
}

/// What completing the credential exchange yields for each response: a
/// session holding the returned access token on a success status whose
/// body carries one, `Codec` when the body does not decode, and the
/// fault classification otherwise. No session is produced on failure.
pub open spec fn exchange_outcome(
    host: Seq<char>,
    status: u16,
    body: Seq<u8>,
    r: Result<Client, Error>,
) -> bool {
    if spec_is_success(status) {
        match wire::json_str_field(body, "access_token"@) {
            Some(tok) => r matches Ok(c) && c.host@ == host && c.token_view() == Some(tok),
            None => r matches Err(e) && e@ == ErrorSpec::Codec,
        }
    } else {
        r matches Err(e) && e@ == spec_classify_fault(status, body)
    }
}

impl Client {
    /// The bearer token the session sends, if any.
    pub open spec fn token_view(&self) -> Option<Seq<char>> {
        match self.credential {
            Some(Credential::Token(t)) => Some(t@),
            _ => None,
        }
    }

    /// Create a client for the open-source host.
    ///
    /// A `Github` credential yields the exchange plan to dispatch; see
    /// [`Client::custom`].
    pub fn oss(credential: Option<Credential>) -> (r: Result<Construction, Error>)
        ensures
            constructed("https://api.travis-ci.org"@, credential, r),
    {
        Client::custom(String::from_str("https://api.travis-ci.org"), credential)
    }

    /// Create a client for the private-project host.
    pub fn pro(credential: Option<Credential>) -> (r: Result<Construction, Error>)
        ensures
            constructed("https://api.travis-ci.com"@, credential, r),
    {
        Client::custom(String::from_str("https://api.travis-ci.com"), credential)
    }

    /// Create a client for a custom host.
    ///
    /// With a pre-issued token or no credential the session is ready at
    /// once and no network work is owed. With a GitHub token the result
    /// is the single exchange request to dispatch; its response completes
    /// construction through [`Client::from_exchange`].
    pub fn custom(host: String, credential: Option<Credential>) -> (r: Result<
        Construction,
        Error,
    >)
        ensures
            constructed(host@, credential, r),
    {
        match credential {
            Some(Credential::Github(gh)) => {
                let mut url = host;
                url.append("/auth/github");
                if !wire::uri_parses(url.as_str()) {
                    return Err(Error::InvalidUri);
                }
                let body_str = github_body_string(&gh);
                let body = body_str.as_str().as_bytes_vec();
                let mut headers: Vec<(String, String)> = Vec::new();
                headers.push((String::from_str("User-Agent"), String::from_str("Travis/0.1.0")));
                headers.push(
                    (
                        String::from_str("Accept"),
                        String::from_str("application/vnd.travis-ci.2+json"),
                    ),
                );
                headers.push(
                    (String::from_str("Content-Type"), String::from_str("application/json")),
                );
                proof {
                    assert(headers.deep_view() =~~= exchange_headers());
                }
                Ok(
                    Construction::Exchange(
                        RequestPlan {
                            method: Method::Post,
                            url,
                            headers,
                            body: Some(body),
                        },
                    ),
                )
            },
            Some(Credential::Token(t)) => Ok(
                Construction::Ready(Client { host, credential: Some(Credential::Token(t)) }),
            ),
            None => Ok(Construction::Ready(Client { host, credential: None })),
        }
    }

    /// Complete construction from the exchange response.
    ///
    /// On a success status whose body carries an `access_token` member
    /// the session holds that token as its bearer token; otherwise
    /// construction fails with the uniform classification of the
    /// response and no session is produced.
    pub fn from_exchange(host: String, status: u16, body: &Vec<u8>) -> (r: Result<Client, Error>)
        ensures
            exchange_outcome(host@, status, body@, r),
    {
        if is_success(status) {
            match wire::json_string_field(body, "access_token") {
                Some(tok) => Ok(
                    Client { host, credential: Some(Credential::Token(tok)) },
                ),
                None => Err(Error::Codec),
            }
        } else {
            Err(classify_fault(status, body))
        }
    }

    /// The repositories visible to this session.
    pub fn repos(&self) -> (r: Repos)
        ensures
            r.travis == *self,
    {
        Repos { travis: self.clone() }
    }

    /// The environment variables of the repository with this slug; the
    /// slug is percent-escaped at path-segment level before
    /// interpolation.
    pub fn env(&self, slug: &str) -> (r: Env)
        ensures
            r.travis == *self,
            r.slug@ == wire::escaped(slug@),
    {
        Env { travis: self.clone(), slug: wire::escape(slug) }
    }

    /// The builds of the repository with this slug; the slug is
    /// percent-escaped at path-segment level before interpolation.
    pub fn builds(&self, slug: &str) -> (r: Builds)
        ensures
            r.travis == *self,
            r.slug@ == wire::escaped(slug@),
    {
        Builds { travis: self.clone(), slug: wire::escape(slug) }
    }

    /// The jobs of the build with this id.
    pub fn jobs(&self, build_id: usize) -> (r: Jobs)
        ensures
            r.travis == *self,
            r.build_id == build_id,
    {
        Jobs { travis: self.clone(), build_id }
    }

    /// Build the GET request of one later page, from the next link its
    /// predecessor's envelope carried.
    pub fn page_request(&self, href: &str) -> (r: Result<RequestPlan, Error>)
        ensures
            wire::uri_ok(self.host@ + href@) ==> (r matches Ok(p) && p.method == Method::Get
                && p.url@ == self.host@ + href@ && p.body is None && p.headers.deep_view()
                == api_headers(self.token_view())),
            !wire::uri_ok(self.host@ + href@) ==> (r matches Err(e) && e@
                == ErrorSpec::InvalidUri),
    {
        let mut url = self.host.clone();
        url.append(href);
        if !wire::uri_parses(url.as_str()) {
            return Err(Error::InvalidUri);
        }
        Ok(self.request(Method::Get, None, url))
    }

    /// Build one API request: the given method, target and body, under
    /// the uniform headers, with a bearer `Authorization` header exactly
    /// when the session holds a token.
    pub fn request(&self, method: Method, body: Option<Vec<u8>>, url: String) -> (p: RequestPlan)
        ensures
            p.method == method,
            p.url@ == url@,
            p.body == body,
            p.headers.deep_view() == api_headers(self.token_view()),
    {
        let mut headers: Vec<(String, String)> = Vec::new();
        headers.push((String::from_str("User-Agent"), String::from_str("Travis/0.1.0")));
        headers.push((String::from_str("Travis-Api-Version"), String::from_str("3")));
        headers.push((String::from_str("Content-Type"), String::from_str("application/json")));
        if let Some(Credential::Token(t)) = &self.credential {
            let value = String::from_str("token ").concat(t.as_str());
            headers.push((String::from_str("Authorization"), value));
        }
        proof {
            assert(headers.deep_view() =~~= api_headers(self.token_view()));
        }
        RequestPlan { method, url, headers, body }
    }
}

/// Interpret an ordinary response under the uniform mapping rule.
///
/// `decoded` is the attempt at decoding the body into the expected
/// success shape, made by the caller only for a success status. A
/// success status yields the decoded value, or `Codec` when the decode
/// failed; a non-success status yields the fault classification of the
/// body, never the decoded value.
pub fn interpret_response<T>(status: u16, body: &Vec<u8>, decoded: Option<T>) -> (r: Result<
    T,
    Error,
>)
    ensures
        spec_is_success(status) ==> match decoded {
            Some(t) => r matches Ok(v) && v == t,
            None => r matches Err(e) && e@ == ErrorSpec::Codec,
        },
        !spec_is_success(status) ==> (r matches Err(e) && e@ == spec_classify_fault(
            status,
            body@,
        )),
{
    if is_success(status) {
        match decoded {
            Some(t) => Ok(t),
            None => Err(Error::Codec),
        }
    } else {
        Err(classify_fault(status, body))
    }
}

/// Interpret a deletion response, with the one leniency of the pipeline:
/// a `Codec` classification of an empty body is success, because the
/// API may answer a successful deletion with an empty (hence
/// undecodable) body.
///
/// A success status is always success. A non-success status whose body
/// carries a structured fault is still that fault; one whose body is
/// empty classifies as `Codec` and is forgiven; a non-empty body that
/// does not decode stays `Codec`.
pub fn interpret_delete(status: u16, body: &Vec<u8>) -> (r: Result<(), Error>)
    ensures
        spec_is_success(status) ==> r is Ok,
        !spec_is_success(status) ==> match wire::json_str_field(body@, "error_message"@) {
            Some(m) => r matches Err(e) && e@ == ErrorSpec::Fault { code: status, message: m },
            None => if body@.len() == 0 {
                r is Ok
            } else {
                r matches Err(e) && e@ == ErrorSpec::Codec
            },
        },
{
    if is_success(status) {
        Ok(())
    } else {
        match classify_fault(status, body) {
            Error::Codec => if body.len() == 0 {
                Ok(())
            } else {
                Err(Error::Codec)
            },
            e => Err(e),
        }
    }
}

} // verus!
