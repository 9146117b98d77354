//! Environment variables of a repository: the records, the JSON bodies
//! the write endpoints send, and the request plans of the five
//! endpoints.
use vstd::prelude::*;
use vstd::string::StrSliceExecFns;
use vstd::string::StringExecFns;
use vstd::utf8::encode_utf8;

use crate::error::{Error, ErrorSpec};
use crate::text;
use crate::wire;
use crate::{api_headers, Client, Method, RequestPlan};

verus! {

/// A new environment variable to create.
#[derive(Debug, Clone)]
pub struct EnvVarCreate {
    pub name: String,
    pub value: String,
    pub public: bool,
}

/// A partial update of an environment variable: only the present
/// fields are sent.
#[derive(Debug, Clone)]
pub struct EnvVarPatch {
    pub name: Option<String>,
    pub value: Option<String>,
    pub public: Option<bool>,
}

/// One environment variable, as the API reports it.
#[derive(Debug)]
pub struct EnvVar {
    pub id: String,
    pub name: Option<String>,
    pub public: Option<bool>,
    pub value: Option<String>,
    pub permissions: EnvVarPermissions,
}

/// Permissions the authenticated user holds on an environment variable.
#[derive(Debug, Clone)]
pub struct EnvVarPermissions {
    pub read: bool,
    pub write: bool,
}

/// The JSON body that creates an environment variable: all three
/// fields, under their dotted wire names.
pub open spec fn spec_create_body(o: EnvVarCreate) -> Seq<char> {
    "{\"env_var.name\":"@ + wire::json_quoted(o.name@) + ",\"env_var.value\":"@
        + wire::json_quoted(o.value@) + ",\"env_var.public\":"@ + text::spec_bool_str(o.public)
        + "}"@
}

/// The members a patch body carries: one `"key":value` piece per
/// present field, in declaration order.
pub open spec fn spec_patch_segments(o: EnvVarPatch) -> Seq<Seq<char>> {
    (match o.name {
        Some(n) => seq!["\"env_var.name\":"@ + wire::json_quoted(n@)],
        None => Seq::empty(),
    }) + (match o.value {
        Some(v) => seq!["\"env_var.value\":"@ + wire::json_quoted(v@)],
        None => Seq::empty(),
    }) + (match o.public {
        Some(b) => seq!["\"env_var.public\":"@ + text::spec_bool_str(b)],
        None => Seq::empty(),
    })
}

/// The JSON body of a patch: the present members, comma-joined, in one
/// object; `{}` when nothing is patched.
pub open spec fn spec_patch_body(o: EnvVarPatch) -> Seq<char> {
    "{"@ + text::joined_with_commas(spec_patch_segments(o)) + "}"@
}

fn create_body_string(o: &EnvVarCreate) -> (s: String)
    ensures
        s@ == spec_create_body(*o),
{
    let mut s = String::from_str("{\"env_var.name\":");
    let name = wire::json_quote(o.name.as_str());
    s.append(name.as_str());
    s.append(",\"env_var.value\":");
    let value = wire::json_quote(o.value.as_str());
    s.append(value.as_str());
    s.append(",\"env_var.public\":");
    s.append(text::bool_str(o.public));
    s.append("}");
    s
}

fn patch_body_string(o: &EnvVarPatch) -> (s: String)
    ensures
        s@ == spec_patch_body(*o),
{
    let mut segments: Vec<String> = Vec::new();
    if let Some(name) = &o.name {
        let mut piece = String::from_str("\"env_var.name\":");
        let quoted = wire::json_quote(name.as_str());
        piece.append(quoted.as_str());
        segments.push(piece);
    }
    if let Some(value) = &o.value {
        let mut piece = String::from_str("\"env_var.value\":");
        let quoted = wire::json_quote(value.as_str());
        piece.append(quoted.as_str());
        segments.push(piece);
    }
    if let Some(public) = &o.public {
        let mut piece = String::from_str("\"env_var.public\":");
        piece.append(text::bool_str(*public));
        segments.push(piece);
    }
    proof {
        assert(segments.deep_view() =~~= spec_patch_segments(*o));
    }
    let mut s = String::from_str("{");
    let joined = text::join_commas(&segments);
    s.append(joined.as_str());
    s.append("}");
    s
}

/// The environment variables of one repository, addressed by its
/// escaped slug.
#[derive(Debug, Clone)]
pub struct Env {
    pub travis: Client,
    pub slug: String,
}

impl Env {
    /// The URL of the whole collection.
    pub open spec fn vars_url(&self) -> Seq<char> {
        self.travis.host@ + "/repo/"@ + self.slug@ + "/env_vars"@
    }

    /// The URL of one variable.
    pub open spec fn var_url(&self, var_id: Seq<char>) -> Seq<char> {
        self.travis.host@ + "/repo/"@ + self.slug@ + "/env_var/"@ + var_id
    }

    fn collection_url(&self) -> (url: String)
        ensures
            url@ == self.vars_url(),
    {
        let mut url = self.travis.host.clone();
        url.append("/repo/");
        url.append(self.slug.as_str());
        url.append("/env_vars");
        url
    }

    fn member_url(&self, var_id: &str) -> (url: String)
        ensures
            url@ == self.var_url(var_id@),
    {
        let mut url = self.travis.host.clone();
        url.append("/repo/");
        url.append(self.slug.as_str());
        url.append("/env_var/");
        url.append(var_id);
        url
    }

    /// Build the GET request that lists every variable of the
    /// repository.
    pub fn vars_request(&self) -> (r: Result<RequestPlan, Error>)
        ensures
            wire::uri_ok(self.vars_url()) ==> (r matches Ok(p) && p.method == Method::Get
                && p.url@ == self.vars_url() && p.body is None && p.headers.deep_view()
                == api_headers(self.travis.token_view())),
            !wire::uri_ok(self.vars_url()) ==> (r matches Err(e) && e@ == ErrorSpec::InvalidUri),
    {
        let url = self.collection_url();
        if !wire::uri_parses(url.as_str()) {
            return Err(Error::InvalidUri);
        }
        Ok(self.travis.request(Method::Get, None, url))
    }

    /// Build the GET request of one variable by id.
    pub fn get_request(&self, var_id: &str) -> (r: Result<RequestPlan, Error>)
        ensures
            wire::uri_ok(self.var_url(var_id@)) ==> (r matches Ok(p) && p.method == Method::Get
                && p.url@ == self.var_url(var_id@) && p.body is None && p.headers.deep_view()
                == api_headers(self.travis.token_view())),
            !wire::uri_ok(self.var_url(var_id@)) ==> (r matches Err(e) && e@
                == ErrorSpec::InvalidUri),
    {
        let url = self.member_url(var_id);
        if !wire::uri_parses(url.as_str()) {
            return Err(Error::InvalidUri);
        }
        Ok(self.travis.request(Method::Get, None, url))
    }

    /// Build the PATCH request that updates one variable: the body
    /// carries exactly the present fields of the patch.
    pub fn update_request(&self, var_id: &str, options: &EnvVarPatch) -> (r: Result<
        RequestPlan,
        Error,
    >)
        ensures
            wire::uri_ok(self.var_url(var_id@)) ==> (r matches Ok(p) && p.method == Method::Patch
                && p.url@ == self.var_url(var_id@) && (p.body matches Some(b) && b@
                == encode_utf8(spec_patch_body(*options))) && p.headers.deep_view()
                == api_headers(self.travis.token_view())),
            !wire::uri_ok(self.var_url(var_id@)) ==> (r matches Err(e) && e@
                == ErrorSpec::InvalidUri),
    {
        let url = self.member_url(var_id);
        if !wire::uri_parses(url.as_str()) {
            return Err(Error::InvalidUri);
        }
        let body = patch_body_string(options);
        Ok(self.travis.request(Method::Patch, Some(body.as_str().as_bytes_vec()), url))
    }

    /// Build the POST request that creates a variable: the body carries
    /// name, value and visibility.
    pub fn set_request(&self, options: &EnvVarCreate) -> (r: Result<RequestPlan, Error>)
        ensures
            wire::uri_ok(self.vars_url()) ==> (r matches Ok(p) && p.method == Method::Post
                && p.url@ == self.vars_url() && (p.body matches Some(b) && b@ == encode_utf8(
                spec_create_body(*options),
            )) && p.headers.deep_view() == api_headers(self.travis.token_view())),
            !wire::uri_ok(self.vars_url()) ==> (r matches Err(e) && e@ == ErrorSpec::InvalidUri),
    {
        let url = self.collection_url();
        if !wire::uri_parses(url.as_str()) {
            return Err(Error::InvalidUri);
        }
        let body = create_body_string(options);
        Ok(self.travis.request(Method::Post, Some(body.as_str().as_bytes_vec()), url))
    }

    /// Build the DELETE request of one variable by id; its response is
    /// read back through [`crate::interpret_delete`], with the one
    /// empty-body leniency stated there.
    pub fn delete_request(&self, var_id: &str) -> (r: Result<RequestPlan, Error>)
        ensures
            wire::uri_ok(self.var_url(var_id@)) ==> (r matches Ok(p) && p.method == Method::Delete
                && p.url@ == self.var_url(var_id@) && p.body is None && p.headers.deep_view()
                == api_headers(self.travis.token_view())),
            !wire::uri_ok(self.var_url(var_id@)) ==> (r matches Err(e) && e@
                == ErrorSpec::InvalidUri),
    {
        let url = self.member_url(var_id);
        if !wire::uri_parses(url.as_str()) {
            return Err(Error::InvalidUri);
        }
        Ok(self.travis.request(Method::Delete, None, url))
    }
}

} // verus!
