//! Listing the repositories of an owner: the repository record, the
//! list options with their builder, and the request plan of the
//! endpoint.
use vstd::prelude::*;
use vstd::string::StrSliceExecFns;
use vstd::string::StringExecFns;

use crate::error::{Error, ErrorSpec};
use crate::text;
use crate::wire;
use crate::{api_headers, Branch, Client, Method, Owner, RequestPlan};

verus! {

/// One repository, as the API reports it.
#[derive(Debug, Clone)]
pub struct Repository {
    pub id: usize,
    pub name: String,
    pub slug: String,
    pub description: Option<String>,
    pub github_language: Option<String>,
    pub active: bool,
    pub private: bool,
    pub owner: Owner,
    pub permissions: RepoPermissions,
    pub default_branch: Option<Branch>,
    pub starred: bool,
}

/// Permissions the authenticated user holds on a repository.
#[derive(Debug, Clone)]
pub struct RepoPermissions {
    pub read: bool,
    pub admin: bool,
    pub activate: bool,
    pub deactivate: bool,
    pub star: bool,
    pub unstar: bool,
    pub create_cron: bool,
    pub create_env_var: bool,
    pub create_key_pair: bool,
    pub delete_key_pair: bool,
    pub create_request: bool,
}

/// Options of a repository listing. Defaults: no included fields, a
/// limit of 25, sorted by `started_at` (append `:desc` to any attribute
/// to reverse the order), and no filters.
#[derive(Debug, Clone)]
pub struct ListOptions {
    pub included: Vec<String>,
    pub limit: i32,
    pub sort_by: String,
    pub starred: Option<bool>,
    pub private: Option<bool>,
    pub active: Option<bool>,
}

/// The documented defaults of [`ListOptions`].
pub open spec fn is_default_options(o: ListOptions) -> bool {
    &&& o.included@ =~= Seq::<String>::empty()
    &&& o.limit == 25
    &&& o.sort_by@ == "started_at"@
    &&& o.starred is None
    &&& o.private is None
    &&& o.active is None
}

impl Default for ListOptions {
    /// The documented defaults: empty `included`, `limit` 25, sorted by
    /// `started_at`, no filters.
    fn default() -> (o: Self)
        ensures
            is_default_options(o),
    {
        ListOptions {
            included: Vec::new(),
            limit: 25,
            sort_by: String::from_str("started_at"),
            starred: None,
            private: None,
            active: None,
        }
    }
}

/// The query pairs a repository listing serializes, in wire order: the
/// three always-present pairs, then one pair per present filter.
pub open spec fn spec_query_pairs(o: ListOptions) -> Seq<(Seq<char>, Seq<char>)> {
    seq![
        (text::embed_key(), text::joined_with_commas(o.included.deep_view())),
        ("limit"@, text::dec_int(o.limit as int)),
        ("sort_by"@, o.sort_by@),
    ] + (match o.active {
        Some(b) => seq![("active"@, text::spec_bool_str(b))],
        None => Seq::empty(),
    }) + (match o.starred {
        Some(b) => seq![("starred"@, text::spec_bool_str(b))],
        None => Seq::empty(),
    }) + (match o.private {
        Some(b) => seq![("private"@, text::spec_bool_str(b))],
        None => Seq::empty(),
    })
}

/// The serialized query string of a repository listing.
pub open spec fn spec_query(o: ListOptions) -> Seq<char> {
    wire::form_pairs(spec_query_pairs(o))
}

impl ListOptions {
    /// Start building options from the defaults.
    pub fn builder() -> (b: ListOptionsBuilder)
        ensures
            is_default_options(b.options),
    {
        ListOptionsBuilder { options: ListOptions::default() }
    }

    /// Serialize the options as the URL query string of the listing.
    pub fn into_query_string(&self) -> (q: String)
        ensures
            q@ == spec_query(*self),
    {
        let mut pairs: Vec<(String, String)> = Vec::new();
        pairs.push((text::embed_key_string(), text::join_commas(&self.included)));
        pairs.push((String::from_str("limit"), text::fmt_i32(self.limit)));
        pairs.push((String::from_str("sort_by"), self.sort_by.clone()));
        if let Some(active) = &self.active {
            pairs.push((String::from_str("active"), String::from_str(text::bool_str(*active))));
        }
        if let Some(starred) = &self.starred {
            pairs.push((String::from_str("starred"), String::from_str(text::bool_str(*starred))));
        }
        if let Some(private) = &self.private {
            pairs.push((String::from_str("private"), String::from_str(text::bool_str(*private))));
        }
        proof {
            assert(pairs.deep_view() =~~= spec_query_pairs(*self));
        }
        wire::form_encode(&pairs)
    }
}

/// Step-by-step construction of [`ListOptions`], starting from the
/// defaults; each setter replaces one field.
#[derive(Debug, Clone)]
pub struct ListOptionsBuilder {
    pub options: ListOptions,
}

impl ListOptionsBuilder {
    /// Name the related resources delivered inside each record.
    pub fn included(self, included: Vec<String>) -> (b: Self)
        ensures
            b.options == (ListOptions { included, ..self.options }),
    {
        ListOptionsBuilder { options: ListOptions { included, ..self.options } }
    }

    /// Set the page size.
    pub fn limit(self, limit: i32) -> (b: Self)
        ensures
            b.options == (ListOptions { limit, ..self.options }),
    {
        ListOptionsBuilder { options: ListOptions { limit, ..self.options } }
    }

    /// Set the sort key.
    pub fn sort_by(self, sort_by: String) -> (b: Self)
        ensures
            b.options == (ListOptions { sort_by, ..self.options }),
    {
        ListOptionsBuilder { options: ListOptions { sort_by, ..self.options } }
    }

    /// Filter by starred state.
    pub fn starred(self, starred: bool) -> (b: Self)
        ensures
            b.options == (ListOptions { starred: Some(starred), ..self.options }),
    {
        ListOptionsBuilder { options: ListOptions { starred: Some(starred), ..self.options } }
    }

    /// Filter by visibility.
    pub fn private(self, private: bool) -> (b: Self)
        ensures
            b.options == (ListOptions { private: Some(private), ..self.options }),
    {
        ListOptionsBuilder { options: ListOptions { private: Some(private), ..self.options } }
    }

    /// Filter by active state.
    pub fn active(self, active: bool) -> (b: Self)
        ensures
            b.options == (ListOptions { active: Some(active), ..self.options }),
    {
        ListOptionsBuilder { options: ListOptions { active: Some(active), ..self.options } }
    }

    /// Finish: the accumulated options.
    pub fn build(self) -> (o: ListOptions)
        ensures
            o == self.options,
    {
        self.options
    }
}

/// The repositories visible to the session.
#[derive(Debug, Clone)]
pub struct Repos {
    pub travis: Client,
}

impl Repos {
    /// The URL of the first page of the listing for one owner.
    pub open spec fn list_url(&self, owner: Seq<char>, options: ListOptions) -> Seq<char> {
        self.travis.host@ + "/owner/"@ + owner + "/repos?"@ + spec_query(options)
    }

    /// Build the GET request of the first page of the owner's
    /// repository listing. The same plan starts an item-by-item
    /// traversal: later pages follow from each page's next link through
    /// [`Client::page_request`].
    pub fn list_request(&self, owner: &str, options: &ListOptions) -> (r: Result<
        RequestPlan,
        Error,
    >)
        ensures
            wire::uri_ok(self.list_url(owner@, *options)) ==> (r matches Ok(p) && p.method
                == Method::Get && p.url@ == self.list_url(owner@, *options) && p.body is None
                && p.headers.deep_view() == api_headers(self.travis.token_view())),
            !wire::uri_ok(self.list_url(owner@, *options)) ==> (r matches Err(e) && e@
                == ErrorSpec::InvalidUri),
    {
        let mut url = self.travis.host.clone();
        url.append("/owner/");
        url.append(owner);
        url.append("/repos?");
        let query = options.into_query_string();
        url.append(query.as_str());
        if !wire::uri_parses(url.as_str()) {
            return Err(Error::InvalidUri);
        }
        Ok(self.travis.request(Method::Get, None, url))
    }
}

} // verus!
