//! Listing the builds of a repository: the build record, the list
//! options with their builder, and the request plans the endpoints use.
use vstd::prelude::*;
use vstd::string::StrSliceExecFns;
use vstd::string::StringExecFns;

use crate::error::{Error, ErrorSpec};
use crate::jobs::Job;
use crate::text;
use crate::wire;
use crate::{api_headers, Branch, Client, Method, Owner, RequestPlan, State};

verus! {

/// One build, as the API reports it.
#[derive(Debug, Clone)]
pub struct Build {
    pub id: usize,
    pub number: String,
    pub state: State,
    pub duration: usize,
    pub event_type: String,
    pub previous_state: Option<State>,
    pub pull_request_title: Option<String>,
    pub pull_request_number: Option<usize>,
    pub started_at: String,
    pub finished_at: Option<String>,
    pub branch: Branch,
    pub jobs: Vec<Job>,
    pub created_by: Owner,
}

/// Options of a build listing. Defaults: no included fields, a limit of
/// 25, sorted by `started_at` (append `:desc` to any attribute to
/// reverse the order), and no filters.
#[derive(Debug, Clone)]
pub struct ListOptions {
    pub included: Vec<String>,
    pub limit: i32,
    pub sort_by: String,
    pub created_by: Option<String>,
    pub event_type: Option<String>,
    pub previous_state: Option<State>,
    pub state: Option<State>,
}

/// The documented defaults of [`ListOptions`].
pub open spec fn is_default_options(o: ListOptions) -> bool {
    &&& o.included@ =~= Seq::<String>::empty()
    &&& o.limit == 25
    &&& o.sort_by@ == "started_at"@
    &&& o.created_by is None
    &&& o.event_type is None
    &&& o.previous_state is None
    &&& o.state is None
}

impl Default for ListOptions {
    /// The documented defaults: empty `included`, `limit` 25, sorted by
    /// `started_at`, no filters.
    fn default() -> (o: Self)
        ensures
            is_default_options(o),
    {
        ListOptions {
            included: Vec::new(),
            limit: 25,
            sort_by: String::from_str("started_at"),
            created_by: None,
            event_type: None,
            previous_state: None,
            state: None,
        }
    }
}

/// The query pairs a build listing serializes, in wire order: the three
/// always-present pairs, then one pair per present filter.
pub open spec fn spec_query_pairs(o: ListOptions) -> Seq<(Seq<char>, Seq<char>)> {
    seq![
        (text::embed_key(), text::joined_with_commas(o.included.deep_view())),
        ("limit"@, text::dec_int(o.limit as int)),
        ("sort_by"@, o.sort_by@),
    ] + (match o.created_by {
        Some(s) => seq![("created_by"@, s@)],
        None => Seq::empty(),
    }) + (match o.event_type {
        Some(s) => seq![("event_type"@, s@)],
        None => Seq::empty(),
    }) + (match o.previous_state {
        Some(s) => seq![("previous_state"@, s.spec_as_str())],
        None => Seq::empty(),
    }) + (match o.state {
        Some(s) => seq![("state"@, s.spec_as_str())],
        None => Seq::empty(),
    })
}

/// The serialized query string of a build listing.
pub open spec fn spec_query(o: ListOptions) -> Seq<char> {
    wire::form_pairs(spec_query_pairs(o))
}

impl ListOptions {
    /// Start building options from the defaults.
    pub fn builder() -> (b: ListOptionsBuilder)
        ensures
            is_default_options(b.options),
    {
        ListOptionsBuilder { options: ListOptions::default() }
    }

    /// Serialize the options as the URL query string of the listing.
    pub fn into_query_string(&self) -> (q: String)
        ensures
            q@ == spec_query(*self),
    {
        let mut pairs: Vec<(String, String)> = Vec::new();
        pairs.push((text::embed_key_string(), text::join_commas(&self.included)));
        pairs.push((String::from_str("limit"), text::fmt_i32(self.limit)));
        pairs.push((String::from_str("sort_by"), self.sort_by.clone()));
        if let Some(created_by) = &self.created_by {
            pairs.push((String::from_str("created_by"), created_by.clone()));
        }
        if let Some(event_type) = &self.event_type {
            pairs.push((String::from_str("event_type"), event_type.clone()));
        }
        if let Some(previous_state) = &self.previous_state {
            pairs.push(
                (String::from_str("previous_state"), String::from_str(previous_state.as_str())),
            );
        }
        if let Some(state) = &self.state {
            pairs.push((String::from_str("state"), String::from_str(state.as_str())));
        }
        proof {
            assert(pairs.deep_view() =~~= spec_query_pairs(*self));
        }
        wire::form_encode(&pairs)
    }
}

/// Step-by-step construction of [`ListOptions`], starting from the
/// defaults; each setter replaces one field.
#[derive(Debug, Clone)]
pub struct ListOptionsBuilder {
    pub options: ListOptions,
}

impl ListOptionsBuilder {
    /// Name the related resources delivered inside each record.
    pub fn included(self, included: Vec<String>) -> (b: Self)
        ensures
            b.options == (ListOptions { included, ..self.options }),
    {
        ListOptionsBuilder { options: ListOptions { included, ..self.options } }
    }

    /// Set the page size.
    pub fn limit(self, limit: i32) -> (b: Self)
        ensures
            b.options == (ListOptions { limit, ..self.options }),
    {
        ListOptionsBuilder { options: ListOptions { limit, ..self.options } }
    }

    /// Set the sort key.
    pub fn sort_by(self, sort_by: String) -> (b: Self)
        ensures
            b.options == (ListOptions { sort_by, ..self.options }),
    {
        ListOptionsBuilder { options: ListOptions { sort_by, ..self.options } }
    }

    /// Filter by creator.
    pub fn created_by(self, created_by: String) -> (b: Self)
        ensures
            b.options == (ListOptions { created_by: Some(created_by), ..self.options }),
    {
        ListOptionsBuilder {
            options: ListOptions { created_by: Some(created_by), ..self.options },
        }
    }

    /// Filter by event type.
    pub fn event_type(self, event_type: String) -> (b: Self)
        ensures
            b.options == (ListOptions { event_type: Some(event_type), ..self.options }),
    {
        ListOptionsBuilder {
            options: ListOptions { event_type: Some(event_type), ..self.options },
        }
    }

    /// Filter by the state of the preceding build.
    pub fn previous_state(self, previous_state: State) -> (b: Self)
        ensures
            b.options == (ListOptions { previous_state: Some(previous_state), ..self.options }),
    {
        ListOptionsBuilder {
            options: ListOptions { previous_state: Some(previous_state), ..self.options },
        }
    }

    /// Filter by build state.
    pub fn state(self, state: State) -> (b: Self)
        ensures
            b.options == (ListOptions { state: Some(state), ..self.options }),
    {
        ListOptionsBuilder { options: ListOptions { state: Some(state), ..self.options } }
    }

    /// Finish: the accumulated options.
    pub fn build(self) -> (o: ListOptions)
        ensures
            o == self.options,
    {
        self.options
    }
}

/// The builds of one repository, addressed by its escaped slug.
#[derive(Debug, Clone)]
pub struct Builds {
    pub travis: Client,
    pub slug: String,
}

impl Builds {
    /// The URL of the first page of the listing.
    pub open spec fn list_url(&self, options: ListOptions) -> Seq<char> {
        self.travis.host@ + "/repo/"@ + self.slug@ + "/builds?"@ + spec_query(options)
    }

    /// Build the GET request of the first page of the listing. The same
    /// plan starts an item-by-item traversal: later pages follow from
    /// each page's next link through [`Client::page_request`].
    pub fn list_request(&self, options: &ListOptions) -> (r: Result<RequestPlan, Error>)
        ensures
            wire::uri_ok(self.list_url(*options)) ==> (r matches Ok(p) && p.method == Method::Get
                && p.url@ == self.list_url(*options) && p.body is None && p.headers.deep_view()
                == api_headers(self.travis.token_view())),
            !wire::uri_ok(self.list_url(*options)) ==> (r matches Err(e) && e@
                == ErrorSpec::InvalidUri),
    {
        let mut url = self.travis.host.clone();
        url.append("/repo/");
        url.append(self.slug.as_str());
        url.append("/builds?");
        let query = options.into_query_string();
        url.append(query.as_str());
        if !wire::uri_parses(url.as_str()) {
            return Err(Error::InvalidUri);
        }
        Ok(self.travis.request(Method::Get, None, url))
    }
}

} // verus!
