//! Listing the jobs of one build.
use vstd::prelude::*;
use vstd::string::StrSliceExecFns;
use vstd::string::StringExecFns;

use crate::error::{Error, ErrorSpec};
use crate::text;
use crate::wire;
use crate::{api_headers, Client, Method, Owner, RequestPlan};

verus! {

/// One job, as the API reports it.
#[derive(Debug, Clone)]
pub struct Job {
    pub id: usize,
    pub number: Option<String>,
    pub state: Option<String>,
    pub started_at: Option<String>,
    pub finished_at: Option<String>,
    pub queue: Option<String>,
    pub owner: Option<Owner>,
}

/// The jobs of one build, addressed by the build's id.
#[derive(Debug, Clone)]
pub struct Jobs {
    pub travis: Client,
    pub build_id: usize,
}

impl Jobs {
    /// The URL of the listing.
    pub open spec fn list_url(&self) -> Seq<char> {
        self.travis.host@ + "/build/"@ + text::dec_nat(self.build_id as nat) + "/jobs"@
    }

    /// Build the GET request of the job listing.
    pub fn list_request(&self) -> (r: Result<RequestPlan, Error>)
        ensures
            wire::uri_ok(self.list_url()) ==> (r matches Ok(p) && p.method == Method::Get
                && p.url@ == self.list_url() && p.body is None && p.headers.deep_view()
                == api_headers(self.travis.token_view())),
            !wire::uri_ok(self.list_url()) ==> (r matches Err(e) && e@ == ErrorSpec::InvalidUri),
    {
        let mut url = self.travis.host.clone();
        url.append("/build/");
        let id = text::fmt_usize(self.build_id);
        url.append(id.as_str());
        url.append("/jobs");
        if !wire::uri_parses(url.as_str()) {
            return Err(Error::InvalidUri);
        }
        Ok(self.travis.request(Method::Get, None, url))
    }
}

} // verus!
