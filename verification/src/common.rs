//! The endpoint capability: what one API call looks like — its path, HTTP
//! method and query parameters — and the plan of a prepared request.

use vstd::prelude::*;

use crate::url::params_view;

verus! {

/// The HTTP verb of a request. The API in view only issues parameter-only
/// calls, all of them GET.
#[derive(Debug, Clone, Copy, PartialEq, Eq, Structural)]
pub enum HttpMethod {
    Get,
}

/// A value describing one API call: its path, HTTP method and query
/// parameters. Each concrete request type implements this.
pub trait Endpoint {
    /// The endpoint's path, a leading-slash relative path.
    spec fn spec_path(&self) -> Seq<char>;

    /// The endpoint's HTTP method.
    spec fn spec_method(&self) -> HttpMethod;

    /// The endpoint's query parameters, in order, with unique keys.
    spec fn spec_params(&self) -> Seq<(Seq<char>, Seq<char>)>;

    fn path(&self) -> (r: String)
        ensures
            r@ == self.spec_path(),
    ;

    fn method(&self) -> (r: HttpMethod)
        ensures
            r == self.spec_method(),
    ;

    fn params(&self) -> (r: Vec<(String, String)>)
        ensures
            params_view(r@) == self.spec_params(),
    ;
}

/// The headers every prepared request carries. Authentication goes into the
/// URL's userinfo, never into a header.
pub open spec fn spec_headers() -> Seq<(Seq<char>, Seq<char>)> {
    seq![("Content-Type"@, "application/json"@)]
}

/// A fully prepared request: everything the transport needs for the one
/// network round trip — method, complete URL, headers, and an empty body.
pub struct RequestPlan {
    pub method: HttpMethod,
    pub url: String,
    pub headers: Vec<(String, String)>,
}

impl RequestPlan {
    /// A well-formed plan carries exactly the fixed headers.
    pub open spec fn wf(&self) -> bool {
        params_view(self.headers@) == spec_headers()
    }
}

} // verus!
