//! The client configuration: a base URL together with an optional
//! authentication method.

use vstd::prelude::*;

use crate::common::Endpoint;
use crate::common::RequestPlan;
use crate::common::spec_headers;
use crate::strutil::lacks_char;
use crate::url::auth_wf;
use crate::url::build_url_str;
use crate::url::is_valid_base_url;
use crate::url::lemma_url_parts;
use crate::url::params_view;
use crate::url::spec_build_url;
use crate::url::spec_userinfo_core;
use crate::url::url_userinfo_of;

verus! {

/// How a request authenticates itself: HTTP Basic credentials or a bearer
/// token.
#[derive(Debug, Clone)]
pub enum AuthMethod {
    Basic { username: String, password: String },
    Bearer(String),
}

/// A client for the API: a base URL and an optional authentication method.
///
/// The value is immutable after construction; `set_auth_method` consumes the
/// client and returns a new one with the method set.
#[derive(Debug)]
pub struct Client {
    pub(crate) base_url: String,
    pub(crate) auth_method: Option<AuthMethod>,
}

impl Client {
    /// The base URL this client sends requests to.
    pub closed spec fn spec_base_url(&self) -> Seq<char> {
        self.base_url@
    }

    /// The authentication method this client uses, if any.
    pub closed spec fn spec_auth_method(&self) -> Option<AuthMethod> {
        self.auth_method
    }

    /// Make a client for the given base URL, with no authentication.
    pub fn new(base_url: &str) -> (r: Self)
        ensures
            r.spec_base_url() == base_url@,
            r.spec_auth_method() is None,
    {
        Self { base_url: base_url.to_owned(), auth_method: None }
    }

    /// Set the authentication method, consuming the client.
    pub fn set_auth_method(self, auth_method: AuthMethod) -> (r: Self)
        ensures
            r.spec_base_url() == self.spec_base_url(),
            r.spec_auth_method() == Some(auth_method),
    {
        Self { base_url: self.base_url, auth_method: Some(auth_method) }
    }

    /// Build the full URL for one endpoint: the base URL with the
    /// authentication inserted as userinfo, the endpoint's path appended to
    /// the base URL's path, and the parameters as the query string. Nothing
    /// is returned when the base URL is not one the builder accepts.
    pub fn build_url<E: Endpoint>(&self, request: &E) -> (r: Option<String>)
        ensures
            (r is Some) == is_valid_base_url(self.spec_base_url()),
            r is Some ==> r->0@ == spec_build_url(
                self.spec_base_url(),
                request.spec_path(),
                request.spec_params(),
                self.spec_auth_method(),
            ),
    {
        let path = request.path();
        let params = request.params();
        build_url_str(self.base_url.as_str(), path.as_str(), &params, &self.auth_method)
    }

    /// Prepare the one network round trip for an endpoint: its method, its
    /// full URL, and the fixed headers. The body of every request is empty.
    /// Nothing is returned when the base URL is not one the builder accepts.
    pub fn prepare<E: Endpoint>(&self, request: &E) -> (r: Option<RequestPlan>)
        ensures
            (r is Some) == is_valid_base_url(self.spec_base_url()),
            r is Some ==> ({
                let plan = r->0;
                &&& plan.method == request.spec_method()
                &&& plan.url@ == spec_build_url(
                    self.spec_base_url(),
                    request.spec_path(),
                    request.spec_params(),
                    self.spec_auth_method(),
                )
                &&& plan.wf()
            }),
    {
        let url = match self.build_url(request) {
            Some(u) => u,
            None => {
                return None;
            },
        };
        let mut headers: Vec<(String, String)> = Vec::new();
        headers.push(("Content-Type".to_owned(), "application/json".to_owned()));
        proof {
            assert(params_view(headers@) =~= spec_headers());
        }
        Some(RequestPlan { method: request.method(), url, headers })
    }
}

/// With a bearer token set, the token travels in exactly one place: it
/// stands in the built URL's userinfo, read back as `"api_key:"` followed
/// by the token, and in no header — the fixed headers of every prepared
/// request carry no `Authorization` entry.
pub proof fn lemma_bearer_token_in_url_only(
    base: Seq<char>,
    path: Seq<char>,
    ps: Seq<(Seq<char>, Seq<char>)>,
    auth: AuthMethod,
)
    requires
        is_valid_base_url(base),
        path.len() > 0,
        path[0] == '/',
        lacks_char(path, '?'),
        auth is Bearer,
        auth_wf(Some(auth)),
    ensures
        url_userinfo_of(spec_build_url(base, path, ps, Some(auth))) == "api_key:"@
            + auth->Bearer_0@,
        forall|i: int| 0 <= i < spec_headers().len() ==> (#[trigger] spec_headers()[i]).0
            != "Authorization"@,
{
    lemma_url_parts(base, path, ps, Some(auth));
    assert(spec_userinfo_core(Some(auth)) == "api_key:"@ + auth->Bearer_0@);
    assert(spec_headers().len() == 1);
    reveal_strlit("Content-Type");
    reveal_strlit("Authorization");
    assert("Content-Type"@.len() != "Authorization"@.len());
    assert(spec_headers()[0].0 != "Authorization"@);
}

} // verus!
