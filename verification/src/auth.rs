//! The "list API keys" call: `GET /api/auth/keys`, with one optional
//! parameter.

use vstd::prelude::*;

use crate::common::Endpoint;
use crate::common::HttpMethod;
use crate::error::Error;
use crate::error::GrafanaError;
use crate::error::spec_grafana_of;
use crate::json::json_of;
use crate::json::parse_json;
use crate::schema::ApiKey;
use crate::schema::api_keys_from_json;
use crate::schema::spec_api_key_list_of;
use crate::url::params_view;

verus! {

/// The request that lists the API keys known to the server.
#[derive(Debug)]
pub struct ListApiKeysRequest {
    /// Enable listing of expired keys.
    pub include_expired: Option<bool>,
}

/// The string a boolean parameter value is written as.
pub open spec fn spec_bool_str(b: bool) -> Seq<char> {
    if b {
        "true"@
    } else {
        "false"@
    }
}

impl Default for ListApiKeysRequest {
    /// The request with `include_expired` unset.
    fn default() -> (r: Self)
        ensures
            r.include_expired is None,
    {
        Self { include_expired: None }
    }
}

impl ListApiKeysRequest {
    /// Turn one HTTP response to this call — its status code and its body
    /// bytes — into the typed result. A 200 response yields the records its
    /// body lists, or a deserialization failure when the body is not such a
    /// list. Any other status yields the server's error payload, or, when
    /// the body does not carry one, a deserialization failure.
    pub fn decode_response(status: u16, body: &[u8]) -> (r: Result<Vec<ApiKey>, Error>)
        ensures
            ({
                let j = json_of(body@);
                &&& (r is Ok) == (status == 200 && j is Some && spec_api_key_list_of(j->0)
                    is Some)
                &&& r is Ok ==> r->Ok_0@ == spec_api_key_list_of(j->0)->0
                &&& j is None ==> r is Err && r->Err_0 is Serde
                &&& (status == 200 && j is Some && spec_api_key_list_of(j->0) is None) ==> (
                r is Err && r->Err_0 is Serde)
                &&& (status != 200 && j is Some) ==> (match spec_grafana_of(j->0) {
                    Some(g) => r == Result::<Vec<ApiKey>, Error>::Err(Error::Grafana(g)),
                    None => r is Err && r->Err_0 is Serde,
                })
            }),
    {
        let v = match parse_json(body) {
            Ok(v) => v,
            Err(msg) => {
                return Err(Error::Serde(msg));
            },
        };
        if status == 200 {
            match api_keys_from_json(&v) {
                Some(keys) => Ok(keys),
                None => Err(Error::Serde("the body is not a list of API keys".to_owned())),
            }
        } else {
            match GrafanaError::from_json(&v) {
                Some(g) => Err(Error::Grafana(g)),
                None => Err(
                    Error::Serde("the body does not carry a server error payload".to_owned()),
                ),
            }
        }
    }
}

impl Endpoint for ListApiKeysRequest {
    /// The fixed path of the call.
    open spec fn spec_path(&self) -> Seq<char> {
        "/api/auth/keys"@
    }

    open spec fn spec_method(&self) -> HttpMethod {
        HttpMethod::Get
    }

    /// When `include_expired` is unset the parameter list is empty; when it
    /// is set, the one parameter `include_expired` carries `true` or
    /// `false`.
    open spec fn spec_params(&self) -> Seq<(Seq<char>, Seq<char>)> {
        match self.include_expired {
            None => Seq::empty(),
            Some(b) => seq![("include_expired"@, spec_bool_str(b))],
        }
    }

    fn path(&self) -> (r: String) {
        "/api/auth/keys".to_owned()
    }

    fn method(&self) -> (r: HttpMethod) {
        HttpMethod::Get
    }

    fn params(&self) -> (r: Vec<(String, String)>) {
        let mut params: Vec<(String, String)> = Vec::new();
        match &self.include_expired {
            Option::None => {},
            Option::Some(v) => {
                let s = if *v {
                    "true".to_owned()
                } else {
                    "false".to_owned()
                };
                params.push(("include_expired".to_owned(), s));
            },
        }
        proof {
            assert(params_view(params@) =~= self.spec_params());
        }
        params
    }
}

} // verus!
