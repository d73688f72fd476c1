//! The typed failures of a call: transport, deserialization, local I/O, and
//! the error payload a server reports. Every failure is terminal for the
//! call that produced it; nothing is retried.

use vstd::prelude::*;

use crate::json::JsonValue;
use crate::json::obj_get;
use crate::json::obj_get_exec;

verus! {

/// The error payload a server reports: any non-200 response whose JSON body
/// carries an application-level message.
#[derive(Debug, Clone)]
pub struct GrafanaError {
    pub message: String,
}

/// What a JSON value yields as a server error payload: an object whose
/// `message` field is a string.
pub open spec fn spec_grafana_of(v: JsonValue) -> Option<GrafanaError> {
    match v {
        JsonValue::Obj(fields) => match obj_get(fields@, "message"@) {
            Some(JsonValue::Str(s)) => Some(GrafanaError { message: s }),
            _ => None,
        },
        _ => None,
    }
}

impl GrafanaError {
    /// Read the server error payload from a parsed JSON value. Nothing is
    /// returned when the `message` field is missing or not a string.
    pub fn from_json(v: &JsonValue) -> (r: Option<GrafanaError>)
        ensures
            r == spec_grafana_of(*v),
    {
        let fields = match v {
            JsonValue::Obj(fields) => fields,
            _ => {
                return None;
            },
        };
        let key = "message".to_owned();
        match obj_get_exec(fields, &key) {
            Some(JsonValue::Str(s)) => Some(GrafanaError { message: s.clone() }),
            _ => None,
        }
    }
}

/// One call's failure, by origin: the transport, the deserialization of the
/// body, a local I/O resource, or the server's own error payload. Each
/// carries the underlying cause for diagnostic display.
#[derive(Debug)]
pub enum Error {
    Hyper(String),
    Serde(String),
    Io(String),
    Grafana(GrafanaError),
}

impl Error {
    /// The line the error is displayed as.
    pub open spec fn spec_display(&self) -> Seq<char> {
        match *self {
            Error::Hyper(ref e) => "Hyper error: "@ + e@,
            Error::Serde(ref e) => "Serde error: "@ + e@,
            Error::Io(ref e) => "Io error: "@ + e@,
            Error::Grafana(ref g) => "Grafana error: "@ + g.message@,
        }
    }

    /// Write the error as one line for display.
    pub fn display_string(&self) -> (r: String)
        ensures
            r@ == self.spec_display(),
    {
        match self {
            Error::Hyper(e) => {
                let mut s = "Hyper error: ".to_owned();
                s.append(e.as_str());
                s
            },
            Error::Serde(e) => {
                let mut s = "Serde error: ".to_owned();
                s.append(e.as_str());
                s
            },
            Error::Io(e) => {
                let mut s = "Io error: ".to_owned();
                s.append(e.as_str());
                s
            },
            Error::Grafana(g) => {
                let mut s = "Grafana error: ".to_owned();
                s.append(g.message.as_str());
                s
            },
        }
    }
}

impl From<GrafanaError> for Error {
    /// A server error payload wrapped as the call's failure.
    fn from(e: GrafanaError) -> (r: Self) {
        Error::Grafana(e)
    }
}

impl vstd::std_specs::convert::FromSpecImpl<GrafanaError> for Error {
    open spec fn obeys_from_spec() -> bool {
        true
    }

    open spec fn from_spec(e: GrafanaError) -> Self {
        Error::Grafana(e)
    }
}

} // verus!
