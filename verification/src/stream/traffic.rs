//! The stream of traffic counters.

use crate::json::{size_member, JsonModel};
use crate::output::CliOutput;
use crate::record::Record;
use crate::text::{decimal, push_decimal};
use crate::{ClashRequest, ClashRequestBuilder, Endpoint, EndpointModel, RequestParts};
use serde_json::Value;
use vstd::prelude::*;
use vstd::string::StringExecFns;

verus! {

/// The request for the stream of traffic counters.
pub struct ClashTraffic {
    endpoint: Endpoint,
}

impl View for ClashTraffic {
    type V = EndpointModel;

    closed spec fn view(&self) -> EndpointModel {
        self.endpoint@
    }
}

impl ClashTraffic {
    /// The request to where `r` says. What `r` leaves open falls back to the
    /// controller's usual place.
    pub fn from(r: ClashRequestBuilder) -> (v: Self)
        ensures
            v@ == r@.endpoint(),
    {
        Self { endpoint: r.into_endpoint() }
    }
}

impl ClashRequest for ClashTraffic {
    open spec fn parts(&self) -> RequestParts {
        RequestParts::to(self@, "GET"@, "traffic"@, Seq::empty())
    }

    open spec fn is_body(&self, body: Seq<char>) -> bool {
        body == Seq::<char>::empty()
    }

    open spec fn body_owed(&self) -> bool {
        true
    }

    fn get_dest(&self) -> (r: String) {
        self.endpoint.dest()
    }

    fn get_port(&self) -> (r: u16) {
        self.endpoint.port()
    }

    fn get_secret(&self) -> (r: Option<String>) {
        self.endpoint.secret()
    }

    fn get_method(&self) -> (r: String) {
        "GET".to_owned()
    }

    fn get_path(&self) -> (r: String) {
        "traffic".to_owned()
    }

    fn get_query_parameter(&self) -> (r: String) {
        String::new()
    }

    fn get_body(&self) -> (r: Option<String>) {
        Some(String::new())
    }
}

/// Bytes sent and received since the record before.
#[derive(Clone, Copy, Debug, PartialEq, Eq, Structural)]
pub struct Traffic {
    pub up: usize,
    pub down: usize,
}

impl View for Traffic {
    type V = Traffic;

    open spec fn view(&self) -> Traffic {
        *self
    }
}

impl Record for Traffic {
    /// An object whose members `up` and `down` are non-negative integers
    /// within the range of `usize`. Other members are ignored.
    open spec fn schema(doc: JsonModel) -> Option<Traffic> {
        match (doc.size_field("up"@), doc.size_field("down"@)) {
            (Some(up), Some(down)) => Some(Traffic { up, down }),
            _ => None,
        }
    }

    fn read(value: &Value) -> (r: Option<Traffic>) {
        let up = match size_member(value, "up") {
            Some(n) => n,
            None => {
                return None;
            },
        };
        let down = match size_member(value, "down") {
            Some(n) => n,
            None => {
                return None;
            },
        };
        Some(Traffic { up, down })
    }
}

impl CliOutput for Traffic {
    open spec fn shown(&self) -> Seq<char> {
        "up:"@ + decimal(self.up as nat) + ", down:"@ + decimal(self.down as nat) + "\n"@
    }

    fn render(&self) -> (r: String) {
        let mut out = "up:".to_owned();
        push_decimal(&mut out, self.up as u64);
        out.append(", down:");
        push_decimal(&mut out, self.down as u64);
        out.append("\n");
        out
    }
}

} // verus!
