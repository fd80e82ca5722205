//! Asking the daemon for its version.

use crate::json::{text_member, JsonModel};
use crate::record::{decode_text, decoded_text, describes, DecodeError, Record};
use crate::{ClashRequest, ClashRequestBuilder, Endpoint, EndpointModel, RequestParts};
use serde_json::Value;
use vstd::prelude::*;

verus! {

/// The request for the daemon's version.
pub struct ClashVersion {
    endpoint: Endpoint,
}

impl View for ClashVersion {
    type V = EndpointModel;

    closed spec fn view(&self) -> EndpointModel {
        self.endpoint@
    }
}

impl ClashVersion {
    /// The request to where `r` says. What `r` leaves open falls back to the
    /// controller's usual place.
    pub fn from(r: ClashRequestBuilder) -> (v: Self)
        ensures
            v@ == r@.endpoint(),
    {
        Self { endpoint: r.into_endpoint() }
    }
}

impl ClashRequest for ClashVersion {
    open spec fn parts(&self) -> RequestParts {
        RequestParts::to(self@, "GET"@, "version"@, Seq::empty())
    }

    open spec fn is_body(&self, body: Seq<char>) -> bool {
        body == Seq::<char>::empty()
    }

    open spec fn body_owed(&self) -> bool {
        true
    }

    fn get_dest(&self) -> (r: String) {
        self.endpoint.dest()
    }

    fn get_port(&self) -> (r: u16) {
        self.endpoint.port()
    }

    fn get_secret(&self) -> (r: Option<String>) {
        self.endpoint.secret()
    }

    fn get_method(&self) -> (r: String) {
        "GET".to_owned()
    }

    fn get_path(&self) -> (r: String) {
        "version".to_owned()
    }

    fn get_query_parameter(&self) -> (r: String) {
        String::new()
    }

    fn get_body(&self) -> (r: Option<String>) {
        Some(String::new())
    }
}

/// The daemon's version.
#[derive(Clone, Debug, PartialEq, Eq)]
pub struct Version {
    pub version: String,
}

impl View for Version {
    type V = Seq<char>;

    open spec fn view(&self) -> Seq<char> {
        self.version@
    }
}

impl Record for Version {
    /// An object whose member `version` is a string. Other members are
    /// ignored.
    open spec fn schema(doc: JsonModel) -> Option<Seq<char>> {
        doc.text_field("version"@)
    }

    fn read(value: &Value) -> (r: Option<Version>) {
        match text_member(value, "version") {
            Some(version) => Some(Version { version: version.to_owned() }),
            None => None,
        }
    }
}

impl Version {
    /// Reads the version off the daemon's answer.
    pub fn try_from(value: String) -> (r: Result<Version, DecodeError>)
        ensures
            describes(r, decoded_text::<Version>(value@)),
    {
        decode_text::<Version>(value.as_str())
    }
}

} // verus!
