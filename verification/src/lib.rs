//! Client-side model of a proxy daemon's control API: request descriptions,
//! response records, and the decoder for its long-lived streaming responses.
//!
//! A request is assembled with [`ClashRequestBuilder`], which fixes where the
//! daemon listens, and then narrowed to one of the request types of the
//! modules below. Every request type implements [`ClashRequest`], from which
//! [`prepare`] derives what goes on the wire.

pub mod config;
pub mod connection;
pub mod json;
pub mod output;
pub mod proxy;
pub mod record;
pub mod rule;
pub mod stream;
pub mod text;
pub mod version;

use crate::config::ClashConfig;
use crate::connection::ClashConnections;
use crate::proxy::ClashProxy;
use crate::rule::ClashRule;
use crate::stream::log::ClashLog;
use crate::stream::traffic::ClashTraffic;
use crate::text::{decimal, push_decimal};
use crate::version::ClashVersion;
use vstd::prelude::*;
use vstd::string::StringExecFns;

verus! {

/// An optional string as plain values.
pub open spec fn text_of(s: Option<String>) -> Option<Seq<char>> {
    match s {
        Some(t) => Some(t@),
        None => None,
    }
}

/// A copy of an optional string.
pub fn clone_text(s: &Option<String>) -> (r: Option<String>)
    ensures
        r == *s,
{
    match s {
        Some(t) => Some(t.clone()),
        None => None,
    }
}

/// Where the daemon listens and the secret that it expects, as plain values.
pub struct EndpointModel {
    pub ip: Seq<char>,
    pub port: u16,
    pub secret: Option<Seq<char>>,
}

/// Where the daemon listens and the secret that it expects.
pub struct Endpoint {
    ip: String,
    port: u16,
    secret: Option<String>,
}

impl View for Endpoint {
    type V = EndpointModel;

    closed spec fn view(&self) -> EndpointModel {
        EndpointModel { ip: self.ip@, port: self.port, secret: text_of(self.secret) }
    }
}

impl Endpoint {
    /// The address or name of the daemon's host.
    pub fn dest(&self) -> (r: String)
        ensures
            r@ == self@.ip,
    {
        self.ip.clone()
    }

    /// The port of the daemon's controller.
    pub fn port(&self) -> (r: u16)
        ensures
            r == self@.port,
    {
        self.port
    }

    /// The secret that authenticates the request, if one is set.
    pub fn secret(&self) -> (r: Option<String>)
        ensures
            text_of(r) == self@.secret,
    {
        clone_text(&self.secret)
    }
}

/// What a request sends, as plain values. The body is not among them: see
/// [`ClashRequest::is_body`].
pub struct RequestParts {
    pub dest: Seq<char>,
    pub port: u16,
    pub secret: Option<Seq<char>>,
    pub method: Seq<char>,
    pub path: Seq<char>,
    pub query: Seq<char>,
}

impl RequestParts {
    /// The parts of a request to `endpoint`.
    pub open spec fn to(
        endpoint: EndpointModel,
        method: Seq<char>,
        path: Seq<char>,
        query: Seq<char>,
    ) -> RequestParts {
        RequestParts {
            dest: endpoint.ip,
            port: endpoint.port,
            secret: endpoint.secret,
            method,
            path,
            query,
        }
    }

    /// The address that the request is sent to.
    pub open spec fn url(self) -> Seq<char> {
        "http://"@ + self.dest + ":"@ + decimal(self.port as nat) + "/"@ + self.path + "?"@
            + self.query
    }

    /// The value of the `Authorization` header, for a request with a secret.
    pub open spec fn authorization(self) -> Option<Seq<char>> {
        match self.secret {
            Some(secret) => Some("Bearer "@ + secret),
            None => None,
        }
    }
}

/// One request of the control API.
pub trait ClashRequest {
    /// What the request sends, but for its body.
    spec fn parts(&self) -> RequestParts;

    /// Whether `body` is a body that the request may send.
    spec fn is_body(&self, body: Seq<char>) -> bool;

    /// Whether the body can be built whatever the machine is like.
    spec fn body_owed(&self) -> bool;

    fn get_dest(&self) -> (r: String)
        ensures
            r@ == self.parts().dest,
    ;

    fn get_port(&self) -> (r: u16)
        ensures
            r == self.parts().port,
    ;

    fn get_secret(&self) -> (r: Option<String>)
        ensures
            text_of(r) == self.parts().secret,
    ;

    fn get_method(&self) -> (r: String)
        ensures
            r@ == self.parts().method,
    ;

    fn get_path(&self) -> (r: String)
        ensures
            r@ == self.parts().path,
    ;

    fn get_query_parameter(&self) -> (r: String)
        ensures
            r@ == self.parts().query,
    ;

    /// The body, or `None` where it could not be built.
    fn get_body(&self) -> (r: Option<String>)
        ensures
            self.body_owed() ==> r is Some,
            r matches Some(body) ==> self.is_body(body@),
    ;
}

/// What goes on the wire for one request.
pub struct HttpCall {
    pub method: String,
    pub url: String,
    /// The value of the `Authorization` header, if the request has a secret.
    pub authorization: Option<String>,
    pub body: String,
}

/// The address that a request is sent to.
pub fn request_url<R: ClashRequest>(request: &R) -> (r: String)
    ensures
        r@ == request.parts().url(),
{
    let mut out = "http://".to_owned();
    out.append(request.get_dest().as_str());
    out.append(":");
    push_decimal(&mut out, request.get_port() as u64);
    out.append("/");
    out.append(request.get_path().as_str());
    out.append("?");
    out.append(request.get_query_parameter().as_str());
    out
}

/// The value of the `Authorization` header of a request, if it has a
/// secret.
pub fn authorization<R: ClashRequest>(request: &R) -> (r: Option<String>)
    ensures
        text_of(r) == request.parts().authorization(),
{
    match request.get_secret() {
        Some(secret) => {
            let mut out = "Bearer ".to_owned();
            out.append(secret.as_str());
            Some(out)
        },
        None => None,
    }
}

/// What goes on the wire for a request, or `None` where its body could not
/// be built.
pub fn prepare<R: ClashRequest>(request: &R) -> (r: Option<HttpCall>)
    ensures
        request.body_owed() ==> r is Some,
        r matches Some(call) ==> {
            &&& call.method@ == request.parts().method
            &&& call.url@ == request.parts().url()
            &&& text_of(call.authorization) == request.parts().authorization()
            &&& request.is_body(call.body@)
        },
{
    match request.get_body() {
        Some(body) => Some(
            HttpCall {
                method: request.get_method(),
                url: request_url(request),
                authorization: authorization(request),
                body,
            },
        ),
        None => None,
    }
}

/// A request in the making: what is known of where the daemon listens.
pub struct ClashRequestBuilder {
    ip: Option<String>,
    port: Option<u16>,
    secret: Option<String>,
}

/// A request in the making, as plain values.
pub struct BuilderModel {
    pub ip: Option<Seq<char>>,
    pub port: Option<u16>,
    pub secret: Option<Seq<char>>,
}

impl BuilderModel {
    /// Where the request goes: what was left open falls back to the
    /// controller's usual place, port 9090 on the local host.
    pub open spec fn endpoint(self) -> EndpointModel {
        EndpointModel {
            ip: match self.ip {
                Some(ip) => ip,
                None => "127.0.0.1"@,
            },
            port: match self.port {
                Some(port) => port,
                None => 9090,
            },
            secret: self.secret,
        }
    }
}

impl View for ClashRequestBuilder {
    type V = BuilderModel;

    closed spec fn view(&self) -> BuilderModel {
        BuilderModel { ip: text_of(self.ip), port: self.port, secret: text_of(self.secret) }
    }
}

impl ClashRequestBuilder {
    /// A request of which nothing is known yet.
    pub fn new() -> (r: Self)
        ensures
            r@ == (BuilderModel { ip: None, port: None, secret: None }),
    {
        Self { ip: None, port: None, secret: None }
    }

    /// Fills in what was left open.
    pub(crate) fn or_default(self) -> (r: Self)
        ensures
            r@.ip == Some(self@.endpoint().ip),
            r@.port == Some(self@.endpoint().port),
            r@.secret == self@.secret,
    {
        Self {
            ip: match self.ip {
                Some(ip) => Some(ip),
                None => Some("127.0.0.1".to_owned()),
            },
            port: match self.port {
                Some(port) => Some(port),
                None => Some(9090),
            },
            secret: self.secret,
        }
    }

    /// Where the request goes, with what was left open filled in.
    pub(crate) fn into_endpoint(self) -> (r: Endpoint)
        ensures
            r@ == self@.endpoint(),
    {
        let filled = self.or_default();
        Endpoint { ip: filled.ip.unwrap(), port: filled.port.unwrap(), secret: filled.secret }
    }

    /// Names the host of the daemon, by address or by name.
    pub fn ip(self, ip: &str) -> (r: Self)
        ensures
            r@ == (BuilderModel { ip: Some(ip@), ..self@ }),
    {
        Self { ip: Some(ip.to_owned()), ..self }
    }

    /// Gives the secret that the daemon expects.
    pub fn secret(self, secret: &str) -> (r: Self)
        ensures
            r@ == (BuilderModel { secret: Some(secret@), ..self@ }),
    {
        Self { secret: Some(secret.to_owned()), ..self }
    }

    /// Names the port of the daemon's controller.
    pub fn port(self, port: u16) -> (r: Self)
        ensures
            r@ == (BuilderModel { port: Some(port), ..self@ }),
    {
        Self { port: Some(port), ..self }
    }

    /// The request for the connections that the daemon holds.
    pub fn connections(self) -> (r: ClashConnections)
        ensures
            r@ == self@.endpoint(),
    {
        ClashConnections::from(self)
    }

    /// The request for the stream of log lines, of every level.
    pub fn logs(self) -> (r: ClashLog)
        ensures
            r@.endpoint == self@.endpoint(),
            r@.level is None,
    {
        ClashLog::from(self)
    }

    /// The request for the stream of traffic counters.
    pub fn traffic(self) -> (r: ClashTraffic)
        ensures
            r@ == self@.endpoint(),
    {
        ClashTraffic::from(self)
    }

    /// The request for the daemon's version.
    pub fn version(self) -> (r: ClashVersion)
        ensures
            r@ == self@.endpoint(),
    {
        ClashVersion::from(self)
    }

    /// The request for the daemon's proxies.
    pub fn proxies(self) -> (r: ClashProxy)
        ensures
            r@ == self@.endpoint(),
    {
        ClashProxy::from(self)
    }

    /// The requests about the daemon's configuration.
    pub fn config(self) -> (r: ClashConfig)
        ensures
            r@ == self@.endpoint(),
    {
        ClashConfig::from(self)
    }

    /// The request for the daemon's routing rules.
    pub fn rule(self) -> (r: ClashRule)
        ensures
            r@ == self@.endpoint(),
    {
        ClashRule::from(self)
    }
}

} // verus!
