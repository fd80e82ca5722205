//! Listing and closing the connections that the daemon holds.

use crate::json::{list_member, member, size_member, text_member, JsonModel};
use crate::output::{concat, lemma_concat_step, CliOutput};
use crate::record::{
    decode_text, decoded_text, describes, read_all, schema_all, views, DecodeError, Record,
};
use crate::text::{decimal, push_decimal};
use crate::{ClashRequest, ClashRequestBuilder, Endpoint, EndpointModel, RequestParts};
use serde_json::Value;
use vstd::prelude::*;
use vstd::string::StringExecFns;

verus! {

/// The request for the connections that the daemon holds.
pub struct ClashConnections {
    endpoint: Endpoint,
}

impl View for ClashConnections {
    type V = EndpointModel;

    closed spec fn view(&self) -> EndpointModel {
        self.endpoint@
    }
}

impl ClashConnections {
    /// The request to where `r` says. What `r` leaves open falls back to the
    /// controller's usual place.
    pub fn from(r: ClashRequestBuilder) -> (v: Self)
        ensures
            v@ == r@.endpoint(),
    {
        Self { endpoint: r.into_endpoint() }
    }

    /// The request that closes every connection.
    pub fn close(self) -> (r: ClashCloseConnections)
        ensures
            r@ == self@,
    {
        ClashCloseConnections { endpoint: self.endpoint }
    }

    /// The request that closes the connection `id`.
    pub fn close_id(self, id: &str) -> (r: ClashCloseID)
        ensures
            r@ == (ClashCloseIDModel { endpoint: self@, id: id@ }),
    {
        ClashCloseID { endpoint: self.endpoint, id: id.to_owned() }
    }
}

impl ClashRequest for ClashConnections {
    open spec fn parts(&self) -> RequestParts {
        RequestParts::to(self@, "GET"@, "connections"@, Seq::empty())
    }

    open spec fn is_body(&self, body: Seq<char>) -> bool {
        body == Seq::<char>::empty()
    }

    open spec fn body_owed(&self) -> bool {
        true
    }

    fn get_dest(&self) -> (r: String) {
        self.endpoint.dest()
    }

    fn get_port(&self) -> (r: u16) {
        self.endpoint.port()
    }

    fn get_secret(&self) -> (r: Option<String>) {
        self.endpoint.secret()
    }

    fn get_method(&self) -> (r: String) {
        "GET".to_owned()
    }

    fn get_path(&self) -> (r: String) {
        "connections".to_owned()
    }

    fn get_query_parameter(&self) -> (r: String) {
        String::new()
    }

    fn get_body(&self) -> (r: Option<String>) {
        Some(String::new())
    }
}

/// The request that closes every connection.
pub struct ClashCloseConnections {
    endpoint: Endpoint,
}

impl View for ClashCloseConnections {
    type V = EndpointModel;

    closed spec fn view(&self) -> EndpointModel {
        self.endpoint@
    }
}

impl ClashRequest for ClashCloseConnections {
    open spec fn parts(&self) -> RequestParts {
        RequestParts::to(self@, "DELETE"@, "conntections"@, Seq::empty())
    }

    open spec fn is_body(&self, body: Seq<char>) -> bool {
        body == Seq::<char>::empty()
    }

    open spec fn body_owed(&self) -> bool {
        true
    }

    fn get_dest(&self) -> (r: String) {
        self.endpoint.dest()
    }

    fn get_port(&self) -> (r: u16) {
        self.endpoint.port()
    }

    fn get_secret(&self) -> (r: Option<String>) {
        self.endpoint.secret()
    }

    fn get_method(&self) -> (r: String) {
        "DELETE".to_owned()
    }

    fn get_path(&self) -> (r: String) {
        "conntections".to_owned()
    }

    fn get_query_parameter(&self) -> (r: String) {
        String::new()
    }

    fn get_body(&self) -> (r: Option<String>) {
        Some(String::new())
    }
}

/// The request that closes one connection.
pub struct ClashCloseID {
    endpoint: Endpoint,
    id: String,
}

/// The request that closes one connection, as plain values.
pub struct ClashCloseIDModel {
    pub endpoint: EndpointModel,
    /// The connection to close.
    pub id: Seq<char>,
}

impl View for ClashCloseID {
    type V = ClashCloseIDModel;

    closed spec fn view(&self) -> ClashCloseIDModel {
        ClashCloseIDModel { endpoint: self.endpoint@, id: self.id@ }
    }
}

impl ClashRequest for ClashCloseID {
    open spec fn parts(&self) -> RequestParts {
        RequestParts::to(self@.endpoint, "DELETE"@, "connections/"@ + self@.id, Seq::empty())
    }

    open spec fn is_body(&self, body: Seq<char>) -> bool {
        body == Seq::<char>::empty()
    }

    open spec fn body_owed(&self) -> bool {
        true
    }

    fn get_dest(&self) -> (r: String) {
        self.endpoint.dest()
    }

    fn get_port(&self) -> (r: u16) {
        self.endpoint.port()
    }

    fn get_secret(&self) -> (r: Option<String>) {
        self.endpoint.secret()
    }

    fn get_method(&self) -> (r: String) {
        "DELETE".to_owned()
    }

    fn get_path(&self) -> (r: String) {
        let mut out = "connections/".to_owned();
        out.append(self.id.as_str());
        out
    }

    fn get_query_parameter(&self) -> (r: String) {
        String::new()
    }

    fn get_body(&self) -> (r: Option<String>) {
        Some(String::new())
    }
}

/// Where a connection comes from and where it goes.
#[derive(Clone, Debug, PartialEq, Eq)]
pub struct Metadata {
    pub network: String,
    pub kind: String,
    pub source_ip: String,
    pub destination_ip: String,
    pub source_port: String,
    pub destination_port: String,
    pub host: String,
    pub dns_mode: String,
    pub process_path: String,
}

/// Where a connection comes from and where it goes, as plain values.
pub struct MetadataModel {
    pub network: Seq<char>,
    pub kind: Seq<char>,
    pub source_ip: Seq<char>,
    pub destination_ip: Seq<char>,
    pub source_port: Seq<char>,
    pub destination_port: Seq<char>,
    pub host: Seq<char>,
    pub dns_mode: Seq<char>,
    pub process_path: Seq<char>,
}

impl View for Metadata {
    type V = MetadataModel;

    open spec fn view(&self) -> MetadataModel {
        MetadataModel {
            network: self.network@,
            kind: self.kind@,
            source_ip: self.source_ip@,
            destination_ip: self.destination_ip@,
            source_port: self.source_port@,
            destination_port: self.destination_port@,
            host: self.host@,
            dns_mode: self.dns_mode@,
            process_path: self.process_path@,
        }
    }
}

impl Record for Metadata {
    /// An object whose members `network`, `type`, `sourceIP`,
    /// `destinationIP`, `sourcePort`, `destinationPort`, `host`, `dnsMode`
    /// and `processPath` are strings. Other members are ignored.
    open spec fn schema(doc: JsonModel) -> Option<MetadataModel> {
        match (
            doc.text_field("network"@),
            doc.text_field("type"@),
            doc.text_field("sourceIP"@),
            doc.text_field("destinationIP"@),
            doc.text_field("sourcePort"@),
            doc.text_field("destinationPort"@),
            doc.text_field("host"@),
            doc.text_field("dnsMode"@),
            doc.text_field("processPath"@),
        ) {
            (
                Some(network),
                Some(kind),
                Some(source_ip),
                Some(destination_ip),
                Some(source_port),
                Some(destination_port),
                Some(host),
                Some(dns_mode),
                Some(process_path),
            ) => Some(
                MetadataModel {
                    network,
                    kind,
                    source_ip,
                    destination_ip,
                    source_port,
                    destination_port,
                    host,
                    dns_mode,
                    process_path,
                },
            ),
            _ => None,
        }
    }

    fn read(value: &Value) -> (r: Option<Metadata>) {
        let network = match text_member(value, "network") {
            Some(t) => t,
            None => {
                return None;
            },
        };
        let kind = match text_member(value, "type") {
            Some(t) => t,
            None => {
                return None;
            },
        };
        let source_ip = match text_member(value, "sourceIP") {
            Some(t) => t,
            None => {
                return None;
            },
        };
        let destination_ip = match text_member(value, "destinationIP") {
            Some(t) => t,
            None => {
                return None;
            },
        };
        let source_port = match text_member(value, "sourcePort") {
            Some(t) => t,
            None => {
                return None;
            },
        };
        let destination_port = match text_member(value, "destinationPort") {
            Some(t) => t,
            None => {
                return None;
            },
        };
        let host = match text_member(value, "host") {
            Some(t) => t,
            None => {
                return None;
            },
        };
        let dns_mode = match text_member(value, "dnsMode") {
            Some(t) => t,
            None => {
                return None;
            },
        };
        let process_path = match text_member(value, "processPath") {
            Some(t) => t,
            None => {
                return None;
            },
        };
        Some(
            Metadata {
                network: network.to_owned(),
                kind: kind.to_owned(),
                source_ip: source_ip.to_owned(),
                destination_ip: destination_ip.to_owned(),
                source_port: source_port.to_owned(),
                destination_port: destination_port.to_owned(),
                host: host.to_owned(),
                dns_mode: dns_mode.to_owned(),
                process_path: process_path.to_owned(),
            },
        )
    }
}

/// One connection that the daemon holds.
#[derive(Clone, Debug, PartialEq, Eq)]
pub struct Connection {
    pub id: String,
    pub chains: Vec<String>,
    pub rule: String,
    pub rule_payload: String,
    pub upload: usize,
    pub download: usize,
    start: String,
    pub metadata: Metadata,
}

/// One connection as plain values.
pub struct ConnectionModel {
    pub id: Seq<char>,
    pub chains: Seq<Seq<char>>,
    pub rule: Seq<char>,
    pub rule_payload: Seq<char>,
    pub upload: usize,
    pub download: usize,
    /// When the connection was opened, as the daemon writes it.
    pub start: Seq<char>,
    pub metadata: MetadataModel,
}

impl View for Connection {
    type V = ConnectionModel;

    closed spec fn view(&self) -> ConnectionModel {
        ConnectionModel {
            id: self.id@,
            chains: views(self.chains@),
            rule: self.rule@,
            rule_payload: self.rule_payload@,
            upload: self.upload,
            download: self.download,
            start: self.start@,
            metadata: self.metadata@,
        }
    }
}

impl Connection {
    /// When the connection was opened, as the daemon writes it.
    pub fn start(&self) -> (r: &str)
        ensures
            r@ == self@.start,
    {
        self.start.as_str()
    }
}

impl Record for Connection {
    /// An object whose members `id`, `rule`, `rulePayload` and `start` are
    /// strings, `chains` an array of strings, `upload` and `download`
    /// non-negative integers within the range of `usize`, and `metadata` the
    /// object of a [`Metadata`]. Other members are ignored.
    open spec fn schema(doc: JsonModel) -> Option<ConnectionModel> {
        match (
            doc.text_field("id"@),
            doc.list_field("chains"@),
            doc.text_field("rule"@),
            doc.text_field("rulePayload"@),
            doc.size_field("upload"@),
            doc.size_field("download"@),
            doc.text_field("start"@),
            doc.field("metadata"@),
        ) {
            (
                Some(id),
                Some(hops),
                Some(rule),
                Some(rule_payload),
                Some(upload),
                Some(download),
                Some(start),
                Some(about),
            ) => match (schema_all::<String>(hops), Metadata::schema(about)) {
                (Some(chains), Some(metadata)) => Some(
                    ConnectionModel {
                        id,
                        chains,
                        rule,
                        rule_payload,
                        upload,
                        download,
                        start,
                        metadata,
                    },
                ),
                _ => None,
            },
            _ => None,
        }
    }

    fn read(value: &Value) -> (r: Option<Connection>) {
        let id = match text_member(value, "id") {
            Some(t) => t,
            None => {
                return None;
            },
        };
        let hops = match list_member(value, "chains") {
            Some(items) => items,
            None => {
                return None;
            },
        };
        let rule = match text_member(value, "rule") {
            Some(t) => t,
            None => {
                return None;
            },
        };
        let rule_payload = match text_member(value, "rulePayload") {
            Some(t) => t,
            None => {
                return None;
            },
        };
        let upload = match size_member(value, "upload") {
            Some(n) => n,
            None => {
                return None;
            },
        };
        let download = match size_member(value, "download") {
            Some(n) => n,
            None => {
                return None;
            },
        };
        let start = match text_member(value, "start") {
            Some(t) => t,
            None => {
                return None;
            },
        };
        let about = match member(value, "metadata") {
            Some(m) => m,
            None => {
                return None;
            },
        };
        let chains = match read_all::<String>(hops) {
            Some(chains) => chains,
            None => {
                return None;
            },
        };
        let metadata = match Metadata::read(about) {
            Some(metadata) => metadata,
            None => {
                return None;
            },
        };
        Some(
            Connection {
                id: id.to_owned(),
                chains,
                rule: rule.to_owned(),
                rule_payload: rule_payload.to_owned(),
                upload,
                download,
                start: start.to_owned(),
                metadata,
            },
        )
    }
}

/// The connections that the daemon holds, with the totals of all traffic.
#[derive(Clone, Debug, PartialEq, Eq)]
pub struct ConnectionVec {
    pub download_total: usize,
    pub upload_total: usize,
    pub connections: Vec<Connection>,
}

/// The connections as plain values.
pub struct ConnectionVecModel {
    pub download_total: usize,
    pub upload_total: usize,
    pub connections: Seq<ConnectionModel>,
}

impl View for ConnectionVec {
    type V = ConnectionVecModel;

    open spec fn view(&self) -> ConnectionVecModel {
        ConnectionVecModel {
            download_total: self.download_total,
            upload_total: self.upload_total,
            connections: views(self.connections@),
        }
    }
}

impl Record for ConnectionVec {
    /// An object whose members `downloadTotal` and `uploadTotal` are
    /// non-negative integers within the range of `usize`, and `connections`
    /// an array of connections. Other members are ignored.
    open spec fn schema(doc: JsonModel) -> Option<ConnectionVecModel> {
        match (
            doc.size_field("downloadTotal"@),
            doc.size_field("uploadTotal"@),
            doc.list_field("connections"@),
        ) {
            (Some(download_total), Some(upload_total), Some(docs)) => match schema_all::<
                Connection,
            >(docs) {
                Some(connections) => Some(
                    ConnectionVecModel { download_total, upload_total, connections },
                ),
                None => None,
            },
            _ => None,
        }
    }

    fn read(value: &Value) -> (r: Option<ConnectionVec>) {
        let download_total = match size_member(value, "downloadTotal") {
            Some(n) => n,
            None => {
                return None;
            },
        };
        let upload_total = match size_member(value, "uploadTotal") {
            Some(n) => n,
            None => {
                return None;
            },
        };
        let items = match list_member(value, "connections") {
            Some(items) => items,
            None => {
                return None;
            },
        };
        match read_all::<Connection>(items) {
            Some(connections) => Some(ConnectionVec { download_total, upload_total, connections }),
            None => None,
        }
    }
}

impl ConnectionVec {
    /// Reads the connections off the daemon's answer.
    pub fn try_from(value: String) -> (r: Result<ConnectionVec, DecodeError>)
        ensures
            describes(r, decoded_text::<ConnectionVec>(value@)),
    {
        decode_text::<ConnectionVec>(value.as_str())
    }
}

impl ConnectionModel {
    /// The connection on one line: what it is called and of what type it
    /// is.
    pub open spec fn line(self) -> Seq<char> {
        self.id + "\t"@ + self.metadata.kind + "\n"@
    }
}

impl CliOutput for Connection {
    open spec fn shown(&self) -> Seq<char> {
        self@.line()
    }

    fn render(&self) -> (r: String) {
        let mut out = self.id.clone();
        out.append("\t");
        out.append(self.metadata.kind.as_str());
        out.append("\n");
        out
    }
}

impl CliOutput for ConnectionVec {
    /// The totals, a heading, then the connections, one on each line.
    open spec fn shown(&self) -> Seq<char> {
        "Total upload: "@ + decimal(self.upload_total as nat) + "\nTotal download: "@ + decimal(
            self.download_total as nat,
        ) + "\nID\tType\n"@ + concat(
            Seq::new(self@.connections.len(), |i: int| self@.connections[i].line()),
        )
    }

    fn render(&self) -> (r: String) {
        let ghost lines = Seq::new(
            self@.connections.len(),
            |i: int| self@.connections[i].line(),
        );
        let mut out = "Total upload: ".to_owned();
        push_decimal(&mut out, self.upload_total as u64);
        out.append("\nTotal download: ");
        push_decimal(&mut out, self.download_total as u64);
        out.append("\nID\tType\n");
        let ghost head = out@;
        let mut i: usize = 0;
        while i < self.connections.len()
            invariant
                i <= self.connections.len(),
                lines == Seq::new(self@.connections.len(), |i: int| self@.connections[i].line()),
                out@ == head + concat(lines.take(i as int)),
            decreases self.connections.len() - i,
        {
            let line = self.connections[i].render();
            out.append(line.as_str());
            proof {
                lemma_concat_step(lines, i + 1);
            }
            i += 1;
        }
        assert(lines.take(i as int) =~= lines);
        out
    }
}

} // verus!
