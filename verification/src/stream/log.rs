//! The stream of log lines.

use crate::config::ConfigLogLevel;
use crate::json::{text_member, JsonModel};
use crate::output::CliOutput;
use crate::record::Record;
use crate::{ClashRequest, ClashRequestBuilder, Endpoint, EndpointModel, RequestParts};
use serde_json::Value;
use vstd::prelude::*;
use vstd::string::StringExecFns;

verus! {

/// The request for the stream of log lines.
pub struct ClashLog {
    endpoint: Endpoint,
    level: Option<ConfigLogLevel>,
}

/// The request for the stream of log lines, as plain values.
pub struct ClashLogModel {
    pub endpoint: EndpointModel,
    /// The level asked for, if one was chosen.
    pub level: Option<ConfigLogLevel>,
}

impl View for ClashLog {
    type V = ClashLogModel;

    closed spec fn view(&self) -> ClashLogModel {
        ClashLogModel { endpoint: self.endpoint@, level: self.level }
    }
}

/// What the query says for a level: nothing where none was chosen.
pub open spec fn level_query(level: Option<ConfigLogLevel>) -> Seq<char> {
    match level {
        None => Seq::empty(),
        Some(ConfigLogLevel::Info) => "info"@,
        Some(ConfigLogLevel::Error) => "error"@,
        Some(ConfigLogLevel::Debug) => "debug"@,
        Some(ConfigLogLevel::Warning) => "waring"@,
    }
}

impl ClashLog {
    /// The request to where `r` says. What `r` leaves open falls back to the
    /// controller's usual place.
    pub fn from(r: ClashRequestBuilder) -> (v: Self)
        ensures
            v@.endpoint == r@.endpoint(),
            v@.level is None,
    {
        Self { endpoint: r.into_endpoint(), level: None }
    }

    /// Asks for the lines of one level.
    pub fn level(self, level: ConfigLogLevel) -> (r: Self)
        ensures
            r@ == (ClashLogModel { level: Some(level), ..self@ }),
    {
        Self { level: Some(level), ..self }
    }
}

impl ClashRequest for ClashLog {
    open spec fn parts(&self) -> RequestParts {
        RequestParts::to(self@.endpoint, "GET"@, "logs"@, "type="@ + level_query(self@.level))
    }

    open spec fn is_body(&self, body: Seq<char>) -> bool {
        body == Seq::<char>::empty()
    }

    open spec fn body_owed(&self) -> bool {
        true
    }

    fn get_dest(&self) -> (r: String) {
        self.endpoint.dest()
    }

    fn get_port(&self) -> (r: u16) {
        self.endpoint.port()
    }

    fn get_secret(&self) -> (r: Option<String>) {
        self.endpoint.secret()
    }

    fn get_method(&self) -> (r: String) {
        "GET".to_owned()
    }

    fn get_path(&self) -> (r: String) {
        "logs".to_owned()
    }

    fn get_query_parameter(&self) -> (r: String) {
        let mut out = "type=".to_owned();
        match self.level {
            None => {},
            Some(ConfigLogLevel::Info) => {
                out.append("info");
            },
            Some(ConfigLogLevel::Error) => {
                out.append("error");
            },
            Some(ConfigLogLevel::Debug) => {
                out.append("debug");
            },
            Some(ConfigLogLevel::Warning) => {
                out.append("waring");
            },
        }
        out
    }

    fn get_body(&self) -> (r: Option<String>) {
        Some(String::new())
    }
}

/// One line of the daemon's log.
#[derive(Clone, Debug, PartialEq, Eq)]
pub struct Log {
    pub level: ConfigLogLevel,
    pub payload: String,
}

/// A log line as plain values.
pub struct LogModel {
    pub level: ConfigLogLevel,
    pub payload: Seq<char>,
}

impl View for Log {
    type V = LogModel;

    open spec fn view(&self) -> LogModel {
        LogModel { level: self.level, payload: self.payload@ }
    }
}

impl Record for Log {
    /// An object whose member `type` names a level and whose member
    /// `payload` is a string. Other members are ignored.
    open spec fn schema(doc: JsonModel) -> Option<LogModel> {
        match (doc.text_field("type"@), doc.text_field("payload"@)) {
            (Some(name), Some(payload)) => match ConfigLogLevel::named(name) {
                Some(level) => Some(LogModel { level, payload }),
                None => None,
            },
            _ => None,
        }
    }

    fn read(value: &Value) -> (r: Option<Log>) {
        let name = match text_member(value, "type") {
            Some(t) => t,
            None => {
                return None;
            },
        };
        let payload = match text_member(value, "payload") {
            Some(t) => t,
            None => {
                return None;
            },
        };
        match ConfigLogLevel::parse(name) {
            Some(level) => Some(Log { level, payload: payload.to_owned() }),
            None => None,
        }
    }
}

/// The tag that a level is shown with.
pub open spec fn level_tag(level: ConfigLogLevel) -> Seq<char> {
    match level {
        ConfigLogLevel::Info => "INFO"@,
        ConfigLogLevel::Warning => "WARN"@,
        ConfigLogLevel::Error => "ERROR"@,
        ConfigLogLevel::Debug => "DEBUG"@,
    }
}

impl CliOutput for Log {
    open spec fn shown(&self) -> Seq<char> {
        "["@ + level_tag(self.level) + "]: "@ + self.payload@ + "\n"@
    }

    fn render(&self) -> (r: String) {
        let mut out = "[".to_owned();
        out.append(
            match self.level {
                ConfigLogLevel::Info => "INFO",
                ConfigLogLevel::Warning => "WARN",
                ConfigLogLevel::Error => "ERROR",
                ConfigLogLevel::Debug => "DEBUG",
            },
        );
        out.append("]: ");
        out.append(self.payload.as_str());
        out.append("\n");
        out
    }
}

} // verus!
