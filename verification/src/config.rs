//! Reading, reloading and patching the daemon's configuration.

use crate::json::{
    document, optional_member, optional_text_member, quote, quoted, JsonModel,
};
use crate::output::CliOutput;
use crate::record::{decode_text, decoded_text, describes, views, DecodeError, Record};
use crate::text::{decimal, push_decimal, str_equal};
use crate::{text_of, ClashRequest, ClashRequestBuilder, Endpoint, EndpointModel, RequestParts};
use path_absolutize::Absolutize;
use serde_json::Value;
use vstd::prelude::*;
use vstd::string::StringExecFns;

verus! {

/// How the daemon routes traffic.
#[derive(Clone, Copy, Debug, PartialEq, Eq, Structural)]
pub enum ConfigMode {
    Global,
    Rule,
    Direct,
}

/// How much the daemon logs.
#[derive(Clone, Copy, Debug, PartialEq, Eq, Structural)]
pub enum ConfigLogLevel {
    Info,
    Warning,
    Error,
    Debug,
}

impl ConfigMode {
    /// The mode's name in the wire format.
    pub open spec fn name(self) -> Seq<char> {
        match self {
            ConfigMode::Global => "global"@,
            ConfigMode::Rule => "rule"@,
            ConfigMode::Direct => "direct"@,
        }
    }

    /// The mode that a name of the wire format stands for.
    pub open spec fn named(name: Seq<char>) -> Option<ConfigMode> {
        if name == "global"@ {
            Some(ConfigMode::Global)
        } else if name == "rule"@ {
            Some(ConfigMode::Rule)
        } else if name == "direct"@ {
            Some(ConfigMode::Direct)
        } else {
            None
        }
    }

    /// The mode's name in the wire format.
    pub fn as_str(&self) -> (r: &'static str)
        ensures
            r@ == self.name(),
    {
        match self {
            ConfigMode::Global => "global",
            ConfigMode::Rule => "rule",
            ConfigMode::Direct => "direct",
        }
    }

    /// Reads a mode off its name in the wire format.
    pub fn parse(name: &str) -> (r: Option<ConfigMode>)
        ensures
            r == ConfigMode::named(name@),
    {
        if str_equal(name, "global") {
            Some(ConfigMode::Global)
        } else if str_equal(name, "rule") {
            Some(ConfigMode::Rule)
        } else if str_equal(name, "direct") {
            Some(ConfigMode::Direct)
        } else {
            None
        }
    }
}

impl ConfigLogLevel {
    /// The level's name in the wire format.
    pub open spec fn name(self) -> Seq<char> {
        match self {
            ConfigLogLevel::Info => "info"@,
            ConfigLogLevel::Warning => "warning"@,
            ConfigLogLevel::Error => "error"@,
            ConfigLogLevel::Debug => "debug"@,
        }
    }

    /// The level that a name of the wire format stands for.
    pub open spec fn named(name: Seq<char>) -> Option<ConfigLogLevel> {
        if name == "info"@ {
            Some(ConfigLogLevel::Info)
        } else if name == "warning"@ {
            Some(ConfigLogLevel::Warning)
        } else if name == "error"@ {
            Some(ConfigLogLevel::Error)
        } else if name == "debug"@ {
            Some(ConfigLogLevel::Debug)
        } else {
            None
        }
    }

    /// The level's name in the wire format.
    pub fn as_str(&self) -> (r: &'static str)
        ensures
            r@ == self.name(),
    {
        match self {
            ConfigLogLevel::Info => "info",
            ConfigLogLevel::Warning => "warning",
            ConfigLogLevel::Error => "error",
            ConfigLogLevel::Debug => "debug",
        }
    }

    /// Reads a level off its name in the wire format.
    pub fn parse(name: &str) -> (r: Option<ConfigLogLevel>)
        ensures
            r == ConfigLogLevel::named(name@),
    {
        if str_equal(name, "info") {
            Some(ConfigLogLevel::Info)
        } else if str_equal(name, "warning") {
            Some(ConfigLogLevel::Warning)
        } else if str_equal(name, "error") {
            Some(ConfigLogLevel::Error)
        } else if str_equal(name, "debug") {
            Some(ConfigLogLevel::Debug)
        } else {
            None
        }
    }
}

/// The daemon did not take the configuration file.
#[derive(Clone, Copy, Debug, PartialEq, Eq, Structural)]
pub struct LoadError;

/// The daemon did not take the patch.
#[derive(Clone, Copy, Debug, PartialEq, Eq, Structural)]
pub struct PatchError;

impl LoadError {
    /// The error in words.
    pub fn message(&self) -> (r: String)
        ensures
            r@ == "Load configuration failed"@,
    {
        "Load configuration failed".to_owned()
    }
}

impl PatchError {
    /// The error in words.
    pub fn message(&self) -> (r: String)
        ensures
            r@ == "Configuration patch error"@,
    {
        "Configuration patch error".to_owned()
    }
}

/// The settings of the daemon that can be read and patched. A setting that
/// is `None` is not known, or is left as it is.
#[derive(Clone, Debug, PartialEq, Eq)]
pub struct Config {
    pub port: Option<u16>,
    pub socks_port: Option<u16>,
    pub redir_port: Option<u16>,
    pub allow_lan: Option<bool>,
    pub mode: Option<ConfigMode>,
    pub log_level: Option<ConfigLogLevel>,
    pub tproxy_port: Option<u16>,
    pub bind_address: Option<String>,
    pub ipv6: Option<bool>,
}

/// The settings as plain values.
pub struct ConfigModel {
    pub port: Option<u16>,
    pub socks_port: Option<u16>,
    pub redir_port: Option<u16>,
    pub allow_lan: Option<bool>,
    pub mode: Option<ConfigMode>,
    pub log_level: Option<ConfigLogLevel>,
    pub tproxy_port: Option<u16>,
    pub bind_address: Option<Seq<char>>,
    pub ipv6: Option<bool>,
}

impl ConfigModel {
    /// No setting at all.
    pub open spec fn blank() -> ConfigModel {
        ConfigModel {
            port: None,
            socks_port: None,
            redir_port: None,
            allow_lan: None,
            mode: None,
            log_level: None,
            tproxy_port: None,
            bind_address: None,
            ipv6: None,
        }
    }
}

impl View for Config {
    type V = ConfigModel;

    open spec fn view(&self) -> ConfigModel {
        ConfigModel {
            port: self.port,
            socks_port: self.socks_port,
            redir_port: self.redir_port,
            allow_lan: self.allow_lan,
            mode: self.mode,
            log_level: self.log_level,
            tproxy_port: self.tproxy_port,
            bind_address: text_of(self.bind_address),
            ipv6: self.ipv6,
        }
    }
}

impl Config {
    /// Settings of which none is set.
    pub fn new() -> (r: Self)
        ensures
            r@ == ConfigModel::blank(),
    {
        Self {
            port: None,
            socks_port: None,
            redir_port: None,
            allow_lan: None,
            mode: None,
            log_level: None,
            tproxy_port: None,
            bind_address: None,
            ipv6: None,
        }
    }

    /// Sets the port of the transparent proxy.
    pub fn tproxy_port(self, port: u16) -> (r: Self)
        ensures
            r@ == (ConfigModel { tproxy_port: Some(port), ..self@ }),
    {
        Self { tproxy_port: Some(port), ..self }
    }

    /// Sets the address that the daemon binds to.
    pub fn bind_address(self, address: &str) -> (r: Self)
        ensures
            r@ == (ConfigModel { bind_address: Some(address@), ..self@ }),
    {
        Self { bind_address: Some(address.to_owned()), ..self }
    }

    /// Sets whether the daemon resolves to IPv6 addresses.
    pub fn ipv6(self, flag: bool) -> (r: Self)
        ensures
            r@ == (ConfigModel { ipv6: Some(flag), ..self@ }),
    {
        Self { ipv6: Some(flag), ..self }
    }

    /// Sets the port of the HTTP proxy.
    pub fn port(self, port: u16) -> (r: Self)
        ensures
            r@ == (ConfigModel { port: Some(port), ..self@ }),
    {
        Self { port: Some(port), ..self }
    }

    /// Sets the port of the SOCKS proxy.
    pub fn socks_port(self, port: u16) -> (r: Self)
        ensures
            r@ == (ConfigModel { socks_port: Some(port), ..self@ }),
    {
        Self { socks_port: Some(port), ..self }
    }

    /// Sets the port of the redirecting proxy.
    pub fn redir_port(self, port: u16) -> (r: Self)
        ensures
            r@ == (ConfigModel { redir_port: Some(port), ..self@ }),
    {
        Self { redir_port: Some(port), ..self }
    }

    /// Sets whether other hosts of the local network may connect.
    pub fn allow_lan(self, allow: bool) -> (r: Self)
        ensures
            r@ == (ConfigModel { allow_lan: Some(allow), ..self@ }),
    {
        Self { allow_lan: Some(allow), ..self }
    }

    /// Sets how the daemon routes traffic.
    pub fn mode(self, mode: ConfigMode) -> (r: Self)
        ensures
            r@ == (ConfigModel { mode: Some(mode), ..self@ }),
    {
        Self { mode: Some(mode), ..self }
    }

    /// Sets how much the daemon logs.
    pub fn log_level(self, level: ConfigLogLevel) -> (r: Self)
        ensures
            r@ == (ConfigModel { log_level: Some(level), ..self@ }),
    {
        Self { log_level: Some(level), ..self }
    }

    /// The JSON object of the settings that are not `None`. The address to
    /// bind to is not read off the settings: `address` is its JSON string
    /// literal, or `None` to leave it out.
    pub fn object_with(&self, address: Option<&str>) -> (r: String)
        ensures
            r@ == settings_object(
                self@,
                match address {
                    Some(literal) => Some(literal@),
                    None => None,
                },
            ),
    {
        let mut members: Vec<String> = Vec::new();
        assert(views(members@) =~= Seq::<Seq<char>>::empty());
        if let Some(p) = self.port {
            push_member(&mut members, number_member_of("port", p as u64));
        }
        if let Some(p) = self.socks_port {
            push_member(&mut members, number_member_of("socks-port", p as u64));
        }
        if let Some(p) = self.redir_port {
            push_member(&mut members, number_member_of("redir-port", p as u64));
        }
        if let Some(b) = self.allow_lan {
            push_member(&mut members, flag_member_of("allow-lan", b));
        }
        if let Some(mode) = self.mode {
            push_member(&mut members, word_member_of("mode", mode.as_str()));
        }
        if let Some(level) = self.log_level {
            push_member(&mut members, word_member_of("log-level", level.as_str()));
        }
        if let Some(p) = self.tproxy_port {
            push_member(&mut members, number_member_of("tproxy-port", p as u64));
        }
        if let Some(literal) = address {
            push_member(&mut members, literal_member_of("bind-address", literal));
        }
        if let Some(b) = self.ipv6 {
            push_member(&mut members, flag_member_of("ipv6", b));
        }
        let mut out = "{".to_owned();
        out.append(join(&members).as_str());
        out.append("}");
        out
    }

    /// Reads the settings off the daemon's answer.
    pub fn try_from(s: String) -> (r: Result<Config, DecodeError>)
        ensures
            describes(r, decoded_text::<Config>(s@)),
    {
        decode_text::<Config>(s.as_str())
    }
}

/// A port setting of a document: `Some(None)` where the member is left out
/// or `null`, `None` where it holds anything but a port number.
pub open spec fn port_setting(doc: JsonModel, key: Seq<char>) -> Option<Option<u16>> {
    match doc.optional_field(key) {
        None => Some(None),
        Some(m) => match m.natural() {
            Some(n) => if n <= u16::MAX {
                Some(Some(n as u16))
            } else {
                None
            },
            None => None,
        },
    }
}

/// A yes-or-no setting of a document.
pub open spec fn flag_setting(doc: JsonModel, key: Seq<char>) -> Option<Option<bool>> {
    match doc.optional_field(key) {
        None => Some(None),
        Some(m) => match m.boolean() {
            Some(b) => Some(Some(b)),
            None => None,
        },
    }
}

/// The routing mode of a document.
pub open spec fn mode_setting(doc: JsonModel) -> Option<Option<ConfigMode>> {
    match doc.optional_text_field("mode"@) {
        None => None,
        Some(None) => Some(None),
        Some(Some(name)) => match ConfigMode::named(name) {
            Some(mode) => Some(Some(mode)),
            None => None,
        },
    }
}

/// The log level of a document.
pub open spec fn level_setting(doc: JsonModel) -> Option<Option<ConfigLogLevel>> {
    match doc.optional_text_field("log-level"@) {
        None => None,
        Some(None) => Some(None),
        Some(Some(name)) => match ConfigLogLevel::named(name) {
            Some(level) => Some(Some(level)),
            None => None,
        },
    }
}

fn read_port(value: &Value, key: &str) -> (r: Option<Option<u16>>)
    ensures
        r == port_setting(document(*value), key@),
{
    match optional_member(value, key) {
        None => Some(None),
        Some(m) => match m.as_u64() {
            Some(n) => if n <= 65535 {
                Some(Some(n as u16))
            } else {
                None
            },
            None => None,
        },
    }
}

fn read_flag(value: &Value, key: &str) -> (r: Option<Option<bool>>)
    ensures
        r == flag_setting(document(*value), key@),
{
    match optional_member(value, key) {
        None => Some(None),
        Some(m) => match m.as_bool() {
            Some(b) => Some(Some(b)),
            None => None,
        },
    }
}

fn read_mode(value: &Value) -> (r: Option<Option<ConfigMode>>)
    ensures
        r == mode_setting(document(*value)),
{
    match optional_text_member(value, "mode") {
        None => None,
        Some(None) => Some(None),
        Some(Some(name)) => match ConfigMode::parse(name) {
            Some(mode) => Some(Some(mode)),
            None => None,
        },
    }
}

fn read_level(value: &Value) -> (r: Option<Option<ConfigLogLevel>>)
    ensures
        r == level_setting(document(*value)),
{
    match optional_text_member(value, "log-level") {
        None => None,
        Some(None) => Some(None),
        Some(Some(name)) => match ConfigLogLevel::parse(name) {
            Some(level) => Some(Some(level)),
            None => None,
        },
    }
}

impl Record for Config {
    /// An object in which each setting is left out, `null`, or of the
    /// setting's type: a port number, a boolean, the name of a mode or of a
    /// level, a string. Other members are ignored.
    open spec fn schema(doc: JsonModel) -> Option<ConfigModel> {
        match (
            port_setting(doc, "port"@),
            port_setting(doc, "socks-port"@),
            port_setting(doc, "redir-port"@),
            flag_setting(doc, "allow-lan"@),
            mode_setting(doc),
            level_setting(doc),
            port_setting(doc, "tproxy-port"@),
            doc.optional_text_field("bind-address"@),
            flag_setting(doc, "ipv6"@),
        ) {
            (
                Some(port),
                Some(socks_port),
                Some(redir_port),
                Some(allow_lan),
                Some(mode),
                Some(log_level),
                Some(tproxy_port),
                Some(bind_address),
                Some(ipv6),
            ) => if doc is Object {
                Some(
                    ConfigModel {
                        port,
                        socks_port,
                        redir_port,
                        allow_lan,
                        mode,
                        log_level,
                        tproxy_port,
                        bind_address,
                        ipv6,
                    },
                )
            } else {
                None
            },
            _ => None,
        }
    }

    fn read(value: &Value) -> (r: Option<Config>) {
        if value.as_object().is_none() {
            return None;
        }
        let port = match read_port(value, "port") {
            Some(x) => x,
            None => {
                return None;
            },
        };
        let socks_port = match read_port(value, "socks-port") {
            Some(x) => x,
            None => {
                return None;
            },
        };
        let redir_port = match read_port(value, "redir-port") {
            Some(x) => x,
            None => {
                return None;
            },
        };
        let allow_lan = match read_flag(value, "allow-lan") {
            Some(x) => x,
            None => {
                return None;
            },
        };
        let mode = match read_mode(value) {
            Some(x) => x,
            None => {
                return None;
            },
        };
        let log_level = match read_level(value) {
            Some(x) => x,
            None => {
                return None;
            },
        };
        let tproxy_port = match read_port(value, "tproxy-port") {
            Some(x) => x,
            None => {
                return None;
            },
        };
        let bind_address = match optional_text_member(value, "bind-address") {
            Some(Some(t)) => Some(t.to_owned()),
            Some(None) => None,
            None => {
                return None;
            },
        };
        let ipv6 = match read_flag(value, "ipv6") {
            Some(x) => x,
            None => {
                return None;
            },
        };
        Some(
            Config {
                port,
                socks_port,
                redir_port,
                allow_lan,
                mode,
                log_level,
                tproxy_port,
                bind_address,
                ipv6,
            },
        )
    }
}

/// The configuration requests, before one of them is chosen.
pub struct ClashConfig {
    endpoint: Endpoint,
}

impl View for ClashConfig {
    type V = EndpointModel;

    closed spec fn view(&self) -> EndpointModel {
        self.endpoint@
    }
}

impl ClashConfig {
    /// The configuration requests to where `r` says. What `r` leaves open falls
    /// back to the controller's usual place.
    pub fn from(r: ClashRequestBuilder) -> (v: Self)
        ensures
            v@ == r@.endpoint(),
    {
        Self { endpoint: r.into_endpoint() }
    }

    /// The request that reads the settings.
    pub fn get(self) -> (r: ClashConfigGet)
        ensures
            r@ == self@,
    {
        ClashConfigGet::from(self)
    }

    /// The request that changes settings; it starts out changing none.
    pub fn patch(self) -> (r: ClashConfigPatch)
        ensures
            r@ == (ClashConfigPatchModel { endpoint: self@, config: ConfigModel::blank() }),
    {
        ClashConfigPatch { endpoint: self.endpoint, config: Config::new() }
    }

    /// The request that has the daemon load the configuration file at
    /// `path`, without force.
    pub fn load(self, path: &str) -> (r: ClashConfigLoad)
        ensures
            r@ == (ClashConfigLoadModel { endpoint: self@, force: false, path: path@ }),
    {
        ClashConfigLoad { force: false, config_path: path.to_owned(), endpoint: self.endpoint }
    }
}

/// The request that reads the settings.
pub struct ClashConfigGet {
    endpoint: Endpoint,
}

impl View for ClashConfigGet {
    type V = EndpointModel;

    closed spec fn view(&self) -> EndpointModel {
        self.endpoint@
    }
}

impl ClashConfigGet {
    /// The request that reads the settings, to where `c` goes.
    pub fn from(c: ClashConfig) -> (v: Self)
        ensures
            v@ == c@,
    {
        Self { endpoint: c.endpoint }
    }
}

impl ClashRequest for ClashConfigGet {
    open spec fn parts(&self) -> RequestParts {
        RequestParts::to(self@, "GET"@, "configs"@, Seq::empty())
    }

    open spec fn is_body(&self, body: Seq<char>) -> bool {
        body == Seq::<char>::empty()
    }

    open spec fn body_owed(&self) -> bool {
        true
    }

    fn get_dest(&self) -> (r: String) {
        self.endpoint.dest()
    }

    fn get_port(&self) -> (r: u16) {
        self.endpoint.port()
    }

    fn get_secret(&self) -> (r: Option<String>) {
        self.endpoint.secret()
    }

    fn get_method(&self) -> (r: String) {
        "GET".to_owned()
    }

    fn get_path(&self) -> (r: String) {
        "configs".to_owned()
    }

    fn get_query_parameter(&self) -> (r: String) {
        String::new()
    }

    fn get_body(&self) -> (r: Option<String>) {
        Some(String::new())
    }
}

/// The request that has the daemon load a configuration file.
pub struct ClashConfigLoad {
    force: bool,
    config_path: String,
    endpoint: Endpoint,
}

/// The request that has the daemon load a configuration file, as plain
/// values.
pub struct ClashConfigLoadModel {
    pub endpoint: EndpointModel,
    pub force: bool,
    /// The path of the file as it was given.
    pub path: Seq<char>,
}

impl View for ClashConfigLoad {
    type V = ClashConfigLoadModel;

    closed spec fn view(&self) -> ClashConfigLoadModel {
        ClashConfigLoadModel {
            endpoint: self.endpoint@,
            force: self.force,
            path: self.config_path@,
        }
    }
}

/// The body that names the file at `path` to the daemon.
pub open spec fn load_body(path: Seq<char>) -> Seq<char> {
    "{\"path\":\""@ + path + "\"}"@
}

/// The body that names the file at `path` to the daemon.
pub fn load_body_for(path: &str) -> (r: String)
    ensures
        r@ == load_body(path@),
{
    let mut out = "{\"path\":\"".to_owned();
    out.append(path);
    out.append("\"}");
    out
}

/// `Absolutize::absolutize` of `path-absolutize`: the path made absolute
/// against the working directory of the process, without `.` and `..`.
/// `None` where the working directory cannot be had or the outcome is not
/// Unicode. What comes back depends on the process, so nothing is said of it.
#[verifier::external_body]
fn absolute(path: &str) -> Option<String> {
    match std::path::Path::new(path).absolutize() {
        Ok(p) => match p.to_str() {
            Some(s) => Some(s.to_owned()),
            None => None,
        },
        Err(_) => None,
    }
}

/// What the daemon's status says of a request that changes its state: only
/// 204, no content, is success.
pub open spec fn accepted(status: u16) -> bool {
    status == 204
}

impl ClashConfigLoad {
    /// Has the daemon load the file even where it would refuse.
    pub fn force(self) -> (r: Self)
        ensures
            r@ == (ClashConfigLoadModel { force: true, ..self@ }),
    {
        Self { force: true, ..self }
    }

    /// What the daemon's status says of the request.
    pub fn outcome(status: u16) -> (r: Result<(), LoadError>)
        ensures
            r is Ok <==> accepted(status),
    {
        if status == 204 {
            Ok(())
        } else {
            Err(LoadError)
        }
    }
}

impl ClashRequest for ClashConfigLoad {
    open spec fn parts(&self) -> RequestParts {
        RequestParts::to(
            self@.endpoint,
            "PUT"@,
            "configs"@,
            if self@.force {
                "force=true"@
            } else {
                "force=false"@
            },
        )
    }

    /// The body names an absolute path. Which one depends on the directory
    /// that the process works in.
    open spec fn is_body(&self, body: Seq<char>) -> bool {
        exists|path: Seq<char>| body == #[trigger] load_body(path)
    }

    open spec fn body_owed(&self) -> bool {
        false
    }

    fn get_dest(&self) -> (r: String) {
        self.endpoint.dest()
    }

    fn get_port(&self) -> (r: u16) {
        self.endpoint.port()
    }

    fn get_secret(&self) -> (r: Option<String>) {
        self.endpoint.secret()
    }

    fn get_method(&self) -> (r: String) {
        "PUT".to_owned()
    }

    fn get_path(&self) -> (r: String) {
        "configs".to_owned()
    }

    fn get_query_parameter(&self) -> (r: String) {
        if self.force {
            "force=true".to_owned()
        } else {
            "force=false".to_owned()
        }
    }

    fn get_body(&self) -> (r: Option<String>) {
        match absolute(self.config_path.as_str()) {
            Some(path) => {
                let body = load_body_for(path.as_str());
                Some(body)
            },
            None => None,
        }
    }
}

/// The request that changes settings.
pub struct ClashConfigPatch {
    endpoint: Endpoint,
    config: Config,
}

/// The request that changes settings, as plain values.
pub struct ClashConfigPatchModel {
    pub endpoint: EndpointModel,
    /// The settings to change.
    pub config: ConfigModel,
}

impl View for ClashConfigPatch {
    type V = ClashConfigPatchModel;

    closed spec fn view(&self) -> ClashConfigPatchModel {
        ClashConfigPatchModel { endpoint: self.endpoint@, config: self.config@ }
    }
}

/// `"key":` and a number.
pub open spec fn number_member(key: Seq<char>, n: nat) -> Seq<char> {
    "\""@ + key + "\":"@ + decimal(n)
}

/// `"key":` and `true` or `false`.
pub open spec fn flag_member(key: Seq<char>, flag: bool) -> Seq<char> {
    "\""@ + key + "\":"@ + if flag {
        "true"@
    } else {
        "false"@
    }
}

/// `"key":` and a word between double quotes. The word is one that needs
/// no escapes.
pub open spec fn word_member(key: Seq<char>, word: Seq<char>) -> Seq<char> {
    "\""@ + key + "\":\""@ + word + "\""@
}

/// `"key":` and a JSON literal.
pub open spec fn literal_member(key: Seq<char>, literal: Seq<char>) -> Seq<char> {
    "\""@ + key + "\":"@ + literal
}

/// `members` with one more at the end, if there is one more.
pub open spec fn with_member(members: Seq<Seq<char>>, member: Option<Seq<char>>) -> Seq<
    Seq<char>,
> {
    match member {
        Some(m) => members.push(m),
        None => members,
    }
}

/// The members of the JSON object that carries the settings `c`: one for
/// each setting that is not `None`, in a fixed order. The address to bind
/// to is not read off `c`: `address` is its JSON string literal, or `None`
/// where it is left out.
pub open spec fn setting_members(c: ConfigModel, address: Option<Seq<char>>) -> Seq<Seq<char>> {
    let m = Seq::<Seq<char>>::empty();
    let m = with_member(
        m,
        match c.port {
            Some(p) => Some(number_member("port"@, p as nat)),
            None => None,
        },
    );
    let m = with_member(
        m,
        match c.socks_port {
            Some(p) => Some(number_member("socks-port"@, p as nat)),
            None => None,
        },
    );
    let m = with_member(
        m,
        match c.redir_port {
            Some(p) => Some(number_member("redir-port"@, p as nat)),
            None => None,
        },
    );
    let m = with_member(
        m,
        match c.allow_lan {
            Some(b) => Some(flag_member("allow-lan"@, b)),
            None => None,
        },
    );
    let m = with_member(
        m,
        match c.mode {
            Some(mode) => Some(word_member("mode"@, mode.name())),
            None => None,
        },
    );
    let m = with_member(
        m,
        match c.log_level {
            Some(level) => Some(word_member("log-level"@, level.name())),
            None => None,
        },
    );
    let m = with_member(
        m,
        match c.tproxy_port {
            Some(p) => Some(number_member("tproxy-port"@, p as nat)),
            None => None,
        },
    );
    let m = with_member(
        m,
        match address {
            Some(literal) => Some(literal_member("bind-address"@, literal)),
            None => None,
        },
    );
    with_member(
        m,
        match c.ipv6 {
            Some(b) => Some(flag_member("ipv6"@, b)),
            None => None,
        },
    )
}

/// Members written one after the other with commas between them.
pub open spec fn joined(members: Seq<Seq<char>>) -> Seq<char>
    decreases members.len(),
{
    if members.len() == 0 {
        Seq::empty()
    } else if members.len() == 1 {
        members[0]
    } else {
        joined(members.drop_last()) + ","@ + members.last()
    }
}

/// The JSON object that carries the settings `c`, with `address` for the
/// address to bind to.
pub open spec fn settings_object(c: ConfigModel, address: Option<Seq<char>>) -> Seq<char> {
    "{"@ + joined(setting_members(c, address)) + "}"@
}

/// The JSON object that carries the settings `c`.
pub open spec fn patch_body(c: ConfigModel) -> Seq<char> {
    settings_object(
        c,
        match c.bind_address {
            Some(address) => Some(quoted(address)),
            None => None,
        },
    )
}

fn number_member_of(key: &str, n: u64) -> (r: String)
    ensures
        r@ == number_member(key@, n as nat),
{
    let mut out = "\"".to_owned();
    out.append(key);
    out.append("\":");
    push_decimal(&mut out, n);
    out
}

fn flag_member_of(key: &str, flag: bool) -> (r: String)
    ensures
        r@ == flag_member(key@, flag),
{
    let mut out = "\"".to_owned();
    out.append(key);
    out.append("\":");
    if flag {
        out.append("true");
    } else {
        out.append("false");
    }
    out
}

fn word_member_of(key: &str, word: &str) -> (r: String)
    ensures
        r@ == word_member(key@, word@),
{
    let mut out = "\"".to_owned();
    out.append(key);
    out.append("\":\"");
    out.append(word);
    out.append("\"");
    out
}

fn literal_member_of(key: &str, literal: &str) -> (r: String)
    ensures
        r@ == literal_member(key@, literal@),
{
    let mut out = "\"".to_owned();
    out.append(key);
    out.append("\":");
    out.append(literal);
    out
}

fn push_member(members: &mut Vec<String>, member: String)
    ensures
        views(final(members)@) == with_member(views(old(members)@), Some(member@)),
{
    members.push(member);
}

fn join(members: &Vec<String>) -> (r: String)
    ensures
        r@ == joined(views(members@)),
{
    let ghost all = views(members@);
    let mut out = String::new();
    let mut i: usize = 0;
    while i < members.len()
        invariant
            i <= members.len(),
            all == views(members@),
            out@ == joined(all.take(i as int)),
        decreases members.len() - i,
    {
        if i > 0 {
            out.append(",");
        }
        out.append(members[i].as_str());
        proof {
            let next = all.take(i + 1);
            assert(next.drop_last() =~= all.take(i as int));
        }
        i += 1;
    }
    assert(all.take(i as int) =~= all);
    out
}

impl ClashConfigPatch {
    /// Changes the port of the transparent proxy.
    pub fn tproxy_port(self, port: u16) -> (r: Self)
        ensures
            r@ == (ClashConfigPatchModel {
                config: ConfigModel { tproxy_port: Some(port), ..self@.config },
                ..self@
            }),
    {
        Self { config: self.config.tproxy_port(port), ..self }
    }

    /// Changes the address that the daemon binds to.
    pub fn bind_address(self, address: &str) -> (r: Self)
        ensures
            r@ == (ClashConfigPatchModel {
                config: ConfigModel { bind_address: Some(address@), ..self@.config },
                ..self@
            }),
    {
        Self { config: self.config.bind_address(address), ..self }
    }

    /// Changes whether the daemon resolves to IPv6 addresses.
    pub fn ipv6(self, flag: bool) -> (r: Self)
        ensures
            r@ == (ClashConfigPatchModel {
                config: ConfigModel { ipv6: Some(flag), ..self@.config },
                ..self@
            }),
    {
        Self { config: self.config.ipv6(flag), ..self }
    }

    /// Changes the port of the HTTP proxy.
    pub fn port(self, port: u16) -> (r: Self)
        ensures
            r@ == (ClashConfigPatchModel {
                config: ConfigModel { port: Some(port), ..self@.config },
                ..self@
            }),
    {
        Self { config: self.config.port(port), ..self }
    }

    /// Changes the port of the SOCKS proxy.
    pub fn socks_port(self, port: u16) -> (r: Self)
        ensures
            r@ == (ClashConfigPatchModel {
                config: ConfigModel { socks_port: Some(port), ..self@.config },
                ..self@
            }),
    {
        Self { config: self.config.socks_port(port), ..self }
    }

    /// Changes the port of the redirecting proxy.
    pub fn redir_port(self, port: u16) -> (r: Self)
        ensures
            r@ == (ClashConfigPatchModel {
                config: ConfigModel { redir_port: Some(port), ..self@.config },
                ..self@
            }),
    {
        Self { config: self.config.redir_port(port), ..self }
    }

    /// Changes whether other hosts of the local network may connect.
    pub fn allow_lan(self, allow: bool) -> (r: Self)
        ensures
            r@ == (ClashConfigPatchModel {
                config: ConfigModel { allow_lan: Some(allow), ..self@.config },
                ..self@
            }),
    {
        Self { config: self.config.allow_lan(allow), ..self }
    }

    /// Changes how the daemon routes traffic.
    pub fn mode(self, mode: ConfigMode) -> (r: Self)
        ensures
            r@ == (ClashConfigPatchModel {
                config: ConfigModel { mode: Some(mode), ..self@.config },
                ..self@
            }),
    {
        Self { config: self.config.mode(mode), ..self }
    }

    /// Changes how much the daemon logs.
    pub fn log_level(self, level: ConfigLogLevel) -> (r: Self)
        ensures
            r@ == (ClashConfigPatchModel {
                config: ConfigModel { log_level: Some(level), ..self@.config },
                ..self@
            }),
    {
        Self { config: self.config.log_level(level), ..self }
    }

    /// What the daemon's status says of the request.
    pub fn outcome(status: u16) -> (r: Result<(), PatchError>)
        ensures
            r is Ok <==> accepted(status),
    {
        if status == 204 {
            Ok(())
        } else {
            Err(PatchError)
        }
    }
}

impl ClashRequest for ClashConfigPatch {
    open spec fn parts(&self) -> RequestParts {
        RequestParts::to(self@.endpoint, "PATCH"@, "configs"@, Seq::empty())
    }

    /// The body is the JSON object of the settings to change.
    open spec fn is_body(&self, body: Seq<char>) -> bool {
        body == patch_body(self@.config)
    }

    /// Only the address to bind to is written by `serde_json`.
    open spec fn body_owed(&self) -> bool {
        self@.config.bind_address is None
    }

    fn get_dest(&self) -> (r: String) {
        self.endpoint.dest()
    }

    fn get_port(&self) -> (r: u16) {
        self.endpoint.port()
    }

    fn get_secret(&self) -> (r: Option<String>) {
        self.endpoint.secret()
    }

    fn get_method(&self) -> (r: String) {
        "PATCH".to_owned()
    }

    fn get_path(&self) -> (r: String) {
        "configs".to_owned()
    }

    fn get_query_parameter(&self) -> (r: String) {
        String::new()
    }

    fn get_body(&self) -> (r: Option<String>) {
        match &self.config.bind_address {
            Some(address) => match quote(address.as_str()) {
                Ok(literal) => Some(self.config.object_with(Some(literal.as_str()))),
                Err(_) => None,
            },
            None => Some(self.config.object_with(None)),
        }
    }
}

impl ConfigMode {
    /// The mode as it is shown.
    pub open spec fn label(self) -> Seq<char> {
        match self {
            ConfigMode::Global => "Global"@,
            ConfigMode::Rule => "Rule"@,
            ConfigMode::Direct => "Direct"@,
        }
    }
}

impl ConfigLogLevel {
    /// The level as it is shown.
    pub open spec fn label(self) -> Seq<char> {
        match self {
            ConfigLogLevel::Info => "Info"@,
            ConfigLogLevel::Warning => "Warning"@,
            ConfigLogLevel::Error => "Error"@,
            ConfigLogLevel::Debug => "Debug"@,
        }
    }
}

/// A line that shows a port: 0 where none is set.
pub open spec fn port_line(title: Seq<char>, port: Option<u16>) -> Seq<char> {
    title + ": "@ + decimal(
        match port {
            Some(p) => p as nat,
            None => 0,
        },
    ) + "\n"@
}

/// A line that shows a yes or no: `false` where none is set.
pub open spec fn flag_line(title: Seq<char>, flag: Option<bool>) -> Seq<char> {
    title + ": "@ + (if flag == Some(true) {
        "true"@
    } else {
        "false"@
    }) + "\n"@
}

/// A line that shows a word.
pub open spec fn word_line(title: Seq<char>, word: Seq<char>) -> Seq<char> {
    title + ": "@ + word + "\n"@
}

fn push_port_line(out: &mut String, title: &str, port: Option<u16>)
    ensures
        final(out)@ == old(out)@ + port_line(title@, port),
{
    out.append(title);
    out.append(": ");
    push_decimal(
        out,
        match port {
            Some(p) => p as u64,
            None => 0,
        },
    );
    out.append("\n");
}

fn push_flag_line(out: &mut String, title: &str, flag: Option<bool>)
    ensures
        final(out)@ == old(out)@ + flag_line(title@, flag),
{
    out.append(title);
    out.append(": ");
    match flag {
        Some(true) => {
            out.append("true");
        },
        _ => {
            out.append("false");
        },
    }
    out.append("\n");
}

fn push_word_line(out: &mut String, title: &str, word: &str)
    ensures
        final(out)@ == old(out)@ + word_line(title@, word@),
{
    out.append(title);
    out.append(": ");
    out.append(word);
    out.append("\n");
}

impl CliOutput for Config {
    /// One line for each setting. A setting that is not known shows as 0, as
    /// `false`, as `*` for the address and as `None` for the mode and the
    /// level.
    open spec fn shown(&self) -> Seq<char> {
        port_line("HTTP port"@, self.port) + port_line("SOCKS port"@, self.socks_port) + port_line(
            "REDIR port"@,
            self.redir_port,
        ) + port_line("TPROXY port"@, self.tproxy_port) + flag_line("Allow LAN"@, self.allow_lan)
            + flag_line("IPv6"@, self.ipv6) + word_line(
            "Bind Address"@,
            match self@.bind_address {
                Some(address) => address,
                None => "*"@,
            },
        ) + word_line(
            "Mode"@,
            match self.mode {
                Some(mode) => mode.label(),
                None => "None"@,
            },
        ) + word_line(
            "Log level"@,
            match self.log_level {
                Some(level) => level.label(),
                None => "None"@,
            },
        )
    }

    fn render(&self) -> (r: String) {
        let mut out = String::new();
        push_port_line(&mut out, "HTTP port", self.port);
        push_port_line(&mut out, "SOCKS port", self.socks_port);
        push_port_line(&mut out, "REDIR port", self.redir_port);
        push_port_line(&mut out, "TPROXY port", self.tproxy_port);
        push_flag_line(&mut out, "Allow LAN", self.allow_lan);
        push_flag_line(&mut out, "IPv6", self.ipv6);
        push_word_line(
            &mut out,
            "Bind Address",
            match &self.bind_address {
                Some(address) => address.as_str(),
                None => "*",
            },
        );
        push_word_line(
            &mut out,
            "Mode",
            match self.mode {
                Some(ConfigMode::Global) => "Global",
                Some(ConfigMode::Rule) => "Rule",
                Some(ConfigMode::Direct) => "Direct",
                None => "None",
            },
        );
        push_word_line(
            &mut out,
            "Log level",
            match self.log_level {
                Some(ConfigLogLevel::Info) => "Info",
                Some(ConfigLogLevel::Warning) => "Warning",
                Some(ConfigLogLevel::Error) => "Error",
                Some(ConfigLogLevel::Debug) => "Debug",
                None => "None",
            },
        );
        out
    }
}

} // verus!
