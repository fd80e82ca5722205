//! Listing the daemon's proxies, measuring their delay and choosing among
//! them.

use crate::json::{
    document, members, natural_member, object_member, optional_member, optional_text_member,
    remaining, JsonModel,
};
use crate::output::{concat, lemma_concat_step, CliOutput};
use crate::record::{
    decode_text, decoded_text, describes, read_all, schema_all, views, DecodeError, Record,
};
use crate::text::{decimal, push_decimal};
use crate::{text_of, ClashRequest, ClashRequestBuilder, Endpoint, EndpointModel, RequestParts};
use serde_json::Value;
use vstd::prelude::*;
use vstd::string::{StringExecFns, StringSliceAdditionalSpecFns};

verus! {

/// Why the daemon refused a request about a proxy.
#[derive(Clone, Copy, Debug, PartialEq, Eq, Structural)]
pub enum ProxyError {
    /// The daemon knows no proxy of that name.
    ProxyNotExisted,
    /// The daemon could not read the request.
    FormatError,
    /// The proxy did not answer in time.
    TimeOut,
    /// Any other status, with its code.
    UnknownError(u16),
}

impl ProxyError {
    /// The error in words.
    pub open spec fn text(self) -> Seq<char> {
        match self {
            ProxyError::ProxyNotExisted => "Proxy not existed"@,
            ProxyError::FormatError => "Request format error"@,
            ProxyError::TimeOut => "Delay timeout"@,
            ProxyError::UnknownError(code) => "Unknown error: "@ + decimal(code as nat),
        }
    }

    /// The error in words.
    pub fn message(&self) -> (r: String)
        ensures
            r@ == self.text(),
    {
        match self {
            ProxyError::ProxyNotExisted => "Proxy not existed".to_owned(),
            ProxyError::FormatError => "Request format error".to_owned(),
            ProxyError::TimeOut => "Delay timeout".to_owned(),
            ProxyError::UnknownError(code) => {
                let mut out = "Unknown error: ".to_owned();
                push_decimal(&mut out, *code as u64);
                out
            },
        }
    }
}

/// Why a request about a proxy gave no answer to use.
#[derive(Clone, Copy, Debug, PartialEq, Eq, Structural)]
pub enum ResponseError {
    /// The daemon refused the request.
    Refused(ProxyError),
    /// The daemon's answer could not be read.
    Unreadable(DecodeError),
}

/// Whether a status is one of success: 200 to 299.
pub open spec fn is_success(status: u16) -> bool {
    200 <= status < 300
}

/// What the daemon's reply comes to, where its status is `status` and its
/// body is `text`: a status of success is followed by a record, any other
/// is the refusal `refusal`.
pub open spec fn replied<T: Record>(
    status: u16,
    text: Seq<char>,
    refusal: ProxyError,
) -> Result<T::V, ResponseError> {
    if is_success(status) {
        match decoded_text::<T>(text) {
            Ok(record) => Ok(record),
            Err(e) => Err(ResponseError::Unreadable(e)),
        }
    } else {
        Err(ResponseError::Refused(refusal))
    }
}

/// Whether `answer` is the outcome `expected`: the same error, or a record
/// with the expected content.
pub open spec fn matches_reply<T: Record>(
    answer: Result<T, ResponseError>,
    expected: Result<T::V, ResponseError>,
) -> bool {
    match answer {
        Ok(record) => expected == Ok::<T::V, ResponseError>(record@),
        Err(e) => expected == Err::<T::V, ResponseError>(e),
    }
}

fn read_reply<T: Record>(status: u16, text: &str, refusal: ProxyError) -> (r: Result<
    T,
    ResponseError,
>)
    ensures
        matches_reply(r, replied::<T>(status, text@, refusal)),
{
    if 200 <= status && status < 300 {
        match decode_text::<T>(text) {
            Ok(record) => Ok(record),
            Err(e) => Err(ResponseError::Unreadable(e)),
        }
    } else {
        Err(ResponseError::Refused(refusal))
    }
}

/// The proxy requests, before one of them is chosen. As it stands it asks
/// for the list of all proxies.
pub struct ClashProxy {
    endpoint: Endpoint,
}

impl View for ClashProxy {
    type V = EndpointModel;

    closed spec fn view(&self) -> EndpointModel {
        self.endpoint@
    }
}

impl ClashProxy {
    /// The request to where `f` says. What `f` leaves open falls back to the
    /// controller's usual place.
    pub fn from(f: ClashRequestBuilder) -> (v: Self)
        ensures
            v@ == f@.endpoint(),
    {
        Self { endpoint: f.into_endpoint() }
    }

    /// The request for what the daemon knows of the proxy `proxy_name`.
    pub fn get(self, proxy_name: &str) -> (r: ClashProxyInfo)
        ensures
            r@ == (ClashProxyInfoModel { endpoint: self@, proxy_name: proxy_name@ }),
    {
        ClashProxyInfo { endpoint: self.endpoint, proxy_name: proxy_name.to_owned() }
    }
}

impl ClashRequest for ClashProxy {
    open spec fn parts(&self) -> RequestParts {
        RequestParts::to(self@, "GET"@, "proxies"@, Seq::empty())
    }

    open spec fn is_body(&self, body: Seq<char>) -> bool {
        body == Seq::<char>::empty()
    }

    open spec fn body_owed(&self) -> bool {
        true
    }

    fn get_dest(&self) -> (r: String) {
        self.endpoint.dest()
    }

    fn get_port(&self) -> (r: u16) {
        self.endpoint.port()
    }

    fn get_secret(&self) -> (r: Option<String>) {
        self.endpoint.secret()
    }

    fn get_method(&self) -> (r: String) {
        "GET".to_owned()
    }

    fn get_path(&self) -> (r: String) {
        "proxies".to_owned()
    }

    fn get_query_parameter(&self) -> (r: String) {
        String::new()
    }

    fn get_body(&self) -> (r: Option<String>) {
        Some(String::new())
    }
}

/// The daemon's proxies by their names, each with what the daemon tells of
/// it.
#[derive(Debug)]
pub struct ProxyList {
    proxies: serde_json::Map<String, Value>,
}

impl View for ProxyList {
    type V = Map<Seq<char>, JsonModel>;

    closed spec fn view(&self) -> Map<Seq<char>, JsonModel> {
        members(self.proxies)
    }
}

impl Record for ProxyList {
    /// An object whose member `proxies` is an object. Other members are
    /// ignored.
    open spec fn schema(doc: JsonModel) -> Option<Map<Seq<char>, JsonModel>> {
        doc.object_field("proxies"@)
    }

    fn read(value: &Value) -> (r: Option<ProxyList>) {
        match object_member(value, "proxies") {
            Some(object) => Some(ProxyList { proxies: object.clone() }),
            None => None,
        }
    }
}

impl ProxyList {
    /// Reads the proxies off the daemon's answer.
    pub fn try_from(value: String) -> (r: Result<ProxyList, DecodeError>)
        ensures
            describes(r, decoded_text::<ProxyList>(value@)),
    {
        decode_text::<ProxyList>(value.as_str())
    }

    /// An iterator over the proxies, each with its name: it has every
    /// proxy of the list yet to give, each of them once.
    pub fn iter(&self) -> (r: serde_json::map::Iter<'_>)
        ensures
            remaining(r) == self@,
    {
        self.proxies.iter()
    }
}

/// What the daemon knows of one proxy. It may leave out any of it.
#[derive(Clone, Debug, PartialEq, Eq)]
pub struct ProxyInfo {
    /// The proxies that a group chooses among.
    pub all: Option<Vec<String>>,
    /// The proxy that a group has chosen.
    pub now: Option<String>,
    pub kind: Option<String>,
}

/// What the daemon knows of one proxy, as plain values.
pub struct ProxyInfoModel {
    pub all: Option<Seq<Seq<char>>>,
    pub now: Option<Seq<char>>,
    pub kind: Option<Seq<char>>,
}

impl View for ProxyInfo {
    type V = ProxyInfoModel;

    open spec fn view(&self) -> ProxyInfoModel {
        ProxyInfoModel {
            all: match self.all {
                Some(names) => Some(views(names@)),
                None => None,
            },
            now: text_of(self.now),
            kind: text_of(self.kind),
        }
    }
}

/// The names of a member that may be left out: `Some(None)` where it is
/// left out or `null`, `None` where it holds anything but an array of
/// strings.
pub open spec fn names_setting(doc: JsonModel, key: Seq<char>) -> Option<Option<Seq<Seq<char>>>> {
    match doc.optional_field(key) {
        None => Some(None),
        Some(m) => match m.elements() {
            Some(docs) => match schema_all::<String>(docs) {
                Some(names) => Some(Some(names)),
                None => None,
            },
            None => None,
        },
    }
}

fn read_name(value: &Value, key: &str) -> (r: Option<Option<String>>)
    ensures
        match r {
            None => document(*value).optional_text_field(key@) is None,
            Some(name) => document(*value).optional_text_field(key@) == Some(text_of(name)),
        },
{
    match optional_text_member(value, key) {
        None => None,
        Some(None) => Some(None),
        Some(Some(t)) => Some(Some(t.to_owned())),
    }
}

impl Record for ProxyInfo {
    /// An object in which `all` is left out, `null` or an array of strings,
    /// and `now` and `type` are each left out, `null` or a string. Other
    /// members are ignored.
    open spec fn schema(doc: JsonModel) -> Option<ProxyInfoModel> {
        match (
            names_setting(doc, "all"@),
            doc.optional_text_field("now"@),
            doc.optional_text_field("type"@),
        ) {
            (Some(all), Some(now), Some(kind)) => if doc is Object {
                Some(ProxyInfoModel { all, now, kind })
            } else {
                None
            },
            _ => None,
        }
    }

    fn read(value: &Value) -> (r: Option<ProxyInfo>) {
        if value.as_object().is_none() {
            return None;
        }
        let all = match optional_member(value, "all") {
            None => None,
            Some(m) => match m.as_array() {
                Some(items) => match read_all::<String>(items) {
                    Some(names) => Some(names),
                    None => {
                        return None;
                    },
                },
                None => {
                    return None;
                },
            },
        };
        let now = match read_name(value, "now") {
            Some(x) => x,
            None => {
                return None;
            },
        };
        let kind = match read_name(value, "type") {
            Some(x) => x,
            None => {
                return None;
            },
        };
        Some(ProxyInfo { all, now, kind })
    }
}

impl ProxyInfo {
    /// Reads the proxy off the daemon's answer.
    pub fn try_from(value: String) -> (r: Result<ProxyInfo, DecodeError>)
        ensures
            describes(r, decoded_text::<ProxyInfo>(value@)),
    {
        decode_text::<ProxyInfo>(value.as_str())
    }
}

/// The request for what the daemon knows of one proxy.
pub struct ClashProxyInfo {
    endpoint: Endpoint,
    proxy_name: String,
}

/// The request for what the daemon knows of one proxy, as plain values.
pub struct ClashProxyInfoModel {
    pub endpoint: EndpointModel,
    pub proxy_name: Seq<char>,
}

impl View for ClashProxyInfo {
    type V = ClashProxyInfoModel;

    closed spec fn view(&self) -> ClashProxyInfoModel {
        ClashProxyInfoModel { endpoint: self.endpoint@, proxy_name: self.proxy_name@ }
    }
}

/// Whether a byte stands for itself in a URL: a letter or digit of ASCII,
/// or one of `-`, `.`, `_`, `~`.
pub open spec fn is_unreserved(b: u8) -> bool {
    ||| 0x30 <= b <= 0x39
    ||| 0x41 <= b <= 0x5a
    ||| 0x61 <= b <= 0x7a
    ||| b == 0x2d
    ||| b == 0x2e
    ||| b == 0x5f
    ||| b == 0x7e
}

/// The character of a hexadecimal digit, in upper case.
pub open spec fn hex_digit(d: u8) -> char {
    if d < 10 {
        (0x30 + d) as u8 as char
    } else {
        (0x41 + d - 10) as u8 as char
    }
}

/// Bytes written for a URL: a byte that is not unreserved becomes `%` and
/// its two hexadecimal digits.
pub open spec fn percent_encoded(bytes: Seq<u8>) -> Seq<char>
    decreases bytes.len(),
{
    if bytes.len() == 0 {
        Seq::empty()
    } else {
        let b = bytes.last();
        percent_encoded(bytes.drop_last()) + if is_unreserved(b) {
            seq![b as char]
        } else {
            seq!['%', hex_digit(b / 16), hex_digit(b % 16)]
        }
    }
}

/// `urlencoding::encode`: the UTF-8 bytes of the text, each of them
/// percent-encoded unless it is unreserved.
#[verifier::external_body]
fn percent_encode(text: &str) -> (r: String)
    ensures
        r@ == percent_encoded(text.spec_bytes()),
{
    urlencoding::encode(text).into_owned()
}

impl ClashProxyInfo {
    /// The request that measures how long the proxy takes to fetch `url`,
    /// giving up after `timeout` milliseconds.
    pub fn delay(self, url: &str, timeout: u32) -> (r: ClashProxyDelay)
        ensures
            r@ == (ClashProxyDelayModel {
                endpoint: self@.endpoint,
                proxy_name: self@.proxy_name,
                url: percent_encoded(url.spec_bytes()),
                timeout,
            }),
    {
        let url = percent_encode(url);
        ClashProxyDelay { endpoint: self.endpoint, proxy_name: self.proxy_name, url, timeout }
    }

    /// The request that has the group choose `new_proxy`.
    pub fn change(self, new_proxy: &str) -> (r: ClashProxyChange)
        ensures
            r@ == (ClashProxyChangeModel {
                endpoint: self@.endpoint,
                proxy_name: self@.proxy_name,
                new_proxy: new_proxy@,
            }),
    {
        ClashProxyChange {
            endpoint: self.endpoint,
            proxy_name: self.proxy_name,
            new_proxy: new_proxy.to_owned(),
        }
    }

    /// The daemon's answer read: a status of success is followed by the
    /// proxy, any other says that the daemon knows no such proxy.
    pub fn outcome(status: u16, text: &str) -> (r: Result<ProxyInfo, ResponseError>)
        ensures
            matches_reply(r, replied::<ProxyInfo>(status, text@, ProxyError::ProxyNotExisted)),
    {
        read_reply::<ProxyInfo>(status, text, ProxyError::ProxyNotExisted)
    }
}

impl ClashRequest for ClashProxyInfo {
    open spec fn parts(&self) -> RequestParts {
        RequestParts::to(self@.endpoint, "GET"@, "proxies/"@ + self@.proxy_name, Seq::empty())
    }

    open spec fn is_body(&self, body: Seq<char>) -> bool {
        body == Seq::<char>::empty()
    }

    open spec fn body_owed(&self) -> bool {
        true
    }

    fn get_dest(&self) -> (r: String) {
        self.endpoint.dest()
    }

    fn get_port(&self) -> (r: u16) {
        self.endpoint.port()
    }

    fn get_secret(&self) -> (r: Option<String>) {
        self.endpoint.secret()
    }

    fn get_method(&self) -> (r: String) {
        "GET".to_owned()
    }

    fn get_path(&self) -> (r: String) {
        let mut out = "proxies/".to_owned();
        out.append(self.proxy_name.as_str());
        out
    }

    fn get_query_parameter(&self) -> (r: String) {
        String::new()
    }

    fn get_body(&self) -> (r: Option<String>) {
        Some(String::new())
    }
}

/// The request that has a group choose a proxy.
pub struct ClashProxyChange {
    endpoint: Endpoint,
    proxy_name: String,
    new_proxy: String,
}

/// The request that has a group choose a proxy, as plain values.
pub struct ClashProxyChangeModel {
    pub endpoint: EndpointModel,
    /// The group.
    pub proxy_name: Seq<char>,
    /// The proxy to choose.
    pub new_proxy: Seq<char>,
}

impl View for ClashProxyChange {
    type V = ClashProxyChangeModel;

    closed spec fn view(&self) -> ClashProxyChangeModel {
        ClashProxyChangeModel {
            endpoint: self.endpoint@,
            proxy_name: self.proxy_name@,
            new_proxy: self.new_proxy@,
        }
    }
}

/// What the daemon's status says of a change of proxy: 204 is success, 400
/// a request that it could not read, 404 a proxy that it does not know.
pub open spec fn change_outcome(status: u16) -> Result<(), ProxyError> {
    if status == 204 {
        Ok(())
    } else if status == 400 {
        Err(ProxyError::FormatError)
    } else if status == 404 {
        Err(ProxyError::ProxyNotExisted)
    } else {
        Err(ProxyError::UnknownError(status))
    }
}

impl ClashProxyChange {
    /// What the daemon's status says of the request.
    pub fn outcome(status: u16) -> (r: Result<(), ProxyError>)
        ensures
            r == change_outcome(status),
    {
        if status == 204 {
            Ok(())
        } else if status == 400 {
            Err(ProxyError::FormatError)
        } else if status == 404 {
            Err(ProxyError::ProxyNotExisted)
        } else {
            Err(ProxyError::UnknownError(status))
        }
    }
}

impl ClashRequest for ClashProxyChange {
    open spec fn parts(&self) -> RequestParts {
        RequestParts::to(self@.endpoint, "PUT"@, "proxies/"@ + self@.proxy_name, Seq::empty())
    }

    open spec fn is_body(&self, body: Seq<char>) -> bool {
        body == "{ \"name\": \""@ + self@.new_proxy + "\"}"@
    }

    open spec fn body_owed(&self) -> bool {
        true
    }

    fn get_dest(&self) -> (r: String) {
        self.endpoint.dest()
    }

    fn get_port(&self) -> (r: u16) {
        self.endpoint.port()
    }

    fn get_secret(&self) -> (r: Option<String>) {
        self.endpoint.secret()
    }

    fn get_method(&self) -> (r: String) {
        "PUT".to_owned()
    }

    fn get_path(&self) -> (r: String) {
        let mut out = "proxies/".to_owned();
        out.append(self.proxy_name.as_str());
        out
    }

    fn get_query_parameter(&self) -> (r: String) {
        String::new()
    }

    fn get_body(&self) -> (r: Option<String>) {
        let mut out = "{ \"name\": \"".to_owned();
        out.append(self.new_proxy.as_str());
        out.append("\"}");
        Some(out)
    }
}

/// The request that measures the delay of a proxy.
pub struct ClashProxyDelay {
    endpoint: Endpoint,
    proxy_name: String,
    url: String,
    timeout: u32,
}

/// The request that measures the delay of a proxy, as plain values.
pub struct ClashProxyDelayModel {
    pub endpoint: EndpointModel,
    pub proxy_name: Seq<char>,
    /// The address to fetch, percent-encoded.
    pub url: Seq<char>,
    /// Milliseconds after which the daemon gives up.
    pub timeout: u32,
}

impl View for ClashProxyDelay {
    type V = ClashProxyDelayModel;

    closed spec fn view(&self) -> ClashProxyDelayModel {
        ClashProxyDelayModel {
            endpoint: self.endpoint@,
            proxy_name: self.proxy_name@,
            url: self.url@,
            timeout: self.timeout,
        }
    }
}

/// What a status other than success says of a measurement: 400 is a
/// request that the daemon could not read, 408 a proxy that took too long,
/// 404 a proxy that it does not know.
pub open spec fn delay_refusal(status: u16) -> ProxyError {
    if status == 400 {
        ProxyError::FormatError
    } else if status == 408 {
        ProxyError::TimeOut
    } else if status == 404 {
        ProxyError::ProxyNotExisted
    } else {
        ProxyError::UnknownError(status)
    }
}

impl ClashProxyDelay {
    /// The daemon's answer read: a status of success is followed by the
    /// delay, any other says why there is none.
    pub fn outcome(status: u16, text: &str) -> (r: Result<ProxyDelay, ResponseError>)
        ensures
            matches_reply(r, replied::<ProxyDelay>(status, text@, delay_refusal(status))),
    {
        let refusal = if status == 400 {
            ProxyError::FormatError
        } else if status == 408 {
            ProxyError::TimeOut
        } else if status == 404 {
            ProxyError::ProxyNotExisted
        } else {
            ProxyError::UnknownError(status)
        };
        read_reply::<ProxyDelay>(status, text, refusal)
    }
}

impl ClashRequest for ClashProxyDelay {
    open spec fn parts(&self) -> RequestParts {
        RequestParts::to(
            self@.endpoint,
            "GET"@,
            "proxies/"@ + self@.proxy_name + "/delay"@,
            "timeout="@ + decimal(self@.timeout as nat) + "&url="@ + self@.url,
        )
    }

    open spec fn is_body(&self, body: Seq<char>) -> bool {
        body == Seq::<char>::empty()
    }

    open spec fn body_owed(&self) -> bool {
        true
    }

    fn get_dest(&self) -> (r: String) {
        self.endpoint.dest()
    }

    fn get_port(&self) -> (r: u16) {
        self.endpoint.port()
    }

    fn get_secret(&self) -> (r: Option<String>) {
        self.endpoint.secret()
    }

    fn get_method(&self) -> (r: String) {
        "GET".to_owned()
    }

    fn get_path(&self) -> (r: String) {
        let mut out = "proxies/".to_owned();
        out.append(self.proxy_name.as_str());
        out.append("/delay");
        out
    }

    fn get_query_parameter(&self) -> (r: String) {
        let mut out = "timeout=".to_owned();
        push_decimal(&mut out, self.timeout as u64);
        out.append("&url=");
        out.append(self.url.as_str());
        out
    }

    fn get_body(&self) -> (r: Option<String>) {
        Some(String::new())
    }
}

/// How long a proxy took, in milliseconds.
#[derive(Clone, Copy, Debug, PartialEq, Eq, Structural)]
pub struct ProxyDelay {
    pub delay: u64,
}

impl View for ProxyDelay {
    type V = ProxyDelay;

    open spec fn view(&self) -> ProxyDelay {
        *self
    }
}

impl Record for ProxyDelay {
    /// An object whose member `delay` is a non-negative integer that fits
    /// in 64 bits. Other members are ignored.
    open spec fn schema(doc: JsonModel) -> Option<ProxyDelay> {
        match doc.natural_field("delay"@) {
            Some(delay) => Some(ProxyDelay { delay }),
            None => None,
        }
    }

    fn read(value: &Value) -> (r: Option<ProxyDelay>) {
        match natural_member(value, "delay") {
            Some(delay) => Some(ProxyDelay { delay }),
            None => None,
        }
    }
}

impl ProxyDelay {
    /// Reads the delay off the daemon's answer.
    pub fn try_from(value: String) -> (r: Result<ProxyDelay, DecodeError>)
        ensures
            describes(r, decoded_text::<ProxyDelay>(value@)),
    {
        decode_text::<ProxyDelay>(value.as_str())
    }
}

/// One proxy of a group on a line of its own.
pub open spec fn choice_line(name: Seq<char>) -> Seq<char> {
    "- "@ + name + "\n"@
}

impl ProxyInfoModel {
    /// The line that tells the type, if it is known.
    pub open spec fn kind_lines(self) -> Seq<char> {
        match self.kind {
            Some(kind) => "Type: "@ + kind + "\n"@,
            None => Seq::empty(),
        }
    }

    /// A heading and the proxies to choose among, if they are known.
    pub open spec fn choice_lines(self) -> Seq<char> {
        match self.all {
            Some(names) => "Proxy:\n"@ + concat(
                Seq::new(names.len(), |i: int| choice_line(names[i])),
            ),
            None => Seq::empty(),
        }
    }

    /// The line that tells the proxy chosen, if it is known.
    pub open spec fn chosen_lines(self) -> Seq<char> {
        match self.now {
            Some(now) => "Selected: "@ + now + "\n"@,
            None => Seq::empty(),
        }
    }
}

impl CliOutput for ProxyInfo {
    /// The type, the proxies to choose among and the one chosen, as far as
    /// they are known.
    open spec fn shown(&self) -> Seq<char> {
        self@.kind_lines() + self@.choice_lines() + self@.chosen_lines()
    }

    fn render(&self) -> (r: String) {
        let mut out = String::new();
        if let Some(kind) = &self.kind {
            out.append("Type: ");
            out.append(kind.as_str());
            out.append("\n");
        }
        if let Some(names) = &self.all {
            out.append("Proxy:\n");
            let ghost head = out@;
            let ghost lines = Seq::new(names@.len(), |i: int| choice_line(names@[i]@));
            let mut i: usize = 0;
            while i < names.len()
                invariant
                    i <= names.len(),
                    lines == Seq::new(names@.len(), |i: int| choice_line(names@[i]@)),
                    out@ == head + concat(lines.take(i as int)),
                decreases names.len() - i,
            {
                out.append("- ");
                out.append(names[i].as_str());
                out.append("\n");
                proof {
                    lemma_concat_step(lines, i + 1);
                }
                i += 1;
            }
            assert(lines.take(i as int) =~= lines);
            assert(lines =~= Seq::new(
                self@.all->0.len(),
                |i: int| choice_line(self@.all->0[i]),
            ));
        }
        if let Some(now) = &self.now {
            out.append("Selected: ");
            out.append(now.as_str());
            out.append("\n");
        }
        out
    }
}

} // verus!
