//! Listing the daemon's routing rules.

use crate::json::{list_member, text_member, JsonModel};
use crate::output::{concat, lemma_concat_step, CliOutput};
use crate::record::{
    decode_text, decoded_text, describes, read_all, schema_all, views, DecodeError, Record,
};
use crate::{ClashRequest, ClashRequestBuilder, Endpoint, EndpointModel, RequestParts};
use serde_json::Value;
use vstd::prelude::*;
use vstd::string::StringExecFns;

verus! {

/// The request for the daemon's routing rules.
pub struct ClashRule {
    endpoint: Endpoint,
}

impl View for ClashRule {
    type V = EndpointModel;

    closed spec fn view(&self) -> EndpointModel {
        self.endpoint@
    }
}

impl ClashRule {
    /// The request to where `r` says. What `r` leaves open falls back to the
    /// controller's usual place.
    pub fn from(r: ClashRequestBuilder) -> (v: Self)
        ensures
            v@ == r@.endpoint(),
    {
        Self { endpoint: r.into_endpoint() }
    }
}

impl ClashRequest for ClashRule {
    open spec fn parts(&self) -> RequestParts {
        RequestParts::to(self@, "GET"@, "rules"@, Seq::empty())
    }

    open spec fn is_body(&self, body: Seq<char>) -> bool {
        body == Seq::<char>::empty()
    }

    open spec fn body_owed(&self) -> bool {
        true
    }

    fn get_dest(&self) -> (r: String) {
        self.endpoint.dest()
    }

    fn get_port(&self) -> (r: u16) {
        self.endpoint.port()
    }

    fn get_secret(&self) -> (r: Option<String>) {
        self.endpoint.secret()
    }

    fn get_method(&self) -> (r: String) {
        "GET".to_owned()
    }

    fn get_path(&self) -> (r: String) {
        "rules".to_owned()
    }

    fn get_query_parameter(&self) -> (r: String) {
        String::new()
    }

    fn get_body(&self) -> (r: Option<String>) {
        Some(String::new())
    }
}

/// One routing rule: what it matches on, and the proxy that it sends to.
#[derive(Clone, Debug, PartialEq, Eq)]
pub struct Rule {
    pub kind: String,
    pub payload: String,
    pub proxy: String,
}

/// A routing rule as plain values.
pub struct RuleModel {
    pub kind: Seq<char>,
    pub payload: Seq<char>,
    pub proxy: Seq<char>,
}

impl View for Rule {
    type V = RuleModel;

    open spec fn view(&self) -> RuleModel {
        RuleModel { kind: self.kind@, payload: self.payload@, proxy: self.proxy@ }
    }
}

impl Record for Rule {
    /// An object whose members `type`, `payload` and `proxy` are strings.
    /// Other members are ignored.
    open spec fn schema(doc: JsonModel) -> Option<RuleModel> {
        match (doc.text_field("type"@), doc.text_field("payload"@), doc.text_field("proxy"@)) {
            (Some(kind), Some(payload), Some(proxy)) => Some(RuleModel { kind, payload, proxy }),
            _ => None,
        }
    }

    fn read(value: &Value) -> (r: Option<Rule>) {
        let kind = match text_member(value, "type") {
            Some(t) => t,
            None => {
                return None;
            },
        };
        let payload = match text_member(value, "payload") {
            Some(t) => t,
            None => {
                return None;
            },
        };
        let proxy = match text_member(value, "proxy") {
            Some(t) => t,
            None => {
                return None;
            },
        };
        Some(Rule { kind: kind.to_owned(), payload: payload.to_owned(), proxy: proxy.to_owned() })
    }
}

/// The daemon's routing rules, in the order in which it applies them.
#[derive(Debug)]
pub struct RuleList {
    rules: Vec<Rule>,
}

impl View for RuleList {
    type V = Seq<RuleModel>;

    closed spec fn view(&self) -> Seq<RuleModel> {
        views(self.rules@)
    }
}

impl Record for RuleList {
    /// An object whose member `rules` is an array of rules. Other members
    /// are ignored.
    open spec fn schema(doc: JsonModel) -> Option<Seq<RuleModel>> {
        match doc.list_field("rules"@) {
            Some(docs) => schema_all::<Rule>(docs),
            None => None,
        }
    }

    fn read(value: &Value) -> (r: Option<RuleList>) {
        let items = match list_member(value, "rules") {
            Some(items) => items,
            None => {
                return None;
            },
        };
        match read_all::<Rule>(items) {
            Some(rules) => Some(RuleList { rules }),
            None => None,
        }
    }
}

impl RuleList {
    /// Reads the rules off the daemon's answer.
    pub fn try_from(value: String) -> (r: Result<RuleList, DecodeError>)
        ensures
            describes(r, decoded_text::<RuleList>(value@)),
    {
        decode_text::<RuleList>(value.as_str())
    }

    /// The rules, first to last.
    pub fn iter(&self) -> (r: core::slice::Iter<'_, Rule>)
        ensures
            views(vstd::std_specs::slice::into_iter_elts(r)) == self@,
    {
        broadcast use vstd::std_specs::slice::axiom_spec_slice_iter;

        let r = self.rules.as_slice().iter();
        r
    }

    /// The number of rules.
    pub fn len(&self) -> (r: usize)
        ensures
            r == self@.len(),
    {
        self.rules.len()
    }

    /// The rule at `index`, counted from 0.
    pub fn get(&self, index: usize) -> (r: Option<&Rule>)
        ensures
            match r {
                Some(rule) => index < self@.len() && rule@ == self@[index as int],
                None => index >= self@.len(),
            },
    {
        if index < self.rules.len() {
            Some(&self.rules[index])
        } else {
            None
        }
    }
}

impl RuleModel {
    /// The rule on one line.
    pub open spec fn line(self) -> Seq<char> {
        self.kind + ",\t"@ + self.payload + ",\t"@ + self.proxy + "\n"@
    }
}

impl CliOutput for Rule {
    open spec fn shown(&self) -> Seq<char> {
        self@.line()
    }

    fn render(&self) -> (r: String) {
        let mut out = self.kind.clone();
        out.append(",\t");
        out.append(self.payload.as_str());
        out.append(",\t");
        out.append(self.proxy.as_str());
        out.append("\n");
        out
    }
}

impl CliOutput for RuleList {
    /// A heading, then the rules, one on each line.
    open spec fn shown(&self) -> Seq<char> {
        "TYPE,\tPAYLOAD,\tPROXY\n"@ + concat(
            Seq::new(self@.len(), |i: int| self@[i].line()),
        )
    }

    fn render(&self) -> (r: String) {
        let ghost lines = Seq::new(self@.len(), |i: int| self@[i].line());
        let mut out = "TYPE,\tPAYLOAD,\tPROXY\n".to_owned();
        let mut i: usize = 0;
        while i < self.rules.len()
            invariant
                i <= self.rules.len(),
                self.rules.len() == self@.len(),
                lines == Seq::new(self@.len(), |i: int| self@[i].line()),
                out@ == "TYPE,\tPAYLOAD,\tPROXY\n"@ + concat(lines.take(i as int)),
            decreases self.rules.len() - i,
        {
            let line = self.rules[i].render();
            out.append(line.as_str());
            proof {
                lemma_concat_step(lines, i + 1);
            }
            i += 1;
        }
        assert(lines.take(i as int) =~= lines);
        out
    }
}

} // verus!
