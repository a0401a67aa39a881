//! The deSEC adapter: token auth, no identifier indirection (record sets
//! are addressed by domain, host and type), a POST to create and a PUT to
//! replace, with this provider's minimum TTL of 3600 seconds.

use vstd::prelude::*;
use vstd::string::StringExecFns;

use crate::Config;
use crate::RecordType;
use crate::spec_rtype_name;
use crate::errors::Error;
use crate::http::HttpRequest;
use crate::http::HttpResponse;
use crate::http::Method;
use crate::http::check_delete;
use crate::http::check_error;
use crate::http::spec_status_success;
use crate::http::json_headers;
use crate::http::push_header;
use crate::http::response_body;
use crate::jsontext::append_json_str;
use crate::jsontext::append_json_str_array;
use crate::jsontext::spec_json_str;
use crate::jsontext::spec_json_str_array;
use crate::jsonval::get_array_field;
use crate::jsonval::json_as_string;
use crate::jsonval::json_parse;
use crate::op::Action;
use crate::op::Op;
use crate::op::OpKind;
use crate::op::select_single;
use crate::text::append_u64;
use crate::text::spec_dec_digits;

verus! {

/// Authentication credentials for the deSEC API: a token.
#[derive(Clone, Debug)]
pub struct Auth {
    pub key: String,
}

impl Auth {
    /// The value of the `authorization` header this adapter sends.
    pub fn get_header(&self) -> (r: String)
        ensures
            r@ == "Token "@ + self.key@,
    {
        let mut h = String::new();
        h.append("Token ");
        h.append(self.key.as_str());
        h
    }
}

/// The body sent to create or replace a record set.
pub struct CreateUpdateRRSet {
    pub subname: String,
    pub rtype: RecordType,
    pub ttl: u32,
    pub records: Vec<String>,
}

/// The JSON text of a `CreateUpdateRRSet` body.
pub open spec fn spec_rrset_json(
    subname: Seq<char>,
    rtype: RecordType,
    ttl: int,
    records: Seq<String>,
) -> Seq<char> {
    "{\"subname\":"@ + spec_json_str(subname) + ",\"type\":"@ + spec_json_str(
        spec_rtype_name(rtype),
    ) + ",\"ttl\":"@ + spec_dec_digits(ttl) + ",\"records\":"@ + spec_json_str_array(records)
        + "}"@
}

impl CreateUpdateRRSet {
    /// Serialize this body as JSON, field by field.
    pub fn to_json(&self) -> (r: String)
        ensures
            r@ == spec_rrset_json(self.subname@, self.rtype, self.ttl as int, self.records@),
    {
        let mut out = String::new();
        out.append("{\"subname\":");
        append_json_str(&mut out, self.subname.as_str());
        out.append(",\"type\":");
        append_json_str(&mut out, self.rtype.name());
        out.append(",\"ttl\":");
        append_u64(&mut out, self.ttl as u64);
        out.append(",\"records\":");
        append_json_str_array(&mut out, &self.records);
        out.append("}");
        assert(out@ =~= spec_rrset_json(
            self.subname@,
            self.rtype,
            self.ttl as int,
            self.records@,
        ));
        out
    }
}

/// The URL addressing the record set `(host, rtype)` under a domain.
pub open spec fn spec_rrset_url(domain: Seq<char>, host: Seq<char>, rtype: RecordType) -> Seq<
    char,
> {
    "https://desec.io/api/v1/domains/"@ + domain + "/rrsets/"@ + host + "/"@ + spec_rtype_name(
        rtype,
    ) + "/"@
}

/// The URL record sets of a domain are created under.
pub open spec fn spec_rrsets_url(domain: Seq<char>) -> Seq<char> {
    "https://desec.io/api/v1/domains/"@ + domain + "/rrsets/"@
}

/// Where an operation on this adapter stands.
pub enum OpState {
    /// Nothing sent yet.
    Start,
    /// The record-set query was sent.
    SentLookup,
    /// The mutating request was sent.
    SentMutate,
}

/// Synchronous deSEC DNS provider adapter.
///
/// Holds configuration and authentication; this provider needs no cached
/// identifier.
pub struct DeSec {
    pub config: Config,
    pub auth: Auth,
}

impl DeSec {
    /// Create a new `DeSec` provider adapter.
    pub fn new(config: Config, auth: Auth) -> (r: DeSec)
        ensures
            r.config == config && r.auth == auth,
    {
        DeSec { config, auth }
    }

    /// The headers every request of this adapter carries.
    fn headers(&self) -> (r: Vec<(String, String)>)
        ensures
            r@.len() == 3,
            r@[2].0@ == "authorization"@,
            r@[2].1@ == "Token "@ + self.auth.key@,
    {
        let mut headers = json_headers();
        push_header(&mut headers, "authorization", self.auth.get_header());
        headers
    }

    /// The URL addressing the record set `(host, rtype)` under the domain.
    fn rrset_url(&self, op: &Op) -> (r: String)
        ensures
            r@ == "https://desec.io/api/v1/domains/"@ + self.config.domain@ + "/rrsets/"@
                + op.host@ + "/"@ + spec_rtype_name(op.rtype) + "/"@,
    {
        let mut url = String::new();
        url.append("https://desec.io/api/v1/domains/");
        url.append(self.config.domain.as_str());
        url.append("/rrsets/");
        url.append(op.host.as_str());
        url.append("/");
        url.append(op.rtype.name());
        url.append("/");
        url
    }

    /// The URL record sets are created under.
    fn rrsets_url(&self) -> (r: String)
        ensures
            r@ == "https://desec.io/api/v1/domains/"@ + self.config.domain@ + "/rrsets/"@,
    {
        let mut url = String::new();
        url.append("https://desec.io/api/v1/domains/");
        url.append(self.config.domain.as_str());
        url.append("/rrsets/");
        url
    }

    /// Decode a record-set response body; only the values are consumed.
    fn parse_rrset_values(body: &str) -> (r: Result<Vec<String>, Error>) {
        let doc = json_parse(body)?;
        let items = get_array_field(&doc, "records")?;
        let mut values: Vec<String> = Vec::new();
        let mut i: usize = 0;
        while i < items.len()
            decreases items@.len() - i,
        {
            match json_as_string(&items[i]) {
                Some(s) => values.push(s),
                None => {
                    return Err(Error::JsonError("record value is not a string".to_owned()));
                },
            }
            i += 1;
        }
        Ok(values)
    }

    /// Build the create or replace body for `op`, with this provider's
    /// minimum TTL.
    fn rrset_body(&self, op: &Op) -> (r: String)
        requires
            op.value is Some,
        ensures
            op.value matches Some(v) ==> r@ == spec_rrset_json(
                op.host@,
                op.rtype,
                3600,
                seq![v],
            ),
    {
        let mut records: Vec<String> = Vec::new();
        match &op.value {
            Some(v) => records.push(v.clone()),
            None => (),
        }
        let body = CreateUpdateRRSet {
            subname: op.host.clone(),
            rtype: op.rtype,
            ttl: 3600,
            records,
        };
        body.to_json()
    }

    /// Drive one operation one step further: feed `None` first, then feed
    /// each response to the request the previous step asked for, until the
    /// action is `Done`.
    ///
    /// Under `dry_run`, and for every get, no mutating request is ever
    /// emitted.
    pub fn op_step(&self, op: &Op, st: OpState, event: Option<HttpResponse>) -> (r: (
        OpState,
        Action,
    ))
        requires
            op.wf(),
            (st is Start) <==> (event is None),
        ensures
            self.config.dry_run ==> !(r.1 is Mutate),
            op.kind is Get ==> !(r.1 is Mutate),
            (st is Start && self.config.dry_run && !(op.kind is Get)) ==> (r.1 matches
                Action::Done(res) && res matches Ok(found) && found is None),
            (st is Start && op.kind is Get) ==> (r.0 is SentLookup && (r.1 matches
                Action::Query(q) && q.method is Get && q.url@ == spec_rrset_url(
                self.config.domain@,
                op.host@,
                op.rtype,
            ))),
            (st is Start && !self.config.dry_run && op.kind is Create) ==> (r.1 matches
                Action::Mutate(q) && q.method is Post && q.url@ == spec_rrsets_url(
                self.config.domain@,
            ) && (q.body matches Some(b) && op.value matches Some(v) && b@ == spec_rrset_json(
                op.host@,
                op.rtype,
                3600,
                seq![v],
            ))),
            (st is Start && !self.config.dry_run && op.kind is Update) ==> (r.1 matches
                Action::Mutate(q) && q.method is Put && q.url@ == spec_rrset_url(
                self.config.domain@,
                op.host@,
                op.rtype,
            ) && (q.body matches Some(b) && op.value matches Some(v) && b@ == spec_rrset_json(
                op.host@,
                op.rtype,
                3600,
                seq![v],
            ))),
            (st is Start && !self.config.dry_run && op.kind is Delete) ==> (r.1 matches
                Action::Mutate(q) && q.method is Delete && q.body is None && q.url@
                == spec_rrset_url(self.config.domain@, op.host@, op.rtype)),
            st is SentLookup ==> !(r.1 is Mutate),
            st is SentMutate ==> r.1 is Done,
            (st is SentMutate && (event matches Some(resp) && spec_status_success(
                resp.status,
            ))) ==> (r.1 matches Action::Done(res) && res matches Ok(found) && found is None),
            (st is SentMutate && !(op.kind is Delete) && (event matches Some(resp)
                && !spec_status_success(resp.status))) ==> (r.1 matches Action::Done(res)
                && res is Err),
            (st is SentMutate && op.kind is Delete && (event matches Some(resp) && resp.status
                == 404)) ==> (r.1 matches Action::Done(res) && res matches Ok(found) && found
                is None),
            (st is SentMutate && op.kind is Delete && (event matches Some(resp)
                && !spec_status_success(resp.status) && resp.status != 404)) ==> (r.1 matches
                Action::Done(res) && res is Err),
            !(r.1 is Done) ==> !(r.0 is Start),
            (op.kind is Get && st is SentLookup && (event matches Some(resp)
                && resp.status == 404)) ==> (r.1 matches Action::Done(res) && res matches Ok(
                found,
            ) && found is None),
            !(op.kind is Get) ==> !(r.1 matches Action::Done(res) && res matches Ok(found)
                && found is Some),
    {
        match st {
            OpState::Start => match op.kind {
                OpKind::Get => {
                    let req = HttpRequest {
                        method: Method::Get,
                        url: self.rrset_url(op),
                        headers: self.headers(),
                        body: None,
                    };
                    (OpState::SentLookup, Action::Query(req))
                },
                OpKind::Create => {
                    if self.config.dry_run {
                        return (OpState::Start, Action::Done(Ok(None)));
                    }
                    let req = HttpRequest {
                        method: Method::Post,
                        url: self.rrsets_url(),
                        headers: self.headers(),
                        body: Some(self.rrset_body(op)),
                    };
                    (OpState::SentMutate, Action::Mutate(req))
                },
                OpKind::Update => {
                    if self.config.dry_run {
                        return (OpState::Start, Action::Done(Ok(None)));
                    }
                    let req = HttpRequest {
                        method: Method::Put,
                        url: self.rrset_url(op),
                        headers: self.headers(),
                        body: Some(self.rrset_body(op)),
                    };
                    (OpState::SentMutate, Action::Mutate(req))
                },
                OpKind::Delete => {
                    if self.config.dry_run {
                        return (OpState::Start, Action::Done(Ok(None)));
                    }
                    let req = HttpRequest {
                        method: Method::Delete,
                        url: self.rrset_url(op),
                        headers: self.headers(),
                        body: None,
                    };
                    (OpState::SentMutate, Action::Mutate(req))
                },
            },
            OpState::SentLookup => {
                if !matches!(op.kind, OpKind::Get) {
                    return (
                        OpState::Start,
                        Action::Done(
                            Err(Error::ApiError("unexpected lookup state for this operation".to_owned())),
                        ),
                    );
                }
                let resp = match event {
                    Some(resp) => resp,
                    None => {
                        return (
                            OpState::Start,
                            Action::Done(Err(Error::ApiError("missing response".to_owned()))),
                        );
                    },
                };
                let body = match response_body(&resp) {
                    Ok(b) => b,
                    Err(e) => {
                        return (OpState::Start, Action::Done(Err(e)));
                    },
                };
                let values = match body {
                    Some(b) => match Self::parse_rrset_values(b.as_str()) {
                        Ok(p) => p,
                        Err(e) => {
                            return (OpState::Start, Action::Done(Err(e)));
                        },
                    },
                    // A missing record set is not an error.
                    None => {
                        return (OpState::Start, Action::Done(Ok(None)));
                    },
                };
                match select_single(values) {
                    Ok(found) => (OpState::Start, Action::Done(Ok(found))),
                    Err(e) => (OpState::Start, Action::Done(Err(e))),
                }
            },
            OpState::SentMutate => {
                let resp = match event {
                    Some(resp) => resp,
                    None => {
                        return (
                            OpState::Start,
                            Action::Done(Err(Error::ApiError("missing response".to_owned()))),
                        );
                    },
                };
                // A failed mutation is reported, never swallowed; a 404 on
                // a delete is the soft no-op.
                let checked = match op.kind {
                    OpKind::Delete => check_delete(&resp),
                    _ => check_error(&resp),
                };
                match checked {
                    Ok(()) => (OpState::Start, Action::Done(Ok(None))),
                    Err(e) => (OpState::Start, Action::Done(Err(e))),
                }
            },
        }
    }
}

} // verus!
