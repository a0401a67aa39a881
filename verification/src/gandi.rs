//! The Gandi adapter: key or personal-access-token auth, no identifier
//! indirection (records are addressed by domain, host and type directly),
//! and a create that is the same PUT as an update.

use vstd::prelude::*;
use vstd::string::StringExecFns;

use crate::Config;
use crate::RecordType;
use crate::spec_rtype_name;
use crate::errors::Error;
use crate::http::HttpRequest;
use crate::http::HttpResponse;
use crate::http::Method;
use crate::http::check_delete;
use crate::http::check_error;
use crate::http::spec_status_success;
use crate::http::json_headers;
use crate::http::push_header;
use crate::http::response_body;
use crate::jsontext::append_json_str_array;
use crate::jsontext::spec_json_str_array;
use crate::jsonval::get_array_field;
use crate::jsonval::get_string_field;
use crate::jsonval::json_as_string;
use crate::jsonval::json_parse;
use crate::op::Action;
use crate::op::Op;
use crate::op::OpKind;
use crate::op::select_single;
use crate::text::append_u64;
use crate::text::spec_dec_digits;

verus! {

/// Authentication options for the Gandi provider: the legacy API key or a
/// personal access token, each with its own header scheme.
#[derive(Debug)]
pub enum Auth {
    ApiKey(String),
    PatKey(String),
}

impl Clone for Auth {
    /// A clone carries the same credentials.
    fn clone(&self) -> (r: Auth)
        ensures
            r == *self,
    {
        match self {
            Auth::ApiKey(key) => Auth::ApiKey(key.clone()),
            Auth::PatKey(key) => Auth::PatKey(key.clone()),
        }
    }
}

impl Auth {
    /// The value of the `authorization` header this adapter sends.
    pub fn get_header(&self) -> (r: String)
        ensures
            match self {
                Auth::ApiKey(key) => r@ == "Apikey "@ + key@,
                Auth::PatKey(key) => r@ == "Bearer "@ + key@,
            },
    {
        let mut h = String::new();
        match self {
            Auth::ApiKey(key) => {
                h.append("Apikey ");
                h.append(key.as_str());
            },
            Auth::PatKey(key) => {
                h.append("Bearer ");
                h.append(key.as_str());
            },
        }
        h
    }
}

/// One record set as the records endpoint reports it.
pub struct Record {
    pub rrset_name: String,
    pub rrset_type: String,
    pub rrset_values: Vec<String>,
    pub rrset_href: String,
    pub rrset_ttl: Option<u32>,
}

/// The body sent to create or replace a record set.
pub struct RecordUpdate {
    pub rrset_values: Vec<String>,
    pub rrset_ttl: Option<u32>,
}

/// The JSON text of a `RecordUpdate` body.
pub open spec fn spec_record_update_json(values: Seq<String>, ttl: Option<u32>) -> Seq<char> {
    "{\"rrset_values\":"@ + spec_json_str_array(values) + ",\"rrset_ttl\":"@ + (match ttl {
        Some(t) => spec_dec_digits(t as int),
        None => "null"@,
    }) + "}"@
}

impl RecordUpdate {
    /// Serialize this body as JSON, field by field.
    pub fn to_json(&self) -> (r: String)
        ensures
            r@ == spec_record_update_json(self.rrset_values@, self.rrset_ttl),
    {
        let mut out = String::new();
        out.append("{\"rrset_values\":");
        append_json_str_array(&mut out, &self.rrset_values);
        out.append(",\"rrset_ttl\":");
        match &self.rrset_ttl {
            Some(t) => append_u64(&mut out, *t as u64),
            None => out.append("null"),
        }
        out.append("}");
        assert(out@ =~= spec_record_update_json(self.rrset_values@, self.rrset_ttl));
        out
    }
}

/// The URL addressing the record set `(host, rtype)` under a domain.
pub open spec fn spec_rrset_url(domain: Seq<char>, host: Seq<char>, rtype: RecordType) -> Seq<
    char,
> {
    "https://api.gandi.net/v5/livedns/domains/"@ + domain + "/records/"@ + host + "/"@
        + spec_rtype_name(rtype)
}

/// Where an operation on this adapter stands.
pub enum OpState {
    /// Nothing sent yet.
    Start,
    /// The record-set query was sent.
    SentLookup,
    /// The mutating request was sent.
    SentMutate,
}

/// Synchronous Gandi DNS provider adapter.
///
/// Holds configuration and authentication; this provider needs no cached
/// identifier.
pub struct Gandi {
    pub config: Config,
    pub auth: Auth,
}

impl Gandi {
    /// Create a new `Gandi` provider adapter.
    pub fn new(config: Config, auth: Auth) -> (r: Gandi)
        ensures
            r.config == config && r.auth == auth,
    {
        Gandi { config, auth }
    }

    /// The headers every request of this adapter carries.
    fn headers(&self) -> (r: Vec<(String, String)>)
        ensures
            r@.len() == 3,
            r@[2].0@ == "authorization"@,
    {
        let mut headers = json_headers();
        push_header(&mut headers, "authorization", self.auth.get_header());
        headers
    }

    /// The URL addressing the record set `(host, rtype)` under the domain;
    /// lookups, replacements and deletions all use it.
    fn rrset_url(&self, op: &Op) -> (r: String)
        ensures
            r@ == "https://api.gandi.net/v5/livedns/domains/"@ + self.config.domain@
                + "/records/"@ + op.host@ + "/"@ + spec_rtype_name(op.rtype),
    {
        let mut url = String::new();
        url.append("https://api.gandi.net/v5/livedns/domains/");
        url.append(self.config.domain.as_str());
        url.append("/records/");
        url.append(op.host.as_str());
        url.append("/");
        url.append(op.rtype.name());
        url
    }

    /// Decode a record-set response body; only the values are consumed.
    fn parse_rrset(body: &str) -> (r: Result<Record, Error>) {
        let doc = json_parse(body)?;
        let rrset_name = get_string_field(&doc, "rrset_name")?;
        let rrset_type = get_string_field(&doc, "rrset_type")?;
        let rrset_href = get_string_field(&doc, "rrset_href")?;
        let items = get_array_field(&doc, "rrset_values")?;
        let mut rrset_values: Vec<String> = Vec::new();
        let mut i: usize = 0;
        while i < items.len()
            decreases items@.len() - i,
        {
            match json_as_string(&items[i]) {
                Some(s) => rrset_values.push(s),
                None => {
                    return Err(Error::JsonError("record value is not a string".to_owned()));
                },
            }
            i += 1;
        }
        Ok(Record { rrset_name, rrset_type, rrset_values, rrset_href, rrset_ttl: None })
    }

    /// Build the PUT that creates or replaces the record set; both
    /// operations share it.
    fn put_request(&self, op: &Op) -> (r: HttpRequest)
        requires
            op.value is Some,
        ensures
            r.method is Put,
            r.url@ == spec_rrset_url(self.config.domain@, op.host@, op.rtype),
            (r.body matches Some(b) && op.value matches Some(v) && b@ == spec_record_update_json(
                seq![v],
                Some(300u32),
            )),
    {
        let mut values: Vec<String> = Vec::new();
        match &op.value {
            Some(v) => values.push(v.clone()),
            None => (),
        }
        let update = RecordUpdate { rrset_values: values, rrset_ttl: Some(300) };
        let body = update.to_json();
        HttpRequest {
            method: Method::Put,
            url: self.rrset_url(op),
            headers: self.headers(),
            body: Some(body),
        }
    }

    /// Drive one operation one step further: feed `None` first, then feed
    /// each response to the request the previous step asked for, until the
    /// action is `Done`.
    ///
    /// Under `dry_run`, and for every get, no mutating request is ever
    /// emitted. A create is the same replacement PUT as an update.
    pub fn op_step(&self, op: &Op, st: OpState, event: Option<HttpResponse>) -> (r: (
        OpState,
        Action,
    ))
        requires
            op.wf(),
            (st is Start) <==> (event is None),
        ensures
            self.config.dry_run ==> !(r.1 is Mutate),
            op.kind is Get ==> !(r.1 is Mutate),
            (st is Start && self.config.dry_run && !(op.kind is Get)) ==> (r.1 matches
                Action::Done(res) && res matches Ok(found) && found is None),
            (st is Start && op.kind is Get) ==> (r.0 is SentLookup && (r.1 matches
                Action::Query(q) && q.method is Get && q.url@ == spec_rrset_url(
                self.config.domain@,
                op.host@,
                op.rtype,
            ))),
            (st is Start && !self.config.dry_run && (op.kind is Create || op.kind is Update))
                ==> (r.1 matches Action::Mutate(q) && q.method is Put && q.url@
                == spec_rrset_url(self.config.domain@, op.host@, op.rtype) && (q.body matches
                Some(b) && op.value matches Some(v) && b@ == spec_record_update_json(
                seq![v],
                Some(300u32),
            ))),
            (st is Start && !self.config.dry_run && op.kind is Delete) ==> (r.1 matches
                Action::Mutate(q) && q.method is Delete && q.body is None && q.url@
                == spec_rrset_url(self.config.domain@, op.host@, op.rtype)),
            st is SentLookup ==> !(r.1 is Mutate),
            st is SentMutate ==> r.1 is Done,
            (st is SentMutate && (event matches Some(resp) && spec_status_success(
                resp.status,
            ))) ==> (r.1 matches Action::Done(res) && res matches Ok(found) && found is None),
            (st is SentMutate && !(op.kind is Delete) && (event matches Some(resp)
                && !spec_status_success(resp.status))) ==> (r.1 matches Action::Done(res)
                && res is Err),
            (st is SentMutate && op.kind is Delete && (event matches Some(resp) && resp.status
                == 404)) ==> (r.1 matches Action::Done(res) && res matches Ok(found) && found
                is None),
            (st is SentMutate && op.kind is Delete && (event matches Some(resp)
                && !spec_status_success(resp.status) && resp.status != 404)) ==> (r.1 matches
                Action::Done(res) && res is Err),
            !(r.1 is Done) ==> !(r.0 is Start),
            (op.kind is Get && st is SentLookup && (event matches Some(resp)
                && resp.status == 404)) ==> (r.1 matches Action::Done(res) && res matches Ok(
                found,
            ) && found is None),
            !(op.kind is Get) ==> !(r.1 matches Action::Done(res) && res matches Ok(found)
                && found is Some),
    {
        match st {
            OpState::Start => match op.kind {
                OpKind::Get => {
                    let req = HttpRequest {
                        method: Method::Get,
                        url: self.rrset_url(op),
                        headers: self.headers(),
                        body: None,
                    };
                    (OpState::SentLookup, Action::Query(req))
                },
                OpKind::Create | OpKind::Update => {
                    if self.config.dry_run {
                        return (OpState::Start, Action::Done(Ok(None)));
                    }
                    (OpState::SentMutate, Action::Mutate(self.put_request(op)))
                },
                OpKind::Delete => {
                    if self.config.dry_run {
                        return (OpState::Start, Action::Done(Ok(None)));
                    }
                    let req = HttpRequest {
                        method: Method::Delete,
                        url: self.rrset_url(op),
                        headers: self.headers(),
                        body: None,
                    };
                    (OpState::SentMutate, Action::Mutate(req))
                },
            },
            OpState::SentLookup => {
                if !matches!(op.kind, OpKind::Get) {
                    return (
                        OpState::Start,
                        Action::Done(
                            Err(Error::ApiError("unexpected lookup state for this operation".to_owned())),
                        ),
                    );
                }
                let resp = match event {
                    Some(resp) => resp,
                    None => {
                        return (
                            OpState::Start,
                            Action::Done(Err(Error::ApiError("missing response".to_owned()))),
                        );
                    },
                };
                let body = match response_body(&resp) {
                    Ok(b) => b,
                    Err(e) => {
                        return (OpState::Start, Action::Done(Err(e)));
                    },
                };
                let rec = match body {
                    Some(b) => match Self::parse_rrset(b.as_str()) {
                        Ok(p) => p,
                        Err(e) => {
                            return (OpState::Start, Action::Done(Err(e)));
                        },
                    },
                    // A missing record set is not an error.
                    None => {
                        return (OpState::Start, Action::Done(Ok(None)));
                    },
                };
                match select_single(rec.rrset_values) {
                    Ok(found) => (OpState::Start, Action::Done(Ok(found))),
                    Err(e) => (OpState::Start, Action::Done(Err(e))),
                }
            },
            OpState::SentMutate => {
                let resp = match event {
                    Some(resp) => resp,
                    None => {
                        return (
                            OpState::Start,
                            Action::Done(Err(Error::ApiError("missing response".to_owned()))),
                        );
                    },
                };
                // A failed mutation is reported, never swallowed; a 404 on
                // a delete is the soft no-op.
                let checked = match op.kind {
                    OpKind::Delete => check_delete(&resp),
                    _ => check_error(&resp),
                };
                match checked {
                    Ok(()) => (OpState::Start, Action::Done(Ok(None))),
                    Err(e) => (OpState::Start, Action::Done(Err(e))),
                }
            },
        }
    }
}

} // verus!
