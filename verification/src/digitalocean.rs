//! The DigitalOcean adapter: bearer-token auth, no identifier indirection
//! (the domain stands in every URL), lookup filtered upstream by type and
//! fully qualified name, and an update that reports a missing target.

use vstd::prelude::*;
use vstd::string::StringExecFns;

use crate::Config;
use crate::RecordType;
use crate::record_type_from_name;
use crate::spec_rtype_name;
use crate::errors::Error;
use crate::http::HttpRequest;
use crate::http::HttpResponse;
use crate::http::Method;
use crate::http::check_delete;
use crate::http::check_error;
use crate::http::spec_status_success;
use crate::http::json_headers;
use crate::http::push_header;
use crate::http::response_body;
use crate::jsontext::append_json_str;
use crate::jsontext::spec_json_str;
use crate::jsonval::get_array_field;
use crate::jsonval::get_string_field;
use crate::jsonval::get_u64_field;
use crate::jsonval::json_parse;
use crate::op::Action;
use crate::op::Op;
use crate::op::OpKind;
use crate::op::select_single;
use crate::text::append_u64;
use crate::text::spec_dec_digits;

verus! {

/// Authentication credentials for the DigitalOcean API: a bearer token.
#[derive(Clone, Debug)]
pub struct Auth {
    pub key: String,
}

impl Auth {
    /// The value of the `authorization` header this adapter sends.
    pub fn get_header(&self) -> (r: String)
        ensures
            r@ == "Bearer "@ + self.key@,
    {
        let mut h = String::new();
        h.append("Bearer ");
        h.append(self.key.as_str());
        h
    }
}

/// One record as the records endpoint reports it.
pub struct Record {
    pub id: u64,
    pub rtype: RecordType,
    pub name: String,
    pub ttl: u32,
    pub data: String,
}

/// The body sent to create or replace a record.
pub struct CreateUpdate {
    pub rtype: RecordType,
    pub name: String,
    pub ttl: u32,
    pub data: String,
}

/// The JSON text of a `CreateUpdate` body.
pub open spec fn spec_create_update_json(
    rtype: RecordType,
    name: Seq<char>,
    ttl: int,
    data: Seq<char>,
) -> Seq<char> {
    "{\"type\":"@ + spec_json_str(spec_rtype_name(rtype)) + ",\"name\":"@ + spec_json_str(name)
        + ",\"ttl\":"@ + spec_dec_digits(ttl) + ",\"data\":"@ + spec_json_str(data) + "}"@
}

impl CreateUpdate {
    /// Serialize this body as JSON, field by field.
    pub fn to_json(&self) -> (r: String)
        ensures
            r@ == spec_create_update_json(self.rtype, self.name@, self.ttl as int, self.data@),
    {
        let mut out = String::new();
        out.append("{\"type\":");
        append_json_str(&mut out, self.rtype.name());
        out.append(",\"name\":");
        append_json_str(&mut out, self.name.as_str());
        out.append(",\"ttl\":");
        append_u64(&mut out, self.ttl as u64);
        out.append(",\"data\":");
        append_json_str(&mut out, self.data.as_str());
        out.append("}");
        assert(out@ =~= spec_create_update_json(
            self.rtype,
            self.name@,
            self.ttl as int,
            self.data@,
        ));
        out
    }
}

/// The URL records of a domain are listed and created under.
pub open spec fn spec_records_url_of(domain: Seq<char>) -> Seq<char> {
    "https://api.digitalocean.com/v2/domains/"@ + domain + "/records"@
}

/// The lookup URL, filtered upstream by type and fully qualified name.
pub open spec fn spec_lookup_url(domain: Seq<char>, host: Seq<char>, rtype: RecordType) -> Seq<
    char,
> {
    "https://api.digitalocean.com/v2/domains/"@ + domain + "/records?type="@ + spec_rtype_name(
        rtype,
    ) + "&name="@ + host + "."@ + domain
}

/// The URL of one record of a domain.
pub open spec fn spec_record_url_of(domain: Seq<char>, rec: int) -> Seq<char> {
    "https://api.digitalocean.com/v2/domains/"@ + domain + "/records/"@ + spec_dec_digits(rec)
}

/// Where an operation on this adapter stands.
pub enum OpState {
    /// Nothing sent yet.
    Start,
    /// The record-lookup query was sent.
    SentLookup,
    /// The mutating request was sent.
    SentMutate,
}

/// Synchronous DigitalOcean DNS provider adapter.
///
/// Holds configuration and authentication; this provider needs no cached
/// identifier.
pub struct DigitalOcean {
    pub config: Config,
    pub auth: Auth,
}

impl DigitalOcean {
    /// Create a new `DigitalOcean` provider adapter.
    pub fn new(config: Config, auth: Auth) -> (r: DigitalOcean)
        ensures
            r.config == config && r.auth == auth,
    {
        DigitalOcean { config, auth }
    }

    /// The headers every request of this adapter carries.
    fn headers(&self) -> (r: Vec<(String, String)>)
        ensures
            r@.len() == 3,
            r@[2].0@ == "authorization"@,
            r@[2].1@ == "Bearer "@ + self.auth.key@,
    {
        let mut headers = json_headers();
        push_header(&mut headers, "authorization", self.auth.get_header());
        headers
    }

    /// The URL records are listed under and created under.
    fn records_url(&self) -> (r: String)
        ensures
            r@ == "https://api.digitalocean.com/v2/domains/"@ + self.config.domain@
                + "/records"@,
    {
        let mut url = String::new();
        url.append("https://api.digitalocean.com/v2/domains/");
        url.append(self.config.domain.as_str());
        url.append("/records");
        url
    }

    /// The lookup query, filtered upstream by type and fully qualified
    /// name.
    fn lookup_request(&self, op: &Op) -> (r: HttpRequest)
        ensures
            r.method is Get,
            r.url@ == "https://api.digitalocean.com/v2/domains/"@ + self.config.domain@
                + "/records?type="@ + spec_rtype_name(op.rtype) + "&name="@ + op.host@ + "."@
                + self.config.domain@,
            r.body is None,
    {
        let mut url = String::new();
        url.append("https://api.digitalocean.com/v2/domains/");
        url.append(self.config.domain.as_str());
        url.append("/records?type=");
        url.append(op.rtype.name());
        url.append("&name=");
        url.append(op.host.as_str());
        url.append(".");
        url.append(self.config.domain.as_str());
        HttpRequest { method: Method::Get, url, headers: self.headers(), body: None }
    }

    /// The URL of one record.
    fn record_url(&self, id: u64) -> (r: String)
        ensures
            r@ == "https://api.digitalocean.com/v2/domains/"@ + self.config.domain@
                + "/records/"@ + spec_dec_digits(id as int),
    {
        let mut url = String::new();
        url.append("https://api.digitalocean.com/v2/domains/");
        url.append(self.config.domain.as_str());
        url.append("/records/");
        append_u64(&mut url, id);
        url
    }

    /// Decode a lookup response body into its records.
    fn parse_records(body: &str) -> (r: Result<Vec<Record>, Error>) {
        let doc = json_parse(body)?;
        let items = get_array_field(&doc, "domain_records")?;
        let mut records: Vec<Record> = Vec::new();
        let mut i: usize = 0;
        while i < items.len()
            decreases items@.len() - i,
        {
            let item = &items[i];
            let id = get_u64_field(item, "id")?;
            let type_tag = get_string_field(item, "type")?;
            let rtype = match record_type_from_name(type_tag.as_str()) {
                Ok(t) => t,
                Err(_) => {
                    return Err(Error::JsonError("unrecognized record type".to_owned()));
                },
            };
            let name = get_string_field(item, "name")?;
            let ttl = match get_u64_field(item, "ttl") {
                Ok(n) if n <= u32::MAX as u64 => n as u32,
                _ => {
                    return Err(Error::JsonError("record ttl is not a small number".to_owned()));
                },
            };
            let data = get_string_field(item, "data")?;
            records.push(Record { id, rtype, name, ttl, data });
            i += 1;
        }
        Ok(records)
    }

    /// Build the create or replace body for `op`.
    fn body_for(&self, op: &Op) -> (r: String)
        requires
            op.value is Some,
        ensures
            op.value matches Some(v) ==> r@ == spec_create_update_json(
                op.rtype,
                op.host@,
                300,
                v@,
            ),
    {
        let mut data = String::new();
        match &op.value {
            Some(v) => data.append(v.as_str()),
            None => (),
        }
        let body = CreateUpdate { rtype: op.rtype, name: op.host.clone(), ttl: 300, data };
        body.to_json()
    }

    /// Drive one operation one step further: feed `None` first, then feed
    /// each response to the request the previous step asked for, until the
    /// action is `Done`.
    ///
    /// Under `dry_run`, and for every get, no mutating request is ever
    /// emitted. An update whose target does not exist is a reported
    /// not-found error; a delete whose target does not exist is a logged
    /// no-op.
    pub fn op_step(&self, op: &Op, st: OpState, event: Option<HttpResponse>) -> (r: (
        OpState,
        Action,
    ))
        requires
            op.wf(),
            (st is Start) <==> (event is None),
        ensures
            self.config.dry_run ==> !(r.1 is Mutate),
            op.kind is Get ==> !(r.1 is Mutate),
            (st is Start && self.config.dry_run && op.kind is Create) ==> (r.1 matches
                Action::Done(res) && res matches Ok(found) && found is None),
            (st is Start && !self.config.dry_run && op.kind is Create) ==> (r.1 matches
                Action::Mutate(q) && q.method is Post && q.url@ == spec_records_url_of(
                self.config.domain@,
            ) && (q.body matches Some(b) && op.value matches Some(v) && b@
                == spec_create_update_json(op.rtype, op.host@, 300, v@))),
            (st is Start && !(op.kind is Create)) ==> (r.0 is SentLookup && (r.1 matches
                Action::Query(q) && q.method is Get && q.url@ == spec_lookup_url(
                self.config.domain@,
                op.host@,
                op.rtype,
            ))),
            match r.1 {
                Action::Mutate(q) => if st is SentLookup {
                    match op.kind {
                        OpKind::Update => q.method is Put && (q.body matches Some(b)
                            && op.value matches Some(v) && b@ == spec_create_update_json(
                            op.rtype,
                            op.host@,
                            300,
                            v@,
                        )) && (exists|rid: int|
                            q.url@ == #[trigger] spec_record_url_of(
                                self.config.domain@,
                                rid,
                            )),
                        OpKind::Delete => q.method is Delete && q.body is None && (exists|
                            rid: int,
                        |
                            q.url@ == #[trigger] spec_record_url_of(
                                self.config.domain@,
                                rid,
                            )),
                        _ => true,
                    }
                } else {
                    true
                },
                _ => true,
            },
            // This adapter reports an update without a target: a live
            // update never finishes successfully at the lookup step, it
            // either mutates or errors.
            (st is SentLookup && op.kind is Update && !self.config.dry_run) ==> (match r.1 {
                Action::Done(res) => res is Err,
                _ => true,
            }),
            st is SentMutate ==> r.1 is Done,
            (st is SentMutate && (event matches Some(resp) && spec_status_success(
                resp.status,
            ))) ==> (r.1 matches Action::Done(res) && res matches Ok(found) && found is None),
            (st is SentMutate && !(op.kind is Delete) && (event matches Some(resp)
                && !spec_status_success(resp.status))) ==> (r.1 matches Action::Done(res)
                && res is Err),
            (st is SentMutate && op.kind is Delete && (event matches Some(resp) && resp.status
                == 404)) ==> (r.1 matches Action::Done(res) && res matches Ok(found) && found
                is None),
            (st is SentMutate && op.kind is Delete && (event matches Some(resp)
                && !spec_status_success(resp.status) && resp.status != 404)) ==> (r.1 matches
                Action::Done(res) && res is Err),
            !(r.1 is Done) ==> !(r.0 is Start),
            (st is SentLookup && (event matches Some(resp) && resp.status == 404)) ==> (
            match op.kind {
                OpKind::Update => r.1 matches Action::Done(res) && res matches Err(e)
                    && e matches Error::RecordNotFound(h) && h@ == op.host@,
                _ => r.1 matches Action::Done(res) && res matches Ok(found) && found is None,
            }),
            !(op.kind is Get) ==> !(r.1 matches Action::Done(res) && res matches Ok(found)
                && found is Some),
    {
        match st {
            OpState::Start => match op.kind {
                OpKind::Create => {
                    if self.config.dry_run {
                        return (OpState::Start, Action::Done(Ok(None)));
                    }
                    let req = HttpRequest {
                        method: Method::Post,
                        url: self.records_url(),
                        headers: self.headers(),
                        body: Some(self.body_for(op)),
                    };
                    (OpState::SentMutate, Action::Mutate(req))
                },
                _ => (OpState::SentLookup, Action::Query(self.lookup_request(op))),
            },
            OpState::SentLookup => {
                let resp = match event {
                    Some(resp) => resp,
                    None => {
                        return (
                            OpState::Start,
                            Action::Done(Err(Error::ApiError("missing response".to_owned()))),
                        );
                    },
                };
                let body = match response_body(&resp) {
                    Ok(b) => b,
                    Err(e) => {
                        return (OpState::Start, Action::Done(Err(e)));
                    },
                };
                let records = match body {
                    Some(b) => match Self::parse_records(b.as_str()) {
                        Ok(p) => p,
                        Err(e) => {
                            return (OpState::Start, Action::Done(Err(e)));
                        },
                    },
                    // A 404 means no matching record.
                    None => Vec::new(),
                };
                let found = match select_single(records) {
                    Ok(f) => f,
                    Err(e) => {
                        return (OpState::Start, Action::Done(Err(e)));
                    },
                };
                match op.kind {
                    OpKind::Get => match found {
                        Some(rec) => (OpState::Start, Action::Done(Ok(Some(rec.data)))),
                        None => (OpState::Start, Action::Done(Ok(None))),
                    },
                    OpKind::Update => match found {
                        Some(rec) => {
                            if self.config.dry_run {
                                return (OpState::Start, Action::Done(Ok(None)));
                            }
                            let req = HttpRequest {
                                method: Method::Put,
                                url: self.record_url(rec.id),
                                headers: self.headers(),
                                body: Some(self.body_for(op)),
                            };
                            proof {
                                assert(req.url@ == spec_record_url_of(
                                    self.config.domain@,
                                    rec.id as int,
                                ));
                            }
                            (OpState::SentMutate, Action::Mutate(req))
                        },
                        // This provider reports an update without a target.
                        None => (
                            OpState::Start,
                            Action::Done(Err(Error::RecordNotFound(host_text(op)))),
                        ),
                    },
                    _ => match found {
                        Some(rec) => {
                            if self.config.dry_run {
                                return (OpState::Start, Action::Done(Ok(None)));
                            }
                            let req = HttpRequest {
                                method: Method::Delete,
                                url: self.record_url(rec.id),
                                headers: self.headers(),
                                body: None,
                            };
                            proof {
                                assert(req.url@ == spec_record_url_of(
                                    self.config.domain@,
                                    rec.id as int,
                                ));
                            }
                            (OpState::SentMutate, Action::Mutate(req))
                        },
                        // Deleting a record that does not exist is a logged
                        // no-op, not an error.
                        None => (OpState::Start, Action::Done(Ok(None))),
                    },
                }
            },
            OpState::SentMutate => {
                let resp = match event {
                    Some(resp) => resp,
                    None => {
                        return (
                            OpState::Start,
                            Action::Done(Err(Error::ApiError("missing response".to_owned()))),
                        );
                    },
                };
                // A failed mutation is reported, never swallowed; a 404 on
                // a delete is the soft no-op.
                let checked = match op.kind {
                    OpKind::Delete => check_delete(&resp),
                    _ => check_error(&resp),
                };
                match checked {
                    Ok(()) => (OpState::Start, Action::Done(Ok(None))),
                    Err(e) => (OpState::Start, Action::Done(Err(e))),
                }
            },
        }
    }
}

/// The host an operation names, as an owned string for error reports.
fn host_text(op: &Op) -> (r: String)
    ensures
        r@ == op.host@,
{
    op.host.clone()
}

} // verus!
