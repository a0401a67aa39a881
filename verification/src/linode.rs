//! The Linode adapter: bearer-token auth, a cached domain identifier found
//! by filtering the domain list, and a records endpoint that cannot filter
//! by type, so matching happens on this side.

use vstd::prelude::*;
use vstd::string::StringExecFns;

use crate::Config;
use crate::RecordType;
use crate::spec_rtype_name;
use crate::errors::Error;
use crate::http::HttpRequest;
use crate::http::HttpResponse;
use crate::http::Method;
use crate::http::check_delete;
use crate::http::check_error;
use crate::http::spec_status_success;
use crate::http::json_headers;
use crate::http::push_header;
use crate::http::response_body;
use crate::jsontext::append_json_str;
use crate::jsontext::spec_json_str;
use crate::jsonval::get_array_field;
use crate::jsonval::get_string_field;
use crate::jsonval::get_u64_field;
use crate::jsonval::json_as_string;
use crate::jsonval::json_get;
use crate::jsonval::json_parse;
use crate::op::Action;
use crate::op::Op;
use crate::op::OpKind;
use crate::op::select_single;
use crate::text::append_u64;
use crate::text::spec_dec_digits;
use crate::text::str_eq;

verus! {

/// Authentication credentials for the Linode API: a bearer token.
#[derive(Clone, Debug)]
pub struct Auth {
    pub key: String,
}

impl Auth {
    /// The value of the `authorization` header this adapter sends.
    pub fn get_header(&self) -> (r: String)
        ensures
            r@ == "Bearer "@ + self.key@,
    {
        let mut h = String::new();
        h.append("Bearer ");
        h.append(self.key.as_str());
        h
    }
}

/// One domain as the domain-list endpoint reports it.
pub struct Domain {
    pub id: u64,
    pub domain: String,
}

/// One record as the records endpoint reports it.
pub struct Record {
    pub id: u64,
    pub name: String,
    pub target: String,
    pub rtype: String,
}

/// The body sent to create or replace a record.
pub struct CreateUpdate {
    pub name: String,
    pub target: String,
    pub ttl_sec: u64,
    pub rtype: RecordType,
}

/// The JSON text of a `CreateUpdate` body.
pub open spec fn spec_create_update_json(
    name: Seq<char>,
    target: Seq<char>,
    ttl_sec: int,
    rtype: RecordType,
) -> Seq<char> {
    "{\"name\":"@ + spec_json_str(name) + ",\"target\":"@ + spec_json_str(target)
        + ",\"ttl_sec\":"@ + spec_dec_digits(ttl_sec) + ",\"type\":"@ + spec_json_str(
        spec_rtype_name(rtype),
    ) + "}"@
}

impl CreateUpdate {
    /// Serialize this body as JSON, field by field.
    pub fn to_json(&self) -> (r: String)
        ensures
            r@ == spec_create_update_json(
                self.name@,
                self.target@,
                self.ttl_sec as int,
                self.rtype,
            ),
    {
        let mut out = String::new();
        out.append("{\"name\":");
        append_json_str(&mut out, self.name.as_str());
        out.append(",\"target\":");
        append_json_str(&mut out, self.target.as_str());
        out.append(",\"ttl_sec\":");
        append_u64(&mut out, self.ttl_sec);
        out.append(",\"type\":");
        append_json_str(&mut out, self.rtype.name());
        out.append("}");
        assert(out@ =~= spec_create_update_json(
            self.name@,
            self.target@,
            self.ttl_sec as int,
            self.rtype,
        ));
        out
    }
}

/// The URL records of a resolved domain are listed and created under.
pub open spec fn spec_records_url_of(domain_id: int) -> Seq<char> {
    "https://api.linode.com/v4/domains/"@ + spec_dec_digits(domain_id) + "/records"@
}

/// The URL of one record of a resolved domain.
pub open spec fn spec_record_url_of(domain_id: int, rec: int) -> Seq<char> {
    "https://api.linode.com/v4/domains/"@ + spec_dec_digits(domain_id) + "/records/"@
        + spec_dec_digits(rec)
}

/// The first domain of the list whose name is `name`, if any.
pub fn find_domain(domains: &Vec<Domain>, name: &str) -> (r: Option<Domain>)
    ensures
        match r {
            Some(d) => d.domain@ == name@ && (exists|i: int|
                0 <= i < domains@.len() && #[trigger] domains@[i] == d),
            None => forall|i: int| 0 <= i < domains@.len() ==> #[trigger] domains@[i].domain@
                != name@,
        },
{
    let mut i: usize = 0;
    while i < domains.len()
        invariant
            i <= domains@.len(),
            forall|j: int| 0 <= j < i ==> #[trigger] domains@[j].domain@ != name@,
        decreases domains@.len() - i,
    {
        if str_eq(domains[i].domain.as_str(), name) {
            let d = Domain { id: domains[i].id, domain: domains[i].domain.clone() };
            proof {
                assert(domains@[i as int] == d);
            }
            return Some(d);
        }
        i += 1;
    }
    None
}

/// Where an operation on this adapter stands.
pub enum OpState {
    /// Nothing sent yet.
    Start,
    /// The domain-list query was sent.
    SentZone,
    /// The record-list query was sent; the domain identifier it used.
    SentLookup(u64),
    /// The mutating request was sent.
    SentMutate,
}

/// Synchronous Linode DNS provider adapter.
///
/// Holds the configuration, the credentials, and the lazily resolved
/// domain identifier, cached for the adapter's lifetime.
pub struct Linode {
    pub config: Config,
    pub auth: Auth,
    pub domain_id: Option<u64>,
}

impl Linode {
    /// Create a new `Linode` provider adapter; its identifier cache starts
    /// empty.
    pub fn new(config: Config, auth: Auth) -> (r: Linode)
        ensures
            r.config == config && r.auth == auth,
            r.get_domain_id() is None,
    {
        Linode { config, auth, domain_id: None }
    }

    /// The cached domain identifier: empty until the first operation that
    /// needs it resolves it, then fixed for this adapter's lifetime.
    pub open spec fn get_domain_id(&self) -> Option<u64> {
        self.domain_id
    }

    /// The cached domain identifier's value; zero while unresolved.
    pub open spec fn spec_domain_val(&self) -> int {
        match self.domain_id {
            Some(id) => id as int,
            None => 0,
        }
    }

    /// The headers every request of this adapter carries.
    fn headers(&self) -> (r: Vec<(String, String)>)
        ensures
            r@.len() == 3,
            r@[2].0@ == "authorization"@,
            r@[2].1@ == "Bearer "@ + self.auth.key@,
    {
        let mut headers = json_headers();
        push_header(&mut headers, "authorization", self.auth.get_header());
        headers
    }

    /// The domain-list query.
    fn domains_request(&self) -> (r: HttpRequest)
        ensures
            r.method is Get,
            r.url@ == "https://api.linode.com/v4/domains"@,
            r.body is None,
    {
        let mut url = String::new();
        url.append("https://api.linode.com/v4/domains");
        HttpRequest { method: Method::Get, url, headers: self.headers(), body: None }
    }

    /// Decode the domain-list response body.
    fn parse_domains(body: &str) -> (r: Result<Vec<Domain>, Error>) {
        let doc = json_parse(body)?;
        let items = get_array_field(&doc, "data")?;
        let mut domains: Vec<Domain> = Vec::new();
        let mut i: usize = 0;
        while i < items.len()
            decreases items@.len() - i,
        {
            let item = &items[i];
            let id = get_u64_field(item, "id")?;
            let domain = get_string_field(item, "domain")?;
            domains.push(Domain { id, domain });
            i += 1;
        }
        Ok(domains)
    }

    /// The URL records are listed under and created under.
    fn records_url(&self, domain_id: u64) -> (r: String)
        ensures
            r@ == "https://api.linode.com/v4/domains/"@ + spec_dec_digits(domain_id as int)
                + "/records"@,
    {
        let mut url = String::new();
        url.append("https://api.linode.com/v4/domains/");
        append_u64(&mut url, domain_id);
        url.append("/records");
        url
    }

    /// The URL of one record.
    fn record_url(&self, domain_id: u64, rec_id: u64) -> (r: String)
        ensures
            r@ == "https://api.linode.com/v4/domains/"@ + spec_dec_digits(domain_id as int)
                + "/records/"@ + spec_dec_digits(rec_id as int),
    {
        let mut url = String::new();
        url.append("https://api.linode.com/v4/domains/");
        append_u64(&mut url, domain_id);
        url.append("/records/");
        append_u64(&mut url, rec_id);
        url
    }

    /// Decode the record-list response and keep the records matching the
    /// wanted type and host. The endpoint returns every record of the
    /// zone in one mixed-type array, so the filtering happens here: an
    /// entry whose type is not a string is skipped, an entry that matches
    /// is decoded fully.
    fn matching_records(body: &str, op: &Op) -> (r: Result<Vec<Record>, Error>) {
        let doc = json_parse(body)?;
        let items = get_array_field(&doc, "data")?;
        let mut records: Vec<Record> = Vec::new();
        let mut i: usize = 0;
        while i < items.len()
            decreases items@.len() - i,
        {
            let item = &items[i];
            let type_matches = match json_get(item, "type") {
                Some(t) => match json_as_string(t) {
                    Some(tag) => str_eq(tag.as_str(), op.rtype.name()),
                    None => false,
                },
                None => false,
            };
            let name_matches = match json_get(item, "name") {
                Some(n) => match json_as_string(n) {
                    Some(name) => str_eq(name.as_str(), op.host.as_str()),
                    None => false,
                },
                None => false,
            };
            if type_matches && name_matches {
                let id = get_u64_field(item, "id")?;
                let name = get_string_field(item, "name")?;
                let target = get_string_field(item, "target")?;
                let rtype = get_string_field(item, "type")?;
                records.push(Record { id, name, target, rtype });
            }
            i += 1;
        }
        Ok(records)
    }

    /// With the domain identifier at hand, either finish (create under
    /// dry-run), emit the mutating create request, or emit the record
    /// lookup every other operation starts with.
    fn dispatch_with_id(&self, op: &Op, domain_id: u64) -> (r: (OpState, Action))
        requires
            op.wf(),
        ensures
            self.config.dry_run ==> !(r.1 is Mutate),
            op.kind is Get ==> !(r.1 is Mutate),
            !(r.0 is SentZone),
            !(op.kind is Get) ==> !(r.1 matches Action::Done(res) && res matches Ok(found)
                && found is Some),
            (self.config.dry_run && op.kind is Create) ==> (r.1 matches Action::Done(res)
                && res matches Ok(found) && found is None),
            (!self.config.dry_run && op.kind is Create) ==> (r.1 matches Action::Mutate(q)
                && q.method is Post && q.url@ == spec_records_url_of(domain_id as int) && (
            q.body matches Some(b) && op.value matches Some(v) && b@ == spec_create_update_json(
                op.host@,
                v@,
                300,
                op.rtype,
            ))),
            !(op.kind is Create) ==> (r.0 is SentLookup && (r.1 matches Action::Query(q)
                && q.method is Get)),
            !(r.1 is Done) ==> !(r.0 is Start),
    {
        match op.kind {
            OpKind::Create => {
                if self.config.dry_run {
                    return (OpState::Start, Action::Done(Ok(None)));
                }
                let rec = CreateUpdate {
                    name: op.host.clone(),
                    target: clone_value(&op.value),
                    ttl_sec: 300,
                    rtype: op.rtype,
                };
                let req = HttpRequest {
                    method: Method::Post,
                    url: self.records_url(domain_id),
                    headers: self.headers(),
                    body: Some(rec.to_json()),
                };
                (OpState::SentMutate, Action::Mutate(req))
            },
            _ => {
                let req = HttpRequest {
                    method: Method::Get,
                    url: self.records_url(domain_id),
                    headers: self.headers(),
                    body: None,
                };
                (OpState::SentLookup(domain_id), Action::Query(req))
            },
        }
    }

    /// Drive one operation one step further: feed `None` first, then feed
    /// each response to the request the previous step asked for, until the
    /// action is `Done`.
    ///
    /// The identifier cache only ever fills, and the domain-list query is
    /// emitted only while it is empty (single-flight, marked by the
    /// `SentZone` state). Under `dry_run`, and for every get, no mutating
    /// request is ever emitted.
    pub fn op_step(&mut self, op: &Op, st: OpState, event: Option<HttpResponse>) -> (r: (
        OpState,
        Action,
    ))
        requires
            op.wf(),
            (st is Start) <==> (event is None),
        ensures
            final(self).config == old(self).config,
            final(self).auth == old(self).auth,
            old(self).get_domain_id() is Some ==> final(self).get_domain_id() == old(
                self,
            ).get_domain_id(),
            r.0 is SentZone ==> old(self).get_domain_id() is None,
            (st is Start && old(self).get_domain_id() is None) ==> (r.0 is SentZone && (
            r.1 matches Action::Query(q) && q.method is Get && q.url@
                == "https://api.linode.com/v4/domains"@)),
            (st is SentZone && (match r.1 {
                Action::Done(res) => !(res is Err),
                _ => true,
            })) ==> final(self).get_domain_id() is Some,
            old(self).config.dry_run ==> !(r.1 is Mutate),
            op.kind is Get ==> !(r.1 is Mutate),
            (st is Start && old(self).get_domain_id() is Some && !(op.kind is Create))
                ==> (r.0 is SentLookup && (r.1 matches Action::Query(q) && q.method
                is Get)),
            (st is Start && old(self).get_domain_id() is Some && old(self).config.dry_run
                && op.kind is Create) ==> (r.1 matches Action::Done(res) && res matches Ok(
                found,
            ) && found is None),
            (st is Start && old(self).get_domain_id() is Some && !old(self).config.dry_run
                && op.kind is Create) ==> (r.1 matches Action::Mutate(q) && q.method is Post
                && q.url@ == spec_records_url_of(old(self).spec_domain_val()) && (q.body
                matches Some(b) && op.value matches Some(v) && b@ == spec_create_update_json(
                op.host@,
                v@,
                300,
                op.rtype,
            ))),
            match r.1 {
                Action::Mutate(q) => match st {
                    OpState::SentLookup(did) => match op.kind {
                        OpKind::Update => q.method is Put && (q.body matches Some(b)
                            && op.value matches Some(v) && b@ == spec_create_update_json(
                            op.host@,
                            v@,
                            300,
                            op.rtype,
                        )) && (exists|rid: int|
                            q.url@ == #[trigger] spec_record_url_of(did as int, rid)),
                        OpKind::Delete => q.method is Delete && q.body is None && (exists|
                            rid: int,
                        |
                            q.url@ == #[trigger] spec_record_url_of(did as int, rid)),
                        _ => true,
                    },
                    _ => true,
                },
                _ => true,
            },
            // This adapter reports an update without a target: a live
            // update never finishes successfully at the lookup step, it
            // either mutates or errors.
            (st is SentLookup && op.kind is Update && !old(self).config.dry_run) ==> (
            match r.1 {
                Action::Done(res) => res is Err,
                _ => true,
            }),
            st is SentMutate ==> r.1 is Done,
            (st is SentMutate && (event matches Some(resp) && spec_status_success(
                resp.status,
            ))) ==> (r.1 matches Action::Done(res) && res matches Ok(found) && found is None),
            (st is SentMutate && !(op.kind is Delete) && (event matches Some(resp)
                && !spec_status_success(resp.status))) ==> (r.1 matches Action::Done(res)
                && res is Err),
            (st is SentMutate && op.kind is Delete && (event matches Some(resp) && resp.status
                == 404)) ==> (r.1 matches Action::Done(res) && res matches Ok(found) && found
                is None),
            (st is SentMutate && op.kind is Delete && (event matches Some(resp)
                && !spec_status_success(resp.status) && resp.status != 404)) ==> (r.1 matches
                Action::Done(res) && res is Err),
            !(r.1 is Done) ==> !(r.0 is Start),
            (st is SentLookup && (event matches Some(resp) && resp.status == 404)) ==> (
            match op.kind {
                OpKind::Update => r.1 matches Action::Done(res) && res matches Err(e)
                    && e matches Error::RecordNotFound(h) && h@ == op.host@,
                _ => r.1 matches Action::Done(res) && res matches Ok(found) && found is None,
            }),
            !(op.kind is Get) ==> !(r.1 matches Action::Done(res) && res matches Ok(found)
                && found is Some),
    {
        match st {
            OpState::Start => {
                let did = match self.domain_id {
                    Some(id) => id,
                    None => {
                        return (OpState::SentZone, Action::Query(self.domains_request()));
                    },
                };
                self.dispatch_with_id(op, did)
            },
            OpState::SentZone => {
                let resp = match event {
                    Some(resp) => resp,
                    None => {
                        return (
                            OpState::Start,
                            Action::Done(Err(Error::ApiError("missing response".to_owned()))),
                        );
                    },
                };
                let body = match response_body(&resp) {
                    Ok(b) => b,
                    Err(e) => {
                        return (OpState::Start, Action::Done(Err(e)));
                    },
                };
                let domains = match body {
                    Some(b) => match Self::parse_domains(b.as_str()) {
                        Ok(p) => p,
                        Err(e) => {
                            return (OpState::Start, Action::Done(Err(e)));
                        },
                    },
                    None => {
                        return (
                            OpState::Start,
                            Action::Done(
                                Err(Error::ApiError("No domains returned from upstream".to_owned())),
                            ),
                        );
                    },
                };
                let id = match find_domain(&domains, self.config.domain.as_str()) {
                    Some(d) => d.id,
                    None => {
                        return (
                            OpState::Start,
                            Action::Done(Err(Error::RecordNotFound(self.config.domain.clone()))),
                        );
                    },
                };
                // Re-check the cache before storing: an already-resolved
                // identifier wins.
                let did = match self.domain_id {
                    Some(existing) => existing,
                    None => {
                        self.domain_id = Some(id);
                        id
                    },
                };
                self.dispatch_with_id(op, did)
            },
            OpState::SentLookup(domain_id) => {
                let resp = match event {
                    Some(resp) => resp,
                    None => {
                        return (
                            OpState::Start,
                            Action::Done(Err(Error::ApiError("missing response".to_owned()))),
                        );
                    },
                };
                let body = match response_body(&resp) {
                    Ok(b) => b,
                    Err(e) => {
                        return (OpState::Start, Action::Done(Err(e)));
                    },
                };
                let records = match body {
                    Some(b) => match Self::matching_records(b.as_str(), op) {
                        Ok(p) => p,
                        Err(e) => {
                            return (OpState::Start, Action::Done(Err(e)));
                        },
                    },
                    // A missing record list is not an error, but an update
                    // still reports its missing target.
                    None => {
                        return match op.kind {
                            OpKind::Update => (
                                OpState::Start,
                                Action::Done(Err(Error::RecordNotFound(op.host.clone()))),
                            ),
                            _ => (OpState::Start, Action::Done(Ok(None))),
                        };
                    },
                };
                let found = match select_single(records) {
                    Ok(f) => f,
                    Err(e) => {
                        return (OpState::Start, Action::Done(Err(e)));
                    },
                };
                match op.kind {
                    OpKind::Get => match found {
                        Some(rec) => (OpState::Start, Action::Done(Ok(Some(rec.target)))),
                        None => (OpState::Start, Action::Done(Ok(None))),
                    },
                    OpKind::Update => match found {
                        Some(rec) => {
                            if self.config.dry_run {
                                return (OpState::Start, Action::Done(Ok(None)));
                            }
                            let body = CreateUpdate {
                                name: op.host.clone(),
                                target: clone_value(&op.value),
                                ttl_sec: 300,
                                rtype: op.rtype,
                            };
                            let req = HttpRequest {
                                method: Method::Put,
                                url: self.record_url(domain_id, rec.id),
                                headers: self.headers(),
                                body: Some(body.to_json()),
                            };
                            proof {
                                assert(req.url@ == spec_record_url_of(
                                    domain_id as int,
                                    rec.id as int,
                                ));
                            }
                            (OpState::SentMutate, Action::Mutate(req))
                        },
                        // This provider reports an update without a target.
                        None => (
                            OpState::Start,
                            Action::Done(Err(Error::RecordNotFound(op.host.clone()))),
                        ),
                    },
                    _ => match found {
                        Some(rec) => {
                            if self.config.dry_run {
                                return (OpState::Start, Action::Done(Ok(None)));
                            }
                            let req = HttpRequest {
                                method: Method::Delete,
                                url: self.record_url(domain_id, rec.id),
                                headers: self.headers(),
                                body: None,
                            };
                            proof {
                                assert(req.url@ == spec_record_url_of(
                                    domain_id as int,
                                    rec.id as int,
                                ));
                            }
                            (OpState::SentMutate, Action::Mutate(req))
                        },
                        // Deleting a record that does not exist is a logged
                        // no-op, not an error.
                        None => (OpState::Start, Action::Done(Ok(None))),
                    },
                }
            },
            OpState::SentMutate => {
                let resp = match event {
                    Some(resp) => resp,
                    None => {
                        return (
                            OpState::Start,
                            Action::Done(Err(Error::ApiError("missing response".to_owned()))),
                        );
                    },
                };
                // A failed mutation is reported, never swallowed; a 404 on
                // a delete is the soft no-op.
                let checked = match op.kind {
                    OpKind::Delete => check_delete(&resp),
                    _ => check_error(&resp),
                };
                match checked {
                    Ok(()) => (OpState::Start, Action::Done(Ok(None))),
                    Err(e) => (OpState::Start, Action::Done(Err(e))),
                }
            },
        }
    }
}

/// Clone the value an operation carries; empty for value-less operations.
fn clone_value(value: &Option<String>) -> (r: String)
    ensures
        value matches Some(v) ==> r@ == v@,
{
    match value {
        Some(v) => v.clone(),
        None => String::new(),
    }
}

} // verus!
