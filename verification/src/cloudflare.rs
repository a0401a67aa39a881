//! The Cloudflare adapter: bearer-token auth, a cached zone identifier
//! resolved by domain, record lookup by `host.domain`, and create/update/
//! delete keyed by the provider-assigned record identifier.

use vstd::prelude::*;
use vstd::string::StringExecFns;

use crate::Config;
use crate::RecordType;
use crate::record_type_from_name;
use crate::spec_rtype_name;
use crate::errors::Error;
use crate::http::HttpRequest;
use crate::http::HttpResponse;
use crate::http::Method;
use crate::http::json_headers;
use crate::http::push_header;
use crate::http::check_delete;
use crate::http::check_error;
use crate::http::response_body;
use crate::http::spec_status_success;
use crate::jsontext::append_json_str;
use crate::jsontext::spec_json_str;
use crate::jsonval::json_as_array;
use crate::jsonval::json_as_bool;
use crate::jsonval::json_as_string;
use crate::jsonval::json_as_u64;
use crate::jsonval::json_get;
use crate::jsonval::json_parse;
use crate::op::Action;
use crate::op::Op;
use crate::op::OpKind;
use crate::op::select_single;
use crate::text::append_u64;
use crate::text::spec_dec_digits;

verus! {

/// Authentication credentials for the Cloudflare API: a bearer token.
#[derive(Debug)]
pub struct Auth {
    pub key: String,
}

impl Clone for Auth {
    /// A clone carries the same credentials.
    fn clone(&self) -> (r: Auth)
        ensures
            r == *self,
    {
        Auth { key: self.key.clone() }
    }
}

impl Auth {
    /// The value of the `authorization` header this adapter sends.
    pub fn get_header(&self) -> (r: String)
        ensures
            r@ == "Bearer "@ + self.key@,
    {
        let mut h = String::new();
        h.append("Bearer ");
        h.append(self.key.as_str());
        h
    }
}

/// An upstream response envelope: a success flag around the payload.
pub struct Response<T> {
    pub success: bool,
    pub result: T,
}

/// One zone as the zone-list endpoint reports it.
pub struct ZoneInfo {
    pub id: String,
    pub name: String,
}

/// One record as the record-list endpoint reports it.
pub struct GetRecord {
    pub id: String,
    pub name: String,
    pub ttl: u32,
    pub rtype: RecordType,
    pub content: String,
}

/// The body sent to create or replace a record.
pub struct CreateRecord {
    pub name: String,
    pub ttl: u32,
    pub rtype: RecordType,
    pub content: String,
}

/// The JSON text of a `CreateRecord` body.
pub open spec fn spec_create_record_json(
    name: Seq<char>,
    ttl: int,
    rtype: RecordType,
    content: Seq<char>,
) -> Seq<char> {
    "{\"name\":"@ + spec_json_str(name) + ",\"ttl\":"@ + spec_dec_digits(ttl) + ",\"type\":"@
        + spec_json_str(spec_rtype_name(rtype)) + ",\"content\":"@ + spec_json_str(content)
        + "}"@
}

impl CreateRecord {
    /// Serialize this body as JSON, field by field.
    pub fn to_json(&self) -> (r: String)
        ensures
            r@ == spec_create_record_json(self.name@, self.ttl as int, self.rtype, self.content@),
    {
        let mut out = String::new();
        out.append("{\"name\":");
        append_json_str(&mut out, self.name.as_str());
        out.append(",\"ttl\":");
        append_u64(&mut out, self.ttl as u64);
        out.append(",\"type\":");
        append_json_str(&mut out, self.rtype.name());
        out.append(",\"content\":");
        append_json_str(&mut out, self.content.as_str());
        out.append("}");
        assert(out@ =~= spec_create_record_json(
            self.name@,
            self.ttl as int,
            self.rtype,
            self.content@,
        ));
        out
    }
}

/// Unwrap a classified upstream envelope: a missing response is a
/// not-found error, an unsuccessful envelope a reported API error, and a
/// successful one yields its payload.
pub fn check_response<T>(response: Option<Response<T>>) -> (r: Result<T, Error>)
    ensures
        match response {
            None => r matches Err(e) && e is RecordNotFound,
            Some(resp) => if resp.success {
                r matches Ok(t) && t == resp.result
            } else {
                r matches Err(e) && e is ApiError
            },
        },
{
    let response = match response {
        Some(r) => r,
        None => {
            return Err(Error::RecordNotFound("Record not found".to_owned()));
        },
    };
    if !response.success {
        return Err(Error::ApiError("Failed to find record".to_owned()));
    }
    Ok(response.result)
}

/// Where an operation on this adapter stands: what was last sent upstream,
/// and what is still needed.
pub enum OpState {
    /// Nothing sent yet.
    Start,
    /// The zone-resolution query was sent.
    SentZone,
    /// The record-lookup query was sent; the zone identifier it used.
    SentLookup(String),
    /// The mutating request was sent.
    SentMutate,
}

/// Synchronous Cloudflare DNS provider adapter.
///
/// Holds the configuration, the credentials, and the lazily resolved zone
/// identifier, cached for the adapter's lifetime.
pub struct Cloudflare {
    pub config: Config,
    pub auth: Auth,
    pub zone_id: Option<String>,
}

impl Cloudflare {
    /// Create a new `Cloudflare` provider adapter; its identifier cache
    /// starts empty.
    pub fn new(config: Config, auth: Auth) -> (r: Cloudflare)
        ensures
            r.config == config && r.auth == auth,
            r.get_zone_id() is None,
    {
        Cloudflare { config, auth, zone_id: None }
    }

    /// The cached zone identifier: empty until the first operation that
    /// needs it resolves it, then fixed for this adapter's lifetime.
    pub open spec fn get_zone_id(&self) -> Option<String> {
        self.zone_id
    }

    /// The view of the cached zone identifier; empty while unresolved.
    pub open spec fn spec_zone_view(&self) -> Seq<char> {
        match self.zone_id {
            Some(z) => z@,
            None => Seq::empty(),
        }
    }

    /// The URL of the zone-resolution query for this adapter's domain.
    pub open spec fn spec_zones_url(&self) -> Seq<char> {
        "https://api.cloudflare.com/client/v4/zones?name="@ + self.config.domain@
    }

    /// The headers every request of this adapter carries: the JSON pair
    /// plus the bearer authorization.
    fn headers(&self) -> (r: Vec<(String, String)>)
        ensures
            r@.len() == 3,
            r@[2].0@ == "authorization"@,
            r@[2].1@ == "Bearer "@ + self.auth.key@,
    {
        let mut headers = json_headers();
        push_header(&mut headers, "authorization", self.auth.get_header());
        headers
    }

    /// The zone-resolution query.
    fn zone_request(&self) -> (r: HttpRequest)
        ensures
            r.method is Get,
            r.url@ == self.spec_zones_url(),
            r.body is None,
    {
        let mut url = String::new();
        url.append("https://api.cloudflare.com/client/v4/zones?name=");
        url.append(self.config.domain.as_str());
        HttpRequest { method: Method::Get, url, headers: self.headers(), body: None }
    }

    /// The record-lookup query for `host` under the resolved zone.
    fn lookup_request(&self, zone_id: &str, host: &str) -> (r: HttpRequest)
        ensures
            r.method is Get,
            r.url@ == "https://api.cloudflare.com/client/v4/zones/"@ + zone_id@
                + "/dns_records?name="@ + host@ + "."@ + self.config.domain@,
            r.body is None,
            spec_record_path(r.url@),
    {
        let mut url = String::new();
        url.append("https://api.cloudflare.com/client/v4/zones/");
        url.append(zone_id);
        url.append("/dns_records?name=");
        url.append(host);
        url.append(".");
        url.append(self.config.domain.as_str());
        proof {
            reveal_strlit("https://api.cloudflare.com/client/v4/zones/");
            assert(url@[42] == '/');
        }
        HttpRequest { method: Method::Get, url, headers: self.headers(), body: None }
    }

    /// Decode the zone-resolution response body.
    fn parse_zone_list(body: &str) -> (r: Result<Response<Vec<ZoneInfo>>, Error>) {
        let doc = json_parse(body)?;
        let success = match json_get(&doc, "success") {
            Some(v) => match json_as_bool(v) {
                Some(b) => b,
                None => {
                    return Err(Error::JsonError("success flag is not a boolean".to_owned()));
                },
            },
            None => {
                return Err(Error::JsonError("missing success flag".to_owned()));
            },
        };
        let items = match json_get(&doc, "result") {
            Some(v) => match json_as_array(v) {
                Some(a) => a,
                None => {
                    return Err(Error::JsonError("result is not an array".to_owned()));
                },
            },
            None => {
                return Err(Error::JsonError("missing result array".to_owned()));
            },
        };
        let mut zones: Vec<ZoneInfo> = Vec::new();
        let mut i: usize = 0;
        while i < items.len()
            decreases items@.len() - i,
        {
            let item = &items[i];
            let id = match json_get(item, "id") {
                Some(v) => match json_as_string(v) {
                    Some(s) => s,
                    None => {
                        return Err(Error::JsonError("zone id is not a string".to_owned()));
                    },
                },
                None => {
                    return Err(Error::JsonError("missing zone id".to_owned()));
                },
            };
            let name = match json_get(item, "name") {
                Some(v) => match json_as_string(v) {
                    Some(s) => s,
                    None => {
                        return Err(Error::JsonError("zone name is not a string".to_owned()));
                    },
                },
                None => {
                    return Err(Error::JsonError("missing zone name".to_owned()));
                },
            };
            zones.push(ZoneInfo { id, name });
            i += 1;
        }
        Ok(Response { success, result: zones })
    }

    /// Decode the record-lookup response body.
    fn parse_records(body: &str) -> (r: Result<Response<Vec<GetRecord>>, Error>) {
        let doc = json_parse(body)?;
        let success = match json_get(&doc, "success") {
            Some(v) => match json_as_bool(v) {
                Some(b) => b,
                None => {
                    return Err(Error::JsonError("success flag is not a boolean".to_owned()));
                },
            },
            None => {
                return Err(Error::JsonError("missing success flag".to_owned()));
            },
        };
        let items = match json_get(&doc, "result") {
            Some(v) => match json_as_array(v) {
                Some(a) => a,
                None => {
                    return Err(Error::JsonError("result is not an array".to_owned()));
                },
            },
            None => {
                return Err(Error::JsonError("missing result array".to_owned()));
            },
        };
        let mut records: Vec<GetRecord> = Vec::new();
        let mut i: usize = 0;
        while i < items.len()
            decreases items@.len() - i,
        {
            let item = &items[i];
            let rec = parse_record(item)?;
            records.push(rec);
            i += 1;
        }
        Ok(Response { success, result: records })
    }

    /// Build the create request for `op`, which must carry a value. The
    /// record is created under the fully qualified name, with the default
    /// TTL of 300 seconds.
    fn create_request(&self, zone_id: &str, op: &Op) -> (r: HttpRequest)
        requires
            op.value is Some,
        ensures
            r.method is Post,
            r.url@ == "https://api.cloudflare.com/client/v4/zones/"@ + zone_id@
                + "/dns_records"@,
            (r.body matches Some(b) && op.value matches Some(v) && b@ == spec_create_record_json(
                op.host@ + "."@ + self.config.domain@,
                300,
                op.rtype,
                v@,
            )),
            spec_record_path(r.url@),
    {
        let mut url = String::new();
        url.append("https://api.cloudflare.com/client/v4/zones/");
        url.append(zone_id);
        url.append("/dns_records");
        proof {
            reveal_strlit("https://api.cloudflare.com/client/v4/zones/");
            assert(url@[42] == '/');
        }
        let rec = CreateRecord {
            name: full_name(op.host.as_str(), self.config.domain.as_str()),
            ttl: 300,
            rtype: op.rtype,
            content: clone_value(&op.value),
        };
        let body = rec.to_json();
        HttpRequest { method: Method::Post, url, headers: self.headers(), body: Some(body) }
    }

    /// Build the replacement request for the record with identifier
    /// `rec_id`. The replacement names the record by the bare host.
    fn update_request(&self, zone_id: &str, rec_id: &str, op: &Op) -> (r: HttpRequest)
        requires
            op.value is Some,
        ensures
            r.method is Put,
            r.url@ == "https://api.cloudflare.com/client/v4/zones/"@ + zone_id@
                + "/dns_records/"@ + rec_id@,
            spec_record_path(r.url@),
            (r.body matches Some(b) && op.value matches Some(v) && b@ == spec_create_record_json(
                op.host@,
                300,
                op.rtype,
                v@,
            )),
    {
        let url = record_url(zone_id, rec_id);
        let rec = CreateRecord {
            name: op.host.clone(),
            ttl: 300,
            rtype: op.rtype,
            content: clone_value(&op.value),
        };
        let body = rec.to_json();
        HttpRequest { method: Method::Put, url, headers: self.headers(), body: Some(body) }
    }

    /// Build the deletion request for the record with identifier `rec_id`.
    fn delete_request(&self, zone_id: &str, rec_id: &str) -> (r: HttpRequest)
        ensures
            r.method is Delete,
            r.url@ == "https://api.cloudflare.com/client/v4/zones/"@ + zone_id@
                + "/dns_records/"@ + rec_id@,
            spec_record_path(r.url@),
            r.body is None,
    {
        let url = record_url(zone_id, rec_id);
        HttpRequest { method: Method::Delete, url, headers: self.headers(), body: None }
    }

    /// With the zone identifier at hand, either finish (create under
    /// dry-run), emit the mutating create request, or emit the record
    /// lookup every other operation starts with.
    fn dispatch_with_zone(&self, op: &Op, zone_id: String) -> (r: (OpState, Action))
        requires
            op.wf(),
        ensures
            self.config.dry_run ==> !(r.1 is Mutate),
            op.kind is Get ==> !(r.1 is Mutate),
            !(r.1 matches Action::Query(q) && q.url@ == self.spec_zones_url()),
            !(r.0 is SentZone),
            !(op.kind is Get) ==> !(r.1 matches Action::Done(res) && res matches Ok(found)
                && found is Some),
            (self.config.dry_run && op.kind is Create) ==> (r.1 matches Action::Done(res)
                && res matches Ok(found) && found is None),
            (!self.config.dry_run && op.kind is Create) ==> (r.1 matches Action::Mutate(q)
                && q.method is Post && q.url@ == spec_records_url(zone_id@) && (q.body matches
                Some(b) && op.value matches Some(v) && b@ == spec_create_record_json(
                op.host@ + "."@ + self.config.domain@,
                300,
                op.rtype,
                v@,
            ))),
            !(op.kind is Create) ==> (r.0 is SentLookup && (r.1 matches Action::Query(q)
                && q.method is Get)),
            !(r.1 is Done) ==> !(r.0 is Start),
    {
        match op.kind {
            OpKind::Create => {
                if self.config.dry_run {
                    return (OpState::Start, Action::Done(Ok(None)));
                }
                let req = self.create_request(zone_id.as_str(), op);
                (OpState::SentMutate, Action::Mutate(req))
            },
            _ => {
                let req = self.lookup_request(zone_id.as_str(), op.host.as_str());
                proof {
                    lemma_zones_url_shape(self.config.domain@);
                }
                (OpState::SentLookup(zone_id), Action::Query(req))
            },
        }
    }

    /// Drive one operation one step further: feed `None` first, then feed
    /// each response to the request the previous step asked for, until the
    /// action is `Done`.
    ///
    /// The contract carries the properties every caller relies on: the
    /// configuration and credentials never change; the identifier cache
    /// only ever fills, and the zone-resolution query is emitted only while
    /// it is empty (single-flight); under `dry_run`, and for every get, no
    /// mutating request is ever emitted.
    pub fn op_step(&mut self, op: &Op, st: OpState, event: Option<HttpResponse>) -> (r: (
        OpState,
        Action,
    ))
        requires
            op.wf(),
            (st is Start) <==> (event is None),
        ensures
            final(self).config == old(self).config,
            final(self).auth == old(self).auth,
            old(self).get_zone_id() is Some ==> final(self).get_zone_id() == old(
                self,
            ).get_zone_id(),
            (r.1 matches Action::Query(q) && q.url@ == old(self).spec_zones_url()) ==> (old(
                self,
            ).get_zone_id() is None && r.0 is SentZone),
            (st is Start && old(self).get_zone_id() is None) ==> (r.0 is SentZone && (
            r.1 matches Action::Query(q) && q.method is Get && q.url@ == old(
                self,
            ).spec_zones_url())),
            (st is SentZone && (match r.1 {
                Action::Done(res) => !(res is Err),
                _ => true,
            })) ==> final(self).get_zone_id() is Some,
            old(self).config.dry_run ==> !(r.1 is Mutate),
            op.kind is Get ==> !(r.1 is Mutate),
            (st is Start && old(self).get_zone_id() is Some && !(op.kind is Create))
                ==> (r.0 is SentLookup && (r.1 matches Action::Query(q) && q.method
                is Get)),
            (st is Start && old(self).get_zone_id() is Some && old(self).config.dry_run
                && op.kind is Create) ==> (r.1 matches Action::Done(res) && res matches Ok(
                found,
            ) && found is None),
            (st is Start && old(self).get_zone_id() is Some && !old(self).config.dry_run
                && op.kind is Create) ==> (r.1 matches Action::Mutate(q) && q.method is Post
                && q.url@ == spec_records_url(old(self).spec_zone_view()) && (q.body matches
                Some(b) && op.value matches Some(v) && b@ == spec_create_record_json(
                op.host@ + "."@ + old(self).config.domain@,
                300,
                op.rtype,
                v@,
            ))),
            match r.1 {
                Action::Mutate(q) => match st {
                    OpState::SentLookup(zid) => match op.kind {
                        OpKind::Update => q.method is Put && (q.body matches Some(b)
                            && op.value matches Some(v) && b@ == spec_create_record_json(
                            op.host@,
                            300,
                            op.rtype,
                            v@,
                        )) && (exists|rid: Seq<char>|
                            q.url@ == #[trigger] spec_record_url(zid@, rid)),
                        OpKind::Delete => q.method is Delete && q.body is None && (exists|
                            rid: Seq<char>,
                        |
                            q.url@ == #[trigger] spec_record_url(zid@, rid)),
                        _ => true,
                    },
                    _ => true,
                },
                _ => true,
            },
            (st is SentLookup && (event matches Some(resp) && resp.status == 404)) ==> (
            r.1 matches Action::Done(res) && res matches Ok(found) && found is None),
            (st is SentMutate && (event matches Some(resp) && spec_status_success(
                resp.status,
            ))) ==> (r.1 matches Action::Done(res) && res matches Ok(found) && found is None),
            (st is SentMutate && !(op.kind is Delete) && (event matches Some(resp)
                && !spec_status_success(resp.status))) ==> (r.1 matches Action::Done(res)
                && res is Err),
            (st is SentMutate && op.kind is Delete && (event matches Some(resp) && resp.status
                == 404)) ==> (r.1 matches Action::Done(res) && res matches Ok(found) && found
                is None),
            (st is SentMutate && op.kind is Delete && (event matches Some(resp)
                && !spec_status_success(resp.status) && resp.status != 404)) ==> (r.1 matches
                Action::Done(res) && res is Err),
            st is SentMutate ==> r.1 is Done,
            !(r.1 is Done) ==> !(r.0 is Start),
            !(op.kind is Get) ==> !(r.1 matches Action::Done(res) && res matches Ok(found)
                && found is Some),
    {
        match st {
            OpState::Start => {
                let zid = match &self.zone_id {
                    Some(z) => z.clone(),
                    None => {
                        return (OpState::SentZone, Action::Query(self.zone_request()));
                    },
                };
                self.dispatch_with_zone(op, zid)
            },
            OpState::SentZone => {
                let resp = match event {
                    Some(resp) => resp,
                    None => {
                        return (
                            OpState::Start,
                            Action::Done(Err(Error::ApiError("missing response".to_owned()))),
                        );
                    },
                };
                let body = match response_body(&resp) {
                    Ok(b) => b,
                    Err(e) => {
                        return (OpState::Start, Action::Done(Err(e)));
                    },
                };
                let parsed = match body {
                    Some(b) => match Self::parse_zone_list(b.as_str()) {
                        Ok(p) => Some(p),
                        Err(e) => {
                            return (OpState::Start, Action::Done(Err(e)));
                        },
                    },
                    None => None,
                };
                let mut zones = match check_response(parsed) {
                    Ok(z) => z,
                    Err(e) => {
                        return (OpState::Start, Action::Done(Err(e)));
                    },
                };
                if zones.len() == 0 {
                    return (
                        OpState::Start,
                        Action::Done(Err(Error::ApiError("No zones returned from upstream".to_owned()))),
                    );
                }
                let zone = zones.remove(0);
                // Re-check the cache before storing: an already-resolved
                // identifier wins.
                let zid = match &self.zone_id {
                    Some(z) => z.clone(),
                    None => {
                        self.zone_id = Some(zone.id.clone());
                        zone.id
                    },
                };
                self.dispatch_with_zone(op, zid)
            },
            OpState::SentLookup(zone_id) => {
                let resp = match event {
                    Some(resp) => resp,
                    None => {
                        return (
                            OpState::Start,
                            Action::Done(Err(Error::ApiError("missing response".to_owned()))),
                        );
                    },
                };
                let body = match response_body(&resp) {
                    Ok(b) => b,
                    Err(e) => {
                        return (OpState::Start, Action::Done(Err(e)));
                    },
                };
                // A 404 here means no such record path: not found, never
                // an error.
                let b = match body {
                    Some(b) => b,
                    None => {
                        return (OpState::Start, Action::Done(Ok(None)));
                    },
                };
                let parsed = match Self::parse_records(b.as_str()) {
                    Ok(p) => p,
                    Err(e) => {
                        return (OpState::Start, Action::Done(Err(e)));
                    },
                };
                let records = match check_response(Some(parsed)) {
                    Ok(z) => z,
                    Err(e) => {
                        return (OpState::Start, Action::Done(Err(e)));
                    },
                };
                let found = match select_single(records) {
                    Ok(f) => f,
                    Err(e) => {
                        return (OpState::Start, Action::Done(Err(e)));
                    },
                };
                match op.kind {
                    OpKind::Get => match found {
                        Some(rec) => (OpState::Start, Action::Done(Ok(Some(rec.content)))),
                        None => (OpState::Start, Action::Done(Ok(None))),
                    },
                    OpKind::Update => match found {
                        Some(rec) => {
                            if self.config.dry_run {
                                return (OpState::Start, Action::Done(Ok(None)));
                            }
                            let req = self.update_request(
                                zone_id.as_str(),
                                rec.id.as_str(),
                                op,
                            );
                            proof {
                                assert(req.url@ == spec_record_url(zone_id@, rec.id@));
                            }
                            (OpState::SentMutate, Action::Mutate(req))
                        },
                        // An update of a record that does not exist is a
                        // logged no-op for this provider.
                        None => (OpState::Start, Action::Done(Ok(None))),
                    },
                    _ => match found {
                        Some(rec) => {
                            if self.config.dry_run {
                                return (OpState::Start, Action::Done(Ok(None)));
                            }
                            let req = self.delete_request(zone_id.as_str(), rec.id.as_str());
                            proof {
                                assert(req.url@ == spec_record_url(zone_id@, rec.id@));
                            }
                            (OpState::SentMutate, Action::Mutate(req))
                        },
                        // Deleting a record that does not exist is a logged
                        // no-op, not an error.
                        None => (OpState::Start, Action::Done(Ok(None))),
                    },
                }
            },
            OpState::SentMutate => {
                let resp = match event {
                    Some(resp) => resp,
                    None => {
                        return (
                            OpState::Start,
                            Action::Done(Err(Error::ApiError("missing response".to_owned()))),
                        );
                    },
                };
                // A failed mutation is reported, never swallowed; a 404 on
                // a delete is the soft no-op.
                let checked = match op.kind {
                    OpKind::Delete => check_delete(&resp),
                    _ => check_error(&resp),
                };
                match checked {
                    Ok(()) => (OpState::Start, Action::Done(Ok(None))),
                    Err(e) => (OpState::Start, Action::Done(Err(e))),
                }
            },
        }
    }
}

/// The URL of one record under one zone.
fn record_url(zone_id: &str, rec_id: &str) -> (r: String)
    ensures
        r@ == "https://api.cloudflare.com/client/v4/zones/"@ + zone_id@ + "/dns_records/"@
            + rec_id@,
        spec_record_path(r@),
{
    let mut url = String::new();
    url.append("https://api.cloudflare.com/client/v4/zones/");
    url.append(zone_id);
    url.append("/dns_records/");
    url.append(rec_id);
    proof {
        reveal_strlit("https://api.cloudflare.com/client/v4/zones/");
        assert(url@[42] == '/');
    }
    url
}

/// The URL records of a resolved zone are created under.
pub open spec fn spec_records_url(zone: Seq<char>) -> Seq<char> {
    "https://api.cloudflare.com/client/v4/zones/"@ + zone + "/dns_records"@
}

/// The URL of one record of a resolved zone.
pub open spec fn spec_record_url(zone: Seq<char>, rec: Seq<char>) -> Seq<char> {
    "https://api.cloudflare.com/client/v4/zones/"@ + zone + "/dns_records/"@ + rec
}

/// A record URL: it continues the shared prefix with a path separator,
/// where the zone-resolution URL carries its query separator.
pub open spec fn spec_record_path(url: Seq<char>) -> bool {
    url.len() > 42 && url[42] == '/'
}

/// The zone-resolution URL is no record URL: at the position where every
/// record URL has `/`, it has `?`.
proof fn lemma_zones_url_shape(domain: Seq<char>)
    ensures
        !spec_record_path("https://api.cloudflare.com/client/v4/zones?name="@ + domain),
{
    reveal_strlit("https://api.cloudflare.com/client/v4/zones?name=");
    let b = "https://api.cloudflare.com/client/v4/zones?name="@ + domain;
    assert(b[42] == '?');
}

/// Decode one record object of a lookup response.
fn parse_record(item: &serde_json::Value) -> (r: Result<GetRecord, Error>) {
    let id = match json_get(item, "id") {
        Some(v) => match json_as_string(v) {
            Some(s) => s,
            None => {
                return Err(Error::JsonError("record id is not a string".to_owned()));
            },
        },
        None => {
            return Err(Error::JsonError("missing record id".to_owned()));
        },
    };
    let name = match json_get(item, "name") {
        Some(v) => match json_as_string(v) {
            Some(s) => s,
            None => {
                return Err(Error::JsonError("record name is not a string".to_owned()));
            },
        },
        None => {
            return Err(Error::JsonError("missing record name".to_owned()));
        },
    };
    let ttl = match json_get(item, "ttl") {
        Some(v) => match json_as_u64(v) {
            Some(n) if n <= u32::MAX as u64 => n as u32,
            _ => {
                return Err(Error::JsonError("record ttl is not a small number".to_owned()));
            },
        },
        None => {
            return Err(Error::JsonError("missing record ttl".to_owned()));
        },
    };
    let rtype = match json_get(item, "type") {
        Some(v) => match json_as_string(v) {
            Some(s) => match record_type_from_name(s.as_str()) {
                Ok(t) => t,
                Err(_) => {
                    return Err(Error::JsonError("unrecognized record type".to_owned()));
                },
            },
            None => {
                return Err(Error::JsonError("record type is not a string".to_owned()));
            },
        },
        None => {
            return Err(Error::JsonError("missing record type".to_owned()));
        },
    };
    let content = match json_get(item, "content") {
        Some(v) => match json_as_string(v) {
            Some(s) => s,
            None => {
                return Err(Error::JsonError("record content is not a string".to_owned()));
            },
        },
        None => {
            return Err(Error::JsonError("missing record content".to_owned()));
        },
    };
    Ok(GetRecord { id, name, ttl, rtype, content })
}

/// `host.domain`: the fully qualified name of a host under the zone.
fn full_name(host: &str, domain: &str) -> (r: String)
    ensures
        r@ == host@ + "."@ + domain@,
{
    let mut out = String::new();
    out.append(host);
    out.append(".");
    out.append(domain);
    out
}

/// Clone the value an operation carries; empty for value-less operations.
fn clone_value(value: &Option<String>) -> (r: String)
    ensures
        value matches Some(v) ==> r@ == v@,
{
    match value {
        Some(v) => v.clone(),
        None => String::new(),
    }
}

} // verus!
