//! The DnsMadeEasy adapter: every request carries three headers derived
//! from the credentials and the current time (the key, an HMAC-SHA1
//! signature of the timestamp, and the timestamp itself), a cached domain
//! identifier resolved by name, and record operations under it.

use vstd::prelude::*;
use vstd::string::StringExecFns;

use hmac::Hmac;
use hmac::KeyInit;
use hmac::Mac;
use sha1::Sha1;

use crate::Config;
use crate::RecordType;
use crate::record_type_from_name;
use crate::spec_rtype_name;
use crate::errors::Error;
use crate::http::HttpRequest;
use crate::http::HttpResponse;
use crate::http::Method;
use crate::http::check_delete;
use crate::http::check_error;
use crate::http::spec_api_error_msg;
use crate::http::spec_status_success;
use crate::http::json_headers;
use crate::http::push_header;
use crate::http::response_body;
use crate::jsontext::append_json_str;
use crate::jsontext::spec_json_str;
use crate::jsonval::get_array_field;
use crate::jsonval::get_string_field;
use crate::jsonval::get_u64_field;
use crate::jsonval::json_parse;
use crate::op::Action;
use crate::op::Op;
use crate::op::OpKind;
use crate::op::select_single;
use crate::text::append_u64;
use crate::text::spec_dec_digits;

verus! {

/// The lower-case hex digest of the HMAC-SHA1 of a message under a key
/// (both taken as their UTF-8 bytes). The algorithm itself is the hmac,
/// sha1 and hex crates' business; this library only relies on the digest
/// being a function of key and message alone.
pub uninterp spec fn spec_hmac_sha1_hex(key: Seq<char>, message: Seq<char>) -> Seq<char>;

/// Relies on `hmac::Hmac<Sha1>` (via `new_from_slice`, `update` and
/// `finalize`) and `hex::encode`: the digest depends on the key and the
/// message alone, SHA1 output is 20 bytes, and hex::encode writes two
/// digits per byte. `new_from_slice` accepts keys of any length for a
/// block-based hash, so it never fails here.
#[verifier::external_body]
fn hmac_sha1_hexdigest(key: &str, message: &str) -> (r: String)
    ensures
        r@ == spec_hmac_sha1_hex(key@, message@),
        r@.len() == 40,
{
    let mut mac = <Hmac<Sha1> as KeyInit>::new_from_slice(key.as_bytes()).expect(
        "HMAC accepts keys of any length",
    );
    mac.update(message.as_bytes());
    hex::encode(mac.finalize().into_bytes())
}

/// Relies on `chrono::Utc::now` and `DateTime::to_rfc2822`: the current
/// time in the format the upstream expects. Nothing can be promised of a
/// clock reading.
#[verifier::external_body]
fn now_rfc2822() -> (r: String) {
    chrono::Utc::now().to_rfc2822()
}

/// Authentication credentials for the DnsMadeEasy API: the API key and
/// the signing secret.
#[derive(Debug)]
pub struct Auth {
    pub key: String,
    pub secret: String,
}

impl Clone for Auth {
    /// A clone carries the same credentials.
    fn clone(&self) -> (r: Auth)
        ensures
            r == *self,
    {
        Auth { key: self.key.clone(), secret: self.secret.clone() }
    }
}

impl Auth {
    /// The three headers this provider authenticates by, signed at the
    /// given timestamp: the key, the HMAC-SHA1 hex digest of the
    /// timestamp under the secret, and the timestamp itself.
    pub fn get_headers_at(&self, time: &str) -> (r: Vec<(String, String)>)
        ensures
            r@.len() == 3,
            r@[0].0@ == "x-dnsme-apiKey"@ && r@[0].1@ == self.key@,
            r@[1].0@ == "x-dnsme-hmac"@ && r@[1].1@ == spec_hmac_sha1_hex(self.secret@, time@),
            r@[2].0@ == "x-dnsme-requestDate"@ && r@[2].1@ == time@,
    {
        let hmac_digest = hmac_sha1_hexdigest(self.secret.as_str(), time);
        let mut headers: Vec<(String, String)> = Vec::new();
        push_header(&mut headers, "x-dnsme-apiKey", self.key.clone());
        push_header(&mut headers, "x-dnsme-hmac", hmac_digest);
        push_header(&mut headers, "x-dnsme-requestDate", time.to_owned());
        headers
    }

    /// The three authentication headers, signed at the current time: the
    /// signature header always carries the digest of the timestamp header
    /// under the secret.
    pub fn get_headers(&self) -> (r: Result<Vec<(String, String)>, Error>)
        ensures
            (r matches Ok(h) && h@.len() == 3 && h@[0].0@ == "x-dnsme-apiKey"@ && h@[0].1@
                == self.key@ && h@[1].0@ == "x-dnsme-hmac"@ && h@[1].1@ == spec_hmac_sha1_hex(
                self.secret@,
                h@[2].1@,
            ) && h@[2].0@ == "x-dnsme-requestDate"@),
    {
        let time = now_rfc2822();
        Ok(self.get_headers_at(time.as_str()))
    }
}

/// One domain as the lookup-by-name endpoint reports it.
pub struct Domain {
    pub id: u32,
    pub name: String,
}

/// One record, both as the records endpoint reports it and as the body of
/// a create or replace request.
pub struct Record {
    pub id: u32,
    pub name: String,
    pub value: String,
    pub rtype: RecordType,
    pub source_id: u32,
    pub ttl: u32,
}

/// The JSON text of a `Record` body.
pub open spec fn spec_record_json(
    id: int,
    name: Seq<char>,
    value: Seq<char>,
    rtype: RecordType,
    source_id: int,
    ttl: int,
) -> Seq<char> {
    "{\"id\":"@ + spec_dec_digits(id) + ",\"name\":"@ + spec_json_str(name) + ",\"value\":"@
        + spec_json_str(value) + ",\"type\":"@ + spec_json_str(spec_rtype_name(rtype))
        + ",\"sourceId\":"@ + spec_dec_digits(source_id) + ",\"ttl\":"@ + spec_dec_digits(ttl)
        + "}"@
}

impl Record {
    /// Serialize this body as JSON, field by field.
    pub fn to_json(&self) -> (r: String)
        ensures
            r@ == spec_record_json(
                self.id as int,
                self.name@,
                self.value@,
                self.rtype,
                self.source_id as int,
                self.ttl as int,
            ),
    {
        let mut out = String::new();
        out.append("{\"id\":");
        append_u64(&mut out, self.id as u64);
        out.append(",\"name\":");
        append_json_str(&mut out, self.name.as_str());
        out.append(",\"value\":");
        append_json_str(&mut out, self.value.as_str());
        out.append(",\"type\":");
        append_json_str(&mut out, self.rtype.name());
        out.append(",\"sourceId\":");
        append_u64(&mut out, self.source_id as u64);
        out.append(",\"ttl\":");
        append_u64(&mut out, self.ttl as u64);
        out.append("}");
        assert(out@ =~= spec_record_json(
            self.id as int,
            self.name@,
            self.value@,
            self.rtype,
            self.source_id as int,
            self.ttl as int,
        ));
        out
    }
}

/// Where an operation on this adapter stands.
pub enum OpState {
    /// Nothing sent yet.
    Start,
    /// The domain-resolution query was sent.
    SentZone,
    /// The record-lookup query was sent; the domain identifier it used.
    SentLookup(u32),
    /// The mutating request was sent.
    SentMutate,
}

/// Synchronous DnsMadeEasy DNS provider adapter.
///
/// Holds the configuration, the endpoint (the live API or the sandbox),
/// the credentials, and the lazily resolved domain identifier, cached for
/// the adapter's lifetime.
pub struct DnsMadeEasy {
    pub config: Config,
    pub endpoint: &'static str,
    pub auth: Auth,
    pub domain_id: Option<u32>,
}

impl DnsMadeEasy {
    /// Create a new `DnsMadeEasy` provider adapter against the live API.
    pub fn new(config: Config, auth: Auth) -> (r: DnsMadeEasy)
        ensures
            r.config == config && r.auth == auth,
            r.get_domain_id() is None,
            r.endpoint@ == "https://api.dnsmadeeasy.com/V2.0"@,
    {
        Self::new_with_endpoint(config, auth, "https://api.dnsmadeeasy.com/V2.0")
    }

    /// Create a new `DnsMadeEasy` provider adapter against a chosen
    /// endpoint.
    pub fn new_with_endpoint(config: Config, auth: Auth, endpoint: &'static str) -> (r:
        DnsMadeEasy)
        ensures
            r.config == config && r.auth == auth,
            r.get_domain_id() is None,
            r.endpoint@ == endpoint@,
    {
        DnsMadeEasy { config, endpoint, auth, domain_id: None }
    }

    /// The cached domain identifier: empty until the first operation that
    /// needs it resolves it, then fixed for this adapter's lifetime.
    pub open spec fn get_domain_id(&self) -> Option<u32> {
        self.domain_id
    }

    /// The cached domain identifier's value; zero while unresolved.
    pub open spec fn spec_domain_val(&self) -> int {
        match self.domain_id {
            Some(id) => id as int,
            None => 0,
        }
    }

    /// The URL of the domain-resolution query.
    pub open spec fn spec_domain_url(&self) -> Seq<char> {
        self.endpoint@ + "/dns/managed/name?domainname="@ + self.config.domain@
    }

    /// The URL records of the domain are created under.
    pub open spec fn spec_records_url_of(&self, domain_id: int) -> Seq<char> {
        self.endpoint@ + "/dns/managed/"@ + spec_dec_digits(domain_id) + "/records"@
    }

    /// The URL of one record of the domain.
    pub open spec fn spec_record_url_of(&self, domain_id: int, rec: int) -> Seq<char> {
        self.endpoint@ + "/dns/managed/"@ + spec_dec_digits(domain_id) + "/records/"@
            + spec_dec_digits(rec)
    }

    /// The headers of a record request: the JSON pair plus the three
    /// freshly signed authentication headers.
    fn signed_json_headers(&self) -> (r: Vec<(String, String)>)
        ensures
            r@.len() == 5,
            r@[0].0@ == "accept"@ && r@[1].0@ == "content-type"@,
            r@[2].0@ == "x-dnsme-apiKey"@ && r@[2].1@ == self.auth.key@,
            r@[3].0@ == "x-dnsme-hmac"@ && r@[3].1@ == spec_hmac_sha1_hex(
                self.auth.secret@,
                r@[4].1@,
            ),
            r@[4].0@ == "x-dnsme-requestDate"@,
    {
        let mut headers = json_headers();
        let auth_headers = match self.auth.get_headers() {
            Ok(h) => h,
            Err(_) => Vec::new(),
        };
        let name0 = auth_headers[0].0.clone();
        let value0 = auth_headers[0].1.clone();
        headers.push((name0, value0));
        let name1 = auth_headers[1].0.clone();
        let value1 = auth_headers[1].1.clone();
        headers.push((name1, value1));
        let name2 = auth_headers[2].0.clone();
        let value2 = auth_headers[2].1.clone();
        headers.push((name2, value2));
        headers
    }

    /// The domain-resolution query, signed like every other request.
    fn domain_request(&self) -> (r: HttpRequest)
        ensures
            r.method is Get,
            r.url@ == self.endpoint@ + "/dns/managed/name?domainname="@ + self.config.domain@,
            r.body is None,
    {
        let mut url = String::new();
        url.append(self.endpoint);
        url.append("/dns/managed/name?domainname=");
        url.append(self.config.domain.as_str());
        let headers = match self.auth.get_headers() {
            Ok(h) => h,
            Err(_) => Vec::new(),
        };
        HttpRequest { method: Method::Get, url, headers, body: None }
    }

    /// Decode the domain-resolution response body.
    pub fn parse_domain(body: &str) -> (r: Result<Domain, Error>)
        ensures
            r matches Err(e) ==> e is JsonError,
    {
        let doc = json_parse(body)?;
        let id = match get_u64_field(&doc, "id") {
            Ok(n) if n <= u32::MAX as u64 => n as u32,
            Ok(_) => {
                return Err(Error::JsonError("domain id out of range".to_owned()));
            },
            Err(e) => {
                return Err(e);
            },
        };
        let name = get_string_field(&doc, "name")?;
        Ok(Domain { id, name })
    }

    /// The record-lookup query for `(host, rtype)` under the domain.
    fn lookup_request(&self, domain_id: u32, op: &Op) -> (r: HttpRequest)
        ensures
            r.method is Get,
            r.url@ == self.endpoint@ + "/dns/managed/"@ + spec_dec_digits(domain_id as int)
                + "/records?recordName="@ + op.host@ + "&type="@ + spec_rtype_name(op.rtype),
            r.body is None,
    {
        let mut url = String::new();
        url.append(self.endpoint);
        url.append("/dns/managed/");
        append_u64(&mut url, domain_id as u64);
        url.append("/records?recordName=");
        url.append(op.host.as_str());
        url.append("&type=");
        url.append(op.rtype.name());
        HttpRequest { method: Method::Get, url, headers: self.signed_json_headers(), body: None }
    }

    /// The URL records are created under.
    fn records_url(&self, domain_id: u32) -> (r: String)
        ensures
            r@ == self.endpoint@ + "/dns/managed/"@ + spec_dec_digits(domain_id as int)
                + "/records"@,
    {
        let mut url = String::new();
        url.append(self.endpoint);
        url.append("/dns/managed/");
        append_u64(&mut url, domain_id as u64);
        url.append("/records");
        url
    }

    /// The URL of one record.
    fn record_url(&self, domain_id: u32, rec_id: u32) -> (r: String)
        ensures
            r@ == self.endpoint@ + "/dns/managed/"@ + spec_dec_digits(domain_id as int)
                + "/records/"@ + spec_dec_digits(rec_id as int),
    {
        let mut url = String::new();
        url.append(self.endpoint);
        url.append("/dns/managed/");
        append_u64(&mut url, domain_id as u64);
        url.append("/records/");
        append_u64(&mut url, rec_id as u64);
        url
    }

    /// Decode a lookup response body into its records.
    fn parse_records(body: &str) -> (r: Result<Vec<Record>, Error>) {
        let doc = json_parse(body)?;
        let items = get_array_field(&doc, "data")?;
        let mut records: Vec<Record> = Vec::new();
        let mut i: usize = 0;
        while i < items.len()
            decreases items@.len() - i,
        {
            let item = &items[i];
            let id = match get_u64_field(item, "id") {
                Ok(n) if n <= u32::MAX as u64 => n as u32,
                _ => {
                    return Err(Error::JsonError("record id is not a small number".to_owned()));
                },
            };
            let name = get_string_field(item, "name")?;
            let value = get_string_field(item, "value")?;
            let type_tag = get_string_field(item, "type")?;
            let rtype = match record_type_from_name(type_tag.as_str()) {
                Ok(t) => t,
                Err(_) => {
                    return Err(Error::JsonError("unrecognized record type".to_owned()));
                },
            };
            let source_id = match get_u64_field(item, "sourceId") {
                Ok(n) if n <= u32::MAX as u64 => n as u32,
                _ => 0,
            };
            let ttl = match get_u64_field(item, "ttl") {
                Ok(n) if n <= u32::MAX as u64 => n as u32,
                _ => {
                    return Err(Error::JsonError("record ttl is not a small number".to_owned()));
                },
            };
            records.push(Record { id, name, value, rtype, source_id, ttl });
            i += 1;
        }
        Ok(records)
    }

    /// Build the create or replace body for `op`; the identifier fields
    /// are placeholders the upstream assigns on its side.
    fn body_for(&self, op: &Op) -> (r: String)
        requires
            op.value is Some,
        ensures
            op.value matches Some(v) ==> r@ == spec_record_json(
                0,
                op.host@,
                v@,
                op.rtype,
                0,
                300,
            ),
    {
        let mut value = String::new();
        match &op.value {
            Some(v) => value.append(v.as_str()),
            None => (),
        }
        let record = Record {
            id: 0,
            name: op.host.clone(),
            value,
            rtype: op.rtype,
            source_id: 0,
            ttl: 300,
        };
        record.to_json()
    }

    /// With the domain identifier at hand, either finish (create under
    /// dry-run), emit the mutating create request, or emit the record
    /// lookup every other operation starts with.
    fn dispatch_with_id(&self, op: &Op, domain_id: u32) -> (r: (OpState, Action))
        requires
            op.wf(),
        ensures
            self.config.dry_run ==> !(r.1 is Mutate),
            op.kind is Get ==> !(r.1 is Mutate),
            !(r.0 is SentZone),
            !(op.kind is Get) ==> !(r.1 matches Action::Done(res) && res matches Ok(found)
                && found is Some),
            (self.config.dry_run && op.kind is Create) ==> (r.1 matches Action::Done(res)
                && res matches Ok(found) && found is None),
            (!self.config.dry_run && op.kind is Create) ==> (r.1 matches Action::Mutate(q)
                && q.method is Post && q.url@ == self.spec_records_url_of(domain_id as int)
                && (q.body matches Some(b) && op.value matches Some(v) && b@
                == spec_record_json(0, op.host@, v@, op.rtype, 0, 300))),
            !(op.kind is Create) ==> (r.0 is SentLookup && (r.1 matches Action::Query(q)
                && q.method is Get)),
            !(r.1 is Done) ==> !(r.0 is Start),
    {
        match op.kind {
            OpKind::Create => {
                if self.config.dry_run {
                    return (OpState::Start, Action::Done(Ok(None)));
                }
                let req = HttpRequest {
                    method: Method::Post,
                    url: self.records_url(domain_id),
                    headers: self.signed_json_headers(),
                    body: Some(self.body_for(op)),
                };
                (OpState::SentMutate, Action::Mutate(req))
            },
            _ => (OpState::SentLookup(domain_id), Action::Query(self.lookup_request(domain_id, op))),
        }
    }

    /// Drive one operation one step further: feed `None` first, then feed
    /// each response to the request the previous step asked for, until the
    /// action is `Done`.
    ///
    /// The identifier cache only ever fills, and the domain-resolution
    /// query is emitted only while it is empty (single-flight, marked by
    /// the `SentZone` state). Under `dry_run`, and for every get, no
    /// mutating request is ever emitted.
    pub fn op_step(&mut self, op: &Op, st: OpState, event: Option<HttpResponse>) -> (r: (
        OpState,
        Action,
    ))
        requires
            op.wf(),
            (st is Start) <==> (event is None),
        ensures
            final(self).config == old(self).config,
            final(self).auth == old(self).auth,
            old(self).get_domain_id() is Some ==> final(self).get_domain_id() == old(
                self,
            ).get_domain_id(),
            r.0 is SentZone ==> old(self).get_domain_id() is None,
            (st is Start && old(self).get_domain_id() is None) ==> (r.0 is SentZone && (
            r.1 matches Action::Query(q) && q.method is Get && q.url@ == old(
                self,
            ).spec_domain_url())),
            (st is SentZone && (match r.1 {
                Action::Done(res) => !(res is Err),
                _ => true,
            })) ==> final(self).get_domain_id() is Some,
            (st is SentZone && (event matches Some(resp) && resp.status == 404)) ==> (
            r.1 matches Action::Done(res) && res matches Err(e) && e matches Error::ApiError(m)
                && m@ == "No domain returned from upstream"@),
            match event {
                Some(resp) => (st is SentZone && resp.status != 200 && resp.status != 404)
                    ==> (r.1 matches Action::Done(res) && res matches Err(e) && e matches
                    Error::ApiError(m) && m@ == spec_api_error_msg(resp.status, resp.body@)),
                None => true,
            },
            old(self).config.dry_run ==> !(r.1 is Mutate),
            op.kind is Get ==> !(r.1 is Mutate),
            (st is Start && old(self).get_domain_id() is Some && !(op.kind is Create))
                ==> (r.0 is SentLookup && (r.1 matches Action::Query(q) && q.method
                is Get)),
            (st is Start && old(self).get_domain_id() is Some && old(self).config.dry_run
                && op.kind is Create) ==> (r.1 matches Action::Done(res) && res matches Ok(
                found,
            ) && found is None),
            (st is Start && old(self).get_domain_id() is Some && !old(self).config.dry_run
                && op.kind is Create) ==> (r.1 matches Action::Mutate(q) && q.method is Post
                && q.url@ == old(self).spec_records_url_of(old(self).spec_domain_val()) && (
            q.body matches Some(b) && op.value matches Some(v) && b@ == spec_record_json(
                0,
                op.host@,
                v@,
                op.rtype,
                0,
                300,
            ))),
            match r.1 {
                Action::Mutate(q) => match st {
                    OpState::SentLookup(did) => match op.kind {
                        OpKind::Update => q.method is Put && (q.body matches Some(b)
                            && op.value matches Some(v) && b@ == spec_record_json(
                            0,
                            op.host@,
                            v@,
                            op.rtype,
                            0,
                            300,
                        )) && (exists|rid: int|
                            q.url@ == #[trigger] old(self).spec_record_url_of(
                                did as int,
                                rid,
                            )),
                        OpKind::Delete => q.method is Delete && q.body is None && (exists|
                            rid: int,
                        |
                            q.url@ == #[trigger] old(self).spec_record_url_of(
                                did as int,
                                rid,
                            )),
                        _ => true,
                    },
                    _ => true,
                },
                _ => true,
            },
            st is SentMutate ==> r.1 is Done,
            (st is SentMutate && (event matches Some(resp) && spec_status_success(
                resp.status,
            ))) ==> (r.1 matches Action::Done(res) && res matches Ok(found) && found is None),
            (st is SentMutate && !(op.kind is Delete) && (event matches Some(resp)
                && !spec_status_success(resp.status))) ==> (r.1 matches Action::Done(res)
                && res is Err),
            (st is SentMutate && op.kind is Delete && (event matches Some(resp) && resp.status
                == 404)) ==> (r.1 matches Action::Done(res) && res matches Ok(found) && found
                is None),
            (st is SentMutate && op.kind is Delete && (event matches Some(resp)
                && !spec_status_success(resp.status) && resp.status != 404)) ==> (r.1 matches
                Action::Done(res) && res is Err),
            !(r.1 is Done) ==> !(r.0 is Start),
            (st is SentLookup && (event matches Some(resp) && resp.status == 404)) ==> (
            r.1 matches Action::Done(res) && res matches Ok(found) && found is None),
            !(op.kind is Get) ==> !(r.1 matches Action::Done(res) && res matches Ok(found)
                && found is Some),
    {
        match st {
            OpState::Start => {
                let did = match self.domain_id {
                    Some(id) => id,
                    None => {
                        return (OpState::SentZone, Action::Query(self.domain_request()));
                    },
                };
                self.dispatch_with_id(op, did)
            },
            OpState::SentZone => {
                let resp = match event {
                    Some(resp) => resp,
                    None => {
                        return (
                            OpState::Start,
                            Action::Done(Err(Error::ApiError("missing response".to_owned()))),
                        );
                    },
                };
                let body = match response_body(&resp) {
                    Ok(b) => b,
                    Err(e) => {
                        return (OpState::Start, Action::Done(Err(e)));
                    },
                };
                let domain = match body {
                    Some(b) => match Self::parse_domain(b.as_str()) {
                        Ok(d) => d,
                        Err(e) => {
                            return (OpState::Start, Action::Done(Err(e)));
                        },
                    },
                    None => {
                        return (
                            OpState::Start,
                            Action::Done(
                                Err(Error::ApiError("No domain returned from upstream".to_owned())),
                            ),
                        );
                    },
                };
                // Re-check the cache before storing: an already-resolved
                // identifier wins.
                let did = match self.domain_id {
                    Some(existing) => existing,
                    None => {
                        self.domain_id = Some(domain.id);
                        domain.id
                    },
                };
                self.dispatch_with_id(op, did)
            },
            OpState::SentLookup(domain_id) => {
                let resp = match event {
                    Some(resp) => resp,
                    None => {
                        return (
                            OpState::Start,
                            Action::Done(Err(Error::ApiError("missing response".to_owned()))),
                        );
                    },
                };
                let body = match response_body(&resp) {
                    Ok(b) => b,
                    Err(e) => {
                        return (OpState::Start, Action::Done(Err(e)));
                    },
                };
                let records = match body {
                    Some(b) => match Self::parse_records(b.as_str()) {
                        Ok(p) => p,
                        Err(e) => {
                            return (OpState::Start, Action::Done(Err(e)));
                        },
                    },
                    // A missing record list is not an error.
                    None => {
                        return (OpState::Start, Action::Done(Ok(None)));
                    },
                };
                let found = match select_single(records) {
                    Ok(f) => f,
                    Err(e) => {
                        return (OpState::Start, Action::Done(Err(e)));
                    },
                };
                match op.kind {
                    OpKind::Get => match found {
                        Some(rec) => (OpState::Start, Action::Done(Ok(Some(rec.value)))),
                        None => (OpState::Start, Action::Done(Ok(None))),
                    },
                    OpKind::Update => match found {
                        Some(rec) => {
                            if self.config.dry_run {
                                return (OpState::Start, Action::Done(Ok(None)));
                            }
                            let req = HttpRequest {
                                method: Method::Put,
                                url: self.record_url(domain_id, rec.id),
                                headers: self.signed_json_headers(),
                                body: Some(self.body_for(op)),
                            };
                            proof {
                                assert(req.url@ == self.spec_record_url_of(
                                    domain_id as int,
                                    rec.id as int,
                                ));
                            }
                            (OpState::SentMutate, Action::Mutate(req))
                        },
                        // An update of a record that does not exist is a
                        // logged no-op for this provider.
                        None => (OpState::Start, Action::Done(Ok(None))),
                    },
                    _ => match found {
                        Some(rec) => {
                            if self.config.dry_run {
                                return (OpState::Start, Action::Done(Ok(None)));
                            }
                            let req = HttpRequest {
                                method: Method::Delete,
                                url: self.record_url(domain_id, rec.id),
                                headers: self.signed_json_headers(),
                                body: None,
                            };
                            proof {
                                assert(req.url@ == self.spec_record_url_of(
                                    domain_id as int,
                                    rec.id as int,
                                ));
                            }
                            (OpState::SentMutate, Action::Mutate(req))
                        },
                        // Deleting a record that does not exist is a logged
                        // no-op, not an error.
                        None => (OpState::Start, Action::Done(Ok(None))),
                    },
                }
            },
            OpState::SentMutate => {
                let resp = match event {
                    Some(resp) => resp,
                    None => {
                        return (
                            OpState::Start,
                            Action::Done(Err(Error::ApiError("missing response".to_owned()))),
                        );
                    },
                };
                // A failed mutation is reported, never swallowed; a 404 on
                // a delete is the soft no-op.
                let checked = match op.kind {
                    OpKind::Delete => check_delete(&resp),
                    _ => check_error(&resp),
                };
                match checked {
                    Ok(()) => (OpState::Start, Action::Done(Ok(None))),
                    Err(e) => (OpState::Start, Action::Done(Err(e))),
                }
            },
        }
    }
}

} // verus!
