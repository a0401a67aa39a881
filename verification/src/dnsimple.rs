//! The DnSimple adapter: bearer-token auth, a cached account identifier
//! (either supplied up front or resolved once from the accounts endpoint),
//! and record operations under `accounts/{id}/zones/{domain}`.

use vstd::prelude::*;
use vstd::string::StringExecFns;

use crate::Config;
use crate::RecordType;
use crate::spec_rtype_name;
use crate::errors::Error;
use crate::http::HttpRequest;
use crate::http::HttpResponse;
use crate::http::Method;
use crate::http::json_headers;
use crate::http::push_header;
use crate::http::check_delete;
use crate::http::check_error;
use crate::http::response_body;
use crate::http::spec_status_success;
use crate::jsontext::append_json_str;
use crate::jsontext::spec_json_str;
use crate::jsonval::get_array_field;
use crate::jsonval::get_string_field;
use crate::jsonval::get_u64_field;
use crate::jsonval::json_as_u64;
use crate::jsonval::json_get;
use crate::jsonval::json_parse;
use crate::op::Action;
use crate::op::Op;
use crate::op::OpKind;
use crate::op::select_single;
use crate::text::append_u64;
use crate::text::spec_dec_digits;

verus! {

/// Authentication credentials for the DnSimple API: a bearer token.
#[derive(Debug)]
pub struct Auth {
    pub key: String,
}

impl Clone for Auth {
    /// A clone carries the same credentials.
    fn clone(&self) -> (r: Auth)
        ensures
            r == *self,
    {
        Auth { key: self.key.clone() }
    }
}

impl Auth {
    /// The value of the `authorization` header this adapter sends.
    pub fn get_header(&self) -> (r: String)
        ensures
            r@ == "Bearer "@ + self.key@,
    {
        let mut h = String::new();
        h.append("Bearer ");
        h.append(self.key.as_str());
        h
    }
}

/// One record as the records endpoint reports it.
pub struct GetRecord {
    pub id: u64,
    pub name: String,
    pub content: String,
    pub ttl: u32,
}

/// The body sent to create a record.
pub struct CreateRecord {
    pub name: String,
    pub rtype: RecordType,
    pub content: String,
    pub ttl: u32,
}

/// The JSON text of a `CreateRecord` body.
pub open spec fn spec_create_record_json(
    name: Seq<char>,
    rtype: RecordType,
    content: Seq<char>,
    ttl: int,
) -> Seq<char> {
    "{\"name\":"@ + spec_json_str(name) + ",\"type\":"@ + spec_json_str(spec_rtype_name(rtype))
        + ",\"content\":"@ + spec_json_str(content) + ",\"ttl\":"@ + spec_dec_digits(ttl) + "}"@
}

impl CreateRecord {
    /// Serialize this body as JSON, field by field.
    pub fn to_json(&self) -> (r: String)
        ensures
            r@ == spec_create_record_json(self.name@, self.rtype, self.content@, self.ttl as int),
    {
        let mut out = String::new();
        out.append("{\"name\":");
        append_json_str(&mut out, self.name.as_str());
        out.append(",\"type\":");
        append_json_str(&mut out, self.rtype.name());
        out.append(",\"content\":");
        append_json_str(&mut out, self.content.as_str());
        out.append(",\"ttl\":");
        append_u64(&mut out, self.ttl as u64);
        out.append("}");
        assert(out@ =~= spec_create_record_json(
            self.name@,
            self.rtype,
            self.content@,
            self.ttl as int,
        ));
        out
    }
}

/// The body sent to update a record: only its content.
pub struct UpdateRecord {
    pub content: String,
}

/// The JSON text of an `UpdateRecord` body.
pub open spec fn spec_update_record_json(content: Seq<char>) -> Seq<char> {
    "{\"content\":"@ + spec_json_str(content) + "}"@
}

impl UpdateRecord {
    /// Serialize this body as JSON.
    pub fn to_json(&self) -> (r: String)
        ensures
            r@ == spec_update_record_json(self.content@),
    {
        let mut out = String::new();
        out.append("{\"content\":");
        append_json_str(&mut out, self.content.as_str());
        out.append("}");
        assert(out@ =~= spec_update_record_json(self.content@));
        out
    }
}

/// Where an operation on this adapter stands.
pub enum OpState {
    /// Nothing sent yet.
    Start,
    /// The account-resolution query was sent.
    SentZone,
    /// The record-lookup query was sent; the account identifier it used.
    SentLookup(u32),
    /// The mutating request was sent.
    SentMutate,
}

/// Synchronous DnSimple DNS provider adapter.
///
/// Holds configuration, authentication, the endpoint (the live API or the
/// sandbox), and the lazily resolved account identifier, which a caller
/// with more than one account supplies up front.
pub struct DnSimple {
    pub config: Config,
    pub endpoint: &'static str,
    pub auth: Auth,
    pub acc_id: Option<u32>,
}

impl DnSimple {
    /// Create a new `DnSimple` provider adapter against the live API.
    pub fn new(config: Config, auth: Auth, acc: Option<u32>) -> (r: DnSimple)
        ensures
            r.config == config && r.auth == auth && r.get_id() == acc,
            r.endpoint@ == "https://api.dnsimple.com/v2"@,
    {
        Self::new_with_endpoint(config, auth, acc, "https://api.dnsimple.com/v2")
    }

    /// Create a new `DnSimple` provider adapter against a chosen endpoint.
    pub fn new_with_endpoint(
        config: Config,
        auth: Auth,
        acc: Option<u32>,
        endpoint: &'static str,
    ) -> (r: DnSimple)
        ensures
            r.config == config && r.auth == auth && r.get_id() == acc,
            r.endpoint@ == endpoint@,
    {
        DnSimple { config, endpoint, auth, acc_id: acc }
    }

    /// The cached account identifier: empty until supplied or resolved,
    /// then fixed for this adapter's lifetime.
    pub open spec fn get_id(&self) -> Option<u32> {
        self.acc_id
    }

    /// The cached account identifier's value; zero while unresolved.
    pub open spec fn spec_acc_val(&self) -> int {
        match self.acc_id {
            Some(id) => id as int,
            None => 0,
        }
    }

    /// The URL of the account-resolution query.
    pub open spec fn spec_accounts_url(&self) -> Seq<char> {
        self.endpoint@ + "/accounts"@
    }

    /// The URL records of the zone are created under.
    pub open spec fn spec_records_url_of(&self, acc: int) -> Seq<char> {
        self.endpoint@ + "/"@ + spec_dec_digits(acc) + "/zones/"@ + self.config.domain@
            + "/records"@
    }

    /// The URL of one record of the zone.
    pub open spec fn spec_record_url_of(&self, acc: int, rec: int) -> Seq<char> {
        self.endpoint@ + "/"@ + spec_dec_digits(acc) + "/zones/"@ + self.config.domain@
            + "/records/"@ + spec_dec_digits(rec)
    }

    /// The headers every request of this adapter carries.
    fn headers(&self) -> (r: Vec<(String, String)>)
        ensures
            r@.len() == 3,
            r@[2].0@ == "authorization"@,
            r@[2].1@ == "Bearer "@ + self.auth.key@,
    {
        let mut headers = json_headers();
        push_header(&mut headers, "authorization", self.auth.get_header());
        headers
    }

    /// The account-resolution query.
    fn accounts_request(&self) -> (r: HttpRequest)
        ensures
            r.method is Get,
            r.url@ == self.endpoint@ + "/accounts"@,
            r.body is None,
    {
        let mut url = String::new();
        url.append(self.endpoint);
        url.append("/accounts");
        HttpRequest { method: Method::Get, url, headers: self.headers(), body: None }
    }

    /// The account-choice rule, over the listed account identifiers:
    /// exactly one yields it, several demand an explicit choice, and none
    /// is an error.
    pub fn account_id_from_list(ids: &Vec<u64>) -> (r: Result<u32, Error>)
        ensures
            (ids@.len() == 1 && ids@[0] <= u32::MAX) ==> (r matches Ok(id) && id == ids@[0]),
            (ids@.len() == 1 && ids@[0] > u32::MAX) ==> (r matches Err(e) && e is JsonError),
            ids@.len() > 1 ==> (r matches Err(e) && e matches Error::ApiError(m) && m@
                == "More than one account returned; you must specify the account ID to use"@),
            ids@.len() == 0 ==> (r matches Err(e) && e matches Error::ApiError(m) && m@
                == "No accounts returned from upstream"@),
    {
        if ids.len() == 1 {
            let id = ids[0];
            if id <= u32::MAX as u64 {
                Ok(id as u32)
            } else {
                Err(Error::JsonError("account id out of range".to_owned()))
            }
        } else if ids.len() > 1 {
            Err(
                Error::ApiError(
                    "More than one account returned; you must specify the account ID to use".to_owned(),
                ),
            )
        } else {
            Err(Error::ApiError("No accounts returned from upstream".to_owned()))
        }
    }

    /// Decode the accounts response into its identifiers and apply the
    /// account-choice rule.
    fn account_id_from_body(body: &str) -> (r: Result<u32, Error>)
        ensures
            r matches Err(e) ==> (e is ApiError || e is JsonError),
    {
        let doc = json_parse(body)?;
        let items = get_array_field(&doc, "data")?;
        let mut ids: Vec<u64> = Vec::new();
        let mut i: usize = 0;
        while i < items.len()
            decreases items@.len() - i,
        {
            match json_get(&items[i], "id") {
                Some(f) => match json_as_u64(f) {
                    Some(n) => ids.push(n),
                    None => {
                        return Err(Error::JsonError("account id is not an integer".to_owned()));
                    },
                },
                None => {
                    return Err(Error::JsonError("missing account id".to_owned()));
                },
            }
            i += 1;
        }
        Self::account_id_from_list(&ids)
    }

    /// The record-lookup query for `(host, rtype)` under the zone.
    fn lookup_request(&self, acc_id: u32, op: &Op) -> (r: HttpRequest)
        ensures
            r.method is Get,
            r.url@ == self.endpoint@ + "/"@ + spec_dec_digits(acc_id as int) + "/zones/"@
                + self.config.domain@ + "/records?name="@ + op.host@ + "&type="@
                + spec_rtype_name(op.rtype),
            r.body is None,
    {
        let mut url = String::new();
        url.append(self.endpoint);
        url.append("/");
        append_u64(&mut url, acc_id as u64);
        url.append("/zones/");
        url.append(self.config.domain.as_str());
        url.append("/records?name=");
        url.append(op.host.as_str());
        url.append("&type=");
        url.append(op.rtype.name());
        HttpRequest { method: Method::Get, url, headers: self.headers(), body: None }
    }

    /// The URL records are created under.
    fn records_url(&self, acc_id: u32) -> (r: String)
        ensures
            r@ == self.endpoint@ + "/"@ + spec_dec_digits(acc_id as int) + "/zones/"@
                + self.config.domain@ + "/records"@,
    {
        let mut url = String::new();
        url.append(self.endpoint);
        url.append("/");
        append_u64(&mut url, acc_id as u64);
        url.append("/zones/");
        url.append(self.config.domain.as_str());
        url.append("/records");
        url
    }

    /// The URL of one record.
    fn record_url(&self, acc_id: u32, rec_id: u64) -> (r: String)
        ensures
            r@ == self.endpoint@ + "/"@ + spec_dec_digits(acc_id as int) + "/zones/"@
                + self.config.domain@ + "/records/"@ + spec_dec_digits(rec_id as int),
    {
        let mut url = String::new();
        url.append(self.endpoint);
        url.append("/");
        append_u64(&mut url, acc_id as u64);
        url.append("/zones/");
        url.append(self.config.domain.as_str());
        url.append("/records/");
        append_u64(&mut url, rec_id);
        url
    }

    /// Decode a lookup response body into its records.
    fn parse_records(body: &str) -> (r: Result<Vec<GetRecord>, Error>) {
        let doc = json_parse(body)?;
        let items = get_array_field(&doc, "data")?;
        let mut records: Vec<GetRecord> = Vec::new();
        let mut i: usize = 0;
        while i < items.len()
            decreases items@.len() - i,
        {
            let item = &items[i];
            let id = get_u64_field(item, "id")?;
            let name = get_string_field(item, "name")?;
            let content = get_string_field(item, "content")?;
            let ttl = match get_u64_field(item, "ttl") {
                Ok(n) if n <= u32::MAX as u64 => n as u32,
                _ => {
                    return Err(Error::JsonError("record ttl is not a small number".to_owned()));
                },
            };
            records.push(GetRecord { id, name, content, ttl });
            i += 1;
        }
        Ok(records)
    }

    /// With the account identifier at hand, either finish (create under
    /// dry-run), emit the mutating create request, or emit the record
    /// lookup every other operation starts with.
    fn dispatch_with_id(&self, op: &Op, acc_id: u32) -> (r: (OpState, Action))
        requires
            op.wf(),
        ensures
            self.config.dry_run ==> !(r.1 is Mutate),
            op.kind is Get ==> !(r.1 is Mutate),
            !(r.0 is SentZone),
            !(op.kind is Get) ==> !(r.1 matches Action::Done(res) && res matches Ok(found)
                && found is Some),
            (self.config.dry_run && op.kind is Create) ==> (r.1 matches Action::Done(res)
                && res matches Ok(found) && found is None),
            (!self.config.dry_run && op.kind is Create) ==> (r.1 matches Action::Mutate(q)
                && q.method is Post && q.url@ == self.spec_records_url_of(acc_id as int) && (
            q.body matches Some(b) && op.value matches Some(v) && b@ == spec_create_record_json(
                op.host@,
                op.rtype,
                v@,
                300,
            ))),
            !(op.kind is Create) ==> (r.0 is SentLookup && (r.1 matches Action::Query(q)
                && q.method is Get)),
            !(r.1 is Done) ==> !(r.0 is Start),
    {
        match op.kind {
            OpKind::Create => {
                if self.config.dry_run {
                    return (OpState::Start, Action::Done(Ok(None)));
                }
                let rec = CreateRecord {
                    name: op.host.clone(),
                    rtype: op.rtype,
                    content: clone_value(&op.value),
                    ttl: 300,
                };
                let req = HttpRequest {
                    method: Method::Post,
                    url: self.records_url(acc_id),
                    headers: self.headers(),
                    body: Some(rec.to_json()),
                };
                (OpState::SentMutate, Action::Mutate(req))
            },
            _ => (OpState::SentLookup(acc_id), Action::Query(self.lookup_request(acc_id, op))),
        }
    }

    /// Drive one operation one step further: feed `None` first, then feed
    /// each response to the request the previous step asked for, until the
    /// action is `Done`.
    ///
    /// The identifier cache only ever fills, and the account-resolution
    /// query is emitted only while it is empty (single-flight, marked by
    /// the `SentZone` state). Under `dry_run`, and for every get, no
    /// mutating request is ever emitted.
    pub fn op_step(&mut self, op: &Op, st: OpState, event: Option<HttpResponse>) -> (r: (
        OpState,
        Action,
    ))
        requires
            op.wf(),
            (st is Start) <==> (event is None),
        ensures
            final(self).config == old(self).config,
            final(self).auth == old(self).auth,
            old(self).get_id() is Some ==> final(self).get_id() == old(self).get_id(),
            r.0 is SentZone ==> old(self).get_id() is None,
            (st is Start && old(self).get_id() is None) ==> (r.0 is SentZone && (r.1 matches
                Action::Query(q) && q.method is Get && q.url@ == old(self).spec_accounts_url())),
            (st is SentZone && (match r.1 {
                Action::Done(res) => !(res is Err),
                _ => true,
            })) ==> final(self).get_id() is Some,
            old(self).config.dry_run ==> !(r.1 is Mutate),
            op.kind is Get ==> !(r.1 is Mutate),
            (st is Start && old(self).get_id() is Some && !(op.kind is Create))
                ==> (r.0 is SentLookup && (r.1 matches Action::Query(q) && q.method
                is Get)),
            (st is Start && old(self).get_id() is Some && old(self).config.dry_run && op.kind
                is Create) ==> (r.1 matches Action::Done(res) && res matches Ok(found) && found
                is None),
            (st is Start && old(self).get_id() is Some && !old(self).config.dry_run && op.kind
                is Create) ==> (r.1 matches Action::Mutate(q) && q.method is Post && q.url@
                == old(self).spec_records_url_of(old(self).spec_acc_val()) && (q.body matches
            Some(b) && op.value matches Some(v) && b@ == spec_create_record_json(
                op.host@,
                op.rtype,
                v@,
                300,
            ))),
            match r.1 {
                Action::Mutate(q) => match st {
                    OpState::SentLookup(aid) => match op.kind {
                        OpKind::Update => q.method is Patch && (q.body matches Some(b)
                            && op.value matches Some(v) && b@ == spec_update_record_json(v@))
                            && (exists|rid: int|
                            q.url@ == #[trigger] old(self).spec_record_url_of(
                                aid as int,
                                rid,
                            )),
                        OpKind::Delete => q.method is Delete && q.body is None && (exists|
                            rid: int,
                        |
                            q.url@ == #[trigger] old(self).spec_record_url_of(
                                aid as int,
                                rid,
                            )),
                        _ => true,
                    },
                    _ => true,
                },
                _ => true,
            },
            (st is SentLookup && (event matches Some(resp) && resp.status == 404)) ==> (
            r.1 matches Action::Done(res) && res matches Ok(found) && found is None),
            (st is SentMutate && (event matches Some(resp) && spec_status_success(
                resp.status,
            ))) ==> (r.1 matches Action::Done(res) && res matches Ok(found) && found is None),
            (st is SentMutate && !(op.kind is Delete) && (event matches Some(resp)
                && !spec_status_success(resp.status))) ==> (r.1 matches Action::Done(res)
                && res is Err),
            (st is SentMutate && op.kind is Delete && (event matches Some(resp) && resp.status
                == 404)) ==> (r.1 matches Action::Done(res) && res matches Ok(found) && found
                is None),
            (st is SentMutate && op.kind is Delete && (event matches Some(resp)
                && !spec_status_success(resp.status) && resp.status != 404)) ==> (r.1 matches
                Action::Done(res) && res is Err),
            st is SentMutate ==> r.1 is Done,
            !(r.1 is Done) ==> !(r.0 is Start),
            !(op.kind is Get) ==> !(r.1 matches Action::Done(res) && res matches Ok(found)
                && found is Some),
    {
        match st {
            OpState::Start => {
                let aid = match self.acc_id {
                    Some(id) => id,
                    None => {
                        return (OpState::SentZone, Action::Query(self.accounts_request()));
                    },
                };
                self.dispatch_with_id(op, aid)
            },
            OpState::SentZone => {
                let resp = match event {
                    Some(resp) => resp,
                    None => {
                        return (
                            OpState::Start,
                            Action::Done(Err(Error::ApiError("missing response".to_owned()))),
                        );
                    },
                };
                let body = match response_body(&resp) {
                    Ok(b) => b,
                    Err(e) => {
                        return (OpState::Start, Action::Done(Err(e)));
                    },
                };
                let id = match body {
                    Some(b) => match Self::account_id_from_body(b.as_str()) {
                        Ok(id) => id,
                        Err(e) => {
                            return (OpState::Start, Action::Done(Err(e)));
                        },
                    },
                    None => {
                        return (
                            OpState::Start,
                            Action::Done(
                                Err(Error::ApiError("No accounts returned from upstream".to_owned())),
                            ),
                        );
                    },
                };
                // Re-check the cache before storing: an already-resolved
                // identifier wins.
                let aid = match self.acc_id {
                    Some(existing) => existing,
                    None => {
                        self.acc_id = Some(id);
                        id
                    },
                };
                self.dispatch_with_id(op, aid)
            },
            OpState::SentLookup(acc_id) => {
                let resp = match event {
                    Some(resp) => resp,
                    None => {
                        return (
                            OpState::Start,
                            Action::Done(Err(Error::ApiError("missing response".to_owned()))),
                        );
                    },
                };
                let body = match response_body(&resp) {
                    Ok(b) => b,
                    Err(e) => {
                        return (OpState::Start, Action::Done(Err(e)));
                    },
                };
                let records = match body {
                    Some(b) => match Self::parse_records(b.as_str()) {
                        Ok(p) => p,
                        Err(e) => {
                            return (OpState::Start, Action::Done(Err(e)));
                        },
                    },
                    // A missing record list is not an error.
                    None => {
                        return (OpState::Start, Action::Done(Ok(None)));
                    },
                };
                let found = match select_single(records) {
                    Ok(f) => f,
                    Err(e) => {
                        return (OpState::Start, Action::Done(Err(e)));
                    },
                };
                match op.kind {
                    OpKind::Get => match found {
                        Some(rec) => (OpState::Start, Action::Done(Ok(Some(rec.content)))),
                        None => (OpState::Start, Action::Done(Ok(None))),
                    },
                    OpKind::Update => match found {
                        Some(rec) => {
                            if self.config.dry_run {
                                return (OpState::Start, Action::Done(Ok(None)));
                            }
                            let update = UpdateRecord { content: clone_value(&op.value) };
                            let req = HttpRequest {
                                method: Method::Patch,
                                url: self.record_url(acc_id, rec.id),
                                headers: self.headers(),
                                body: Some(update.to_json()),
                            };
                            proof {
                                assert(req.url@ == self.spec_record_url_of(
                                    acc_id as int,
                                    rec.id as int,
                                ));
                            }
                            (OpState::SentMutate, Action::Mutate(req))
                        },
                        // An update of a record that does not exist is a
                        // logged no-op for this provider.
                        None => (OpState::Start, Action::Done(Ok(None))),
                    },
                    _ => match found {
                        Some(rec) => {
                            if self.config.dry_run {
                                return (OpState::Start, Action::Done(Ok(None)));
                            }
                            let req = HttpRequest {
                                method: Method::Delete,
                                url: self.record_url(acc_id, rec.id),
                                headers: self.headers(),
                                body: None,
                            };
                            proof {
                                assert(req.url@ == self.spec_record_url_of(
                                    acc_id as int,
                                    rec.id as int,
                                ));
                            }
                            (OpState::SentMutate, Action::Mutate(req))
                        },
                        // Deleting a record that does not exist is a logged
                        // no-op, not an error.
                        None => (OpState::Start, Action::Done(Ok(None))),
                    },
                }
            },
            OpState::SentMutate => {
                let resp = match event {
                    Some(resp) => resp,
                    None => {
                        return (
                            OpState::Start,
                            Action::Done(Err(Error::ApiError("missing response".to_owned()))),
                        );
                    },
                };
                // A failed mutation is reported, never swallowed; a 404 on
                // a delete is the soft no-op.
                let checked = match op.kind {
                    OpKind::Delete => check_delete(&resp),
                    _ => check_error(&resp),
                };
                match checked {
                    Ok(()) => (OpState::Start, Action::Done(Ok(None))),
                    Err(e) => (OpState::Start, Action::Done(Err(e))),
                }
            },
        }
    }
}

/// Clone the value an operation carries; empty for value-less operations.
fn clone_value(value: &Option<String>) -> (r: String)
    ensures
        value matches Some(v) ==> r@ == v@,
{
    match value {
        Some(v) => v.clone(),
        None => String::new(),
    }
}

} // verus!
