//! The Porkbun adapter: every request carries the key pair in its JSON
//! body, lookups are POSTs to a retrieve endpoint, record identifiers come
//! back as decimal strings, and an update without a target falls back to a
//! create.

use vstd::prelude::*;
use vstd::string::StringExecFns;

use crate::Config;
use crate::RecordType;
use crate::record_type_from_name;
use crate::spec_rtype_name;
use crate::errors::Error;
use crate::http::HttpRequest;
use crate::http::HttpResponse;
use crate::http::Method;
use crate::http::check_delete;
use crate::http::check_error;
use crate::http::spec_status_success;
use crate::http::json_headers;
use crate::http::response_body;
use crate::jsontext::append_json_str;
use crate::jsontext::spec_json_str;
use crate::jsonval::get_array_field;
use crate::jsonval::get_string_field;
use crate::jsonval::json_parse;
use crate::op::Action;
use crate::op::Op;
use crate::op::OpKind;
use crate::op::select_single;
use crate::text::append_u64;
use crate::text::parse_u64;
use crate::text::spec_dec_digits;

verus! {

/// Authentication credentials for the Porkbun API: the API key and its
/// secret, both sent in request bodies.
#[derive(Debug)]
pub struct Auth {
    pub key: String,
    pub secret: String,
}

impl Clone for Auth {
    /// A clone carries the same credentials.
    fn clone(&self) -> (r: Auth)
        ensures
            r == *self,
    {
        Auth { key: self.key.clone(), secret: self.secret.clone() }
    }
}

/// A request body holding only the credentials, as the retrieve and delete
/// endpoints expect it.
pub struct AuthOnly {
    pub secretapikey: String,
    pub apikey: String,
}

impl From<Auth> for AuthOnly {
    fn from(value: Auth) -> (r: AuthOnly) {
        AuthOnly { secretapikey: value.secret, apikey: value.key }
    }
}

impl vstd::std_specs::convert::FromSpecImpl<Auth> for AuthOnly {
    open spec fn obeys_from_spec() -> bool {
        true
    }

    open spec fn from_spec(t: Auth) -> AuthOnly {
        AuthOnly { secretapikey: t.secret, apikey: t.key }
    }
}

/// The JSON text of an `AuthOnly` body.
pub open spec fn spec_auth_only_json(secret: Seq<char>, key: Seq<char>) -> Seq<char> {
    "{\"secretapikey\":"@ + spec_json_str(secret) + ",\"apikey\":"@ + spec_json_str(key) + "}"@
}

impl AuthOnly {
    /// Serialize this body as JSON.
    pub fn to_json(&self) -> (r: String)
        ensures
            r@ == spec_auth_only_json(self.secretapikey@, self.apikey@),
    {
        let mut out = String::new();
        out.append("{\"secretapikey\":");
        append_json_str(&mut out, self.secretapikey.as_str());
        out.append(",\"apikey\":");
        append_json_str(&mut out, self.apikey.as_str());
        out.append("}");
        assert(out@ =~= spec_auth_only_json(self.secretapikey@, self.apikey@));
        out
    }
}

/// A response carrying only a record identifier.
pub struct IdOnly {
    pub id: u64,
}

/// One record as the retrieve endpoint reports it; the identifier arrives
/// as a decimal string and is decoded on this side.
pub struct Record {
    pub id: u64,
    pub name: String,
    pub rtype: RecordType,
    pub content: String,
}

/// The body sent to create or edit a record: the credentials and the
/// record fields together.
pub struct CreateUpdate {
    pub secretapikey: String,
    pub apikey: String,
    pub name: String,
    pub rtype: RecordType,
    pub content: String,
    pub ttl: u32,
}

/// The JSON text of a `CreateUpdate` body.
pub open spec fn spec_create_update_json(
    secret: Seq<char>,
    key: Seq<char>,
    name: Seq<char>,
    rtype: RecordType,
    content: Seq<char>,
    ttl: int,
) -> Seq<char> {
    "{\"secretapikey\":"@ + spec_json_str(secret) + ",\"apikey\":"@ + spec_json_str(key)
        + ",\"name\":"@ + spec_json_str(name) + ",\"type\":"@ + spec_json_str(
        spec_rtype_name(rtype),
    ) + ",\"content\":"@ + spec_json_str(content) + ",\"ttl\":"@ + spec_dec_digits(ttl) + "}"@
}

impl CreateUpdate {
    /// Serialize this body as JSON, field by field.
    pub fn to_json(&self) -> (r: String)
        ensures
            r@ == spec_create_update_json(
                self.secretapikey@,
                self.apikey@,
                self.name@,
                self.rtype,
                self.content@,
                self.ttl as int,
            ),
    {
        let mut out = String::new();
        out.append("{\"secretapikey\":");
        append_json_str(&mut out, self.secretapikey.as_str());
        out.append(",\"apikey\":");
        append_json_str(&mut out, self.apikey.as_str());
        out.append(",\"name\":");
        append_json_str(&mut out, self.name.as_str());
        out.append(",\"type\":");
        append_json_str(&mut out, self.rtype.name());
        out.append(",\"content\":");
        append_json_str(&mut out, self.content.as_str());
        out.append(",\"ttl\":");
        append_u64(&mut out, self.ttl as u64);
        out.append("}");
        assert(out@ =~= spec_create_update_json(
            self.secretapikey@,
            self.apikey@,
            self.name@,
            self.rtype,
            self.content@,
            self.ttl as int,
        ));
        out
    }
}

/// The retrieve URL for `(host, rtype)` under a domain.
pub open spec fn spec_lookup_url(domain: Seq<char>, rtype: RecordType, host: Seq<char>) -> Seq<
    char,
> {
    "https://api.porkbun.com/api/json/v3/dns/retrieveByNameType/"@ + domain + "/"@
        + spec_rtype_name(rtype) + "/"@ + host
}

/// The create endpoint's URL for a domain.
pub open spec fn spec_create_url_of(domain: Seq<char>) -> Seq<char> {
    "https://api.porkbun.com/api/json/v3/dns/create/"@ + domain
}

/// The edit endpoint's URL for one record of a domain.
pub open spec fn spec_edit_url_of(domain: Seq<char>, rec: int) -> Seq<char> {
    "https://api.porkbun.com/api/json/v3/dns/edit/"@ + domain + "/"@ + spec_dec_digits(rec)
}

/// The delete endpoint's URL for one record of a domain.
pub open spec fn spec_delete_url_of(domain: Seq<char>, rec: int) -> Seq<char> {
    "https://api.porkbun.com/api/json/v3/dns/delete/"@ + domain + "/"@ + spec_dec_digits(rec)
}

/// Where an operation on this adapter stands.
pub enum OpState {
    /// Nothing sent yet.
    Start,
    /// The record-retrieve query was sent.
    SentLookup,
    /// The mutating request was sent.
    SentMutate,
}

/// Synchronous Porkbun DNS provider adapter.
///
/// Holds configuration and authentication; this provider needs no cached
/// identifier.
pub struct Porkbun {
    pub config: Config,
    pub auth: Auth,
}

impl Porkbun {
    /// Create a new `Porkbun` provider adapter.
    pub fn new(config: Config, auth: Auth) -> (r: Porkbun)
        ensures
            r.config == config && r.auth == auth,
    {
        Porkbun { config, auth }
    }

    /// The retrieve query for `(host, rtype)`: a POST whose body carries
    /// only the credentials. It reads nothing and changes nothing
    /// upstream, so it counts as a query, not a mutation.
    fn lookup_request(&self, op: &Op) -> (r: HttpRequest)
        ensures
            r.method is Post,
            r.url@ == "https://api.porkbun.com/api/json/v3/dns/retrieveByNameType/"@
                + self.config.domain@ + "/"@ + spec_rtype_name(op.rtype) + "/"@ + op.host@,
            (r.body matches Some(b) && b@ == spec_auth_only_json(
                self.auth.secret@,
                self.auth.key@,
            )),
    {
        let mut url = String::new();
        url.append("https://api.porkbun.com/api/json/v3/dns/retrieveByNameType/");
        url.append(self.config.domain.as_str());
        url.append("/");
        url.append(op.rtype.name());
        url.append("/");
        url.append(op.host.as_str());
        let auth = AuthOnly {
            secretapikey: self.auth.secret.clone(),
            apikey: self.auth.key.clone(),
        };
        let body = auth.to_json();
        HttpRequest { method: Method::Post, url, headers: json_headers(), body: Some(body) }
    }

    /// Decode a retrieve response body into its records.
    fn parse_records(body: &str) -> (r: Result<Vec<Record>, Error>) {
        let doc = json_parse(body)?;
        let items = get_array_field(&doc, "records")?;
        let mut records: Vec<Record> = Vec::new();
        let mut i: usize = 0;
        while i < items.len()
            decreases items@.len() - i,
        {
            let item = &items[i];
            let id_text = get_string_field(item, "id")?;
            let id = match parse_u64(id_text.as_str()) {
                Some(n) => n,
                None => {
                    return Err(Error::JsonError("record id is not a decimal string".to_owned()));
                },
            };
            let name = get_string_field(item, "name")?;
            let type_tag = get_string_field(item, "type")?;
            let rtype = match record_type_from_name(type_tag.as_str()) {
                Ok(t) => t,
                Err(_) => {
                    return Err(Error::JsonError("unrecognized record type".to_owned()));
                },
            };
            let content = get_string_field(item, "content")?;
            records.push(Record { id, name, rtype, content });
            i += 1;
        }
        Ok(records)
    }

    /// Build the create-or-edit body for `op`.
    fn body_for(&self, op: &Op) -> (r: String)
        requires
            op.value is Some,
        ensures
            op.value matches Some(v) ==> r@ == spec_create_update_json(
                self.auth.secret@,
                self.auth.key@,
                op.host@,
                op.rtype,
                v@,
                300,
            ),
    {
        let mut content = String::new();
        match &op.value {
            Some(v) => content.append(v.as_str()),
            None => (),
        }
        let record = CreateUpdate {
            secretapikey: self.auth.secret.clone(),
            apikey: self.auth.key.clone(),
            name: op.host.clone(),
            rtype: op.rtype,
            content,
            ttl: 300,
        };
        record.to_json()
    }

    /// The create endpoint's URL.
    fn create_url(&self) -> (r: String)
        ensures
            r@ == "https://api.porkbun.com/api/json/v3/dns/create/"@ + self.config.domain@,
    {
        let mut url = String::new();
        url.append("https://api.porkbun.com/api/json/v3/dns/create/");
        url.append(self.config.domain.as_str());
        url
    }

    /// The edit endpoint's URL for one record.
    fn edit_url(&self, id: u64) -> (r: String)
        ensures
            r@ == "https://api.porkbun.com/api/json/v3/dns/edit/"@ + self.config.domain@ + "/"@
                + spec_dec_digits(id as int),
    {
        let mut url = String::new();
        url.append("https://api.porkbun.com/api/json/v3/dns/edit/");
        url.append(self.config.domain.as_str());
        url.append("/");
        append_u64(&mut url, id);
        url
    }

    /// The delete endpoint's URL for one record.
    fn delete_url(&self, id: u64) -> (r: String)
        ensures
            r@ == "https://api.porkbun.com/api/json/v3/dns/delete/"@ + self.config.domain@
                + "/"@ + spec_dec_digits(id as int),
    {
        let mut url = String::new();
        url.append("https://api.porkbun.com/api/json/v3/dns/delete/");
        url.append(self.config.domain.as_str());
        url.append("/");
        append_u64(&mut url, id);
        url
    }

    /// Finish a create, or emit its mutating request: shared between the
    /// create operation and the update fallback.
    fn start_create(&self, op: &Op) -> (r: (OpState, Action))
        requires
            op.value is Some,
        ensures
            self.config.dry_run ==> (r.1 matches Action::Done(res) && res matches Ok(found)
                && found is None),
            !self.config.dry_run ==> (r.1 matches Action::Mutate(q) && q.method is Post
                && q.url@ == spec_create_url_of(self.config.domain@) && (q.body matches Some(
                b,
            ) && op.value matches Some(v) && b@ == spec_create_update_json(
                self.auth.secret@,
                self.auth.key@,
                op.host@,
                op.rtype,
                v@,
                300,
            ))),
            !(r.1 matches Action::Done(res) && res matches Ok(found) && found is Some),
            !(r.1 is Done) ==> !(r.0 is Start),
    {
        if self.config.dry_run {
            return (OpState::Start, Action::Done(Ok(None)));
        }
        let req = HttpRequest {
            method: Method::Post,
            url: self.create_url(),
            headers: json_headers(),
            body: Some(self.body_for(op)),
        };
        (OpState::SentMutate, Action::Mutate(req))
    }

    /// Drive one operation one step further: feed `None` first, then feed
    /// each response to the request the previous step asked for, until the
    /// action is `Done`.
    ///
    /// Under `dry_run`, and for every get, no mutating request is ever
    /// emitted. An update whose target does not exist falls back to
    /// creating the record.
    pub fn op_step(&self, op: &Op, st: OpState, event: Option<HttpResponse>) -> (r: (
        OpState,
        Action,
    ))
        requires
            op.wf(),
            (st is Start) <==> (event is None),
        ensures
            self.config.dry_run ==> !(r.1 is Mutate),
            op.kind is Get ==> !(r.1 is Mutate),
            (st is Start && self.config.dry_run && op.kind is Create) ==> (r.1 matches
                Action::Done(res) && res matches Ok(found) && found is None),
            (st is Start && !self.config.dry_run && op.kind is Create) ==> (r.1 matches
                Action::Mutate(q) && q.method is Post && q.url@ == spec_create_url_of(
                self.config.domain@,
            ) && (q.body matches Some(b) && op.value matches Some(v) && b@
                == spec_create_update_json(
                self.auth.secret@,
                self.auth.key@,
                op.host@,
                op.rtype,
                v@,
                300,
            ))),
            (st is Start && !(op.kind is Create)) ==> (r.0 is SentLookup && (r.1 matches
                Action::Query(q) && q.method is Post && q.url@ == spec_lookup_url(
                self.config.domain@,
                op.rtype,
                op.host@,
            ) && (q.body matches Some(b) && b@ == spec_auth_only_json(
                self.auth.secret@,
                self.auth.key@,
            )))),
            match r.1 {
                Action::Mutate(q) => if st is SentLookup {
                    match op.kind {
                        OpKind::Update => q.method is Post && (q.body matches Some(b)
                            && op.value matches Some(v) && b@ == spec_create_update_json(
                            self.auth.secret@,
                            self.auth.key@,
                            op.host@,
                            op.rtype,
                            v@,
                            300,
                        )) && (q.url@ == spec_create_url_of(self.config.domain@) || (exists|
                            rid: int,
                        |
                            q.url@ == #[trigger] spec_edit_url_of(
                                self.config.domain@,
                                rid,
                            ))),
                        OpKind::Delete => q.method is Post && (q.body matches Some(b) && b@
                            == spec_auth_only_json(self.auth.secret@, self.auth.key@)) && (
                        exists|rid: int|
                            q.url@ == #[trigger] spec_delete_url_of(
                                self.config.domain@,
                                rid,
                            )),
                        _ => true,
                    }
                } else {
                    true
                },
                _ => true,
            },
            // An update never finishes successfully at the lookup step:
            // with a target it edits, without one it creates instead.
            (st is SentLookup && op.kind is Update && !self.config.dry_run) ==> (match r.1 {
                Action::Done(res) => res is Err,
                _ => true,
            }),
            st is SentMutate ==> r.1 is Done,
            (st is SentMutate && (event matches Some(resp) && spec_status_success(
                resp.status,
            ))) ==> (r.1 matches Action::Done(res) && res matches Ok(found) && found is None),
            (st is SentMutate && !(op.kind is Delete) && (event matches Some(resp)
                && !spec_status_success(resp.status))) ==> (r.1 matches Action::Done(res)
                && res is Err),
            (st is SentMutate && op.kind is Delete && (event matches Some(resp) && resp.status
                == 404)) ==> (r.1 matches Action::Done(res) && res matches Ok(found) && found
                is None),
            (st is SentMutate && op.kind is Delete && (event matches Some(resp)
                && !spec_status_success(resp.status) && resp.status != 404)) ==> (r.1 matches
                Action::Done(res) && res is Err),
            !(r.1 is Done) ==> !(r.0 is Start),
            (st is SentLookup && (event matches Some(resp) && resp.status == 404)) ==> (
            match op.kind {
                OpKind::Update => if self.config.dry_run {
                    r.1 matches Action::Done(res) && res matches Ok(found) && found is None
                } else {
                    r.1 is Mutate
                },
                _ => r.1 matches Action::Done(res) && res matches Ok(found) && found is None,
            }),
            !(op.kind is Get) ==> !(r.1 matches Action::Done(res) && res matches Ok(found)
                && found is Some),
    {
        match st {
            OpState::Start => match op.kind {
                OpKind::Create => self.start_create(op),
                _ => (OpState::SentLookup, Action::Query(self.lookup_request(op))),
            },
            OpState::SentLookup => {
                let resp = match event {
                    Some(resp) => resp,
                    None => {
                        return (
                            OpState::Start,
                            Action::Done(Err(Error::ApiError("missing response".to_owned()))),
                        );
                    },
                };
                let body = match response_body(&resp) {
                    Ok(b) => b,
                    Err(e) => {
                        return (OpState::Start, Action::Done(Err(e)));
                    },
                };
                let records = match body {
                    Some(b) => match Self::parse_records(b.as_str()) {
                        Ok(p) => p,
                        Err(e) => {
                            return (OpState::Start, Action::Done(Err(e)));
                        },
                    },
                    // A missing record list is not an error; an update
                    // without a target creates the record instead.
                    None => {
                        return match op.kind {
                            OpKind::Update => self.start_create(op),
                            _ => (OpState::Start, Action::Done(Ok(None))),
                        };
                    },
                };
                let found = match select_single(records) {
                    Ok(f) => f,
                    Err(e) => {
                        return (OpState::Start, Action::Done(Err(e)));
                    },
                };
                match op.kind {
                    OpKind::Get => match found {
                        Some(rec) => (OpState::Start, Action::Done(Ok(Some(rec.content)))),
                        None => (OpState::Start, Action::Done(Ok(None))),
                    },
                    OpKind::Update => match found {
                        Some(rec) => {
                            if self.config.dry_run {
                                return (OpState::Start, Action::Done(Ok(None)));
                            }
                            let req = HttpRequest {
                                method: Method::Post,
                                url: self.edit_url(rec.id),
                                headers: json_headers(),
                                body: Some(self.body_for(op)),
                            };
                            proof {
                                assert(req.url@ == spec_edit_url_of(
                                    self.config.domain@,
                                    rec.id as int,
                                ));
                            }
                            (OpState::SentMutate, Action::Mutate(req))
                        },
                        // An update without a target creates the record
                        // instead.
                        None => self.start_create(op),
                    },
                    _ => match found {
                        Some(rec) => {
                            if self.config.dry_run {
                                return (OpState::Start, Action::Done(Ok(None)));
                            }
                            let auth = AuthOnly {
                                secretapikey: self.auth.secret.clone(),
                                apikey: self.auth.key.clone(),
                            };
                            let req = HttpRequest {
                                method: Method::Post,
                                url: self.delete_url(rec.id),
                                headers: json_headers(),
                                body: Some(auth.to_json()),
                            };
                            proof {
                                assert(req.url@ == spec_delete_url_of(
                                    self.config.domain@,
                                    rec.id as int,
                                ));
                            }
                            (OpState::SentMutate, Action::Mutate(req))
                        },
                        // Deleting a record that does not exist is a logged
                        // no-op, not an error.
                        None => (OpState::Start, Action::Done(Ok(None))),
                    },
                }
            },
            OpState::SentMutate => {
                let resp = match event {
                    Some(resp) => resp,
                    None => {
                        return (
                            OpState::Start,
                            Action::Done(Err(Error::ApiError("missing response".to_owned()))),
                        );
                    },
                };
                // A failed mutation is reported, never swallowed; a 404 on
                // a delete is the soft no-op.
                let checked = match op.kind {
                    OpKind::Delete => check_delete(&resp),
                    _ => check_error(&resp),
                };
                match checked {
                    Ok(()) => (OpState::Start, Action::Done(Ok(None))),
                    Err(e) => (OpState::Start, Action::Done(Err(e))),
                }
            },
        }
    }
}

} // verus!
