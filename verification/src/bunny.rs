//! The Bunny adapter: access-key auth, a cached zone identifier found by
//! searching the zone list, small integer codes as the wire form of record
//! types, and a records endpoint that cannot filter by type, so matching
//! happens on this side.

use vstd::prelude::*;
use vstd::string::StringExecFns;

use crate::Config;
use crate::RecordType;
use crate::errors::Error;
use crate::http::HttpRequest;
use crate::http::HttpResponse;
use crate::http::Method;
use crate::http::json_headers;
use crate::http::push_header;
use crate::http::check_delete;
use crate::http::check_error;
use crate::http::response_body;
use crate::http::spec_status_success;
use crate::jsontext::append_json_str;
use crate::jsontext::spec_json_str;
use crate::jsonval::get_array_field;
use crate::jsonval::get_string_field;
use crate::jsonval::get_u64_field;
use crate::jsonval::json_as_string;
use crate::jsonval::json_as_u64;
use crate::jsonval::json_get;
use crate::jsonval::json_parse;
use crate::op::Action;
use crate::op::Op;
use crate::op::OpKind;
use crate::op::select_single;
use crate::text::append_u64;
use crate::text::spec_dec_digits;
use crate::text::str_eq;

verus! {

/// The small integer code this provider uses as the wire form of a record
/// type; a type it cannot represent has none.
pub open spec fn spec_bunny_code(t: RecordType) -> Option<u64> {
    match t {
        RecordType::A => Some(0u64),
        RecordType::AAAA => Some(1u64),
        RecordType::CNAME => Some(2u64),
        RecordType::TXT => Some(3u64),
        RecordType::MX => Some(4u64),
        RecordType::SRV => Some(8u64),
        RecordType::CAA => Some(9u64),
        RecordType::PTR => Some(10u64),
        RecordType::NS => Some(12u64),
        RecordType::SVCB => Some(13u64),
        RecordType::HTTPS => Some(14u64),
        _ => None,
    }
}

/// The record type a wire code stands for; an unassigned code has none.
pub open spec fn spec_bunny_rtype(code: u64) -> Option<RecordType> {
    if code == 0 {
        Some(RecordType::A)
    } else if code == 1 {
        Some(RecordType::AAAA)
    } else if code == 2 {
        Some(RecordType::CNAME)
    } else if code == 3 {
        Some(RecordType::TXT)
    } else if code == 4 {
        Some(RecordType::MX)
    } else if code == 8 {
        Some(RecordType::SRV)
    } else if code == 9 {
        Some(RecordType::CAA)
    } else if code == 10 {
        Some(RecordType::PTR)
    } else if code == 12 {
        Some(RecordType::NS)
    } else if code == 13 {
        Some(RecordType::SVCB)
    } else if code == 14 {
        Some(RecordType::HTTPS)
    } else {
        None
    }
}

/// Encode a record type as this provider's wire code; a type the provider
/// cannot represent is a reported error, never a substituted code.
pub fn record_type_code(t: RecordType) -> (r: Result<u64, Error>)
    ensures
        match r {
            Ok(c) => spec_bunny_code(t) == Some(c),
            Err(e) => spec_bunny_code(t) is None && e is ApiError,
        },
{
    match t {
        RecordType::A => Ok(0),
        RecordType::AAAA => Ok(1),
        RecordType::CNAME => Ok(2),
        RecordType::TXT => Ok(3),
        RecordType::MX => Ok(4),
        RecordType::SRV => Ok(8),
        RecordType::CAA => Ok(9),
        RecordType::PTR => Ok(10),
        RecordType::NS => Ok(12),
        RecordType::SVCB => Ok(13),
        RecordType::HTTPS => Ok(14),
        _ => Err(Error::ApiError("record type has no wire code for this provider".to_owned())),
    }
}

/// The message reported for an unassigned wire code: it names the code.
pub open spec fn spec_invalid_code_msg(code: int) -> Seq<char> {
    "Invalid RecordType ID "@ + spec_dec_digits(code)
}

/// Decode this provider's wire code; an unassigned code is a reported
/// error that names the code, never a guess.
pub fn record_type_from_code(code: u64) -> (r: Result<RecordType, Error>)
    ensures
        match r {
            Ok(t) => spec_bunny_rtype(code) == Some(t),
            Err(e) => spec_bunny_rtype(code) is None && (e matches Error::ApiError(m) && m@
                == spec_invalid_code_msg(code as int)),
        },
{
    if code == 0 {
        Ok(RecordType::A)
    } else if code == 1 {
        Ok(RecordType::AAAA)
    } else if code == 2 {
        Ok(RecordType::CNAME)
    } else if code == 3 {
        Ok(RecordType::TXT)
    } else if code == 4 {
        Ok(RecordType::MX)
    } else if code == 8 {
        Ok(RecordType::SRV)
    } else if code == 9 {
        Ok(RecordType::CAA)
    } else if code == 10 {
        Ok(RecordType::PTR)
    } else if code == 12 {
        Ok(RecordType::NS)
    } else if code == 13 {
        Ok(RecordType::SVCB)
    } else if code == 14 {
        Ok(RecordType::HTTPS)
    } else {
        let mut m = String::new();
        m.append("Invalid RecordType ID ");
        append_u64(&mut m, code);
        Err(Error::ApiError(m))
    }
}

/// Decoding a wire code inverts encoding: every representable record
/// type's code decodes back to that type.
pub proof fn lemma_bunny_code_round_trip(t: RecordType)
    ensures
        spec_bunny_code(t) matches Some(c) ==> spec_bunny_rtype(c) == Some(t),
{
}

/// Encoding inverts decoding: every assigned wire code encodes back from
/// the type it stands for.
pub proof fn lemma_bunny_rtype_round_trip(code: u64)
    ensures
        spec_bunny_rtype(code) matches Some(t) ==> spec_bunny_code(t) == Some(code),
{
}

/// Authentication credentials for the Bunny API: the access key, sent as
/// it is in the `AccessKey` header.
#[derive(Clone, Debug)]
pub struct Auth {
    pub key: String,
}

impl Auth {
    /// The value of the `AccessKey` header this adapter sends.
    pub fn get_header(&self) -> (r: String)
        ensures
            r@ == self.key@,
    {
        self.key.clone()
    }
}

/// One zone as the zone-list endpoint reports it.
pub struct ZoneInfo {
    pub id: u64,
    pub domain: String,
}

/// One record as the zone endpoint reports it.
pub struct Record {
    pub id: u64,
    pub rtype: RecordType,
    pub value: String,
    pub name: String,
    pub ttl: u64,
}

/// The body sent to create or replace a record; the type goes over the
/// wire as this provider's integer code.
pub struct CreateUpdate {
    pub value: String,
    pub name: String,
    pub ttl: u64,
    pub rtype: RecordType,
}

/// The JSON text of a `CreateUpdate` body, given the wire code of its
/// record type.
pub open spec fn spec_create_update_json(
    value: Seq<char>,
    name: Seq<char>,
    ttl: int,
    code: int,
) -> Seq<char> {
    "{\"Value\":"@ + spec_json_str(value) + ",\"Name\":"@ + spec_json_str(name) + ",\"Ttl\":"@
        + spec_dec_digits(ttl) + ",\"Type\":"@ + spec_dec_digits(code) + "}"@
}

impl CreateUpdate {
    /// Serialize this body as JSON; a record type without a wire code is a
    /// reported error.
    pub fn to_json(&self) -> (r: Result<String, Error>)
        ensures
            match r {
                Ok(b) => (spec_bunny_code(self.rtype) matches Some(c) && b@
                    == spec_create_update_json(self.value@, self.name@, self.ttl as int, c as int)),
                Err(e) => spec_bunny_code(self.rtype) is None && e is ApiError,
            },
    {
        let code = record_type_code(self.rtype)?;
        let mut out = String::new();
        out.append("{\"Value\":");
        append_json_str(&mut out, self.value.as_str());
        out.append(",\"Name\":");
        append_json_str(&mut out, self.name.as_str());
        out.append(",\"Ttl\":");
        append_u64(&mut out, self.ttl);
        out.append(",\"Type\":");
        append_u64(&mut out, code);
        out.append("}");
        assert(out@ =~= spec_create_update_json(
            self.value@,
            self.name@,
            self.ttl as int,
            code as int,
        ));
        Ok(out)
    }
}

/// The URL of the zone-search query for a domain.
pub open spec fn spec_zones_search_url(domain: Seq<char>) -> Seq<char> {
    "https://api.bunny.net/dnszone?search="@ + domain
}

/// The URL records of a resolved zone are created under.
pub open spec fn spec_records_url_of(zone: int) -> Seq<char> {
    "https://api.bunny.net/dnszone/"@ + spec_dec_digits(zone) + "/records"@
}

/// The URL of one record of a resolved zone.
pub open spec fn spec_record_url_of(zone: int, rec: int) -> Seq<char> {
    "https://api.bunny.net/dnszone/"@ + spec_dec_digits(zone) + "/records/"@ + spec_dec_digits(
        rec,
    )
}

/// The first zone of the list whose domain is `name`, if any.
pub fn find_zone(zones: &Vec<ZoneInfo>, name: &str) -> (r: Option<ZoneInfo>)
    ensures
        match r {
            Some(z) => z.domain@ == name@ && (exists|i: int|
                0 <= i < zones@.len() && #[trigger] zones@[i] == z),
            None => forall|i: int| 0 <= i < zones@.len() ==> #[trigger] zones@[i].domain@
                != name@,
        },
{
    let mut i: usize = 0;
    while i < zones.len()
        invariant
            i <= zones@.len(),
            forall|j: int| 0 <= j < i ==> #[trigger] zones@[j].domain@ != name@,
        decreases zones@.len() - i,
    {
        if str_eq(zones[i].domain.as_str(), name) {
            let z = ZoneInfo { id: zones[i].id, domain: zones[i].domain.clone() };
            proof {
                assert(zones@[i as int] == z);
            }
            return Some(z);
        }
        i += 1;
    }
    None
}

/// Where an operation on this adapter stands.
pub enum OpState {
    /// Nothing sent yet.
    Start,
    /// The zone-search query was sent.
    SentZone,
    /// The zone-records query was sent; the zone identifier it used.
    SentLookup(u64),
    /// The mutating request was sent.
    SentMutate,
}

/// Synchronous Bunny DNS provider adapter.
///
/// Holds the configuration, the credentials, and the lazily resolved zone
/// identifier, cached for the adapter's lifetime.
pub struct Bunny {
    pub config: Config,
    pub auth: Auth,
    pub zone_id: Option<u64>,
}

impl Bunny {
    /// Create a new `Bunny` provider adapter; its identifier cache starts
    /// empty.
    pub fn new(config: Config, auth: Auth) -> (r: Bunny)
        ensures
            r.config == config && r.auth == auth,
            r.get_zone_id() is None,
    {
        Bunny { config, auth, zone_id: None }
    }

    /// The cached zone identifier: empty until the first operation that
    /// needs it resolves it, then fixed for this adapter's lifetime.
    pub open spec fn get_zone_id(&self) -> Option<u64> {
        self.zone_id
    }

    /// The cached zone identifier's value; zero while unresolved.
    pub open spec fn spec_zone_val(&self) -> int {
        match self.zone_id {
            Some(id) => id as int,
            None => 0,
        }
    }

    /// The headers every request of this adapter carries: the JSON pair
    /// plus the access key.
    fn headers(&self) -> (r: Vec<(String, String)>)
        ensures
            r@.len() == 3,
            r@[2].0@ == "AccessKey"@,
            r@[2].1@ == self.auth.key@,
    {
        let mut headers = json_headers();
        push_header(&mut headers, "AccessKey", self.auth.get_header());
        headers
    }

    /// The zone-search query.
    fn zones_request(&self) -> (r: HttpRequest)
        ensures
            r.method is Get,
            r.url@ == "https://api.bunny.net/dnszone?search="@ + self.config.domain@,
            r.body is None,
    {
        let mut url = String::new();
        url.append("https://api.bunny.net/dnszone?search=");
        url.append(self.config.domain.as_str());
        HttpRequest { method: Method::Get, url, headers: self.headers(), body: None }
    }

    /// Decode the zone-search response body.
    fn parse_zones(body: &str) -> (r: Result<Vec<ZoneInfo>, Error>) {
        let doc = json_parse(body)?;
        let items = get_array_field(&doc, "Items")?;
        let mut zones: Vec<ZoneInfo> = Vec::new();
        let mut i: usize = 0;
        while i < items.len()
            decreases items@.len() - i,
        {
            let item = &items[i];
            let id = get_u64_field(item, "Id")?;
            let domain = get_string_field(item, "Domain")?;
            zones.push(ZoneInfo { id, domain });
            i += 1;
        }
        Ok(zones)
    }

    /// The URL of the whole zone, which lists every record.
    fn zone_url(&self, zone_id: u64) -> (r: String)
        ensures
            r@ == "https://api.bunny.net/dnszone/"@ + spec_dec_digits(zone_id as int),
    {
        let mut url = String::new();
        url.append("https://api.bunny.net/dnszone/");
        append_u64(&mut url, zone_id);
        url
    }

    /// The URL records are created under.
    fn records_url(&self, zone_id: u64) -> (r: String)
        ensures
            r@ == "https://api.bunny.net/dnszone/"@ + spec_dec_digits(zone_id as int)
                + "/records"@,
    {
        let mut url = String::new();
        url.append("https://api.bunny.net/dnszone/");
        append_u64(&mut url, zone_id);
        url.append("/records");
        url
    }

    /// The URL of one record.
    fn record_url(&self, zone_id: u64, rec_id: u64) -> (r: String)
        ensures
            r@ == "https://api.bunny.net/dnszone/"@ + spec_dec_digits(zone_id as int)
                + "/records/"@ + spec_dec_digits(rec_id as int),
    {
        let mut url = String::new();
        url.append("https://api.bunny.net/dnszone/");
        append_u64(&mut url, zone_id);
        url.append("/records/");
        append_u64(&mut url, rec_id);
        url
    }

    /// Decode the zone response and keep the records matching the wanted
    /// type code and host. The endpoint returns every record of the zone
    /// in one mixed-type array, so the filtering happens here: an entry
    /// whose type is not a number is skipped, an entry that matches is
    /// decoded fully.
    fn matching_records(body: &str, op: &Op, code: u64) -> (r: Result<Vec<Record>, Error>) {
        let doc = json_parse(body)?;
        let items = get_array_field(&doc, "Records")?;
        let mut records: Vec<Record> = Vec::new();
        let mut i: usize = 0;
        while i < items.len()
            decreases items@.len() - i,
        {
            let item = &items[i];
            let type_matches = match json_get(item, "Type") {
                Some(t) => match json_as_u64(t) {
                    Some(c) => c == code,
                    None => false,
                },
                None => false,
            };
            let name_matches = match json_get(item, "Name") {
                Some(n) => match json_as_string(n) {
                    Some(name) => str_eq(name.as_str(), op.host.as_str()),
                    None => false,
                },
                None => false,
            };
            if type_matches && name_matches {
                let id = get_u64_field(item, "Id")?;
                let value = get_string_field(item, "Value")?;
                let name = get_string_field(item, "Name")?;
                let ttl = get_u64_field(item, "Ttl")?;
                let type_code = match json_get(item, "Type") {
                    Some(t) => match json_as_u64(t) {
                        Some(c) => c,
                        None => {
                            return Err(Error::JsonError("record type is not a number".to_owned()));
                        },
                    },
                    None => {
                        return Err(Error::JsonError("missing record type".to_owned()));
                    },
                };
                let rtype = record_type_from_code(type_code)?;
                records.push(Record { id, rtype, value, name, ttl });
            }
            i += 1;
        }
        Ok(records)
    }

    /// With the zone identifier at hand, either finish (create under
    /// dry-run), emit the mutating create request, or emit the zone query
    /// every other operation starts with.
    fn dispatch_with_id(&self, op: &Op, zone_id: u64) -> (r: (OpState, Action))
        requires
            op.wf(),
        ensures
            self.config.dry_run ==> !(r.1 is Mutate),
            op.kind is Get ==> !(r.1 is Mutate),
            !(r.0 is SentZone),
            !(op.kind is Get) ==> !(r.1 matches Action::Done(res) && res matches Ok(found)
                && found is Some),
            op.kind is Create ==> (match spec_bunny_code(op.rtype) {
                Some(code) => if self.config.dry_run {
                    r.1 matches Action::Done(res) && res matches Ok(found) && found is None
                } else {
                    r.1 matches Action::Mutate(q) && q.method is Put && q.url@
                        == spec_records_url_of(zone_id as int) && (q.body matches Some(b)
                        && op.value matches Some(v) && b@ == spec_create_update_json(
                        v@,
                        op.host@,
                        300,
                        code as int,
                    ))
                },
                None => r.1 matches Action::Done(res) && res is Err,
            }),
            !(op.kind is Create) ==> (r.0 is SentLookup && (r.1 matches Action::Query(q)
                && q.method is Get)),
            !(r.1 is Done) ==> !(r.0 is Start),
    {
        match op.kind {
            OpKind::Create => {
                let rec = CreateUpdate {
                    value: clone_value(&op.value),
                    name: op.host.clone(),
                    ttl: 300,
                    rtype: op.rtype,
                };
                let body = match rec.to_json() {
                    Ok(b) => b,
                    Err(e) => {
                        return (OpState::Start, Action::Done(Err(e)));
                    },
                };
                if self.config.dry_run {
                    return (OpState::Start, Action::Done(Ok(None)));
                }
                let req = HttpRequest {
                    method: Method::Put,
                    url: self.records_url(zone_id),
                    headers: self.headers(),
                    body: Some(body),
                };
                (OpState::SentMutate, Action::Mutate(req))
            },
            _ => {
                let req = HttpRequest {
                    method: Method::Get,
                    url: self.zone_url(zone_id),
                    headers: self.headers(),
                    body: None,
                };
                (OpState::SentLookup(zone_id), Action::Query(req))
            },
        }
    }

    /// Drive one operation one step further: feed `None` first, then feed
    /// each response to the request the previous step asked for, until the
    /// action is `Done`.
    ///
    /// The identifier cache only ever fills, and the zone-search query is
    /// emitted only while it is empty (single-flight, marked by the
    /// `SentZone` state). Under `dry_run`, and for every get, no mutating
    /// request is ever emitted.
    pub fn op_step(&mut self, op: &Op, st: OpState, event: Option<HttpResponse>) -> (r: (
        OpState,
        Action,
    ))
        requires
            op.wf(),
            (st is Start) <==> (event is None),
        ensures
            final(self).config == old(self).config,
            final(self).auth == old(self).auth,
            old(self).get_zone_id() is Some ==> final(self).get_zone_id() == old(
                self,
            ).get_zone_id(),
            r.0 is SentZone ==> old(self).get_zone_id() is None,
            (st is Start && old(self).get_zone_id() is None) ==> (r.0 is SentZone && (
            r.1 matches Action::Query(q) && q.method is Get && q.url@ == spec_zones_search_url(
                old(self).config.domain@,
            ))),
            (st is SentZone && (match r.1 {
                Action::Done(res) => !(res is Err),
                _ => true,
            })) ==> final(self).get_zone_id() is Some,
            old(self).config.dry_run ==> !(r.1 is Mutate),
            op.kind is Get ==> !(r.1 is Mutate),
            (st is Start && old(self).get_zone_id() is Some && !(op.kind is Create))
                ==> (r.0 is SentLookup && (r.1 matches Action::Query(q) && q.method
                is Get)),
            (st is Start && old(self).get_zone_id() is Some && op.kind is Create) ==> (
            match spec_bunny_code(op.rtype) {
                Some(code) => if old(self).config.dry_run {
                    r.1 matches Action::Done(res) && res matches Ok(found) && found is None
                } else {
                    r.1 matches Action::Mutate(q) && q.method is Put && q.url@
                        == spec_records_url_of(old(self).spec_zone_val()) && (q.body matches
                    Some(b) && op.value matches Some(v) && b@ == spec_create_update_json(
                        v@,
                        op.host@,
                        300,
                        code as int,
                    ))
                },
                None => r.1 matches Action::Done(res) && res is Err,
            }),
            match r.1 {
                Action::Mutate(q) => match st {
                    OpState::SentLookup(zid) => match op.kind {
                        OpKind::Update => q.method is Post && (exists|rid: int|
                            q.url@ == #[trigger] spec_record_url_of(zid as int, rid)) && (
                        match spec_bunny_code(op.rtype) {
                            Some(code) => q.body matches Some(b) && op.value matches Some(v)
                                && b@ == spec_create_update_json(v@, op.host@, 300, code as int),
                            None => false,
                        }),
                        OpKind::Delete => q.method is Delete && q.body is None && (exists|
                            rid: int,
                        |
                            q.url@ == #[trigger] spec_record_url_of(zid as int, rid)),
                        _ => true,
                    },
                    _ => true,
                },
                _ => true,
            },
            (st is SentLookup && spec_bunny_code(op.rtype) is Some && (event matches Some(
                resp,
            ) && resp.status == 404)) ==> (r.1 matches Action::Done(res) && res matches Ok(
                found,
            ) && found is None),
            (st is SentMutate && (event matches Some(resp) && spec_status_success(
                resp.status,
            ))) ==> (r.1 matches Action::Done(res) && res matches Ok(found) && found is None),
            (st is SentMutate && !(op.kind is Delete) && (event matches Some(resp)
                && !spec_status_success(resp.status))) ==> (r.1 matches Action::Done(res)
                && res is Err),
            (st is SentMutate && op.kind is Delete && (event matches Some(resp) && resp.status
                == 404)) ==> (r.1 matches Action::Done(res) && res matches Ok(found) && found
                is None),
            (st is SentMutate && op.kind is Delete && (event matches Some(resp)
                && !spec_status_success(resp.status) && resp.status != 404)) ==> (r.1 matches
                Action::Done(res) && res is Err),
            st is SentMutate ==> r.1 is Done,
            !(r.1 is Done) ==> !(r.0 is Start),
            !(op.kind is Get) ==> !(r.1 matches Action::Done(res) && res matches Ok(found)
                && found is Some),
    {
        match st {
            OpState::Start => {
                let zid = match self.zone_id {
                    Some(id) => id,
                    None => {
                        return (OpState::SentZone, Action::Query(self.zones_request()));
                    },
                };
                self.dispatch_with_id(op, zid)
            },
            OpState::SentZone => {
                let resp = match event {
                    Some(resp) => resp,
                    None => {
                        return (
                            OpState::Start,
                            Action::Done(Err(Error::ApiError("missing response".to_owned()))),
                        );
                    },
                };
                let body = match response_body(&resp) {
                    Ok(b) => b,
                    Err(e) => {
                        return (OpState::Start, Action::Done(Err(e)));
                    },
                };
                let zones = match body {
                    Some(b) => match Self::parse_zones(b.as_str()) {
                        Ok(p) => p,
                        Err(e) => {
                            return (OpState::Start, Action::Done(Err(e)));
                        },
                    },
                    None => {
                        return (
                            OpState::Start,
                            Action::Done(Err(zone_info_error(self.config.domain.as_str()))),
                        );
                    },
                };
                let id = match find_zone(&zones, self.config.domain.as_str()) {
                    Some(z) => z.id,
                    None => {
                        return (
                            OpState::Start,
                            Action::Done(Err(zone_info_error(self.config.domain.as_str()))),
                        );
                    },
                };
                // Re-check the cache before storing: an already-resolved
                // identifier wins.
                let zid = match self.zone_id {
                    Some(existing) => existing,
                    None => {
                        self.zone_id = Some(id);
                        id
                    },
                };
                self.dispatch_with_id(op, zid)
            },
            OpState::SentLookup(zone_id) => {
                let resp = match event {
                    Some(resp) => resp,
                    None => {
                        return (
                            OpState::Start,
                            Action::Done(Err(Error::ApiError("missing response".to_owned()))),
                        );
                    },
                };
                let code = match record_type_code(op.rtype) {
                    Ok(c) => c,
                    Err(e) => {
                        return (OpState::Start, Action::Done(Err(e)));
                    },
                };
                let body = match response_body(&resp) {
                    Ok(b) => b,
                    Err(e) => {
                        return (OpState::Start, Action::Done(Err(e)));
                    },
                };
                let records = match body {
                    Some(b) => match Self::matching_records(b.as_str(), op, code) {
                        Ok(p) => p,
                        Err(e) => {
                            return (OpState::Start, Action::Done(Err(e)));
                        },
                    },
                    // A missing record list is not an error.
                    None => {
                        return (OpState::Start, Action::Done(Ok(None)));
                    },
                };
                let found = match select_single(records) {
                    Ok(f) => f,
                    Err(e) => {
                        return (OpState::Start, Action::Done(Err(e)));
                    },
                };
                match op.kind {
                    OpKind::Get => match found {
                        Some(rec) => (OpState::Start, Action::Done(Ok(Some(rec.value)))),
                        None => (OpState::Start, Action::Done(Ok(None))),
                    },
                    OpKind::Update => match found {
                        Some(rec) => {
                            if self.config.dry_run {
                                return (OpState::Start, Action::Done(Ok(None)));
                            }
                            let update = CreateUpdate {
                                value: clone_value(&op.value),
                                name: op.host.clone(),
                                ttl: 300,
                                rtype: op.rtype,
                            };
                            let body = match update.to_json() {
                                Ok(b) => b,
                                Err(e) => {
                                    return (OpState::Start, Action::Done(Err(e)));
                                },
                            };
                            let req = HttpRequest {
                                method: Method::Post,
                                url: self.record_url(zone_id, rec.id),
                                headers: self.headers(),
                                body: Some(body),
                            };
                            proof {
                                assert(req.url@ == spec_record_url_of(
                                    zone_id as int,
                                    rec.id as int,
                                ));
                            }
                            (OpState::SentMutate, Action::Mutate(req))
                        },
                        // An update of a record that does not exist is a
                        // logged no-op for this provider.
                        None => (OpState::Start, Action::Done(Ok(None))),
                    },
                    _ => match found {
                        Some(rec) => {
                            if self.config.dry_run {
                                return (OpState::Start, Action::Done(Ok(None)));
                            }
                            let req = HttpRequest {
                                method: Method::Delete,
                                url: self.record_url(zone_id, rec.id),
                                headers: self.headers(),
                                body: None,
                            };
                            proof {
                                assert(req.url@ == spec_record_url_of(
                                    zone_id as int,
                                    rec.id as int,
                                ));
                            }
                            (OpState::SentMutate, Action::Mutate(req))
                        },
                        // Deleting a record that does not exist is a logged
                        // no-op, not an error.
                        None => (OpState::Start, Action::Done(Ok(None))),
                    },
                }
            },
            OpState::SentMutate => {
                let resp = match event {
                    Some(resp) => resp,
                    None => {
                        return (
                            OpState::Start,
                            Action::Done(Err(Error::ApiError("missing response".to_owned()))),
                        );
                    },
                };
                // A failed mutation is reported, never swallowed; a 404 on
                // a delete is the soft no-op.
                let checked = match op.kind {
                    OpKind::Delete => check_delete(&resp),
                    _ => check_error(&resp),
                };
                match checked {
                    Ok(()) => (OpState::Start, Action::Done(Ok(None))),
                    Err(e) => (OpState::Start, Action::Done(Err(e))),
                }
            },
        }
    }
}

/// The error reported when the zone information cannot be fetched.
fn zone_info_error(domain: &str) -> (r: Error)
    ensures
        r is RecordNotFound,
{
    let mut m = String::new();
    m.append("Couldn't fetch zone info for ");
    m.append(domain);
    Error::RecordNotFound(m)
}

/// Clone the value an operation carries; empty for value-less operations.
fn clone_value(value: &Option<String>) -> (r: String)
    ensures
        value matches Some(v) ==> r@ == v@,
{
    match value {
        Some(v) => v.clone(),
        None => String::new(),
    }
}

} // verus!
