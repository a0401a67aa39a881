//! The capability interface as data: one `Op` value describes a get, create,
//! update or delete of a single record, an adapter answers each step with an
//! `Action` (a request to perform, or the finished result), and the helpers
//! for TXT and A records are expressed purely in terms of the four
//! primitives plus the quoting normalizer.

use vstd::prelude::*;
use vstd::string::StringExecFns;

use crate::RecordType;
use crate::ensure_quotes;
use crate::spec_ensure_quotes;
use crate::spec_strip_quotes;
use crate::strip_quotes;
use crate::errors::Error;
use crate::http::HttpRequest;
use crate::ipv4::Ipv4Addr;
use crate::ipv4::spec_ipv4_text;
use crate::text::spec_dec_digits;
use crate::text::append_u64;

verus! {

/// Which of the four primitive operations an `Op` performs.
#[derive(Clone, Copy, Debug, PartialEq, Eq, Structural)]
pub enum OpKind {
    Get,
    Create,
    Update,
    Delete,
}

/// One record operation: the kind, the record type, the host under the
/// adapter's zone, and (for create/update) the value to store.
pub struct Op {
    pub kind: OpKind,
    pub rtype: RecordType,
    pub host: String,
    pub value: Option<String>,
}

impl Op {
    /// A well-formed operation carries a value exactly when it mutates
    /// record content.
    pub open spec fn wf(&self) -> bool {
        (self.kind is Create || self.kind is Update) <==> self.value is Some
    }

    /// Describe a get of the record matching `(host, rtype)`.
    pub fn get_record(rtype: RecordType, host: &str) -> (r: Op)
        ensures
            r.kind is Get && r.rtype == rtype && r.host@ == host@ && r.value is None,
            r.wf(),
    {
        Op { kind: OpKind::Get, rtype, host: host.to_owned(), value: None }
    }

    /// Describe the creation of a record with the given value.
    pub fn create_record(rtype: RecordType, host: &str, value: &str) -> (r: Op)
        ensures
            r.kind is Create && r.rtype == rtype && r.host@ == host@,
            r.value matches Some(v) && v@ == value@,
            r.wf(),
    {
        Op { kind: OpKind::Create, rtype, host: host.to_owned(), value: Some(value.to_owned()) }
    }

    /// Describe an update of the record matching `(host, rtype)`.
    pub fn update_record(rtype: RecordType, host: &str, value: &str) -> (r: Op)
        ensures
            r.kind is Update && r.rtype == rtype && r.host@ == host@,
            r.value matches Some(v) && v@ == value@,
            r.wf(),
    {
        Op { kind: OpKind::Update, rtype, host: host.to_owned(), value: Some(value.to_owned()) }
    }

    /// Describe the deletion of the record matching `(host, rtype)`.
    pub fn delete_record(rtype: RecordType, host: &str) -> (r: Op)
        ensures
            r.kind is Delete && r.rtype == rtype && r.host@ == host@ && r.value is None,
            r.wf(),
    {
        Op { kind: OpKind::Delete, rtype, host: host.to_owned(), value: None }
    }

    /// Describe a TXT get; pair with `txt_record_result` on the outcome.
    pub fn get_txt_record(host: &str) -> (r: Op)
        ensures
            r.kind is Get && r.rtype is TXT && r.host@ == host@ && r.value is None,
            r.wf(),
    {
        Op::get_record(RecordType::TXT, host)
    }

    /// Describe a TXT creation; the stored value carries the zone-file
    /// quote convention.
    pub fn create_txt_record(host: &str, value: &str) -> (r: Op)
        ensures
            r.kind is Create && r.rtype is TXT && r.host@ == host@,
            r.value matches Some(v) && v@ == spec_ensure_quotes(value@),
            r.wf(),
    {
        let quoted = ensure_quotes(value);
        Op::create_record(RecordType::TXT, host, quoted.as_str())
    }

    /// Describe a TXT update; the stored value carries the zone-file
    /// quote convention.
    pub fn update_txt_record(host: &str, value: &str) -> (r: Op)
        ensures
            r.kind is Update && r.rtype is TXT && r.host@ == host@,
            r.value matches Some(v) && v@ == spec_ensure_quotes(value@),
            r.wf(),
    {
        let quoted = ensure_quotes(value);
        Op::update_record(RecordType::TXT, host, quoted.as_str())
    }

    /// Describe a TXT deletion.
    pub fn delete_txt_record(host: &str) -> (r: Op)
        ensures
            r.kind is Delete && r.rtype is TXT && r.host@ == host@ && r.value is None,
            r.wf(),
    {
        Op::delete_record(RecordType::TXT, host)
    }

    /// Describe an A-record get; pair with `a_record_result` on the outcome.
    pub fn get_a_record(host: &str) -> (r: Op)
        ensures
            r.kind is Get && r.rtype is A && r.host@ == host@ && r.value is None,
            r.wf(),
    {
        Op::get_record(RecordType::A, host)
    }

    /// Describe the creation of an A record.
    pub fn create_a_record(host: &str, addr: &Ipv4Addr) -> (r: Op)
        ensures
            r.kind is Create && r.rtype is A && r.host@ == host@,
            r.value matches Some(v) && v@ == spec_ipv4_text(*addr),
            r.wf(),
    {
        let text = addr.to_text();
        Op::create_record(RecordType::A, host, text.as_str())
    }

    /// Describe an update of an A record.
    pub fn update_a_record(host: &str, addr: &Ipv4Addr) -> (r: Op)
        ensures
            r.kind is Update && r.rtype is A && r.host@ == host@,
            r.value matches Some(v) && v@ == spec_ipv4_text(*addr),
            r.wf(),
    {
        let text = addr.to_text();
        Op::update_record(RecordType::A, host, text.as_str())
    }

    /// Describe the deletion of an A record.
    pub fn delete_a_record(host: &str) -> (r: Op)
        ensures
            r.kind is Delete && r.rtype is A && r.host@ == host@ && r.value is None,
            r.wf(),
    {
        Op::delete_record(RecordType::A, host)
    }
}

/// Undo the TXT quote convention on the outcome of a TXT get.
pub fn txt_record_result(found: Option<String>) -> (r: Option<String>)
    ensures
        match found {
            Some(v) => r matches Some(s) && s@ == spec_strip_quotes(v@),
            None => r is None,
        },
{
    match found {
        Some(v) => Some(strip_quotes(v.as_str())),
        None => None,
    }
}

/// Decode the outcome of an A-record get into an address.
pub fn a_record_result(found: Option<String>) -> (r: Result<Option<Ipv4Addr>, Error>)
    ensures
        match found {
            Some(v) => match r {
                Ok(ip_p) => ip_p matches Some(ip) && v@ == spec_ipv4_text(ip),
                Err(e) => e is AddrParseError,
            },
            None => r matches Ok(ip_p) && ip_p is None,
        },
{
    match found {
        Some(v) => match Ipv4Addr::parse(v.as_str()) {
            Ok(ip) => Ok(Some(ip)),
            Err(e) => Err(e),
        },
        None => Ok(None),
    }
}

/// What an adapter asks of its caller after one step of an operation: hand
/// a read-only request upstream, hand a mutating request upstream, or stop
/// with the operation's result. Under `dry_run` no adapter ever answers
/// `Mutate`.
pub enum Action {
    Query(HttpRequest),
    Mutate(HttpRequest),
    Done(Result<Option<String>, Error>),
}

/// The message reported when a single-record query matched several records.
pub open spec fn spec_cardinality_msg(n: int) -> Seq<char> {
    "Returned number of records is "@ + spec_dec_digits(n) + ", should be 1"@
}

/// The single-record assumption every adapter makes: a lookup that matched
/// no record is "not found" (never an error), one that matched exactly one
/// yields it, and one that matched several is a reported
/// `UnexpectedRecord` error.
pub fn select_single<T>(records: Vec<T>) -> (r: Result<Option<T>, Error>)
    ensures
        records@.len() == 0 ==> (r matches Ok(t) && t is None),
        records@.len() == 1 ==> (r matches Ok(t) && t matches Some(x) && x == records@[0]),
        records@.len() > 1 ==> (r matches Err(e) && e matches Error::UnexpectedRecord(m) && m@
            == spec_cardinality_msg(records@.len() as int)),
{
    let n = records.len();
    if n > 1 {
        let mut m = String::new();
        m.append("Returned number of records is ");
        append_u64(&mut m, n as u64);
        m.append(", should be 1");
        Err(Error::UnexpectedRecord(m))
    } else if n == 0 {
        Ok(None)
    } else {
        let mut records = records;
        let first = records.remove(0);
        Ok(Some(first))
    }
}

} // verus!
