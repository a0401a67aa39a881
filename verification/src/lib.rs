//! Uniform create/read/update/delete operations on DNS resource records
//! against several third-party DNS hosting APIs.
//!
//! Each provider adapter is a state machine: it emits the HTTP requests an
//! operation needs as plain values and absorbs the responses, so the whole
//! decision logic (identifier caching, dry-run suppression, cardinality
//! checks, record-type encoding, TXT quoting) is verified, while the actual
//! network transport is left to the caller.

use vstd::prelude::*;

pub mod bunny;
pub mod cloudflare;
pub mod desec;
pub mod digitalocean;
pub mod dnsimple;
pub mod dnsmadeeasy;
pub mod errors;
pub mod gandi;
pub mod http;
pub mod ipv4;
pub mod linode;
pub mod jsontext;
pub mod jsonval;
pub mod op;
pub mod porkbun;
pub mod text;

verus! {

/// Configuration for DNS operations.
///
/// Contains the domain to operate on and a `dry_run` flag: with `dry_run`
/// set, no adapter ever emits a mutating request.
pub struct Config {
    pub domain: String,
    pub dry_run: bool,
}

/// DNS provider selection used by this crate.
///
/// Each variant carries the authentication information for the selected
/// provider. This is the set a runtime configuration can choose from.
pub enum Provider {
    Cloudflare(cloudflare::Auth),
    Gandi(gandi::Auth),
    Dnsimple(dnsimple::Auth),
    DnsMadeEasy(dnsmadeeasy::Auth),
    PorkBun(porkbun::Auth),
}

/// One concrete adapter, chosen at run time: the tagged-union counterpart
/// of the per-provider types, so that a caller can hold any of them in one
/// place.
pub enum ProviderClient {
    Cloudflare(cloudflare::Cloudflare),
    Gandi(gandi::Gandi),
    Dnsimple(dnsimple::DnSimple),
    DnsMadeEasy(dnsmadeeasy::DnsMadeEasy),
    PorkBun(porkbun::Porkbun),
}

/// Where an operation on a runtime-selected adapter stands: the chosen
/// adapter's own state.
pub enum ClientOpState {
    Cloudflare(cloudflare::OpState),
    Gandi(gandi::OpState),
    Dnsimple(dnsimple::OpState),
    DnsMadeEasy(dnsmadeeasy::OpState),
    PorkBun(porkbun::OpState),
}

impl ClientOpState {
    /// Whether this is the state an operation starts from.
    pub open spec fn is_start(&self) -> bool {
        match self {
            ClientOpState::Cloudflare(st) => st is Start,
            ClientOpState::Gandi(st) => st is Start,
            ClientOpState::Dnsimple(st) => st is Start,
            ClientOpState::DnsMadeEasy(st) => st is Start,
            ClientOpState::PorkBun(st) => st is Start,
        }
    }

    /// Whether this state marks a sent mutation.
    pub open spec fn is_sent_mutate(&self) -> bool {
        match self {
            ClientOpState::Cloudflare(st) => st is SentMutate,
            ClientOpState::Gandi(st) => st is SentMutate,
            ClientOpState::Dnsimple(st) => st is SentMutate,
            ClientOpState::DnsMadeEasy(st) => st is SentMutate,
            ClientOpState::PorkBun(st) => st is SentMutate,
        }
    }

    /// Whether this state belongs to the given adapter.
    pub open spec fn is_for(&self, client: &ProviderClient) -> bool {
        match self {
            ClientOpState::Cloudflare(_) => client is Cloudflare,
            ClientOpState::Gandi(_) => client is Gandi,
            ClientOpState::Dnsimple(_) => client is Dnsimple,
            ClientOpState::DnsMadeEasy(_) => client is DnsMadeEasy,
            ClientOpState::PorkBun(_) => client is PorkBun,
        }
    }
}

impl Provider {
    /// Build the selected provider's adapter: a blocking state machine
    /// whose requests the caller performs.
    pub fn blocking_impl(&self, dns_conf: Config) -> (r: ProviderClient)
        ensures
            r.spec_dry_run() == dns_conf.dry_run,
            r.spec_domain() == dns_conf.domain@,
            match *self {
                Provider::Cloudflare(auth) => r matches ProviderClient::Cloudflare(c)
                    && c.auth == auth && c.config == dns_conf && c.get_zone_id() is None,
                Provider::Gandi(auth) => r matches ProviderClient::Gandi(c) && c.auth == auth
                    && c.config == dns_conf,
                Provider::Dnsimple(auth) => r matches ProviderClient::Dnsimple(c) && c.auth
                    == auth && c.config == dns_conf && c.get_id() is None,
                Provider::DnsMadeEasy(auth) => r matches ProviderClient::DnsMadeEasy(c)
                    && c.auth == auth && c.config == dns_conf && c.get_domain_id() is None,
                Provider::PorkBun(auth) => r matches ProviderClient::PorkBun(c) && c.auth
                    == auth && c.config == dns_conf,
            },
    {
        match self {
            Provider::Cloudflare(auth) => ProviderClient::Cloudflare(
                cloudflare::Cloudflare::new(dns_conf, auth.clone()),
            ),
            Provider::Gandi(auth) => ProviderClient::Gandi(gandi::Gandi::new(
                dns_conf,
                auth.clone(),
            )),
            Provider::Dnsimple(auth) => ProviderClient::Dnsimple(dnsimple::DnSimple::new(
                dns_conf,
                auth.clone(),
                None,
            )),
            Provider::DnsMadeEasy(auth) => ProviderClient::DnsMadeEasy(dnsmadeeasy::DnsMadeEasy::new(
                dns_conf,
                auth.clone(),
            )),
            Provider::PorkBun(auth) => ProviderClient::PorkBun(porkbun::Porkbun::new(
                dns_conf,
                auth.clone(),
            )),
        }
    }
}

impl ProviderClient {
    /// Whether this adapter runs in dry-run mode.
    pub open spec fn spec_dry_run(&self) -> bool {
        match self {
            ProviderClient::Cloudflare(c) => c.config.dry_run,
            ProviderClient::Gandi(c) => c.config.dry_run,
            ProviderClient::Dnsimple(c) => c.config.dry_run,
            ProviderClient::DnsMadeEasy(c) => c.config.dry_run,
            ProviderClient::PorkBun(c) => c.config.dry_run,
        }
    }

    /// The zone this adapter operates on.
    pub open spec fn spec_domain(&self) -> Seq<char> {
        match self {
            ProviderClient::Cloudflare(c) => c.config.domain@,
            ProviderClient::Gandi(c) => c.config.domain@,
            ProviderClient::Dnsimple(c) => c.config.domain@,
            ProviderClient::DnsMadeEasy(c) => c.config.domain@,
            ProviderClient::PorkBun(c) => c.config.domain@,
        }
    }

    /// The state every operation on this adapter starts from.
    pub fn start_state(&self) -> (r: ClientOpState)
        ensures
            r.is_start(),
            r.is_for(self),
    {
        match self {
            ProviderClient::Cloudflare(_) => ClientOpState::Cloudflare(cloudflare::OpState::Start),
            ProviderClient::Gandi(_) => ClientOpState::Gandi(gandi::OpState::Start),
            ProviderClient::Dnsimple(_) => ClientOpState::Dnsimple(dnsimple::OpState::Start),
            ProviderClient::DnsMadeEasy(_) => ClientOpState::DnsMadeEasy(
                dnsmadeeasy::OpState::Start,
            ),
            ProviderClient::PorkBun(_) => ClientOpState::PorkBun(porkbun::OpState::Start),
        }
    }

    /// Drive one operation on the selected adapter one step further, as
    /// the adapter's own `op_step` does. A state that belongs to another
    /// adapter is a reported error. Under `dry_run` no mutating request is
    /// ever emitted, whichever provider was selected.
    pub fn op_step(&mut self, op: &op::Op, st: ClientOpState, event: Option<http::HttpResponse>)
        -> (r: (ClientOpState, op::Action))
        requires
            op.wf(),
            st.is_start() <==> event is None,
        ensures
            old(self).spec_dry_run() ==> !(r.1 is Mutate),
            op.kind is Get ==> !(r.1 is Mutate),
            (!(op.kind is Get) ==> !(r.1 matches op::Action::Done(res) && res matches Ok(
                found,
            ) && found is Some)),
            final(self).spec_dry_run() == old(self).spec_dry_run(),
            !st.is_for(old(self)) ==> (r.1 matches op::Action::Done(res) && res is Err),
            st.is_for(old(self)) ==> r.0.is_for(old(self)),
            !(r.1 is Done) ==> !r.0.is_start(),
            (st.is_for(old(self)) && st.is_sent_mutate() && (event matches Some(resp)
                && http::spec_status_success(resp.status))) ==> (r.1 matches op::Action::Done(
                res,
            ) && res matches Ok(found) && found is None),
            (st.is_for(old(self)) && st.is_sent_mutate() && !(op.kind is Delete) && (
            event matches Some(resp) && !http::spec_status_success(resp.status))) ==> (
            r.1 matches op::Action::Done(res) && res is Err),
            (st.is_for(old(self)) && st.is_sent_mutate() && op.kind is Delete && (
            event matches Some(resp) && resp.status == 404)) ==> (r.1 matches op::Action::Done(
                res,
            ) && res matches Ok(found) && found is None),
            (st.is_for(old(self)) && st.is_sent_mutate() && op.kind is Delete && (
            event matches Some(resp) && !http::spec_status_success(resp.status) && resp.status
                != 404)) ==> (r.1 matches op::Action::Done(res) && res is Err),
    {
        match self {
            ProviderClient::Cloudflare(client) => match st {
                ClientOpState::Cloudflare(st) => {
                    let (st2, action) = client.op_step(op, st, event);
                    (ClientOpState::Cloudflare(st2), action)
                },
                _ => (st, state_mismatch()),
            },
            ProviderClient::Gandi(client) => match st {
                ClientOpState::Gandi(st) => {
                    let (st2, action) = client.op_step(op, st, event);
                    (ClientOpState::Gandi(st2), action)
                },
                _ => (st, state_mismatch()),
            },
            ProviderClient::Dnsimple(client) => match st {
                ClientOpState::Dnsimple(st) => {
                    let (st2, action) = client.op_step(op, st, event);
                    (ClientOpState::Dnsimple(st2), action)
                },
                _ => (st, state_mismatch()),
            },
            ProviderClient::DnsMadeEasy(client) => match st {
                ClientOpState::DnsMadeEasy(st) => {
                    let (st2, action) = client.op_step(op, st, event);
                    (ClientOpState::DnsMadeEasy(st2), action)
                },
                _ => (st, state_mismatch()),
            },
            ProviderClient::PorkBun(client) => match st {
                ClientOpState::PorkBun(st) => {
                    let (st2, action) = client.op_step(op, st, event);
                    (ClientOpState::PorkBun(st2), action)
                },
                _ => (st, state_mismatch()),
            },
        }
    }
}

/// The action reported when an operation state belongs to another adapter.
fn state_mismatch() -> (r: op::Action)
    ensures
        r matches op::Action::Done(res) && res is Err,
{
    op::Action::Done(
        Err(errors::Error::ApiError("operation state belongs to another provider".to_owned())),
    )
}

/// The canonical set of DNS record types this library can speak about.
///
/// Each provider maps these to its own wire representation; a provider that
/// cannot represent one of them reports an error rather than substituting.
#[derive(Clone, Copy, Debug, PartialEq, Eq, Structural)]
pub enum RecordType {
    A,
    AAAA,
    CAA,
    CNAME,
    HINFO,
    MX,
    NAPTR,
    NS,
    PTR,
    SRV,
    SPF,
    SSHFP,
    SVCB,
    HTTPS,
    TXT,
}

/// The textual wire tag of a record type, as the string-tag providers use it.
pub open spec fn spec_rtype_name(t: RecordType) -> Seq<char> {
    match t {
        RecordType::A => "A"@,
        RecordType::AAAA => "AAAA"@,
        RecordType::CAA => "CAA"@,
        RecordType::CNAME => "CNAME"@,
        RecordType::HINFO => "HINFO"@,
        RecordType::MX => "MX"@,
        RecordType::NAPTR => "NAPTR"@,
        RecordType::NS => "NS"@,
        RecordType::PTR => "PTR"@,
        RecordType::SRV => "SRV"@,
        RecordType::SPF => "SPF"@,
        RecordType::SSHFP => "SSHFP"@,
        RecordType::SVCB => "SVCB"@,
        RecordType::HTTPS => "HTTPS"@,
        RecordType::TXT => "TXT"@,
    }
}

impl RecordType {
    /// The textual wire tag of this record type ("A", "TXT", ...).
    pub fn name(&self) -> (r: &'static str)
        ensures
            r@ == spec_rtype_name(*self),
    {
        match self {
            RecordType::A => "A",
            RecordType::AAAA => "AAAA",
            RecordType::CAA => "CAA",
            RecordType::CNAME => "CNAME",
            RecordType::HINFO => "HINFO",
            RecordType::MX => "MX",
            RecordType::NAPTR => "NAPTR",
            RecordType::NS => "NS",
            RecordType::PTR => "PTR",
            RecordType::SRV => "SRV",
            RecordType::SPF => "SPF",
            RecordType::SSHFP => "SSHFP",
            RecordType::SVCB => "SVCB",
            RecordType::HTTPS => "HTTPS",
            RecordType::TXT => "TXT",
        }
    }
}

/// The record type whose wire tag a string is, if it is one.
pub open spec fn spec_rtype_from_name(s: Seq<char>) -> Option<RecordType> {
    if s == "A"@ {
        Some(RecordType::A)
    } else if s == "AAAA"@ {
        Some(RecordType::AAAA)
    } else if s == "CAA"@ {
        Some(RecordType::CAA)
    } else if s == "CNAME"@ {
        Some(RecordType::CNAME)
    } else if s == "HINFO"@ {
        Some(RecordType::HINFO)
    } else if s == "MX"@ {
        Some(RecordType::MX)
    } else if s == "NAPTR"@ {
        Some(RecordType::NAPTR)
    } else if s == "NS"@ {
        Some(RecordType::NS)
    } else if s == "PTR"@ {
        Some(RecordType::PTR)
    } else if s == "SRV"@ {
        Some(RecordType::SRV)
    } else if s == "SPF"@ {
        Some(RecordType::SPF)
    } else if s == "SSHFP"@ {
        Some(RecordType::SSHFP)
    } else if s == "SVCB"@ {
        Some(RecordType::SVCB)
    } else if s == "HTTPS"@ {
        Some(RecordType::HTTPS)
    } else if s == "TXT"@ {
        Some(RecordType::TXT)
    } else {
        None
    }
}

/// Decode a textual wire tag into a record type; an unrecognized tag is a
/// reported error, never a default.
pub fn record_type_from_name(s: &str) -> (r: core::result::Result<RecordType, errors::Error>)
    ensures
        match r {
            Ok(t) => spec_rtype_from_name(s@) == Some(t),
            Err(e) => spec_rtype_from_name(s@) is None && e is ApiError,
        },
{
    if text::str_eq(s, "A") {
        Ok(RecordType::A)
    } else if text::str_eq(s, "AAAA") {
        Ok(RecordType::AAAA)
    } else if text::str_eq(s, "CAA") {
        Ok(RecordType::CAA)
    } else if text::str_eq(s, "CNAME") {
        Ok(RecordType::CNAME)
    } else if text::str_eq(s, "HINFO") {
        Ok(RecordType::HINFO)
    } else if text::str_eq(s, "MX") {
        Ok(RecordType::MX)
    } else if text::str_eq(s, "NAPTR") {
        Ok(RecordType::NAPTR)
    } else if text::str_eq(s, "NS") {
        Ok(RecordType::NS)
    } else if text::str_eq(s, "PTR") {
        Ok(RecordType::PTR)
    } else if text::str_eq(s, "SRV") {
        Ok(RecordType::SRV)
    } else if text::str_eq(s, "SPF") {
        Ok(RecordType::SPF)
    } else if text::str_eq(s, "SSHFP") {
        Ok(RecordType::SSHFP)
    } else if text::str_eq(s, "SVCB") {
        Ok(RecordType::SVCB)
    } else if text::str_eq(s, "HTTPS") {
        Ok(RecordType::HTTPS)
    } else if text::str_eq(s, "TXT") {
        Ok(RecordType::TXT)
    } else {
        Err(errors::Error::ApiError("unrecognized record type tag".to_owned()))
    }
}

/// Decoding a wire tag inverts encoding: every record type's tag decodes
/// back to that type.
pub proof fn lemma_rtype_name_round_trip(t: RecordType)
    ensures
        spec_rtype_from_name(spec_rtype_name(t)) == Some(t),
{
    broadcast use vstd::string::group_string_axioms;

    reveal_strlit("A");
    reveal_strlit("AAAA");
    reveal_strlit("CAA");
    reveal_strlit("CNAME");
    reveal_strlit("HINFO");
    reveal_strlit("MX");
    reveal_strlit("NAPTR");
    reveal_strlit("NS");
    reveal_strlit("PTR");
    reveal_strlit("SRV");
    reveal_strlit("SPF");
    reveal_strlit("SSHFP");
    reveal_strlit("SVCB");
    reveal_strlit("HTTPS");
    reveal_strlit("TXT");
    assert("A"@.len() == 1);
    assert("MX"@.len() == 2 && "MX"@[0] == 'M');
    assert("NS"@.len() == 2 && "NS"@[0] == 'N');
    assert("CAA"@.len() == 3 && "CAA"@[0] == 'C');
    assert("PTR"@.len() == 3 && "PTR"@[0] == 'P');
    assert("SRV"@.len() == 3 && "SRV"@[0] == 'S' && "SRV"@[1] == 'R');
    assert("SPF"@.len() == 3 && "SPF"@[0] == 'S' && "SPF"@[1] == 'P');
    assert("TXT"@.len() == 3 && "TXT"@[0] == 'T');
    assert("AAAA"@.len() == 4 && "AAAA"@[0] == 'A');
    assert("SVCB"@.len() == 4 && "SVCB"@[0] == 'S');
    assert("CNAME"@.len() == 5 && "CNAME"@[0] == 'C');
    assert("HINFO"@.len() == 5 && "HINFO"@[0] == 'H' && "HINFO"@[1] == 'I');
    assert("NAPTR"@.len() == 5 && "NAPTR"@[0] == 'N');
    assert("SSHFP"@.len() == 5 && "SSHFP"@[0] == 'S');
    assert("HTTPS"@.len() == 5 && "HTTPS"@[0] == 'H' && "HTTPS"@[1] == 'T');
}

/// Whether a string already carries the zone-file TXT quote convention:
/// at least two characters, the first and the last a double quote.
pub open spec fn spec_quoted(s: Seq<char>) -> bool {
    s.len() >= 2 && s[0] == '"' && s[s.len() - 1] == '"'
}

/// The interior of a quoted string; any other string unchanged.
pub open spec fn spec_strip_quotes(s: Seq<char>) -> Seq<char> {
    if spec_quoted(s) {
        s.subrange(1, s.len() - 1)
    } else {
        s
    }
}

/// The quoted form of a string: unchanged when already quoted, otherwise
/// the missing quote (or both) is added.
pub open spec fn spec_ensure_quotes(s: Seq<char>) -> Seq<char> {
    if spec_quoted(s) {
        s
    } else if s.len() >= 1 && s[0] == '"' {
        s + seq!['"']
    } else if s.len() >= 1 && s[s.len() - 1] == '"' {
        seq!['"'] + s
    } else {
        seq!['"'] + s + seq!['"']
    }
}

/// Remove one leading and one trailing double quote, when both are present;
/// any other string is returned whole.
pub fn strip_quotes(record: &str) -> (r: String)
    ensures
        r@ == spec_strip_quotes(record@),
{
    let n = record.unicode_len();
    if n >= 2 && record.get_char(0) == '"' && record.get_char(n - 1) == '"' {
        let inner = record.substring_char(1, n - 1);
        inner.to_owned()
    } else {
        record.to_owned()
    }
}

/// Add the zone-file quote convention to a string that lacks it on either
/// end; a string that already starts and ends with a quote is unchanged.
pub fn ensure_quotes(record: &str) -> (r: String)
    ensures
        r@ == spec_ensure_quotes(record@),
{
    let n = record.unicode_len();
    if n >= 2 && record.get_char(0) == '"' && record.get_char(n - 1) == '"' {
        record.to_owned()
    } else if n >= 1 && record.get_char(0) == '"' {
        let mut r = record.to_owned();
        r.push('"');
        r
    } else if n >= 1 && record.get_char(n - 1) == '"' {
        let mut r = String::new();
        r.push('"');
        r.append(record);
        assert(r@ == seq!['"'] + record@);
        r
    } else {
        let mut r = String::new();
        r.push('"');
        r.append(record);
        r.push('"');
        assert(r@ == seq!['"'] + record@ + seq!['"']);
        r
    }
}

/// Quoting is idempotent: applying `ensure_quotes` to an already-normalized
/// string changes nothing.
pub proof fn lemma_ensure_quotes_idempotent(s: Seq<char>)
    ensures
        spec_ensure_quotes(spec_ensure_quotes(s)) == spec_ensure_quotes(s),
{
    let q = spec_ensure_quotes(s);
    assert(spec_quoted(q));
}

/// Quoting then stripping returns the original string, provided it did not
/// itself start or end with a literal double quote.
pub proof fn lemma_strip_ensure_quotes(s: Seq<char>)
    requires
        s.len() == 0 || (s[0] != '"' && s[s.len() - 1] != '"'),
    ensures
        spec_strip_quotes(spec_ensure_quotes(s)) == s,
{
    let q = spec_ensure_quotes(s);
    assert(q == seq!['"'] + s + seq!['"']);
    assert(spec_quoted(q));
    assert(q.subrange(1, q.len() - 1) =~= s);
}

} // verus!
