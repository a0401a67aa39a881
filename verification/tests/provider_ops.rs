use zone_update::Config;
use zone_update::RecordType;
use zone_update::dnsimple::DnSimple;
use zone_update::errors::Error;
use zone_update::http::HttpResponse;
use zone_update::http::Method;
use zone_update::op::Action;
use zone_update::op::Op;

fn conf(dry_run: bool) -> Config {
    Config { domain: "example.com".to_string(), dry_run }
}

fn ok(body: &str) -> Option<HttpResponse> {
    Some(HttpResponse { status: 200, body: body.to_string() })
}

fn missing() -> Option<HttpResponse> {
    Some(HttpResponse { status: 404, body: String::new() })
}

fn gandi_client(dry_run: bool) -> zone_update::gandi::Gandi {
    zone_update::gandi::Gandi::new(
        conf(dry_run),
        zone_update::gandi::Auth::ApiKey("SECRET-REDACTED".to_string()),
    )
}

#[test]
fn gandi_get_single_value() {
    let g = gandi_client(false);
    let op = Op::get_record(RecordType::TXT, "h");
    let (st, action) = g.op_step(&op, zone_update::gandi::OpState::Start, None);
    let req = match action {
        Action::Query(req) => req,
        _ => panic!("a get starts with a lookup"),
    };
    assert_eq!("https://api.gandi.net/v5/livedns/domains/example.com/records/h/TXT", req.url);
    let body = "{\"rrset_name\":\"h\",\"rrset_type\":\"TXT\",\"rrset_href\":\"x\",\
                \"rrset_values\":[\"v\"]}";
    let (_, action) = g.op_step(&op, st, ok(body));
    match action {
        Action::Done(Ok(Some(v))) => assert_eq!("v", v),
        _ => panic!("one value must be returned"),
    }
}

#[test]
fn gandi_not_found_is_none() {
    let g = gandi_client(false);
    let op = Op::get_record(RecordType::TXT, "h");
    let (st, _) = g.op_step(&op, zone_update::gandi::OpState::Start, None);
    let (_, action) = g.op_step(&op, st, missing());
    match action {
        Action::Done(Ok(None)) => (),
        _ => panic!("a 404 must be not-found, never an error"),
    }
}

#[test]
fn gandi_two_values_is_unexpected() {
    let g = gandi_client(false);
    let op = Op::get_record(RecordType::A, "h");
    let (st, _) = g.op_step(&op, zone_update::gandi::OpState::Start, None);
    let body = "{\"rrset_name\":\"h\",\"rrset_type\":\"A\",\"rrset_href\":\"x\",\
                \"rrset_values\":[\"1.1.1.1\",\"2.2.2.2\"]}";
    let (_, action) = g.op_step(&op, st, ok(body));
    match action {
        Action::Done(Err(Error::UnexpectedRecord(_))) => (),
        _ => panic!("two values must be an unexpected-record error"),
    }
}

#[test]
fn gandi_create_is_a_replacement_put() {
    let g = gandi_client(false);
    let op = Op::create_record(RecordType::A, "h", "1.2.3.4");
    let (_, action) = g.op_step(&op, zone_update::gandi::OpState::Start, None);
    let req = match action {
        Action::Mutate(req) => req,
        _ => panic!("a create must mutate"),
    };
    assert!(matches!(req.method, Method::Put));
    assert_eq!(Some("{\"rrset_values\":[\"1.2.3.4\"],\"rrset_ttl\":300}".to_string()), req.body);
}

#[test]
fn gandi_dry_run_never_mutates() {
    let g = gandi_client(true);
    for op in [
        Op::create_record(RecordType::A, "h", "1.2.3.4"),
        Op::update_record(RecordType::A, "h", "1.2.3.4"),
        Op::delete_record(RecordType::A, "h"),
    ] {
        match g.op_step(&op, zone_update::gandi::OpState::Start, None) {
            (_, Action::Done(Ok(None))) => (),
            _ => panic!("dry-run mutations must finish without a request"),
        }
    }
}

fn desec_client() -> zone_update::desec::DeSec {
    zone_update::desec::DeSec::new(
        conf(false),
        zone_update::desec::Auth { key: "SECRET-REDACTED".to_string() },
    )
}

#[test]
fn desec_create_body_and_ttl() {
    let d = desec_client();
    let op = Op::create_record(RecordType::TXT, "h", "\"v\"");
    let (st, action) = d.op_step(&op, zone_update::desec::OpState::Start, None);
    let req = match action {
        Action::Mutate(req) => req,
        _ => panic!("a create must mutate"),
    };
    assert!(matches!(req.method, Method::Post));
    assert_eq!("https://desec.io/api/v1/domains/example.com/rrsets/", req.url);
    assert_eq!(
        Some("{\"subname\":\"h\",\"type\":\"TXT\",\"ttl\":3600,\"records\":[\"\\\"v\\\"\"]}"
            .to_string()),
        req.body
    );
    let (_, action) = d.op_step(&op, st, ok(""));
    assert!(matches!(action, Action::Done(Ok(None))));
}

#[test]
fn desec_failed_create_is_reported() {
    let d = desec_client();
    let op = Op::create_record(RecordType::TXT, "h", "v");
    let (st, _) = d.op_step(&op, zone_update::desec::OpState::Start, None);
    let bad = Some(HttpResponse { status: 400, body: "nope".to_string() });
    let (_, action) = d.op_step(&op, st, bad);
    match action {
        Action::Done(Err(Error::ApiError(_))) => (),
        _ => panic!("a failed create must be a reported error"),
    }
}

#[test]
fn desec_get_values() {
    let d = desec_client();
    let op = Op::get_record(RecordType::A, "h");
    let (st, _) = d.op_step(&op, zone_update::desec::OpState::Start, None);
    let body = "{\"records\":[\"170.64.213.116\"]}";
    let (_, action) = d.op_step(&op, st, ok(body));
    match action {
        Action::Done(Ok(Some(v))) => assert_eq!("170.64.213.116", v),
        _ => panic!("one value must be returned"),
    }
}

fn digitalocean_client() -> zone_update::digitalocean::DigitalOcean {
    zone_update::digitalocean::DigitalOcean::new(
        conf(false),
        zone_update::digitalocean::Auth { key: "SECRET-REDACTED".to_string() },
    )
}

#[test]
fn digitalocean_update_without_target_is_not_found() {
    let d = digitalocean_client();
    let op = Op::update_record(RecordType::A, "h", "1.2.3.4");
    let (st, action) = d.op_step(&op, zone_update::digitalocean::OpState::Start, None);
    assert!(matches!(action, Action::Query(_)));
    let (_, action) = d.op_step(&op, st, ok("{\"domain_records\":[]}"));
    match action {
        Action::Done(Err(Error::RecordNotFound(h))) => assert_eq!("h", h),
        _ => panic!("an update without a target must be a not-found error"),
    }
}

#[test]
fn digitalocean_delete_without_target_is_a_no_op() {
    let d = digitalocean_client();
    let op = Op::delete_record(RecordType::A, "h");
    let (st, _) = d.op_step(&op, zone_update::digitalocean::OpState::Start, None);
    let (_, action) = d.op_step(&op, st, ok("{\"domain_records\":[]}"));
    assert!(matches!(action, Action::Done(Ok(None))));
}

#[test]
fn digitalocean_get_data() {
    let d = digitalocean_client();
    let op = Op::get_record(RecordType::A, "h");
    let (st, _) = d.op_step(&op, zone_update::digitalocean::OpState::Start, None);
    let body = "{\"domain_records\":[{\"id\":28448432,\"type\":\"A\",\"name\":\"h\",\
                \"ttl\":1800,\"data\":\"1.2.3.4\"}]}";
    let (_, action) = d.op_step(&op, st, ok(body));
    match action {
        Action::Done(Ok(Some(v))) => assert_eq!("1.2.3.4", v),
        _ => panic!("the record's data must be returned"),
    }
}

fn dnsimple_client(acc: Option<u32>) -> zone_update::dnsimple::DnSimple {
    zone_update::dnsimple::DnSimple::new(
        conf(false),
        zone_update::dnsimple::Auth { key: "SECRET-REDACTED".to_string() },
        acc,
    )
}

#[test]
fn test_id_fetch() {
    let mut c = dnsimple_client(None);
    let op = Op::get_record(RecordType::A, "test");
    let (st, action) = c.op_step(&op, zone_update::dnsimple::OpState::Start, None);
    match action {
        Action::Query(req) => assert!(req.url.ends_with("/accounts")),
        _ => panic!("the first step must resolve the account"),
    }
    let body = "{\"data\":[{\"id\":2602,\"email\":\"someone\",\"plan_identifier\":\"solo\"}]}";
    let (_, action) = c.op_step(&op, st, ok(body));
    assert!(matches!(action, Action::Query(_)));
    assert_eq!(Some(2602), c.acc_id);
}

#[test]
fn dnsimple_many_accounts_demand_a_choice() {
    let mut c = dnsimple_client(None);
    let op = Op::get_record(RecordType::A, "test");
    let (st, _) = c.op_step(&op, zone_update::dnsimple::OpState::Start, None);
    let body = "{\"data\":[{\"id\":1},{\"id\":2}]}";
    let (_, action) = c.op_step(&op, st, ok(body));
    match action {
        Action::Done(Err(Error::ApiError(m))) => assert!(m.contains("More than one account")),
        _ => panic!("several accounts must be a reported error"),
    }
}

#[test]
fn dnsimple_supplied_account_skips_resolution() {
    let mut c = dnsimple_client(Some(7));
    let op = Op::get_record(RecordType::A, "test");
    let (_, action) = c.op_step(&op, zone_update::dnsimple::OpState::Start, None);
    match action {
        Action::Query(req) => assert!(req.url.contains("/7/zones/example.com/records")),
        _ => panic!("a supplied identifier must go straight to the lookup"),
    }
}

fn dnsmadeeasy_client() -> zone_update::dnsmadeeasy::DnsMadeEasy {
    zone_update::dnsmadeeasy::DnsMadeEasy::new_with_endpoint(
        conf(false),
        zone_update::dnsmadeeasy::Auth {
            key: "SECRET-REDACTED".to_string(),
            secret: "SECRET-REDACTED".to_string(),
        },
        "https://api.sandbox.dnsmadeeasy.com/V2.0",
    )
}

#[test]
fn test_get_domain() {
    let domain = zone_update::dnsmadeeasy::DnsMadeEasy::parse_domain(
        "{\"id\":1119443,\"name\":\"testcondition.net\"}",
    )
    .unwrap();
    assert_eq!("testcondition.net".to_string(), domain.name);
}

#[test]
fn dnsmadeeasy_signature_matches_reference_vector() {
    // Known HMAC-SHA1 test vector: key "Jefe", message
    // "what do ya want for nothing?".
    let auth = zone_update::dnsmadeeasy::Auth {
        key: "k".to_string(),
        secret: "Jefe".to_string(),
    };
    let headers = auth.get_headers_at("what do ya want for nothing?");
    assert_eq!("x-dnsme-hmac", headers[1].0);
    assert_eq!("effcdf6ae5eb2fa2d27416d5f184df9c259a7c79", headers[1].1);
    assert_eq!("what do ya want for nothing?", headers[2].1);
}

#[test]
fn dnsmadeeasy_create_after_domain_resolution() {
    let mut c = dnsmadeeasy_client();
    let op = Op::create_record(RecordType::A, "h", "1.2.3.4");
    let (st, action) = c.op_step(&op, zone_update::dnsmadeeasy::OpState::Start, None);
    match action {
        Action::Query(req) => assert!(req.url.contains("/dns/managed/name?domainname=")),
        _ => panic!("the first step must resolve the domain"),
    }
    let (st, action) = c.op_step(&op, st, ok("{\"id\":101,\"name\":\"example.com\"}"));
    let req = match action {
        Action::Mutate(req) => req,
        _ => panic!("the create must follow"),
    };
    assert_eq!(Some(101), c.domain_id);
    assert_eq!(
        Some("{\"id\":0,\"name\":\"h\",\"value\":\"1.2.3.4\",\"type\":\"A\",\
              \"sourceId\":0,\"ttl\":300}"
            .to_string()),
        req.body
    );
    let (_, action) = c.op_step(&op, st, ok(""));
    assert!(matches!(action, Action::Done(Ok(None))));
}

fn linode_client() -> zone_update::linode::Linode {
    zone_update::linode::Linode::new(
        conf(false),
        zone_update::linode::Auth { key: "SECRET-REDACTED".to_string() },
    )
}

#[test]
fn linode_filters_mixed_records() {
    let mut c = linode_client();
    let op = Op::get_record(RecordType::A, "host");
    let (st, _) = c.op_step(&op, zone_update::linode::OpState::Start, None);
    let domains = "{\"data\":[{\"id\":56,\"domain\":\"other.com\"},\
                   {\"id\":55,\"domain\":\"example.com\"}]}";
    let (st, action) = c.op_step(&op, st, ok(domains));
    assert_eq!(Some(55), c.domain_id);
    match action {
        Action::Query(req) => assert!(req.url.ends_with("/domains/55/records")),
        _ => panic!("the lookup must follow"),
    }
    let records = "{\"data\":[\
        {\"id\":1,\"type\":\"A\",\"name\":\"host\",\"target\":\"9.9.9.9\"},\
        {\"id\":2,\"type\":\"TXT\",\"name\":\"host\",\"target\":\"text\"},\
        {\"id\":3,\"type\":\"A\",\"name\":\"other\",\"target\":\"8.8.8.8\"}]}";
    let (_, action) = c.op_step(&op, st, ok(records));
    match action {
        Action::Done(Ok(Some(v))) => assert_eq!("9.9.9.9", v),
        _ => panic!("only the matching record's target must be returned"),
    }
}

#[test]
fn linode_unknown_domain_is_not_found() {
    let mut c = linode_client();
    let op = Op::get_record(RecordType::A, "host");
    let (st, _) = c.op_step(&op, zone_update::linode::OpState::Start, None);
    let domains = "{\"data\":[{\"id\":56,\"domain\":\"other.com\"}]}";
    let (_, action) = c.op_step(&op, st, ok(domains));
    match action {
        Action::Done(Err(Error::RecordNotFound(d))) => assert_eq!("example.com", d),
        _ => panic!("an unknown domain must be a not-found error"),
    }
}

fn bunny_client() -> zone_update::bunny::Bunny {
    zone_update::bunny::Bunny::new(
        conf(false),
        zone_update::bunny::Auth { key: "SECRET-REDACTED".to_string() },
    )
}

#[test]
fn bunny_filters_by_integer_code() {
    let mut c = bunny_client();
    let op = Op::get_record(RecordType::A, "host");
    let (st, action) = c.op_step(&op, zone_update::bunny::OpState::Start, None);
    match action {
        Action::Query(req) => {
            assert_eq!("https://api.bunny.net/dnszone?search=example.com", req.url);
        },
        _ => panic!("the first step must search the zone"),
    }
    let zones = "{\"Items\":[{\"Id\":9,\"Domain\":\"example.com\"}]}";
    let (st, _) = c.op_step(&op, st, ok(zones));
    assert_eq!(Some(9), c.zone_id);
    let records = "{\"Records\":[\
        {\"Id\":1,\"Type\":0,\"Ttl\":300,\"Value\":\"1.2.3.4\",\"Name\":\"host\"},\
        {\"Id\":2,\"Type\":3,\"Ttl\":300,\"Value\":\"text\",\"Name\":\"host\"}]}";
    let (_, action) = c.op_step(&op, st, ok(records));
    match action {
        Action::Done(Ok(Some(v))) => assert_eq!("1.2.3.4", v),
        _ => panic!("only the record with the matching code must be returned"),
    }
}

#[test]
fn bunny_create_sends_integer_code() {
    let mut c = bunny_client();
    c.zone_id = Some(9);
    let op = Op::create_txt_record("h", "v");
    let (_, action) = c.op_step(&op, zone_update::bunny::OpState::Start, None);
    let req = match action {
        Action::Mutate(req) => req,
        _ => panic!("a create must mutate"),
    };
    assert!(matches!(req.method, Method::Put));
    assert_eq!(
        Some("{\"Value\":\"\\\"v\\\"\",\"Name\":\"h\",\"Ttl\":300,\"Type\":3}".to_string()),
        req.body
    );
}

#[test]
fn bunny_unsupported_type_is_reported() {
    let mut c = bunny_client();
    c.zone_id = Some(9);
    let op = Op::create_record(RecordType::HINFO, "h", "v");
    let (_, action) = c.op_step(&op, zone_update::bunny::OpState::Start, None);
    match action {
        Action::Done(Err(Error::ApiError(_))) => (),
        _ => panic!("a type without a wire code must be a reported error"),
    }
}

fn porkbun_client(dry_run: bool) -> zone_update::porkbun::Porkbun {
    zone_update::porkbun::Porkbun::new(
        conf(dry_run),
        zone_update::porkbun::Auth {
            key: "SECRET-REDACTED".to_string(),
            secret: "SECRET-REDACTED".to_string(),
        },
    )
}

#[test]
fn porkbun_ids_arrive_as_strings() {
    let p = porkbun_client(false);
    let op = Op::delete_record(RecordType::A, "host");
    let (st, action) = p.op_step(&op, zone_update::porkbun::OpState::Start, None);
    match action {
        Action::Query(req) => {
            assert!(matches!(req.method, Method::Post));
            assert!(req.url.contains("/retrieveByNameType/example.com/A/host"));
        },
        _ => panic!("the lookup must come first"),
    }
    let body = "{\"records\":[{\"id\":\"106926659\",\"name\":\"host\",\"type\":\"A\",\
                \"content\":\"1.1.1.1\"}]}";
    let (_, action) = p.op_step(&op, st, ok(body));
    match action {
        Action::Mutate(req) => assert!(req.url.ends_with("/delete/example.com/106926659")),
        _ => panic!("the delete must follow"),
    }
}

#[test]
fn porkbun_update_without_target_creates() {
    let p = porkbun_client(false);
    let op = Op::update_record(RecordType::A, "host", "1.1.1.1");
    let (st, _) = p.op_step(&op, zone_update::porkbun::OpState::Start, None);
    let (_, action) = p.op_step(&op, st, ok("{\"records\":[]}"));
    match action {
        Action::Mutate(req) => assert!(req.url.ends_with("/create/example.com")),
        _ => panic!("an update without a target must create instead"),
    }
}

#[test]
fn porkbun_dry_run_update_fallback_stays_quiet() {
    let p = porkbun_client(true);
    let op = Op::update_record(RecordType::A, "host", "1.1.1.1");
    let (st, action) = p.op_step(&op, zone_update::porkbun::OpState::Start, None);
    assert!(matches!(action, Action::Query(_)));
    let (_, action) = p.op_step(&op, st, ok("{\"records\":[]}"));
    assert!(matches!(action, Action::Done(Ok(None))));
}

#[test]
fn cloudflare_failed_mutation_is_reported() {
    let mut c = zone_update::cloudflare::Cloudflare::new(
        conf(false),
        zone_update::cloudflare::Auth { key: "SECRET-REDACTED".to_string() },
    );
    c.zone_id = Some("zone1".to_string());
    let op = Op::create_record(RecordType::A, "h", "1.2.3.4");
    let (st, action) = c.op_step(&op, zone_update::cloudflare::OpState::Start, None);
    assert!(matches!(action, Action::Mutate(_)));
    let bad = Some(HttpResponse { status: 500, body: "boom".to_string() });
    let (_, action) = c.op_step(&op, st, bad);
    match action {
        Action::Done(Err(Error::ApiError(m))) => assert_eq!("Api Error: 500 -> boom", m),
        _ => panic!("a failed mutation must be reported, never swallowed"),
    }
}

#[test]
fn cloudflare_delete_404_is_a_soft_no_op() {
    let mut c = zone_update::cloudflare::Cloudflare::new(
        conf(false),
        zone_update::cloudflare::Auth { key: "SECRET-REDACTED".to_string() },
    );
    c.zone_id = Some("zone1".to_string());
    let op = Op::delete_record(RecordType::A, "h");
    let (st, _) = c.op_step(&op, zone_update::cloudflare::OpState::Start, None);
    let body = "{\"success\":true,\"result\":[{\"id\":\"r1\",\"name\":\"h\",\
                \"ttl\":300,\"type\":\"A\",\"content\":\"1.2.3.4\"}]}";
    let (st, action) = c.op_step(&op, st, ok(body));
    assert!(matches!(action, Action::Mutate(_)));
    let (_, action) = c.op_step(&op, st, missing());
    assert!(matches!(action, Action::Done(Ok(None))));
}

#[test]
fn desec_failed_delete_is_reported() {
    let d = desec_client();
    let op = Op::delete_record(RecordType::A, "h");
    let (st, action) = d.op_step(&op, zone_update::desec::OpState::Start, None);
    assert!(matches!(action, Action::Mutate(_)));
    let bad = Some(HttpResponse { status: 500, body: "boom".to_string() });
    let (_, action) = d.op_step(&op, st, bad);
    assert!(matches!(action, Action::Done(Err(Error::ApiError(_)))));
}

#[test]
fn desec_delete_404_is_a_soft_no_op() {
    let d = desec_client();
    let op = Op::delete_record(RecordType::A, "h");
    let (st, _) = d.op_step(&op, zone_update::desec::OpState::Start, None);
    let (_, action) = d.op_step(&op, st, missing());
    assert!(matches!(action, Action::Done(Ok(None))));
}

#[test]
fn dnsimple_account_rule_is_exact() {
    assert_eq!(Ok(2602), DnSimple::account_id_from_list(&vec![2602u64]).map_err(|_| ()));
    match DnSimple::account_id_from_list(&vec![]) {
        Err(Error::ApiError(m)) => assert_eq!("No accounts returned from upstream", m),
        _ => panic!("no accounts must be a reported error"),
    }
    match DnSimple::account_id_from_list(&vec![1, 2]) {
        Err(Error::ApiError(m)) => {
            assert_eq!(
                "More than one account returned; you must specify the account ID to use",
                m
            );
        },
        _ => panic!("several accounts must demand a choice"),
    }
    match DnSimple::account_id_from_list(&vec![u64::MAX]) {
        Err(Error::JsonError(_)) => (),
        _ => panic!("an oversized identifier must be a decode error"),
    }
}
