use zone_update::Config;
use zone_update::Provider;
use zone_update::op::Action;
use zone_update::op::Op;

/// Helper to construct a runtime-selected DNS provider client.
fn get_dns_provider(pe: Provider) -> zone_update::ProviderClient {
    let dns_conf = Config { domain: "example.com".to_string(), dry_run: false };
    pe.blocking_impl(dns_conf)
}

#[test]
fn dyntests_test_get_providers() {
    let pe = Provider::PorkBun(zone_update::porkbun::Auth {
        key: "a_key".to_string(),
        secret: "a_secret".to_string(),
    });

    let mut p = get_dns_provider(pe);
    let st = p.start_state();
    let op = Op::get_a_record("test");
    let _r = p.op_step(&op, st, None);
}

#[test]
fn dyntests_dispatch_reaches_each_adapter() {
    let providers = vec![
        Provider::Cloudflare(zone_update::cloudflare::Auth { key: "a_key".to_string() }),
        Provider::Gandi(zone_update::gandi::Auth::PatKey("a_key".to_string())),
        Provider::Dnsimple(zone_update::dnsimple::Auth { key: "a_key".to_string() }),
        Provider::DnsMadeEasy(zone_update::dnsmadeeasy::Auth {
            key: "a_key".to_string(),
            secret: "a_secret".to_string(),
        }),
        Provider::PorkBun(zone_update::porkbun::Auth {
            key: "a_key".to_string(),
            secret: "a_secret".to_string(),
        }),
    ];
    for pe in providers {
        let mut p = get_dns_provider(pe);
        let st = p.start_state();
        let op = Op::get_a_record("test");
        let (_, action) = p.op_step(&op, st, None);
        // Every adapter answers a first get with a query to perform.
        assert!(matches!(action, Action::Query(_)));
    }
}

#[test]
fn dyntests_dry_run_holds_across_dispatch() {
    let pe = Provider::Gandi(zone_update::gandi::Auth::PatKey("a_key".to_string()));
    let mut p = pe.blocking_impl(Config { domain: "example.com".to_string(), dry_run: true });
    let st = p.start_state();
    let op = Op::create_txt_record("test", "value");
    let (_, action) = p.op_step(&op, st, None);
    assert!(matches!(action, Action::Done(Ok(None))));
}
