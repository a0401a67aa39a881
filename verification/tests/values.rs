use zone_update::errors::Error;
use zone_update::http::HttpResponse;
use zone_update::http::check_error;
use zone_update::http::response_body;
use zone_update::ipv4::Ipv4Addr;
use zone_update::op::a_record_result;
use zone_update::op::select_single;
use zone_update::op::txt_record_result;
use zone_update::text::parse_u64;
use zone_update::text::u64_to_string;

#[test]
fn test_u64_to_string() {
    assert_eq!("0", u64_to_string(0));
    assert_eq!("7", u64_to_string(7));
    assert_eq!("300", u64_to_string(300));
    assert_eq!("18446744073709551615", u64_to_string(u64::MAX));
}

#[test]
fn test_parse_u64() {
    assert_eq!(Some(0), parse_u64("0"));
    assert_eq!(Some(106926659), parse_u64("106926659"));
    assert_eq!(None, parse_u64(""));
    assert_eq!(None, parse_u64("12a"));
    assert_eq!(None, parse_u64("-3"));
    assert_eq!(Some(u64::MAX), parse_u64("18446744073709551615"));
    assert_eq!(None, parse_u64("18446744073709551616"));
}

#[test]
fn test_ipv4_round_trip() {
    let ip = Ipv4Addr::new(10, 9, 8, 7);
    assert_eq!("10.9.8.7", ip.to_text());
    assert_eq!(Ok(ip), Ipv4Addr::parse("10.9.8.7").map_err(|_| ()));
    assert_eq!("255.255.255.255", Ipv4Addr::new(255, 255, 255, 255).to_text());
}

#[test]
fn test_ipv4_rejects_malformed() {
    for bad in ["", "1.2.3", "1.2.3.4.5", "256.1.1.1", "01.2.3.4", "a.b.c.d", "1..2.3", "1.2.3.4 "]
    {
        match Ipv4Addr::parse(bad) {
            Err(Error::AddrParseError(_)) => (),
            other => panic!("{bad:?} must be an address-parse error, got {:?}", other.is_ok()),
        }
    }
}

#[test]
fn test_select_single_cardinality() {
    let none: Vec<u64> = vec![];
    assert_eq!(Ok(None), select_single(none).map_err(|_| ()));
    assert_eq!(Ok(Some(5)), select_single(vec![5u64]).map_err(|_| ()));
    match select_single(vec![1u64, 2u64]) {
        Err(Error::UnexpectedRecord(m)) => {
            assert_eq!("Returned number of records is 2, should be 1", m);
        },
        _ => panic!("two records must be an unexpected-record error"),
    }
}

#[test]
fn test_response_body_statuses() {
    let ok = HttpResponse { status: 200, body: "payload".to_string() };
    match response_body(&ok) {
        Ok(Some(b)) => assert_eq!("payload", b),
        _ => panic!("a 200 must hand its body on"),
    }
    let missing = HttpResponse { status: 404, body: String::new() };
    match response_body(&missing) {
        Ok(None) => (),
        _ => panic!("a 404 is not found, never an error"),
    }
    let broken = HttpResponse { status: 500, body: "boom".to_string() };
    match response_body(&broken) {
        Err(Error::ApiError(m)) => assert_eq!("Api Error: 500 -> boom", m),
        _ => panic!("any other status must be a reported error"),
    }
}

#[test]
fn test_check_error_statuses() {
    assert!(check_error(&HttpResponse { status: 201, body: String::new() }).is_ok());
    match check_error(&HttpResponse { status: 403, body: "denied".to_string() }) {
        Err(Error::ApiError(m)) => assert_eq!("Api Error: 403 -> denied", m),
        _ => panic!("a non-success status must be a reported error"),
    }
}

#[test]
fn test_txt_record_result_strips() {
    assert_eq!(
        Some("a text reference".to_string()),
        txt_record_result(Some("\"a text reference\"".to_string()))
    );
    assert_eq!(None, txt_record_result(None));
}

#[test]
fn test_a_record_result_parses() {
    match a_record_result(Some("10.1.2.3".to_string())) {
        Ok(Some(ip)) => assert_eq!("10.1.2.3", ip.to_text()),
        _ => panic!("a canonical address must parse"),
    }
    match a_record_result(Some("not an address".to_string())) {
        Err(Error::AddrParseError(_)) => (),
        _ => panic!("a malformed address must be an address-parse error"),
    }
    assert_eq!(true, a_record_result(None).unwrap().is_none());
}
