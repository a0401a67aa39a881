use zone_update::RecordType;
use zone_update::bunny::record_type_code;
use zone_update::bunny::record_type_from_code;
use zone_update::errors::Error;
use zone_update::record_type_from_name;

const ALL: [RecordType; 15] = [
    RecordType::A,
    RecordType::AAAA,
    RecordType::CAA,
    RecordType::CNAME,
    RecordType::HINFO,
    RecordType::MX,
    RecordType::NAPTR,
    RecordType::NS,
    RecordType::PTR,
    RecordType::SRV,
    RecordType::SPF,
    RecordType::SSHFP,
    RecordType::SVCB,
    RecordType::HTTPS,
    RecordType::TXT,
];

#[test]
fn test_name_round_trip() {
    for t in ALL {
        assert_eq!(Ok(t), record_type_from_name(t.name()).map_err(|_| ()));
    }
}

#[test]
fn test_names_exact() {
    assert_eq!("A", RecordType::A.name());
    assert_eq!("TXT", RecordType::TXT.name());
    assert_eq!("AAAA", RecordType::AAAA.name());
    assert_eq!("CNAME", RecordType::CNAME.name());
}

#[test]
fn test_unknown_name_is_error() {
    match record_type_from_name("BOGUS") {
        Err(Error::ApiError(_)) => (),
        _ => panic!("an unrecognized tag must be a reported error"),
    }
}

#[test]
fn test_bunny_code_round_trip() {
    for t in ALL {
        if let Ok(code) = record_type_code(t) {
            assert_eq!(Ok(t), record_type_from_code(code).map_err(|_| ()));
        }
    }
}

#[test]
fn test_bunny_codes_exact() {
    assert_eq!(0, record_type_code(RecordType::A).unwrap());
    assert_eq!(3, record_type_code(RecordType::TXT).unwrap());
    assert_eq!(14, record_type_code(RecordType::HTTPS).unwrap());
}

#[test]
fn test_bunny_unsupported_type_is_error() {
    match record_type_code(RecordType::HINFO) {
        Err(Error::ApiError(_)) => (),
        _ => panic!("a type without a wire code must be a reported error"),
    }
}

#[test]
fn test_bunny_unknown_code_is_error() {
    match record_type_from_code(5) {
        Err(Error::ApiError(m)) => assert_eq!("Invalid RecordType ID 5", m),
        _ => panic!("an unassigned code must be a reported error"),
    }
}
