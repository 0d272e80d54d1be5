use rebar::{encode_header, parse_header, ObjectError, ObjectType, RebarError};

#[test]
fn test_parse_header_valid() {
    let header = "blob 1024\n";
    let result = parse_header(header).unwrap();
    assert_eq!(result.0, ObjectType::Blob);
    assert_eq!(result.1, 1024);
}

#[test]
fn test_parse_header_missing_type() {
    let header = "\n";
    match parse_header(header) {
        Err(RebarError::Object(ObjectError::MalformedHeader { reason })) => {
            assert_eq!(reason, "Missing object type");
        }
        _ => panic!("Expected MalformedHeader error for missing type"),
    }
}

#[test]
fn test_parse_header_missing_size() {
    let header = "blob\n";
    match parse_header(header) {
        Err(RebarError::Object(ObjectError::MalformedHeader { reason })) => {
            assert_eq!(reason, "Missing size");
        }
        _ => panic!("Expected MalformedHeader error for missing size"),
    }
}

#[test]
fn test_parse_header_invalid_type() {
    let header = "invalid 1024\n";
    match parse_header(header) {
        Err(RebarError::Object(ObjectError::InvalidType { found })) => {
            assert_eq!(found, "invalid");
        }
        _ => panic!("Expected InvalidType error"),
    }
}

#[test]
fn test_parse_header_invalid_size() {
    let header = "blob notanumber\n";
    match parse_header(header) {
        Err(RebarError::Object(ObjectError::MalformedHeader { reason })) => {
            assert!(reason.contains("Invalid size: notanumber"));
        }
        _ => panic!("Expected MalformedHeader error for invalid size"),
    }
}

#[test]
fn test_parse_header_negative_size() {
    let header = "blob -100\n";
    match parse_header(header) {
        Err(RebarError::Object(ObjectError::MalformedHeader { reason })) => {
            assert!(reason.contains("Invalid size: -100"));
        }
        _ => panic!("Expected MalformedHeader error for negative size"),
    }
}

#[test]
fn test_parse_header_extra_whitespace() {
    let header = "  blob   1024  \n";
    let result = parse_header(header).unwrap();
    assert_eq!(result.0, ObjectType::Blob);
    assert_eq!(result.1, 1024);
}

#[test]
fn test_parse_header_zero_size() {
    let header = "blob 0\n";
    let result = parse_header(header).unwrap();
    assert_eq!(result.0, ObjectType::Blob);
    assert_eq!(result.1, 0);
}

#[test]
fn test_parse_header_max_size() {
    let header = format!("blob {}\n", usize::MAX);
    let result = parse_header(&header).unwrap();
    assert_eq!(result.0, ObjectType::Blob);
    assert_eq!(result.1, usize::MAX);
}

#[test]
fn parse_header_rejects_plus_sign() {
    match parse_header("blob +5\n") {
        Err(RebarError::Object(ObjectError::MalformedHeader { reason })) => {
            assert_eq!(reason, "Invalid size: +5");
        }
        _ => panic!("a signed size must be refused"),
    }
}

#[test]
fn parse_header_rejects_overflowing_size() {
    let header = format!("blob {}0\n", usize::MAX);
    match parse_header(&header) {
        Err(RebarError::Object(ObjectError::MalformedHeader { reason })) => {
            assert_eq!(reason, format!("Invalid size: {}0", usize::MAX));
        }
        _ => panic!("an overflowing size must be refused"),
    }
}

#[test]
fn parse_header_rejects_third_token() {
    match parse_header("blob 5 extra\n") {
        Err(RebarError::Object(ObjectError::MalformedHeader { reason })) => {
            assert_eq!(reason, "Unexpected token after size: extra");
        }
        _ => panic!("a third token must be refused"),
    }
}

#[test]
fn parse_header_checks_type_before_size() {
    match parse_header("tree abc\n") {
        Err(RebarError::Object(ObjectError::InvalidType { found })) => assert_eq!(found, "tree"),
        _ => panic!("the kind is checked first"),
    }
}

#[test]
fn parse_header_splits_on_unicode_whitespace() {
    let result = parse_header("\u{3000}blob\u{a0}42\t\r\n").unwrap();
    assert_eq!(result, (ObjectType::Blob, 42));
}

#[test]
fn parse_header_empty_line() {
    match parse_header("") {
        Err(RebarError::Object(ObjectError::MalformedHeader { reason })) => {
            assert_eq!(reason, "Missing object type");
        }
        _ => panic!("an empty line has no type"),
    }
}

#[test]
fn encode_header_writes_kind_and_length() {
    assert_eq!(encode_header(ObjectType::Blob, 1024), "blob 1024\n");
    assert_eq!(encode_header(ObjectType::Blob, 0), "blob 0\n");
}

#[test]
fn encoded_header_parses_back() {
    for n in [0usize, 7, 10, 99, 12345, usize::MAX] {
        let h = encode_header(ObjectType::Blob, n);
        assert_eq!(parse_header(&h).unwrap(), (ObjectType::Blob, n));
    }
}
