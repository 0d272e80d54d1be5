use rebar::{ObjectError, ObjectType, RebarError};

#[test]
fn test_object_type_from_str_valid() {
    let obj_type = ObjectType::from_str("blob").unwrap();
    assert_eq!(obj_type, ObjectType::Blob);
}

#[test]
fn test_object_type_from_str_invalid() {
    let result = ObjectType::from_str("invalid");
    assert!(result.is_err());

    match result {
        Err(RebarError::Object(ObjectError::InvalidType { found })) => {
            assert_eq!(found, "invalid");
        }
        _ => panic!("Expected InvalidType error"),
    }
}

#[test]
fn test_object_type_from_str_case_sensitive() {
    let result = ObjectType::from_str("BLOB");
    assert!(result.is_err());

    let result = ObjectType::from_str("Blob");
    assert!(result.is_err());
}

#[test]
fn test_object_type_from_str_empty() {
    let result = ObjectType::from_str("");
    assert!(result.is_err());

    match result {
        Err(RebarError::Object(ObjectError::InvalidType { found })) => {
            assert_eq!(found, "");
        }
        _ => panic!("Expected InvalidType error"),
    }
}

#[test]
fn test_object_type_debug() {
    let obj_type = ObjectType::Blob;
    assert_eq!(format!("{:?}", obj_type), "Blob");
}

#[test]
fn test_object_type_equality() {
    let obj1 = ObjectType::Blob;
    let obj2 = ObjectType::Blob;
    assert_eq!(obj1, obj2);

    let obj3 = ObjectType::from_str("blob").unwrap();
    assert_eq!(obj1, obj3);
}

#[test]
fn test_object_type_clone() {
    let obj1 = ObjectType::Blob;
    let obj2 = obj1.clone();
    assert_eq!(obj1, obj2);
}

#[test]
fn object_type_token() {
    assert_eq!(ObjectType::Blob.token(), "blob");
}
