use rebar::{HashError, InputError, IoError, IoErrorKind, ObjectError, RebarError, HASH_SIZE};
use std::io;

#[test]
fn test_hash_error_display() {
    let err = HashError::InvalidLength { length: 32 };
    assert_eq!(
        err.to_string(),
        format!("Incorrect hash length: expected {HASH_SIZE}, got 32 chars")
    );

    let err = HashError::InvalidCharacter {
        position: 5,
        character: 'z',
    };
    assert_eq!(err.to_string(), "Invalid character 'z' at position 5");

    let err = HashError::Conversion("test error".to_string());
    assert_eq!(err.to_string(), "Hash conversion error: test error");
}

#[test]
fn test_io_error_display() {
    let err = IoError::EmptyPath;
    assert_eq!(err.to_string(), "Path cannot be empty");

    let err = IoError::PathNotExists {
        path: "/test/path".to_string(),
    };
    assert_eq!(err.to_string(), "Path does not exist: /test/path");

    let err = IoError::NotAFile {
        path: "/test/dir".to_string(),
    };
    assert_eq!(err.to_string(), "Path is not a file: /test/dir");

    let err = IoError::NoRepository {
        path: "/test/path".to_string(),
    };
    assert_eq!(
        err.to_string(),
        "Path '/test/path' is not inside a Rebar repository"
    );

    let err = IoError::AlreadyExists {
        path: "/test/file".to_string(),
    };
    assert_eq!(
        err.to_string(),
        "File or directory already exists: /test/file"
    );

    let err = IoError::NotFound {
        path: "/test/missing".to_string(),
    };
    assert_eq!(
        err.to_string(),
        "File or directory not found: /test/missing"
    );
}

#[test]
fn test_input_error_display() {
    let err = InputError::ArgumentConflict {
        message: "conflicting args".to_string(),
    };
    assert_eq!(err.to_string(), "Argument conflict: conflicting args");

    let err = InputError::MissingArgument {
        argument: "file".to_string(),
    };
    assert_eq!(err.to_string(), "Missing required argument: file");

    let err = InputError::InvalidArgument {
        argument: "count".to_string(),
        reason: "must be positive".to_string(),
    };
    assert_eq!(
        err.to_string(),
        "Invalid argument 'count': must be positive"
    );
}

#[test]
fn test_object_error_display() {
    let err = ObjectError::InvalidType {
        found: "unknown".to_string(),
    };
    assert_eq!(
        err.to_string(),
        "Invalid object type 'unknown' (expected blob, tree, or commit)"
    );

    let err = ObjectError::InvalidLength {
        expected: 100,
        actual: Some(50),
    };
    assert_eq!(
        err.to_string(),
        "Object length mismatch: header indicates 100 bytes, but content is 50 bytes"
    );

    let err = ObjectError::InvalidLength {
        expected: 100,
        actual: None,
    };
    assert_eq!(
        err.to_string(),
        "Object length mismatch: header indicates 100 bytes, but content length is larger"
    );

    let err = ObjectError::MalformedHeader {
        reason: "missing type".to_string(),
    };
    assert_eq!(err.to_string(), "Malformed object header: missing type");

    let err = ObjectError::CorruptedContent {
        reason: "bad checksum".to_string(),
    };
    assert_eq!(err.to_string(), "Corrupted object content: bad checksum");

    let err = ObjectError::CompressionError {
        reason: "zstd failed".to_string(),
    };
    assert_eq!(err.to_string(), "Failed to compress object: zstd failed");
}

#[test]
fn test_rebar_error_display() {
    let hash_err = HashError::InvalidLength { length: 32 };
    let rebar_err = RebarError::Hash(hash_err);
    assert!(rebar_err.to_string().starts_with("Hash error:"));

    let io_err = IoError::EmptyPath;
    let rebar_err = RebarError::Io(io_err);
    assert!(rebar_err.to_string().starts_with("IO error:"));

    let obj_err = ObjectError::InvalidType {
        found: "unknown".to_string(),
    };
    let rebar_err = RebarError::Object(obj_err);
    assert!(rebar_err.to_string().starts_with("Object error:"));

    let input_err = InputError::MissingArgument {
        argument: "test".to_string(),
    };
    let rebar_err = RebarError::Input(input_err);
    assert!(rebar_err.to_string().starts_with("Input error:"));
}

#[test]
fn test_error_conversions() {
    let io_error = io::Error::new(io::ErrorKind::NotFound, "file not found");
    let io_err: IoError = io_error.into();
    match io_err {
        IoError::NotFound { path } => assert_eq!(path, "unknown"),
        _ => panic!("Expected NotFound variant"),
    }

    let io_error = io::Error::new(io::ErrorKind::PermissionDenied, "permission denied");
    let io_err: IoError = io_error.into();
    match io_err {
        IoError::Permission { path, .. } => assert_eq!(path, "unknown"),
        _ => panic!("Expected Permission variant"),
    }

    let io_error = io::Error::new(io::ErrorKind::AlreadyExists, "already exists");
    let io_err: IoError = io_error.into();
    match io_err {
        IoError::AlreadyExists { path } => assert_eq!(path, "unknown"),
        _ => panic!("Expected AlreadyExists variant"),
    }

    let io_error = io::Error::new(io::ErrorKind::InvalidData, "invalid data");
    let io_err: IoError = io_error.into();
    match io_err {
        IoError::Other(_) => (),
        _ => panic!("Expected Other variant"),
    }
}

#[test]
fn test_rebar_error_conversions() {
    let hash_err = HashError::InvalidLength { length: 32 };
    let rebar_err: RebarError = hash_err.into();
    match rebar_err {
        RebarError::Hash(_) => (),
        _ => panic!("Expected Hash variant"),
    }

    let io_err = IoError::EmptyPath;
    let rebar_err: RebarError = io_err.into();
    match rebar_err {
        RebarError::Io(_) => (),
        _ => panic!("Expected Io variant"),
    }

    let obj_err = ObjectError::InvalidType {
        found: "test".to_string(),
    };
    let rebar_err: RebarError = obj_err.into();
    match rebar_err {
        RebarError::Object(_) => (),
        _ => panic!("Expected Object variant"),
    }

    let input_err = InputError::MissingArgument {
        argument: "test".to_string(),
    };
    let rebar_err: RebarError = input_err.into();
    match rebar_err {
        RebarError::Input(_) => (),
        _ => panic!("Expected Input variant"),
    }
}

#[test]
fn test_error_source() {
    let io_error = io::Error::new(io::ErrorKind::PermissionDenied, "permission denied");
    let io_err = IoError::Permission {
        path: "test".to_string(),
        source: io_error,
    };
    assert!(io_err.source().is_some());

    let io_err = IoError::EmptyPath;
    assert!(io_err.source().is_none());

    let hash_err = HashError::InvalidLength { length: 32 };
    let rebar_err = RebarError::Hash(hash_err);
    assert!(rebar_err.source().is_some());
}

#[test]
fn remaining_error_texts() {
    let err = IoError::Permission {
        path: "/locked".to_string(),
        source: io::Error::new(io::ErrorKind::PermissionDenied, "denied"),
    };
    assert_eq!(err.to_string(), "Permission denied: /locked");

    let err = IoError::Other(io::Error::new(io::ErrorKind::Other, "disk on fire"));
    assert_eq!(err.to_string(), "IO error: disk on fire");

    let err = ObjectError::InvalidFormat {
        object_type: "tree".to_string(),
        reason: "bad entry".to_string(),
    };
    assert_eq!(err.to_string(), "Invalid tree object format: bad entry");

    let err = ObjectError::MissingField {
        field: "author".to_string(),
        object_type: "commit".to_string(),
    };
    assert_eq!(err.to_string(), "Missing required field 'author' in commit object");

    let err = RebarError::Hash(HashError::InvalidCharacter { position: 0, character: 'g' });
    assert_eq!(err.to_string(), "Hash error: Invalid character 'g' at position 0");
}

#[test]
fn io_error_from_kind_maps_each_kind() {
    let e = IoError::from_kind(
        IoErrorKind::NotFound,
        "/a".to_string(),
        io::Error::new(io::ErrorKind::NotFound, "x"),
    );
    assert!(matches!(e, IoError::NotFound { ref path } if path == "/a"));

    let e = IoError::from_kind(
        IoErrorKind::PermissionDenied,
        "/b".to_string(),
        io::Error::new(io::ErrorKind::PermissionDenied, "x"),
    );
    assert!(matches!(e, IoError::Permission { ref path, .. } if path == "/b"));

    let e = IoError::from_kind(
        IoErrorKind::AlreadyExists,
        "/c".to_string(),
        io::Error::new(io::ErrorKind::AlreadyExists, "x"),
    );
    assert!(matches!(e, IoError::AlreadyExists { ref path } if path == "/c"));

    let e = IoError::from_kind(
        IoErrorKind::Other,
        "/d".to_string(),
        io::Error::new(io::ErrorKind::InvalidData, "x"),
    );
    assert!(matches!(e, IoError::Other(_)));
}

#[test]
fn io_error_from_os_error_keeps_path() {
    let e = IoError::from_os_error(
        io::Error::new(io::ErrorKind::NotFound, "gone"),
        "/objects/abc".to_string(),
    );
    assert!(matches!(e, IoError::NotFound { ref path } if path == "/objects/abc"));
}
