//! The error taxonomy of the store, with the text that describes each error.
use vstd::prelude::*;
use crate::text::{char_text, decimal, usize_text};
use crate::hash::HASH_SIZE;

verus! {

#[verifier::external_type_specification]
#[verifier::external_body]
pub struct ExIoError(std::io::Error);

/// Relies on the `Display` impl of `std::io::Error`; nothing is known of the text.
#[verifier::external_body]
pub(crate) fn io_error_text(e: &std::io::Error) -> String {
    e.to_string()
}

/// The kinds of operating-system failure that the store tells apart.
#[derive(Debug, Clone, Copy, PartialEq, Eq, Structural)]
pub enum IoErrorKind {
    NotFound,
    PermissionDenied,
    AlreadyExists,
    Other,
}

/// Relies on `std::io::Error::kind`, sorted into the kinds the store reports.
#[verifier::external_body]
fn kind_of(e: &std::io::Error) -> IoErrorKind {
    match e.kind() {
        std::io::ErrorKind::NotFound => IoErrorKind::NotFound,
        std::io::ErrorKind::PermissionDenied => IoErrorKind::PermissionDenied,
        std::io::ErrorKind::AlreadyExists => IoErrorKind::AlreadyExists,
        _ => IoErrorKind::Other,
    }
}

/// `text` is `prefix` followed by something that `rest` accepts.
pub open spec fn prefixed(text: Seq<char>, prefix: Seq<char>, rest: spec_fn(Seq<char>) -> bool) -> bool {
    text.len() >= prefix.len() && text.take(prefix.len() as int) == prefix && rest(
        text.skip(prefix.len() as int),
    )
}

/// Any error of the store.
#[derive(Debug)]
pub enum RebarError {
    Io(IoError),
    Hash(HashError),
    Object(ObjectError),
    Input(InputError),
}

/// A failure of the file system, or a path that cannot be used.
#[derive(Debug)]
pub enum IoError {
    Permission { path: String, source: std::io::Error },
    AlreadyExists { path: String },
    NotFound { path: String },
    EmptyPath,
    PathNotExists { path: String },
    NotAFile { path: String },
    NoRepository { path: String },
    Other(std::io::Error),
}

/// Command-line arguments that do not fit together.
#[derive(Debug)]
pub enum InputError {
    ArgumentConflict { message: String },
    MissingArgument { argument: String },
    InvalidArgument { argument: String, reason: String },
}

/// A handle that is not 64 hex digits.
#[derive(Debug)]
pub enum HashError {
    InvalidLength { length: usize },
    InvalidCharacter { position: usize, character: char },
    Conversion(String),
}

/// A record that cannot be built or read back.
#[derive(Debug)]
pub enum ObjectError {
    /// The header names a kind that the store does not know.
    InvalidType { found: String },
    /// The body is shorter (`actual` is its length) or longer (`actual` is
    /// `None`) than the header declares, or the header declares more than the
    /// configured ceiling (`expected` is the ceiling).
    InvalidLength { expected: usize, actual: Option<usize> },
    /// The header line is not `<kind> <length>`.
    MalformedHeader { reason: String },
    /// The body does not decompress.
    CorruptedContent { reason: String },
    /// The payload of a kind does not have that kind's structure.
    InvalidFormat { object_type: String, reason: String },
    /// The payload of a kind lacks a field it needs.
    MissingField { field: String, object_type: String },
    /// The content could not be compressed.
    CompressionError { reason: String },
}

impl IoError {
    /// The description of every variant but `Other`, whose text comes from the
    /// operating system.
    pub open spec fn describes(self, text: Seq<char>) -> bool {
        match self {
            IoError::Permission { path, .. } => text == "Permission denied: "@ + path@,
            IoError::AlreadyExists { path } => text == "File or directory already exists: "@
                + path@,
            IoError::NotFound { path } => text == "File or directory not found: "@ + path@,
            IoError::EmptyPath => text == "Path cannot be empty"@,
            IoError::PathNotExists { path } => text == "Path does not exist: "@ + path@,
            IoError::NotAFile { path } => text == "Path is not a file: "@ + path@,
            IoError::NoRepository { path } => text == "Path '"@ + path@
                + "' is not inside a Rebar repository"@,
            IoError::Other(_) => prefixed(text, "IO error: "@, |rest: Seq<char>| true),
        }
    }

    /// The error for an operating-system failure of kind `kind` on `path`.
    pub open spec fn from_kind_spec(kind: IoErrorKind, path: String, err: std::io::Error) -> IoError {
        match kind {
            IoErrorKind::NotFound => IoError::NotFound { path },
            IoErrorKind::PermissionDenied => IoError::Permission { path, source: err },
            IoErrorKind::AlreadyExists => IoError::AlreadyExists { path },
            IoErrorKind::Other => IoError::Other(err),
        }
    }

    /// Maps an operating-system failure of kind `kind` on `path` to the
    /// store's error.
    pub fn from_kind(kind: IoErrorKind, path: String, err: std::io::Error) -> (r: IoError)
        ensures
            r == IoError::from_kind_spec(kind, path, err),
    {
        match kind {
            IoErrorKind::NotFound => IoError::NotFound { path },
            IoErrorKind::PermissionDenied => IoError::Permission { path, source: err },
            IoErrorKind::AlreadyExists => IoError::AlreadyExists { path },
            IoErrorKind::Other => IoError::Other(err),
        }
    }

    /// Maps an operating-system failure on `path` to the store's error.
    pub fn from_os_error(err: std::io::Error, path: String) -> (r: IoError)
        ensures
            exists|k: IoErrorKind| r == IoError::from_kind_spec(k, path, err),
    {
        let kind = kind_of(&err);
        IoError::from_kind(kind, path, err)
    }

    /// The underlying operating-system error, where there is one.
    pub fn source(&self) -> (r: Option<&std::io::Error>)
        ensures
            match self {
                IoError::Permission { source, .. } => r == Some(source),
                IoError::Other(e) => r == Some(e),
                _ => r is None,
            },
    {
        match self {
            IoError::Permission { source, .. } => Some(source),
            IoError::Other(e) => Some(e),
            _ => None,
        }
    }

    /// The text that describes the error.
    pub fn to_string(&self) -> (r: String)
        ensures
            self.describes(r@),
    {
        match self {
            IoError::Permission { path, .. } => String::from_str("Permission denied: ").concat(
                path.as_str(),
            ),
            IoError::AlreadyExists { path } => String::from_str(
                "File or directory already exists: ",
            ).concat(path.as_str()),
            IoError::NotFound { path } => String::from_str("File or directory not found: ").concat(
                path.as_str(),
            ),
            IoError::EmptyPath => String::from_str("Path cannot be empty"),
            IoError::PathNotExists { path } => String::from_str("Path does not exist: ").concat(
                path.as_str(),
            ),
            IoError::NotAFile { path } => String::from_str("Path is not a file: ").concat(
                path.as_str(),
            ),
            IoError::NoRepository { path } => String::from_str("Path '").concat(
                path.as_str(),
            ).concat("' is not inside a Rebar repository"),
            IoError::Other(e) => {
                let prefix = String::from_str("IO error: ");
                let detail = io_error_text(e);
                let r = prefix.concat(detail.as_str());
                assert(r@.take(prefix@.len() as int) =~= prefix@);
                r
            },
        }
    }
}

impl InputError {
    pub open spec fn describes(self, text: Seq<char>) -> bool {
        match self {
            InputError::ArgumentConflict { message } => text == "Argument conflict: "@ + message@,
            InputError::MissingArgument { argument } => text == "Missing required argument: "@
                + argument@,
            InputError::InvalidArgument { argument, reason } => text == "Invalid argument '"@
                + argument@ + "': "@ + reason@,
        }
    }

    /// The text that describes the error.
    pub fn to_string(&self) -> (r: String)
        ensures
            self.describes(r@),
    {
        match self {
            InputError::ArgumentConflict { message } => String::from_str(
                "Argument conflict: ",
            ).concat(message.as_str()),
            InputError::MissingArgument { argument } => String::from_str(
                "Missing required argument: ",
            ).concat(argument.as_str()),
            InputError::InvalidArgument { argument, reason } => String::from_str(
                "Invalid argument '",
            ).concat(argument.as_str()).concat("': ").concat(reason.as_str()),
        }
    }
}

impl HashError {
    pub open spec fn describes(self, text: Seq<char>) -> bool {
        match self {
            HashError::InvalidLength { length } => text == "Incorrect hash length: expected "@
                + decimal(HASH_SIZE as nat) + ", got "@ + decimal(length as nat) + " chars"@,
            HashError::InvalidCharacter { position, character } => text
                == "Invalid character '"@ + seq![character] + "' at position "@ + decimal(
                position as nat,
            ),
            HashError::Conversion(message) => text == "Hash conversion error: "@ + message@,
        }
    }

    /// The text that describes the error.
    pub fn to_string(&self) -> (r: String)
        ensures
            self.describes(r@),
    {
        match self {
            HashError::InvalidLength { length } => String::from_str(
                "Incorrect hash length: expected ",
            ).concat(usize_text(HASH_SIZE as usize).as_str()).concat(", got ").concat(
                usize_text(*length).as_str(),
            ).concat(" chars"),
            HashError::InvalidCharacter { position, character } => String::from_str(
                "Invalid character '",
            ).concat(char_text(*character).as_str()).concat("' at position ").concat(
                usize_text(*position).as_str(),
            ),
            HashError::Conversion(message) => String::from_str("Hash conversion error: ").concat(
                message.as_str(),
            ),
        }
    }
}

impl ObjectError {
    pub open spec fn describes(self, text: Seq<char>) -> bool {
        match self {
            ObjectError::InvalidType { found } => text == "Invalid object type '"@ + found@
                + "' (expected blob, tree, or commit)"@,
            ObjectError::InvalidLength { expected, actual } => match actual {
                None => text == "Object length mismatch: header indicates "@ + decimal(
                    expected as nat,
                ) + " bytes, but content length is larger"@,
                Some(a) => text == "Object length mismatch: header indicates "@ + decimal(
                    expected as nat,
                ) + " bytes, but content is "@ + decimal(a as nat) + " bytes"@,
            },
            ObjectError::MalformedHeader { reason } => text == "Malformed object header: "@
                + reason@,
            ObjectError::CorruptedContent { reason } => text == "Corrupted object content: "@
                + reason@,
            ObjectError::InvalidFormat { object_type, reason } => text == "Invalid "@
                + object_type@ + " object format: "@ + reason@,
            ObjectError::MissingField { field, object_type } => text
                == "Missing required field '"@ + field@ + "' in "@ + object_type@ + " object"@,
            ObjectError::CompressionError { reason } => text == "Failed to compress object: "@
                + reason@,
        }
    }

    /// The text that describes the error.
    pub fn to_string(&self) -> (r: String)
        ensures
            self.describes(r@),
    {
        match self {
            ObjectError::InvalidType { found } => String::from_str("Invalid object type '").concat(
                found.as_str(),
            ).concat("' (expected blob, tree, or commit)"),
            ObjectError::InvalidLength { expected, actual } => {
                let head = String::from_str("Object length mismatch: header indicates ").concat(
                    usize_text(*expected).as_str(),
                );
                match actual {
                    None => head.concat(" bytes, but content length is larger"),
                    Some(a) => head.concat(" bytes, but content is ").concat(
                        usize_text(*a).as_str(),
                    ).concat(" bytes"),
                }
            },
            ObjectError::MalformedHeader { reason } => String::from_str(
                "Malformed object header: ",
            ).concat(reason.as_str()),
            ObjectError::CorruptedContent { reason } => String::from_str(
                "Corrupted object content: ",
            ).concat(reason.as_str()),
            ObjectError::InvalidFormat { object_type, reason } => String::from_str(
                "Invalid ",
            ).concat(object_type.as_str()).concat(" object format: ").concat(reason.as_str()),
            ObjectError::MissingField { field, object_type } => String::from_str(
                "Missing required field '",
            ).concat(field.as_str()).concat("' in ").concat(object_type.as_str()).concat(
                " object",
            ),
            ObjectError::CompressionError { reason } => String::from_str(
                "Failed to compress object: ",
            ).concat(reason.as_str()),
        }
    }
}

/// The inner error that a `RebarError` wraps.
pub enum ErrorSource<'a> {
    Io(&'a IoError),
    Hash(&'a HashError),
    Object(&'a ObjectError),
    Input(&'a InputError),
}

impl RebarError {
    /// The prefix that names the class, then the inner error's description.
    pub open spec fn describes(self, text: Seq<char>) -> bool {
        match self {
            RebarError::Io(e) => prefixed(text, "IO error: "@, |rest: Seq<char>| e.describes(rest)),
            RebarError::Hash(e) => prefixed(
                text,
                "Hash error: "@,
                |rest: Seq<char>| e.describes(rest),
            ),
            RebarError::Object(e) => prefixed(
                text,
                "Object error: "@,
                |rest: Seq<char>| e.describes(rest),
            ),
            RebarError::Input(e) => prefixed(
                text,
                "Input error: "@,
                |rest: Seq<char>| e.describes(rest),
            ),
        }
    }

    /// The text that describes the error.
    pub fn to_string(&self) -> (r: String)
        ensures
            self.describes(r@),
    {
        let (prefix, inner) = match self {
            RebarError::Io(e) => (String::from_str("IO error: "), e.to_string()),
            RebarError::Hash(e) => (String::from_str("Hash error: "), e.to_string()),
            RebarError::Object(e) => (String::from_str("Object error: "), e.to_string()),
            RebarError::Input(e) => (String::from_str("Input error: "), e.to_string()),
        };
        let r = prefix.concat(inner.as_str());
        assert(r@.take(prefix@.len() as int) =~= prefix@);
        assert(r@.skip(prefix@.len() as int) =~= inner@);
        r
    }

    /// The inner error.
    pub fn source(&self) -> (r: Option<ErrorSource<'_>>)
        ensures
            match self {
                RebarError::Io(e) => r == Some(ErrorSource::Io(e)),
                RebarError::Hash(e) => r == Some(ErrorSource::Hash(e)),
                RebarError::Object(e) => r == Some(ErrorSource::Object(e)),
                RebarError::Input(e) => r == Some(ErrorSource::Input(e)),
            },
    {
        match self {
            RebarError::Io(e) => Some(ErrorSource::Io(e)),
            RebarError::Hash(e) => Some(ErrorSource::Hash(e)),
            RebarError::Object(e) => Some(ErrorSource::Object(e)),
            RebarError::Input(e) => Some(ErrorSource::Input(e)),
        }
    }
}

impl From<std::io::Error> for IoError {
    /// Maps an operating-system failure whose path is not known.
    fn from(err: std::io::Error) -> (r: IoError)
        ensures
            exists|k: IoErrorKind, p: String|
                p@ == "unknown"@ && r == IoError::from_kind_spec(k, p, err),
    {
        let path = String::from_str("unknown");
        let ghost p = path;
        let r = IoError::from_os_error(err, path);
        assert(p@ == "unknown"@);
        r
    }
}

impl vstd::std_specs::convert::FromSpecImpl<std::io::Error> for IoError {
    open spec fn obeys_from_spec() -> bool {
        false
    }

    open spec fn from_spec(err: std::io::Error) -> IoError {
        IoError::Other(err)
    }
}

impl From<std::io::Error> for RebarError {
    /// Maps an operating-system failure whose path is not known.
    fn from(err: std::io::Error) -> (r: RebarError)
        ensures
            exists|k: IoErrorKind, p: String|
                p@ == "unknown"@ && r == RebarError::Io(IoError::from_kind_spec(k, p, err)),
    {
        let path = String::from_str("unknown");
        let ghost p = path;
        let e = IoError::from_os_error(err, path);
        assert(p@ == "unknown"@);
        RebarError::Io(e)
    }
}

impl vstd::std_specs::convert::FromSpecImpl<std::io::Error> for RebarError {
    open spec fn obeys_from_spec() -> bool {
        false
    }

    open spec fn from_spec(err: std::io::Error) -> RebarError {
        RebarError::Io(IoError::Other(err))
    }
}

impl From<IoError> for RebarError {
    fn from(err: IoError) -> (r: RebarError) {
        RebarError::Io(err)
    }
}

impl vstd::std_specs::convert::FromSpecImpl<IoError> for RebarError {
    open spec fn obeys_from_spec() -> bool {
        true
    }

    open spec fn from_spec(err: IoError) -> RebarError {
        RebarError::Io(err)
    }
}

impl From<HashError> for RebarError {
    fn from(err: HashError) -> (r: RebarError) {
        RebarError::Hash(err)
    }
}

impl vstd::std_specs::convert::FromSpecImpl<HashError> for RebarError {
    open spec fn obeys_from_spec() -> bool {
        true
    }

    open spec fn from_spec(err: HashError) -> RebarError {
        RebarError::Hash(err)
    }
}

impl From<ObjectError> for RebarError {
    fn from(err: ObjectError) -> (r: RebarError) {
        RebarError::Object(err)
    }
}

impl vstd::std_specs::convert::FromSpecImpl<ObjectError> for RebarError {
    open spec fn obeys_from_spec() -> bool {
        true
    }

    open spec fn from_spec(err: ObjectError) -> RebarError {
        RebarError::Object(err)
    }
}

impl From<InputError> for RebarError {
    fn from(err: InputError) -> (r: RebarError) {
        RebarError::Input(err)
    }
}

impl vstd::std_specs::convert::FromSpecImpl<InputError> for RebarError {
    open spec fn obeys_from_spec() -> bool {
        true
    }

    open spec fn from_spec(err: InputError) -> RebarError {
        RebarError::Input(err)
    }
}

} // verus!
