//! A content-addressable object store: content is compressed, framed with a
//! one-line header, named by the hex digest of the framed bytes, and read back
//! with full length and integrity checks.
pub mod codec;
pub mod config;
pub mod errors;
pub mod hash;
pub mod header;
pub mod object;
pub mod repository;
pub mod text;
pub mod types;

pub use config::{StoreConfig, COMPRESSION_LEVEL, FILE_SIZE_LIMIT};
pub use errors::{ErrorSource, HashError, InputError, IoError, IoErrorKind, ObjectError, RebarError};
pub use hash::{check_invalid_char, validate_hex, HASH_SIZE};
pub use header::{encode_header, parse_header};
pub use object::{cat_file, encode_object, frame_object, read_body, read_header, EncodedObject};
pub use repository::{
    claim_path, object_path, validate_path, PathKind, RepositorySearch, SearchStep, METADATA_DIR,
};
pub use types::ObjectType;
