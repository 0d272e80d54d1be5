//! The compression codec, the digest and hex notation, as the store uses them.
use vstd::prelude::*;
use sha2::Digest;

verus! {

/// The zstd frame that compressing `data` at `level` produces.
pub uninterp spec fn zstd_frame(data: Seq<u8>, level: int) -> Seq<u8>;

/// The data that decompressing the zstd input `frame` produces.
pub uninterp spec fn zstd_content(frame: Seq<u8>) -> Seq<u8>;

/// Whether `data` is zstd input that decompresses.
pub uninterp spec fn zstd_decodes(data: Seq<u8>) -> bool;

/// The SHA-256 digest of `data`.
pub uninterp spec fn sha256_digest(data: Seq<u8>) -> Seq<u8>;

/// The hex digit for `n` (0 to 15), lowercase.
pub open spec fn hex_digit(n: int) -> char {
    seq!['0', '1', '2', '3', '4', '5', '6', '7', '8', '9', 'a', 'b', 'c', 'd', 'e', 'f'][n]
}

/// Lowercase hex notation of `b`: two digits per byte, high nibble first.
pub open spec fn lower_hex(b: Seq<u8>) -> Seq<char> {
    Seq::new(
        2 * b.len(),
        |i: int|
            if i % 2 == 0 {
                hex_digit(b[i / 2] as int / 16)
            } else {
                hex_digit(b[i / 2] as int % 16)
            },
    )
}

/// Relies on `zstd::stream::encode_all`: one zstd frame of `data`, compressed
/// at `level`; the frame depends on the data and the level alone, and every
/// level from 0 to 22 is accepted.
#[verifier::external_body]
pub(crate) fn compress(data: &[u8], level: u8) -> (r: Result<Vec<u8>, std::io::Error>)
    ensures
        level <= 22 ==> r is Ok,
        r is Ok ==> r->Ok_0@ == zstd_frame(data@, level as int),
{
    zstd::stream::encode_all(data, level as i32)
}

/// Relies on `zstd::stream::decode_all`: the decompressed data, and for a
/// frame that `encode_all` made at a level from 0 to 22, success and the data
/// it was made from.
#[verifier::external_body]
pub(crate) fn decompress(data: &[u8]) -> (r: Result<Vec<u8>, std::io::Error>)
    ensures
        r is Ok <==> zstd_decodes(data@),
        forall|orig: Seq<u8>, level: int|
            0 <= level <= 22 && data@ == #[trigger] zstd_frame(orig, level) ==> r is Ok,
        r is Ok ==> r->Ok_0@ == zstd_content(data@),
        r is Ok ==> forall|orig: Seq<u8>, level: int|
            data@ == #[trigger] zstd_frame(orig, level) ==> r->Ok_0@ == orig,
{
    zstd::stream::decode_all(data)
}

/// Relies on `sha2::Sha256::digest`: the 32-byte SHA-256 digest.
#[verifier::external_body]
pub(crate) fn sha256(data: &[u8]) -> (r: Vec<u8>)
    ensures
        r@ == sha256_digest(data@),
        r@.len() == 32,
{
    sha2::Sha256::digest(data).to_vec()
}

/// Relies on `hex::encode`: two lowercase hex digits per byte.
#[verifier::external_body]
pub(crate) fn to_hex(data: &[u8]) -> (r: String)
    ensures
        r@ == lower_hex(data@),
{
    hex::encode(data)
}

} // verus!
