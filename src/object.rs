//! The object writer and reader: framing, naming and reading back records.
use vstd::prelude::*;
use vstd::slice::{slice_subrange, slice_to_vec};
use vstd::utf8::{
    decode_utf8, encode_utf8, encode_utf8_decode_utf8, encode_utf8_valid_utf8,
    is_ascii_chars, is_ascii_chars_encode_utf8, valid_utf8,
};
use crate::codec::{
    compress, decompress, hex_digit, zstd_decodes, lower_hex, sha256, sha256_digest, to_hex, zstd_content,
    zstd_frame,
};
use crate::config::StoreConfig;
use crate::errors::{io_error_text, ObjectError, RebarError};
use crate::hash::all_hex;
use crate::header::{
    encode_header, header_error, header_spec, header_text, lemma_header_round_trip, parse_header,
    HeaderFault,
};
use crate::text::{decimal, is_digit_spec, is_hex_digit_spec, lemma_decimal_round_trip};
use crate::types::{kind_token, ObjectType};

verus! {

/// A record: the header's bytes, then the compressed payload.
pub open spec fn framed(kind: ObjectType, payload: Seq<u8>) -> Seq<u8> {
    encode_utf8(header_text(kind, payload.len())) + payload
}

/// The record that the writer makes of `content` at compression level `level`.
pub open spec fn object_record(content: Seq<u8>, level: int) -> Seq<u8> {
    framed(ObjectType::Blob, zstd_frame(content, level))
}

/// The handle of that record: the hex digest of all of its bytes.
pub open spec fn object_handle(content: Seq<u8>, level: int) -> Seq<char> {
    lower_hex(sha256_digest(object_record(content, level)))
}

/// Relies on `std::str::from_utf8`: the text, when the bytes are valid UTF-8.
#[verifier::external_body]
fn utf8_text(bytes: &[u8]) -> (r: Option<&str>)
    ensures
        r is Some <==> valid_utf8(bytes@),
        r is Some ==> r->Some_0@ == decode_utf8(bytes@),
{
    std::str::from_utf8(bytes).ok()
}

/// Frames `payload` as a record of kind `kind`.
pub fn frame_object(kind: ObjectType, payload: &[u8]) -> (r: Vec<u8>)
    ensures
        r@ == framed(kind, payload@),
{
    let header = encode_header(kind, payload.len());
    let mut r = slice_to_vec(header.as_str().as_bytes());
    let ghost head = r@;
    let mut i: usize = 0;
    while i < payload.len()
        invariant
            i <= payload@.len(),
            head == encode_utf8(header_text(kind, payload@.len())),
            r@ == head + payload@.take(i as int),
        decreases payload@.len() - i,
    {
        r.push(payload[i]);
        assert(payload@.take(i + 1) == payload@.take(i as int).push(payload@[i as int]));
        i = i + 1;
    }
    assert(payload@.take(i as int) == payload@);
    r
}

/// A record built from content, and the handle that names it.
pub struct EncodedObject {
    /// Lowercase hex digest of `record`.
    pub handle: String,
    /// Header bytes followed by the compressed content.
    pub record: Vec<u8>,
}

/// Compresses `content`, frames it as a blob and names the record by the
/// digest of all its bytes, header included.
pub fn encode_object(content: &[u8], config: &StoreConfig) -> (r: Result<
    EncodedObject,
    RebarError,
>)
    requires
        config.wf(),
    ensures
        r is Ok,
        match r {
            Ok(o) => o.record@ == object_record(content@, config.compression_level as int)
                && o.handle@ == object_handle(content@, config.compression_level as int)
                && o.handle@.len() == 64 && all_hex(o.handle@) && encode_utf8(o.handle@).len() == 64,
            Err(_) => false,
        },
{
    let compressed = match compress(content, config.compression_level) {
        Ok(c) => c,
        Err(e) => {
            return Err(
                RebarError::Object(ObjectError::CompressionError { reason: io_error_text(&e) }),
            );
        },
    };
    let record = frame_object(ObjectType::Blob, compressed.as_slice());
    let digest = sha256(record.as_slice());
    let handle = to_hex(digest.as_slice());
    proof {
        lemma_lower_hex_is_handle(digest@);
    }
    Ok(EncodedObject { handle, record })
}

/// The hex notation of a 32-byte digest is a well-formed handle: 64 hex
/// digits, 64 bytes long.
pub proof fn lemma_lower_hex_is_handle(d: Seq<u8>)
    requires
        d.len() == 32,
    ensures
        lower_hex(d).len() == 64,
        all_hex(lower_hex(d)),
        encode_utf8(lower_hex(d)).len() == 64,
{
    let h = lower_hex(d);
    assert forall|i: int| 0 <= i < h.len() implies is_hex_digit_spec(#[trigger] h[i]) && '\0'
        <= h[i] <= '\u{7f}' by {
        let b = d[i / 2] as int;
        let n = if i % 2 == 0 {
            b / 16
        } else {
            b % 16
        };
        assert(0 <= n < 16);
        assert(h[i] == hex_digit(n));
    }
    assert(is_ascii_chars(h));
    is_ascii_chars_encode_utf8(h);
}

/// The same content at the same level always gets the same handle.
pub proof fn lemma_handle_determined(c1: Seq<u8>, c2: Seq<u8>, level1: int, level2: int)
    requires
        c1 == c2,
        level1 == level2,
    ensures
        object_record(c1, level1) == object_record(c2, level2),
        object_handle(c1, level1) == object_handle(c2, level2),
{
}

/// Index just past the first newline of `b` at or after `i`, or the end.
pub open spec fn line_end(b: Seq<u8>, i: int) -> int
    decreases b.len() - i,
{
    if 0 <= i < b.len() {
        if b[i] == 10 {
            i + 1
        } else {
            line_end(b, i + 1)
        }
    } else {
        b.len() as int
    }
}

/// Why a record cannot be read.
pub enum RecordFault {
    /// The header line is not valid UTF-8.
    NotUtf8,
    /// The header line is not `<kind> <length>`.
    Header(HeaderFault),
    /// The declared length is above the ceiling.
    TooLarge(nat),
    /// Fewer bytes than declared follow the header (declared, present).
    Short(nat, nat),
    /// More bytes than declared follow the header.
    Long(nat),
}

/// What the header line `line` says, given the ceiling `limit`.
pub open spec fn header_line_spec(line: Seq<u8>, limit: nat) -> Result<
    (ObjectType, nat),
    RecordFault,
> {
    if !valid_utf8(line) {
        Err(RecordFault::NotUtf8)
    } else {
        match header_spec(decode_utf8(line)) {
            Err(f) => Err(RecordFault::Header(f)),
            Ok((kind, len)) => if len > limit {
                Err(RecordFault::TooLarge(len))
            } else {
                Ok((kind, len))
            },
        }
    }
}

/// What the record `data` holds: its kind and its compressed payload.
pub open spec fn record_spec(data: Seq<u8>, limit: nat) -> Result<
    (ObjectType, Seq<u8>),
    RecordFault,
> {
    let e = line_end(data, 0);
    match header_line_spec(data.take(e), limit) {
        Err(f) => Err(f),
        Ok((kind, len)) => {
            let rest = data.skip(e);
            if rest.len() < len {
                Err(RecordFault::Short(len, rest.len()))
            } else if rest.len() > len {
                Err(RecordFault::Long(len))
            } else {
                Ok((kind, rest))
            }
        },
    }
}

/// `e` is the error that `fault` describes.
pub open spec fn record_error(e: RebarError, fault: RecordFault, limit: nat) -> bool {
    match fault {
        RecordFault::NotUtf8 => e matches RebarError::Object(
            ObjectError::MalformedHeader { reason },
        ) && reason@ == "Header is not valid UTF-8"@,
        RecordFault::Header(h) => header_error(e, h),
        RecordFault::TooLarge(len) => e == RebarError::Object(
            ObjectError::InvalidLength { expected: limit as usize, actual: Some(len as usize) },
        ),
        RecordFault::Short(len, present) => e == RebarError::Object(
            ObjectError::InvalidLength { expected: len as usize, actual: Some(present as usize) },
        ),
        RecordFault::Long(len) => e == RebarError::Object(
            ObjectError::InvalidLength { expected: len as usize, actual: None },
        ),
    }
}

/// `r` is what decompressing `payload` gives: its content when it decodes
/// (for a frame the writer made, always, and the content it was made from),
/// else `CorruptedContent`.
pub open spec fn decoded_result(r: Result<Vec<u8>, RebarError>, payload: Seq<u8>) -> bool {
    match r {
        Ok(d) => zstd_decodes(payload) && d@ == zstd_content(payload) && forall|
            orig: Seq<u8>,
            level: int,
        | payload == #[trigger] zstd_frame(orig, level) ==> d@ == orig,
        Err(RebarError::Object(ObjectError::CorruptedContent { reason })) => {
            let p = "Decompression failed: "@;
            &&& !zstd_decodes(payload)
            &&& forall|orig: Seq<u8>, level: int|
                0 <= level <= 22 ==> payload != #[trigger] zstd_frame(orig, level)
            &&& reason@.len() >= p.len() && reason@.take(p.len() as int) == p
        },
        _ => false,
    }
}

/// Reads a record's header line (up to and including its newline) and
/// checks the declared length against the ceiling, before any of the body
/// is read.
pub fn read_header(line: &[u8], limit: usize) -> (r: Result<(ObjectType, usize), RebarError>)
    ensures
        match header_line_spec(line@, limit as nat) {
            Ok((kind, len)) => r == Ok::<(ObjectType, usize), RebarError>((kind, len as usize)),
            Err(f) => r matches Err(e) && record_error(e, f, limit as nat),
        },
{
    let text = match utf8_text(line) {
        Some(t) => t,
        None => {
            return Err(
                RebarError::Object(
                    ObjectError::MalformedHeader {
                        reason: String::from_str("Header is not valid UTF-8"),
                    },
                ),
            );
        },
    };
    let (kind, size) = match parse_header(text) {
        Ok(h) => h,
        Err(e) => return Err(e),
    };
    if size > limit {
        return Err(
            RebarError::Object(ObjectError::InvalidLength { expected: limit, actual: Some(size) }),
        );
    }
    Ok((kind, size))
}

/// Checks a body against the length its header declared and decompresses
/// it. `body` is what could be read, at most `declared` bytes; `has_extra`
/// says whether a further byte followed.
pub fn read_body(kind: ObjectType, declared: usize, body: &[u8], has_extra: bool) -> (r: Result<
    Vec<u8>,
    RebarError,
>)
    requires
        body@.len() <= declared,
    ensures
        body@.len() < declared ==> r == Err::<Vec<u8>, RebarError>(
            RebarError::Object(
                ObjectError::InvalidLength { expected: declared, actual: Some(body@.len() as usize) },
            ),
        ),
        body@.len() == declared && has_extra ==> r == Err::<Vec<u8>, RebarError>(
            RebarError::Object(ObjectError::InvalidLength { expected: declared, actual: None }),
        ),
        body@.len() == declared && !has_extra ==> decoded_result(r, body@),
{
    if body.len() < declared {
        return Err(
            RebarError::Object(
                ObjectError::InvalidLength { expected: declared, actual: Some(body.len()) },
            ),
        );
    }
    if has_extra {
        return Err(
            RebarError::Object(ObjectError::InvalidLength { expected: declared, actual: None }),
        );
    }
    match kind {
        ObjectType::Blob => match decompress(body) {
            Ok(d) => Ok(d),
            Err(e) => {
                let p = String::from_str("Decompression failed: ");
                let reason = p.concat(io_error_text(&e).as_str());
                assert(reason@.take(p@.len() as int) =~= p@);
                Err(RebarError::Object(ObjectError::CorruptedContent { reason }))
            },
        },
    }
}

fn find_line_end(data: &[u8]) -> (r: usize)
    ensures
        r == line_end(data@, 0),
        r <= data@.len(),
{
    let mut i: usize = 0;
    while i < data.len()
        invariant
            i <= data@.len(),
            line_end(data@, i as int) == line_end(data@, 0),
        decreases data@.len() - i,
    {
        if data[i] == 10u8 {
            return i + 1;
        }
        i = i + 1;
    }
    i
}

/// Reads a complete record held in memory and returns the content it holds.
pub fn cat_file(record: &[u8], config: &StoreConfig) -> (r: Result<Vec<u8>, RebarError>)
    ensures
        match record_spec(record@, config.file_size_limit as nat) {
            Err(f) => r matches Err(e) && record_error(e, f, config.file_size_limit as nat),
            Ok((kind, payload)) => decoded_result(r, payload),
        },
{
    let e = find_line_end(record);
    let line = slice_subrange(record, 0, e);
    assert(line@ == record@.take(e as int));
    let (kind, size) = match read_header(line, config.file_size_limit) {
        Ok(h) => h,
        Err(err) => return Err(err),
    };
    let rest = slice_subrange(record, e, record.len());
    assert(rest@ == record@.skip(e as int));
    if rest.len() < size {
        read_body(kind, size, rest, false)
    } else {
        let body = slice_subrange(rest, 0, size);
        assert(rest@.len() == size ==> body@ =~= rest@);
        read_body(kind, size, body, rest.len() > size)
    }
}

proof fn lemma_line_run(b: Seq<u8>, i: int, j: int)
    requires
        0 <= i <= j < b.len(),
        forall|k: int| i <= k < j ==> #[trigger] b[k] != 10,
        b[j] == 10,
    ensures
        line_end(b, i) == j + 1,
    decreases j - i,
{
    if i < j {
        lemma_line_run(b, i + 1, j);
    }
}

/// A framed record reads back as the kind and payload it was framed with,
/// whenever the payload is within the ceiling.
pub proof fn lemma_record_round_trip(kind: ObjectType, payload: Seq<u8>, limit: nat)
    requires
        payload.len() <= limit,
        payload.len() <= usize::MAX,
    ensures
        record_spec(framed(kind, payload), limit) == Ok::<(ObjectType, Seq<u8>), RecordFault>(
            (kind, payload),
        ),
{
    let h = header_text(kind, payload.len());
    let d = decimal(payload.len());
    lemma_decimal_round_trip(payload.len());
    let t = kind_token(kind);
    assert(t.len() == 4);
    let n = d.len() as int;
    assert forall|k: int| 0 <= k < h.len() implies '\0' <= #[trigger] h[k] <= '\u{7f}' && (k
        < h.len() - 1 ==> h[k] != '\n') by {
        if 5 <= k < 5 + n {
            assert(h[k] == d[k - 5]);
            assert(is_digit_spec(d[k - 5]));
        } else if k < 4 {
            assert(h[k] == t[k]);
        }
    }
    assert(is_ascii_chars(h));
    is_ascii_chars_encode_utf8(h);
    encode_utf8_valid_utf8(h);
    encode_utf8_decode_utf8(h);
    let bytes = encode_utf8(h);
    let data = framed(kind, payload);
    assert forall|k: int| 0 <= k < bytes.len() - 1 implies #[trigger] data[k] != 10 by {
        assert(data[k] == bytes[k]);
        assert(h[k] as u8 == bytes[k]);
    }
    assert(data[bytes.len() - 1] == bytes[bytes.len() - 1]);
    assert(h[h.len() - 1] == '\n');
    lemma_line_run(data, 0, bytes.len() - 1);
    assert(data.take(bytes.len() as int) =~= bytes);
    assert(data.skip(bytes.len() as int) =~= payload);
    lemma_header_round_trip(kind, payload.len());
}

/// Whatever content is written, reading its record back (within the ceiling)
/// finds exactly the compressed frame of that content, and decompressing that
/// frame succeeds and gives back the content.
pub proof fn lemma_write_read_round_trip(content: Seq<u8>, level: int, limit: nat)
    requires
        0 <= level <= 22,
        zstd_frame(content, level).len() <= limit,
        zstd_frame(content, level).len() <= usize::MAX,
    ensures
        record_spec(object_record(content, level), limit) == Ok::<
            (ObjectType, Seq<u8>),
            RecordFault,
        >((ObjectType::Blob, zstd_frame(content, level))),
        forall|r: Result<Vec<u8>, RebarError>|
            decoded_result(r, zstd_frame(content, level)) ==> r is Ok && r->Ok_0@ == content,
{
    lemma_record_round_trip(ObjectType::Blob, zstd_frame(content, level), limit);
}

} // verus!
