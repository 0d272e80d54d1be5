//! The one-line record header `"<kind> <length>\n"`.
use vstd::prelude::*;
use crate::errors::{ObjectError, RebarError};
use crate::text::{
    all_digits, chars_of, decimal, digits_value, is_digit, is_digit_spec, is_whitespace,
    is_whitespace_spec, lemma_decimal_round_trip, usize_text,
};
use crate::types::{kind_of_token, kind_token, lemma_kind_token_round_trip, ObjectType};

verus! {

/// The first index at or after `i` that does not hold whitespace.
pub open spec fn skip_ws(s: Seq<char>, i: int) -> int
    decreases s.len() - i,
{
    if 0 <= i < s.len() && is_whitespace_spec(s[i]) {
        skip_ws(s, i + 1)
    } else {
        i
    }
}

/// The first index at or after `i` that holds whitespace, or the end.
pub open spec fn token_end(s: Seq<char>, i: int) -> int
    decreases s.len() - i,
{
    if 0 <= i < s.len() && !is_whitespace_spec(s[i]) {
        token_end(s, i + 1)
    } else {
        i
    }
}

/// Why a header line is refused.
pub enum HeaderFault {
    /// No token at all.
    MissingType,
    /// Only one token.
    MissingSize,
    /// The first token names no kind.
    UnknownType(Seq<char>),
    /// The second token is not a decimal number that fits in `usize`.
    BadSize(Seq<char>),
    /// A third token follows the size.
    ExtraToken(Seq<char>),
}

/// `t` denotes a length: a non-empty run of decimal digits (no sign) whose
/// value fits in `usize`.
pub open spec fn is_size_token(t: Seq<char>) -> bool {
    t.len() > 0 && all_digits(t) && digits_value(t) <= usize::MAX
}

/// What a header line says: tokens are separated by whitespace, surrounding
/// whitespace is ignored, and exactly a kind token and a length are required.
pub open spec fn header_spec(s: Seq<char>) -> Result<(ObjectType, nat), HeaderFault> {
    let a = skip_ws(s, 0);
    let a_end = token_end(s, a);
    let b = skip_ws(s, a_end);
    let b_end = token_end(s, b);
    let c = skip_ws(s, b_end);
    let first = s.subrange(a, a_end);
    let second = s.subrange(b, b_end);
    if a >= s.len() {
        Err(HeaderFault::MissingType)
    } else if b >= s.len() {
        Err(HeaderFault::MissingSize)
    } else if kind_of_token(first) is None {
        Err(HeaderFault::UnknownType(first))
    } else if !is_size_token(second) {
        Err(HeaderFault::BadSize(second))
    } else if c < s.len() {
        Err(HeaderFault::ExtraToken(s.subrange(c, token_end(s, c))))
    } else {
        Ok((kind_of_token(first)->Some_0, digits_value(second)))
    }
}

/// `e` is the error that `fault` describes, with its reason.
pub open spec fn header_error(e: RebarError, fault: HeaderFault) -> bool {
    match e {
        RebarError::Object(e) => match fault {
            HeaderFault::MissingType => e matches ObjectError::MalformedHeader { reason }
                && reason@ == "Missing object type"@,
            HeaderFault::MissingSize => e matches ObjectError::MalformedHeader { reason }
                && reason@ == "Missing size"@,
            HeaderFault::UnknownType(t) => e matches ObjectError::InvalidType { found } && found@
                == t,
            HeaderFault::BadSize(t) => e matches ObjectError::MalformedHeader { reason }
                && reason@ == "Invalid size: "@ + t,
            HeaderFault::ExtraToken(t) => e matches ObjectError::MalformedHeader { reason }
                && reason@ == "Unexpected token after size: "@ + t,
        },
        _ => false,
    }
}

/// `r` is the result that `h` describes.
pub open spec fn header_result(
    r: Result<(ObjectType, usize), RebarError>,
    h: Result<(ObjectType, nat), HeaderFault>,
) -> bool {
    match h {
        Ok((kind, len)) => r == Ok::<(ObjectType, usize), RebarError>((kind, len as usize)),
        Err(fault) => match r {
            Err(e) => header_error(e, fault),
            Ok(_) => false,
        },
    }
}

/// The header of an object of kind `kind` whose compressed body is `len` bytes.
pub open spec fn header_text(kind: ObjectType, len: nat) -> Seq<char> {
    kind_token(kind) + seq![' '] + decimal(len) + seq!['\n']
}

fn skip_whitespace(s: &Vec<char>, i: usize) -> (r: usize)
    requires
        i <= s@.len(),
    ensures
        r == skip_ws(s@, i as int),
        i <= r <= s@.len(),
{
    let mut j = i;
    while j < s.len() && is_whitespace(s[j])
        invariant
            i <= j <= s@.len(),
            skip_ws(s@, j as int) == skip_ws(s@, i as int),
        decreases s@.len() - j,
    {
        j = j + 1;
    }
    j
}

fn find_token_end(s: &Vec<char>, i: usize) -> (r: usize)
    requires
        i <= s@.len(),
    ensures
        r == token_end(s@, i as int),
        i <= r <= s@.len(),
{
    let mut j = i;
    while j < s.len() && !is_whitespace(s[j])
        invariant
            i <= j <= s@.len(),
            token_end(s@, j as int) == token_end(s@, i as int),
        decreases s@.len() - j,
    {
        j = j + 1;
    }
    j
}

/// A digit string's prefixes denote no more than the whole.
proof fn lemma_digits_prefix(s: Seq<char>, k: int)
    requires
        0 <= k <= s.len(),
    ensures
        digits_value(s.take(k)) <= digits_value(s),
    decreases s.len(),
{
    if k < s.len() {
        lemma_digits_prefix(s.drop_last(), k);
        assert(s.drop_last().take(k) =~= s.take(k));
    } else {
        assert(s.take(k) =~= s);
    }
}

/// The length written in `s[from..to]`, if it is a size token.
fn parse_size(s: &Vec<char>, from: usize, to: usize) -> (r: Option<usize>)
    requires
        from <= to <= s@.len(),
    ensures
        is_size_token(s@.subrange(from as int, to as int)) ==> r == Some(
            digits_value(s@.subrange(from as int, to as int)) as usize,
        ),
        !is_size_token(s@.subrange(from as int, to as int)) ==> r is None,
{
    let ghost t = s@.subrange(from as int, to as int);
    if from == to {
        return None;
    }
    let mut acc: usize = 0;
    let mut j = from;
    while j < to
        invariant
            from <= j <= to <= s@.len(),
            t == s@.subrange(from as int, to as int),
            all_digits(t.take(j - from)),
            acc == digits_value(t.take(j - from)),
        decreases to - j,
    {
        let c = s[j];
        assert(t[j - from] == c);
        if !is_digit(c) {
            assert(!all_digits(t));
            return None;
        }
        let d = (c as u32 - '0' as u32) as usize;
        assert(t.take(j + 1 - from).drop_last() =~= t.take(j - from));
        assert(t.take(j + 1 - from).last() == c);
        if acc > (usize::MAX - d) / 10 {
            proof {
                assert(acc * 10 + d > usize::MAX) by (nonlinear_arith)
                    requires
                        acc > (usize::MAX - d) / 10,
                        d <= 9,
                ;
                if all_digits(t) {
                    lemma_digits_prefix(t, j + 1 - from);
                }
            }
            return None;
        }
        assert(acc * 10 + d <= usize::MAX) by (nonlinear_arith)
            requires
                acc <= (usize::MAX - d) / 10,
                d <= 9,
        ;
        acc = acc * 10 + d;
        proof {
            assert forall|i: int| 0 <= i < j + 1 - from implies is_digit_spec(
                #[trigger] t.take(j + 1 - from)[i],
            ) by {
                if i < j - from {
                    assert(t.take(j - from)[i] == t.take(j + 1 - from)[i]);
                }
            }
        }
        j = j + 1;
    }
    assert(t.take(to - from) =~= t);
    Some(acc)
}

/// Reads a header line: the object's kind and the length of its compressed
/// body.
pub fn parse_header(header_line: &str) -> (r: Result<(ObjectType, usize), RebarError>)
    ensures
        header_result(r, header_spec(header_line@)),
{
    let s = chars_of(header_line);
    let a = skip_whitespace(&s, 0);
    let a_end = find_token_end(&s, a);
    let b = skip_whitespace(&s, a_end);
    let b_end = find_token_end(&s, b);
    if a >= s.len() {
        return Err(
            RebarError::Object(
                ObjectError::MalformedHeader { reason: String::from_str("Missing object type") },
            ),
        );
    }
    if b >= s.len() {
        return Err(
            RebarError::Object(
                ObjectError::MalformedHeader { reason: String::from_str("Missing size") },
            ),
        );
    }
    let first = header_line.substring_char(a, a_end);
    let kind = match ObjectType::from_str(first) {
        Ok(k) => k,
        Err(e) => return Err(e),
    };
    let second = header_line.substring_char(b, b_end);
    let size = match parse_size(&s, b, b_end) {
        Some(n) => n,
        None => {
            return Err(
                RebarError::Object(
                    ObjectError::MalformedHeader {
                        reason: String::from_str("Invalid size: ").concat(second),
                    },
                ),
            );
        },
    };
    let c = skip_whitespace(&s, b_end);
    if c < s.len() {
        let c_end = find_token_end(&s, c);
        let extra = header_line.substring_char(c, c_end);
        return Err(
            RebarError::Object(
                ObjectError::MalformedHeader {
                    reason: String::from_str("Unexpected token after size: ").concat(extra),
                },
            ),
        );
    }
    Ok((kind, size))
}

/// Writes the header of an object of kind `kind` whose compressed body is
/// `len` bytes.
pub fn encode_header(kind: ObjectType, len: usize) -> (r: String)
    ensures
        r@ == header_text(kind, len as nat),
{
    proof {
        reveal_strlit(" ");
        reveal_strlit("\n");
    }
    String::from_str(kind.token()).concat(" ").concat(usize_text(len).as_str()).concat("\n")
}

proof fn lemma_token_run(s: Seq<char>, i: int, j: int)
    requires
        0 <= i <= j <= s.len(),
        forall|k: int| i <= k < j ==> !is_whitespace_spec(#[trigger] s[k]),
        j == s.len() || is_whitespace_spec(s[j]),
    ensures
        token_end(s, i) == j,
    decreases j - i,
{
    if i < j {
        lemma_token_run(s, i + 1, j);
    }
}

proof fn lemma_space_run(s: Seq<char>, i: int, j: int)
    requires
        0 <= i <= j <= s.len(),
        forall|k: int| i <= k < j ==> is_whitespace_spec(#[trigger] s[k]),
        j == s.len() || !is_whitespace_spec(s[j]),
    ensures
        skip_ws(s, i) == j,
    decreases j - i,
{
    if i < j {
        lemma_space_run(s, i + 1, j);
    }
}

/// A written header reads back as the kind and length it was written with.
pub proof fn lemma_header_round_trip(kind: ObjectType, len: nat)
    requires
        len <= usize::MAX,
    ensures
        header_spec(header_text(kind, len)) == Ok::<(ObjectType, nat), HeaderFault>((kind, len)),
{
    let s = header_text(kind, len);
    let d = decimal(len);
    lemma_decimal_round_trip(len);
    lemma_kind_token_round_trip(kind);
    let t = kind_token(kind);
    assert(t.len() == 4);
    let n = d.len() as int;
    assert(s.len() == 6 + n);
    assert forall|k: int| 5 <= k < 5 + n implies s[k] == d[k - 5] && !is_whitespace_spec(
        #[trigger] s[k],
    ) by {
        assert(is_digit_spec(d[k - 5]));
    }
    assert forall|k: int| 0 <= k < 4 implies !is_whitespace_spec(#[trigger] s[k]) by {
        assert(s[k] == t[k]);
    }
    assert(s[4] == ' ');
    assert(s[5 + n] == '\n');
    assert(is_digit_spec(d[0]));
    lemma_space_run(s, 0, 0);
    lemma_token_run(s, 0, 4);
    lemma_space_run(s, 4, 5);
    lemma_token_run(s, 5, 5 + n);
    lemma_space_run(s, 5 + n, 6 + n);
    assert(s.subrange(0, 4) =~= t);
    assert(s.subrange(5, 5 + n) =~= d);
}

} // verus!
