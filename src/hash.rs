//! Syntax of object handles: the lowercase hex digest that names a record.
use vstd::prelude::*;
use crate::text::{is_hex_digit, is_hex_digit_spec};
use crate::errors::HashError;

verus! {

/// Number of hex characters in a handle (a 256-bit digest).
pub const HASH_SIZE: u8 = 64;

/// `s` is made of hex digits only.
pub open spec fn all_hex(s: Seq<char>) -> bool {
    forall|i: int| 0 <= i < s.len() ==> is_hex_digit_spec(s[i])
}

/// Position of the first character of `hash` that is not a hex digit.
pub fn check_invalid_char(hash: &str) -> (r: Option<usize>)
    ensures
        match r {
            Some(p) => p < hash@.len() && !is_hex_digit_spec(hash@[p as int]) && all_hex(
                hash@.take(p as int),
            ),
            None => all_hex(hash@),
        },
{
    let n = hash.unicode_len();
    let mut pos: usize = 0;
    for c in it: hash.chars()
        invariant
            it.seq() == hash@,
            n == hash@.len(),
            pos == it.index(),
            all_hex(hash@.take(pos as int)),
    {
        if !is_hex_digit(c) {
            return Some(pos);
        }
        assert(hash@.take(pos + 1) == hash@.take(pos as int).push(c));
        pos = pos + 1;
    }
    assert(hash@.take(pos as int) == hash@);
    None
}

/// Checks that `hex` is a well-formed handle: exactly 64 bytes, all of them
/// hex digits (either case).
pub fn validate_hex(hex: &str) -> (r: Result<(), HashError>)
    ensures
        hex.len() != HASH_SIZE ==> r == Err::<(), HashError>(
            HashError::InvalidLength { length: hex.len() },
        ),
        hex.len() == HASH_SIZE ==> match r {
            Ok(()) => all_hex(hex@),
            Err(HashError::InvalidCharacter { position, character }) => position
                < hex@.len() && character == hex@[position as int] && !is_hex_digit_spec(
                character,
            ) && all_hex(hex@.take(position as int)),
            _ => false,
        },
{
    let len = hex.len();
    if len != HASH_SIZE as usize {
        Err(HashError::InvalidLength { length: len })
    } else {
        match check_invalid_char(hex) {
            Some(pos) => {
                let character = hex.get_char(pos);
                Err(HashError::InvalidCharacter { position: pos, character })
            },
            None => Ok(()),
        }
    }
}

} // verus!
