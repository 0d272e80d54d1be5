//! The kinds of object that a record can hold.
use vstd::prelude::*;
use crate::errors::{ObjectError, RebarError};
use crate::text::chars_of;

verus! {

/// The kind of an object: governs how its payload is read. Only blobs are
/// defined so far; trees and commits will be further variants.
#[derive(Debug, Clone, Copy, PartialEq, Eq, Structural)]
pub enum ObjectType {
    Blob,
}

/// The header token of each kind.
pub open spec fn kind_token(kind: ObjectType) -> Seq<char> {
    match kind {
        ObjectType::Blob => seq!['b', 'l', 'o', 'b'],
    }
}

/// The kind whose header token is `t`, if any.
pub open spec fn kind_of_token(t: Seq<char>) -> Option<ObjectType> {
    if t == kind_token(ObjectType::Blob) {
        Some(ObjectType::Blob)
    } else {
        None
    }
}

/// Every kind is recognised by its own token.
pub proof fn lemma_kind_token_round_trip(kind: ObjectType)
    ensures
        kind_of_token(kind_token(kind)) == Some(kind),
{
}

impl ObjectType {
    /// The kind named by the header token `s` (case-sensitive).
    pub fn from_str(s: &str) -> (r: Result<ObjectType, RebarError>)
        ensures
            match kind_of_token(s@) {
                Some(k) => r == Ok::<ObjectType, RebarError>(k),
                None => match r {
                    Err(RebarError::Object(ObjectError::InvalidType { found })) => found@ == s@,
                    _ => false,
                },
            },
    {
        let cs = chars_of(s);
        if cs.len() == 4 && cs[0] == 'b' && cs[1] == 'l' && cs[2] == 'o' && cs[3] == 'b' {
            assert(s@ =~= kind_token(ObjectType::Blob));
            Ok(ObjectType::Blob)
        } else {
            assert(s@ != kind_token(ObjectType::Blob));
            Err(RebarError::Object(ObjectError::InvalidType { found: String::from_str(s) }))
        }
    }

    /// The header token of this kind.
    pub fn token(&self) -> (r: &'static str)
        ensures
            r@ == kind_token(*self),
    {
        proof {
            reveal_strlit("blob");
        }
        match self {
            ObjectType::Blob => "blob",
        }
    }
}

} // verus!
