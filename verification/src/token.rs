//! Integer-token dissection. An integer default arrives as its source token,
//! digits and type suffix in one string (`"77u8"`). The suffix begins at the
//! first `u` or `i` in the token; what follows that point either names one of
//! the twelve integer types or is unknown, and a token without such a
//! character carries no suffix at all.

use vstd::prelude::*;

use crate::lit::IntType;
use crate::parse::str_eq;

verus! {

/// A character that can begin an integer type suffix.
pub open spec fn is_type_start(c: char) -> bool {
    c == 'u' || c == 'i'
}

/// The index of the first character that can begin a type suffix; the token's
/// length when there is none.
pub open spec fn type_char_index(s: Seq<char>) -> int
    decreases s.len(),
{
    if s.len() == 0 {
        0
    } else if is_type_start(s[0]) {
        0
    } else {
        1 + type_char_index(s.subrange(1, s.len() as int))
    }
}

/// `type_char_index` is the least index of a suffix-starting character, and
/// the token's length when no character can start a suffix.
pub proof fn lemma_type_char_index(s: Seq<char>)
    ensures
        0 <= type_char_index(s) <= s.len(),
        forall|j: int| 0 <= j < type_char_index(s) ==> !is_type_start(#[trigger] s[j]),
        type_char_index(s) < s.len() ==> is_type_start(s[type_char_index(s)]),
    decreases s.len(),
{
    if s.len() == 0 || is_type_start(s[0]) {
    } else {
        let tail = s.subrange(1, s.len() as int);
        lemma_type_char_index(tail);
        assert forall|j: int| 0 <= j < type_char_index(s) implies !is_type_start(
            #[trigger] s[j],
        ) by {
            if j > 0 {
                assert(tail[j - 1] == s[j]);
            }
        }
        if type_char_index(s) < s.len() {
            assert(s[type_char_index(s)] == tail[type_char_index(tail)]);
        }
    }
}

/// The index at which an integer token's type suffix begins: the position of
/// the first `u` or `i`, if the token has one.
pub fn find_int_type_index(s: &str) -> (r: Option<usize>)
    ensures
        match r {
            Some(i) => i as int == type_char_index(s@) && i < s@.len(),
            None => type_char_index(s@) == s@.len() as int,
        },
{
    proof {
        lemma_type_char_index(s@);
    }
    let n = s.unicode_len();
    let mut i: usize = 0;
    while i < n
        invariant
            i <= n,
            n == s@.len(),
            forall|j: int| 0 <= j < i ==> !is_type_start(#[trigger] s@[j]),
            0 <= type_char_index(s@) <= s@.len(),
            forall|j: int| 0 <= j < type_char_index(s@) ==> !is_type_start(#[trigger] s@[j]),
            type_char_index(s@) < s@.len() ==> is_type_start(s@[type_char_index(s@)]),
        decreases n - i,
    {
        let c = s.get_char(i);
        if c == 'u' || c == 'i' {
            return Some(i);
        }
        i = i + 1;
    }
    None
}

/// The integer type a suffix string names, if it names one.
pub open spec fn spec_suffix_type(s: Seq<char>) -> Option<IntType> {
    if s == "u8"@ {
        Some(IntType::U8)
    } else if s == "i8"@ {
        Some(IntType::I8)
    } else if s == "u16"@ {
        Some(IntType::U16)
    } else if s == "i16"@ {
        Some(IntType::I16)
    } else if s == "u32"@ {
        Some(IntType::U32)
    } else if s == "i32"@ {
        Some(IntType::I32)
    } else if s == "u64"@ {
        Some(IntType::U64)
    } else if s == "i64"@ {
        Some(IntType::I64)
    } else if s == "u128"@ {
        Some(IntType::U128)
    } else if s == "i128"@ {
        Some(IntType::I128)
    } else if s == "usize"@ {
        Some(IntType::Usize)
    } else if s == "isize"@ {
        Some(IntType::Isize)
    } else {
        None
    }
}

/// Looks a suffix string up among the twelve type names.
pub fn suffix_type(s: &str) -> (r: Option<IntType>)
    ensures
        r == spec_suffix_type(s@),
{
    if str_eq(s, "u8") {
        Some(IntType::U8)
    } else if str_eq(s, "i8") {
        Some(IntType::I8)
    } else if str_eq(s, "u16") {
        Some(IntType::U16)
    } else if str_eq(s, "i16") {
        Some(IntType::I16)
    } else if str_eq(s, "u32") {
        Some(IntType::U32)
    } else if str_eq(s, "i32") {
        Some(IntType::I32)
    } else if str_eq(s, "u64") {
        Some(IntType::U64)
    } else if str_eq(s, "i64") {
        Some(IntType::I64)
    } else if str_eq(s, "u128") {
        Some(IntType::U128)
    } else if str_eq(s, "i128") {
        Some(IntType::I128)
    } else if str_eq(s, "usize") {
        Some(IntType::Usize)
    } else if str_eq(s, "isize") {
        Some(IntType::Isize)
    } else {
        None
    }
}

/// How an integer token ends: with no suffix at all, with a suffix naming one
/// of the twelve types, or with text that names no type.
#[derive(Clone, Copy, Debug, PartialEq, Eq, Structural)]
pub enum IntSuffix {
    Absent,
    Known(IntType),
    Unknown,
}

/// The suffix classification of a whole integer token.
pub open spec fn spec_token_suffix(tok: Seq<char>) -> IntSuffix {
    let i = type_char_index(tok);
    if i == tok.len() {
        IntSuffix::Absent
    } else {
        match spec_suffix_type(tok.subrange(i, tok.len() as int)) {
            Some(t) => IntSuffix::Known(t),
            None => IntSuffix::Unknown,
        }
    }
}

/// The part of an integer token before its suffix: the whole token when there
/// is no suffix.
pub open spec fn spec_token_digits(tok: Seq<char>) -> Seq<char> {
    tok.subrange(0, type_char_index(tok))
}

/// Classifies an integer token's suffix.
pub fn token_suffix(tok: &str) -> (r: IntSuffix)
    ensures
        r == spec_token_suffix(tok@),
{
    let n = tok.unicode_len();
    match find_int_type_index(tok) {
        None => IntSuffix::Absent,
        Some(i) => {
            let sfx = tok.substring_char(i, n);
            match suffix_type(sfx) {
                Some(t) => IntSuffix::Known(t),
                None => IntSuffix::Unknown,
            }
        },
    }
}

/// Cuts an integer token down to the part before its suffix.
pub fn token_digits(tok: &str) -> (r: &str)
    ensures
        r@ == spec_token_digits(tok@),
{
    match find_int_type_index(tok) {
        None => {
            proof {
                assert(tok@.subrange(0, type_char_index(tok@)) =~= tok@);
            }
            tok
        },
        Some(i) => tok.substring_char(0, i),
    }
}

} // verus!
