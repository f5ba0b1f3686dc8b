//! String-to-value conversion: the boolean truth test and the decimal integer
//! parser, each stated against a mathematical definition of what the text
//! denotes. The integer parser follows the language's own string-to-integer
//! conversion: an optional sign — `-` only for signed types — then one or more
//! decimal digits, and the result must lie in the declared type's range.

use vstd::prelude::*;

use crate::lit::{IntType, IntValue};

verus! {

/// A decimal digit.
pub open spec fn is_digit(c: char) -> bool {
    48 <= c as u32 && c as u32 <= 57
}

/// The numeric value of a decimal digit.
pub open spec fn digit_val(c: char) -> int {
    c as u32 - 48
}

/// The number a run of decimal digits denotes, most significant first.
pub open spec fn digits_value(s: Seq<char>) -> int
    decreases s.len(),
{
    if s.len() == 0 {
        0
    } else {
        digits_value(s.drop_last()) * 10 + digit_val(s.last())
    }
}

/// Every character is a decimal digit.
pub open spec fn all_digits(s: Seq<char>) -> bool {
    forall|i: int| 0 <= i < s.len() ==> is_digit(#[trigger] s[i])
}

/// The shape of a decimal integer string: an optional sign — `-` only when the
/// target type is signed — followed by at least one digit.
pub open spec fn int_str_shape(s: Seq<char>, signed: bool) -> bool {
    if s.len() == 0 {
        false
    } else if s[0] == '+' {
        s.len() > 1 && all_digits(s.subrange(1, s.len() as int))
    } else if s[0] == '-' {
        signed && s.len() > 1 && all_digits(s.subrange(1, s.len() as int))
    } else {
        all_digits(s)
    }
}

/// The number a well-shaped decimal integer string denotes, sign applied.
pub open spec fn int_str_value(s: Seq<char>) -> int
    recommends
        s.len() > 0,
{
    if s[0] == '+' {
        digits_value(s.subrange(1, s.len() as int))
    } else if s[0] == '-' {
        -digits_value(s.subrange(1, s.len() as int))
    } else {
        digits_value(s)
    }
}

/// What parsing a string as the given integer type yields: the denoted number
/// when the string is well-shaped and the number lies in the type's range,
/// nothing otherwise.
pub open spec fn spec_parse_int(t: IntType, s: Seq<char>) -> Option<int> {
    if int_str_shape(s, t.spec_signed()) && t.min() <= int_str_value(s) && int_str_value(s)
        <= t.max() {
        Some(int_str_value(s))
    } else {
        None
    }
}

/// Law: parsing respects the declared width and signedness exactly — whatever
/// it accepts lies within the declared type's own range, and a negative string
/// is only accepted for a signed type.
pub proof fn lemma_parse_respects_width(t: IntType, s: Seq<char>)
    ensures
        spec_parse_int(t, s) matches Some(n) ==> t.min() <= n <= t.max(),
        spec_parse_int(t, s) is Some && s[0] == '-' ==> t.spec_signed(),
{
}

proof fn lemma_digits_value_nonneg(s: Seq<char>)
    requires
        all_digits(s),
    ensures
        digits_value(s) >= 0,
    decreases s.len(),
{
    if s.len() > 0 {
        assert forall|i: int| 0 <= i < s.drop_last().len() implies is_digit(
            #[trigger] s.drop_last()[i],
        ) by {
            assert(s.drop_last()[i] == s[i]);
        }
        lemma_digits_value_nonneg(s.drop_last());
        assert(is_digit(s.last()));
    }
}

proof fn lemma_digits_prefix_le(s: Seq<char>, k: int)
    requires
        all_digits(s),
        0 <= k <= s.len(),
    ensures
        digits_value(s.subrange(0, k)) <= digits_value(s),
    decreases s.len() - k,
{
    if k == s.len() {
        assert(s.subrange(0, k) =~= s);
    } else {
        let p = s.subrange(0, k);
        let q = s.subrange(0, k + 1);
        assert(q.drop_last() =~= p);
        assert(q.last() == s[k]);
        assert forall|i: int| 0 <= i < p.len() implies is_digit(#[trigger] p[i]) by {
            assert(p[i] == s[i]);
        }
        lemma_digits_value_nonneg(p);
        assert(digits_value(q) == digits_value(p) * 10 + digit_val(s[k]));
        assert(digits_value(p) <= digits_value(q));
        lemma_digits_prefix_le(s, k + 1);
    }
}

/// Parses a decimal string as a value of the given integer type, exactly as
/// the language's own string-to-integer conversion does.
pub fn parse_typed_int(s: &str, t: IntType) -> (r: Option<IntValue>)
    ensures
        match r {
            Some(v) => spec_parse_int(t, s@) == Some(v.as_int()) && v.fits(t),
            None => spec_parse_int(t, s@) is None,
        },
{
    let n = s.unicode_len();
    if n == 0 {
        return None;
    }
    let c0 = s.get_char(0);
    let mut negative = false;
    let mut start: usize = 0;
    if c0 == '+' {
        start = 1;
    } else if c0 == '-' {
        if !t.is_signed() {
            return None;
        }
        negative = true;
        start = 1;
    }
    if start >= n {
        return None;
    }
    let mut mag: u128 = 0;
    let mut i: usize = start;
    while i < n
        invariant
            start <= i <= n,
            n == s@.len(),
            start <= 1,
            n > start,
            start == 1 ==> (s@[0] == '+' || s@[0] == '-'),
            start == 0 ==> s@[0] != '+' && s@[0] != '-',
            negative <==> (start == 1 && s@[0] == '-'),
            negative ==> t.spec_signed(),
            forall|j: int| start <= j < i ==> is_digit(#[trigger] s@[j]),
            mag as int == digits_value(s@.subrange(start as int, i as int)),
        decreases n - i,
    {
        let c = s.get_char(i);
        let u = c as u32;
        if u < 48 || u > 57 {
            // A non-digit after the sign: the string is not well-shaped.
            proof {
                assert(!is_digit(s@[i as int]));
                if start == 1 {
                    assert(s@.subrange(1, n as int)[i - 1] == s@[i as int]);
                }
            }
            return None;
        }
        let d = (u - 48) as u128;
        proof {
            assert(s@.subrange(start as int, (i + 1) as int).drop_last() =~= s@.subrange(
                start as int,
                i as int,
            ));
            assert(s@.subrange(start as int, (i + 1) as int).last() == s@[i as int]);
        }
        if mag > (u128::MAX - d) / 10 {
            // The digits read so far already exceed the widest type's range.
            proof {
                let whole = s@.subrange(start as int, n as int);
                assert(mag * 10 + d > u128::MAX) by (nonlinear_arith)
                    requires
                        mag > (u128::MAX - d) / 10,
                        d <= 9,
                ;
                if int_str_shape(s@, t.spec_signed()) {
                    assert forall|j: int| 0 <= j < whole.len() implies is_digit(
                        #[trigger] whole[j],
                    ) by {
                        if start == 1 {
                            assert(whole[j] == s@.subrange(1, n as int)[j]);
                        }
                    }
                    assert(whole.subrange(0, (i + 1 - start) as int) =~= s@.subrange(
                        start as int,
                        (i + 1) as int,
                    ));
                    lemma_digits_prefix_le(whole, (i + 1 - start) as int);
                    assert(digits_value(whole) > u128::MAX);
                    assert(int_str_value(s@) == if negative {
                        -digits_value(whole)
                    } else {
                        digits_value(whole)
                    }) by {
                        if start == 1 {
                            assert(whole =~= s@.subrange(1, n as int));
                        } else {
                            assert(whole =~= s@);
                        }
                    }
                    assert(t.max() <= u128::MAX);
                    assert(t.min() >= -(u128::MAX as int));
                }
            }
            return None;
        }
        mag = mag * 10 + d;
        i = i + 1;
    }
    proof {
        let whole = s@.subrange(start as int, n as int);
        assert(int_str_shape(s@, t.spec_signed())) by {
            if start == 1 {
                assert(whole =~= s@.subrange(1, n as int));
            } else {
                assert(whole =~= s@);
            }
        }
        assert(int_str_value(s@) == if negative {
            -digits_value(whole)
        } else {
            digits_value(whole)
        }) by {
            if start == 1 {
                assert(whole =~= s@.subrange(1, n as int));
            } else {
                assert(whole =~= s@);
            }
        }
    }
    let m = t.max_magnitude(negative);
    if mag > m {
        // Well-shaped, but out of the declared type's range.
        proof {
            assert(t.spec_signed() ==> t.max() >= 0);
        }
        return None;
    }
    proof {
        assert(t.min() <= 0);
        assert(t.spec_signed() ==> t.max() >= 0);
    }
    Some(IntValue { negative, magnitude: mag })
}

/// Parses a byte value, the same way an unsigned 8-bit integer is parsed.
pub fn parse_byte(s: &str) -> (r: Option<u8>)
    ensures
        match r {
            Some(b) => spec_parse_int(IntType::U8, s@) == Some(b as int),
            None => spec_parse_int(IntType::U8, s@) is None,
        },
{
    match parse_typed_int(s, IntType::U8) {
        Some(v) => Some(v.magnitude as u8),
        None => None,
    }
}

/// Parses a character value: the string must consist of exactly one character.
pub fn parse_char_str(s: &str) -> (r: Option<char>)
    ensures
        r == (if s@.len() == 1 {
            Some(s@[0])
        } else {
            None::<char>
        }),
{
    if s.unicode_len() == 1 {
        Some(s.get_char(0))
    } else {
        None
    }
}

/// The strings the boolean rules read as true; every other string reads as
/// false.
pub open spec fn spec_truthy(s: Seq<char>) -> bool {
    s == "y"@ || s == "Y"@ || s == "Yes"@ || s == "yes"@ || s == "true"@
}

/// Law: the strings read as true are exactly "y", "Y", "Yes", "yes" and
/// "true", spelled out character by character; everything else reads as false.
pub proof fn lemma_truthy_strings(s: Seq<char>)
    ensures
        spec_truthy(s) <==> (s =~= seq!['y'] || s =~= seq!['Y'] || s =~= seq!['Y', 'e', 's']
            || s =~= seq!['y', 'e', 's'] || s =~= seq!['t', 'r', 'u', 'e']),
{
    reveal_strlit("y");
    reveal_strlit("Y");
    reveal_strlit("Yes");
    reveal_strlit("yes");
    reveal_strlit("true");
    assert("y"@ =~= seq!['y']);
    assert("Y"@ =~= seq!['Y']);
    assert("Yes"@ =~= seq!['Y', 'e', 's']);
    assert("yes"@ =~= seq!['y', 'e', 's']);
    assert("true"@ =~= seq!['t', 'r', 'u', 'e']);
}

/// Decides whether a string reads as true.
pub fn is_truthy(s: &str) -> (r: bool)
    ensures
        r == spec_truthy(s@),
{
    proof {
        reveal_strlit("y");
        reveal_strlit("Y");
        reveal_strlit("Yes");
        reveal_strlit("yes");
        reveal_strlit("true");
    }
    let n = s.unicode_len();
    if n == 1 {
        let c = s.get_char(0);
        let r = c == 'y' || c == 'Y';
        proof {
            if c == 'y' {
                assert(s@ =~= "y"@);
            } else if c == 'Y' {
                assert(s@ =~= "Y"@);
            }
        }
        r
    } else if n == 3 {
        let c0 = s.get_char(0);
        let c1 = s.get_char(1);
        let c2 = s.get_char(2);
        let r = (c0 == 'Y' || c0 == 'y') && c1 == 'e' && c2 == 's';
        proof {
            if r {
                if c0 == 'Y' {
                    assert(s@ =~= "Yes"@);
                } else {
                    assert(s@ =~= "yes"@);
                }
            }
        }
        r
    } else if n == 4 {
        let r = s.get_char(0) == 't' && s.get_char(1) == 'r' && s.get_char(2) == 'u'
            && s.get_char(3) == 'e';
        proof {
            if r {
                assert(s@ =~= "true"@);
            }
        }
        r
    } else {
        false
    }
}

/// Character-for-character equality of two strings.
pub fn str_eq(a: &str, b: &str) -> (r: bool)
    ensures
        r == (a@ == b@),
{
    let n = a.unicode_len();
    let m = b.unicode_len();
    if n != m {
        return false;
    }
    let mut i: usize = 0;
    while i < n
        invariant
            i <= n,
            n == a@.len(),
            n == b@.len(),
            forall|j: int| 0 <= j < i ==> a@[j] == b@[j],
        decreases n - i,
    {
        if a.get_char(i) != b.get_char(i) {
            return false;
        }
        i = i + 1;
    }
    proof {
        assert(a@ =~= b@);
    }
    true
}

} // verus!
