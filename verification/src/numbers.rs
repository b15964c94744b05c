//! Parsing of non-negative decimal widths, with an exact specification.
//!
//! The icon-spacing variable carries a numeric string; a value that does not
//! parse is a resolution failure, so the grammar accepted here is pinned down
//! precisely: an optional leading `+`, then one or more decimal digits, whose
//! value must fit in `u32`.

use vstd::prelude::*;
use vstd::string::StrSliceExecFns;

verus! {

/// Why a numeric string failed to parse.
#[derive(Debug, Clone, Copy, PartialEq, Eq, Structural)]
pub enum ParseError {
    /// The string was empty.
    Empty,
    /// A character other than a decimal digit appeared (or nothing followed
    /// a leading `+`).
    InvalidDigit,
    /// The digits denote a value above `u32::MAX`.
    TooLarge,
}

/// Is `c` a decimal digit?
pub open spec fn is_dec_digit(c: char) -> bool {
    48 <= c as u32 && c as u32 <= 57
}

/// The numeric value of a sequence of decimal digits, most significant first.
pub open spec fn digits_value(s: Seq<char>) -> int
    decreases s.len(),
{
    if s.len() == 0 {
        0
    } else {
        digits_value(s.drop_last()) * 10 + (s.last() as u32 - 48)
    }
}

/// Are all characters of `s` decimal digits?
pub open spec fn all_dec_digits(s: Seq<char>) -> bool {
    forall|i: int| 0 <= i < s.len() ==> is_dec_digit(#[trigger] s[i])
}

/// The digit part of a numeric string: everything after an optional leading
/// `+`.
pub open spec fn sign_stripped(s: Seq<char>) -> Seq<char> {
    if s.len() > 0 && s[0] == '+' {
        s.drop_first()
    } else {
        s
    }
}

/// What `parse_u32` returns on a string with view `s`: an optional leading
/// `+`, then one or more digits, denoting a value that fits in `u32`.
pub open spec fn parse_u32_outcome(s: Seq<char>) -> Result<u32, ParseError> {
    if s.len() == 0 {
        Err(ParseError::Empty)
    } else if sign_stripped(s).len() == 0 || !all_dec_digits(sign_stripped(s)) {
        Err(ParseError::InvalidDigit)
    } else if digits_value(sign_stripped(s)) > u32::MAX {
        Err(ParseError::TooLarge)
    } else {
        Ok(digits_value(sign_stripped(s)) as u32)
    }
}

/// A sequence of digits denotes a non-negative value.
proof fn lemma_digits_value_nonneg(s: Seq<char>)
    requires
        all_dec_digits(s),
    ensures
        digits_value(s) >= 0,
    decreases s.len(),
{
    if s.len() > 0 {
        assert(all_dec_digits(s.drop_last())) by {
            assert(forall|i: int|
                0 <= i < s.len() - 1 ==> s.drop_last()[i] == #[trigger] s[i]);
        }
        lemma_digits_value_nonneg(s.drop_last());
        assert(is_dec_digit(s[s.len() - 1]));
    }
}

/// Parses a non-negative decimal integer, as the icon-spacing width demands.
pub fn parse_u32(s: &str) -> (r: Result<u32, ParseError>)
    ensures
        r == parse_u32_outcome(s@),
{
    let n = s.unicode_len();
    if n == 0 {
        return Err(ParseError::Empty);
    }
    let start: usize = if s.get_char(0) == '+' {
        1
    } else {
        0
    };
    assert(sign_stripped(s@) =~= s@.subrange(start as int, n as int));
    if start == n {
        assert(sign_stripped(s@).len() == 0);
        return Err(ParseError::InvalidDigit);
    }
    let mut i: usize = start;
    let mut val: u64 = 0;
    let mut big = false;
    while i < n
        invariant
            start <= i <= n,
            n == s@.len(),
            sign_stripped(s@) =~= s@.subrange(start as int, n as int),
            all_dec_digits(s@.subrange(start as int, i as int)),
            !big ==> val == digits_value(s@.subrange(start as int, i as int)) && val
                <= u32::MAX,
            big ==> digits_value(s@.subrange(start as int, i as int)) > u32::MAX,
        decreases n - i,
    {
        let c = s.get_char(i);
        let cu: u32 = c as u32;
        if cu < 48 || cu > 57 {
            assert(!all_dec_digits(sign_stripped(s@))) by {
                assert(sign_stripped(s@)[i - start] == s@[i as int]);
                assert(!is_dec_digit(sign_stripped(s@)[i - start]));
            }
            return Err(ParseError::InvalidDigit);
        }
        let d: u64 = (cu - 48) as u64;
        let ghost pre = s@.subrange(start as int, i as int);
        let ghost post = s@.subrange(start as int, i + 1);
        assert(post.drop_last() =~= pre);
        assert(post.last() == s@[i as int]);
        proof {
            lemma_digits_value_nonneg(pre);
        }
        if big {
            assert(digits_value(post) > u32::MAX) by {
                assert(digits_value(pre) * 10 >= digits_value(pre));
            }
        } else {
            val = val * 10 + d;
            if val > 0xFFFF_FFFF {
                big = true;
            }
        }
        i += 1;
    }
    assert(s@.subrange(start as int, i as int) =~= sign_stripped(s@));
    if big {
        Err(ParseError::TooLarge)
    } else {
        Ok(val as u32)
    }
}

} // verus!
