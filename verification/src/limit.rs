//! The `limit` query parameter: how many times the echo endpoint repeats the
//! request body.
//!
//! The value is written as decimal digits, optionally after one `+`. Anything
//! else, a sign `-` included, is malformed: a request without a usable limit
//! is rejected, never read as zero.
//!
//! No cap is set below `usize::MAX`. A stream is produced chunk by chunk as
//! it is pulled, so a large limit costs time and bandwidth, never memory.

use vstd::prelude::*;

verus! {

/// Why a request carries no usable limit.
#[derive(Clone, Copy, Debug, PartialEq, Eq, Structural)]
pub enum LimitError {
    /// The request has no `limit` parameter.
    Missing,
    /// The value is not a non-negative decimal integer.
    Malformed,
    /// The value is a non-negative decimal integer that no `usize` holds.
    TooLarge,
}

/// Whether `b` is an ASCII decimal digit.
pub open spec fn spec_is_digit(b: u8) -> bool {
    0x30 <= b <= 0x39
}

/// Whether every byte of `s` is an ASCII decimal digit.
pub open spec fn all_digits(s: Seq<u8>) -> bool {
    forall|i: int| 0 <= i < s.len() ==> spec_is_digit(#[trigger] s[i])
}

/// The number that the decimal digits `s` write.
pub open spec fn digits_value(s: Seq<u8>) -> nat
    decreases s.len(),
{
    if s.len() == 0 {
        0
    } else {
        digits_value(s.drop_last()) * 10 + (s.last() - 0x30) as nat
    }
}

/// `text` without its leading `+`, if it has one.
pub open spec fn unsigned_part(text: Seq<u8>) -> Seq<u8> {
    if text.len() > 0 && text[0] == 0x2b {
        text.subrange(1, text.len() as int)
    } else {
        text
    }
}

/// Whether `text` writes a non-negative decimal integer: at least one digit,
/// nothing but digits, after at most one `+`.
pub open spec fn well_formed(text: Seq<u8>) -> bool {
    unsigned_part(text).len() > 0 && all_digits(unsigned_part(text))
}

/// The limit that `text` writes, or why it writes none.
pub open spec fn spec_parse_limit(text: Seq<u8>) -> Result<usize, LimitError> {
    if !well_formed(text) {
        Err(LimitError::Malformed)
    } else if digits_value(unsigned_part(text)) > usize::MAX {
        Err(LimitError::TooLarge)
    } else {
        Ok(digits_value(unsigned_part(text)) as usize)
    }
}

/// What a request wrote as its `limit` parameter, where `None` stands for a
/// request without the parameter.
pub open spec fn spec_raw(raw: Option<&[u8]>) -> Option<Seq<u8>> {
    match raw {
        None => None,
        Some(text) => Some(text@),
    }
}

/// The limit of a request whose `limit` parameter is `raw`, where `None`
/// stands for a request without the parameter.
pub open spec fn spec_limit_from_query(raw: Option<Seq<u8>>) -> Result<usize, LimitError> {
    match raw {
        None => Err(LimitError::Missing),
        Some(text) => spec_parse_limit(text),
    }
}

/// A number never gets smaller when more digits follow.
pub proof fn lemma_digits_value_grows(s: Seq<u8>, i: int)
    requires
        0 <= i <= s.len(),
    ensures
        digits_value(s.subrange(0, i)) <= digits_value(s),
    decreases s.len(),
{
    if i == s.len() {
        assert(s.subrange(0, i) =~= s);
    } else {
        lemma_digits_value_grows(s.drop_last(), i);
        assert(s.drop_last().subrange(0, i) =~= s.subrange(0, i));
    }
}

fn is_digit(b: u8) -> (yes: bool)
    ensures
        yes == spec_is_digit(b),
{
    0x30 <= b && b <= 0x39
}

/// Reads the limit that `text` writes.
pub fn parse_limit(text: &[u8]) -> (limit: Result<usize, LimitError>)
    ensures
        limit == spec_parse_limit(text@),
{
    let start: usize = if text.len() > 0 && text[0] == 0x2b {
        1
    } else {
        0
    };
    let ghost digits = unsigned_part(text@);
    if start == text.len() {
        return Err(LimitError::Malformed);
    }
    let mut i: usize = start;
    while i < text.len()
        invariant
            start <= i <= text.len(),
            digits == unsigned_part(text@),
            digits == text@.subrange(start as int, text@.len() as int),
            all_digits(digits.subrange(0, i - start)),
        decreases text.len() - i,
    {
        assert(digits[i - start] == text@[i as int]);
        if !is_digit(text[i]) {
            return Err(LimitError::Malformed);
        }
        assert forall|k: int| 0 <= k < i + 1 - start implies spec_is_digit(
            #[trigger] digits.subrange(0, i + 1 - start)[k],
        ) by {
            if k < i - start {
                assert(digits.subrange(0, i - start)[k] == digits[k]);
            }
        }
        i += 1;
    }
    assert(digits.subrange(0, i - start) =~= digits);
    let mut value: usize = 0;
    let mut j: usize = start;
    while j < text.len()
        invariant
            start <= j <= text.len(),
            digits == unsigned_part(text@),
            digits == text@.subrange(start as int, text@.len() as int),
            all_digits(digits),
            value == digits_value(digits.subrange(0, j - start)),
        decreases text.len() - j,
    {
        assert(spec_is_digit(digits[j - start]));
        let digit: usize = (text[j] - 0x30) as usize;
        let ghost prefix = digits.subrange(0, j + 1 - start);
        proof {
            assert(prefix.drop_last() =~= digits.subrange(0, j - start));
            lemma_digits_value_grows(digits, j + 1 - start);
        }
        let scaled = match value.checked_mul(10) {
            Some(scaled) => scaled,
            None => {
                return Err(LimitError::TooLarge);
            },
        };
        value = match scaled.checked_add(digit) {
            Some(sum) => sum,
            None => {
                return Err(LimitError::TooLarge);
            },
        };
        j += 1;
    }
    Ok(value)
}

/// The limit of a request whose `limit` parameter is `raw`, where `None`
/// stands for a request without the parameter.
pub fn limit_from_query(raw: Option<&[u8]>) -> (limit: Result<usize, LimitError>)
    ensures
        limit == spec_limit_from_query(spec_raw(raw)),
{
    match raw {
        None => Err(LimitError::Missing),
        Some(text) => parse_limit(text),
    }
}

impl LimitError {
    /// A sentence for the client.
    pub open spec fn spec_message(self) -> Seq<char> {
        match self {
            LimitError::Missing => "missing query parameter `limit`"@,
            LimitError::Malformed => "query parameter `limit` is not a non-negative integer"@,
            LimitError::TooLarge => "query parameter `limit` is too large"@,
        }
    }

    /// A sentence for the client.
    pub fn message(&self) -> (text: &'static str)
        ensures
            text@ == self.spec_message(),
    {
        match self {
            LimitError::Missing => "missing query parameter `limit`",
            LimitError::Malformed => "query parameter `limit` is not a non-negative integer",
            LimitError::TooLarge => "query parameter `limit` is too large",
        }
    }
}

} // verus!
