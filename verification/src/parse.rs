//! Verified decimal parsing for the metrics transport port: an optional
//! leading `+`, then one or more ASCII digits, accepted only when the value
//! fits in a port number. Anything else is rejected, and the configuration
//! resolver then keeps the prior port value.

use vstd::prelude::*;
use vstd::string::StrSliceExecFns;

verus! {

/// `c` is an ASCII decimal digit.
pub open spec fn is_ascii_digit(c: char) -> bool {
    48 <= c as u32 <= 57
}

/// The numeric value of an ASCII digit.
pub open spec fn digit_val(c: char) -> nat {
    (c as u32 - 48) as nat
}

/// Every character of `s` is an ASCII decimal digit.
pub open spec fn all_digits(s: Seq<char>) -> bool {
    forall|i: int| 0 <= i < s.len() ==> is_ascii_digit(#[trigger] s[i])
}

/// The value of a digit string read as a base-10 number.
pub open spec fn digits_value(s: Seq<char>) -> nat
    decreases s.len(),
{
    if s.len() == 0 {
        0
    } else {
        digits_value(s.drop_last()) * 10 + digit_val(s.last())
    }
}

/// What parsing a port number from `s` yields: `Some` exactly when `s` is an
/// optional `+` followed by one or more digits whose value is at most 65535.
pub open spec fn parse_u16_spec(s: Seq<char>) -> Option<u16> {
    let body = if s.len() > 0 && s[0] == '+' {
        s.drop_first()
    } else {
        s
    };
    if body.len() > 0 && all_digits(body) && digits_value(body) <= 65535 {
        Some(digits_value(body) as u16)
    } else {
        None
    }
}

/// Parses a port number, returning `None` on any malformed or out-of-range
/// input.
pub fn parse_u16(s: &str) -> (r: Option<u16>)
    ensures
        r == parse_u16_spec(s@),
{
    let len = s.unicode_len();
    let mut i: usize = 0;
    if len > 0 && s.get_char(0) == '+' {
        i = 1;
    }
    let ghost start = i as int;
    let ghost body = if s@.len() > 0 && s@[0] == '+' {
        s@.drop_first()
    } else {
        s@
    };
    assert(body =~= s@.subrange(start, s@.len() as int));
    if i >= len {
        return None;
    }
    let mut acc: u32 = 0;
    while i < len
        invariant
            len == s@.len(),
            0 <= start <= i <= len,
            start < len,
            body == (if s@.len() > 0 && s@[0] == '+' {
                s@.drop_first()
            } else {
                s@
            }),
            body =~= s@.subrange(start, len as int),
            all_digits(s@.subrange(start, i as int)),
            acc <= 65535 ==> acc == digits_value(s@.subrange(start, i as int)),
            acc > 65535 ==> digits_value(s@.subrange(start, i as int)) > 65535,
            acc <= 655359,
        decreases len - i,
    {
        let c = s.get_char(i);
        let d = c as u32;
        if d < 48 || d > 57 {
            proof {
                assert(body[i - start] == s@.subrange(start, len as int)[i - start]);
                assert(s@.subrange(start, len as int)[i - start] == s@[i as int]);
                assert(!is_ascii_digit(body[i - start]));
                assert(!all_digits(body));
            }
            return None;
        }
        let ghost prefix = s@.subrange(start, i as int);
        let ghost prefix2 = s@.subrange(start, i + 1);
        proof {
            assert(prefix2.drop_last() =~= prefix);
            assert(prefix2.last() == s@[i as int]);
        }
        if acc <= 65535 {
            acc = acc * 10 + (d - 48);
        }
        i += 1;
    }
    assert(s@.subrange(start, i as int) =~= body);
    if acc <= 65535 {
        assert(body.len() > 0);
        Some(acc as u16)
    } else {
        None
    }
}

} // verus!
