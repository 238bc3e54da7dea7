//! Reading a messaging-platform account identifier out of the text a
//! request carried: an optional sign followed by decimal digits, accepted
//! exactly when the value fits the 64-bit signed identifier domain.

use vstd::prelude::*;

verus! {

/// The magnitude bound of the identifier domain: `-MAG_LIMIT` is the
/// smallest identifier, `MAG_LIMIT - 1` the largest.
pub const MAG_LIMIT: u64 = 9223372036854775808;

/// A decimal digit.
pub open spec fn is_digit(c: char) -> bool {
    48 <= (c as u32) <= 57
}

/// The value of one decimal digit.
pub open spec fn digit_value(c: char) -> int {
    (c as u32) - 48
}

/// The value of a run of decimal digits, most significant first.
pub open spec fn dec_value(s: Seq<char>) -> int
    decreases s.len(),
{
    if s.len() == 0 {
        0
    } else {
        dec_value(s.drop_last()) * 10 + digit_value(s.last())
    }
}

pub open spec fn all_digits(s: Seq<char>) -> bool {
    forall|i: int| 0 <= i < s.len() ==> is_digit(#[trigger] s[i])
}

/// Whether the text opens with a sign character.
pub open spec fn has_sign(s: Seq<char>) -> bool {
    s.len() > 0 && (s[0] == '-' || s[0] == '+')
}

/// The digits of the identifier, after any sign.
pub open spec fn digits_part(s: Seq<char>) -> Seq<char> {
    if has_sign(s) {
        s.skip(1)
    } else {
        s
    }
}

pub open spec fn is_negative(s: Seq<char>) -> bool {
    s.len() > 0 && s[0] == '-'
}

/// A well-formed identifier text: an optional sign, then at least one
/// digit and nothing else.
pub open spec fn valid_id_syntax(s: Seq<char>) -> bool {
    digits_part(s).len() > 0 && all_digits(digits_part(s))
}

/// The value a well-formed identifier text denotes.
pub open spec fn id_value(s: Seq<char>) -> int {
    if is_negative(s) {
        -dec_value(digits_part(s))
    } else {
        dec_value(digits_part(s))
    }
}

/// Whether a value lies in the identifier domain.
pub open spec fn in_id_range(n: int) -> bool {
    -(MAG_LIMIT as int) <= n <= MAG_LIMIT as int - 1
}

/// Reads an identifier from a request's text. Exactly the well-formed,
/// in-range texts are accepted; everything else is malformed input.
#[verifier::loop_isolation(false)]
pub fn parse_external_id(s: &str) -> (r: Option<i64>)
    ensures
        match r {
            Some(v) => {
                &&& valid_id_syntax(s@)
                &&& in_id_range(id_value(s@))
                &&& v as int == id_value(s@)
            },
            None => !(valid_id_syntax(s@) && in_id_range(id_value(s@))),
        },
{
    let n = s.unicode_len();
    if n == 0 {
        return None;
    }
    let first = s.get_char(0);
    let neg = first == '-';
    let signed = neg || first == '+';
    let start: usize = if signed {
        1
    } else {
        0
    };
    let ghost dp = s@.skip(start as int);
    proof {
        if !signed {
            assert(s@.skip(0) =~= s@);
        }
        assert(dp == digits_part(s@));
        assert(is_negative(s@) == neg);
    }
    if n == start {
        return None;
    }
    let mut mag: u64 = 0;
    let mut overflow: bool = false;
    let mut i: usize = start;
    while i < n
        invariant
            start <= i <= n,
            all_digits(dp.take(i - start)),
            !overflow ==> mag == dec_value(dp.take(i - start)) && mag <= MAG_LIMIT,
            overflow ==> dec_value(dp.take(i - start)) > MAG_LIMIT,
        decreases n - i,
    {
        let c = s.get_char(i);
        let cu = c as u32;
        if cu < 48 || cu > 57 {
            proof {
                assert(dp[i - start] == s@[i as int]);
                assert(!is_digit(s@[i as int]));
                assert(!all_digits(dp));
            }
            return None;
        }
        let d = (cu - 48) as u64;
        proof {
            assert(dp.take(i - start + 1).drop_last() =~= dp.take(i - start));
            assert(dp.take(i - start + 1).last() == dp[i - start]);
            assert(dp[i - start] == s@[i as int]);
            assert(digit_value(s@[i as int]) == d as int);
        }
        if !overflow {
            if mag <= (MAG_LIMIT - d) / 10 {
                assert(mag * 10 + d <= MAG_LIMIT) by (nonlinear_arith)
                    requires
                        mag <= (MAG_LIMIT - d) / 10,
                        d <= 9,
                ;
                mag = mag * 10 + d;
            } else {
                assert(mag * 10 + d > MAG_LIMIT) by (nonlinear_arith)
                    requires
                        mag > (MAG_LIMIT - d) / 10,
                        d <= 9,
                ;
                overflow = true;
            }
        }
        i = i + 1;
    }
    proof {
        assert(dp.take(n - start) =~= dp);
        if overflow {
            assert(dec_value(dp) > MAG_LIMIT);
        }
    }
    if overflow {
        return None;
    }
    if neg {
        if mag == MAG_LIMIT {
            Some(i64::MIN)
        } else {
            Some(-(mag as i64))
        }
    } else {
        if mag >= MAG_LIMIT {
            return None;
        }
        Some(mag as i64)
    }
}

} // verus!
