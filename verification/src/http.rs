use vstd::prelude::*;

verus! {

/// The five actions the HTTP surface exposes.
#[derive(Debug)]
pub enum HttpAction {
    Create,
    ListAll,
    GetById,
    UpdatePartial,
    Delete,
}

/// The status of a successful action: creation answers 201, everything
/// else 200.
pub fn success_status(a: &HttpAction) -> (code: u16)
    ensures
        code == (match *a {
            HttpAction::Create => 201u16,
            _ => 200u16,
        }),
{
    match *a {
        HttpAction::Create => 201,
        _ => 200,
    }
}

/// A decimal digit.
pub open spec fn is_digit(c: char) -> bool {
    '0' <= c <= '9'
}

/// The value of a decimal digit.
pub open spec fn digit_val(c: char) -> int {
    c as u32 - 48
}

/// Every character of `s` is a decimal digit.
pub open spec fn all_digits(s: Seq<char>) -> bool {
    forall|i: int| 0 <= i < s.len() ==> is_digit(#[trigger] s[i])
}

/// The integer a digit string denotes, most significant digit first.
pub open spec fn dec_value(s: Seq<char>) -> int
    decreases s.len(),
{
    if s.len() == 0 {
        0
    } else {
        10 * dec_value(s.drop_last()) + digit_val(s.last())
    }
}

/// Appending a digit multiplies the value by ten and adds the digit.
pub proof fn lemma_dec_value_append(s: Seq<char>, c: char)
    ensures
        dec_value(s.push(c)) == 10 * dec_value(s) + digit_val(c),
{
    assert(s.push(c).drop_last() =~= s);
}

/// The id an HTTP path parameter denotes: an optional leading minus sign,
/// then one or more decimal digits, within the 32-bit signed range.
/// Anything else — empty, a stray character, out of range — is malformed
/// and answered with 400 before any store access.
pub open spec fn spec_parse_id(s: Seq<char>) -> Option<int> {
    if s.len() > 0 && s[0] == '-' {
        let digits = s.subrange(1, s.len() as int);
        if digits.len() > 0 && all_digits(digits) && -dec_value(digits) >= i32::MIN {
            Some(-dec_value(digits))
        } else {
            None
        }
    } else {
        if s.len() > 0 && all_digits(s) && dec_value(s) <= i32::MAX {
            Some(dec_value(s))
        } else {
            None
        }
    }
}

/// Parse an HTTP path parameter as a row id, accepting exactly what
/// `spec_parse_id` accepts.
pub fn parse_id(s: &str) -> (r: Option<i32>)
    ensures
        match r {
            Some(v) => spec_parse_id(s@) == Some(v as int),
            None => spec_parse_id(s@) is None,
        },
{
    if !s.is_ascii() {
        proof {
            assert(exists|k: int| 0 <= k < s@.len() && !('\0' <= #[trigger] s@[k] <= '\u{7f}'));
            let k = choose|k: int| 0 <= k < s@.len() && !('\0' <= #[trigger] s@[k] <= '\u{7f}');
            let c = s@[k];
            assert(!('\0' <= c <= '\u{7f}'));
            assert(!is_digit(c));
            if s@.len() > 0 && s@[0] == '-' {
                let digits = s@.subrange(1, s@.len() as int);
                assert(k >= 1);
                assert(digits[k - 1] == s@[k]);
                assert(!is_digit(digits[k - 1]));
            } else {
                assert(!is_digit(s@[k]));
            }
        }
        return None;
    }
    proof {
        vstd::string::is_ascii_spec_bytes(s);
    }
    let n = s.as_bytes().len();
    proof {
        assert(n == s@.len());
    }
    if n == 0 {
        return None;
    }
    let neg = s.get_char(0) == '-';
    let start: usize = if neg {
        1
    } else {
        0
    };
    if n == start {
        return None;
    }
    let mut i = start;
    let mut acc: u64 = 0;
    let mut big = false;
    while i < n
        invariant
            n == s@.len(),
            start <= i <= n,
            neg == (s@.len() > 0 && s@[0] == '-'),
            start == (if neg {
                1int
            } else {
                0int
            }),
            forall|j: int| start <= j < i ==> is_digit(#[trigger] s@[j]),
            !big ==> {
                &&& acc == dec_value(s@.subrange(start as int, i as int))
                &&& acc < 4000000000
            },
            big ==> dec_value(s@.subrange(start as int, i as int)) > 2147483648,
        decreases n - i,
    {
        let c = s.get_char(i);
        let u: u32 = c as u32;
        if !(48 <= u && u <= 57) {
            proof {
                if s@.len() > 0 && s@[0] == '-' {
                    let digits = s@.subrange(1, s@.len() as int);
                    assert(digits[i - 1] == s@[i as int]);
                    assert(!is_digit(digits[i - 1]));
                } else {
                    assert(!is_digit(s@[i as int]));
                }
            }
            return None;
        }
        let ghost prefix = s@.subrange(start as int, i as int);
        proof {
            assert(s@.subrange(start as int, i + 1 as int) =~= prefix.push(s@[i as int]));
            lemma_dec_value_append(prefix, s@[i as int]);
        }
        if big {
        } else if acc >= 400000000 {
            big = true;
        } else {
            let d: u64 = (u - 48) as u64;
            acc = acc * 10 + d;
        }
        i += 1;
    }
    let ghost digits = s@.subrange(start as int, n as int);
    proof {
        if neg {
            assert(digits =~= s@.subrange(1, s@.len() as int));
        } else {
            assert(digits =~= s@);
        }
        assert(all_digits(digits));
    }
    if big {
        return None;
    }
    if neg {
        if acc > 2147483648 {
            None
        } else {
            let v: i64 = -(acc as i64);
            Some(v as i32)
        }
    } else {
        if acc > 2147483647 {
            None
        } else {
            Some(acc as i32)
        }
    }
}

} // verus!
