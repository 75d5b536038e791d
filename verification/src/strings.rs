//! Helpers for working with the character content of strings: locating a
//! separator, reading and writing decimal numbers, and rebuilding strings
//! character by character.

use vstd::prelude::*;

verus! {

/// Relies on alloc's `String::push`: appends exactly the given character to
/// the end of the string.
pub assume_specification[ std::string::String::push ](s: &mut String, ch: char)
    ensures
        final(s)@ == old(s)@.push(ch),
;

/// Relies on core's `char::from_u32`: returns the character with the given
/// scalar value whenever that value is a Unicode scalar value (not a
/// surrogate, not above the Unicode range), and `None` otherwise.
pub assume_specification[ char::from_u32 ](x: u32) -> (r: Option<char>)
    ensures
        (x < 0xD800 || (0xE000 <= x && x <= 0x10FFFF)) <==> r is Some,
        r matches Some(c) ==> c == x as char && c as u32 == x,
;

/// Whether `c` is a decimal digit.
pub open spec fn is_digit(c: char) -> bool {
    '0' <= c && c <= '9'
}

/// The numeric value of a decimal digit.
pub open spec fn digit_val(c: char) -> int {
    c as int - '0' as int
}

/// Whether every character of `s` is a decimal digit.
pub open spec fn all_digits(s: Seq<char>) -> bool {
    forall|i: int| 0 <= i < s.len() ==> is_digit(#[trigger] s[i])
}

/// The value of `s` read as a decimal number, most significant digit first.
pub open spec fn dec_val(s: Seq<char>) -> int
    decreases s.len(),
{
    if s.len() == 0 {
        0
    } else {
        dec_val(s.drop_last()) * 10 + digit_val(s.last())
    }
}

/// Reading one more digit can only keep or grow a nonnegative decimal value.
proof fn lemma_dec_val_take_le(s: Seq<char>, k: int)
    requires
        0 <= k <= s.len(),
        all_digits(s),
    ensures
        0 <= dec_val(s.take(k)) <= dec_val(s),
    decreases s.len() - k,
{
    lemma_dec_val_nonneg(s.take(k));
    if k == s.len() {
        assert(s.take(k) =~= s);
    } else {
        assert(s.take(k + 1).drop_last() =~= s.take(k));
        lemma_dec_val_nonneg(s.take(k));
        lemma_dec_val_take_le(s, k + 1);
    }
}

/// A string of digits has a nonnegative decimal value.
proof fn lemma_dec_val_nonneg(s: Seq<char>)
    requires
        all_digits(s),
    ensures
        dec_val(s) >= 0,
    decreases s.len(),
{
    if s.len() > 0 {
        assert(all_digits(s.drop_last()));
        lemma_dec_val_nonneg(s.drop_last());
    }
}

/// `s` with the one optional leading `'+'` of the unsigned decimal grammar
/// removed: what is left must be all digits.
pub open spec fn spec_digits_part(s: Seq<char>) -> Seq<char> {
    if s.len() > 0 && s[0] == '+' {
        s.drop_first()
    } else {
        s
    }
}

/// What parsing `s` as a `u32` yields: the decimal value if `s` is one
/// optional leading `'+'` followed by a nonempty string of digits whose
/// value fits, and nothing otherwise.
pub open spec fn spec_parse_u32(s: Seq<char>) -> Option<u32> {
    let d = spec_digits_part(s);
    if d.len() > 0 && all_digits(d) && dec_val(d) <= u32::MAX {
        Some(dec_val(d) as u32)
    } else {
        None
    }
}

/// Parses `s` as a decimal `u32`: one optional leading `'+'`, then digits.
/// The empty string, a lone sign, any other character and values that do
/// not fit are rejected.
pub fn parse_u32(s: &str) -> (r: Option<u32>)
    ensures
        r == spec_parse_u32(s@),
{
    let n = s.unicode_len();
    if n == 0 {
        return None;
    }
    let start: usize = if s.get_char(0) == '+' {
        1
    } else {
        0
    };
    let ghost d = spec_digits_part(s@);
    proof {
        assert(d =~= s@.skip(start as int));
    }
    if start == n {
        // A lone sign has no digits.
        return None;
    }
    let mut acc: u32 = 0;
    let mut i: usize = start;
    while i < n
        invariant
            0 < n == s@.len(),
            start <= i <= n,
            start == 1 || start == 0,
            d == spec_digits_part(s@),
            d =~= s@.skip(start as int),
            all_digits(d.take(i - start as int)),
            acc == dec_val(d.take(i - start as int)),
        decreases n - i,
    {
        let c = s.get_char(i);
        proof {
            assert(d[i - start as int] == s@[i as int]);
        }
        if c < '0' || c > '9' {
            proof {
                assert(!is_digit(d[i - start as int]));
            }
            return None;
        }
        let da: u32 = (c as u32) - ('0' as u32);
        if acc > (u32::MAX - da) / 10 {
            proof {
                assert(d.take(i - start as int + 1).drop_last() =~= d.take(i - start as int));
                assert(d.take(i - start as int + 1).last() == d[i - start as int]);
                assert(dec_val(d.take(i - start as int + 1)) > u32::MAX);
                if all_digits(d) {
                    lemma_dec_val_take_le(d, i - start as int + 1);
                }
            }
            return None;
        }
        proof {
            assert(d.take(i - start as int + 1).drop_last() =~= d.take(i - start as int));
            assert(d.take(i - start as int + 1).last() == d[i - start as int]);
        }
        acc = acc * 10 + da;
        i = i + 1;
    }
    proof {
        assert(d.take(n - start as int) =~= d);
    }
    Some(acc)
}

/// Finds the first occurrence of `c` in `s`.
pub fn find_char(s: &str, c: char) -> (r: Option<usize>)
    ensures
        match r {
            Some(i) => 0 <= i < s@.len() && s@[i as int] == c && forall|j: int|
                0 <= j < i ==> s@[j] != c,
            None => forall|j: int| 0 <= j < s@.len() ==> s@[j] != c,
        },
{
    let n = s.unicode_len();
    let mut i: usize = 0;
    while i < n
        invariant
            0 <= i <= n == s@.len(),
            forall|j: int| 0 <= j < i ==> s@[j] != c,
        decreases n - i,
    {
        if s.get_char(i) == c {
            return Some(i);
        }
        i = i + 1;
    }
    None
}

/// Finds the last occurrence of `c` in `s`.
pub fn rfind_char(s: &str, c: char) -> (r: Option<usize>)
    ensures
        match r {
            Some(i) => 0 <= i < s@.len() && s@[i as int] == c && forall|j: int|
                i < j < s@.len() ==> s@[j] != c,
            None => forall|j: int| 0 <= j < s@.len() ==> s@[j] != c,
        },
{
    let n = s.unicode_len();
    let mut i: usize = n;
    while i > 0
        invariant
            0 <= i <= n == s@.len(),
            forall|j: int| i <= j < s@.len() ==> s@[j] != c,
        decreases i,
    {
        i = i - 1;
        if s.get_char(i) == c {
            return Some(i);
        }
    }
    None
}

/// The decimal form of `n`, most significant digit first, with no leading
/// zero except for `n == 0` itself.
pub open spec fn spec_dec_str(n: int) -> Seq<char>
    decreases n,
{
    if n < 10 {
        seq![(('0' as int + n) as char)]
    } else {
        spec_dec_str(n / 10).push((('0' as int + n % 10) as char))
    }
}

/// Writes `n` in decimal.
pub fn dec_string(n: u32) -> (r: String)
    ensures
        r@ == spec_dec_str(n as int),
    decreases n,
{
    if n < 10 {
        let mut s = String::new();
        let d: u32 = '0' as u32 + n;
        let c = char::from_u32(d);
        match c {
            Some(c) => {
                s.push(c);
                proof {
                    assert(s@ =~= spec_dec_str(n as int));
                }
                s
            },
            None => {
                // '0' is 0x30, so the scalar value is below 0x3A and the
                // conversion cannot fail.
                proof {
                    assert(false);
                }
                s
            },
        }
    } else {
        let mut s = dec_string(n / 10);
        let d: u32 = '0' as u32 + n % 10;
        let c = char::from_u32(d);
        match c {
            Some(c) => {
                s.push(c);
                proof {
                    assert(s@ =~= spec_dec_str(n as int));
                }
                s
            },
            None => {
                proof {
                    assert(false);
                }
                s
            },
        }
    }
}

} // verus!
