//! Decimal text helpers: verified formatting of integers and parsing of
//! digit strings, shared by device identifiers and human-readable messages.

use vstd::prelude::*;

verus! {

/// The character for a single decimal digit value.
pub open spec fn digit_char(d: int) -> char {
    if d == 0 {
        '0'
    } else if d == 1 {
        '1'
    } else if d == 2 {
        '2'
    } else if d == 3 {
        '3'
    } else if d == 4 {
        '4'
    } else if d == 5 {
        '5'
    } else if d == 6 {
        '6'
    } else if d == 7 {
        '7'
    } else if d == 8 {
        '8'
    } else {
        '9'
    }
}

/// True when `c` is an ASCII decimal digit.
pub open spec fn is_digit_char(c: char) -> bool {
    48 <= c as u32 <= 57
}

/// The numeric value of an ASCII decimal digit character.
pub open spec fn digit_val(c: char) -> int {
    c as u32 - 48
}

/// Every character of `s` is an ASCII decimal digit.
pub open spec fn all_digits(s: Seq<char>) -> bool {
    forall|i: int| 0 <= i < s.len() ==> is_digit_char(#[trigger] s[i])
}

/// The shortest decimal representation of `n` (so `"0"` for zero).
pub open spec fn dec_chars(n: nat) -> Seq<char>
    decreases n,
{
    if n < 10 {
        seq![digit_char(n as int)]
    } else {
        dec_chars(n / 10).push(digit_char((n % 10) as int))
    }
}

/// The numeric value of a most-significant-first digit sequence.
pub open spec fn digits_val(s: Seq<char>) -> int
    decreases s.len(),
{
    if s.len() == 0 {
        0
    } else {
        digits_val(s.drop_last()) * 10 + digit_val(s.last())
    }
}

/// `s` with every space character removed, order kept.
pub open spec fn strip_spaces(s: Seq<char>) -> Seq<char>
    decreases s.len(),
{
    if s.len() == 0 {
        Seq::empty()
    } else if s.last() == ' ' {
        strip_spaces(s.drop_last())
    } else {
        strip_spaces(s.drop_last()).push(s.last())
    }
}

/// Ten to the power `n`.
pub open spec fn pow10(n: nat) -> int
    decreases n,
{
    if n == 0 {
        1
    } else {
        10 * pow10((n - 1) as nat)
    }
}

/// `pow10` is always positive.
pub proof fn lemma_pow10_positive(n: nat)
    ensures
        pow10(n) >= 1,
    decreases n,
{
    if n > 0 {
        lemma_pow10_positive((n - 1) as nat);
    }
}

/// Appends the character of one decimal digit to a string.
pub fn append_digit(s: &mut String, d: u8)
    requires
        d < 10,
    ensures
        final(s)@ == old(s)@.push(digit_char(d as int)),
{
    proof {
        reveal_strlit("0");
        reveal_strlit("1");
        reveal_strlit("2");
        reveal_strlit("3");
        reveal_strlit("4");
        reveal_strlit("5");
        reveal_strlit("6");
        reveal_strlit("7");
        reveal_strlit("8");
        reveal_strlit("9");
    }
    match d {
        0 => s.append("0"),
        1 => s.append("1"),
        2 => s.append("2"),
        3 => s.append("3"),
        4 => s.append("4"),
        5 => s.append("5"),
        6 => s.append("6"),
        7 => s.append("7"),
        8 => s.append("8"),
        _ => s.append("9"),
    }
    proof {
        assert(final(s)@ =~= old(s)@.push(digit_char(d as int)));
    }
}

/// The value of a digit sequence is nonnegative and below ten to its length.
pub proof fn lemma_digits_val_bounds(s: Seq<char>)
    requires
        all_digits(s),
    ensures
        0 <= digits_val(s) < pow10(s.len()),
    decreases s.len(),
{
    if s.len() == 0 {
    } else {
        assert(all_digits(s.drop_last())) by {
            assert forall|i: int| 0 <= i < s.drop_last().len() implies is_digit_char(
                #[trigger] s.drop_last()[i],
            ) by {
                assert(s.drop_last()[i] == s[i]);
            }
        }
        lemma_digits_val_bounds(s.drop_last());
        assert(is_digit_char(s.last())) by {
            assert(s[s.len() - 1] == s.last());
        }
        assert(pow10(s.len()) == 10 * pow10((s.len() - 1) as nat));
    }
}

/// A prefix of a digit sequence never has a larger value than the whole.
pub proof fn lemma_digits_val_take_le(s: Seq<char>, j: int)
    requires
        all_digits(s),
        0 <= j <= s.len(),
    ensures
        digits_val(s.take(j)) <= digits_val(s),
    decreases s.len() - j,
{
    if j < s.len() {
        lemma_digits_val_take_le(s, j + 1);
        assert(s.take(j + 1).drop_last() =~= s.take(j));
        assert(s.take(j + 1).last() == s[j]);
        assert(all_digits(s.take(j))) by {
            assert forall|i: int| 0 <= i < s.take(j).len() implies is_digit_char(
                #[trigger] s.take(j)[i],
            ) by {
                assert(s.take(j)[i] == s[i]);
            }
        }
        lemma_digits_val_bounds(s.take(j));
        assert(is_digit_char(s[j]));
        assert(digits_val(s.take(j + 1)) == digits_val(s.take(j)) * 10 + digit_val(s[j]));
    } else {
        assert(s.take(j) =~= s);
    }
}

/// Collects the characters of `s` with every space removed.
pub fn strip_spaces_exec(s: &str) -> (r: Vec<char>)
    ensures
        r@ == strip_spaces(s@),
{
    let n = s.unicode_len();
    let mut out: Vec<char> = Vec::new();
    let mut i: usize = 0;
    while i < n
        invariant
            0 <= i <= n,
            n == s@.len(),
            out@ == strip_spaces(s@.take(i as int)),
        decreases n - i,
    {
        let c = s.get_char(i);
        proof {
            assert(s@.take(i + 1).drop_last() =~= s@.take(i as int));
            assert(s@.take(i + 1).last() == s@[i as int]);
        }
        if c != ' ' {
            out.push(c);
        }
        i += 1;
    }
    proof {
        assert(s@.take(n as int) =~= s@);
    }
    out
}

/// Parses a most-significant-first digit sequence as a `u32`.
///
/// Returns the value exactly when the sequence is nonempty, holds only
/// decimal digits, and its value fits in a `u32`.
pub fn parse_u32_digits(digits: &Vec<char>) -> (r: Option<u32>)
    ensures
        r matches Some(v) ==> all_digits(digits@) && digits@.len() > 0 && v == digits_val(
            digits@,
        ),
        r is None ==> !(all_digits(digits@) && digits@.len() > 0 && digits_val(digits@)
            <= u32::MAX),
{
    if digits.len() == 0 {
        return None;
    }
    let mut v: u32 = 0;
    let mut j: usize = 0;
    while j < digits.len()
        invariant
            0 <= j <= digits@.len(),
            all_digits(digits@.take(j as int)),
            v == digits_val(digits@.take(j as int)),
        decreases digits@.len() - j,
    {
        let c = digits[j];
        let u = c as u32;
        proof {
            assert(digits@.take(j + 1).drop_last() =~= digits@.take(j as int));
            assert(digits@.take(j + 1).last() == digits@[j as int]);
        }
        if u < 48 || u > 57 {
            proof {
                assert(!is_digit_char(digits@[j as int]));
            }
            return None;
        }
        proof {
            assert(is_digit_char(digits@[j as int]));
            assert(all_digits(digits@.take(j + 1))) by {
                assert forall|i: int| 0 <= i < j + 1 implies is_digit_char(
                    #[trigger] digits@.take(j + 1)[i],
                ) by {
                    if i < j {
                        assert(digits@.take(j + 1)[i] == digits@.take(j as int)[i]);
                    } else {
                        assert(digits@.take(j + 1)[i] == digits@[j as int]);
                    }
                }
            }
            assert(digit_val(digits@[j as int]) == u - 48);
        }
        let d = u - 48;
        if v > (u32::MAX - d) / 10 {
            proof {
                let m = (u32::MAX - d) as int;
                vstd::arithmetic::div_mod::lemma_fundamental_div_mod(m, 10);
                vstd::arithmetic::div_mod::lemma_mod_division_less_than_divisor(m, 10);
                assert(10 * (v as int) + d as int > u32::MAX);
                assert(digits_val(digits@.take(j + 1)) == digits_val(digits@.take(j as int)) * 10
                    + digit_val(digits@[j as int]));
                assert(digits_val(digits@.take(j + 1)) > u32::MAX);
                if all_digits(digits@) {
                    lemma_digits_val_take_le(digits@, j + 1);
                }
            }
            return None;
        }
        v = v * 10 + d;
        j += 1;
    }
    proof {
        assert(digits@.take(digits@.len() as int) =~= digits@);
    }
    Some(v)
}

/// Renders `n` in decimal, without padding.
pub fn u64_to_string(n: u64) -> (r: String)
    ensures
        r@ == dec_chars(n as nat),
    decreases n,
{
    if n < 10 {
        let mut s = String::new();
        append_digit(&mut s,n as u8);
        proof {
            assert(s@ =~= dec_chars(n as nat));
        }
        s
    } else {
        let mut s = u64_to_string(n / 10);
        append_digit(&mut s,(n % 10) as u8);
        s
    }
}

} // verus!
