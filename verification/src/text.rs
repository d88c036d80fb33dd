//! Small text helpers: character pushing, string comparison and decimal
//! rendering and parsing, shared by the format, parsing and symbol modules.

use vstd::prelude::*;

verus! {

/// Relies on std's `String::push`: appends the given character to the end
/// of the string.
#[verifier::external_body]
pub(crate) fn push_char(s: &mut String, c: char)
    ensures
        final(s)@ == old(s)@.push(c),
{
    s.push(c);
}

/// Compares two string slices by their character sequences.
pub fn str_eq(a: &str, b: &str) -> (r: bool)
    ensures
        r == (a@ == b@),
{
    let a_len = a.unicode_len();
    let b_len = b.unicode_len();
    if a_len != b_len {
        proof {
            assert(a@ != b@);
        }
        return false;
    }
    let mut i: usize = 0;
    while i < a_len
        invariant
            i <= a_len,
            a_len == a@.len(),
            a_len == b@.len(),
            forall|j: int| 0 <= j < i ==> a@[j] == b@[j],
        decreases a_len - i,
    {
        if a.get_char(i) != b.get_char(i) {
            return false;
        }
        i = i + 1;
    }
    proof {
        assert(a@ =~= b@);
    }
    true
}

/// The decimal digit character for a value below ten.
pub open spec fn digit_char(d: int) -> char {
    if d == 0 {
        '0'
    } else if d == 1 {
        '1'
    } else if d == 2 {
        '2'
    } else if d == 3 {
        '3'
    } else if d == 4 {
        '4'
    } else if d == 5 {
        '5'
    } else if d == 6 {
        '6'
    } else if d == 7 {
        '7'
    } else if d == 8 {
        '8'
    } else {
        '9'
    }
}

/// The decimal rendering of a non-negative integer.
pub open spec fn dec_view(n: int) -> Seq<char>
    decreases n,
{
    if n <= 0 {
        seq!['0']
    } else if n < 10 {
        seq![digit_char(n)]
    } else {
        dec_view(n / 10).push(digit_char(n % 10))
    }
}

/// Renders a non-negative 32-bit value in decimal.
pub fn u32_to_dec(n: u32) -> (r: String)
    ensures
        r@ == dec_view(n as int),
{
    if n == 0 {
        let mut s = String::new();
        push_char(&mut s, '0');
        proof {
            assert(s@ =~= dec_view(0));
        }
        return s;
    }
    let mut digits: Vec<char> = Vec::new();
    let mut rest: u32 = n;
    while rest > 0
        invariant
            rest <= n,
            n > 0,
            rest > 0 ==> (dec_view(n as int) =~= dec_view(rest as int) + digits@),
            rest == 0 ==> (dec_view(n as int) =~= digits@),
        decreases rest,
    {
        let d = rest % 10;
        let c = digit_of(d);
        digits.insert(0, c);
        let old_rest: Ghost<u32> = Ghost(rest);
        rest = rest / 10;
        proof {
            if rest > 0 {
                assert(dec_view(old_rest@ as int) =~= dec_view(rest as int).push(
                    digit_char(old_rest@ as int % 10),
                ));
            } else {
                assert(old_rest@ < 10);
                assert(dec_view(old_rest@ as int) =~= seq![digit_char(old_rest@ as int)]);
            }
        }
    }
    let mut s = String::new();
    let mut i: usize = 0;
    while i < digits.len()
        invariant
            i <= digits@.len(),
            s@ =~= digits@.take(i as int),
        decreases digits@.len() - i,
    {
        push_char(&mut s, digits[i]);
        i = i + 1;
    }
    proof {
        assert(digits@.take(digits@.len() as int) =~= digits@);
    }
    s
}

/// The digit character of a value below ten, as executable code.
fn digit_of(d: u32) -> (c: char)
    requires
        d < 10,
    ensures
        c == digit_char(d as int),
{
    match d {
        0 => '0',
        1 => '1',
        2 => '2',
        3 => '3',
        4 => '4',
        5 => '5',
        6 => '6',
        7 => '7',
        8 => '8',
        _ => '9',
    }
}

/// The decimal rendering of an integer, sign included.
pub open spec fn int_dec_view(n: int) -> Seq<char> {
    if n < 0 {
        seq!['-'] + dec_view(-n)
    } else {
        dec_view(n)
    }
}

/// Renders a signed 32-bit value in decimal.
pub fn i32_to_dec(n: i32) -> (r: String)
    ensures
        r@ == int_dec_view(n as int),
{
    if n >= 0 {
        let r = u32_to_dec(n as u32);
        r
    } else {
        let magnitude: u32 = if n == i32::MIN {
            0x8000_0000u32
        } else {
            (-n) as u32
        };
        let mut s = String::new();
        push_char(&mut s, '-');
        let digits = u32_to_dec(magnitude);
        s.append(digits.as_str());
        proof {
            assert(s@ =~= int_dec_view(n as int));
        }
        s
    }
}

/// The ASCII byte of the decimal digit for a value below ten.
pub open spec fn digit_byte(d: int) -> u8 {
    (48 + if 0 <= d < 10 {
        d
    } else {
        0
    }) as u8
}

/// The ASCII decimal rendering of a non-negative integer, as bytes.
pub open spec fn dec_bytes(n: int) -> Seq<u8>
    decreases n,
{
    if n <= 0 {
        seq![48u8]
    } else if n < 10 {
        seq![digit_byte(n)]
    } else {
        dec_bytes(n / 10).push(digit_byte(n % 10))
    }
}

/// Renders a non-negative 32-bit value in decimal, as ASCII bytes.
pub fn u32_to_dec_bytes(n: u32) -> (r: Vec<u8>)
    ensures
        r@ == dec_bytes(n as int),
{
    if n == 0 {
        let mut out: Vec<u8> = Vec::new();
        out.push(48);
        proof {
            assert(out@ =~= dec_bytes(0));
        }
        return out;
    }
    let mut digits: Vec<u8> = Vec::new();
    let mut rest: u32 = n;
    while rest > 0
        invariant
            rest <= n,
            n > 0,
            rest > 0 ==> (dec_bytes(n as int) =~= dec_bytes(rest as int) + digits@),
            rest == 0 ==> (dec_bytes(n as int) =~= digits@),
        decreases rest,
    {
        let d = rest % 10;
        let ghost prev_digits = digits@;
        let ghost prev_rest = rest as int;
        digits.insert(0, (48 + d) as u8);
        rest = rest / 10;
        proof {
            assert(digits@ =~= seq![digit_byte(prev_rest % 10)] + prev_digits);
            if rest > 0 {
                assert(dec_bytes(prev_rest) =~= dec_bytes(rest as int).push(
                    digit_byte(prev_rest % 10),
                ));
                assert(dec_bytes(rest as int).push(digit_byte(prev_rest % 10)) + prev_digits
                    =~= dec_bytes(rest as int) + digits@);
            } else {
                assert(prev_rest < 10);
                assert(dec_bytes(prev_rest) =~= seq![digit_byte(prev_rest)]);
                assert(dec_bytes(prev_rest) + prev_digits =~= digits@);
            }
        }
    }
    digits
}

/// Whether the character is a decimal digit.
pub open spec fn is_digit(c: char) -> bool {
    '0' <= c && c <= '9'
}

/// The numeric value of a digit character.
pub open spec fn digit_value(c: char) -> int {
    c as int - '0' as int
}

/// The non-negative integer a digit sequence denotes.
pub open spec fn digits_value(s: Seq<char>) -> int
    decreases s.len(),
{
    if s.len() == 0 {
        0
    } else {
        digits_value(s.drop_last()) * 10 + digit_value(s.last())
    }
}

/// Whether every character of the sequence is a decimal digit and there is
/// at least one.
pub open spec fn all_digits(s: Seq<char>) -> bool {
    s.len() > 0 && forall|i: int| 0 <= i < s.len() ==> is_digit(#[trigger] s[i])
}

/// Parses a non-negative decimal integer.
///
/// Returns the denoted value when the slice is one or more decimal digits
/// denoting a value that fits an `i32`, and nothing otherwise.
pub fn parse_u31(s: &str) -> (r: Option<i32>)
    ensures
        match r {
            Some(v) => all_digits(s@) && v == digits_value(s@) && 0 <= v,
            None => !(all_digits(s@) && digits_value(s@) <= i32::MAX),
        },
{
    let len = s.unicode_len();
    if len == 0 {
        return None;
    }
    let mut acc: i32 = 0;
    let mut i: usize = 0;
    while i < len
        invariant
            i <= len,
            len == s@.len(),
            0 <= acc,
            forall|j: int| 0 <= j < i ==> is_digit(#[trigger] s@[j]),
            acc == digits_value(s@.take(i as int)),
        decreases len - i,
    {
        let c = s.get_char(i);
        if !('0' <= c && c <= '9') {
            proof {
                assert(!all_digits(s@));
            }
            return None;
        }
        let d: u32 = c as u32 - 48;
        proof {
            vstd::arithmetic::div_mod::lemma_fundamental_div_mod(i32::MAX - d as int, 10);
            assert(s@.take(i as int + 1).drop_last() =~= s@.take(i as int));
            assert(s@.take(i as int + 1).last() == s@[i as int]);
        }
        if acc > (i32::MAX - d as i32) / 10 {
            proof {
                if all_digits(s@) {
                    assert(digits_value(s@.take(i as int + 1)) == acc * 10 + d);
                    lemma_digits_value_grows(s@, i as int + 1);
                }
            }
            return None;
        }
        acc = acc * 10 + d as i32;
        i = i + 1;
    }
    proof {
        assert(s@.take(len as int) =~= s@);
    }
    Some(acc)
}

/// Once a prefix of the digit string already denotes more than any later
/// prefix bound, the whole string does too: the denoted value only grows
/// with more digits.
proof fn lemma_digits_value_grows(s: Seq<char>, i: int)
    requires
        0 < i <= s.len(),
        forall|j: int| 0 <= j < s.len() ==> is_digit(#[trigger] s[j]),
    ensures
        digits_value(s) >= digits_value(s.take(i)),
        digits_value(s.take(i)) >= 0,
    decreases s.len() - i,
{
    lemma_digits_value_nonneg(s.take(i));
    if i == s.len() {
        assert(s.take(i) =~= s);
    } else {
        lemma_digits_value_grows(s, i + 1);
        assert(s.take(i + 1).drop_last() =~= s.take(i));
        assert(is_digit(s[i]));
        assert(digits_value(s.take(i + 1)) == digits_value(s.take(i)) * 10 + digit_value(
            s.take(i + 1).last(),
        ));
    }
}

/// A digit string denotes a non-negative value.
proof fn lemma_digits_value_nonneg(s: Seq<char>)
    requires
        forall|j: int| 0 <= j < s.len() ==> is_digit(#[trigger] s[j]),
    ensures
        digits_value(s) >= 0,
    decreases s.len(),
{
    if s.len() > 0 {
        lemma_digits_value_nonneg(s.drop_last());
    }
}

} // verus!
