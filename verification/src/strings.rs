//! Text helpers: comparison, ASCII lower case, and the hexadecimal byte literal.

use vstd::prelude::*;

verus! {

/// Whether two pieces of text hold the same characters.
pub(crate) fn same_text(a: &str, b: &str) -> (r: bool)
    ensures
        r == (a@ == b@),
{
    let left = a.to_owned();
    let right = b.to_owned();
    left == right
}

/// The lower-case form of an ASCII capital, and any other character unchanged.
pub open spec fn lower_char(c: char) -> char {
    if 'A' <= c && c <= 'Z' {
        ((c as u8) + 32) as char
    } else {
        c
    }
}

/// The text with each ASCII capital replaced by its lower-case letter.
pub open spec fn lower(s: Seq<char>) -> Seq<char> {
    Seq::new(s.len(), |i: int| lower_char(s[i]))
}

/// A copy of the text in ASCII lower case.
///
/// Trusted: `str::to_ascii_lowercase` of the standard library, which maps the letters `A` to
/// `Z` to `a` to `z` and leaves every other character as it is.
#[verifier::external_body]
pub(crate) fn to_lower(s: &str) -> (r: String)
    ensures
        r@ == lower(s@),
{
    s.to_ascii_lowercase()
}

/// The value of a hexadecimal digit, in either case.
pub open spec fn digit_value(c: char) -> Option<nat> {
    if '0' <= c && c <= '9' {
        Some((c as nat - '0' as nat) as nat)
    } else if 'a' <= c && c <= 'f' {
        Some((c as nat - 'a' as nat + 10) as nat)
    } else if 'A' <= c && c <= 'F' {
        Some((c as nat - 'A' as nat + 10) as nat)
    } else {
        None
    }
}

/// Reads a hexadecimal digit.
fn digit(c: char) -> (r: Option<u8>)
    ensures
        match r {
            Some(d) => digit_value(c) == Some(d as nat),
            None => digit_value(c) is None,
        },
{
    if '0' <= c && c <= '9' {
        Some((c as u8) - ('0' as u8))
    } else if 'a' <= c && c <= 'f' {
        Some((c as u8) - ('a' as u8) + 10)
    } else if 'A' <= c && c <= 'F' {
        Some((c as u8) - ('A' as u8) + 10)
    } else {
        None
    }
}

/// The number that a run of hexadecimal digits writes, the most significant digit first.
pub open spec fn digits_value(s: Seq<char>) -> Option<nat>
    decreases s.len(),
{
    if s.len() == 0 {
        Some(0)
    } else {
        match (digits_value(s.drop_last()), digit_value(s.last())) {
            (Some(high), Some(low)) => Some(high * 16 + low),
            _ => None,
        }
    }
}

/// The byte that a hexadecimal literal writes.
///
/// A literal is `0x`, then an optional `+`, then one or more hexadecimal digits in either
/// case whose number is at most 255.
pub open spec fn hex_byte(s: Seq<char>) -> Option<u8> {
    if s.len() >= 2 && s[0] == '0' && s[1] == 'x' {
        let signed = s.skip(2);
        let digits = if signed.len() > 0 && signed[0] == '+' {
            signed.skip(1)
        } else {
            signed
        };
        match digits_value(digits) {
            Some(n) if digits.len() > 0 && n <= 255 => Some(n as u8),
            _ => None,
        }
    } else {
        None
    }
}

/// The two-digit literal of a byte, in lower case.
pub open spec fn hex_text(byte: u8) -> Seq<char> {
    seq!['0', 'x', hex_digit((byte / 16) as nat), hex_digit((byte % 16) as nat)]
}

/// The lower-case digit for a number below 16.
pub open spec fn hex_digit(d: nat) -> char {
    if d < 10 {
        ('0' as u8 + d) as char
    } else {
        ('a' as u8 + (d - 10)) as char
    }
}

/// The digits of a number are the digits of each of its beginnings, and no beginning writes
/// a larger number.
pub proof fn lemma_digits_prefix(s: Seq<char>, k: int)
    requires
        0 <= k <= s.len(),
        digits_value(s) is Some,
    ensures
        digits_value(s.take(k)) is Some,
        digits_value(s.take(k))->0 <= digits_value(s)->0,
    decreases s.len(),
{
    if k == s.len() {
        assert(s.take(k) =~= s);
    } else {
        lemma_digits_prefix(s.drop_last(), k);
        assert(s.drop_last().take(k) =~= s.take(k));
    }
}

/// The literal of a byte writes that byte.
pub proof fn lemma_hex_text_round_trip(byte: u8)
    ensures
        hex_byte(hex_text(byte)) == Some(byte),
{
    let s = hex_text(byte);
    let digits = s.skip(2);
    let high = (byte / 16) as nat;
    let low = (byte % 16) as nat;
    assert(digits =~= seq![hex_digit(high), hex_digit(low)]);
    assert(digits.drop_last() =~= seq![hex_digit(high)]);
    assert(digits.drop_last().drop_last() =~= Seq::<char>::empty());
    assert(digit_value(hex_digit(high)) == Some(high));
    assert(digit_value(hex_digit(low)) == Some(low));
    assert(digits_value(Seq::<char>::empty()) == Some(0nat));
    assert(digits_value(digits.drop_last()) == Some(high)) by {
        assert(digits.drop_last().last() == hex_digit(high));
    }
    assert(digits_value(digits) == Some(high * 16 + low)) by {
        assert(digits.last() == hex_digit(low));
    }
    assert(digits[0] != '+');
}

/// Reads a hexadecimal literal of one byte.
pub fn parse_hex(s: &str) -> (r: Option<u8>)
    ensures
        r == hex_byte(s@),
{
    let n = s.unicode_len();
    if n < 2 {
        return None;
    }
    if s.get_char(0) != '0' || s.get_char(1) != 'x' {
        return None;
    }
    let start: usize = if n > 2 && s.get_char(2) == '+' {
        3
    } else {
        2
    };
    let ghost digits = s@.skip(start as int);
    proof {
        if start == 3 {
            assert(s@.skip(2).skip(1) =~= digits);
        }
    }
    if start == n {
        return None;
    }
    assert(hex_byte(s@) == match digits_value(digits) {
        Some(v) if v <= 255 => Some(v as u8),
        _ => None,
    });
    let mut acc: u8 = 0;
    let mut i: usize = start;
    while i < n
        invariant
            start <= i <= n,
            n == s@.len(),
            digits == s@.skip(start as int),
            digits_value(digits.take(i - start)) == Some(acc as nat),
            hex_byte(s@) == match digits_value(digits) {
                Some(v) if v <= 255 => Some(v as u8),
                _ => None,
            },
        decreases n - i,
    {
        let c = s.get_char(i);
        let ghost before = digits.take(i - start);
        let ghost after = digits.take(i + 1 - start);
        proof {
            assert(after.drop_last() =~= before);
            assert(after.last() == c);
            assert(digits_value(after) == match digit_value(c) {
                Some(low) => Some(acc as nat * 16 + low),
                None => None,
            });
        }
        match digit(c) {
            None => {
                proof {
                    if digits_value(digits) is Some {
                        lemma_digits_prefix(digits, i + 1 - start);
                    }
                }
                return None;
            },
            Some(d) => {
                if acc > 15 {
                    proof {
                        if digits_value(digits) is Some {
                            lemma_digits_prefix(digits, i + 1 - start);
                        }
                    }
                    return None;
                }
                acc = acc * 16 + d;
            },
        }
        i += 1;
    }
    proof {
        assert(digits.take(n - start) =~= digits);
    }
    Some(acc)
}

} // verus!
