//! Text primitives: decimal numerals, lower-case hexadecimal, and string
//! assembly, each with a `Seq<char>` model.

use vstd::prelude::*;
use vstd::string::StringExecFns;

verus! {

/// `String::push` appends the character to the end of the string, as the
/// standard library documents.
pub assume_specification[ String::push ](s: &mut String, ch: char)
    ensures
        final(s)@ == old(s)@.push(ch),
;

/// The ten decimal digits, in order.
pub open spec fn decimal_digits() -> Seq<char> {
    seq!['0', '1', '2', '3', '4', '5', '6', '7', '8', '9']
}

/// The sixteen lower-case hexadecimal digits, in order.
pub open spec fn hex_digits() -> Seq<char> {
    seq!['0', '1', '2', '3', '4', '5', '6', '7', '8', '9', 'a', 'b', 'c', 'd', 'e', 'f']
}

/// The decimal numeral of `n`, without sign or leading zeros.
pub open spec fn decimal(n: nat) -> Seq<char>
    decreases n,
{
    if n < 10 {
        seq![decimal_digits()[n as int]]
    } else {
        decimal(n / 10).push(decimal_digits()[(n % 10) as int])
    }
}

/// The decimal numeral of a signed integer: a minus sign before the
/// numeral of the magnitude when `i` is negative.
pub open spec fn signed_decimal(i: int) -> Seq<char> {
    if i < 0 {
        seq!['-'] + decimal((-i) as nat)
    } else {
        decimal(i as nat)
    }
}

/// Lower-case hexadecimal text of `bytes`: two digits per byte, the high
/// nibble first.
pub open spec fn hex_lower(bytes: Seq<u8>) -> Seq<char> {
    Seq::new(
        2 * bytes.len(),
        |i: int|
            if i % 2 == 0 {
                hex_digits()[bytes[i / 2] as int / 16]
            } else {
                hex_digits()[bytes[i / 2] as int % 16]
            },
    )
}

fn decimal_digit(d: u64) -> (c: char)
    requires
        d < 10,
    ensures
        c == decimal_digits()[d as int],
{
    if d == 0 {
        '0'
    } else if d == 1 {
        '1'
    } else if d == 2 {
        '2'
    } else if d == 3 {
        '3'
    } else if d == 4 {
        '4'
    } else if d == 5 {
        '5'
    } else if d == 6 {
        '6'
    } else if d == 7 {
        '7'
    } else if d == 8 {
        '8'
    } else {
        '9'
    }
}

/// Writes `n` as a decimal numeral.
pub fn u64_to_decimal(n: u64) -> (s: String)
    ensures
        s@ == decimal(n as nat),
    decreases n,
{
    if n < 10 {
        let mut s = String::new();
        s.push(decimal_digit(n));
        s
    } else {
        let mut s = u64_to_decimal(n / 10);
        s.push(decimal_digit(n % 10));
        s
    }
}

/// Writes `i` as a decimal numeral, with a leading minus sign when negative.
pub fn i64_to_decimal(i: i64) -> (s: String)
    ensures
        s@ == signed_decimal(i as int),
{
    if i < 0 {
        let magnitude: u64 = if i == i64::MIN {
            9223372036854775808u64
        } else {
            (-i) as u64
        };
        let digits = u64_to_decimal(magnitude);
        let mut s = String::new();
        s.push('-');
        s.append(digits.as_str());
        s
    } else {
        u64_to_decimal(i as u64)
    }
}

/// Calls `hex::encode`, which writes every byte as two characters taken
/// from the table `0123456789abcdef`, the high nibble first.
#[verifier::external_body]
pub(crate) fn hex_encode(bytes: &Vec<u8>) -> (s: String)
    ensures
        s@ == hex_lower(bytes@),
{
    hex::encode(bytes)
}

/// Different digits are written with different characters.
pub proof fn lemma_digits_are_distinct()
    ensures
        forall|a: int, b: int|
            0 <= a < 10 && 0 <= b < 10 && #[trigger] decimal_digits()[a] == #[trigger] decimal_digits()[b]
                ==> a == b,
        forall|a: int, b: int|
            0 <= a < 16 && 0 <= b < 16 && #[trigger] hex_digits()[a] == #[trigger] hex_digits()[b]
                ==> a == b,
{
    let d = decimal_digits();
    assert(d[0] == '0' && d[1] == '1' && d[2] == '2' && d[3] == '3' && d[4] == '4');
    assert(d[5] == '5' && d[6] == '6' && d[7] == '7' && d[8] == '8' && d[9] == '9');
    let h = hex_digits();
    assert(h[0] == '0' && h[1] == '1' && h[2] == '2' && h[3] == '3' && h[4] == '4');
    assert(h[5] == '5' && h[6] == '6' && h[7] == '7' && h[8] == '8' && h[9] == '9');
    assert(h[10] == 'a' && h[11] == 'b' && h[12] == 'c' && h[13] == 'd' && h[14] == 'e');
    assert(h[15] == 'f');
}

/// A numeral has at least one digit, and more than one from ten on.
pub proof fn lemma_decimal_length(n: nat)
    ensures
        decimal(n).len() >= 1,
        n >= 10 ==> decimal(n).len() >= 2,
    decreases n,
{
    if n >= 10 {
        lemma_decimal_length(n / 10);
    }
}

/// Different numbers have different numerals.
pub proof fn lemma_decimal_is_injective(n: nat, m: nat)
    requires
        decimal(n) == decimal(m),
    ensures
        n == m,
    decreases n,
{
    lemma_digits_are_distinct();
    lemma_decimal_length(n);
    lemma_decimal_length(m);
    if n < 10 && m < 10 {
        assert(decimal(n)[0] == decimal_digits()[n as int]);
        assert(decimal(m)[0] == decimal_digits()[m as int]);
    } else if n >= 10 && m >= 10 {
        let (a, b) = (decimal(n / 10), decimal(m / 10));
        let (x, y) = (decimal_digits()[(n % 10) as int], decimal_digits()[(m % 10) as int]);
        assert(a.push(x).last() == x);
        assert(b.push(y).last() == y);
        assert(a.push(x).drop_last() =~= a);
        assert(b.push(y).drop_last() =~= b);
        lemma_decimal_is_injective(n / 10, m / 10);
    }
}

/// Different byte sequences have different hexadecimal texts.
pub proof fn lemma_hex_is_injective(a: Seq<u8>, b: Seq<u8>)
    requires
        hex_lower(a) == hex_lower(b),
    ensures
        a == b,
{
    lemma_digits_are_distinct();
    assert(hex_lower(a).len() == 2 * a.len());
    assert(hex_lower(b).len() == 2 * b.len());
    assert forall|i: int| 0 <= i < a.len() implies a[i] == b[i] by {
        let (x, y) = (a[i] as int, b[i] as int);
        assert(hex_lower(a)[2 * i] == hex_digits()[x / 16]);
        assert(hex_lower(b)[2 * i] == hex_digits()[y / 16]);
        assert(hex_lower(a)[2 * i + 1] == hex_digits()[x % 16]);
        assert(hex_lower(b)[2 * i + 1] == hex_digits()[y % 16]);
        assert(x / 16 == y / 16);
        assert(x % 16 == y % 16);
    }
    assert(a =~= b);
}

} // verus!
