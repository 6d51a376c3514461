//! Text encodings used on the wire: lowercase hexadecimal for bytes and
//! decimal for integers.
use vstd::prelude::*;
use vstd::string::{StrSliceExecFns, StringExecFns};

verus! {

/// The hexadecimal digit (lowercase) for `n`, where `n < 16`.
pub open spec fn hex_digit_char(n: int) -> char {
    if n < 10 {
        (48 + n) as char
    } else {
        (87 + n) as char
    }
}

/// The value of a hexadecimal digit, either case, or `None` for another char.
pub open spec fn hex_value(c: char) -> Option<u8> {
    if '0' <= c && c <= '9' {
        Some((c as int - 48) as u8)
    } else if 'a' <= c && c <= 'f' {
        Some((c as int - 87) as u8)
    } else if 'A' <= c && c <= 'F' {
        Some((c as int - 55) as u8)
    } else {
        None
    }
}

/// `bytes` as lowercase hexadecimal, two digits per byte, high nibble first.
pub open spec fn hex_encode(bytes: Seq<u8>) -> Seq<char> {
    Seq::new(
        2 * bytes.len(),
        |i: int|
            if i % 2 == 0 {
                hex_digit_char((bytes[i / 2] / 16) as int)
            } else {
                hex_digit_char((bytes[i / 2] % 16) as int)
            },
    )
}

/// Whether every char of `chars` is a hexadecimal digit.
pub open spec fn all_hex(chars: Seq<char>) -> bool {
    forall|i: int| 0 <= i < chars.len() ==> (#[trigger] hex_value(chars[i])) is Some
}

/// The bytes that hexadecimal text stands for: `None` unless its length is
/// even and every char is a hexadecimal digit (either case).
pub open spec fn hex_decode(chars: Seq<char>) -> Option<Seq<u8>> {
    if chars.len() % 2 == 0 && all_hex(chars) {
        Some(
            Seq::new(
                chars.len() / 2,
                |i: int| (hex_value(chars[2 * i])->0 * 16 + hex_value(chars[2 * i + 1])->0) as u8,
            ),
        )
    } else {
        None
    }
}

/// The decimal digits of `n`, most significant first, without leading zeros
/// ("0" for zero).
pub open spec fn decimal_chars(n: nat) -> Seq<char>
    decreases n,
{
    if n < 10 {
        seq![(48 + n) as char]
    } else {
        decimal_chars(n / 10) + seq![(48 + n % 10) as char]
    }
}

/// The number that decimal digits (most significant first) stand for.
pub open spec fn decimal_value(chars: Seq<char>) -> int
    decreases chars.len(),
{
    if chars.len() == 0 {
        0
    } else {
        decimal_value(chars.drop_last()) * 10 + (chars.last() as int - 48)
    }
}

/// The decimal form of `n` is made of digits, starts with a nonzero digit
/// unless it is "0", and reads back as `n`.
pub proof fn law_decimal_chars(n: nat)
    ensures
        decimal_chars(n).len() > 0,
        forall|i: int| 0 <= i < decimal_chars(n).len() ==> '0' <= #[trigger] decimal_chars(n)[i] <= '9',
        n > 0 ==> decimal_chars(n)[0] != '0',
        decimal_value(decimal_chars(n)) == n,
    decreases n,
{
    if n >= 10 {
        law_decimal_chars(n / 10);
        let d = decimal_chars(n);
        assert(d.drop_last() =~= decimal_chars(n / 10));
        assert(d[0] == decimal_chars(n / 10)[0]);
        assert forall|i: int| 0 <= i < d.len() implies '0' <= #[trigger] d[i] <= '9' by {
            if i < d.len() - 1 {
                assert(d[i] == decimal_chars(n / 10)[i]);
            }
        }
        assert(d.last() == (48 + n % 10) as char);
        assert(d.last() as int == 48 + n % 10);
        assert(decimal_value(d) == decimal_value(decimal_chars(n / 10)) * 10 + (n % 10));
        assert((n / 10) * 10 + n % 10 == n);
        assert(decimal_value(d) == n);
    } else {
        let d = decimal_chars(n);
        assert(d.last() as int == 48 + n);
        assert(d.drop_last() =~= Seq::<char>::empty());
        assert(decimal_value(d.drop_last()) == 0);
        assert(decimal_value(d) == n);
    }
}

/// A digit read back gives its value.
pub proof fn lemma_hex_digit_value(n: int)
    requires
        0 <= n < 16,
    ensures
        hex_value(hex_digit_char(n)) == Some(n as u8),
{
}

/// Decoding hexadecimal undoes encoding it.
pub proof fn lemma_hex_roundtrip(bytes: Seq<u8>)
    ensures
        hex_decode(hex_encode(bytes)) == Some(bytes),
{
    let chars = hex_encode(bytes);
    assert forall|i: int| 0 <= i < chars.len() implies (#[trigger] hex_value(chars[i])) is Some by {
        if i % 2 == 0 {
            lemma_hex_digit_value((bytes[i / 2] / 16) as int);
        } else {
            lemma_hex_digit_value((bytes[i / 2] % 16) as int);
        }
    }
    let decoded = hex_decode(chars)->0;
    assert forall|i: int| 0 <= i < bytes.len() implies decoded[i] == bytes[i] by {
        assert((2 * i) / 2 == i);
        assert((2 * i + 1) / 2 == i);
        assert((2 * i) % 2 == 0);
        assert((2 * i + 1) % 2 == 1);
        lemma_hex_digit_value((bytes[i] / 16) as int);
        lemma_hex_digit_value((bytes[i] % 16) as int);
    }
    assert(decoded =~= bytes);
}

/// The one-char string of the hexadecimal digit for `n`.
fn hex_digit_str(n: u8) -> (s: &'static str)
    requires
        n < 16,
    ensures
        s@ == seq![hex_digit_char(n as int)],
{
    if n < 8 {
        if n < 4 {
            if n == 0 { proof { reveal_strlit("0"); } "0" }
            else if n == 1 { proof { reveal_strlit("1"); } "1" }
            else if n == 2 { proof { reveal_strlit("2"); } "2" }
            else { proof { reveal_strlit("3"); } "3" }
        } else {
            if n == 4 { proof { reveal_strlit("4"); } "4" }
            else if n == 5 { proof { reveal_strlit("5"); } "5" }
            else if n == 6 { proof { reveal_strlit("6"); } "6" }
            else { proof { reveal_strlit("7"); } "7" }
        }
    } else {
        if n < 12 {
            if n == 8 { proof { reveal_strlit("8"); } "8" }
            else if n == 9 { proof { reveal_strlit("9"); } "9" }
            else if n == 10 { proof { reveal_strlit("a"); } "a" }
            else { proof { reveal_strlit("b"); } "b" }
        } else {
            if n == 12 { proof { reveal_strlit("c"); } "c" }
            else if n == 13 { proof { reveal_strlit("d"); } "d" }
            else if n == 14 { proof { reveal_strlit("e"); } "e" }
            else { proof { reveal_strlit("f"); } "f" }
        }
    }
}

/// Encodes `bytes` as lowercase hexadecimal.
pub fn to_hex(bytes: &[u8]) -> (s: String)
    ensures
        s@ == hex_encode(bytes@),
{
    let mut s = String::new();
    let mut i: usize = 0;
    while i < bytes.len()
        invariant
            i <= bytes@.len(),
            s@ =~= hex_encode(bytes@.take(i as int)),
        decreases bytes@.len() - i,
    {
        let b = bytes[i];
        s.append(hex_digit_str(b / 16));
        s.append(hex_digit_str(b % 16));
        i = i + 1;
        assert(s@ =~= hex_encode(bytes@.take(i as int)));
    }
    assert(bytes@.take(bytes@.len() as int) =~= bytes@);
    s
}

/// The value of the hexadecimal digit `c`, either case.
fn hex_value_of(c: char) -> (v: Option<u8>)
    ensures
        v == hex_value(c),
{
    if '0' <= c && c <= '9' {
        Some(((c as u32) - 48) as u8)
    } else if 'a' <= c && c <= 'f' {
        Some(((c as u32) - 87) as u8)
    } else if 'A' <= c && c <= 'F' {
        Some(((c as u32) - 55) as u8)
    } else {
        None
    }
}

/// Decodes hexadecimal text (either case): `None` unless its length is even
/// and every char is a hexadecimal digit.
pub fn from_hex(text: &str) -> (res: Option<Vec<u8>>)
    ensures
        match res {
            Some(b) => hex_decode(text@) == Some(b@),
            None => hex_decode(text@) is None,
        },
{
    let len = text.unicode_len();
    if len % 2 != 0 {
        return None;
    }
    let mut out: Vec<u8> = Vec::new();
    let mut i: usize = 0;
    while i < len / 2
        invariant
            len == text@.len(),
            len % 2 == 0,
            i <= len / 2,
            out@.len() == i,
            forall|j: int| 0 <= j < 2 * i ==> (#[trigger] hex_value(text@[j])) is Some,
            forall|j: int|
                0 <= j < i ==> out@[j] == (hex_value(text@[2 * j])->0 * 16 + hex_value(
                    text@[2 * j + 1],
                )->0) as u8,
        decreases len / 2 - i,
    {
        let hi = hex_value_of(text.get_char(2 * i));
        let lo = hex_value_of(text.get_char(2 * i + 1));
        match (hi, lo) {
            (Some(h), Some(l)) => {
                assert(h < 16 && l < 16);
                out.push(h * 16 + l);
                i = i + 1;
            },
            _ => {
                proof {
                    if hi is None {
                        assert(hex_value(text@[2 * i as int]) is None);
                    } else {
                        assert(hex_value(text@[2 * i + 1]) is None);
                    }
                }
                return None;
            },
        }
    }
    proof {
        assert(all_hex(text@));
        let d = hex_decode(text@)->0;
        assert(out@ =~= d);
    }
    Some(out)
}

/// The one-char string of the decimal digit `n`.
fn decimal_digit_str(n: u64) -> (s: &'static str)
    requires
        n < 10,
    ensures
        s@ == seq![(48 + n) as char],
{
    if n == 0 { proof { reveal_strlit("0"); } "0" }
    else if n == 1 { proof { reveal_strlit("1"); } "1" }
    else if n == 2 { proof { reveal_strlit("2"); } "2" }
    else if n == 3 { proof { reveal_strlit("3"); } "3" }
    else if n == 4 { proof { reveal_strlit("4"); } "4" }
    else if n == 5 { proof { reveal_strlit("5"); } "5" }
    else if n == 6 { proof { reveal_strlit("6"); } "6" }
    else if n == 7 { proof { reveal_strlit("7"); } "7" }
    else if n == 8 { proof { reveal_strlit("8"); } "8" }
    else { proof { reveal_strlit("9"); } "9" }
}

/// Appends the decimal digits of `n` to `s`.
pub fn push_decimal(s: &mut String, n: u64)
    ensures
        final(s)@ == old(s)@ + decimal_chars(n as nat),
    decreases n,
{
    if n >= 10 {
        push_decimal(s, n / 10);
    }
    s.append(decimal_digit_str(n % 10));
    proof {
        if n >= 10 {
            assert(final(s)@ =~= old(s)@ + decimal_chars(n as nat));
        } else {
            assert(n % 10 == n);
        }
    }
}

} // verus!
