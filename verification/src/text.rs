//! Text for the reports: numbers in decimal and in upper-case hexadecimal,
//! and the text that a fixed buffer holds.

use vstd::prelude::*;
use vstd::string::*;
use vstd::utf8::{decode_utf8, valid_utf8};

verus! {

/// The character for the digit `d` of a base up to sixteen.
pub open spec fn digit_char(d: nat) -> char {
    "0123456789ABCDEF"@[d as int]
}

/// `n` in decimal, without leading zeros.
pub open spec fn decimal(n: nat) -> Seq<char>
    decreases n,
{
    if n < 10 {
        seq![digit_char(n)]
    } else {
        decimal(n / 10).push(digit_char(n % 10))
    }
}

/// `n` in hexadecimal with upper-case letters, without leading zeros.
pub open spec fn hex_upper(n: nat) -> Seq<char>
    decreases n,
{
    if n < 16 {
        seq![digit_char(n)]
    } else {
        hex_upper(n / 16).push(digit_char(n % 16))
    }
}

/// The placeholder that stands for a buffer whose bytes are not text.
pub open spec fn placeholder() -> Seq<char> {
    "unknown"@
}

/// The text of a buffer: its bytes decoded as UTF-8, padding included, or
/// the placeholder where the bytes are not valid UTF-8.
pub open spec fn buffer_text(bytes: Seq<u8>) -> Seq<char> {
    if valid_utf8(bytes) {
        decode_utf8(bytes)
    } else {
        placeholder()
    }
}

/// `core::str::Utf8Error`, the error of `core::str::from_utf8`. Nothing is
/// stated of what it holds.
#[verifier::external_type_specification]
#[verifier::external_body]
pub struct ExUtf8Error(core::str::Utf8Error);

/// `core::str::from_utf8`, which checks a byte slice and hands it back as a
/// string slice. This states without proof that the call succeeds exactly on
/// the byte sequences that are valid UTF-8, and that the characters of the
/// string slice are then those that the bytes encode.
pub assume_specification[ core::str::from_utf8 ](v: &[u8]) -> (text: Result<&str, core::str::Utf8Error>)
    ensures
        text is Ok <==> valid_utf8(v@),
        text matches Ok(s) ==> s@ == decode_utf8(v@),
;

/// The one-character text of the digit `d`.
fn digit_str(d: u8) -> (s: &'static str)
    requires
        d < 16,
    ensures
        s@ == seq![digit_char(d as nat)],
{
    proof {
        reveal_strlit("0123456789ABCDEF");
        reveal_strlit("0");
        reveal_strlit("1");
        reveal_strlit("2");
        reveal_strlit("3");
        reveal_strlit("4");
        reveal_strlit("5");
        reveal_strlit("6");
        reveal_strlit("7");
        reveal_strlit("8");
        reveal_strlit("9");
        reveal_strlit("A");
        reveal_strlit("B");
        reveal_strlit("C");
        reveal_strlit("D");
        reveal_strlit("E");
        reveal_strlit("F");
    }
    let s = match d {
        0 => "0",
        1 => "1",
        2 => "2",
        3 => "3",
        4 => "4",
        5 => "5",
        6 => "6",
        7 => "7",
        8 => "8",
        9 => "9",
        10 => "A",
        11 => "B",
        12 => "C",
        13 => "D",
        14 => "E",
        _ => "F",
    };
    s
}

/// Appends `n` in decimal to `line`.
pub fn push_decimal(line: &mut String, n: u64)
    ensures
        final(line)@ == old(line)@ + decimal(n as nat),
    decreases n,
{
    if n >= 10 {
        push_decimal(line, n / 10);
    }
    line.append(digit_str((n % 10) as u8));
}

/// Appends `n` in upper-case hexadecimal to `line`.
pub fn push_hex_upper(line: &mut String, n: u64)
    ensures
        final(line)@ == old(line)@ + hex_upper(n as nat),
    decreases n,
{
    if n >= 16 {
        push_hex_upper(line, n / 16);
    }
    line.append(digit_str((n % 16) as u8));
}

/// Appends the text of the buffer `bytes` to `line`.
pub fn push_buffer_text(line: &mut String, bytes: &[u8])
    ensures
        final(line)@ == old(line)@ + buffer_text(bytes@),
{
    match core::str::from_utf8(bytes) {
        Ok(text) => line.append(text),
        Err(_) => line.append("unknown"),
    }
}

/// The digit that the character `c` stands for.
pub open spec fn digit_value(c: char) -> int {
    if c as int <= '9' as int {
        c as int - '0' as int
    } else {
        c as int - 'A' as int + 10
    }
}

/// The number that the numeral `digits` denotes in base `base`.
pub open spec fn numeral_value(digits: Seq<char>, base: int) -> int
    decreases digits.len(),
{
    if digits.len() == 0 {
        0
    } else {
        numeral_value(digits.drop_last(), base) * base + digit_value(digits.last())
    }
}

/// Each of the sixteen digit characters stands for its digit.
pub proof fn lemma_digit_value(d: nat)
    requires
        d < 16,
    ensures
        digit_value(digit_char(d)) == d,
        d < 10 ==> '0' as int <= digit_char(d) as int <= '9' as int,
{
    reveal_strlit("0123456789ABCDEF");
}

/// The decimal numeral of `n` denotes `n`, is made of decimal digits, and
/// starts with a zero only where `n` is zero.
pub proof fn lemma_decimal_denotes(n: nat)
    ensures
        numeral_value(decimal(n), 10) == n,
        decimal(n).len() >= 1,
        forall|i: int|
            0 <= i < decimal(n).len() ==> '0' as int <= (#[trigger] decimal(n)[i]) as int
                <= '9' as int,
        n > 0 ==> decimal(n)[0] != '0',
    decreases n,
{
    lemma_digit_value(n % 10);
    if n >= 10 {
        let head = decimal(n / 10);
        lemma_decimal_denotes(n / 10);
        assert(decimal(n).drop_last() =~= head);
    } else {
        assert(numeral_value(decimal(n).drop_last(), 10) == 0);
        reveal_strlit("0123456789ABCDEF");
    }
}

/// The hexadecimal numeral of `n` denotes `n` and starts with a zero only
/// where `n` is zero.
pub proof fn lemma_hex_upper_denotes(n: nat)
    ensures
        numeral_value(hex_upper(n), 16) == n,
        hex_upper(n).len() >= 1,
        n > 0 ==> hex_upper(n)[0] != '0',
    decreases n,
{
    lemma_digit_value(n % 16);
    if n >= 16 {
        let head = hex_upper(n / 16);
        lemma_hex_upper_denotes(n / 16);
        assert(hex_upper(n).drop_last() =~= head);
    } else {
        assert(numeral_value(hex_upper(n).drop_last(), 16) == 0);
        reveal_strlit("0123456789ABCDEF");
    }
}

} // verus!
