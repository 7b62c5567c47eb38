//! Hexadecimal text: two digits per byte, most significant nibble first.

use vstd::prelude::*;
use vstd::string::*;

verus! {

/// The lower-case ASCII digit that stands for the nibble `n`.
pub open spec fn hex_digit(n: int) -> u8 {
    if n < 10 {
        (0x30 + n) as u8
    } else {
        (0x57 + n) as u8
    }
}

/// Whether `c` is one of `0`-`9`, `a`-`f` or `A`-`F`.
pub open spec fn is_hex_digit(c: u8) -> bool {
    (0x30 <= c <= 0x39) || (0x61 <= c <= 0x66) || (0x41 <= c <= 0x46)
}

/// The nibble a hexadecimal digit stands for.
pub open spec fn hex_value(c: u8) -> int
    recommends
        is_hex_digit(c),
{
    if 0x30 <= c <= 0x39 {
        c - 0x30
    } else if 0x61 <= c <= 0x66 {
        c - 0x57
    } else {
        c - 0x37
    }
}

/// Whether every byte of `text` is a hexadecimal digit.
pub open spec fn all_hex(text: Seq<u8>) -> bool {
    forall|i: int| 0 <= i < text.len() ==> is_hex_digit(#[trigger] text[i])
}

/// The hexadecimal text of `bytes`, as ASCII bytes.
pub open spec fn hex_bytes(bytes: Seq<u8>) -> Seq<u8> {
    Seq::new(
        2 * bytes.len(),
        |j: int|
            if j % 2 == 0 {
                hex_digit(bytes[j / 2] as int / 16)
            } else {
                hex_digit(bytes[j / 2] as int % 16)
            },
    )
}

/// The hexadecimal text of `bytes`, as characters.
pub open spec fn hex_text(bytes: Seq<u8>) -> Seq<char> {
    Seq::new(2 * bytes.len(), |j: int| hex_bytes(bytes)[j] as char)
}

/// The bytes that the hexadecimal `text` spells: one per pair of digits.
pub open spec fn unhex(text: Seq<u8>) -> Seq<u8>
    recommends
        text.len() % 2 == 0,
        all_hex(text),
{
    Seq::new(
        text.len() / 2,
        |i: int| (hex_value(text[2 * i]) * 16 + hex_value(text[2 * i + 1])) as u8,
    )
}

/// Hexadecimal text holds digits only, and spells the bytes it was made from.
pub proof fn lemma_unhex_hex(bytes: Seq<u8>)
    ensures
        hex_bytes(bytes).len() == 2 * bytes.len(),
        all_hex(hex_bytes(bytes)),
        unhex(hex_bytes(bytes)) == bytes,
{
    let text = hex_bytes(bytes);
    assert forall|j: int| 0 <= j < text.len() implies is_hex_digit(#[trigger] text[j]) by {
        let b = bytes[j / 2] as int;
        assert(0 <= b / 16 < 16 && 0 <= b % 16 < 16);
    }
    assert forall|i: int| 0 <= i < bytes.len() implies #[trigger] unhex(text)[i] == bytes[i] by {
        let b = bytes[i] as int;
        assert((2 * i) / 2 == i && (2 * i) % 2 == 0);
        assert((2 * i + 1) / 2 == i && (2 * i + 1) % 2 == 1);
        assert(text[2 * i] == hex_digit(b / 16));
        assert(text[2 * i + 1] == hex_digit(b % 16));
        assert(0 <= b / 16 < 16 && 0 <= b % 16 < 16);
        assert(hex_value(hex_digit(b / 16)) == b / 16);
        assert(hex_value(hex_digit(b % 16)) == b % 16);
        assert((b / 16) * 16 + b % 16 == b);
    }
    assert(unhex(text) =~= bytes);
}

/// The one-character string for the nibble `n`.
pub(crate) fn digit_str(n: u8) -> (digit: &'static str)
    requires
        n < 16,
    ensures
        digit@ == seq![hex_digit(n as int) as char],
{
    proof {
        reveal_strlit("0");
        reveal_strlit("1");
        reveal_strlit("2");
        reveal_strlit("3");
        reveal_strlit("4");
        reveal_strlit("5");
        reveal_strlit("6");
        reveal_strlit("7");
        reveal_strlit("8");
        reveal_strlit("9");
        reveal_strlit("a");
        reveal_strlit("b");
        reveal_strlit("c");
        reveal_strlit("d");
        reveal_strlit("e");
        reveal_strlit("f");
    }
    let digit = match n {
        0 => "0",
        1 => "1",
        2 => "2",
        3 => "3",
        4 => "4",
        5 => "5",
        6 => "6",
        7 => "7",
        8 => "8",
        9 => "9",
        10 => "a",
        11 => "b",
        12 => "c",
        13 => "d",
        14 => "e",
        _ => "f",
    };
    assert(digit@ =~= seq![hex_digit(n as int) as char]);
    digit
}

/// Writes `bytes` as lower-case hexadecimal text, two digits per byte.
pub fn encode(bytes: &[u8]) -> (text: String)
    ensures
        text@ == hex_text(bytes@),
{
    let mut text = String::new();
    let mut i: usize = 0;
    while i < bytes.len()
        invariant
            i <= bytes.len(),
            text@ == hex_text(bytes@.take(i as int)),
        decreases bytes.len() - i,
    {
        let byte = bytes[i];
        let high = byte >> 4;
        let low = byte & 0x0f;
        assert(high == byte / 16 && low == byte % 16) by (bit_vector)
            requires
                high == byte >> 4,
                low == byte & 0x0f,
        ;
        let ghost before = text@;
        text.append(digit_str(high));
        text.append(digit_str(low));
        proof {
            let prev = bytes@.take(i as int);
            let next = bytes@.take(i + 1);
            assert(next.len() == i + 1);
            assert forall|j: int| 0 <= j < 2 * (i + 1) implies #[trigger] text@[j] == hex_text(
                next,
            )[j] by {
                if j < 2 * i {
                    assert(text@[j] == before[j]);
                    assert(before[j] == hex_text(prev)[j]);
                    assert(prev[j / 2] == next[j / 2]);
                } else {
                    assert(j / 2 == i as int);
                    assert(next[i as int] == byte);
                }
            }
            assert(text@ =~= hex_text(next));
        }
        i += 1;
    }
    assert(bytes@.take(i as int) =~= bytes@);
    text
}

/// Reads one hexadecimal digit.
fn digit_value(c: u8) -> (value: Option<u8>)
    ensures
        value is Some <==> is_hex_digit(c),
        value is Some ==> value->0 as int == hex_value(c),
{
    if 0x30 <= c && c <= 0x39 {
        Some(c - 0x30)
    } else if 0x61 <= c && c <= 0x66 {
        Some(c - 0x57)
    } else if 0x41 <= c && c <= 0x46 {
        Some(c - 0x37)
    } else {
        None
    }
}

/// Reads `2 * N` hexadecimal digits starting at `text[start]` into `N` bytes.
/// Fails when one of them is no hexadecimal digit.
pub(crate) fn decode_at<const N: usize>(text: &[u8], start: usize) -> (bytes: Option<[u8; N]>)
    requires
        start + 2 * N <= text.len(),
    ensures
        bytes is Some <==> all_hex(text@.subrange(start as int, start + 2 * N)),
        bytes is Some ==> bytes->0@ == unhex(text@.subrange(start as int, start + 2 * N)),
{
    let ghost digits = text@.subrange(start as int, start + 2 * N);
    let mut bytes = [0u8; N];
    let mut i: usize = 0;
    while i < N
        invariant
            i <= N,
            start + 2 * N <= text.len(),
            digits == text@.subrange(start as int, start + 2 * N),
            forall|j: int| 0 <= j < 2 * i ==> is_hex_digit(#[trigger] digits[j]),
            forall|j: int| 0 <= j < i ==> #[trigger] bytes@[j] == unhex(digits)[j],
        decreases N - i,
    {
        let high = digit_value(text[start + 2 * i]);
        let low = digit_value(text[start + 2 * i + 1]);
        assert(digits[2 * i as int] == text@[start + 2 * i]);
        assert(digits[2 * i + 1] == text@[start + 2 * i + 1]);
        match (high, low) {
            (Some(h), Some(l)) => {
                bytes[i] = h * 16 + l;
            },
            _ => {
                return None;
            },
        }
        i += 1;
    }
    assert(bytes@ =~= unhex(digits));
    Some(bytes)
}

/// Reads hexadecimal text into exactly `N` bytes. Fails unless `hex` is
/// `2 * N` hexadecimal digits and nothing else.
pub fn hex_to_bytes<const N: usize>(hex: &str) -> (bytes: Option<[u8; N]>)
    ensures
        bytes is Some <==> hex.spec_bytes().len() == 2 * N && all_hex(hex.spec_bytes()),
        bytes is Some ==> bytes->0@ == unhex(hex.spec_bytes()),
{
    let text = hex.as_bytes();
    if text.len() % 2 != 0 || text.len() / 2 != N {
        return None;
    }
    assert(text@.subrange(0, 2 * N as int) =~= text@);
    decode_at::<N>(text, 0)
}

} // verus!
