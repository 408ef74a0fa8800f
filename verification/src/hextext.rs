//! Bytes written out as hexadecimal digits.

use vstd::prelude::*;

verus! {

/// The lower-case digit of a value below sixteen.
pub open spec fn digit(nibble: int) -> char {
    if nibble < 10 {
        ('0' as u8 + nibble) as char
    } else {
        ('a' as u8 + nibble - 10) as char
    }
}

/// Two digits for each byte, the high half first.
pub open spec fn hex_text(bytes: Seq<u8>) -> Seq<char> {
    Seq::new(
        2 * bytes.len(),
        |at: int|
            if at % 2 == 0 {
                digit(bytes[at / 2] as int / 16)
            } else {
                digit(bytes[at / 2] as int % 16)
            },
    )
}

/// The value of a hexadecimal digit of either case.
pub open spec fn digit_value(digit: char) -> Option<u8> {
    if '0' <= digit <= '9' {
        Some((digit as u8 - '0' as u8) as u8)
    } else if 'a' <= digit <= 'f' {
        Some((digit as u8 - 'a' as u8 + 10) as u8)
    } else if 'A' <= digit <= 'F' {
        Some((digit as u8 - 'A' as u8 + 10) as u8)
    } else {
        None
    }
}

/// `hex::encode`: the lower-case hexadecimal text of the bytes.
#[verifier::external_body]
pub(crate) fn encode(bytes: &[u8]) -> (text: String)
    ensures
        text@ == hex_text(bytes@),
{
    hex::encode(bytes)
}

} // verus!
