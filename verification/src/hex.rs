//! Lowercase hexadecimal rendering of digest bytes.

use vstd::prelude::*;

verus! {

/// The sixteen lowercase hexadecimal digit characters, by nibble value.
pub open spec fn hex_digit(n: u8) -> char
    recommends
        n < 16,
{
    if n == 0 {
        '0'
    } else if n == 1 {
        '1'
    } else if n == 2 {
        '2'
    } else if n == 3 {
        '3'
    } else if n == 4 {
        '4'
    } else if n == 5 {
        '5'
    } else if n == 6 {
        '6'
    } else if n == 7 {
        '7'
    } else if n == 8 {
        '8'
    } else if n == 9 {
        '9'
    } else if n == 10 {
        'a'
    } else if n == 11 {
        'b'
    } else if n == 12 {
        'c'
    } else if n == 13 {
        'd'
    } else if n == 14 {
        'e'
    } else {
        'f'
    }
}

/// Lowercase hexadecimal rendering of a byte sequence: two digits per byte,
/// high nibble first, no separators, no prefix, no uppercase.
pub open spec fn hex_of(data: Seq<u8>) -> Seq<char> {
    Seq::new(
        2 * data.len(),
        |i: int|
            if i % 2 == 0 {
                hex_digit(((data[i / 2] as int) / 16) as u8)
            } else {
                hex_digit(((data[i / 2] as int) % 16) as u8)
            },
    )
}

/// A character the rendering can produce: a decimal digit or a lowercase
/// letter 'a' through 'f'.
pub open spec fn is_lower_hex_char(c: char) -> bool {
    c == '0' || c == '1' || c == '2' || c == '3' || c == '4' || c == '5' || c == '6' || c == '7'
        || c == '8' || c == '9' || c == 'a' || c == 'b' || c == 'c' || c == 'd' || c == 'e'
        || c == 'f'
}

/// Every rendered digest is exactly two characters per byte, all of them
/// lowercase hexadecimal digits: the output format every algorithm's path
/// converges on.
pub proof fn lemma_hex_of_lowercase(data: Seq<u8>)
    ensures
        hex_of(data).len() == 2 * data.len(),
        forall|i: int|
            0 <= i < hex_of(data).len() ==> is_lower_hex_char(#[trigger] hex_of(data)[i]),
{
    assert forall|i: int| 0 <= i < hex_of(data).len() implies is_lower_hex_char(
        hex_of(data)[i],
    ) by {
        let b = data[i / 2] as int;
        assert(0 <= b / 16 < 16);
        assert(0 <= b % 16 < 16);
    }
}

/// Relies on data_encoding::HEXLOWER::encode: encodes with the symbol set
/// "0123456789abcdef", two symbols per input byte, high nibble first.
/// (encode panics on inputs longer than usize::MAX / 512 bytes; the
/// precondition keeps those out.)
#[verifier::external_body]
pub(crate) fn hex_lower(data: &[u8]) -> (r: String)
    requires
        data@.len() <= usize::MAX / 512,
    ensures
        r@ == hex_of(data@),
{
    data_encoding::HEXLOWER.encode(data)
}

} // verus!
