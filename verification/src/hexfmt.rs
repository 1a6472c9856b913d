//! Hexadecimal text: the mathematical model of the encoding, trusted
//! bindings to the `hex` crate, and the facts the codec needs.
use vstd::prelude::*;

verus! {

/// Whether `c` is a hexadecimal digit, upper or lower case.
pub open spec fn spec_is_hex_digit(c: char) -> bool {
    ||| ('0' as u32) <= (c as u32) <= ('9' as u32)
    ||| ('a' as u32) <= (c as u32) <= ('f' as u32)
    ||| ('A' as u32) <= (c as u32) <= ('F' as u32)
}

/// The numeric value of a hexadecimal digit.
pub open spec fn spec_hex_digit_val(c: char) -> u8
    recommends
        spec_is_hex_digit(c),
{
    if ('0' as u32) <= (c as u32) <= ('9' as u32) {
        ((c as u32) - ('0' as u32)) as u8
    } else if ('a' as u32) <= (c as u32) <= ('f' as u32) {
        ((c as u32) - ('a' as u32) + 10) as u8
    } else {
        ((c as u32) - ('A' as u32) + 10) as u8
    }
}

/// The lower-case digit standing for a value below 16.
pub open spec fn spec_hex_digit_char(d: u8) -> char
    recommends
        d < 16,
{
    match d {
        0 => '0',
        1 => '1',
        2 => '2',
        3 => '3',
        4 => '4',
        5 => '5',
        6 => '6',
        7 => '7',
        8 => '8',
        9 => '9',
        10 => 'a',
        11 => 'b',
        12 => 'c',
        13 => 'd',
        14 => 'e',
        _ => 'f',
    }
}

/// Whether `s` is a well-formed hexadecimal text: even length, digits only.
pub open spec fn spec_is_hex(s: Seq<char>) -> bool {
    &&& s.len() % 2 == 0
    &&& forall|i: int| 0 <= i < s.len() ==> spec_is_hex_digit(#[trigger] s[i])
}

/// The bytes a hexadecimal text stands for, two digits to a byte.
pub open spec fn spec_bytes_of_hex(s: Seq<char>) -> Seq<u8>
    decreases s.len(),
{
    if s.len() < 2 {
        Seq::empty()
    } else {
        seq![(16 * spec_hex_digit_val(s[0]) + spec_hex_digit_val(s[1])) as u8]
            + spec_bytes_of_hex(s.skip(2))
    }
}

/// The lower-case hexadecimal text of a byte sequence, two digits to a byte.
pub open spec fn spec_hex_of_bytes(b: Seq<u8>) -> Seq<char>
    decreases b.len(),
{
    if b.len() == 0 {
        Seq::empty()
    } else {
        seq![spec_hex_digit_char(b[0] / 16), spec_hex_digit_char(b[0] % 16)]
            + spec_hex_of_bytes(b.skip(1))
    }
}

/// Relies on `hex::encode`: each input byte becomes two lower-case
/// hexadecimal digits, in input order.
#[verifier::external_body]
pub(crate) fn hex_encode(data: &Vec<u8>) -> (r: String)
    ensures
        r@ == spec_hex_of_bytes(data@),
{
    hex::encode(data)
}

/// Relies on `hex::decode`: it succeeds exactly on even-length inputs made
/// of hexadecimal digits (either case), pairing the digits into bytes.
#[verifier::external_body]
pub(crate) fn hex_decode(s: &str) -> (r: Option<Vec<u8>>)
    ensures
        r is Some <==> spec_is_hex(s@),
        r matches Some(b) ==> b@ == spec_bytes_of_hex(s@),
{
    hex::decode(s).ok()
}

/// A digit below 16 encodes to a hexadecimal digit whose value it is.
pub proof fn lemma_hex_digit_round_trip(d: u8)
    requires
        d < 16,
    ensures
        spec_is_hex_digit(spec_hex_digit_char(d)),
        spec_hex_digit_val(spec_hex_digit_char(d)) == d,
{
}

/// The hexadecimal text of a byte sequence is well formed and twice as long.
pub proof fn lemma_hex_of_bytes_is_hex(b: Seq<u8>)
    ensures
        spec_is_hex(spec_hex_of_bytes(b)),
        spec_hex_of_bytes(b).len() == 2 * b.len(),
    decreases b.len(),
{
    if b.len() == 0 {
    } else {
        lemma_hex_of_bytes_is_hex(b.skip(1));
        lemma_hex_digit_round_trip(b[0] / 16);
        lemma_hex_digit_round_trip(b[0] % 16);
        let s = spec_hex_of_bytes(b);
        let rest = spec_hex_of_bytes(b.skip(1));
        assert forall|i: int| 0 <= i < s.len() implies spec_is_hex_digit(#[trigger] s[i]) by {
            if i >= 2 {
                assert(s[i] == rest[i - 2]);
            }
        }
    }
}

/// Decoding the hexadecimal text of a byte sequence gives the bytes back.
pub proof fn lemma_hex_round_trip(b: Seq<u8>)
    ensures
        spec_bytes_of_hex(spec_hex_of_bytes(b)) == b,
    decreases b.len(),
{
    if b.len() == 0 {
        assert(spec_bytes_of_hex(spec_hex_of_bytes(b)) =~= b);
    } else {
        lemma_hex_round_trip(b.skip(1));
        lemma_hex_digit_round_trip(b[0] / 16);
        lemma_hex_digit_round_trip(b[0] % 16);
        let s = spec_hex_of_bytes(b);
        assert(s.skip(2) =~= spec_hex_of_bytes(b.skip(1)));
        assert(16 * (b[0] / 16) + b[0] % 16 == b[0]);
        assert(spec_bytes_of_hex(s) =~= b);
    }
}

} // verus!
