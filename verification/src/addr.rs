//! Chain addresses and checksummed parsing.
//!
//! An address string is accepted exactly when it is `0x` followed by 40
//! hexadecimal digits whose letter casing encodes the address checksum: a
//! letter is upper case precisely when the corresponding nibble of the
//! Keccak-256 hash of the lower-cased 40-digit text is at least 8.

use vstd::prelude::*;
use vstd::string::StringSliceAdditionalSpecFns;

verus! {

/// A 20-byte chain address.
#[derive(Clone, Copy, PartialEq, Eq, Debug)]
pub struct Address {
    pub bytes: [u8; 20],
}

/// Whether `b` is the ASCII code of a hexadecimal digit.
pub open spec fn is_hex_digit(b: u8) -> bool {
    (0x30 <= b && b <= 0x39) || (0x41 <= b && b <= 0x46) || (0x61 <= b && b <= 0x66)
}

/// The value of the hexadecimal digit with ASCII code `b`.
pub open spec fn hex_val(b: u8) -> int {
    if 0x30 <= b && b <= 0x39 {
        b - 0x30
    } else if 0x41 <= b && b <= 0x46 {
        b - 0x41 + 10
    } else {
        b - 0x61 + 10
    }
}

/// Whether `b` is an upper-case hexadecimal letter.
pub open spec fn is_upper_hex_letter(b: u8) -> bool {
    0x41 <= b && b <= 0x46
}

/// Whether `b` is a hexadecimal letter of either case.
pub open spec fn is_hex_letter(b: u8) -> bool {
    (0x41 <= b && b <= 0x46) || (0x61 <= b && b <= 0x66)
}

/// `b` lower-cased, for ASCII codes of hexadecimal digits.
pub open spec fn to_lower_hex(b: u8) -> u8 {
    if is_upper_hex_letter(b) {
        (b + 0x20) as u8
    } else {
        b
    }
}

/// What Keccak-256 returns on `input`; named only, stated nowhere.
pub uninterp spec fn keccak_of(input: Seq<u8>) -> Seq<u8>;

/// The `i`-th nibble of `hash`, high nibble of each byte first.
pub open spec fn nibble(hash: Seq<u8>, i: int) -> int {
    if i % 2 == 0 {
        hash[i / 2] as int / 16
    } else {
        hash[i / 2] as int % 16
    }
}

/// Whether one digit's casing agrees with its checksum nibble: digits 0-9
/// carry no case; a letter must be upper case exactly when the nibble is at
/// least 8.
pub open spec fn case_ok(b: u8, nib: int) -> bool {
    if is_hex_letter(b) {
        is_upper_hex_letter(b) <==> nib >= 8
    } else {
        true
    }
}

/// Whether the 40 hexadecimal digits `hex40` are cased per the checksum
/// nibbles of `hash`.
pub open spec fn checksum_ok(hex40: Seq<u8>, hash: Seq<u8>) -> bool {
    forall|i: int| 0 <= i < 40 ==> case_ok(hex40[i], nibble(hash, i))
}

/// The 40 hexadecimal digits of `s` after the `0x` prefix, lower-cased:
/// the text whose Keccak-256 hash carries the checksum.
pub open spec fn lower_hex_digits(s: Seq<u8>) -> Seq<u8> {
    s.subrange(2, 42).map(|i: int, b: u8| to_lower_hex(b))
}

/// Whether the bytes `s` spell a well-formed checksummed address: `0x`,
/// then 40 hexadecimal digits, cased per the checksum.
pub open spec fn valid_checksummed_address(s: Seq<u8>) -> bool {
    &&& s.len() == 42
    &&& s[0] == 0x30u8
    &&& s[1] == 0x78u8
    &&& (forall|i: int| 2 <= i < 42 ==> is_hex_digit(s[i]))
    &&& checksum_ok(s.subrange(2, 42), keccak_of(lower_hex_digits(s)))
}

/// The bytes spelled by a run of hexadecimal digits, two digits per byte.
pub open spec fn decoded_bytes(hex: Seq<u8>) -> Seq<u8> {
    Seq::new((hex.len() / 2) as nat, |i: int| (hex_val(hex[2 * i]) * 16 + hex_val(hex[2 * i + 1])) as u8)
}

/// Relies on `alloy_primitives::keccak256`: the Keccak-256 digest is 32
/// bytes and depends on the input bytes alone.
#[verifier::external_body]
fn keccak256_vec(input: &Vec<u8>) -> (r: Vec<u8>)
    ensures
        r@ == keccak_of(input@),
        r@.len() == 32,
{
    alloy_primitives::keccak256(input.as_slice()).to_vec()
}

/// The value of the hexadecimal digit `b`, or `None` when `b` is no such
/// digit.
pub fn hex_digit_value(b: u8) -> (r: Option<u8>)
    ensures
        r is Some <==> is_hex_digit(b),
        r is Some ==> r.unwrap() == hex_val(b),
{
    if 0x30 <= b && b <= 0x39 {
        Some(b - 0x30)
    } else if 0x41 <= b && b <= 0x46 {
        Some(b - 0x41 + 10)
    } else if 0x61 <= b && b <= 0x66 {
        Some(b - 0x61 + 10)
    } else {
        None
    }
}

/// Whether the 40 hexadecimal digits `hex` are cased per the checksum
/// nibbles of the digest `hash`. Takes the digest as an argument; callers
/// obtain it from the hashing call.
pub fn checksum_case_ok(hex: &Vec<u8>, hash: &Vec<u8>) -> (r: bool)
    requires
        hex@.len() == 40,
        hash@.len() == 32,
    ensures
        r == checksum_ok(hex@, hash@),
{
    let mut i: usize = 0;
    while i < 40
        invariant
            0 <= i <= 40,
            hex@.len() == 40,
            hash@.len() == 32,
            forall|j: int| 0 <= j < i ==> case_ok(hex@[j], nibble(hash@, j)),
        decreases 40 - i,
    {
        let b = hex[i];
        let h = hash[i / 2];
        let nib = if i % 2 == 0 {
            h / 16
        } else {
            h % 16
        };
        let letter = (0x41 <= b && b <= 0x46) || (0x61 <= b && b <= 0x66);
        if letter {
            let upper = 0x41 <= b && b <= 0x46;
            if upper != (nib >= 8) {
                return false;
            }
        }
        i = i + 1;
    }
    true
}

/// Parses a checksummed address string: accepts exactly the well-formed
/// checksummed spellings and returns the 20 bytes they spell.
pub fn parse_checksummed(s: &str) -> (r: Option<Address>)
    ensures
        r is Some <==> valid_checksummed_address(s.spec_bytes()),
        r is Some ==> r.unwrap().bytes@ == decoded_bytes(s.spec_bytes().subrange(2, 42)),
{
    let b = s.as_bytes();
    if b.len() != 42 {
        return None;
    }
    if b[0] != 0x30 || b[1] != 0x78 {
        return None;
    }
    let mut digits: Vec<u8> = Vec::new();
    let mut lower: Vec<u8> = Vec::new();
    let mut decoded: [u8; 20] = [0u8; 20];
    let mut i: usize = 0;
    while i < 40
        invariant
            0 <= i <= 40,
            b@.len() == 42,
            b@ == s.spec_bytes(),
            digits@.len() == i,
            lower@.len() == i,
            forall|j: int| 2 <= j < 2 + i ==> is_hex_digit(b@[j]),
            forall|j: int| 0 <= j < i ==> digits@[j] == b@[2 + j],
            forall|j: int| 0 <= j < i ==> lower@[j] == to_lower_hex(b@[2 + j]),
            forall|j: int|
                0 <= j && 2 * j + 1 < i ==> decoded@[j] == (hex_val(b@[2 + 2 * j]) * 16 + hex_val(
                    b@[2 + 2 * j + 1],
                )) as u8,
        decreases 40 - i,
    {
        let c = b[2 + i];
        match hex_digit_value(c) {
            Option::None => {
                proof {
                    assert(!is_hex_digit(s.spec_bytes()[2 + i]));
                }
                return None;
            },
            Option::Some(v) => {
                digits.push(c);
                let low = if 0x41 <= c && c <= 0x46 {
                    c + 0x20
                } else {
                    c
                };
                lower.push(low);
                if i % 2 == 1 {
                    let hi = b[2 + i - 1];
                    match hex_digit_value(hi) {
                        Option::None => {
                            return None;
                        },
                        Option::Some(vh) => {
                            decoded[i / 2] = vh * 16 + v;
                        },
                    }
                }
            },
        }
        i = i + 1;
    }
    let hash = keccak256_vec(&lower);
    proof {
        assert(lower@ =~= lower_hex_digits(s.spec_bytes()));
    }
    if !checksum_case_ok(&digits, &hash) {
        proof {
            assert(digits@ =~= s.spec_bytes().subrange(2, 42));
        }
        return None;
    }
    proof {
        assert(digits@ =~= s.spec_bytes().subrange(2, 42));
        assert(decoded@ =~= decoded_bytes(s.spec_bytes().subrange(2, 42)));
    }
    Some(Address { bytes: decoded })
}

} // verus!
