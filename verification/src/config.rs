//! Startup parameter validation: the operator's private key, the dispense
//! amount, the gas price. The process is meant to refuse to start when any
//! of these is malformed, so each check here says exactly what it accepts.

use crate::addr::decoded_bytes;
use crate::addr::hex_val;
use crate::addr::is_hex_digit;
use crate::wei::Wei;
use vstd::prelude::*;
use vstd::string::StringSliceAdditionalSpecFns;

verus! {

/// The hexadecimal part of a private-key string: the text after an
/// optional `0x` prefix.
pub open spec fn key_hex_digits(s: Seq<u8>) -> Seq<u8> {
    if s.len() >= 2 && s[0] == 0x30u8 && s[1] == 0x78u8 {
        s.subrange(2, s.len() as int)
    } else {
        s
    }
}

/// Whether `s` spells a 32-byte private key: an optional `0x` prefix, then
/// exactly 64 hexadecimal digits.
pub open spec fn valid_private_key_hex(s: Seq<u8>) -> bool {
    &&& key_hex_digits(s).len() == 64
    &&& forall|i: int| 0 <= i < 64 ==> is_hex_digit(key_hex_digits(s)[i])
}

/// Decodes a private-key string: accepts exactly the well-formed spellings
/// and returns the 32 bytes they spell.
pub fn decode_private_key(s: &str) -> (r: Option<[u8; 32]>)
    ensures
        r is Some <==> valid_private_key_hex(s.spec_bytes()),
        r is Some ==> r.unwrap()@ == decoded_bytes(key_hex_digits(s.spec_bytes())),
{
    let b = s.as_bytes();
    let off: usize = if b.len() >= 2 && b[0] == 0x30 && b[1] == 0x78 {
        2
    } else {
        0
    };
    proof {
        assert(b@.subrange(off as int, b@.len() as int) =~= key_hex_digits(s.spec_bytes()));
    }
    if b.len() - off != 64 {
        return None;
    }
    let mut key: [u8; 32] = [0u8; 32];
    let mut i: usize = 0;
    while i < 64
        invariant
            0 <= i <= 64,
            b@.len() == off + 64,
            off == 0 || off == 2,
            b@.subrange(off as int, b@.len() as int) =~= key_hex_digits(s.spec_bytes()),
            forall|j: int| off <= j < off + i ==> is_hex_digit(b@[j]),
            forall|j: int|
                0 <= j && 2 * j + 1 < i ==> key@[j] == (hex_val(b@[off + 2 * j]) * 16 + hex_val(
                    b@[off + 2 * j + 1],
                )) as u8,
        decreases 64 - i,
    {
        let c = b[off + i];
        match crate::addr::hex_digit_value(c) {
            Option::None => {
                proof {
                    assert(!is_hex_digit(key_hex_digits(s.spec_bytes())[i as int]));
                }
                return None;
            },
            Option::Some(v) => {
                if i % 2 == 1 {
                    let hi = b[off + i - 1];
                    match crate::addr::hex_digit_value(hi) {
                        Option::None => {
                            return None;
                        },
                        Option::Some(vh) => {
                            key[i / 2] = vh * 16 + v;
                        },
                    }
                }
            },
        }
        i = i + 1;
    }
    proof {
        assert forall|j: int| 0 <= j < 64 implies is_hex_digit(
            key_hex_digits(s.spec_bytes())[j],
        ) by {
            assert(key_hex_digits(s.spec_bytes())[j] == b@[off + j]);
        }
        assert(key@ =~= decoded_bytes(key_hex_digits(s.spec_bytes())));
    }
    Some(key)
}

/// Converts a gas price given in gwei to wei: one gwei is a billion wei.
pub fn gwei_to_wei(gwei: u64) -> (r: u128)
    ensures
        r == gwei as int * 1_000_000_000,
{
    (gwei as u128) * 1_000_000_000
}

/// Whether `b` is the ASCII code of a decimal digit.
pub open spec fn is_dec_digit(b: u8) -> bool {
    0x30 <= b && b <= 0x39
}

/// The number the decimal digits `s` spell, most significant first.
pub open spec fn dec_val(s: Seq<u8>) -> nat
    decreases s.len(),
{
    if s.len() == 0 {
        0
    } else {
        dec_val(s.drop_last()) * 10 + (s.last() - 0x30) as nat
    }
}

/// Whether `s` spells an unsigned decimal number that fits in 256 bits.
pub open spec fn valid_dec_amount(s: Seq<u8>) -> bool {
    &&& s.len() > 0
    &&& forall|i: int| 0 <= i < s.len() ==> is_dec_digit(s[i])
    &&& dec_val(s) < 0x1_0000_0000_0000_0000_0000_0000_0000_0000_0000_0000_0000_0000_0000_0000_0000_0000
}

/// A digit appended multiplies the value by ten and adds the digit.
proof fn lemma_dec_val_snoc(s: Seq<u8>, i: int)
    requires
        0 <= i < s.len(),
    ensures
        dec_val(s.subrange(0, i + 1)) == dec_val(s.subrange(0, i)) * 10 + (s[i] - 0x30) as nat,
{
    assert(s.subrange(0, i + 1).drop_last() =~= s.subrange(0, i));
    assert(s.subrange(0, i + 1).last() == s[i]);
}

/// A prefix never spells more than the whole.
proof fn lemma_dec_val_prefix(s: Seq<u8>, i: int)
    requires
        0 <= i <= s.len(),
    ensures
        dec_val(s.subrange(0, i)) <= dec_val(s),
    decreases s.len() - i,
{
    if i == s.len() {
        assert(s.subrange(0, i) =~= s);
    } else {
        lemma_dec_val_snoc(s, i);
        lemma_dec_val_prefix(s, i + 1);
    }
}

impl Wei {
    /// Parses a decimal amount: accepts exactly the nonempty all-digit
    /// spellings of numbers below 2^256, and returns the number spelled.
    pub fn from_decimal(s: &str) -> (r: Option<Wei>)
        ensures
            r is Some <==> valid_dec_amount(s.spec_bytes()),
            r is Some ==> r.unwrap().as_nat() == dec_val(s.spec_bytes()),
    {
        let b = s.as_bytes();
        if b.len() == 0 {
            return None;
        }
        let mut acc = Wei { limb0: 0, limb1: 0, limb2: 0, limb3: 0 };
        let mut i: usize = 0;
        while i < b.len()
            invariant
                0 <= i <= b@.len(),
                b@ == s.spec_bytes(),
                forall|j: int| 0 <= j < i ==> is_dec_digit(b@[j]),
                acc.as_nat() == dec_val(b@.subrange(0, i as int)),
            decreases b@.len() - i,
        {
            let c = b[i];
            if c < 0x30 || c > 0x39 {
                return None;
            }
            let d = c - 0x30;
            let t0: u128 = (acc.limb0 as u128) * 10 + (d as u128);
            let t1: u128 = (acc.limb1 as u128) * 10 + t0 / 0x1_0000_0000_0000_0000;
            let t2: u128 = (acc.limb2 as u128) * 10 + t1 / 0x1_0000_0000_0000_0000;
            let t3: u128 = (acc.limb3 as u128) * 10 + t2 / 0x1_0000_0000_0000_0000;
            let carry = t3 / 0x1_0000_0000_0000_0000;
            let next = Wei {
                limb0: (t0 % 0x1_0000_0000_0000_0000) as u64,
                limb1: (t1 % 0x1_0000_0000_0000_0000) as u64,
                limb2: (t2 % 0x1_0000_0000_0000_0000) as u64,
                limb3: (t3 % 0x1_0000_0000_0000_0000) as u64,
            };
            proof {
                lemma_dec_val_snoc(b@, i as int);
                assert(next.as_nat() + carry
                    * 0x1_0000_0000_0000_0000_0000_0000_0000_0000_0000_0000_0000_0000_0000_0000_0000_0000
                    == acc.as_nat() * 10 + d) by {
                    assert(t0 == (t0 % 0x1_0000_0000_0000_0000) + (t0 / 0x1_0000_0000_0000_0000)
                        * 0x1_0000_0000_0000_0000);
                    assert(t1 == (t1 % 0x1_0000_0000_0000_0000) + (t1 / 0x1_0000_0000_0000_0000)
                        * 0x1_0000_0000_0000_0000);
                    assert(t2 == (t2 % 0x1_0000_0000_0000_0000) + (t2 / 0x1_0000_0000_0000_0000)
                        * 0x1_0000_0000_0000_0000);
                    assert(t3 == (t3 % 0x1_0000_0000_0000_0000) + (t3 / 0x1_0000_0000_0000_0000)
                        * 0x1_0000_0000_0000_0000);
                };
            }
            if carry != 0 {
                proof {
                    lemma_dec_val_prefix(b@, i + 1);
                }
                return None;
            }
            acc = next;
            i = i + 1;
        }
        proof {
            assert(b@.subrange(0, b@.len() as int) =~= b@);
        }
        Some(acc)
    }
}

} // verus!
