//! Parsing of `0x`-prefixed hex strings into byte strings.
//!
//! The functions work on the UTF-8 bytes of the input string; any byte
//! that is not an ASCII hex digit makes the input malformed.

use vstd::prelude::*;
use vstd::string::StringSliceAdditionalSpecFns;

use crate::error::Error;
use crate::types::Hex;

verus! {

/// Is `b` the ASCII code of a hex digit?
pub open spec fn is_hex_digit(b: u8) -> bool {
    (48 <= b && b <= 57)  // '0' ..= '9'
    || (97 <= b && b <= 102)  // 'a' ..= 'f'
    || (65 <= b && b <= 70)  // 'A' ..= 'F'
}

/// The value of the hex digit with ASCII code `b`.
pub open spec fn hex_digit_value(b: u8) -> u8
    recommends
        is_hex_digit(b),
{
    if 48 <= b && b <= 57 {
        (b - 48) as u8
    } else if 97 <= b && b <= 102 {
        (b - 87) as u8
    } else {
        (b - 55) as u8
    }
}

/// Are all bytes of `s` ASCII hex digits?
pub open spec fn all_hex_digits(s: Seq<u8>) -> bool {
    forall|i: int| 0 <= i < s.len() ==> is_hex_digit(#[trigger] s[i])
}

/// The byte encoded by the hex digit pair `hi`, `lo`.
pub open spec fn hex_pair_value(hi: u8, lo: u8) -> u8 {
    (hex_digit_value(hi) * 16 + hex_digit_value(lo)) as u8
}

/// The bytes encoded by a sequence of hex digit pairs, two digits each.
pub open spec fn spec_hex_bytes(s: Seq<u8>) -> Seq<u8>
    decreases s.len(),
{
    if s.len() < 2 {
        Seq::empty()
    } else {
        seq![hex_pair_value(s[0], s[1])] + spec_hex_bytes(s.subrange(2, s.len() as int))
    }
}

/// What decoding a run of hex digits yields: the encoded bytes, or
/// nothing when the run has odd length or holds a non-digit.
pub open spec fn spec_hex_decode(s: Seq<u8>) -> Option<Seq<u8>> {
    if s.len() % 2 == 0 && all_hex_digits(s) {
        Some(spec_hex_bytes(s))
    } else {
        None
    }
}

/// What parsing a `0x`-prefixed hex string yields: the encoded bytes, or
/// nothing when the prefix is missing or the digits are malformed.
pub open spec fn spec_parse_hex(s: Seq<u8>) -> Option<Seq<u8>> {
    if s.len() >= 2 && s[0] == 48 && s[1] == 120 {  // '0', 'x'
        spec_hex_decode(s.subrange(2, s.len() as int))
    } else {
        None
    }
}

proof fn lemma_hex_bytes_snoc(s: Seq<u8>, hi: u8, lo: u8)
    requires
        s.len() % 2 == 0,
    ensures
        spec_hex_bytes(s + seq![hi, lo]) == spec_hex_bytes(s) + seq![hex_pair_value(hi, lo)],
    decreases s.len(),
{
    let t = s + seq![hi, lo];
    assert(t.len() == s.len() + 2);
    if s.len() == 0 {
        assert(t =~= seq![hi, lo]);
        let rest = t.subrange(2, t.len() as int);
        assert(rest =~= Seq::<u8>::empty());
        assert(spec_hex_bytes(rest) == Seq::<u8>::empty());
        assert(t[0] == hi && t[1] == lo);
        assert(spec_hex_bytes(t) == seq![hex_pair_value(hi, lo)] + spec_hex_bytes(rest));
        assert(spec_hex_bytes(t) =~= spec_hex_bytes(s) + seq![hex_pair_value(hi, lo)]);
    } else {
        let srest = s.subrange(2, s.len() as int);
        assert(t.subrange(2, t.len() as int) =~= srest + seq![hi, lo]);
        lemma_hex_bytes_snoc(srest, hi, lo);
        assert(t[0] == s[0] && t[1] == s[1]);
        assert(spec_hex_bytes(t) == seq![hex_pair_value(t[0], t[1])] + spec_hex_bytes(
            srest + seq![hi, lo],
        ));
        assert(spec_hex_bytes(t) =~= spec_hex_bytes(s) + seq![hex_pair_value(hi, lo)]);
    }
}

/// The value of one hex digit byte, or `None` for any other byte.
fn hex_digit_val(b: u8) -> (r: Option<u8>)
    ensures
        match r {
            Some(v) => is_hex_digit(b) && v == hex_digit_value(b) && v < 16,
            None => !is_hex_digit(b),
        },
{
    if 48 <= b && b <= 57 {
        Some(b - 48)
    } else if 97 <= b && b <= 102 {
        Some(b - 87)
    } else if 65 <= b && b <= 70 {
        Some(b - 55)
    } else {
        None
    }
}

/// Decodes the hex digits of `s` from position `start` on.
fn decode_hex_digits(s: &[u8], start: usize) -> (r: Option<Vec<u8>>)
    requires
        start <= s@.len(),
    ensures
        match r {
            Some(v) => spec_hex_decode(s@.subrange(start as int, s@.len() as int)) == Some(v@),
            None => spec_hex_decode(s@.subrange(start as int, s@.len() as int)) is None,
        },
{
    let ghost digits = s@.subrange(start as int, s@.len() as int);
    if (s.len() - start) % 2 != 0 {
        return None;
    }
    let mut out: Vec<u8> = Vec::new();
    let mut i: usize = start;
    while i < s.len()
        invariant
            start <= i <= s@.len(),
            (i - start) % 2 == 0,
            (s@.len() - start) % 2 == 0,
            digits == s@.subrange(start as int, s@.len() as int),
            all_hex_digits(s@.subrange(start as int, i as int)),
            out@ == spec_hex_bytes(s@.subrange(start as int, i as int)),
        decreases s@.len() - i,
    {
        let hi = match hex_digit_val(s[i]) {
            Some(v) => v,
            None => {
                proof {
                    assert(digits[i - start] == s@[i as int]);
                }
                return None;
            },
        };
        let lo = match hex_digit_val(s[i + 1]) {
            Some(v) => v,
            None => {
                proof {
                    assert(digits[i + 1 - start] == s@[i as int + 1]);
                }
                return None;
            },
        };
        out.push(hi * 16 + lo);
        proof {
            lemma_hex_bytes_snoc(s@.subrange(start as int, i as int), s@[i as int], s@[i as int + 1]);
            assert(s@.subrange(start as int, i as int + 2) =~= s@.subrange(start as int, i as int)
                + seq![s@[i as int], s@[i as int + 1]]);
            assert(out@ =~= spec_hex_bytes(s@.subrange(start as int, i as int + 2)));
        }
        i = i + 2;
    }
    proof {
        assert(s@.subrange(start as int, i as int) =~= digits);
    }
    Some(out)
}

/// Parses a `0x`-prefixed hex string into its bytes.
///
/// Returns an `Encoding` error exactly when the prefix is missing, the
/// digit run has odd length, or a byte is not an ASCII hex digit.
pub fn parse_hex(s: &str) -> (r: Result<Hex, Error>)
    ensures
        match r {
            Ok(h) => spec_parse_hex(s.spec_bytes()) == Some(h@),
            Err(e) => spec_parse_hex(s.spec_bytes()) is None && e matches Error::Encoding(_),
        },
{
    let b = s.as_bytes();
    if b.len() < 2 || b[0] != 48 || b[1] != 120 {
        return Err(Error::Encoding("expected a 0x-prefixed hex string".to_owned()));
    }
    match decode_hex_digits(b, 2) {
        Some(v) => Ok(Hex { hex: v }),
        None => Err(Error::Encoding("malformed hex digits".to_owned())),
    }
}

/// Parses a transaction identifier: a `0x`-prefixed hex string encoding
/// exactly 32 bytes.
///
/// Returns an `Encoding` error exactly when `parse_hex` does, or when the
/// encoded byte string does not have length 32.
pub fn parse_tx_hash(s: &str) -> (r: Result<Hex, Error>)
    ensures
        match r {
            Ok(h) => spec_parse_hex(s.spec_bytes()) == Some(h@) && h@.len()
                == crate::TX_HASH_BYTES,
            Err(e) => e matches Error::Encoding(_) && (match spec_parse_hex(s.spec_bytes()) {
                Some(bytes) => bytes.len() != crate::TX_HASH_BYTES,
                None => true,
            }),
        },
{
    let h = parse_hex(s)?;
    if h.hex.len() != crate::TX_HASH_BYTES {
        return Err(Error::Encoding("a transaction hash encodes 32 bytes".to_owned()));
    }
    Ok(h)
}

} // verus!
