//! Field formatter: renders a transaction's numeric amount, coin symbol and
//! destination address into fixed-shape display byte strings, with overflow
//! detection instead of silent truncation.

use crate::MAX_COIN_LENGTH;
use vstd::prelude::*;

verus! {

/// Returned when a coin symbol does not fit the reserved display budget.
#[derive(Clone, Copy, Debug, PartialEq, Eq, Structural)]
pub struct OverflowError;

/// Decimal digit sequence of `n`, most significant digit first, no leading
/// zeros (the single digit `0` for zero).
pub open spec fn spec_decimal(n: nat) -> Seq<u8>
    decreases n,
{
    if n < 10 {
        seq![(48 + n) as u8]
    } else {
        spec_decimal(n / 10) + seq![(48 + n % 10) as u8]
    }
}

/// The amount line shown to the holder: coin symbol, one space, decimal value.
pub open spec fn spec_amount(coin: Seq<u8>, value: u64) -> Seq<u8> {
    coin + seq![32u8] + spec_decimal(value as nat)
}

/// Lowercase hex digit for a nibble.
pub open spec fn spec_hex_digit_lower(n: u8) -> u8 {
    if n < 10 {
        (48 + n) as u8
    } else {
        (87 + n) as u8
    }
}

/// Uppercase hex digit for a nibble.
pub open spec fn spec_hex_digit_upper(n: u8) -> u8 {
    if n < 10 {
        (48 + n) as u8
    } else {
        (55 + n) as u8
    }
}

/// Lowercase hex encoding: two digits per byte, high nibble first.
pub open spec fn spec_hex_lower(s: Seq<u8>) -> Seq<u8>
    decreases s.len(),
{
    if s.len() == 0 {
        Seq::empty()
    } else {
        seq![spec_hex_digit_lower(s[0] / 16), spec_hex_digit_lower(s[0] % 16)]
            + spec_hex_lower(s.skip(1))
    }
}

/// Uppercase hex encoding: two digits per byte, high nibble first.
pub open spec fn spec_hex_upper(s: Seq<u8>) -> Seq<u8>
    decreases s.len(),
{
    if s.len() == 0 {
        Seq::empty()
    } else {
        seq![spec_hex_digit_upper(s[0] / 16), spec_hex_digit_upper(s[0] % 16)]
            + spec_hex_upper(s.skip(1))
    }
}

/// ASCII uppercasing of a single byte.
pub open spec fn spec_upper_byte(b: u8) -> u8 {
    if 97 <= b <= 122 {
        (b - 32) as u8
    } else {
        b
    }
}

/// ASCII uppercasing of a byte string.
pub open spec fn spec_to_upper(s: Seq<u8>) -> Seq<u8> {
    s.map_values(|b: u8| spec_upper_byte(b))
}

/// The destination line shown to the holder: `0x` then uppercase hex digits.
pub open spec fn spec_address(a: Seq<u8>) -> Seq<u8> {
    seq![48u8, 120u8] + spec_hex_upper(a)
}

/// Value of an uppercase hex digit, `None` for any other byte.
pub open spec fn spec_hex_val(c: u8) -> Option<u8> {
    if 48 <= c <= 57 {
        Some((c - 48) as u8)
    } else if 65 <= c <= 70 {
        Some((c - 55) as u8)
    } else {
        None
    }
}

/// Decodes a string of uppercase hex digits back to bytes; `None` on odd
/// length or any byte that is not an uppercase hex digit.
pub open spec fn spec_parse_hex_upper(s: Seq<u8>) -> Option<Seq<u8>>
    decreases s.len(),
{
    if s.len() == 0 {
        Some(Seq::empty())
    } else if s.len() == 1 {
        None
    } else {
        match (spec_hex_val(s[0]), spec_hex_val(s[1])) {
            (Some(hi), Some(lo)) => match spec_parse_hex_upper(s.skip(2)) {
                Some(rest) => Some(seq![(16 * hi + lo) as u8] + rest),
                None => None,
            },
            _ => None,
        }
    }
}

/// Decodes a formatted address back to its 20 raw bytes.
pub open spec fn spec_parse_address(s: Seq<u8>) -> Option<Seq<u8>> {
    if s.len() == 42 && s[0] == 48 && s[1] == 120 {
        spec_parse_hex_upper(s.subrange(2, 42))
    } else {
        None
    }
}

/// Relies on numtoa's `u64::numtoa_str` with base 10: it writes exactly the
/// decimal digits of the value, most significant first, into a buffer of the
/// 20 bytes its documentation asks for.
#[verifier::external_body]
fn decimal_bytes(value: u64) -> (r: Vec<u8>)
    ensures
        r@ == spec_decimal(value as nat),
{
    let mut buf = [0u8; 20];
    let s: &str = numtoa::NumToA::numtoa_str(value, 10, &mut buf);
    s.as_bytes().to_vec()
}

/// Relies on hex::encode: each input byte becomes two lowercase hex digits,
/// high nibble first.
#[verifier::external_body]
pub(crate) fn hex_lower(bytes: &Vec<u8>) -> (r: Vec<u8>)
    ensures
        r@ == spec_hex_lower(bytes@),
{
    hex::encode(bytes.as_slice()).into_bytes()
}

pub proof fn lemma_hex_lower_len(s: Seq<u8>)
    ensures
        spec_hex_lower(s).len() == 2 * s.len(),
    decreases s.len(),
{
    if s.len() > 0 {
        lemma_hex_lower_len(s.skip(1));
    }
}

pub proof fn lemma_hex_upper_len(s: Seq<u8>)
    ensures
        spec_hex_upper(s).len() == 2 * s.len(),
    decreases s.len(),
{
    if s.len() > 0 {
        lemma_hex_upper_len(s.skip(1));
    }
}

/// Uppercasing the lowercase hex encoding gives the uppercase hex encoding.
proof fn lemma_upper_of_hex_lower(s: Seq<u8>)
    ensures
        spec_to_upper(spec_hex_lower(s)) == spec_hex_upper(s),
    decreases s.len(),
{
    if s.len() == 0 {
        assert(spec_to_upper(spec_hex_lower(s)) =~= spec_hex_upper(s));
    } else {
        lemma_upper_of_hex_lower(s.skip(1));
        assert(spec_to_upper(spec_hex_lower(s)) =~= spec_hex_upper(s));
    }
}

fn upper_byte(b: u8) -> (r: u8)
    ensures
        r == spec_upper_byte(b),
{
    if b >= 97 && b <= 122 {
        b - 32
    } else {
        b
    }
}

/// Formats the amount line. Fails, rather than truncating a financial value,
/// exactly when the coin symbol exceeds its reserved budget.
pub fn format_amount(coin: &Vec<u8>, value: u64) -> (r: Result<Vec<u8>, OverflowError>)
    ensures
        match r {
            Ok(s) => coin@.len() <= MAX_COIN_LENGTH && s@ == spec_amount(coin@, value),
            Err(_) => coin@.len() > MAX_COIN_LENGTH,
        },
{
    if coin.len() > MAX_COIN_LENGTH {
        return Err(OverflowError);
    }
    let mut out: Vec<u8> = Vec::new();
    let mut i: usize = 0;
    while i < coin.len()
        invariant
            i <= coin@.len(),
            out@ == coin@.subrange(0, i as int),
        decreases coin@.len() - i,
    {
        out.push(coin[i]);
        i = i + 1;
        proof {
            assert(out@ =~= coin@.subrange(0, i as int));
        }
    }
    proof {
        assert(out@ =~= coin@);
    }
    out.push(32);
    let digits = decimal_bytes(value);
    let mut j: usize = 0;
    while j < digits.len()
        invariant
            j <= digits@.len(),
            digits@ == spec_decimal(value as nat),
            out@ == coin@ + seq![32u8] + digits@.subrange(0, j as int),
        decreases digits@.len() - j,
    {
        out.push(digits[j]);
        j = j + 1;
        proof {
            assert(out@ =~= coin@ + seq![32u8] + digits@.subrange(0, j as int));
        }
    }
    proof {
        assert(out@ =~= spec_amount(coin@, value));
    }
    Ok(out)
}

/// Formats a 20-byte destination address as `0x` plus 40 uppercase hex
/// digits. Total, and always exactly 42 bytes long.
pub fn format_address(to: &Vec<u8>) -> (r: Vec<u8>)
    requires
        to@.len() == 20,
    ensures
        r@ == spec_address(to@),
        r@.len() == 42,
{
    proof {
        lemma_hex_lower_len(to@);
    }
    let h = hex_lower(to);
    let mut out: Vec<u8> = Vec::new();
    out.push(48);
    out.push(120);
    proof {
        assert(out@ =~= seq![48u8, 120u8] + spec_to_upper(h@.subrange(0, 0)));
    }
    let mut j: usize = 0;
    while j < h.len()
        invariant
            h@ == spec_hex_lower(to@),
            h@.len() == 40,
            j <= 40,
            out@ == seq![48u8, 120u8] + spec_to_upper(h@.subrange(0, j as int)),
        decreases h@.len() - j,
    {
        let u = upper_byte(h[j]);
        out.push(u);
        j = j + 1;
        proof {
            assert(out@ =~= seq![48u8, 120u8] + spec_to_upper(h@.subrange(0, j as int)));
        }
    }
    proof {
        assert(h@.subrange(0, 40) =~= h@);
        lemma_upper_of_hex_lower(to@);
        lemma_hex_upper_len(to@);
        assert(out@ =~= spec_address(to@));
    }
    out
}

/// For every coin symbol within its bound, the formatted amount starts with
/// the symbol itself, then a single space, then exactly the decimal digits of
/// the value.
pub proof fn lemma_amount_shape(coin: Seq<u8>, value: u64)
    requires
        coin.len() <= MAX_COIN_LENGTH,
    ensures
        spec_amount(coin, value).len() == coin.len() + 1 + spec_decimal(value as nat).len(),
        spec_amount(coin, value).subrange(0, coin.len() as int) == coin,
        spec_amount(coin, value)[coin.len() as int] == 32u8,
        spec_amount(coin, value).skip(coin.len() + 1 as int) == spec_decimal(value as nat),
{
    assert(spec_amount(coin, value).subrange(0, coin.len() as int) =~= coin);
    assert(spec_amount(coin, value).skip(coin.len() + 1 as int) =~= spec_decimal(value as nat));
}

/// An uppercase hex digit decodes back to the nibble it encodes.
proof fn lemma_hex_digit_upper_val(n: u8)
    requires
        n < 16,
    ensures
        spec_hex_val(spec_hex_digit_upper(n)) == Some(n),
{
}

proof fn lemma_hex_upper_round_trip(s: Seq<u8>)
    ensures
        spec_parse_hex_upper(spec_hex_upper(s)) == Some(s),
    decreases s.len(),
{
    lemma_hex_upper_len(s);
    if s.len() == 0 {
        assert(spec_hex_upper(s) =~= Seq::<u8>::empty());
        assert(spec_parse_hex_upper(spec_hex_upper(s)) == Some(Seq::<u8>::empty()));
        assert(Seq::<u8>::empty() =~= s);
    } else {
        let h = spec_hex_upper(s);
        lemma_hex_digit_upper_val(s[0] / 16);
        lemma_hex_digit_upper_val(s[0] % 16);
        assert(h[0] == spec_hex_digit_upper(s[0] / 16));
        assert(h[1] == spec_hex_digit_upper(s[0] % 16));
        lemma_hex_upper_round_trip(s.skip(1));
        assert(h.skip(2) =~= spec_hex_upper(s.skip(1)));
        assert((16 * (s[0] / 16) + s[0] % 16) as u8 == s[0]);
        assert(seq![s[0]] + s.skip(1) =~= s);
    }
}

/// Round-trip law: decoding the hex part of a formatted 20-byte address
/// reproduces the input bytes exactly, and the formatted form is 42 bytes.
pub proof fn lemma_address_round_trip(a: Seq<u8>)
    requires
        a.len() == 20,
    ensures
        spec_address(a).len() == 42,
        spec_parse_address(spec_address(a)) == Some(a),
{
    lemma_hex_upper_len(a);
    lemma_hex_upper_round_trip(a);
    assert(spec_address(a).subrange(2, 42) =~= spec_hex_upper(a));
}

} // verus!
