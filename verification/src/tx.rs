//! Transaction model: the decoded representation of an inbound signing
//! request, and the decoder that parses it from the wire payload.
//!
//! Wire format of a sign payload:
//! `[coin bytes][0x00 separator][value: 8 bytes big-endian][to: 20 raw bytes][memo: all remaining bytes]`.

use crate::MAX_COIN_LENGTH;
use vstd::prelude::*;

verus! {

/// Exact byte width of the destination address field.
pub const ADDRESS_LENGTH: usize = 20;

/// Shortest well-formed sign payload: an empty coin symbol, its separator,
/// the 8 value bytes and the 20 address bytes.
pub const MIN_SIGN_PAYLOAD: usize = 29;

/// Why a payload was rejected: a field length inconsistent with the buffer,
/// or a field over its fixed bound.
#[derive(Clone, Copy, Debug, PartialEq, Eq, Structural)]
pub enum DecodeError {
    Malformed,
    TooLarge,
}

/// A decoded signing request. Every field already satisfies its length bound:
/// the decoder is the only producer and rejects anything over a bound.
pub struct Tx {
    pub coin: Vec<u8>,
    pub value: u64,
    pub to: Vec<u8>,
    pub memo: Vec<u8>,
}

impl Tx {
    /// Field bounds that every decoded transaction satisfies.
    pub open spec fn wf(&self) -> bool {
        self.coin@.len() <= MAX_COIN_LENGTH && self.to@.len() == ADDRESS_LENGTH
    }
}

/// Index of the first zero byte, or `s.len()` if there is none.
pub open spec fn spec_first_zero(s: Seq<u8>) -> int
    decreases s.len(),
{
    if s.len() == 0 {
        0
    } else if s[0] == 0 {
        0
    } else {
        1 + spec_first_zero(s.skip(1))
    }
}

/// The value field read as a big-endian 64-bit integer.
pub open spec fn spec_be64(s: Seq<u8>) -> int
    recommends
        s.len() == 8,
{
    s[0] * 0x100_0000_0000_0000 + s[1] * 0x1_0000_0000_0000 + s[2] * 0x100_0000_0000
        + s[3] * 0x1_0000_0000 + s[4] * 0x100_0000 + s[5] * 0x1_0000 + s[6] * 0x100 + s[7]
}

/// How a payload is rejected, if it is: `Malformed` when no separator fits a
/// complete value and address behind it, `TooLarge` when the coin symbol is
/// over its bound. `None` means the payload decodes.
pub open spec fn spec_decode_err(s: Seq<u8>) -> Option<DecodeError> {
    let i = spec_first_zero(s);
    if s.len() < i + 29 {
        Some(DecodeError::Malformed)
    } else if i > MAX_COIN_LENGTH {
        Some(DecodeError::TooLarge)
    } else {
        None
    }
}

/// Coin field of a well-formed payload.
pub open spec fn spec_coin(s: Seq<u8>) -> Seq<u8> {
    s.subrange(0, spec_first_zero(s))
}

/// Value field of a well-formed payload.
pub open spec fn spec_value(s: Seq<u8>) -> int {
    spec_be64(s.subrange(spec_first_zero(s) + 1, spec_first_zero(s) + 9))
}

/// Address field of a well-formed payload.
pub open spec fn spec_to(s: Seq<u8>) -> Seq<u8> {
    s.subrange(spec_first_zero(s) + 9, spec_first_zero(s) + 29)
}

/// Memo field of a well-formed payload: every byte after the address.
pub open spec fn spec_memo(s: Seq<u8>) -> Seq<u8> {
    s.subrange(spec_first_zero(s) + 29, s.len() as int)
}

proof fn lemma_first_zero_bounds(s: Seq<u8>)
    ensures
        0 <= spec_first_zero(s) <= s.len(),
        spec_first_zero(s) < s.len() ==> s[spec_first_zero(s)] == 0,
        forall|j: int| 0 <= j < spec_first_zero(s) ==> s[j] != 0,
    decreases s.len(),
{
    if s.len() > 0 && s[0] != 0 {
        lemma_first_zero_bounds(s.skip(1));
        assert forall|j: int| 0 <= j < spec_first_zero(s) implies s[j] != 0 by {
            if j > 0 {
                assert(s.skip(1)[j - 1] == s[j]);
            }
        }
    }
}

/// The first zero is pinned down by what stands before it.
proof fn lemma_first_zero_is(s: Seq<u8>, i: int)
    requires
        0 <= i <= s.len(),
        forall|j: int| 0 <= j < i ==> s[j] != 0,
        i < s.len() ==> s[i] == 0,
    ensures
        spec_first_zero(s) == i,
    decreases s.len(),
{
    if s.len() > 0 && s[0] != 0 {
        lemma_first_zero_is(s.skip(1), i - 1);
    }
}

/// Copies `v[start..end]` into a fresh vector.
pub(crate) fn copy_range(v: &Vec<u8>, start: usize, end: usize) -> (r: Vec<u8>)
    requires
        start <= end <= v@.len(),
    ensures
        r@ == v@.subrange(start as int, end as int),
{
    let mut out: Vec<u8> = Vec::new();
    let mut i: usize = start;
    while i < end
        invariant
            start <= i <= end <= v@.len(),
            out@ == v@.subrange(start as int, i as int),
        decreases end - i,
    {
        out.push(v[i]);
        i = i + 1;
        proof {
            assert(out@ =~= v@.subrange(start as int, i as int));
        }
    }
    out
}

/// Decodes a sign payload. Pure parse, no side effects: the result is a
/// function of the bytes alone, and a rejected payload never panics or reads
/// out of bounds.
pub fn decode(bytes: &Vec<u8>) -> (r: Result<Tx, DecodeError>)
    ensures
        match r {
            Ok(tx) => {
                &&& spec_decode_err(bytes@) is None
                &&& tx.wf()
                &&& tx.coin@ == spec_coin(bytes@)
                &&& tx.value == spec_value(bytes@)
                &&& tx.to@ == spec_to(bytes@)
                &&& tx.memo@ == spec_memo(bytes@)
            },
            Err(e) => spec_decode_err(bytes@) == Some(e),
        },
{
    let n = bytes.len();
    let mut sep: usize = 0;
    while sep < n && bytes[sep] != 0
        invariant
            sep <= n,
            n == bytes@.len(),
            forall|j: int| 0 <= j < sep ==> bytes@[j] != 0,
        decreases n - sep,
    {
        sep = sep + 1;
    }
    proof {
        lemma_first_zero_is(bytes@, sep as int);
    }
    if n - sep < MIN_SIGN_PAYLOAD {
        return Err(DecodeError::Malformed);
    }
    if sep > MAX_COIN_LENGTH {
        return Err(DecodeError::TooLarge);
    }
    let coin = copy_range(bytes, 0, sep);
    let b0 = bytes[sep + 1];
    let b1 = bytes[sep + 2];
    let b2 = bytes[sep + 3];
    let b3 = bytes[sep + 4];
    let b4 = bytes[sep + 5];
    let b5 = bytes[sep + 6];
    let b6 = bytes[sep + 7];
    let b7 = bytes[sep + 8];
    let value: u64 = (b0 as u64) * 0x100_0000_0000_0000 + (b1 as u64) * 0x1_0000_0000_0000
        + (b2 as u64) * 0x100_0000_0000 + (b3 as u64) * 0x1_0000_0000 + (b4 as u64) * 0x100_0000
        + (b5 as u64) * 0x1_0000 + (b6 as u64) * 0x100 + (b7 as u64);
    let to = copy_range(bytes, sep + 9, sep + 29);
    let memo = copy_range(bytes, sep + 29, n);
    proof {
        assert(bytes@.subrange(sep + 1, sep + 9)[0] == bytes@[sep + 1]);
        assert(value == spec_value(bytes@));
    }
    Ok(Tx { coin, value, to, memo })
}

/// Decoding is total: any payload shorter than the minimum frame is rejected
/// as `Malformed`, whatever its bytes.
pub proof fn lemma_short_payload_malformed(s: Seq<u8>)
    requires
        s.len() < MIN_SIGN_PAYLOAD,
    ensures
        spec_decode_err(s) == Some(DecodeError::Malformed),
{
    lemma_first_zero_bounds(s);
}

} // verus!
