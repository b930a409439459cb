//! The Variable Byte Integer codec: an unsigned value in `[0, 268_435_455]`
//! written as 1 to 4 bytes, seven data bits per byte, least significant digit
//! first, bit 7 set on every byte but the last.

use vstd::prelude::*;

verus! {

/// Most bytes an encoding may take.
pub const MAX_ENCODED_LEN: usize = 4;

/// Largest value the format can represent (2^28 - 1).
pub const MAX_VALUE: u32 = 268_435_455;

/// Largest weight a digit can have: that of the fourth byte (128^3).
const MAX_MULTIPLIER: u32 = 0x80 * 0x80 * 0x80;

/// Bit 7 of a byte: set when more bytes follow.
pub const CONTINUATION_BIT: u8 = 0x80;

/// Mask of the seven data bits of a byte.
pub const DIGIT_MASK: u8 = 0x7F;

/// The one error of the codec: a value out of range, or bytes that are no
/// encoding of a value.
#[derive(Debug, Clone, Copy, PartialEq, Eq, Structural)]
pub struct MalformedPacket;

impl MalformedPacket {
    /// A short description of the error.
    pub fn as_str(&self) -> (r: &'static str)
        ensures
            r@ == "Malformed Packet"@,
    {
        "Malformed Packet"
    }
}

/// Whether `b` announces that more bytes follow.
pub open spec fn has_continuation(b: u8) -> bool {
    b >= 0x80
}

/// The base-128 digit carried by `b`.
pub open spec fn digit(b: u8) -> nat {
    (b % 0x80) as nat
}

/// 128 to the power `n`.
pub open spec fn pow128(n: nat) -> nat
    decreases n,
{
    if n == 0 {
        1
    } else {
        0x80 * pow128((n - 1) as nat)
    }
}

/// Continuation-bit discipline: at least one byte, bit 7 set on every byte
/// but the last, clear on the last.
pub open spec fn is_well_formed(s: Seq<u8>) -> bool {
    &&& s.len() > 0
    &&& forall|i: int| 0 <= i < s.len() - 1 ==> has_continuation(#[trigger] s[i])
    &&& !has_continuation(s.last())
}

/// The number that the digits of `s` spell, least significant first.
pub open spec fn value_of(s: Seq<u8>) -> nat
    decreases s.len(),
{
    if s.len() == 0 {
        0
    } else {
        digit(s[0]) + 0x80 * value_of(s.drop_first())
    }
}

/// The canonical (shortest) encoding of `v`.
pub open spec fn encoding_of(v: nat) -> Seq<u8>
    decreases v,
{
    if v < 0x80 {
        seq![v as u8]
    } else {
        seq![(v % 0x80 + 0x80) as u8] + encoding_of(v / 0x80)
    }
}

/// What `decode` returns for `s`: its value when it is a well-formed
/// encoding of at most four bytes, else the error.
pub open spec fn decode_result(s: Seq<u8>) -> Result<u32, MalformedPacket> {
    if s.len() <= MAX_ENCODED_LEN && is_well_formed(s) {
        Ok(value_of(s) as u32)
    } else {
        Err(MalformedPacket)
    }
}

proof fn lemma_pow128_values()
    ensures
        pow128(0) == 1,
        pow128(1) == 0x80,
        pow128(2) == 0x4000,
        pow128(3) == 0x20_0000,
        pow128(4) == 0x1000_0000,
{
    reveal_with_fuel(pow128, 5);
}

/// A sequence of `n` digits spells less than `128^n`.
proof fn lemma_value_of_bound(s: Seq<u8>)
    ensures
        value_of(s) < pow128(s.len()),
    decreases s.len(),
{
    if s.len() > 0 {
        lemma_value_of_bound(s.drop_first());
        let d = digit(s[0]);
        let r = value_of(s.drop_first());
        let p = pow128(s.drop_first().len());
        assert(d + 0x80 * r < 0x80 * p) by (nonlinear_arith)
            requires
                d < 0x80,
                r < p,
        ;
    }
}

/// Appending a byte adds its digit at the next power of 128.
proof fn lemma_value_of_push(s: Seq<u8>, b: u8)
    ensures
        value_of(s.push(b)) == value_of(s) + digit(b) * pow128(s.len()),
    decreases s.len(),
{
    if s.len() == 0 {
        assert(s.push(b).drop_first() =~= Seq::<u8>::empty());
        assert(value_of(Seq::<u8>::empty()) == 0);
        assert(pow128(0) == 1);
    } else {
        let t = s.drop_first();
        assert(s.push(b).drop_first() =~= t.push(b));
        lemma_value_of_push(t, b);
        let d = digit(b);
        let p = pow128(t.len());
        assert(0x80 * (value_of(t) + d * p) == 0x80 * value_of(t) + d * (0x80 * p))
            by (nonlinear_arith);
    }
}

/// The canonical encoding is well formed and spells `v`.
proof fn lemma_encoding_of(v: nat)
    ensures
        is_well_formed(encoding_of(v)),
        value_of(encoding_of(v)) == v,
    decreases v,
{
    let e = encoding_of(v);
    if v < 0x80 {
        assert(e.drop_first() =~= Seq::<u8>::empty());
        assert(value_of(Seq::<u8>::empty()) == 0);
    } else {
        let rest = encoding_of(v / 0x80);
        lemma_encoding_of(v / 0x80);
        assert(e.drop_first() =~= rest);
        assert forall|i: int| 0 <= i < e.len() - 1 implies has_continuation(#[trigger] e[i]) by {
            if i > 0 {
                assert(e[i] == rest[i - 1]);
            }
        }
        assert(e.last() == rest.last());
        assert(v == v % 0x80 + 0x80 * (v / 0x80)) by (nonlinear_arith);
        assert(digit(e[0]) == v % 0x80);
    }
}

/// A value below `128^k` has a canonical encoding of at most `k` bytes.
proof fn lemma_encoding_len(v: nat, k: nat)
    requires
        k >= 1,
        v < pow128(k),
    ensures
        encoding_of(v).len() <= k,
    decreases v,
{
    if v >= 0x80 {
        let k1 = (k - 1) as nat;
        if k1 == 0 {
            assert(pow128(k) == 0x80 * pow128(0));
        }
        assert(v / 0x80 < pow128(k1)) by (nonlinear_arith)
            requires
                v < 0x80 * pow128(k1),
        ;
        lemma_encoding_len(v / 0x80, k1);
    }
}

/// Decoding the encoding of any value in range gives that value back.
pub proof fn lemma_round_trip(v: u32)
    requires
        v <= MAX_VALUE,
    ensures
        decode_result(encoding_of(v as nat)) == Ok::<u32, MalformedPacket>(v),
{
    lemma_encoding_of(v as nat);
    lemma_pow128_values();
    lemma_encoding_len(v as nat, 4);
}

/// The encoding of `v` is the shortest sequence whose digits spell `v`: no
/// non-empty byte sequence of that value, well formed or not, is shorter.
pub proof fn lemma_encoding_is_shortest(v: nat, s: Seq<u8>)
    requires
        s.len() > 0,
        value_of(s) == v,
    ensures
        encoding_of(v).len() <= s.len(),
    decreases s.len(),
{
    if v >= 0x80 {
        let t = s.drop_first();
        let d = digit(s[0]);
        if t.len() == 0 {
            assert(value_of(t) == 0);
        }
        assert(t.len() > 0);
        assert(value_of(t) == v / 0x80) by (nonlinear_arith)
            requires
                v == d + 0x80 * value_of(t),
                d < 0x80,
        ;
        lemma_encoding_is_shortest(v / 0x80, t);
    }
}

/// For sequences of at most four bytes, the validator accepts exactly those
/// that `decode` accepts; it rejects the empty sequence.
pub proof fn lemma_validator_agrees_with_decode(s: Seq<u8>)
    requires
        s.len() <= MAX_ENCODED_LEN,
    ensures
        is_well_formed(s) <==> decode_result(s) is Ok,
        !is_well_formed(Seq::<u8>::empty()),
{
}

proof fn lemma_pow128_monotonic(a: nat, b: nat)
    requires
        a <= b,
    ensures
        pow128(a) <= pow128(b),
    decreases b - a,
{
    if a < b {
        lemma_pow128_monotonic(a, (b - 1) as nat);
    }
}

proof fn lemma_bits(b: u8)
    ensures
        (b & CONTINUATION_BIT != 0) == has_continuation(b),
        b & DIGIT_MASK == b % 0x80,
        b < 0x80 ==> b | CONTINUATION_BIT == b + 0x80,
{
    assert((b & 0x80u8 != 0) == (b >= 0x80)) by (bit_vector);
    assert(b & 0x7Fu8 == b % 0x80) by (bit_vector);
    assert(b < 0x80 ==> b | 0x80u8 == b + 0x80) by (bit_vector);
}

/// Checks the continuation-bit discipline of `bytes_seq` alone, with no
/// bound on its length: false for an empty sequence, for a byte other than
/// the last without bit 7, and for a last byte with bit 7.
pub fn is_byte_sequence_valid(bytes_seq: &[u8]) -> (r: bool)
    ensures
        r == is_well_formed(bytes_seq@),
{
    let len = bytes_seq.len();
    if len == 0 {
        return false;
    }
    let mut i: usize = 0;
    while i < len
        invariant
            len == bytes_seq@.len(),
            0 < len,
            i <= len,
            forall|j: int| 0 <= j < i && j < len - 1 ==> has_continuation(#[trigger] bytes_seq@[j]),
            i == len ==> !has_continuation(bytes_seq@.last()),
        decreases len - i,
    {
        let byte = bytes_seq[i];
        proof {
            lemma_bits(byte);
        }
        if i + 1 == len {
            if byte & CONTINUATION_BIT != 0 {
                return false;
            }
        } else if byte & CONTINUATION_BIT == 0 {
            return false;
        }
        i += 1;
    }
    true
}

/// Encodes `value` as its canonical Variable Byte Integer. Fails when
/// `value` exceeds `MAX_VALUE`.
pub fn encode(value: u32) -> (r: Result<Vec<u8>, MalformedPacket>)
    ensures
        value <= MAX_VALUE ==> r is Ok && r->Ok_0@ == encoding_of(value as nat),
        r matches Ok(bytes) ==> is_well_formed(bytes@) && bytes@.len() <= MAX_ENCODED_LEN
            && value_of(bytes@) == value,
        value > MAX_VALUE ==> r == Err::<Vec<u8>, MalformedPacket>(MalformedPacket),
{
    if value > MAX_VALUE {
        return Err(MalformedPacket);
    }
    let mut rest: u32 = value;
    let mut encoded_vec: Vec<u8> = Vec::new();
    loop
        invariant_except_break
            encoded_vec@ + encoding_of(rest as nat) == encoding_of(value as nat),
        ensures
            encoded_vec@ == encoding_of(value as nat),
        decreases rest,
    {
        let ghost before = rest;
        let mut encoded_byte: u8 = (rest % 0x80) as u8;
        rest = rest / 0x80;
        if rest > 0 {
            proof {
                lemma_bits(encoded_byte);
                assert(encoding_of(before as nat) == seq![(before % 0x80 + 0x80) as u8]
                    + encoding_of(rest as nat));
            }
            encoded_byte = encoded_byte | CONTINUATION_BIT;
            encoded_vec.push(encoded_byte);
            assert(encoded_vec@ + encoding_of(rest as nat) =~= encoding_of(value as nat));
        } else {
            encoded_vec.push(encoded_byte);
            assert(encoded_vec@ =~= encoding_of(value as nat));
            break;
        }
    }
    proof {
        lemma_encoding_of(value as nat);
        lemma_pow128_values();
        lemma_encoding_len(value as nat, 4);
    }
    // Cannot happen for a value in range; kept so that no over-long
    // sequence could ever leave this function.
    if encoded_vec.len() > MAX_ENCODED_LEN {
        return Err(MalformedPacket);
    }
    Ok(encoded_vec)
}

/// Decodes a Variable Byte Integer, first byte least significant. Fails on
/// an empty sequence, on one longer than `MAX_ENCODED_LEN`, and on one that
/// breaks the continuation-bit discipline.
pub fn decode(encoded_vec: &[u8]) -> (r: Result<u32, MalformedPacket>)
    ensures
        r == decode_result(encoded_vec@),
        r is Ok ==> r->Ok_0 <= MAX_VALUE && r->Ok_0 == value_of(encoded_vec@),
{
    if encoded_vec.len() == 0 || encoded_vec.len() > MAX_ENCODED_LEN || !is_byte_sequence_valid(
        encoded_vec,
    ) {
        return Err(MalformedPacket);
    }
    let len = encoded_vec.len();
    let mut multiplier: u32 = 1;
    let mut value: u32 = 0;
    let mut i: usize = 0;
    proof {
        lemma_pow128_values();
        assert(encoded_vec@.take(0) =~= Seq::<u8>::empty());
    }
    while i < len
        invariant
            len == encoded_vec@.len(),
            len <= MAX_ENCODED_LEN,
            i <= len,
            multiplier == pow128(i as nat),
            value == value_of(encoded_vec@.take(i as int)),
            pow128(3) == 0x20_0000,
            pow128(4) == 0x1000_0000,
        decreases len - i,
    {
        let byte = encoded_vec[i];
        let ghost prefix = encoded_vec@.take(i as int);
        proof {
            lemma_bits(byte);
            lemma_value_of_bound(prefix);
            assert(encoded_vec@.take(i + 1) =~= prefix.push(byte));
            lemma_value_of_push(prefix, byte);
            if i < 3 {
                lemma_pow128_monotonic(i as nat, 3);
            }
            let d = digit(byte);
            let p = pow128(i as nat);
            assert(d * p <= 0x7F * p) by (nonlinear_arith)
                requires
                    d <= 0x7F,
            ;
        }
        value = value + (byte & DIGIT_MASK) as u32 * multiplier;
        // Cannot happen within four bytes; guards the multiplication below
        // should the length bound ever be relaxed.
        if multiplier > MAX_MULTIPLIER {
            return Err(MalformedPacket);
        }
        multiplier = multiplier * 0x80;
        i += 1;
    }
    assert(encoded_vec@.take(len as int) =~= encoded_vec@);
    proof {
        lemma_value_of_bound(encoded_vec@);
        lemma_pow128_monotonic(len as nat, 4);
    }
    Ok(value)
}

} // verus!
