//! Byte-level building blocks: the canonical encoding of a message (the
//! preimage that gets hashed and signed), hexadecimal encoding for message
//! identifiers, hex validity for configured public keys, and string equality
//! proved through UTF-8.

use vstd::prelude::*;

verus! {

use vstd::utf8::encode_utf8;
use vstd::utf8::encode_utf8_decode_utf8;
use crate::types::CrossChainMessage;
use crate::types::MessageView;

/// The eight bytes of `n`, least significant first.
pub open spec fn u64_le_bytes(n: u64) -> Seq<u8> {
    Seq::new(8, |i: int| ((n >> ((8 * i) as u64)) & 0xff) as u8)
}

/// Appends the eight little-endian bytes of `n`.
pub fn push_u64_le(out: &mut Vec<u8>, n: u64)
    ensures
        final(out)@ == old(out)@ + u64_le_bytes(n),
{
    let mut i: usize = 0;
    while i < 8
        invariant
            i <= 8,
            out@ == old(out)@ + u64_le_bytes(n).take(i as int),
        decreases 8 - i,
    {
        let b: u8 = ((n >> (8 * (i as u64))) & 0xff) as u8;
        out.push(b);
        proof {
            assert(u64_le_bytes(n)[i as int] == b);
            assert(u64_le_bytes(n).take(i + 1) =~= u64_le_bytes(n).take(i as int).push(b));
        }
        i = i + 1;
    }
    proof {
        assert(u64_le_bytes(n).take(8) =~= u64_le_bytes(n));
    }
}

/// Appends a copy of `bytes`.
pub fn push_bytes(out: &mut Vec<u8>, bytes: &[u8])
    ensures
        final(out)@ == old(out)@ + bytes@,
{
    let mut i: usize = 0;
    while i < bytes.len()
        invariant
            i <= bytes@.len(),
            out@ == old(out)@ + bytes@.take(i as int),
        decreases bytes@.len() - i,
    {
        out.push(bytes[i]);
        proof {
            assert(bytes@.take(i + 1) =~= bytes@.take(i as int).push(bytes@[i as int]));
        }
        i = i + 1;
    }
    proof {
        assert(bytes@.take(bytes@.len() as int) =~= bytes@);
    }
}

/// `bytes` preceded by its length as eight little-endian bytes.
pub open spec fn len_prefixed(bytes: Seq<u8>) -> Seq<u8> {
    u64_le_bytes(bytes.len() as u64) + bytes
}

/// Appends the length of `bytes` and then `bytes` itself.
pub fn push_len_prefixed(out: &mut Vec<u8>, bytes: &[u8])
    ensures
        final(out)@ == old(out)@ + len_prefixed(bytes@),
{
    push_u64_le(out, bytes.len() as u64);
    push_bytes(out, bytes);
    proof {
        assert(out@ =~= old(out)@ + len_prefixed(bytes@));
    }
}

/// The canonical byte encoding of a message: the nonce, then each field
/// length-prefixed, strings as their UTF-8 bytes. This is the preimage that
/// the authenticator hashes and signs.
pub open spec fn encoding_of(m: MessageView) -> Seq<u8> {
    u64_le_bytes(m.nonce) + len_prefixed(encode_utf8(m.source_chain)) + len_prefixed(
        encode_utf8(m.target_chain),
    ) + len_prefixed(encode_utf8(m.message_type)) + len_prefixed(m.sender) + len_prefixed(
        m.payload,
    )
}

/// Computes the canonical byte encoding of `m`.
pub fn encode_message(m: &CrossChainMessage) -> (r: Vec<u8>)
    ensures
        r@ == encoding_of(m@),
{
    let mut out: Vec<u8> = Vec::new();
    push_u64_le(&mut out, m.nonce);
    push_len_prefixed(&mut out, m.source_chain.as_str().as_bytes());
    push_len_prefixed(&mut out, m.target_chain.as_str().as_bytes());
    push_len_prefixed(&mut out, m.message_type.as_str().as_bytes());
    push_len_prefixed(&mut out, m.sender.as_slice());
    push_len_prefixed(&mut out, m.payload.as_slice());
    proof {
        assert(out@ =~= encoding_of(m@));
    }
    out
}

/// Equal little-endian byte strings come from equal values.
proof fn lemma_u64_le_bytes_injective(n1: u64, n2: u64)
    requires
        u64_le_bytes(n1) == u64_le_bytes(n2),
    ensures
        n1 == n2,
{
    assert(u64_le_bytes(n1)[0] == ((n1 >> 0u64) & 0xff) as u8);
    assert(u64_le_bytes(n1)[1] == ((n1 >> 8u64) & 0xff) as u8);
    assert(u64_le_bytes(n1)[2] == ((n1 >> 16u64) & 0xff) as u8);
    assert(u64_le_bytes(n1)[3] == ((n1 >> 24u64) & 0xff) as u8);
    assert(u64_le_bytes(n1)[4] == ((n1 >> 32u64) & 0xff) as u8);
    assert(u64_le_bytes(n1)[5] == ((n1 >> 40u64) & 0xff) as u8);
    assert(u64_le_bytes(n1)[6] == ((n1 >> 48u64) & 0xff) as u8);
    assert(u64_le_bytes(n1)[7] == ((n1 >> 56u64) & 0xff) as u8);
    assert(u64_le_bytes(n2)[0] == ((n2 >> 0u64) & 0xff) as u8);
    assert(u64_le_bytes(n2)[1] == ((n2 >> 8u64) & 0xff) as u8);
    assert(u64_le_bytes(n2)[2] == ((n2 >> 16u64) & 0xff) as u8);
    assert(u64_le_bytes(n2)[3] == ((n2 >> 24u64) & 0xff) as u8);
    assert(u64_le_bytes(n2)[4] == ((n2 >> 32u64) & 0xff) as u8);
    assert(u64_le_bytes(n2)[5] == ((n2 >> 40u64) & 0xff) as u8);
    assert(u64_le_bytes(n2)[6] == ((n2 >> 48u64) & 0xff) as u8);
    assert(u64_le_bytes(n2)[7] == ((n2 >> 56u64) & 0xff) as u8);
    assert((((n1 >> 0u64) & 0xff) as u8 == ((n2 >> 0u64) & 0xff) as u8 && ((n1 >> 8u64) & 0xff) as u8
        == ((n2 >> 8u64) & 0xff) as u8 && ((n1 >> 16u64) & 0xff) as u8 == ((n2 >> 16u64)
        & 0xff) as u8 && ((n1 >> 24u64) & 0xff) as u8 == ((n2 >> 24u64) & 0xff) as u8 && ((n1
        >> 32u64) & 0xff) as u8 == ((n2 >> 32u64) & 0xff) as u8 && ((n1 >> 40u64) & 0xff) as u8
        == ((n2 >> 40u64) & 0xff) as u8 && ((n1 >> 48u64) & 0xff) as u8 == ((n2 >> 48u64)
        & 0xff) as u8 && ((n1 >> 56u64) & 0xff) as u8 == ((n2 >> 56u64) & 0xff) as u8) ==> n1
        == n2) by (bit_vector);
}

/// A length-prefixed segment and what follows it are both determined by the
/// concatenation.
proof fn lemma_len_prefixed_injective(a1: Seq<u8>, r1: Seq<u8>, a2: Seq<u8>, r2: Seq<u8>)
    requires
        len_prefixed(a1) + r1 == len_prefixed(a2) + r2,
        a1.len() <= u64::MAX,
        a2.len() <= u64::MAX,
    ensures
        a1 == a2,
        r1 == r2,
{
    let s1 = len_prefixed(a1) + r1;
    let s2 = len_prefixed(a2) + r2;
    assert(len_prefixed(a1).len() == 8 + a1.len());
    assert(len_prefixed(a2).len() == 8 + a2.len());
    assert forall|i: int|
        0 <= i < 8 implies #[trigger] u64_le_bytes(a1.len() as u64)[i] == u64_le_bytes(
        a2.len() as u64,
    )[i] by {
        assert(s1[i] == u64_le_bytes(a1.len() as u64)[i]);
        assert(s2[i] == u64_le_bytes(a2.len() as u64)[i]);
    }
    assert(u64_le_bytes(a1.len() as u64) =~= u64_le_bytes(a2.len() as u64));
    lemma_u64_le_bytes_injective(a1.len() as u64, a2.len() as u64);
    assert(a1.len() == a2.len());
    assert forall|i: int| 0 <= i < a1.len() implies #[trigger] a1[i] == a2[i] by {
        assert(s1[8 + i] == a1[i]);
        assert(s2[8 + i] == a2[i]);
    }
    assert(a1 =~= a2);
    assert(s1.len() == len_prefixed(a1).len() + r1.len());
    assert(s2.len() == len_prefixed(a2).len() + r2.len());
    assert(s1.len() == s2.len());
    assert(r1.len() == r2.len());
    assert forall|i: int| 0 <= i < r1.len() implies #[trigger] r1[i] == r2[i] by {
        assert(s1[8 + a1.len() + i] == r1[i]);
        assert(s2[8 + a2.len() + i] == r2[i]);
    }
    assert(r1 =~= r2);
}

/// Whether each field of `m` is small enough for its length to be counted in
/// a `u64` — true of every message that exists in memory.
pub open spec fn view_fits(m: MessageView) -> bool {
    &&& encode_utf8(m.source_chain).len() <= u64::MAX
    &&& encode_utf8(m.target_chain).len() <= u64::MAX
    &&& encode_utf8(m.message_type).len() <= u64::MAX
    &&& m.sender.len() <= u64::MAX
    &&& m.payload.len() <= u64::MAX
}

/// The canonical encoding is injective: two messages with the same encoding
/// are the same message. Changing any field of a message — a byte of its
/// payload included — changes the bytes that get hashed and signed.
pub proof fn lemma_encoding_injective(m1: MessageView, m2: MessageView)
    requires
        encoding_of(m1) == encoding_of(m2),
        view_fits(m1),
        view_fits(m2),
    ensures
        m1 == m2,
{
    let tail1 = len_prefixed(encode_utf8(m1.source_chain)) + (len_prefixed(
        encode_utf8(m1.target_chain),
    ) + (len_prefixed(encode_utf8(m1.message_type)) + (len_prefixed(m1.sender) + len_prefixed(
        m1.payload,
    ))));
    let tail2 = len_prefixed(encode_utf8(m2.source_chain)) + (len_prefixed(
        encode_utf8(m2.target_chain),
    ) + (len_prefixed(encode_utf8(m2.message_type)) + (len_prefixed(m2.sender) + len_prefixed(
        m2.payload,
    ))));
    assert(encoding_of(m1) =~= u64_le_bytes(m1.nonce) + tail1);
    assert(encoding_of(m2) =~= u64_le_bytes(m2.nonce) + tail2);
    let s1 = u64_le_bytes(m1.nonce) + tail1;
    let s2 = u64_le_bytes(m2.nonce) + tail2;
    assert forall|i: int|
        0 <= i < 8 implies #[trigger] u64_le_bytes(m1.nonce)[i] == u64_le_bytes(m2.nonce)[i] by {
        assert(s1[i] == u64_le_bytes(m1.nonce)[i]);
        assert(s2[i] == u64_le_bytes(m2.nonce)[i]);
    }
    assert(u64_le_bytes(m1.nonce) =~= u64_le_bytes(m2.nonce));
    lemma_u64_le_bytes_injective(m1.nonce, m2.nonce);
    assert(tail1.len() == tail2.len());
    assert forall|i: int| 0 <= i < tail1.len() implies #[trigger] tail1[i] == tail2[i] by {
        assert(s1[8 + i] == tail1[i]);
        assert(s2[8 + i] == tail2[i]);
    }
    assert(tail1 =~= tail2);
    let r1 = len_prefixed(encode_utf8(m1.target_chain)) + (len_prefixed(
        encode_utf8(m1.message_type),
    ) + (len_prefixed(m1.sender) + len_prefixed(m1.payload)));
    let r2 = len_prefixed(encode_utf8(m2.target_chain)) + (len_prefixed(
        encode_utf8(m2.message_type),
    ) + (len_prefixed(m2.sender) + len_prefixed(m2.payload)));
    lemma_len_prefixed_injective(
        encode_utf8(m1.source_chain),
        r1,
        encode_utf8(m2.source_chain),
        r2,
    );
    let r3 = len_prefixed(encode_utf8(m1.message_type)) + (len_prefixed(m1.sender) + len_prefixed(
        m1.payload,
    ));
    let r4 = len_prefixed(encode_utf8(m2.message_type)) + (len_prefixed(m2.sender) + len_prefixed(
        m2.payload,
    ));
    lemma_len_prefixed_injective(
        encode_utf8(m1.target_chain),
        r3,
        encode_utf8(m2.target_chain),
        r4,
    );
    let r5 = len_prefixed(m1.sender) + len_prefixed(m1.payload);
    let r6 = len_prefixed(m2.sender) + len_prefixed(m2.payload);
    lemma_len_prefixed_injective(
        encode_utf8(m1.message_type),
        r5,
        encode_utf8(m2.message_type),
        r6,
    );
    lemma_len_prefixed_injective(m1.sender, len_prefixed(m1.payload), m2.sender, len_prefixed(m2.payload));
    lemma_len_prefixed_injective(m1.payload, Seq::empty(), m2.payload, Seq::empty());
    encode_utf8_decode_utf8(m1.source_chain);
    encode_utf8_decode_utf8(m2.source_chain);
    encode_utf8_decode_utf8(m1.target_chain);
    encode_utf8_decode_utf8(m2.target_chain);
    encode_utf8_decode_utf8(m1.message_type);
    encode_utf8_decode_utf8(m2.message_type);
    assert(m1 =~= m2);
}

/// Character-sequence equality of two string slices, decided through their
/// UTF-8 bytes; UTF-8 decoding of an encoding gives the characters back, so
/// equal bytes mean equal strings.
pub fn str_eq(a: &str, b: &str) -> (r: bool)
    ensures
        r == (a@ == b@),
{
    let ab = a.as_bytes();
    let bb = b.as_bytes();
    if ab.len() != bb.len() {
        return false;
    }
    let mut i: usize = 0;
    while i < ab.len()
        invariant
            ab@ == encode_utf8(a@),
            bb@ == encode_utf8(b@),
            ab@.len() == bb@.len(),
            i <= ab@.len(),
            forall|k: int| 0 <= k < i ==> ab@[k] == bb@[k],
        decreases ab@.len() - i,
    {
        if ab[i] != bb[i] {
            return false;
        }
        i = i + 1;
    }
    proof {
        assert(ab@ =~= bb@);
        encode_utf8_decode_utf8(a@);
        encode_utf8_decode_utf8(b@);
    }
    true
}

/// The lowercase hexadecimal digit (as an ASCII byte) for a value below 16.
pub open spec fn hex_digit(n: u8) -> u8 {
    if n < 10 {
        (0x30 + n) as u8
    } else {
        (0x57 + n) as u8
    }
}

/// The lowercase hexadecimal encoding of `bytes`: two ASCII digits per byte,
/// high nibble first.
pub open spec fn hex_of(bytes: Seq<u8>) -> Seq<u8> {
    Seq::new(
        bytes.len() * 2,
        |i: int|
            if i % 2 == 0 {
                hex_digit(bytes[i / 2] >> 4)
            } else {
                hex_digit(bytes[i / 2] & 0x0f)
            },
    )
}

fn hex_digit_exec(n: u8) -> (r: u8)
    requires
        n < 16,
    ensures
        r == hex_digit(n),
{
    if n < 10 {
        0x30 + n
    } else {
        0x57 + n
    }
}

/// Encodes `bytes` as lowercase hexadecimal ASCII.
pub fn hex_encode(bytes: &[u8]) -> (r: Vec<u8>)
    ensures
        r@ == hex_of(bytes@),
{
    let mut out: Vec<u8> = Vec::new();
    let mut i: usize = 0;
    while i < bytes.len()
        invariant
            i <= bytes@.len(),
            out@ == hex_of(bytes@).take(2 * i as int),
        decreases bytes@.len() - i,
    {
        let b = bytes[i];
        proof {
            assert(b >> 4 < 16 && b & 0x0f < 16) by (bit_vector);
        }
        out.push(hex_digit_exec(b >> 4));
        out.push(hex_digit_exec(b & 0x0f));
        proof {
            assert(hex_of(bytes@)[2 * i as int] == hex_digit(b >> 4));
            assert(hex_of(bytes@)[2 * i as int + 1] == hex_digit(b & 0x0f));
            assert(hex_of(bytes@).take(2 * (i + 1) as int) =~= hex_of(bytes@).take(
                2 * i as int,
            ).push(hex_digit(b >> 4)).push(hex_digit(b & 0x0f)));
        }
        i = i + 1;
    }
    proof {
        assert(hex_of(bytes@).take(2 * bytes@.len() as int) =~= hex_of(bytes@));
    }
    out
}

/// Two values below 16 with the same hexadecimal digit are the same value.
proof fn lemma_hex_digit_injective(x: u8, y: u8)
    requires
        x < 16,
        y < 16,
        hex_digit(x) == hex_digit(y),
    ensures
        x == y,
{
}

/// Hexadecimal encoding is injective: equal encodings come from equal bytes.
/// Deduplicating by a message's hex identifier is deduplicating by its
/// signature.
pub proof fn lemma_hex_of_injective(a: Seq<u8>, b: Seq<u8>)
    requires
        hex_of(a) == hex_of(b),
    ensures
        a == b,
{
    assert(hex_of(a).len() == a.len() * 2);
    assert(hex_of(b).len() == b.len() * 2);
    assert(a.len() == b.len());
    assert forall|i: int| 0 <= i < a.len() implies a[i] == b[i] by {
        let x = a[i];
        let y = b[i];
        assert(hex_of(a)[2 * i] == hex_digit(x >> 4));
        assert(hex_of(b)[2 * i] == hex_digit(y >> 4));
        assert(hex_of(a)[2 * i + 1] == hex_digit(x & 0x0f));
        assert(hex_of(b)[2 * i + 1] == hex_digit(y & 0x0f));
        assert(x >> 4 < 16 && y >> 4 < 16 && x & 0x0f < 16 && y & 0x0f < 16) by (bit_vector);
        lemma_hex_digit_injective(x >> 4, y >> 4);
        lemma_hex_digit_injective(x & 0x0f, y & 0x0f);
        assert(x >> 4 == y >> 4 && x & 0x0f == y & 0x0f ==> x == y) by (bit_vector);
    }
    assert(a =~= b);
}

/// Whether `b` is an ASCII hexadecimal digit.
pub open spec fn is_hex_ascii(b: u8) -> bool {
    (0x30 <= b && b <= 0x39) || (0x61 <= b && b <= 0x66) || (0x41 <= b && b <= 0x46)
}

/// Whether `bytes` is a well-formed hexadecimal encoding: an even number of
/// ASCII hex digits.
pub open spec fn hex_valid(bytes: Seq<u8>) -> bool {
    bytes.len() % 2 == 0 && forall|i: int| 0 <= i < bytes.len() ==> is_hex_ascii(bytes[i])
}

fn is_hex_ascii_exec(b: u8) -> (r: bool)
    ensures
        r == is_hex_ascii(b),
{
    (0x30 <= b && b <= 0x39) || (0x61 <= b && b <= 0x66) || (0x41 <= b && b <= 0x46)
}

/// Whether `s` is a well-formed hexadecimal string (even length, hex digits
/// only), judged on its UTF-8 bytes.
pub fn is_hex_str(s: &str) -> (r: bool)
    ensures
        r == hex_valid(encode_utf8(s@)),
{
    let bytes = s.as_bytes();
    if bytes.len() % 2 != 0 {
        return false;
    }
    let mut i: usize = 0;
    while i < bytes.len()
        invariant
            bytes@ == encode_utf8(s@),
            bytes@.len() % 2 == 0,
            i <= bytes@.len(),
            forall|k: int| 0 <= k < i ==> is_hex_ascii(bytes@[k]),
        decreases bytes@.len() - i,
    {
        if !is_hex_ascii_exec(bytes[i]) {
            return false;
        }
        i = i + 1;
    }
    true
}

} // verus!
